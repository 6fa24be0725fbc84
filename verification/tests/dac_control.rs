use hv_supply::dac_control::{
    clamp_phase1, hv_to_dac_raw, safe_ramp, DacCmd, DacController, DacPlan, DAC_SATURATION_UV,
    HV_MAX_PHASE1_UV, HV_STEP_UV, RAMP_MAX_TICKS, RAMP_PLAN_LEN, RAMP_TICK_MS,
};

/// The codes that a plan writes.
fn written(plan: &DacPlan) -> Vec<u16> {
    plan.codes[..plan.len].to_vec()
}

#[test]
fn new_controller_is_at_zero() {
    let ctrl = DacController::new();
    assert_eq!(ctrl.setpoint_uv(), 0);
}

#[test]
fn clamp_keeps_values_inside_the_phase() {
    assert_eq!(clamp_phase1(0), 0);
    assert_eq!(clamp_phase1(1), 1);
    assert_eq!(clamp_phase1(4_200_000), 4_200_000);
    assert_eq!(clamp_phase1(10_000_000), 10_000_000);
}

#[test]
fn clamp_limits_values_outside_the_phase() {
    assert_eq!(clamp_phase1(-1), 0);
    assert_eq!(clamp_phase1(i64::MIN), 0);
    assert_eq!(clamp_phase1(10_000_001), 10_000_000);
    assert_eq!(clamp_phase1(50_000_000), 10_000_000);
    assert_eq!(clamp_phase1(i64::MAX), 10_000_000);
}

#[test]
fn dac_code_of_known_setpoints() {
    assert_eq!(hv_to_dac_raw(0), 0);
    assert_eq!(hv_to_dac_raw(100_000), 1);
    assert_eq!(hv_to_dac_raw(1_000_000), 11);
    assert_eq!(hv_to_dac_raw(5_000_000), 57);
    assert_eq!(hv_to_dac_raw(9_900_000), 113);
    assert_eq!(hv_to_dac_raw(10_000_000), 114);
}

#[test]
fn dac_code_rounds_to_nearest() {
    // 43_956 uV is 0.4999995 codes, 43_957 uV is 0.5000109 codes.
    assert_eq!(hv_to_dac_raw(43_956), 0);
    assert_eq!(hv_to_dac_raw(43_957), 1);
    // 4 V is exactly 45.5 codes: a half rounds away from zero.
    assert_eq!(hv_to_dac_raw(4_000_000), 46);
    assert_eq!(hv_to_dac_raw(3_999_999), 45);
}

#[test]
fn dac_code_of_negative_setpoints_is_zero() {
    assert_eq!(hv_to_dac_raw(-1), 0);
    assert_eq!(hv_to_dac_raw(-10_000_000), 0);
    assert_eq!(hv_to_dac_raw(i64::MIN), 0);
}

#[test]
fn dac_code_saturates_at_sixteen_bits() {
    assert_eq!(hv_to_dac_raw(DAC_SATURATION_UV - 1), 65_534);
    assert_eq!(hv_to_dac_raw(DAC_SATURATION_UV), 65_535);
    assert_eq!(hv_to_dac_raw(i64::MAX), 65_535);
}

#[test]
fn dac_code_of_full_scale_request() {
    // 360 V would be 4095 codes.
    assert_eq!(hv_to_dac_raw(360_000_000), 4_095);
}

#[test]
fn safe_ramp_moves_one_step_towards_a_far_target() {
    assert_eq!(safe_ramp(0, 1_000_000), 100_000);
    assert_eq!(safe_ramp(1_000_000, 0), 900_000);
    assert_eq!(safe_ramp(-500_000, 500_000), -400_000);
}

#[test]
fn safe_ramp_lands_on_a_near_target() {
    assert_eq!(safe_ramp(0, 100_000), 100_000);
    assert_eq!(safe_ramp(0, 99_999), 99_999);
    assert_eq!(safe_ramp(100_000, 0), 0);
    assert_eq!(safe_ramp(7, 7), 7);
    assert_eq!(safe_ramp(0, 100_001), 100_000);
    assert_eq!(safe_ramp(0, -100_001), -100_000);
}

#[test]
fn safe_ramp_at_the_ends_of_the_integer_range() {
    assert_eq!(safe_ramp(i64::MIN, i64::MAX), i64::MIN + HV_STEP_UV);
    assert_eq!(safe_ramp(i64::MAX, i64::MIN), i64::MAX - HV_STEP_UV);
    assert_eq!(safe_ramp(i64::MAX - 5, i64::MAX), i64::MAX);
    assert_eq!(safe_ramp(i64::MIN + 5, i64::MIN), i64::MIN);
}

#[test]
fn set_voltage_stores_and_converts() {
    let mut ctrl = DacController::new();
    let code: u16 = ctrl.set_hv_volts(5_000_000);
    assert_eq!(code, 57);
    assert_eq!(ctrl.setpoint_uv(), 5_000_000);
}

#[test]
fn request_of_fifty_volts_gives_ten() {
    let mut ctrl = DacController::new();
    let plan = ctrl.handle(DacCmd::SetHvVolts(50_000_000));
    assert_eq!(ctrl.setpoint_uv(), 10_000_000);
    assert_eq!(written(&plan), vec![114u16]);
    assert_eq!(plan.tick_ms, 0);
}

#[test]
fn negative_request_gives_zero() {
    let mut ctrl = DacController::new();
    ctrl.set_hv_volts(3_000_000);
    let plan = ctrl.handle(DacCmd::SetHvVolts(-2_000_000));
    assert_eq!(ctrl.setpoint_uv(), 0);
    assert_eq!(written(&plan), vec![0u16]);
}

#[test]
fn short_step_raises_by_a_tenth_of_a_volt() {
    let mut ctrl = DacController::new();
    let plan = ctrl.handle(DacCmd::ShortStep);
    assert_eq!(ctrl.setpoint_uv(), 100_000);
    assert_eq!(written(&plan), vec![1u16]);
    assert_eq!(plan.tick_ms, 0);
    let code: u16 = ctrl.short_step();
    assert_eq!(ctrl.setpoint_uv(), 200_000);
    assert_eq!(code, 2);
}

#[test]
fn short_step_stops_at_the_maximum() {
    let mut ctrl = DacController::new();
    ctrl.set_hv_volts(9_950_000);
    ctrl.short_step();
    assert_eq!(ctrl.setpoint_uv(), 10_000_000);
    let code: u16 = ctrl.short_step();
    assert_eq!(ctrl.setpoint_uv(), 10_000_000);
    assert_eq!(code, 114);
}

#[test]
fn ramp_from_zero_takes_a_hundred_ticks() {
    let mut ctrl = DacController::new();
    let plan = ctrl.handle(DacCmd::StartRamp);
    assert_eq!(ctrl.setpoint_uv(), HV_MAX_PHASE1_UV);
    assert_eq!(plan.tick_ms, RAMP_TICK_MS);
    assert_eq!(plan.tick_ms, 100);
    assert_eq!(plan.len, 100);
    assert_eq!(plan.len, RAMP_PLAN_LEN);
    assert!(plan.len <= RAMP_MAX_TICKS);
    assert_eq!(plan.code(0), Some(1));
    assert_eq!(plan.code(1), Some(2));
    assert_eq!(plan.code(39), Some(46));
    assert_eq!(plan.code(98), Some(113));
    assert_eq!(plan.code(99), Some(114));
}

#[test]
fn ramp_codes_follow_the_setpoints() {
    let mut ctrl = DacController::new();
    let codes: Vec<u16> = written(&ctrl.start_ramp());
    let mut k: i64 = 1;
    for code in codes.iter() {
        assert_eq!(*code, hv_to_dac_raw(k * HV_STEP_UV));
        k += 1;
    }
    assert_eq!(k, 101);
}

#[test]
fn ramp_codes_never_fall() {
    let mut ctrl = DacController::new();
    ctrl.set_hv_volts(1_234_567);
    let codes: Vec<u16> = written(&ctrl.start_ramp());
    let mut last: u16 = 0;
    for code in codes.iter() {
        assert!(*code >= last);
        assert!(*code <= 114);
        last = *code;
    }
    assert_eq!(last, 114);
}

#[test]
fn ramp_from_the_maximum_writes_once() {
    let mut ctrl = DacController::new();
    ctrl.set_hv_volts(10_000_000);
    let codes: Vec<u16> = written(&ctrl.start_ramp());
    assert_eq!(codes, vec![114u16]);
    assert_eq!(ctrl.setpoint_uv(), 10_000_000);
}

#[test]
fn ramp_from_between_two_steps() {
    let mut ctrl = DacController::new();
    ctrl.set_hv_volts(9_750_000);
    let codes: Vec<u16> = written(&ctrl.start_ramp());
    // 9.85 V, 9.95 V, then the clamp at 10 V.
    assert_eq!(codes, vec![112u16, 113u16, 114u16]);
    assert_eq!(ctrl.setpoint_uv(), 10_000_000);
}

#[test]
fn ramp_from_just_below_the_maximum() {
    let mut ctrl = DacController::new();
    ctrl.set_hv_volts(9_999_999);
    let codes: Vec<u16> = written(&ctrl.start_ramp());
    assert_eq!(codes, vec![114u16]);
    ctrl.set_hv_volts(9_900_000);
    let codes: Vec<u16> = written(&ctrl.start_ramp());
    assert_eq!(codes, vec![114u16]);
    ctrl.set_hv_volts(9_899_999);
    let codes: Vec<u16> = written(&ctrl.start_ramp());
    assert_eq!(codes.len(), 2);
}

#[test]
fn setpoint_stays_in_range_over_many_commands() {
    let mut ctrl = DacController::new();
    let requests: Vec<i64> = vec![-5, 0, 12_000_000, 9_999_999, i64::MAX, i64::MIN, 3];
    for r in requests.iter() {
        ctrl.handle(DacCmd::SetHvVolts(*r));
        assert!(ctrl.setpoint_uv() >= 0 && ctrl.setpoint_uv() <= 10_000_000);
        ctrl.handle(DacCmd::ShortStep);
        assert!(ctrl.setpoint_uv() >= 0 && ctrl.setpoint_uv() <= 10_000_000);
    }
}

#[test]
fn plan_hands_out_its_codes_by_position() {
    let mut ctrl = DacController::new();
    ctrl.set_hv_volts(9_750_000);
    let plan = ctrl.start_ramp();
    assert_eq!(plan.len, 3);
    assert_eq!(plan.code(0), Some(112));
    assert_eq!(plan.code(1), Some(113));
    assert_eq!(plan.code(2), Some(114));
    assert_eq!(plan.code(3), None);
    assert_eq!(plan.code(99), None);
    assert_eq!(plan.code(100), None);
    assert_eq!(plan.code(usize::MAX), None);
}

#[test]
fn single_plan_writes_one_code_without_pause() {
    let plan = DacPlan::single(77);
    assert_eq!(plan.len, 1);
    assert_eq!(plan.tick_ms, 0);
    assert_eq!(plan.code(0), Some(77));
    assert_eq!(plan.code(1), None);
}
