use hv_supply::frequency_control::{
    DriveStep, FrequencyCmd, FrequencyControl, FrequencyEffect, FrequencyGenerator, IDLE_MS,
    TABLE_LEN,
};
use hv_supply::hv_control::HvCommand;

#[test]
fn new_control_is_at_zero_hertz() {
    let ctrl = FrequencyControl::new();
    assert_eq!(ctrl.current(), 0);
    assert_eq!(ctrl.index(), 0);
}

#[test]
fn first_next_after_power_up_gives_two_hertz() {
    let mut ctrl = FrequencyControl::new();
    assert_eq!(ctrl.next(), 2);
    assert_eq!(ctrl.index(), 1);
}

#[test]
fn next_walks_the_table_in_order() {
    let mut ctrl = FrequencyControl::new();
    let expected: Vec<u32> = vec![2, 5, 10, 20, 50, 60, 100, 200, 400, 0, 0, 1];
    for hz in expected.iter() {
        assert_eq!(ctrl.next(), *hz);
        assert_eq!(ctrl.current(), *hz);
    }
    assert_eq!(ctrl.index(), 0);
}

#[test]
fn twelve_nexts_lead_back_from_every_slot() {
    let mut ctrl = FrequencyControl::new();
    for _ in 0..TABLE_LEN {
        let start: usize = ctrl.index();
        let mut seen: Vec<usize> = Vec::new();
        for _ in 0..TABLE_LEN {
            ctrl.next();
            seen.push(ctrl.index());
        }
        assert_eq!(ctrl.index(), start);
        seen.sort();
        assert_eq!(seen, vec![0usize, 1, 2, 3, 4, 5, 6, 7, 8, 9, 10, 11]);
        ctrl.next();
    }
}

#[test]
fn set_keeps_the_table_position() {
    let mut ctrl = FrequencyControl::new();
    ctrl.next();
    ctrl.next();
    assert_eq!(ctrl.set(1234), 1234);
    assert_eq!(ctrl.current(), 1234);
    assert_eq!(ctrl.index(), 2);
    assert_eq!(ctrl.next(), 10);
}

#[test]
fn generator_starts_disabled_at_zero_hertz() {
    let generator = FrequencyGenerator::new();
    assert!(!generator.is_running());
    assert_eq!(generator.current(), 0);
    assert_eq!(generator.drive(), DriveStep::HoldLow { idle_ms: 50 });
}

#[test]
fn first_command_after_power_up_starts_the_output() {
    let mut generator = FrequencyGenerator::new();
    let effect = generator.on_command(FrequencyCmd::CycleNext);
    assert_eq!(effect, FrequencyEffect { hv: None, pin_low: false });
    assert!(generator.is_running());
    assert_eq!(generator.current(), 2);
    assert_eq!(generator.drive(), DriveStep::Toggle { half_period_us: 250_000 });

    let mut generator = FrequencyGenerator::new();
    generator.on_command(FrequencyCmd::SetFrequency(1));
    assert!(generator.is_running());
    assert_eq!(generator.drive(), DriveStep::Toggle { half_period_us: 500_000 });
}

#[test]
fn capture_mode_at_power_up_leaves_the_output_off() {
    let mut generator = FrequencyGenerator::new();
    let effect = generator.on_command(FrequencyCmd::EnterInputCaptureMode);
    assert_eq!(effect, FrequencyEffect { hv: None, pin_low: false });
    assert!(!generator.is_running());
    assert_eq!(generator.current(), 0);
}

#[test]
fn half_period_is_half_a_million_over_the_frequency() {
    let mut generator = FrequencyGenerator::new();
    generator.on_command(FrequencyCmd::SetFrequency(60));
    assert_eq!(generator.drive(), DriveStep::Toggle { half_period_us: 8_333 });
    generator.on_command(FrequencyCmd::SetFrequency(400));
    assert_eq!(generator.drive(), DriveStep::Toggle { half_period_us: 1_250 });
    generator.on_command(FrequencyCmd::SetFrequency(500_000));
    assert_eq!(generator.drive(), DriveStep::Toggle { half_period_us: 1 });
    generator.on_command(FrequencyCmd::SetFrequency(500_001));
    assert_eq!(generator.drive(), DriveStep::Toggle { half_period_us: 0 });
    generator.on_command(FrequencyCmd::SetFrequency(u32::MAX));
    assert_eq!(generator.drive(), DriveStep::Toggle { half_period_us: 0 });
}

#[test]
fn cycle_next_into_the_zero_slot_forces_a_stop() {
    let mut generator = FrequencyGenerator::new();
    let quiet = FrequencyEffect { hv: None, pin_low: false };
    for _ in 0..9 {
        assert_eq!(generator.on_command(FrequencyCmd::CycleNext), quiet);
        assert!(generator.is_running());
    }
    assert_eq!(generator.current(), 400);
    let stop = FrequencyEffect { hv: Some(HvCommand::ForceStop), pin_low: true };
    assert_eq!(generator.on_command(FrequencyCmd::CycleNext), stop);
    assert_eq!(generator.current(), 0);
    assert!(!generator.is_running());
    assert_eq!(generator.drive(), DriveStep::HoldLow { idle_ms: IDLE_MS });
    assert_eq!(IDLE_MS, 50);
    // The table holds a second zero slot: it forces a stop again.
    assert_eq!(generator.on_command(FrequencyCmd::CycleNext), stop);
    assert!(!generator.is_running());
    // Then the table wraps and the output runs again.
    assert_eq!(generator.on_command(FrequencyCmd::CycleNext), quiet);
    assert_eq!(generator.current(), 1);
    assert!(generator.is_running());
}

#[test]
fn set_frequency_zero_disables_without_telling_hv() {
    let mut generator = FrequencyGenerator::new();
    let effect = generator.on_command(FrequencyCmd::SetFrequency(0));
    assert_eq!(effect, FrequencyEffect { hv: None, pin_low: true });
    assert!(!generator.is_running());
    assert_eq!(generator.current(), 0);
    assert_eq!(generator.drive(), DriveStep::HoldLow { idle_ms: 50 });
}

#[test]
fn set_frequency_above_zero_enables() {
    let mut generator = FrequencyGenerator::new();
    generator.on_command(FrequencyCmd::SetFrequency(0));
    let effect = generator.on_command(FrequencyCmd::SetFrequency(25));
    assert_eq!(effect, FrequencyEffect { hv: None, pin_low: false });
    assert!(generator.is_running());
    assert_eq!(generator.drive(), DriveStep::Toggle { half_period_us: 20_000 });
}

#[test]
fn capture_mode_changes_nothing() {
    let mut generator = FrequencyGenerator::new();
    generator.on_command(FrequencyCmd::SetFrequency(7));
    let effect = generator.on_command(FrequencyCmd::EnterInputCaptureMode);
    assert_eq!(effect, FrequencyEffect { hv: None, pin_low: false });
    assert!(generator.is_running());
    assert_eq!(generator.current(), 7);
    generator.on_command(FrequencyCmd::SetFrequency(0));
    let effect = generator.on_command(FrequencyCmd::EnterInputCaptureMode);
    assert_eq!(effect, FrequencyEffect { hv: None, pin_low: false });
    assert!(!generator.is_running());
}

#[test]
fn cycle_next_after_set_goes_on_from_the_table_position() {
    let mut generator = FrequencyGenerator::new();
    generator.on_command(FrequencyCmd::SetFrequency(0));
    let effect = generator.on_command(FrequencyCmd::CycleNext);
    assert_eq!(effect, FrequencyEffect { hv: None, pin_low: false });
    assert_eq!(generator.current(), 2);
    assert!(generator.is_running());
}
