//! The DAC setpoint controller: the high-voltage setpoint within the limits
//! of the first phase, its steps and ramp, and the code for each setpoint.

use vstd::prelude::*;

verus! {

/// Lowest high-voltage setpoint, in microvolts.
pub const HV_MIN_UV: i64 = 0;

/// Highest setpoint of the first commissioning phase (10 V), in microvolts.
pub const HV_MAX_PHASE1_UV: i64 = 10_000_000;

/// Size of one setpoint step (0.1 V), in microvolts.
pub const HV_STEP_UV: i64 = 100_000;

/// Most ticks a ramp may take before it yields, whatever the setpoint.
pub const RAMP_MAX_TICKS: usize = 1_000;

/// Pause after each code a ramp writes, in milliseconds.
pub const RAMP_TICK_MS: u64 = 100;

/// Most codes a plan can hold: the ticks of a ramp from zero volts.
pub const RAMP_PLAN_LEN: usize = 100;

/// Volts of setpoint that stand for the whole range of the DAC pin.
pub const HV_FULL_SCALE_V: i64 = 300;

/// Range of the DAC pin used to scale a setpoint, in millivolts.
pub const DAC_FULL_SCALE_MV: i64 = 2_500;

/// Reference by which a pin voltage is turned into a code, in millivolts. It
/// is not the same as `DAC_FULL_SCALE_MV`; the calibration of the output
/// rests on both as they are.
pub const DAC_REFERENCE_MV: i64 = 3_000;

/// Largest twelve-bit code.
pub const DAC_MAX_CODE: i64 = 4_095;

/// DAC codes per `DAC_CODE_DEN` microvolts of setpoint.
///
/// The setpoint is divided by `HV_FULL_SCALE_V` and scaled by
/// `DAC_FULL_SCALE_MV` to get the pin voltage; the pin voltage is then
/// divided by `DAC_REFERENCE_MV` and scaled to `DAC_MAX_CODE`. Both steps
/// together are 2.5 * 4095 / (300 * 3.0) codes per volt, which is 91 / 8 in
/// lowest terms (see `law_code_scale`).
pub const DAC_CODE_NUM: i64 = 91;

/// Microvolts of setpoint per `DAC_CODE_NUM` DAC codes.
pub const DAC_CODE_DEN: i64 = 8_000_000;

/// Smallest setpoint whose code no longer fits sixteen bits.
pub const DAC_SATURATION_UV: i64 = 5_761_274_726;

/// A command for the DAC setpoint controller. Voltages are whole microvolts.
#[derive(Copy, Clone, Debug, PartialEq, Eq, Structural)]
pub enum DacCmd {
    /// Go at once to the given setpoint (clamped to the phase limits).
    SetHvVolts(i64),
    /// Raise the setpoint by one step.
    ShortStep,
    /// Climb step by step to the phase maximum.
    StartRamp,
}

/// The setpoint `v` limited to the range of the first phase.
pub open spec fn clamp_phase1_spec(v: int) -> int {
    if v < HV_MIN_UV {
        HV_MIN_UV as int
    } else if v > HV_MAX_PHASE1_UV {
        HV_MAX_PHASE1_UV as int
    } else {
        v
    }
}

/// The DAC code for a setpoint of `hv_uv` microvolts: the exact quotient
/// `hv_uv * DAC_CODE_NUM / DAC_CODE_DEN` rounded to the nearest integer
/// (halves away from zero), then limited to `0..=65535`.
pub open spec fn dac_code_spec(hv_uv: int) -> int {
    if hv_uv <= 0 {
        0
    } else {
        let rounded = (2 * hv_uv * DAC_CODE_NUM + DAC_CODE_DEN) / (2 * DAC_CODE_DEN);
        if rounded > 65_535 {
            65_535
        } else {
            rounded
        }
    }
}

/// One move from `current` towards `target` of at most one step.
pub open spec fn safe_ramp_spec(current: int, target: int) -> int {
    if target - current > HV_STEP_UV {
        current + HV_STEP_UV
    } else if target - current < -HV_STEP_UV {
        current - HV_STEP_UV
    } else {
        target
    }
}

/// The setpoint that a ramp begun at `start` holds after `ticks` ticks.
pub open spec fn ramp_setpoint(start: int, ticks: int) -> int {
    clamp_phase1_spec(start + ticks * HV_STEP_UV)
}

/// The number of ticks that a ramp begun at `start` takes: it always writes
/// once, and stops with the first tick that lands on the phase maximum.
pub open spec fn ramp_ticks(start: int) -> int {
    let remaining = HV_MAX_PHASE1_UV - start;
    if remaining <= HV_STEP_UV {
        1
    } else {
        (remaining + HV_STEP_UV - 1) / (HV_STEP_UV as int)
    }
}

/// The codes that a ramp begun at `start` writes, one per tick.
pub open spec fn ramp_codes(start: int) -> Seq<u16> {
    Seq::new(ramp_ticks(start) as nat, |i: int| dac_code_spec(ramp_setpoint(start, i + 1)) as u16)
}

/// The setpoint after `cmd`, given the setpoint `setpoint` before it.
pub open spec fn setpoint_after(setpoint: int, cmd: DacCmd) -> int {
    match cmd {
        DacCmd::SetHvVolts(v) => clamp_phase1_spec(v as int),
        DacCmd::ShortStep => clamp_phase1_spec(setpoint + HV_STEP_UV),
        DacCmd::StartRamp => HV_MAX_PHASE1_UV as int,
    }
}

/// The codes written for `cmd`, in order, given the setpoint before it.
pub open spec fn codes_for(setpoint: int, cmd: DacCmd) -> Seq<u16> {
    match cmd {
        DacCmd::StartRamp => ramp_codes(setpoint),
        _ => seq![dac_code_spec(setpoint_after(setpoint, cmd)) as u16],
    }
}

/// The pause after each written code of `cmd`, in milliseconds.
pub open spec fn tick_for(cmd: DacCmd) -> u64 {
    match cmd {
        DacCmd::StartRamp => RAMP_TICK_MS,
        _ => 0,
    }
}

/// Limits a requested setpoint to the range of the first phase.
pub fn clamp_phase1(v: i64) -> (r: i64)
    ensures
        r == clamp_phase1_spec(v as int),
        HV_MIN_UV <= r <= HV_MAX_PHASE1_UV,
{
    if v < HV_MIN_UV {
        HV_MIN_UV
    } else if v > HV_MAX_PHASE1_UV {
        HV_MAX_PHASE1_UV
    } else {
        v
    }
}

/// Converts a setpoint in microvolts to the code written to the DAC.
pub fn hv_to_dac_raw(hv: i64) -> (code: u16)
    ensures
        code == dac_code_spec(hv as int),
        HV_MIN_UV <= hv <= HV_MAX_PHASE1_UV ==> code <= 114,
{
    if hv <= 0 {
        0
    } else if hv >= DAC_SATURATION_UV {
        65_535
    } else {
        let rounded: i64 = (2 * hv * DAC_CODE_NUM + DAC_CODE_DEN) / (2 * DAC_CODE_DEN);
        rounded as u16
    }
}

/// Moves `current` towards `target` by no more than one step.
pub fn safe_ramp(current: i64, target: i64) -> (next: i64)
    ensures
        next == safe_ramp_spec(current as int, target as int),
{
    if target > current {
        if current <= i64::MAX - HV_STEP_UV && target > current + HV_STEP_UV {
            current + HV_STEP_UV
        } else {
            target
        }
    } else {
        if current >= i64::MIN + HV_STEP_UV && target < current - HV_STEP_UV {
            current - HV_STEP_UV
        } else {
            target
        }
    }
}

/// What the DAC task does for one command: the first `len` entries of
/// `codes` are the codes to write, in order, and `tick_ms` is the pause to
/// keep after each of them. The plan lives in place; nothing is allocated.
#[derive(Copy, Clone, Debug, PartialEq, Eq)]
pub struct DacPlan {
    pub codes: [u16; 100],
    pub len: usize,
    pub tick_ms: u64,
}

impl DacPlan {
    /// The codes to write, in order.
    pub open spec fn written(&self) -> Seq<u16> {
        self.codes@.take(self.len as int)
    }

    /// The plan that writes one code at once.
    pub fn single(code: u16) -> (plan: DacPlan)
        ensures
            plan.written() == seq![code],
            plan.len == 1,
            plan.tick_ms == 0,
    {
        let mut codes: [u16; 100] = [0u16; 100];
        codes[0] = code;
        let plan = DacPlan { codes, len: 1, tick_ms: 0 };
        assert(plan.written() =~= seq![code]);
        plan
    }

    /// The code to write at position `i`, if the plan goes that far.
    pub fn code(&self, i: usize) -> (code: Option<u16>)
        ensures
            code == if i < self.len && i < RAMP_PLAN_LEN {
                Some(self.codes@[i as int])
            } else {
                None::<u16>
            },
    {
        if i < self.len && i < RAMP_PLAN_LEN {
            Some(self.codes[i])
        } else {
            None
        }
    }
}

/// Keeper of the high-voltage setpoint. Its view is the setpoint in
/// microvolts, which never leaves the range of the first phase.
pub struct DacController {
    hv_setpoint_uv: i64,
}

impl View for DacController {
    type V = int;

    closed spec fn view(&self) -> int {
        self.hv_setpoint_uv as int
    }
}

impl DacController {
    #[verifier::type_invariant]
    spec fn in_phase_range(&self) -> bool {
        HV_MIN_UV <= self.hv_setpoint_uv <= HV_MAX_PHASE1_UV
    }

    /// A controller at zero volts.
    pub fn new() -> (ctrl: Self)
        ensures
            ctrl@ == 0,
    {
        DacController { hv_setpoint_uv: 0 }
    }

    /// The present setpoint, in microvolts.
    pub fn setpoint_uv(&self) -> (uv: i64)
        ensures
            uv == self@,
            HV_MIN_UV <= uv <= HV_MAX_PHASE1_UV,
    {
        proof {
            use_type_invariant(self);
        }
        self.hv_setpoint_uv
    }

    /// Goes at once to the requested setpoint, clamped, and returns its code.
    pub fn set_hv_volts(&mut self, hv: i64) -> (code: u16)
        ensures
            final(self)@ == clamp_phase1_spec(hv as int),
            code == dac_code_spec(final(self)@),
    {
        let target = clamp_phase1(hv);
        self.hv_setpoint_uv = target;
        hv_to_dac_raw(target)
    }

    /// Raises the setpoint by one step, clamped, and returns its code.
    pub fn short_step(&mut self) -> (code: u16)
        ensures
            final(self)@ == clamp_phase1_spec(old(self)@ + HV_STEP_UV),
            code == dac_code_spec(final(self)@),
    {
        proof {
            use_type_invariant(&*self);
        }
        let target = clamp_phase1(self.hv_setpoint_uv + HV_STEP_UV);
        let code = hv_to_dac_raw(target);
        self.hv_setpoint_uv = target;
        code
    }

    /// Climbs to the phase maximum one step per tick and returns the code of
    /// every tick. The climb ends with the tick that reaches the maximum, long
    /// before the tick limit.
    pub fn start_ramp(&mut self) -> (plan: DacPlan)
        ensures
            final(self)@ == HV_MAX_PHASE1_UV,
            plan.written() == ramp_codes(old(self)@),
            1 <= plan.len <= RAMP_PLAN_LEN,
            plan.len <= RAMP_MAX_TICKS,
            plan.tick_ms == RAMP_TICK_MS,
            forall|k: int|
                0 <= k <= plan.len ==> HV_MIN_UV <= #[trigger] ramp_setpoint(old(self)@, k)
                    <= HV_MAX_PHASE1_UV,
    {
        proof {
            use_type_invariant(&*self);
        }
        let ghost start = self@;
        let mut codes: [u16; 100] = [0u16; 100];
        let mut ticks: usize = 0;
        while ticks < RAMP_MAX_TICKS
            invariant_except_break
                ticks == 0 || self@ < HV_MAX_PHASE1_UV,
            invariant
                HV_MIN_UV <= start <= HV_MAX_PHASE1_UV,
                HV_MIN_UV <= self.hv_setpoint_uv <= HV_MAX_PHASE1_UV,
                ticks <= RAMP_PLAN_LEN,
                self@ == ramp_setpoint(start, ticks as int),
                forall|i: int|
                    0 <= i < ticks ==> codes@[i] == dac_code_spec(ramp_setpoint(start, i + 1))
                        as u16,
                forall|i: int| 0 < i < ticks ==> ramp_setpoint(start, i) < HV_MAX_PHASE1_UV,
            ensures
                self@ == HV_MAX_PHASE1_UV,
                ticks == ramp_ticks(start),
                1 <= ticks <= RAMP_PLAN_LEN,
            decreases RAMP_MAX_TICKS - ticks,
        {
            let target = clamp_phase1(self.hv_setpoint_uv + HV_STEP_UV);
            let stepped = safe_ramp(self.hv_setpoint_uv, target);
            let code = hv_to_dac_raw(stepped);
            self.hv_setpoint_uv = stepped;
            codes[ticks] = code;
            ticks = ticks + 1;
            if self.hv_setpoint_uv == HV_MAX_PHASE1_UV {
                break ;
            }
        }
        let plan = DacPlan { codes, len: ticks, tick_ms: RAMP_TICK_MS };
        assert(plan.written() =~= ramp_codes(start));
        plan
    }

    /// Carries out one command: updates the setpoint and says what to write.
    pub fn handle(&mut self, cmd: DacCmd) -> (plan: DacPlan)
        ensures
            final(self)@ == setpoint_after(old(self)@, cmd),
            HV_MIN_UV <= final(self)@ <= HV_MAX_PHASE1_UV,
            plan.written() == codes_for(old(self)@, cmd),
            1 <= plan.len <= RAMP_PLAN_LEN,
            plan.tick_ms == tick_for(cmd),
    {
        match cmd {
            DacCmd::SetHvVolts(hv) => {
                let code = self.set_hv_volts(hv);
                DacPlan::single(code)
            },
            DacCmd::ShortStep => {
                let code = self.short_step();
                DacPlan::single(code)
            },
            DacCmd::StartRamp => self.start_ramp(),
        }
    }
}

/// The code scale is the two-step conversion in lowest terms: rounding
/// `hv_uv * DAC_CODE_NUM / DAC_CODE_DEN` gives what rounding the setpoint
/// scaled to the pin (by `DAC_FULL_SCALE_MV / HV_FULL_SCALE_V`) and then to a
/// code (by `DAC_MAX_CODE / DAC_REFERENCE_MV`) gives.
pub proof fn law_code_scale(hv_uv: int)
    requires
        hv_uv > 0,
    ensures
        DAC_CODE_NUM * (HV_FULL_SCALE_V * DAC_REFERENCE_MV * 1_000_000) == DAC_CODE_DEN * (
        DAC_FULL_SCALE_MV * DAC_MAX_CODE),
        (2 * hv_uv * DAC_CODE_NUM + DAC_CODE_DEN) / (2 * DAC_CODE_DEN) == (2 * hv_uv * 10_237_500
            + 900_000_000_000) / 1_800_000_000_000,
        DAC_FULL_SCALE_MV * DAC_MAX_CODE == 10_237_500,
        HV_FULL_SCALE_V * DAC_REFERENCE_MV * 1_000_000 == 900_000_000_000,
{
    let a = 2 * hv_uv * DAC_CODE_NUM + DAC_CODE_DEN;
    let d = 2 * DAC_CODE_DEN;
    vstd::arithmetic::div_mod::lemma_div_multiples_vanish_quotient(112_500, a, d);
    assert(112_500 * a == 2 * hv_uv * 10_237_500 + 900_000_000_000);
    assert(112_500 * d == 1_800_000_000_000);
}

/// The code never falls when the setpoint rises, it is zero up to zero volts
/// and it is at its limit exactly from `DAC_SATURATION_UV` on. Within the
/// first phase it stays at or below 114.
pub proof fn law_dac_code_monotone(lower: int, higher: int)
    requires
        lower <= higher,
    ensures
        0 <= dac_code_spec(lower) <= dac_code_spec(higher) <= 65_535,
        dac_code_spec(lower) == 65_535 <==> lower >= DAC_SATURATION_UV,
        lower <= 0 ==> dac_code_spec(lower) == 0,
        higher <= HV_MAX_PHASE1_UV ==> dac_code_spec(higher) <= 114,
{
}

/// Whatever is asked for, and whatever the setpoint was, the setpoint after a
/// command lies within the limits of the first phase.
pub proof fn law_setpoint_stays_clamped(setpoint: int, cmd: DacCmd)
    ensures
        HV_MIN_UV <= setpoint_after(setpoint, cmd) <= HV_MAX_PHASE1_UV,
        cmd matches DacCmd::SetHvVolts(v) && v >= HV_MAX_PHASE1_UV ==> setpoint_after(
            setpoint,
            cmd,
        ) == HV_MAX_PHASE1_UV,
        cmd matches DacCmd::SetHvVolts(v) && v <= HV_MIN_UV ==> setpoint_after(setpoint, cmd)
            == HV_MIN_UV,
{
}

/// A ramp begun anywhere within the phase limits climbs by one step per tick
/// at most, never leaves the limits, and reaches the phase maximum with its
/// last tick and with none before it. It takes a hundred ticks from zero
/// volts and never more, far below the tick limit.
pub proof fn law_ramp_reaches_maximum(start: int)
    requires
        HV_MIN_UV <= start <= HV_MAX_PHASE1_UV,
    ensures
        1 <= ramp_ticks(start) <= 100,
        ramp_ticks(start) <= RAMP_MAX_TICKS,
        start == 0 ==> ramp_ticks(start) == 100,
        ramp_setpoint(start, ramp_ticks(start)) == HV_MAX_PHASE1_UV,
        forall|k: int| 0 < k < ramp_ticks(start) ==> #[trigger] ramp_setpoint(start, k)
            < HV_MAX_PHASE1_UV,
        forall|k: int|
            0 <= k ==> HV_MIN_UV <= #[trigger] ramp_setpoint(start, k) <= HV_MAX_PHASE1_UV,
        forall|k: int|
            0 <= k ==> ramp_setpoint(start, k) <= #[trigger] ramp_setpoint(start, k + 1)
                <= ramp_setpoint(start, k) + HV_STEP_UV,
        forall|k: int|
            0 <= k ==> #[trigger] ramp_setpoint(start, k + 1) == safe_ramp_spec(
                ramp_setpoint(start, k),
                clamp_phase1_spec(ramp_setpoint(start, k) + HV_STEP_UV),
            ),
{
}

} // verus!
