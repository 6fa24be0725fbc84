//! The polarity component: owner of the relay registers and of the
//! interlocked sequence that reverses the output polarity.

use vstd::prelude::*;
use crate::dac_control::{dac_code_spec, setpoint_after, DacCmd};
use crate::frequency_control::{FrequencyCmd, GeneratorView};

verus! {

/// Bank B, bit 0: first line of the first polarity-select pair.
pub const GPB0: u8 = 0x01;

/// Bank B, bit 1: second line of the first polarity-select pair.
pub const GPB1: u8 = 0x02;

/// Bank B, bit 2: first line of the second polarity-select pair.
pub const GPB2: u8 = 0x04;

/// Bank B, bit 3: second line of the second polarity-select pair.
pub const GPB3: u8 = 0x08;

/// Bank B, bit 4: positive step-voltage relay.
pub const GPB4: u8 = 0x10;

/// Bank B, bit 5: transfer relay.
pub const GPB5: u8 = 0x20;

/// Bank B, bit 6: high-voltage enable.
pub const GPB6: u8 = 0x40;

/// The four polarity-select lines of bank B.
pub const POLARITY_SELECT_MASK: u8 = 0x0F;

/// Select lines asserted for positive polarity: `GPB0` and `GPB3`.
pub const POSITIVE_SELECT: u8 = 0x09;

/// Select lines asserted for negative polarity: `GPB1` and `GPB2`.
pub const NEGATIVE_SELECT: u8 = 0x06;

/// The two relays pulsed to carry a new polarity over: `GPB4` and `GPB5`.
pub const TRANSFER_RELAYS: u8 = 0x30;

/// The high-voltage enable line, `GPB6`.
pub const HV_ON: u8 = 0x40;

/// Mandatory wait for the bus to discharge, in milliseconds.
pub const DISCHARGE_HOLD_MS: u64 = 2150;

/// Short hold of a relay step, in milliseconds.
pub const RELAY_HOLD_MS: u64 = 1;

/// Settling time once the transfer relays are released, in milliseconds.
pub const SETTLE_HOLD_MS: u64 = 100;

/// Which output terminal is the high one.
#[derive(Copy, Clone, Debug, PartialEq, Eq, Structural)]
pub enum Polarity {
    Positive,
    Negative,
}

impl Polarity {
    /// The other polarity.
    pub open spec fn opposite(self) -> Polarity {
        match self {
            Polarity::Positive => Polarity::Negative,
            Polarity::Negative => Polarity::Positive,
        }
    }

    /// The select lines asserted for this polarity.
    pub open spec fn select_pattern(self) -> u8 {
        match self {
            Polarity::Positive => POSITIVE_SELECT,
            Polarity::Negative => NEGATIVE_SELECT,
        }
    }

    /// The other polarity.
    pub fn flipped(self) -> (other: Polarity)
        ensures
            other == self.opposite(),
    {
        match self {
            Polarity::Positive => Polarity::Negative,
            Polarity::Negative => Polarity::Positive,
        }
    }
}

/// The phase of the polarity state machine. `Off` and `Running` are the two
/// idle states; the others are the steps of a polarity reversal.
#[derive(Copy, Clone, Debug, PartialEq, Eq, Structural)]
pub enum HvState {
    Off,
    Discharging,
    WaitingForDischarge,
    PreSetting,
    Completing,
    Toggling,
    Restoring,
    Running,
}

impl HvState {
    /// Whether the machine rests and takes commands.
    pub open spec fn is_idle(self) -> bool {
        self == HvState::Off || self == HvState::Running
    }
}

/// A command for the high-voltage polarity component.
#[derive(Copy, Clone, Debug, PartialEq, Eq, Structural)]
pub enum HvCommand {
    RequestPolarityToggle,
    ForceStop,
}

/// What the polarity state machine is told.
#[derive(Copy, Clone, Debug, PartialEq, Eq, Structural)]
pub enum HvEvent {
    /// A command was taken from the command channel.
    Command(HvCommand),
    /// What the previous step asked for is over: its register write was
    /// tried, with the given outcome, and its hold has run out.
    StepDone { write_ok: bool },
}

/// A write to the relay registers.
#[derive(Copy, Clone, Debug, PartialEq, Eq, Structural)]
pub enum RelayWrite {
    /// No register changes.
    Nothing,
    /// Write bank B alone.
    BankB { gpb: u8 },
    /// Write bank A, then bank B.
    Both { gpa: u8, gpb: u8 },
}

/// What one step asks of the surroundings, in this order: offer the two
/// commands, write the registers, then hold.
#[derive(Copy, Clone, Debug, PartialEq, Eq, Structural)]
pub struct HvStep {
    pub dac: Option<DacCmd>,
    pub freq: Option<FrequencyCmd>,
    pub write: RelayWrite,
    pub hold_ms: u64,
}

impl HvStep {
    /// A step that asks for nothing.
    pub open spec fn nothing() -> HvStep {
        HvStep { dac: None, freq: None, write: RelayWrite::Nothing, hold_ms: 0 }
    }

    /// A step that writes both banks and holds.
    pub open spec fn write_both(gpa: u8, gpb: u8, hold_ms: u64) -> HvStep {
        HvStep { dac: None, freq: None, write: RelayWrite::Both { gpa, gpb }, hold_ms }
    }
}

/// Bank B with the select lines set for `pol` and the other lines kept.
pub open spec fn with_polarity(gpb: u8, pol: Polarity) -> u8 {
    (gpb & !POLARITY_SELECT_MASK) | pol.select_pattern()
}

/// Bank B with the high-voltage enable line set or cleared.
pub open spec fn with_hv_enable(gpb: u8, on: bool) -> u8 {
    if on {
        gpb | HV_ON
    } else {
        gpb & !HV_ON
    }
}

/// Of each complementary pair of select lines exactly one is asserted.
pub open spec fn pairs_exclusive(gpb: u8) -> bool {
    &&& (gpb & GPB0 != 0) != (gpb & GPB1 != 0)
    &&& (gpb & GPB2 != 0) != (gpb & GPB3 != 0)
}

/// The select lines are all released (as after power-up) or show one of the
/// two polarities.
pub open spec fn select_valid(gpb: u8) -> bool {
    ||| gpb & POLARITY_SELECT_MASK == 0
    ||| gpb & POLARITY_SELECT_MASK == POSITIVE_SELECT
    ||| gpb & POLARITY_SELECT_MASK == NEGATIVE_SELECT
}

/// What an `HvController` stands for: the phase, the polarity last written
/// with success, and the shadow of the two relay registers.
pub struct HvSnapshot {
    pub state: HvState,
    pub polarity: Polarity,
    pub gpa: u8,
    pub gpb: u8,
}

impl HvSnapshot {
    /// Bank A is untouched and the select lines of bank B are valid.
    pub open spec fn wf(self) -> bool {
        self.gpa == 0 && select_valid(self.gpb)
    }

    /// The state at power-up.
    pub open spec fn initial() -> HvSnapshot {
        HvSnapshot { state: HvState::Off, polarity: Polarity::Positive, gpa: 0, gpb: 0 }
    }

    /// A forced stop: both outputs are ordered to zero, the high-voltage
    /// enable line is cleared, the machine is `Off`. Nothing is held.
    pub open spec fn force_stop(self) -> (HvSnapshot, HvStep) {
        let gpb = with_hv_enable(self.gpb, false);
        (
            HvSnapshot { state: HvState::Off, gpb, ..self },
            HvStep {
                dac: Some(DacCmd::SetHvVolts(0)),
                freq: Some(FrequencyCmd::SetFrequency(0)),
                write: RelayWrite::BankB { gpb },
                hold_ms: 0,
            },
        )
    }

    /// The first step of a reversal: both outputs are ordered to zero.
    pub open spec fn begin_toggle(self) -> (HvSnapshot, HvStep) {
        (
            HvSnapshot { state: HvState::Discharging, ..self },
            HvStep {
                dac: Some(DacCmd::SetHvVolts(0)),
                freq: Some(FrequencyCmd::SetFrequency(0)),
                write: RelayWrite::Nothing,
                hold_ms: 0,
            },
        )
    }

    /// The next step of a reversal under way. `write_ok` counts only after
    /// `PreSetting`, whose write carries the new polarity: the polarity is
    /// taken over if that write went through.
    pub open spec fn advance(self, write_ok: bool) -> (HvSnapshot, HvStep) {
        match self.state {
            HvState::Off | HvState::Running => (self, HvStep::nothing()),
            HvState::Discharging => {
                let gpb = with_hv_enable(self.gpb, false);
                (
                    HvSnapshot { state: HvState::WaitingForDischarge, gpb, ..self },
                    HvStep {
                        dac: None,
                        freq: None,
                        write: RelayWrite::BankB { gpb },
                        hold_ms: DISCHARGE_HOLD_MS,
                    },
                )
            },
            HvState::WaitingForDischarge => {
                let gpb = with_polarity(self.gpb, self.polarity.opposite());
                (
                    HvSnapshot { state: HvState::PreSetting, gpb, ..self },
                    HvStep::write_both(self.gpa, gpb, RELAY_HOLD_MS),
                )
            },
            HvState::PreSetting => {
                let polarity = if write_ok {
                    self.polarity.opposite()
                } else {
                    self.polarity
                };
                let gpb = self.gpb | TRANSFER_RELAYS;
                (
                    HvSnapshot { state: HvState::Completing, polarity, gpb, ..self },
                    HvStep::write_both(self.gpa, gpb, RELAY_HOLD_MS),
                )
            },
            HvState::Completing => (
                HvSnapshot { state: HvState::Toggling, ..self },
                HvStep { hold_ms: RELAY_HOLD_MS, ..HvStep::nothing() },
            ),
            HvState::Toggling => {
                let gpb = self.gpb & !TRANSFER_RELAYS;
                (
                    HvSnapshot { state: HvState::Restoring, gpb, ..self },
                    HvStep::write_both(self.gpa, gpb, SETTLE_HOLD_MS),
                )
            },
            HvState::Restoring => (HvSnapshot { state: HvState::Running, ..self }, HvStep::nothing()),
        }
    }

    /// The transition function of the polarity state machine. A forced stop is
    /// taken in every state. A reversal is begun from the idle states only; a
    /// request that meets a reversal under way is dropped.
    pub open spec fn step(self, event: HvEvent) -> (HvSnapshot, HvStep) {
        match event {
            HvEvent::Command(HvCommand::ForceStop) => self.force_stop(),
            HvEvent::Command(HvCommand::RequestPolarityToggle) => if self.state.is_idle() {
                self.begin_toggle()
            } else {
                (self, HvStep::nothing())
            },
            HvEvent::StepDone { write_ok } => self.advance(write_ok),
        }
    }

    /// The state after `n` steps of a reversal, each reported done; `write_ok`
    /// tells whether the register writes went through.
    pub open spec fn advance_n(self, n: nat, write_ok: bool) -> HvSnapshot
        decreases n,
    {
        if n == 0 {
            self
        } else {
            self.advance_n((n - 1) as nat, write_ok).advance(write_ok).0
        }
    }

    /// The state after a whole reversal: the request and the six steps that
    /// follow it.
    pub open spec fn after_toggle(self, write_ok: bool) -> HvSnapshot {
        self.step(HvEvent::Command(HvCommand::RequestPolarityToggle)).0.advance_n(6, write_ok)
    }
}

/// How the masks of bank B act on one another.
pub proof fn lemma_bank_b_bits(gpb: u8)
    by (bit_vector)
    ensures
        ((gpb & !POLARITY_SELECT_MASK) | POSITIVE_SELECT) & POLARITY_SELECT_MASK
            == POSITIVE_SELECT,
        ((gpb & !POLARITY_SELECT_MASK) | NEGATIVE_SELECT) & POLARITY_SELECT_MASK
            == NEGATIVE_SELECT,
        ((gpb & !POLARITY_SELECT_MASK) | POSITIVE_SELECT) & !POLARITY_SELECT_MASK == gpb
            & !POLARITY_SELECT_MASK,
        ((gpb & !POLARITY_SELECT_MASK) | NEGATIVE_SELECT) & !POLARITY_SELECT_MASK == gpb
            & !POLARITY_SELECT_MASK,
        (gpb | TRANSFER_RELAYS) & POLARITY_SELECT_MASK == gpb & POLARITY_SELECT_MASK,
        (gpb & !TRANSFER_RELAYS) & POLARITY_SELECT_MASK == gpb & POLARITY_SELECT_MASK,
        (gpb | HV_ON) & POLARITY_SELECT_MASK == gpb & POLARITY_SELECT_MASK,
        (gpb & !HV_ON) & POLARITY_SELECT_MASK == gpb & POLARITY_SELECT_MASK,
        (gpb | TRANSFER_RELAYS) & TRANSFER_RELAYS == TRANSFER_RELAYS,
        (gpb & !TRANSFER_RELAYS) & TRANSFER_RELAYS == 0,
        (gpb | TRANSFER_RELAYS) & HV_ON == gpb & HV_ON,
        (gpb & !TRANSFER_RELAYS) & HV_ON == gpb & HV_ON,
        (gpb | HV_ON) & HV_ON == HV_ON,
        (gpb & !HV_ON) & HV_ON == 0,
        (gpb | HV_ON) & TRANSFER_RELAYS == gpb & TRANSFER_RELAYS,
        (gpb & !HV_ON) & TRANSFER_RELAYS == gpb & TRANSFER_RELAYS,
        ((gpb & !POLARITY_SELECT_MASK) | POSITIVE_SELECT) & HV_ON == gpb & HV_ON,
        ((gpb & !POLARITY_SELECT_MASK) | NEGATIVE_SELECT) & HV_ON == gpb & HV_ON,
        ((gpb & !POLARITY_SELECT_MASK) | POSITIVE_SELECT) & TRANSFER_RELAYS == gpb
            & TRANSFER_RELAYS,
        ((gpb & !POLARITY_SELECT_MASK) | NEGATIVE_SELECT) & TRANSFER_RELAYS == gpb
            & TRANSFER_RELAYS,
{
}

/// Where the select lines show a polarity, exactly one line of each
/// complementary pair is asserted.
pub proof fn lemma_selected_pairs_exclusive(gpb: u8)
    by (bit_vector)
    ensures
        (gpb & POLARITY_SELECT_MASK == POSITIVE_SELECT || gpb & POLARITY_SELECT_MASK
            == NEGATIVE_SELECT) ==> ((gpb & GPB0 != 0) != (gpb & GPB1 != 0)) && ((gpb & GPB2 != 0)
            != (gpb & GPB3 != 0)),
        gpb & POLARITY_SELECT_MASK == POSITIVE_SELECT ==> gpb & GPB0 != 0 && gpb & GPB3 != 0,
        gpb & POLARITY_SELECT_MASK == NEGATIVE_SELECT ==> gpb & GPB1 != 0 && gpb & GPB2 != 0,
{
}

/// The value of bank B that selects `pol`: the four select lines are set to
/// the pattern of `pol`, whatever they were, and the other lines are kept.
/// Exactly one line of each complementary pair is asserted in the result.
pub fn polarity_select(gpb: u8, pol: Polarity) -> (selected: u8)
    ensures
        selected == with_polarity(gpb, pol),
        selected & POLARITY_SELECT_MASK == pol.select_pattern(),
        selected & !POLARITY_SELECT_MASK == gpb & !POLARITY_SELECT_MASK,
        pairs_exclusive(selected),
        select_valid(selected),
{
    let pattern = match pol {
        Polarity::Positive => POSITIVE_SELECT,
        Polarity::Negative => NEGATIVE_SELECT,
    };
    let selected = (gpb & !POLARITY_SELECT_MASK) | pattern;
    proof {
        lemma_bank_b_bits(gpb);
        lemma_selected_pairs_exclusive(selected);
    }
    selected
}

/// Selecting a polarity leaves exactly one line of each complementary pair
/// asserted, for every value that bank B may hold before (no select line
/// asserted, both lines of a pair, or any other), and touches no other line.
/// Selecting the same polarity again changes nothing.
pub proof fn law_selection_is_exclusive(gpb: u8, pol: Polarity)
    ensures
        pairs_exclusive(with_polarity(gpb, pol)),
        select_valid(with_polarity(gpb, pol)),
        with_polarity(gpb, pol) & POLARITY_SELECT_MASK == pol.select_pattern(),
        with_polarity(gpb, pol) & !POLARITY_SELECT_MASK == gpb & !POLARITY_SELECT_MASK,
        with_polarity(with_polarity(gpb, pol), pol) == with_polarity(gpb, pol),
        with_polarity(gpb, pol) != with_polarity(gpb, pol.opposite()),
{
    lemma_bank_b_bits(gpb);
    lemma_selected_pairs_exclusive(with_polarity(gpb, pol));
    lemma_reselect(gpb);
}

/// Setting the select lines twice is setting them once, and the two patterns
/// differ.
proof fn lemma_reselect(gpb: u8)
    by (bit_vector)
    ensures
        ((((gpb & !POLARITY_SELECT_MASK) | POSITIVE_SELECT) & !POLARITY_SELECT_MASK)
            | POSITIVE_SELECT) == (gpb & !POLARITY_SELECT_MASK) | POSITIVE_SELECT,
        ((((gpb & !POLARITY_SELECT_MASK) | NEGATIVE_SELECT) & !POLARITY_SELECT_MASK)
            | NEGATIVE_SELECT) == (gpb & !POLARITY_SELECT_MASK) | NEGATIVE_SELECT,
        (gpb & !POLARITY_SELECT_MASK) | POSITIVE_SELECT != (gpb & !POLARITY_SELECT_MASK)
            | NEGATIVE_SELECT,
{
}

/// The polarity component: owner of the relay registers and of the state of
/// the reversal sequence.
pub struct HvController {
    state: HvState,
    pol: Polarity,
    gpa: u8,
    gpb: u8,
}

impl View for HvController {
    type V = HvSnapshot;

    closed spec fn view(&self) -> HvSnapshot {
        HvSnapshot { state: self.state, polarity: self.pol, gpa: self.gpa, gpb: self.gpb }
    }
}

impl HvController {
    #[verifier::type_invariant]
    spec fn relays_consistent(&self) -> bool {
        self.gpa == 0 && select_valid(self.gpb)
    }

    /// The component at power-up: `Off`, positive, every relay line released.
    pub fn new() -> (hv: Self)
        ensures
            hv@ == HvSnapshot::initial(),
            hv@.wf(),
    {
        assert(0u8 & POLARITY_SELECT_MASK == 0) by (bit_vector);
        HvController { state: HvState::Off, pol: Polarity::Positive, gpa: 0, gpb: 0 }
    }

    /// The present phase.
    pub fn state(&self) -> (state: HvState)
        ensures
            state == self@.state,
    {
        self.state
    }

    /// The polarity last written with success.
    pub fn polarity(&self) -> (pol: Polarity)
        ensures
            pol == self@.polarity,
    {
        self.pol
    }

    /// The shadow of relay bank A.
    pub fn gpa(&self) -> (gpa: u8)
        ensures
            gpa == self@.gpa,
            gpa == 0,
    {
        proof {
            use_type_invariant(self);
        }
        self.gpa
    }

    /// The shadow of relay bank B.
    pub fn gpb(&self) -> (gpb: u8)
        ensures
            gpb == self@.gpb,
            select_valid(gpb),
    {
        proof {
            use_type_invariant(self);
        }
        self.gpb
    }

    /// Whether the machine rests, so that the next command may be taken.
    pub fn is_idle(&self) -> (idle: bool)
        ensures
            idle == self@.state.is_idle(),
    {
        match self.state {
            HvState::Off | HvState::Running => true,
            _ => false,
        }
    }

    /// The write that brings both registers in line with their shadows.
    fn apply(&self) -> (write: RelayWrite)
        ensures
            write == (RelayWrite::Both { gpa: self@.gpa, gpb: self@.gpb }),
    {
        RelayWrite::Both { gpa: self.gpa, gpb: self.gpb }
    }

    /// Sets the select lines for `pol`, leaving every other line, and returns
    /// the write that carries them out. Whatever the select lines showed
    /// before (none asserted, or both of a pair), exactly one line of each
    /// pair is asserted afterwards, whether the write then succeeds or not.
    /// The recorded polarity follows once that write is reported done.
    fn set_polarity(&mut self, pol: Polarity) -> (write: RelayWrite)
        ensures
            final(self)@ == (HvSnapshot { gpb: with_polarity(old(self)@.gpb, pol), ..old(self)@ }),
            write == (RelayWrite::Both { gpa: final(self)@.gpa, gpb: final(self)@.gpb }),
            pairs_exclusive(final(self)@.gpb),
    {
        proof {
            use_type_invariant(&*self);
        }
        self.gpb = polarity_select(self.gpb, pol);
        self.apply()
    }

    /// Sets the high-voltage enable line while the output frequency `f` is
    /// above zero and clears it otherwise; returns the write of bank B.
    pub fn hv_on_update(&mut self, f: u32) -> (write: RelayWrite)
        ensures
            final(self)@ == (HvSnapshot {
                gpb: with_hv_enable(old(self)@.gpb, f > 0),
                ..old(self)@
            }),
            final(self)@.wf(),
            write == (RelayWrite::BankB { gpb: final(self)@.gpb }),
    {
        proof {
            use_type_invariant(&*self);
            lemma_bank_b_bits(self.gpb);
        }
        let gpb = if f > 0 {
            self.gpb | HV_ON
        } else {
            self.gpb & !HV_ON
        };
        self.gpb = gpb;
        RelayWrite::BankB { gpb }
    }

    /// Takes one event and says what to do before the next one: the commands
    /// to offer, the registers to write and the time to hold. While
    /// `is_idle()` holds afterwards the next event is a command; otherwise it
    /// is `StepDone`, once the write and the hold are over.
    pub fn step(&mut self, event: HvEvent) -> (out: HvStep)
        ensures
            (final(self)@, out) == old(self)@.step(event),
            final(self)@.wf(),
    {
        proof {
            use_type_invariant(&*self);
            lemma_bank_b_bits(self.gpb);
        }
        match event {
            HvEvent::Command(HvCommand::ForceStop) => {
                let write = self.hv_on_update(0);
                self.state = HvState::Off;
                HvStep {
                    dac: Some(DacCmd::SetHvVolts(0)),
                    freq: Some(FrequencyCmd::SetFrequency(0)),
                    write,
                    hold_ms: 0,
                }
            },
            HvEvent::Command(HvCommand::RequestPolarityToggle) => {
                if self.is_idle() {
                    self.state = HvState::Discharging;
                    HvStep {
                        dac: Some(DacCmd::SetHvVolts(0)),
                        freq: Some(FrequencyCmd::SetFrequency(0)),
                        write: RelayWrite::Nothing,
                        hold_ms: 0,
                    }
                } else {
                    HvStep { dac: None, freq: None, write: RelayWrite::Nothing, hold_ms: 0 }
                }
            },
            HvEvent::StepDone { write_ok } => {
                match self.state {
                    HvState::Off | HvState::Running => HvStep {
                        dac: None,
                        freq: None,
                        write: RelayWrite::Nothing,
                        hold_ms: 0,
                    },
                    HvState::Discharging => {
                        let write = self.hv_on_update(0);
                        self.state = HvState::WaitingForDischarge;
                        HvStep { dac: None, freq: None, write, hold_ms: DISCHARGE_HOLD_MS }
                    },
                    HvState::WaitingForDischarge => {
                        self.state = HvState::PreSetting;
                        let new_pol = self.pol.flipped();
                        let write = self.set_polarity(new_pol);
                        HvStep { dac: None, freq: None, write, hold_ms: RELAY_HOLD_MS }
                    },
                    HvState::PreSetting => {
                        if write_ok {
                            self.pol = self.pol.flipped();
                        }
                        self.state = HvState::Completing;
                        self.gpb = self.gpb | TRANSFER_RELAYS;
                        let write = self.apply();
                        HvStep { dac: None, freq: None, write, hold_ms: RELAY_HOLD_MS }
                    },
                    HvState::Completing => {
                        self.state = HvState::Toggling;
                        HvStep {
                            dac: None,
                            freq: None,
                            write: RelayWrite::Nothing,
                            hold_ms: RELAY_HOLD_MS,
                        }
                    },
                    HvState::Toggling => {
                        self.state = HvState::Restoring;
                        self.gpb = self.gpb & !TRANSFER_RELAYS;
                        let write = self.apply();
                        HvStep { dac: None, freq: None, write, hold_ms: SETTLE_HOLD_MS }
                    },
                    HvState::Restoring => {
                        self.state = HvState::Running;
                        HvStep { dac: None, freq: None, write: RelayWrite::Nothing, hold_ms: 0 }
                    },
                }
            },
        }
    }
}

/// The relay invariant holds in every state that a step can reach: bank A
/// stays released, the select lines stay valid, and once they show a polarity
/// exactly one line of each complementary pair is asserted. A register write
/// always carries the shadow values of the state reached, and nothing else
/// changes the shadows.
pub proof fn law_step_keeps_relay_invariant(s: HvSnapshot, event: HvEvent)
    requires
        s.wf(),
    ensures
        s.step(event).0.wf(),
        s.step(event).0.gpb & POLARITY_SELECT_MASK != 0 ==> pairs_exclusive(s.step(event).0.gpb),
        match s.step(event).1.write {
            RelayWrite::Nothing => s.step(event).0.gpa == s.gpa && s.step(event).0.gpb == s.gpb,
            RelayWrite::BankB { gpb } => s.step(event).0.gpa == s.gpa && s.step(event).0.gpb
                == gpb,
            RelayWrite::Both { gpa, gpb } => s.step(event).0.gpa == gpa && s.step(event).0.gpb
                == gpb,
        },
{
    lemma_bank_b_bits(s.gpb);
    lemma_selected_pairs_exclusive(s.step(event).0.gpb);
}

/// A forced stop is honoured in every state at once: the machine is `Off`,
/// the high-voltage enable line is cleared and written, nothing is held (the
/// discharge wait is not run), and the select lines and the polarity are left
/// alone. The two commands it sends bring any DAC setpoint to zero volts (code
/// zero) and any frequency generator to zero hertz with its output off.
pub proof fn law_force_stop_from_any_state(s: HvSnapshot, setpoint: int, generator: GeneratorView)
    ensures
        ({
            let (t, out) = s.step(HvEvent::Command(HvCommand::ForceStop));
            &&& t.state == HvState::Off
            &&& t.gpb & HV_ON == 0
            &&& t.gpb & POLARITY_SELECT_MASK == s.gpb & POLARITY_SELECT_MASK
            &&& t.gpb & TRANSFER_RELAYS == s.gpb & TRANSFER_RELAYS
            &&& t.polarity == s.polarity
            &&& t.gpa == s.gpa
            &&& out.write == (RelayWrite::BankB { gpb: t.gpb })
            &&& out.hold_ms == 0
            &&& out.dac == Some(DacCmd::SetHvVolts(0))
            &&& out.freq == Some(FrequencyCmd::SetFrequency(0))
            &&& setpoint_after(setpoint, out.dac->0) == 0
            &&& dac_code_spec(setpoint_after(setpoint, out.dac->0)) == 0
            &&& generator.after(out.freq->0).ctrl.freq_hz == 0
            &&& !generator.after(out.freq->0).running
        }),
{
    lemma_bank_b_bits(s.gpb);
}

/// The select lines move in one step only: the one that leaves
/// `WaitingForDischarge`. That state is entered from `Discharging` alone, by
/// the step that clears the high-voltage enable line and asks for the whole
/// discharge hold. So no polarity relay switches before high voltage was
/// disabled and the discharge hold was asked for.
pub proof fn law_select_lines_move_only_after_discharge(s: HvSnapshot, event: HvEvent)
    ensures
        s.step(event).0.gpb & POLARITY_SELECT_MASK != s.gpb & POLARITY_SELECT_MASK ==> s.state
            == HvState::WaitingForDischarge && event is StepDone,
        s.step(event).0.state == HvState::WaitingForDischarge && s.state
            != HvState::WaitingForDischarge ==> s.state == HvState::Discharging && event is StepDone
            && s.step(event).1.hold_ms == DISCHARGE_HOLD_MS && s.step(event).0.gpb & HV_ON == 0
            && s.step(event).1.write == (RelayWrite::BankB { gpb: s.step(event).0.gpb }),
        s.step(event).0.state == HvState::Discharging && s.state != HvState::Discharging
            ==> s.state.is_idle() && s.step(event).1.dac == Some(DacCmd::SetHvVolts(0))
            && s.step(event).1.freq == Some(FrequencyCmd::SetFrequency(0)),
{
    lemma_bank_b_bits(s.gpb);
}

/// A polarity reversal begun in an idle state runs through its six steps and
/// ends in `Running` with the opposite polarity selected, the transfer relays
/// released and high voltage disabled. On the way the relay invariant holds
/// in every state, and from `PreSetting` on exactly one line of each select
/// pair is asserted. A second reversal leads back to the first polarity. If
/// the write that carries the new selection fails, the recorded polarity
/// stays as it was.
pub proof fn law_toggle_reverses_polarity(s: HvSnapshot)
    requires
        s.wf(),
        s.state.is_idle(),
    ensures
        s.after_toggle(true).state == HvState::Running,
        s.after_toggle(true).polarity == s.polarity.opposite(),
        s.after_toggle(true).gpb & POLARITY_SELECT_MASK == s.polarity.opposite().select_pattern(),
        s.after_toggle(true).gpb & TRANSFER_RELAYS == 0,
        s.after_toggle(true).gpb & HV_ON == 0,
        s.after_toggle(true).wf(),
        pairs_exclusive(s.after_toggle(true).gpb),
        s.after_toggle(true).after_toggle(true).state == HvState::Running,
        s.after_toggle(true).after_toggle(true).polarity == s.polarity,
        s.after_toggle(true).after_toggle(true).gpb & POLARITY_SELECT_MASK
            == s.polarity.select_pattern(),
        s.after_toggle(false).state == HvState::Running,
        s.after_toggle(false).polarity == s.polarity,
        forall|n: nat, ok: bool|
            n <= 6 ==> (#[trigger] s.step(
                HvEvent::Command(HvCommand::RequestPolarityToggle),
            ).0.advance_n(n, ok)).wf(),
        forall|n: nat, ok: bool|
            2 <= n <= 6 ==> pairs_exclusive(
                (#[trigger] s.step(HvEvent::Command(HvCommand::RequestPolarityToggle)).0.advance_n(
                    n,
                    ok,
                )).gpb,
            ),
{
    let s0 = s.step(HvEvent::Command(HvCommand::RequestPolarityToggle)).0;
    assert forall|n: nat, ok: bool| n <= 6 implies {
        let t = #[trigger] s0.advance_n(n, ok);
        &&& t.wf()
        &&& (2 <= n ==> pairs_exclusive(t.gpb))
        &&& (n == 6 ==> t.state == HvState::Running && t.gpb & POLARITY_SELECT_MASK
            == s.polarity.opposite().select_pattern() && t.gpb & TRANSFER_RELAYS == 0 && t.gpb
            & HV_ON == 0 && t.polarity == if ok {
            s.polarity.opposite()
        } else {
            s.polarity
        })
    } by {
        lemma_reversal_steps(s0, n, ok);
    }
    let t = s.after_toggle(true);
    assert(t == s0.advance_n(6, true));
    assert(s.after_toggle(false) == s0.advance_n(6, false));
    let t0 = t.step(HvEvent::Command(HvCommand::RequestPolarityToggle)).0;
    lemma_reversal_steps(t0, 6, true);
}

/// The course of a reversal, step by step, from the state that the request
/// leaves behind.
proof fn lemma_reversal_steps(s0: HvSnapshot, n: nat, ok: bool)
    requires
        s0.wf(),
        s0.state == HvState::Discharging,
        n <= 6,
    ensures
        s0.advance_n(n, ok).wf(),
        2 <= n ==> pairs_exclusive(s0.advance_n(n, ok).gpb),
        2 <= n ==> s0.advance_n(n, ok).gpb & POLARITY_SELECT_MASK
            == s0.polarity.opposite().select_pattern(),
        n == 6 ==> {
            let t = s0.advance_n(n, ok);
            &&& t.state == HvState::Running
            &&& t.gpb & TRANSFER_RELAYS == 0
            &&& t.gpb & HV_ON == 0
            &&& t.polarity == if ok {
                s0.polarity.opposite()
            } else {
                s0.polarity
            }
        },
{
    reveal_with_fuel(HvSnapshot::advance_n, 7);
    let s1 = s0.advance(ok).0;
    let s2 = s1.advance(ok).0;
    let s3 = s2.advance(ok).0;
    let s4 = s3.advance(ok).0;
    let s5 = s4.advance(ok).0;
    let s6 = s5.advance(ok).0;
    lemma_bank_b_bits(s0.gpb);
    lemma_bank_b_bits(s1.gpb);
    lemma_bank_b_bits(s2.gpb);
    lemma_bank_b_bits(s3.gpb);
    lemma_bank_b_bits(s4.gpb);
    lemma_selected_pairs_exclusive(s2.gpb);
    lemma_selected_pairs_exclusive(s3.gpb);
    lemma_selected_pairs_exclusive(s5.gpb);
    assert(s0.advance_n(0, ok) == s0);
    assert(s0.advance_n(1, ok) == s1);
    assert(s0.advance_n(2, ok) == s2);
    assert(s0.advance_n(3, ok) == s3);
    assert(s0.advance_n(4, ok) == s4);
    assert(s0.advance_n(5, ok) == s5);
    assert(s0.advance_n(6, ok) == s6);
}

} // verus!
