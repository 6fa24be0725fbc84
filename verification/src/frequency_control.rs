//! The frequency generator: the frequency table, the frequency in force, and
//! the timing of the square wave.

use vstd::prelude::*;
use crate::hv_control::HvCommand;

verus! {

/// Number of slots in the frequency table.
pub const TABLE_LEN: usize = 12;

/// The drive pin toggles every `HALF_PERIOD_US / hz` microseconds.
pub const HALF_PERIOD_US: u32 = 500_000;

/// How long the drive loop rests between looks at its commands while the
/// output is disabled, in milliseconds.
pub const IDLE_MS: u64 = 50;

/// A command for the frequency generator.
#[derive(Copy, Clone, Debug, PartialEq, Eq, Structural)]
pub enum FrequencyCmd {
    /// Advance to the next slot of the frequency table.
    CycleNext,
    /// Reserved for a capture mode; it changes nothing.
    EnterInputCaptureMode,
    /// Set the frequency in hertz; zero disables the output.
    SetFrequency(u32),
}

/// The frequency table, in hertz. A slot of zero hertz disables the output.
pub open spec fn frequency_table() -> Seq<u32> {
    seq![1u32, 2u32, 5u32, 10u32, 20u32, 50u32, 60u32, 100u32, 200u32, 400u32, 0u32, 0u32]
}

/// What a `FrequencyControl` stands for: the table slot that `CycleNext` last
/// reached, and the frequency in force.
pub struct FrequencyView {
    pub idx: int,
    pub freq_hz: u32,
}

impl FrequencyView {
    /// The state at power-up: zero hertz, the table position at the first
    /// slot.
    pub open spec fn initial() -> FrequencyView {
        FrequencyView { idx: 0, freq_hz: 0 }
    }

    /// The slot index lies inside the table.
    pub open spec fn wf(self) -> bool {
        0 <= self.idx < TABLE_LEN
    }

    /// The state after one `CycleNext`.
    pub open spec fn next(self) -> FrequencyView {
        let idx = (self.idx + 1) % 12;
        FrequencyView { idx, freq_hz: frequency_table()[idx] }
    }

    /// The state after `n` times `CycleNext`.
    pub open spec fn after_nexts(self, n: nat) -> FrequencyView
        decreases n,
    {
        if n == 0 {
            self
        } else {
            self.after_nexts((n - 1) as nat).next()
        }
    }
}

/// The table position and frequency of the generator.
pub struct FrequencyControl {
    idx: usize,
    table: [u32; 12],
    freq_hz: u32,
}

impl View for FrequencyControl {
    type V = FrequencyView;

    closed spec fn view(&self) -> FrequencyView {
        FrequencyView { idx: self.idx as int, freq_hz: self.freq_hz }
    }
}

impl FrequencyControl {
    #[verifier::type_invariant]
    spec fn table_intact(&self) -> bool {
        self.idx < TABLE_LEN && self.table@ == frequency_table()
    }

    /// The control at power-up: zero hertz, with the table position at the
    /// first slot, so that the first `CycleNext` leads to the second.
    pub fn new() -> (ctrl: Self)
        ensures
            ctrl@ == FrequencyView::initial(),
            ctrl@ == (FrequencyView { idx: 0, freq_hz: 0 }),
            ctrl@.wf(),
    {
        let table: [u32; 12] = [1, 2, 5, 10, 20, 50, 60, 100, 200, 400, 0, 0];
        assert(table@ =~= frequency_table());
        FrequencyControl { idx: 0, table, freq_hz: 0 }
    }

    /// Moves to the next slot, wrapping at the end of the table, and returns
    /// the frequency found there.
    pub fn next(&mut self) -> (hz: u32)
        ensures
            final(self)@ == old(self)@.next(),
            final(self)@.wf(),
            hz == final(self)@.freq_hz,
        no_unwind
    {
        proof {
            use_type_invariant(&*self);
        }
        let idx = (self.idx + 1) % TABLE_LEN;
        let hz = self.table[idx];
        self.idx = idx;
        self.freq_hz = hz;
        hz
    }

    /// Sets the frequency directly; the table position stays where it was.
    pub fn set(&mut self, f: u32) -> (hz: u32)
        ensures
            final(self)@ == (FrequencyView { idx: old(self)@.idx, freq_hz: f }),
            final(self)@.wf(),
            hz == f,
        no_unwind
    {
        proof {
            use_type_invariant(&*self);
        }
        self.freq_hz = f;
        f
    }

    /// The frequency in force, in hertz.
    pub fn current(&self) -> (hz: u32)
        ensures
            hz == self@.freq_hz,
    {
        self.freq_hz
    }

    /// The table slot that the last `CycleNext` reached.
    pub fn index(&self) -> (idx: usize)
        ensures
            idx == self@.idx,
            idx < TABLE_LEN,
    {
        proof {
            use_type_invariant(self);
        }
        self.idx
    }
}

/// `n` times `CycleNext` move the slot index `n` places round the table, and
/// from the first of them on the frequency is that of the slot.
pub proof fn lemma_after_nexts(v: FrequencyView, n: nat)
    requires
        v.wf(),
    ensures
        v.after_nexts(n).idx == (v.idx + n) % 12,
        v.after_nexts(n).wf(),
        n >= 1 ==> v.after_nexts(n).freq_hz == frequency_table()[(v.idx + n) % 12],
    decreases n,
{
    if n > 0 {
        lemma_after_nexts(v, (n - 1) as nat);
    }
}

/// Cycling is circular: from any position, every slot of the table (the
/// zero-hertz slots too) is reached by at most twelve `CycleNext` commands,
/// and twelve of them lead back to the slot they started from.
pub proof fn law_cycle_next_visits_every_slot(v: FrequencyView, slot: int)
    requires
        v.wf(),
        0 <= slot < TABLE_LEN,
    ensures
        exists|n: nat|
            1 <= n <= 12 && (#[trigger] v.after_nexts(n)).idx == slot && v.after_nexts(n).freq_hz
                == frequency_table()[slot],
        v.after_nexts(12).idx == v.idx,
{
    let n: nat = if slot > v.idx {
        (slot - v.idx) as nat
    } else {
        (slot + 12 - v.idx) as nat
    };
    lemma_after_nexts(v, n);
    lemma_after_nexts(v, 12);
    assert(v.after_nexts(n).idx == slot);
}

/// What a `FrequencyGenerator` stands for.
pub struct GeneratorView {
    pub ctrl: FrequencyView,
    pub running: bool,
}

impl GeneratorView {
    /// The state at power-up: zero hertz and the output off.
    pub open spec fn initial() -> GeneratorView {
        GeneratorView { ctrl: FrequencyView::initial(), running: false }
    }

    /// The output runs only at a frequency above zero.
    pub open spec fn wf(self) -> bool {
        self.ctrl.wf() && (self.running ==> self.ctrl.freq_hz > 0)
    }

    /// The state after `cmd`.
    pub open spec fn after(self, cmd: FrequencyCmd) -> GeneratorView {
        match cmd {
            FrequencyCmd::CycleNext => GeneratorView {
                ctrl: self.ctrl.next(),
                running: self.ctrl.next().freq_hz != 0,
            },
            FrequencyCmd::EnterInputCaptureMode => self,
            FrequencyCmd::SetFrequency(f) => GeneratorView {
                ctrl: FrequencyView { idx: self.ctrl.idx, freq_hz: f },
                running: f != 0,
            },
        }
    }

    /// What `cmd` asks of the surroundings.
    pub open spec fn effect(self, cmd: FrequencyCmd) -> FrequencyEffect {
        match cmd {
            FrequencyCmd::CycleNext => if self.ctrl.next().freq_hz == 0 {
                FrequencyEffect { hv: Some(HvCommand::ForceStop), pin_low: true }
            } else {
                FrequencyEffect { hv: None, pin_low: false }
            },
            FrequencyCmd::EnterInputCaptureMode => FrequencyEffect { hv: None, pin_low: false },
            FrequencyCmd::SetFrequency(f) => FrequencyEffect { hv: None, pin_low: f == 0 },
        }
    }

    /// What the drive loop does next.
    pub open spec fn drive(self) -> DriveStep {
        if self.running {
            DriveStep::Toggle { half_period_us: (HALF_PERIOD_US / self.ctrl.freq_hz) as u64 }
        } else {
            DriveStep::HoldLow { idle_ms: IDLE_MS }
        }
    }
}

/// What a command asks of the surroundings of the generator.
#[derive(Copy, Clone, Debug, PartialEq, Eq, Structural)]
pub struct FrequencyEffect {
    /// A command to send to the high-voltage component.
    pub hv: Option<HvCommand>,
    /// Whether the drive pin is to be pulled low at once.
    pub pin_low: bool,
}

/// One turn of the drive loop.
#[derive(Copy, Clone, Debug, PartialEq, Eq, Structural)]
pub enum DriveStep {
    /// Toggle the drive pin, then wait half a period.
    Toggle { half_period_us: u64 },
    /// Hold the drive pin low, then rest.
    HoldLow { idle_ms: u64 },
}

/// The frequency generator: the table control and whether the output runs.
pub struct FrequencyGenerator {
    ctrl: FrequencyControl,
    running: bool,
}

impl View for FrequencyGenerator {
    type V = GeneratorView;

    closed spec fn view(&self) -> GeneratorView {
        GeneratorView { ctrl: self.ctrl@, running: self.running }
    }
}

impl FrequencyGenerator {
    #[verifier::type_invariant]
    spec fn runs_above_zero(&self) -> bool {
        self.running ==> self.ctrl.freq_hz > 0
    }

    /// The generator at power-up: zero hertz, the output off and the drive
    /// pin held low until a command sets a frequency above zero.
    pub fn new() -> (generator: Self)
        ensures
            generator@ == GeneratorView::initial(),
            generator@ == (GeneratorView {
                ctrl: FrequencyView { idx: 0, freq_hz: 0 },
                running: false,
            }),
            generator@.wf(),
            generator@.drive() == (DriveStep::HoldLow { idle_ms: IDLE_MS }),
    {
        FrequencyGenerator { ctrl: FrequencyControl::new(), running: false }
    }

    /// The frequency in force, in hertz.
    pub fn current(&self) -> (hz: u32)
        ensures
            hz == self@.ctrl.freq_hz,
    {
        self.ctrl.current()
    }

    /// Whether the square wave is on.
    pub fn is_running(&self) -> (running: bool)
        ensures
            running == self@.running,
            running ==> self@.ctrl.freq_hz > 0,
    {
        proof {
            use_type_invariant(self);
        }
        self.running
    }

    /// Takes one command. Reaching a zero-hertz slot by `CycleNext` switches
    /// the output off and asks the high-voltage component to stop; setting
    /// zero hertz directly switches the output off without that request.
    pub fn on_command(&mut self, cmd: FrequencyCmd) -> (effect: FrequencyEffect)
        ensures
            final(self)@ == old(self)@.after(cmd),
            final(self)@.wf(),
            effect == old(self)@.effect(cmd),
            effect.hv == Some(HvCommand::ForceStop) <==> (cmd == FrequencyCmd::CycleNext
                && final(self)@.ctrl.freq_hz == 0),
            effect.hv is Some ==> !final(self)@.running,
    {
        proof {
            use_type_invariant(&*self);
            use_type_invariant(&self.ctrl);
        }
        match cmd {
            FrequencyCmd::CycleNext => {
                self.running = false;
                let f = self.ctrl.next();
                if f == 0 {
                    FrequencyEffect { hv: Some(HvCommand::ForceStop), pin_low: true }
                } else {
                    self.running = true;
                    FrequencyEffect { hv: None, pin_low: false }
                }
            },
            FrequencyCmd::EnterInputCaptureMode => FrequencyEffect { hv: None, pin_low: false },
            FrequencyCmd::SetFrequency(f) => {
                self.running = false;
                self.ctrl.set(f);
                if f == 0 {
                    FrequencyEffect { hv: None, pin_low: true }
                } else {
                    self.running = true;
                    FrequencyEffect { hv: None, pin_low: false }
                }
            },
        }
    }

    /// One turn of the drive loop: while the output runs, toggle the pin and
    /// wait half a period; otherwise hold the pin low and rest.
    pub fn drive(&self) -> (step: DriveStep)
        ensures
            step == self@.drive(),
    {
        proof {
            use_type_invariant(self);
        }
        if self.running {
            let f = self.ctrl.current();
            let half: u32 = HALF_PERIOD_US / f;
            DriveStep::Toggle { half_period_us: half as u64 }
        } else {
            DriveStep::HoldLow { idle_ms: IDLE_MS }
        }
    }
}

} // verus!
