//! The button interpreter: from edges and looks at a pin to one event for
//! each physical press, short or long.

use vstd::prelude::*;
use crate::ButtonsEvent;

verus! {

/// Wait between a falling edge and the look that confirms it, in
/// milliseconds.
pub const DEBOUNCE_MS: u64 = 30;

/// Wait between two looks at a held button, in milliseconds.
pub const POLL_MS: u64 = 10;

/// Long-press threshold of the primary button, in milliseconds.
pub const LONG_PRESS_MS_PC: u64 = 800;

/// Long-press threshold of the polarity button, in milliseconds.
pub const LONG_PRESS_MS_POLARITY: u64 = 800;

/// Long-press threshold of the frequency button, in milliseconds.
pub const LONG_PRESS_MS_FREQ: u64 = 1000;

/// The three buttons, in the order in which they are watched.
#[derive(Copy, Clone, Debug, PartialEq, Eq, Structural)]
pub enum Button {
    Pc,
    Polarity,
    Freq,
}

impl Button {
    /// The button watched after this one.
    pub open spec fn following(self) -> Button {
        match self {
            Button::Pc => Button::Polarity,
            Button::Polarity => Button::Freq,
            Button::Freq => Button::Pc,
        }
    }

    /// How long this button must be held for a long press, in milliseconds.
    pub open spec fn long_press_ms(self) -> u64 {
        match self {
            Button::Pc => LONG_PRESS_MS_PC,
            Button::Polarity => LONG_PRESS_MS_POLARITY,
            Button::Freq => LONG_PRESS_MS_FREQ,
        }
    }

    /// The event of a short press of this button.
    pub open spec fn short_event(self) -> ButtonsEvent {
        match self {
            Button::Pc => ButtonsEvent::PcShort,
            Button::Polarity => ButtonsEvent::PolarityShort,
            Button::Freq => ButtonsEvent::FreqShort,
        }
    }

    /// The event of a long press of this button.
    pub open spec fn long_event(self) -> ButtonsEvent {
        match self {
            Button::Pc => ButtonsEvent::PcLong,
            Button::Polarity => ButtonsEvent::PolarityLong,
            Button::Freq => ButtonsEvent::FreqLong,
        }
    }

    /// The button watched after this one.
    pub fn successor(self) -> (next: Button)
        ensures
            next == self.following(),
    {
        match self {
            Button::Pc => Button::Polarity,
            Button::Polarity => Button::Freq,
            Button::Freq => Button::Pc,
        }
    }

    /// How long this button must be held for a long press, in milliseconds.
    pub fn threshold_ms(self) -> (ms: u64)
        ensures
            ms == self.long_press_ms(),
    {
        match self {
            Button::Pc => LONG_PRESS_MS_PC,
            Button::Polarity => LONG_PRESS_MS_POLARITY,
            Button::Freq => LONG_PRESS_MS_FREQ,
        }
    }

    /// The event of a press of this button, long or short.
    pub fn press_event(self, long: bool) -> (event: ButtonsEvent)
        ensures
            event == if long {
                self.long_event()
            } else {
                self.short_event()
            },
    {
        match self {
            Button::Pc => if long {
                ButtonsEvent::PcLong
            } else {
                ButtonsEvent::PcShort
            },
            Button::Polarity => if long {
                ButtonsEvent::PolarityLong
            } else {
                ButtonsEvent::PolarityShort
            },
            Button::Freq => if long {
                ButtonsEvent::FreqLong
            } else {
                ButtonsEvent::FreqShort
            },
        }
    }
}

/// Where the watch of the current button stands.
#[derive(Copy, Clone, Debug, PartialEq, Eq, Structural)]
pub enum WatchPhase {
    /// Waiting for the button to go down.
    AwaitingEdge,
    /// An edge was seen; the debounce wait runs.
    Debouncing,
    /// The press is confirmed and no event has been sent for it.
    Held,
    /// The long event was sent; the release is waited for and swallowed.
    AwaitingRelease,
}

/// What the interpreter is told.
#[derive(Copy, Clone, Debug, PartialEq, Eq, Structural)]
pub enum ButtonInput {
    /// The watched button went down.
    FallingEdge,
    /// The watched pin was read: whether it is low (pressed), and the time
    /// since the press was confirmed, in milliseconds.
    Sample { low: bool, held_ms: u64 },
}

impl ButtonInput {
    /// A look that finds the button pressed.
    pub open spec fn is_low(self) -> bool {
        self matches ButtonInput::Sample { low, .. } && low
    }

    /// A look that finds the button released.
    pub open spec fn is_release(self) -> bool {
        self matches ButtonInput::Sample { low, .. } && !low
    }

    /// A look that finds the button pressed for `threshold` milliseconds or
    /// more.
    pub open spec fn is_low_past(self, threshold: u64) -> bool {
        self matches ButtonInput::Sample { low, held_ms } && low && held_ms >= threshold
    }
}

/// What the interpreter waits for next.
#[derive(Copy, Clone, Debug, PartialEq, Eq, Structural)]
pub enum ButtonRequest {
    /// Wait for a falling edge of the button; answer with `FallingEdge`.
    WaitForFallingEdge { button: Button },
    /// Wait `delay_ms`, then read the pin of the button; answer with
    /// `Sample`.
    SampleAfter { button: Button, delay_ms: u64 },
}

/// The outcome of one step of the interpreter.
#[derive(Copy, Clone, Debug, PartialEq, Eq, Structural)]
pub struct ButtonStep {
    /// The event to send, if the step completes a press.
    pub event: Option<ButtonsEvent>,
    /// Whether the press was confirmed by this step: the time held counts
    /// from now.
    pub start_clock: bool,
    /// What to wait for next.
    pub request: ButtonRequest,
}

/// The button interpreter. It watches one button at a time, through a whole
/// cycle of edge, hold and release, and then turns to the next.
#[derive(Copy, Clone, Debug, PartialEq, Eq, Structural)]
pub struct ButtonWatcher {
    pub button: Button,
    pub phase: WatchPhase,
}

impl ButtonWatcher {
    /// The watcher turned to the next button.
    pub open spec fn advanced(self) -> ButtonWatcher {
        ButtonWatcher { button: self.button.following(), phase: WatchPhase::AwaitingEdge }
    }

    /// What the watcher waits for in its present phase.
    pub open spec fn pending(self) -> ButtonRequest {
        match self.phase {
            WatchPhase::AwaitingEdge => ButtonRequest::WaitForFallingEdge { button: self.button },
            WatchPhase::Debouncing => ButtonRequest::SampleAfter {
                button: self.button,
                delay_ms: DEBOUNCE_MS,
            },
            WatchPhase::Held | WatchPhase::AwaitingRelease => ButtonRequest::SampleAfter {
                button: self.button,
                delay_ms: POLL_MS,
            },
        }
    }

    /// The watcher after `input`. An input that the present phase does not
    /// wait for changes nothing.
    pub open spec fn after(self, input: ButtonInput) -> ButtonWatcher {
        match (self.phase, input) {
            (WatchPhase::AwaitingEdge, ButtonInput::FallingEdge) => ButtonWatcher {
                phase: WatchPhase::Debouncing,
                ..self
            },
            (WatchPhase::Debouncing, ButtonInput::Sample { low, .. }) => if low {
                ButtonWatcher { phase: WatchPhase::Held, ..self }
            } else {
                self.advanced()
            },
            (WatchPhase::Held, ButtonInput::Sample { low, held_ms }) => if !low {
                self.advanced()
            } else if held_ms >= self.button.long_press_ms() {
                ButtonWatcher { phase: WatchPhase::AwaitingRelease, ..self }
            } else {
                self
            },
            (WatchPhase::AwaitingRelease, ButtonInput::Sample { low, .. }) => if low {
                self
            } else {
                self.advanced()
            },
            _ => self,
        }
    }

    /// The event that `input` completes, if any: the short event when a held
    /// button is found released, the long event when it is first found held
    /// past its threshold.
    pub open spec fn emitted(self, input: ButtonInput) -> Option<ButtonsEvent> {
        if self.phase == WatchPhase::Held && input.is_release() {
            Some(self.button.short_event())
        } else if self.phase == WatchPhase::Held && input.is_low_past(self.button.long_press_ms()) {
            Some(self.button.long_event())
        } else {
            None
        }
    }

    /// The whole outcome of `input`.
    pub open spec fn outcome(self, input: ButtonInput) -> ButtonStep {
        ButtonStep {
            event: self.emitted(input),
            start_clock: self.phase == WatchPhase::Debouncing && input.is_low(),
            request: self.after(input).pending(),
        }
    }

    /// The watcher after a series of inputs, and the events sent on the way.
    pub open spec fn run(self, inputs: Seq<ButtonInput>) -> (ButtonWatcher, Seq<ButtonsEvent>)
        decreases inputs.len(),
    {
        if inputs.len() == 0 {
            (self, Seq::empty())
        } else {
            let (end, later) = self.after(inputs.first()).run(inputs.drop_first());
            match self.emitted(inputs.first()) {
                Some(event) => (end, seq![event] + later),
                None => (end, later),
            }
        }
    }

    /// A watcher that waits for the first button to go down.
    pub fn new() -> (watcher: Self)
        ensures
            watcher == (ButtonWatcher { button: Button::Pc, phase: WatchPhase::AwaitingEdge }),
    {
        ButtonWatcher { button: Button::Pc, phase: WatchPhase::AwaitingEdge }
    }

    /// What the watcher waits for in its present phase.
    pub fn request(&self) -> (request: ButtonRequest)
        ensures
            request == self.pending(),
    {
        match self.phase {
            WatchPhase::AwaitingEdge => ButtonRequest::WaitForFallingEdge { button: self.button },
            WatchPhase::Debouncing => ButtonRequest::SampleAfter {
                button: self.button,
                delay_ms: DEBOUNCE_MS,
            },
            WatchPhase::Held | WatchPhase::AwaitingRelease => ButtonRequest::SampleAfter {
                button: self.button,
                delay_ms: POLL_MS,
            },
        }
    }

    /// Takes one input and tells which event to send, if any, and what to
    /// wait for next.
    pub fn step(&mut self, input: ButtonInput) -> (out: ButtonStep)
        ensures
            *final(self) == old(self).after(input),
            out == old(self).outcome(input),
    {
        let mut event: Option<ButtonsEvent> = None;
        let mut start_clock = false;
        match input {
            ButtonInput::FallingEdge => {
                if self.phase == WatchPhase::AwaitingEdge {
                    self.phase = WatchPhase::Debouncing;
                }
            },
            ButtonInput::Sample { low, held_ms } => {
                match self.phase {
                    WatchPhase::AwaitingEdge => {},
                    WatchPhase::Debouncing => {
                        if low {
                            self.phase = WatchPhase::Held;
                            start_clock = true;
                        } else {
                            self.button = self.button.successor();
                            self.phase = WatchPhase::AwaitingEdge;
                        }
                    },
                    WatchPhase::Held => {
                        if !low {
                            event = Some(self.button.press_event(false));
                            self.button = self.button.successor();
                            self.phase = WatchPhase::AwaitingEdge;
                        } else if held_ms >= self.button.threshold_ms() {
                            event = Some(self.button.press_event(true));
                            self.phase = WatchPhase::AwaitingRelease;
                        }
                    },
                    WatchPhase::AwaitingRelease => {
                        if !low {
                            self.button = self.button.successor();
                            self.phase = WatchPhase::AwaitingEdge;
                        }
                    },
                }
            },
        }
        ButtonStep { event, start_clock, request: self.request() }
    }
}

/// The button stays down through every look but the last, which finds it
/// released.
pub open spec fn held_then_released(looks: Seq<ButtonInput>) -> bool {
    &&& looks.len() >= 1
    &&& forall|i: int| 0 <= i < looks.len() - 1 ==> (#[trigger] looks[i]).is_low()
    &&& looks.last().is_release()
}

/// Some look before the last finds the button down for `threshold`
/// milliseconds or more.
pub open spec fn held_past(looks: Seq<ButtonInput>, threshold: u64) -> bool {
    exists|i: int| 0 <= i < looks.len() - 1 && (#[trigger] looks[i]).is_low_past(threshold)
}

/// Once the long event is out, the looks up to the release send nothing more.
pub proof fn lemma_release_is_swallowed(w: ButtonWatcher, looks: Seq<ButtonInput>)
    requires
        w.phase == WatchPhase::AwaitingRelease,
        held_then_released(looks),
    ensures
        w.run(looks) == (w.advanced(), Seq::<ButtonsEvent>::empty()),
    decreases looks.len(),
{
    let rest = looks.drop_first();
    if looks.len() == 1 {
        assert(looks.first() == looks.last());
        assert(w.advanced().run(rest).1 =~= Seq::<ButtonsEvent>::empty());
    } else {
        assert(looks.first() == looks[0]);
        assert forall|i: int| 0 <= i < rest.len() - 1 implies (#[trigger] rest[i]).is_low() by {
            assert(rest[i] == looks[i + 1]);
        }
        assert(rest.last() == looks.last());
        lemma_release_is_swallowed(w, rest);
    }
}

/// A confirmed press sends exactly one event by the time of its release: the
/// long event, and no short one, if a look found it held past the threshold
/// of its button; the short event otherwise. The watcher then turns to the
/// next button.
pub proof fn law_one_event_per_press(w: ButtonWatcher, looks: Seq<ButtonInput>)
    requires
        w.phase == WatchPhase::Held,
        held_then_released(looks),
    ensures
        w.run(looks).0 == w.advanced(),
        held_past(looks, w.button.long_press_ms()) ==> w.run(looks).1 == seq![
            w.button.long_event(),
        ],
        !held_past(looks, w.button.long_press_ms()) ==> w.run(looks).1 == seq![
            w.button.short_event(),
        ],
    decreases looks.len(),
{
    let threshold = w.button.long_press_ms();
    let rest = looks.drop_first();
    if looks.len() == 1 {
        assert(looks.first() == looks.last());
        assert(w.advanced().run(rest).1 =~= Seq::<ButtonsEvent>::empty());
        assert(w.run(looks).1 =~= seq![w.button.short_event()]);
    } else {
        assert(looks.first() == looks[0]);
        assert forall|i: int| 0 <= i < rest.len() - 1 implies (#[trigger] rest[i]).is_low() by {
            assert(rest[i] == looks[i + 1]);
        }
        assert(rest.last() == looks.last());
        if looks[0].is_low_past(threshold) {
            lemma_release_is_swallowed(w.after(looks[0]), rest);
            assert(w.run(looks).1 =~= seq![w.button.long_event()]);
        } else {
            law_one_event_per_press(w, rest);
            if held_past(looks, threshold) {
                let i = choose|i: int|
                    0 <= i < looks.len() - 1 && (#[trigger] looks[i]).is_low_past(threshold);
                assert(rest[i - 1] == looks[i]);
                assert(held_past(rest, threshold));
            }
            if held_past(rest, threshold) {
                let i = choose|i: int|
                    0 <= i < rest.len() - 1 && (#[trigger] rest[i]).is_low_past(threshold);
                assert(rest[i] == looks[i + 1]);
                assert(held_past(looks, threshold));
            }
        }
    }
}

/// From the first edge on: an edge that the debounce look does not confirm
/// sends nothing and passes the watch on; a confirmed press sends exactly one
/// event, as `law_one_event_per_press` says.
pub proof fn law_press_cycle(w: ButtonWatcher, confirm: ButtonInput, looks: Seq<ButtonInput>)
    requires
        w.phase == WatchPhase::AwaitingEdge,
        confirm is Sample,
        confirm.is_low() ==> held_then_released(looks),
    ensures
        confirm.is_release() ==> w.run(seq![ButtonInput::FallingEdge, confirm]) == (
            w.advanced(),
            Seq::<ButtonsEvent>::empty(),
        ),
        confirm.is_low() ==> w.run(seq![ButtonInput::FallingEdge, confirm] + looks).0
            == w.advanced(),
        confirm.is_low() && held_past(looks, w.button.long_press_ms()) ==> w.run(
            seq![ButtonInput::FallingEdge, confirm] + looks,
        ).1 == seq![w.button.long_event()],
        confirm.is_low() && !held_past(looks, w.button.long_press_ms()) ==> w.run(
            seq![ButtonInput::FallingEdge, confirm] + looks,
        ).1 == seq![w.button.short_event()],
{
    let debouncing = ButtonWatcher { phase: WatchPhase::Debouncing, ..w };
    if confirm.is_release() {
        let inputs = seq![ButtonInput::FallingEdge, confirm];
        let tail = inputs.drop_first();
        assert(tail.first() == confirm);
        assert(tail.drop_first().len() == 0);
        assert(debouncing.after(confirm) == w.advanced());
        assert(w.advanced().run(tail.drop_first()) == (w.advanced(), Seq::<ButtonsEvent>::empty()));
        assert(debouncing.run(tail) == (w.advanced(), Seq::<ButtonsEvent>::empty()));
        assert(inputs.first() == ButtonInput::FallingEdge);
    } else {
        let held = ButtonWatcher { phase: WatchPhase::Held, ..w };
        let inputs = seq![ButtonInput::FallingEdge, confirm] + looks;
        let tail = inputs.drop_first();
        assert(inputs.first() == ButtonInput::FallingEdge);
        assert(tail.first() == confirm);
        assert(tail.drop_first() =~= looks);
        law_one_event_per_press(held, looks);
        assert(debouncing.run(tail) == held.run(looks));
        assert(w.run(inputs) == held.run(looks));
    }
}

} // verus!
