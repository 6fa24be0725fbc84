//! Control logic of a bench high-voltage supply, verified with Verus.
//!
//! The instrument drives a square wave of selectable frequency, regulates a
//! high-voltage bus through a DAC setpoint, reverses the output polarity
//! through a relay network and watches two sense channels for over-voltage.
//! Each of its components is here as a state machine without any hardware in
//! it: a function takes what happened (a command, a pin level, a reply of a
//! device, the end of a wait) and returns what to do next (the codes and
//! registers to write, the commands to send, the time to wait). The firmware
//! around the library carries that out and reports back.
//!
//! Voltages are whole microvolts and times whole milliseconds, unless a name
//! says otherwise. Nothing in the library allocates.
//!
//! The contracts of the functions say exactly what they return, over the
//! models in the same modules. The proof functions whose names begin with
//! `law_` state what holds of whole sequences of steps.

use vstd::prelude::*;

pub mod board_id;
pub mod buttons;
pub mod dac_control;
pub mod drivers;
pub mod frequency_control;
pub mod hv_control;
pub mod safety;

use crate::dac_control::DacCmd;
use crate::frequency_control::FrequencyCmd;
use crate::hv_control::HvCommand;

verus! {

/// Capacity of each command channel between the components. A sender waits
/// only while its channel is full.
pub const CHANNEL_CAPACITY: usize = 8;

/// What the button interpreter reports: one event for each physical press.
#[derive(Copy, Clone, Debug, PartialEq, Eq, Structural)]
pub enum ButtonsEvent {
    PcShort,
    PcLong,
    PolarityShort,
    PolarityLong,
    FreqShort,
    FreqLong,
}

/// A command together with the component that is to receive it.
#[derive(Copy, Clone, Debug, PartialEq, Eq, Structural)]
pub enum Command {
    Dac(DacCmd),
    Hv(HvCommand),
    Frequency(FrequencyCmd),
}

/// The command that a button event stands for, if any: a long press of the
/// polarity button stands for none.
pub open spec fn command_for(event: ButtonsEvent) -> Option<Command> {
    match event {
        ButtonsEvent::PcShort => Some(Command::Dac(DacCmd::ShortStep)),
        ButtonsEvent::PcLong => Some(Command::Dac(DacCmd::StartRamp)),
        ButtonsEvent::PolarityShort => Some(Command::Hv(HvCommand::RequestPolarityToggle)),
        ButtonsEvent::PolarityLong => None,
        ButtonsEvent::FreqShort => Some(Command::Frequency(FrequencyCmd::CycleNext)),
        ButtonsEvent::FreqLong => Some(Command::Frequency(FrequencyCmd::EnterInputCaptureMode)),
    }
}

/// Turns a button event into the command to forward.
pub fn dispatch(event: ButtonsEvent) -> (command: Option<Command>)
    ensures
        command == command_for(event),
{
    match event {
        ButtonsEvent::PcShort => Some(Command::Dac(DacCmd::ShortStep)),
        ButtonsEvent::PcLong => Some(Command::Dac(DacCmd::StartRamp)),
        ButtonsEvent::PolarityShort => Some(Command::Hv(HvCommand::RequestPolarityToggle)),
        ButtonsEvent::PolarityLong => None,
        ButtonsEvent::FreqShort => Some(Command::Frequency(FrequencyCmd::CycleNext)),
        ButtonsEvent::FreqLong => Some(Command::Frequency(FrequencyCmd::EnterInputCaptureMode)),
    }
}

} // verus!
