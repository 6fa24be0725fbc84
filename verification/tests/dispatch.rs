use hv_supply::board_id::read_board_id;
use hv_supply::dac_control::DacCmd;
use hv_supply::frequency_control::FrequencyCmd;
use hv_supply::hv_control::HvCommand;
use hv_supply::{dispatch, ButtonsEvent, Command};

#[test]
fn board_id_of_every_strapping() {
    assert_eq!(read_board_id(false, false), 0);
    assert_eq!(read_board_id(true, false), 1);
    assert_eq!(read_board_id(false, true), 2);
    assert_eq!(read_board_id(true, true), 3);
}

#[test]
fn primary_button_drives_the_dac() {
    assert_eq!(dispatch(ButtonsEvent::PcShort), Some(Command::Dac(DacCmd::ShortStep)));
    assert_eq!(dispatch(ButtonsEvent::PcLong), Some(Command::Dac(DacCmd::StartRamp)));
}

#[test]
fn polarity_button_asks_for_a_reversal() {
    assert_eq!(
        dispatch(ButtonsEvent::PolarityShort),
        Some(Command::Hv(HvCommand::RequestPolarityToggle))
    );
    assert_eq!(dispatch(ButtonsEvent::PolarityLong), None);
}

#[test]
fn frequency_button_drives_the_generator() {
    assert_eq!(
        dispatch(ButtonsEvent::FreqShort),
        Some(Command::Frequency(FrequencyCmd::CycleNext))
    );
    assert_eq!(
        dispatch(ButtonsEvent::FreqLong),
        Some(Command::Frequency(FrequencyCmd::EnterInputCaptureMode))
    );
}
