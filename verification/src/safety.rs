//! The safety monitor: the verdict on the two sense channels of one cycle.

use vstd::prelude::*;
use crate::dac_control::{setpoint_after, DacCmd};
use crate::hv_control::{HvCommand, HvEvent, HvSnapshot, HvState, HV_ON};

verus! {

/// Sensed magnitude above which an over-voltage warning is raised
/// (1.527 V, about 310 V on the bus), in microvolts.
pub const OV_WARN_UV: i64 = 1_527_000;

/// Sensed magnitude above which the supply is shut down
/// (1.724 V, about 350 V on the bus), in microvolts.
pub const EMERG_SHUT_UV: i64 = 1_724_000;

/// Period of the monitor, in milliseconds.
pub const MONITOR_PERIOD_MS: u64 = 100;

/// The two sense channels read in each cycle, in this order.
pub const SENSE_CHANNELS: [u8; 2] = [1, 2];

/// The absolute value of a sensed voltage.
pub open spec fn magnitude(uv: int) -> int {
    if uv < 0 {
        -uv
    } else {
        uv
    }
}

/// How one cycle of the monitor ends.
#[derive(Copy, Clone, Debug, PartialEq, Eq, Structural)]
pub enum SafetyLevel {
    /// A channel could not be read. This is reported and nothing else.
    ReadFailure,
    /// Both magnitudes are at or below the warning threshold.
    Normal,
    /// A magnitude is above the warning threshold, none above the emergency
    /// threshold.
    Warning,
    /// A magnitude is above the emergency threshold (and so above the warning
    /// threshold too).
    Emergency,
}

/// The verdict of one cycle and the commands that it sends.
#[derive(Copy, Clone, Debug, PartialEq, Eq, Structural)]
pub struct SafetyReport {
    pub level: SafetyLevel,
    pub dac: Option<DacCmd>,
    pub hv: Option<HvCommand>,
}

/// The verdict on two channel readings, in microvolts.
pub open spec fn level_of(ch1: Result<i64, ()>, ch2: Result<i64, ()>) -> SafetyLevel {
    match (ch1, ch2) {
        (Ok(uv1), Ok(uv2)) => {
            if magnitude(uv1 as int) > EMERG_SHUT_UV || magnitude(uv2 as int) > EMERG_SHUT_UV {
                SafetyLevel::Emergency
            } else if magnitude(uv1 as int) > OV_WARN_UV || magnitude(uv2 as int) > OV_WARN_UV {
                SafetyLevel::Warning
            } else {
                SafetyLevel::Normal
            }
        },
        _ => SafetyLevel::ReadFailure,
    }
}

/// The report on two channel readings: an emergency sends the setpoint to
/// zero and forces the high-voltage component to stop; nothing else sends
/// anything.
pub open spec fn report_of(ch1: Result<i64, ()>, ch2: Result<i64, ()>) -> SafetyReport {
    let level = level_of(ch1, ch2);
    if level == SafetyLevel::Emergency {
        SafetyReport {
            level,
            dac: Some(DacCmd::SetHvVolts(0)),
            hv: Some(HvCommand::ForceStop),
        }
    } else {
        SafetyReport { level, dac: None, hv: None }
    }
}

/// Whether a sensed voltage lies outside `-limit..=limit`.
fn exceeds(uv: i64, limit: i64) -> (over: bool)
    requires
        limit >= 0,
    ensures
        over == (magnitude(uv as int) > limit),
{
    uv > limit || uv < -limit
}

/// Judges the readings of one monitor cycle.
pub fn assess(ch1: Result<i64, ()>, ch2: Result<i64, ()>) -> (report: SafetyReport)
    ensures
        report == report_of(ch1, ch2),
        (ch1 matches Ok(uv1) && ch2 matches Ok(uv2) && magnitude(uv1 as int) <= OV_WARN_UV
            && magnitude(uv2 as int) <= OV_WARN_UV) ==> report == (SafetyReport {
            level: SafetyLevel::Normal,
            dac: None,
            hv: None,
        }),
        (ch1 matches Ok(uv1) && ch2 matches Ok(uv2) && (magnitude(uv1 as int) > EMERG_SHUT_UV
            || magnitude(uv2 as int) > EMERG_SHUT_UV)) ==> report == (SafetyReport {
            level: SafetyLevel::Emergency,
            dac: Some(DacCmd::SetHvVolts(0)),
            hv: Some(HvCommand::ForceStop),
        }),
        (ch1 is Err || ch2 is Err) ==> report == (SafetyReport {
            level: SafetyLevel::ReadFailure,
            dac: None,
            hv: None,
        }),
{
    match (ch1, ch2) {
        (Ok(uv1), Ok(uv2)) => {
            if exceeds(uv1, EMERG_SHUT_UV) || exceeds(uv2, EMERG_SHUT_UV) {
                SafetyReport {
                    level: SafetyLevel::Emergency,
                    dac: Some(DacCmd::SetHvVolts(0)),
                    hv: Some(HvCommand::ForceStop),
                }
            } else if exceeds(uv1, OV_WARN_UV) || exceeds(uv2, OV_WARN_UV) {
                SafetyReport { level: SafetyLevel::Warning, dac: None, hv: None }
            } else {
                SafetyReport { level: SafetyLevel::Normal, dac: None, hv: None }
            }
        },
        _ => SafetyReport { level: SafetyLevel::ReadFailure, dac: None, hv: None },
    }
}

/// A magnitude above the emergency threshold on either channel shuts the
/// supply down within the cycle that reads it, whatever the high-voltage
/// component is doing (in the middle of a reversal too): both commands are
/// in the report, the one brings the setpoint to zero and the other puts the
/// polarity machine in `Off` with high voltage disabled, without any hold.
pub proof fn law_emergency_shuts_down(uv1: i64, uv2: i64, hv: HvSnapshot, setpoint: int)
    requires
        magnitude(uv1 as int) > EMERG_SHUT_UV || magnitude(uv2 as int) > EMERG_SHUT_UV,
    ensures
        ({
            let report = report_of(Ok(uv1), Ok(uv2));
            &&& report.level == SafetyLevel::Emergency
            &&& report.dac == Some(DacCmd::SetHvVolts(0))
            &&& report.hv == Some(HvCommand::ForceStop)
            &&& setpoint_after(setpoint, report.dac->0) == 0
            &&& hv.step(HvEvent::Command(report.hv->0)).0.state == HvState::Off
            &&& hv.step(HvEvent::Command(report.hv->0)).0.gpb & HV_ON == 0
            &&& hv.step(HvEvent::Command(report.hv->0)).1.hold_ms == 0
        }),
{
    crate::hv_control::lemma_bank_b_bits(hv.gpb);
}

/// Magnitudes at or below the warning threshold lead to no warning and to no
/// command.
pub proof fn law_quiet_below_warning(uv1: i64, uv2: i64)
    requires
        magnitude(uv1 as int) <= OV_WARN_UV,
        magnitude(uv2 as int) <= OV_WARN_UV,
    ensures
        report_of(Ok(uv1), Ok(uv2)) == (SafetyReport {
            level: SafetyLevel::Normal,
            dac: None,
            hv: None,
        }),
{
}

} // verus!
