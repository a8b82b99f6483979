//! What a probe reports about one ingest, and how a report is classed.

use vstd::prelude::*;
use crate::switcher::SwitchType;
use crate::switcher::Triggers;

verus! {

/// Why a probe brought no sample.
#[derive(Debug, Clone, Copy, PartialEq, Eq, Structural)]
pub enum ProbeError {
    /// The request failed.
    Transport,
    /// The probe did not answer within the tick.
    Timeout,
}

/// One probe's report. Round-trip times are whole milliseconds, rounded
/// down.
#[derive(Debug, Clone, Copy, PartialEq, Eq, Structural)]
pub enum StreamHealth {
    /// A publisher is connected.
    Online { bitrate_kbps: u32, rtt_ms: Option<u32> },
    /// The ingest itself reports a low bitrate.
    Low { bitrate_kbps: u32 },
    /// No publisher is connected.
    Offline,
    /// There is no sample for this tick.
    Error { kind: ProbeError },
}

/// Whether a bitrate reaches down to a threshold that is set.
pub open spec fn at_or_below(value: u32, threshold: Option<u32>) -> bool {
    threshold matches Some(t) && value <= t
}

/// Whether a round-trip time is known and reaches up to a threshold that is
/// set.
pub open spec fn at_or_above(value: Option<u32>, threshold: Option<u32>) -> bool {
    value matches Some(v) && threshold matches Some(t) && v >= t
}

/// The class of one report under the given thresholds, or `None` where the
/// report carries no sample. The offline thresholds are tried first, then
/// the low bitrate, then the round-trip time.
pub open spec fn class_of(triggers: Triggers, health: StreamHealth) -> Option<SwitchType> {
    match health {
        StreamHealth::Error { .. } => None,
        StreamHealth::Offline => Some(SwitchType::Offline),
        StreamHealth::Low { bitrate_kbps } => Some(
            if at_or_below(bitrate_kbps, triggers.offline) {
                SwitchType::Offline
            } else {
                SwitchType::Low
            },
        ),
        StreamHealth::Online { bitrate_kbps, rtt_ms } => Some(
            if at_or_below(bitrate_kbps, triggers.offline) || at_or_above(
                rtt_ms,
                triggers.rtt_offline,
            ) {
                SwitchType::Offline
            } else if at_or_below(bitrate_kbps, triggers.low) {
                SwitchType::Low
            } else if at_or_above(rtt_ms, triggers.rtt) {
                SwitchType::Rtt
            } else {
                SwitchType::Normal
            },
        ),
    }
}

fn reaches_down(value: u32, threshold: Option<u32>) -> (r: bool)
    ensures
        r == at_or_below(value, threshold),
{
    match threshold {
        Some(t) => value <= t,
        None => false,
    }
}

fn reaches_up(value: Option<u32>, threshold: Option<u32>) -> (r: bool)
    ensures
        r == at_or_above(value, threshold),
{
    match (value, threshold) {
        (Some(v), Some(t)) => v >= t,
        _ => false,
    }
}

impl StreamHealth {
    /// Whether a publisher is connected.
    pub fn is_online(&self) -> (r: bool)
        ensures
            r == (*self is Online),
    {
        match self {
            StreamHealth::Online { .. } => true,
            _ => false,
        }
    }

    /// Whether the report carries a sample.
    pub fn has_sample(&self) -> (r: bool)
        ensures
            r == !(*self is Error),
    {
        match self {
            StreamHealth::Error { .. } => false,
            _ => true,
        }
    }

    /// Classes this report under the given thresholds.
    pub fn classify(&self, triggers: &Triggers) -> (r: Option<SwitchType>)
        ensures
            r == class_of(*triggers, *self),
    {
        match *self {
            StreamHealth::Error { .. } => None,
            StreamHealth::Offline => Some(SwitchType::Offline),
            StreamHealth::Low { bitrate_kbps } => {
                if reaches_down(bitrate_kbps, triggers.offline) {
                    Some(SwitchType::Offline)
                } else {
                    Some(SwitchType::Low)
                }
            },
            StreamHealth::Online { bitrate_kbps, rtt_ms } => {
                if reaches_down(bitrate_kbps, triggers.offline) || reaches_up(
                    rtt_ms,
                    triggers.rtt_offline,
                ) {
                    Some(SwitchType::Offline)
                } else if reaches_down(bitrate_kbps, triggers.low) {
                    Some(SwitchType::Low)
                } else if reaches_up(rtt_ms, triggers.rtt) {
                    Some(SwitchType::Rtt)
                } else {
                    Some(SwitchType::Normal)
                }
            },
        }
    }
}

} // verus!
