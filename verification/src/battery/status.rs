//! The alert payloads: which transitions are alert-worthy and how an alert
//! is shaped for a delivery sink.

use vstd::prelude::*;
use vstd::string::*;

verus! {

/// How long a timed alert stays up before it dismisses itself, in
/// milliseconds.
pub const DISMISS_DELAY_MS: u32 = 5000;

/// The alert-worthy outcomes of a level transition.
///
/// `Unknown` may carry a detail describing why the reading failed. There is
/// no `Regular` status: crossing into `Regular` is never itself
/// alert-worthy.
#[derive(Debug, PartialEq)]
pub enum BatteryStatus {
    Unknown(Option<String>),
    Critical,
    Low,
    High,
    Full,
}

impl BatteryStatus {
    /// The short human-readable summary of this status.
    pub open spec fn summary_spec(&self) -> Seq<char> {
        match self {
            BatteryStatus::Unknown(_) => "Battery is Unknown"@,
            BatteryStatus::Critical => "Battery is Critical"@,
            BatteryStatus::Low => "Battery is almost Empty"@,
            BatteryStatus::High => "Battery is almost Full"@,
            BatteryStatus::Full => "Battery is Full"@,
        }
    }

    /// Summarises this status, as `summary_spec` states.
    pub fn summary(&self) -> (s: String)
        ensures
            s@ == self.summary_spec(),
    {
        match self {
            BatteryStatus::Unknown(_) => String::from_str("Battery is Unknown"),
            BatteryStatus::Critical => String::from_str("Battery is Critical"),
            BatteryStatus::Low => String::from_str("Battery is almost Empty"),
            BatteryStatus::High => String::from_str("Battery is almost Full"),
            BatteryStatus::Full => String::from_str("Battery is Full"),
        }
    }
}

/// The shaped alert handed to a delivery sink.
///
/// A sticky alert stays up until it is dismissed by hand; a timed alert
/// dismisses itself after `timeout_ms` milliseconds. The contract of the
/// library ends at this value: rendering and delivery belong to the sink.
#[derive(Debug, PartialEq)]
pub struct Alert {
    pub summary: String,
    pub body: Option<String>,
    pub sticky: bool,
    pub timeout_ms: u32,
}

impl Alert {
    /// Shapes `status` into the alert that a sink should deliver.
    ///
    /// `Unknown` and `Critical` demand attention until dismissed by hand;
    /// `Low`, `High` and `Full` dismiss themselves after the fixed delay.
    /// Only `Unknown` carries a body: the detail of the failed reading, when
    /// there is one.
    pub fn from_status(status: BatteryStatus) -> (a: Alert)
        ensures
            a.summary@ == status.summary_spec(),
            a.sticky == (status is Unknown || status is Critical),
            a.sticky ==> a.timeout_ms == 0,
            !a.sticky ==> a.timeout_ms == DISMISS_DELAY_MS,
            status matches BatteryStatus::Unknown(detail) ==> a.body == detail,
            !(status is Unknown) ==> a.body is None,
    {
        let summary = status.summary();
        match status {
            BatteryStatus::Unknown(detail) => Alert {
                summary,
                body: detail,
                sticky: true,
                timeout_ms: 0,
            },
            BatteryStatus::Critical => Alert { summary, body: None, sticky: true, timeout_ms: 0 },
            BatteryStatus::Low => Alert {
                summary,
                body: None,
                sticky: false,
                timeout_ms: DISMISS_DELAY_MS,
            },
            BatteryStatus::High => Alert {
                summary,
                body: None,
                sticky: false,
                timeout_ms: DISMISS_DELAY_MS,
            },
            BatteryStatus::Full => Alert {
                summary,
                body: None,
                sticky: false,
                timeout_ms: DISMISS_DELAY_MS,
            },
        }
    }
}

} // verus!
