//! The discrete charge classification and its transition policy.

use vstd::prelude::*;

use super::status::BatteryStatus;

verus! {

/// Describes roughly the amount of charge in a battery.
#[derive(Clone, Copy, Debug, PartialEq, Eq, Structural)]
pub enum BatteryLevel {
    Unknown,
    Critical,
    Low,
    Regular,
    High,
    Full,
}

impl Default for BatteryLevel {
    /// A fresh watcher starts with no belief about the charge band.
    fn default() -> (r: Self)
        ensures
            r == BatteryLevel::Unknown,
    {
        BatteryLevel::Unknown
    }
}

/// The transition policy: what a move from `from` to `to` reports.
///
/// A reading equal to the current belief reports nothing. Losing the ability
/// to read the source (`Unknown`), and reaching `Critical` or `Full`, are
/// always reported. Entering `Low` from `Critical` and entering `High` from
/// `Full` are deliberately kept silent, so a reading that hovers near a
/// breakpoint does not flap between two alert states; every other entry into
/// `Low` or `High` is reported. Entering `Regular` is never reported.
pub open spec fn transition_spec(from: BatteryLevel, to: BatteryLevel) -> Option<BatteryStatus> {
    if from == to {
        None
    } else if to is Unknown {
        Some(BatteryStatus::Unknown(None))
    } else if to is Critical {
        Some(BatteryStatus::Critical)
    } else if to is Low {
        if from is Critical {
            None
        } else {
            Some(BatteryStatus::Low)
        }
    } else if to is High {
        if from is Full {
            None
        } else {
            Some(BatteryStatus::High)
        }
    } else if to is Full {
        Some(BatteryStatus::Full)
    } else {
        None
    }
}

impl BatteryLevel {
    /// Checks the state transition from one `BatteryLevel` to another.
    ///
    /// Since the real battery is the source of truth about its charge, it is
    /// **allowed** to transition from and to any `BatteryLevel`, and this
    /// function just gives a possible `BatteryStatus` to describe the
    /// transition. The table below lists every ordered pair off the
    /// diagonal, so that the deliberate asymmetry of the two silent edges
    /// stays visible.
    pub fn transition(&self, to: &Self) -> (r: Option<BatteryStatus>)
        ensures
            r == transition_spec(*self, *to),
    {
        if self == to {
            return None;
        }
        match (self, to) {
            (BatteryLevel::Critical, BatteryLevel::Unknown) => Some(BatteryStatus::Unknown(None)),
            (BatteryLevel::Low, BatteryLevel::Unknown) => Some(BatteryStatus::Unknown(None)),
            (BatteryLevel::Regular, BatteryLevel::Unknown) => Some(BatteryStatus::Unknown(None)),
            (BatteryLevel::High, BatteryLevel::Unknown) => Some(BatteryStatus::Unknown(None)),
            (BatteryLevel::Full, BatteryLevel::Unknown) => Some(BatteryStatus::Unknown(None)),
            (BatteryLevel::Unknown, BatteryLevel::Critical) => Some(BatteryStatus::Critical),
            (BatteryLevel::Low, BatteryLevel::Critical) => Some(BatteryStatus::Critical),
            (BatteryLevel::Regular, BatteryLevel::Critical) => Some(BatteryStatus::Critical),
            (BatteryLevel::High, BatteryLevel::Critical) => Some(BatteryStatus::Critical),
            (BatteryLevel::Full, BatteryLevel::Critical) => Some(BatteryStatus::Critical),
            (BatteryLevel::Unknown, BatteryLevel::Low) => Some(BatteryStatus::Low),
            (BatteryLevel::Critical, BatteryLevel::Low) => None,
            (BatteryLevel::Regular, BatteryLevel::Low) => Some(BatteryStatus::Low),
            (BatteryLevel::High, BatteryLevel::Low) => Some(BatteryStatus::Low),
            (BatteryLevel::Full, BatteryLevel::Low) => Some(BatteryStatus::Low),
            (BatteryLevel::Unknown, BatteryLevel::Regular) => None,
            (BatteryLevel::Critical, BatteryLevel::Regular) => None,
            (BatteryLevel::Low, BatteryLevel::Regular) => None,
            (BatteryLevel::High, BatteryLevel::Regular) => None,
            (BatteryLevel::Full, BatteryLevel::Regular) => None,
            (BatteryLevel::Unknown, BatteryLevel::High) => Some(BatteryStatus::High),
            (BatteryLevel::Critical, BatteryLevel::High) => Some(BatteryStatus::High),
            (BatteryLevel::Low, BatteryLevel::High) => Some(BatteryStatus::High),
            (BatteryLevel::Regular, BatteryLevel::High) => Some(BatteryStatus::High),
            (BatteryLevel::Full, BatteryLevel::High) => None,
            (BatteryLevel::Unknown, BatteryLevel::Full) => Some(BatteryStatus::Full),
            (BatteryLevel::Critical, BatteryLevel::Full) => Some(BatteryStatus::Full),
            (BatteryLevel::Low, BatteryLevel::Full) => Some(BatteryStatus::Full),
            (BatteryLevel::Regular, BatteryLevel::Full) => Some(BatteryStatus::Full),
            (BatteryLevel::High, BatteryLevel::Full) => Some(BatteryStatus::Full),
            _ => None,
        }
    }
}

/// A transition from a level to itself reports nothing.
pub proof fn lemma_self_transition_silent(level: BatteryLevel)
    ensures
        transition_spec(level, level) is None,
{
}

/// Losing the ability to read the source is always reported, unless the
/// source was already unreadable.
pub proof fn lemma_to_unknown_reported(from: BatteryLevel)
    ensures
        from != BatteryLevel::Unknown ==> transition_spec(from, BatteryLevel::Unknown) == Some(
            BatteryStatus::Unknown(None),
        ),
        from == BatteryLevel::Unknown ==> transition_spec(from, BatteryLevel::Unknown) is None,
{
}

/// Entering `Low` is reported, except from `Low` itself and — to avoid alert
/// noise while recovering — from `Critical`.
pub proof fn lemma_to_low_hysteresis(from: BatteryLevel)
    ensures
        transition_spec(BatteryLevel::Critical, BatteryLevel::Low) is None,
        from != BatteryLevel::Low && from != BatteryLevel::Critical ==> transition_spec(
            from,
            BatteryLevel::Low,
        ) == Some(BatteryStatus::Low),
{
}

/// Entering `High` is reported, except from `High` itself and — symmetric to
/// the `Low` edge — from `Full`.
pub proof fn lemma_to_high_hysteresis(from: BatteryLevel)
    ensures
        transition_spec(BatteryLevel::Full, BatteryLevel::High) is None,
        from != BatteryLevel::High && from != BatteryLevel::Full ==> transition_spec(
            from,
            BatteryLevel::High,
        ) == Some(BatteryStatus::High),
{
}

/// Entering either extreme is always reported from any other level.
pub proof fn lemma_to_extremes_reported(from: BatteryLevel)
    ensures
        from != BatteryLevel::Critical ==> transition_spec(from, BatteryLevel::Critical) == Some(
            BatteryStatus::Critical,
        ),
        from != BatteryLevel::Full ==> transition_spec(from, BatteryLevel::Full) == Some(
            BatteryStatus::Full,
        ),
{
}

/// Entering `Regular` is never reported.
pub proof fn lemma_to_regular_silent(from: BatteryLevel)
    ensures
        transition_spec(from, BatteryLevel::Regular) is None,
{
}

} // verus!
