//! The validated charge percentage and the breakpoints that partition the
//! charge range into classification bands.

use core::cmp::Ordering;
use vstd::prelude::*;

use crate::error::Error;
use crate::text;
use crate::validate;
use crate::validate::ValidationError;

use super::level::BatteryLevel;

verus! {

/// The upper bound of a charge percentage.
pub const MAX_PERCENTAGE: u8 = 100;

/// The amount of charge in the battery: an integer in `0..=100`.
#[derive(Clone, Copy, Debug, PartialEq, Eq, Structural)]
pub struct Percentage(u8);

impl Percentage {
    /// The numeric value of this percentage.
    pub closed spec fn spec_value(self) -> u8 {
        self.0
    }

    /// A percentage never exceeds its upper bound.
    pub open spec fn wf(self) -> bool {
        self.spec_value() <= MAX_PERCENTAGE
    }

    /// Accepts a value up to the upper bound, and rejects anything above it.
    pub fn new(val: u8) -> (r: Result<Self, Error>)
        ensures
            val <= MAX_PERCENTAGE ==> (r matches Ok(p) && p.spec_value() == val && p.wf()),
            val > MAX_PERCENTAGE ==> r == Err::<Percentage, Error>(
                Error::Validation(ValidationError::Max(MAX_PERCENTAGE)),
            ),
    {
        match validate::max(MAX_PERCENTAGE, val) {
            Ok(()) => Ok(Percentage(val)),
            Err(e) => Err(Error::from(e)),
        }
    }

    /// Reads a percentage out of raw text: surrounding whitespace is
    /// trimmed, the rest must be a decimal numeral whose value fits the
    /// bound. Text that is not a numeral (or overflows a byte) is a parse
    /// error carrying the raw text; a numeral above the bound is rejected
    /// by `new`.
    pub fn try_from(s: String) -> (r: Result<Self, Error>)
        ensures
            ({
                let t = text::trim_spec(s@);
                &&& (text::is_u8_numeral(t) && text::dec_value(text::numeral_digits(t))
                    <= MAX_PERCENTAGE) ==> (r matches Ok(p) && p.spec_value()
                    == text::dec_value(text::numeral_digits(t)))
                &&& !text::is_u8_numeral(t) ==> (r matches Err(e) && e matches Error::Parse(raw)
                    && raw@ == s@)
                &&& (text::is_u8_numeral(t) && text::dec_value(text::numeral_digits(t))
                    > MAX_PERCENTAGE) ==> r == Err::<Percentage, Error>(
                    Error::Validation(ValidationError::Max(MAX_PERCENTAGE)),
                )
            }),
    {
        let clean = text::trim(s.as_str());
        match text::parse_u8(clean) {
            Some(val) => Self::new(val),
            None => Err(Error::Parse(s)),
        }
    }

    /// The numeric value of this percentage.
    pub fn value(&self) -> (v: u8)
        ensures
            v == self.spec_value(),
    {
        self.0
    }
}

impl PartialOrd for Percentage {
    /// Ordering is total and numeric.
    fn partial_cmp(&self, other: &Percentage) -> (r: Option<Ordering>) {
        if self.0 < other.0 {
            Some(Ordering::Less)
        } else if self.0 == other.0 {
            Some(Ordering::Equal)
        } else {
            Some(Ordering::Greater)
        }
    }
}

impl vstd::std_specs::cmp::PartialOrdSpecImpl for Percentage {
    open spec fn obeys_partial_cmp_spec() -> bool {
        true
    }

    open spec fn partial_cmp_spec(&self, other: &Percentage) -> Option<Ordering> {
        if self.spec_value() < other.spec_value() {
            Some(Ordering::Less)
        } else if self.spec_value() == other.spec_value() {
            Some(Ordering::Equal)
        } else {
            Some(Ordering::Greater)
        }
    }
}

/// Groups `Percentage` marks to select a `BatteryLevel`.
///
/// The four marks are strictly increasing and partition `0..=100` into five
/// bands, one per level other than `Unknown`.
#[derive(Clone, Copy, Debug, PartialEq, Eq, Structural)]
pub struct Breakpoints {
    critical: Percentage,
    low: Percentage,
    high: Percentage,
    full: Percentage,
}

/// The band that `value` falls into between the four marks: at or below
/// `critical` is `Critical`; above it up to `low` is `Low`; strictly
/// between `low` and `high` is `Regular`; from `high` up to (but not
/// reaching) `full` is `High`; at or above `full` is `Full`.
pub open spec fn classify_spec(b: Breakpoints, value: u8) -> BatteryLevel {
    if value <= b.spec_critical() {
        BatteryLevel::Critical
    } else if value <= b.spec_low() {
        BatteryLevel::Low
    } else if value < b.spec_high() {
        BatteryLevel::Regular
    } else if value < b.spec_full() {
        BatteryLevel::High
    } else {
        BatteryLevel::Full
    }
}

impl Breakpoints {
    /// The mark at or below which the charge is `Critical`.
    pub closed spec fn spec_critical(self) -> u8 {
        self.critical.spec_value()
    }

    /// The mark at or below which the charge is `Low`.
    pub closed spec fn spec_low(self) -> u8 {
        self.low.spec_value()
    }

    /// The mark at or above which the charge is `High`.
    pub closed spec fn spec_high(self) -> u8 {
        self.high.spec_value()
    }

    /// The mark at or above which the charge is `Full`.
    pub closed spec fn spec_full(self) -> u8 {
        self.full.spec_value()
    }

    /// The marks are strictly increasing and each is a valid percentage.
    pub open spec fn wf(self) -> bool {
        self.spec_critical() < self.spec_low() < self.spec_high() < self.spec_full()
            <= MAX_PERCENTAGE
    }

    /// Accepts four strictly increasing marks, each a valid percentage.
    ///
    /// The first violated pair is named, checked in the order critical/low,
    /// low/high, high/full; only then is each mark held to the percentage
    /// bound, in the same order, so with increasing marks the bound check
    /// can only fail on `full` after failing on an earlier mark.
    pub fn new(critical: u8, low: u8, high: u8, full: u8) -> (r: Result<Self, Error>)
        ensures
            !(critical < low) ==> r == Err::<Breakpoints, Error>(
                Error::Validation(ValidationError::Order(critical, low)),
            ),
            critical < low && !(low < high) ==> r == Err::<Breakpoints, Error>(
                Error::Validation(ValidationError::Order(low, high)),
            ),
            critical < low < high && !(high < full) ==> r == Err::<Breakpoints, Error>(
                Error::Validation(ValidationError::Order(high, full)),
            ),
            critical < low < high < full && full > MAX_PERCENTAGE ==> r == Err::<Breakpoints, Error>(
                Error::Validation(ValidationError::Max(MAX_PERCENTAGE)),
            ),
            critical < low < high < full <= MAX_PERCENTAGE ==> (r matches Ok(b) && b.wf()
                && b.spec_critical() == critical && b.spec_low() == low && b.spec_high() == high
                && b.spec_full() == full),
    {
        if let Err(e) = validate::order(critical, low) {
            return Err(Error::from(e));
        }
        if let Err(e) = validate::order(low, high) {
            return Err(Error::from(e));
        }
        if let Err(e) = validate::order(high, full) {
            return Err(Error::from(e));
        }
        let critical = Percentage::new(critical)?;
        let low = Percentage::new(low)?;
        let high = Percentage::new(high)?;
        let full = Percentage::new(full)?;
        Ok(Breakpoints { critical, low, high, full })
    }

    /// Selects a `BatteryLevel` from a `Percentage`, as `classify_spec`
    /// states.
    pub fn get_level(&self, percentage: &Percentage) -> (level: BatteryLevel)
        ensures
            level == classify_spec(*self, percentage.spec_value()),
    {
        if percentage <= &self.critical {
            BatteryLevel::Critical
        } else if percentage <= &self.low {
            BatteryLevel::Low
        } else if percentage < &self.high {
            BatteryLevel::Regular
        } else if percentage < &self.full {
            BatteryLevel::High
        } else {
            BatteryLevel::Full
        }
    }
}

} // verus!
