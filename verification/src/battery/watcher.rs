//! The watcher: the settings it runs under and the single-field state
//! machine that turns each reading into an optional alert.

use core::cmp::Ordering;
use vstd::prelude::*;

use crate::error::Error;
use crate::text;
use crate::validate;
use crate::validate::HasZero;
use crate::validate::ValidationError;

use super::level::transition_spec;
use super::level::BatteryLevel;
use super::percentage::classify_spec;
use super::percentage::Breakpoints;
use super::percentage::Percentage;
use super::status::BatteryStatus;

verus! {

/// How long the watcher waits between two ticks, in nanoseconds.
///
/// A plain count of nanoseconds stands in for a wall-clock duration; the
/// caller that drives the polling loop turns it back into one.
#[derive(Clone, Copy, Debug, PartialEq, Eq, Structural)]
pub struct Interval {
    nanos: u128,
}

impl Interval {
    /// The length of this interval in nanoseconds.
    pub closed spec fn spec_nanos(self) -> u128 {
        self.nanos
    }

    /// An interval of `nanos` nanoseconds.
    pub fn from_nanos(nanos: u128) -> (r: Interval)
        ensures
            r.spec_nanos() == nanos,
    {
        Interval { nanos }
    }

    /// An interval of `secs` seconds.
    pub fn from_secs(secs: u64) -> (r: Interval)
        ensures
            r.spec_nanos() == secs as u128 * 1_000_000_000,
    {
        proof {
            assert(secs as u128 * 1_000_000_000 <= u64::MAX as u128 * 1_000_000_000)
                by (nonlinear_arith)
                requires
                    secs <= u64::MAX,
            ;
        }
        Interval { nanos: secs as u128 * 1_000_000_000 }
    }

    /// The length of this interval in nanoseconds.
    pub fn nanos(&self) -> (n: u128)
        ensures
            n == self.spec_nanos(),
    {
        self.nanos
    }
}

impl HasZero for Interval {
    closed spec fn spec_zero() -> Interval {
        Interval { nanos: 0 }
    }

    fn zero() -> (r: Interval) {
        Interval { nanos: 0 }
    }
}

impl PartialOrd for Interval {
    /// Ordering is total and numeric, by length.
    fn partial_cmp(&self, other: &Interval) -> (r: Option<Ordering>) {
        if self.nanos < other.nanos {
            Some(Ordering::Less)
        } else if self.nanos == other.nanos {
            Some(Ordering::Equal)
        } else {
            Some(Ordering::Greater)
        }
    }
}

impl vstd::std_specs::cmp::PartialOrdSpecImpl for Interval {
    open spec fn obeys_partial_cmp_spec() -> bool {
        true
    }

    open spec fn partial_cmp_spec(&self, other: &Interval) -> Option<Ordering> {
        if self.spec_nanos() < other.spec_nanos() {
            Some(Ordering::Less)
        } else if self.spec_nanos() == other.spec_nanos() {
            Some(Ordering::Equal)
        } else {
            Some(Ordering::Greater)
        }
    }
}

/// Contains settings for `Watcher`: where readings come from, how they are
/// classified, and how long the polling loop rests between ticks.
#[derive(Debug, PartialEq)]
pub struct Config {
    battery_file: String,
    breakpoints: Breakpoints,
    interval: Interval,
}

impl Config {
    /// The identifier of the reading source, trimmed.
    pub closed spec fn spec_battery_file(&self) -> Seq<char> {
        self.battery_file@
    }

    /// The breakpoints that classify each reading.
    pub closed spec fn spec_breakpoints(&self) -> Breakpoints {
        self.breakpoints
    }

    /// The polling interval.
    pub closed spec fn spec_interval(&self) -> Interval {
        self.interval
    }

    /// Accepts a source identifier that is not empty once trimmed and a
    /// strictly positive polling interval, in that order of checks.
    pub fn new(battery_file: String, breakpoints: Breakpoints, interval: Interval) -> (r: Result<
        Config,
        Error,
    >)
        ensures
            text::trim_spec(battery_file@).len() == 0 ==> (r matches Err(e) && e matches Error::Validation(v)
                && v matches ValidationError::Required(n) && n@ == "battery_file"@),
            text::trim_spec(battery_file@).len() > 0 && interval.spec_nanos() == 0 ==> r == Err::<
                Config,
                Error,
            >(Error::Validation(ValidationError::GreaterThanZero)),
            text::trim_spec(battery_file@).len() > 0 && interval.spec_nanos() > 0 ==> (r matches Ok(c)
                && c.spec_battery_file() == text::trim_spec(battery_file@) && c.spec_breakpoints()
                == breakpoints && c.spec_interval() == interval),
    {
        let battery_file = match validate::required("battery_file", battery_file) {
            Ok(clean) => clean,
            Err(e) => {
                return Err(Error::from(e));
            },
        };
        if let Err(e) = validate::greater_than_zero(interval) {
            return Err(Error::from(e));
        }
        Ok(Config { battery_file, breakpoints, interval })
    }

    /// The identifier of the reading source.
    pub fn battery_file(&self) -> (f: &str)
        ensures
            f@ == self.spec_battery_file(),
    {
        self.battery_file.as_str()
    }

    /// The breakpoints that classify each reading.
    pub fn breakpoints(&self) -> (b: &Breakpoints)
        ensures
            *b == self.spec_breakpoints(),
    {
        &self.breakpoints
    }

    /// The polling interval.
    pub fn interval(&self) -> (i: Interval)
        ensures
            i == self.spec_interval(),
    {
        self.interval
    }
}

/// Keeps track of the `BatteryLevel`.
///
/// The single persisted field of the state machine is the current level;
/// the rest of the struct is the immutable configuration. The caller that
/// drives the polling loop obtains one reading per tick and hands it to
/// `update`.
#[derive(Debug)]
pub struct Watcher {
    config: Config,
    state: BatteryLevel,
}

impl Watcher {
    /// The settings this watcher runs under.
    pub closed spec fn spec_config(&self) -> Config {
        self.config
    }

    /// The current belief about the charge band.
    pub closed spec fn spec_state(&self) -> BatteryLevel {
        self.state
    }

    /// A watcher starts with no belief about the charge band.
    pub fn new(config: Config) -> (w: Watcher)
        ensures
            w.spec_config() == config,
            w.spec_state() == BatteryLevel::Unknown,
    {
        Watcher { config, state: BatteryLevel::default() }
    }

    /// One tick: takes the outcome of reading the source, updates the
    /// state, and reports what is alert-worthy.
    ///
    /// A successful reading is classified and run through the transition
    /// table. A failed reading forces the state to `Unknown` — bypassing
    /// the table on purpose, so that repeated consecutive failures each
    /// re-emit an alert — and always reports `Unknown` with the failure
    /// detail.
    pub fn update(&mut self, reading: Result<Percentage, Error>) -> (status: Option<BatteryStatus>)
        ensures
            final(self).spec_config() == old(self).spec_config(),
            (reading matches Ok(p) ==> ({
                let next = classify_spec(old(self).spec_config().spec_breakpoints(), p.spec_value());
                &&& final(self).spec_state() == next
                &&& status == transition_spec(old(self).spec_state(), next)
            })),
            (reading matches Err(e) ==> ({
                &&& final(self).spec_state() == BatteryLevel::Unknown
                &&& status matches Some(st)
                &&& st matches BatteryStatus::Unknown(d)
                &&& d matches Some(msg)
                &&& msg@ == e.message_spec()
            })),
    {
        match reading {
            Ok(percentage) => {
                let level = self.config.breakpoints.get_level(&percentage);
                let status = self.state.transition(&level);
                self.state = level;
                status
            },
            Err(e) => {
                self.state = BatteryLevel::Unknown;
                Some(BatteryStatus::Unknown(Some(e.message())))
            },
        }
    }
}

} // verus!
