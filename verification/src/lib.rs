//! Watches a battery charge reading, classifies it into discrete levels,
//! and decides which level changes are worth surfacing as alerts.
//!
//! The pipeline is: raw text -> [`Percentage`] (validated) ->
//! [`BatteryLevel`] (classified via [`Breakpoints`]) -> [`BatteryStatus`]
//! (a transition decision with hysteresis) -> [`Alert`] (the shaped payload
//! handed to a delivery sink). The [`Watcher`] runs one reading per tick
//! through that pipeline; obtaining the reading and delivering the alert
//! belong to the caller.

pub mod battery;
pub mod error;
pub mod text;
pub mod validate;

pub use battery::level::BatteryLevel;
pub use battery::percentage::Breakpoints;
pub use battery::percentage::Percentage;
pub use battery::status::Alert;
pub use battery::status::BatteryStatus;
pub use battery::watcher::Config;
pub use battery::watcher::Interval;
pub use battery::watcher::Watcher;
pub use error::Error;
