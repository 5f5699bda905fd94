//! The battery pipeline: validated percentages, breakpoint classification,
//! transition policy, alert shaping, and the watcher state machine.

pub mod level;
pub mod percentage;
pub mod status;
pub mod watcher;
