//! Custom actions that an automation engine invokes by name: parameter
//! decoding, clock-time deadlines, argument splitting, a cancellable wait
//! and the command tables for process and power control.

pub mod text;
pub mod params;
pub mod clock;
pub mod wait;
pub mod launch;
pub mod process;
pub mod power;
pub mod messages;
pub mod registry;
pub mod settings;
pub mod invocation;
pub mod location;
