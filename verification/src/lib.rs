//! Verified core of niri's night light, backlight and session helpers.
//!
//! The modules hold the decisions: how configured clock times parse, when the bedtime stage
//! warms the screen, when gamma ramps must be re-sent, when a manual backlight change is
//! honoured, what the logind watcher reports, and how spawned children are set up. The
//! floating-point colour models and all I/O live with the compositor around this library.

pub mod backlight;
pub mod clock;
pub mod gamma_state;
pub mod login1;
pub mod merge;
pub mod schedule;
pub mod sensor;
pub mod service_channel;
pub mod spawning;
pub mod text;
