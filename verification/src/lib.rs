//! Display and control logic of a panel applet that reports battery power draw.
//!
//! The library holds what the applet decides: which text the panel shows for each
//! display mode, how durations are written, how the readings of several batteries
//! combine into one status, how fast the readings are polled, and how the applet's
//! state moves in answer to each event.

pub mod config;
pub mod duration;
pub mod monitor;
pub mod status;
pub mod text;
