//! Verified core of a hybrid hardware and software display dimmer.
//!
//! The crate decides which backlight device to drive, describes the session
//! and system bus calls that set the hardware backlight and the software
//! gamma, formats the errors the daemon reports, and takes the decisions of
//! the daemon's single-instance lock.

pub mod brightness_modifier;
pub mod common;
pub mod daemon;
pub mod rpc;
mod text;
