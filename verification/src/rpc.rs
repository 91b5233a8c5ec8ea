//! The daemon's remote procedure call side.

pub mod server;
