//! Control of bench power supplies over a serial line.
//!
//! The library decides what goes on the wire: it validates a device's
//! configuration, encodes each capability call into the device's ASCII line
//! protocol and states the pause that must follow each command. Opening the
//! serial port, writing the bytes and waiting are left to the caller.
use vstd::prelude::*;

pub mod power_supplies;
pub mod config;
pub mod request;
