//! Drivers for power supplies.
//!
//! Each supported device family lives in a module of its own.
use vstd::prelude::*;

pub mod bk_precision_196x;

verus! {

/// A generic representation of a power supply. Each operation yields the bytes to
/// write to the device and the pause after them, or the error that stops the
/// operation: a driver whose device lacks a capability reports it, and does not
/// quietly do nothing.
pub trait PowerSupply: Sized {
    /// Switches the output without changing the voltage and current limits.
    fn enable_output(&mut self, enabled: bool) -> (r: Result<Transmission, SupplyError>);

    /// Sets the voltage limit, in millivolts.
    fn set_voltage_limit(&mut self, millivolts: u32) -> (r: Result<Transmission, SupplyError>);

    /// Sets the current limit, in milliamps.
    fn set_current_limit(&mut self, milliamps: u32) -> (r: Result<Transmission, SupplyError>);

    /// Ends the session and hands the device back to manual control without
    /// changing its output.
    fn close(self) -> (r: Result<Transmission, SupplyError>);
}

/// Why a configured power supply cannot be used. Reported before anything is sent.
#[derive(Debug, PartialEq, Eq)]
pub enum ConfigError {
    /// The device address is above the largest the protocol can carry.
    AddressOutOfRange { address: u8 },
    /// No power supply of that name is configured.
    UnknownSupply { name: String },
}

/// Why a driver refuses an operation.
#[derive(Clone, Copy, Debug, PartialEq, Eq)]
pub enum SupplyError {
    /// The device family has no such capability.
    Unsupported,
}

/// Power supply configuration, one variant per supported device family.
pub enum PowerSupplyConfig {
    BkPrecision196X(bk_precision_196x::Config),
}

impl PowerSupplyConfig {
    /// What `load` returns, as the device family's own `load` states it.
    pub open spec fn loads(
        self,
        r: Result<(bk_precision_196x::BkPrecision196X, Transmission), ConfigError>,
    ) -> bool {
        match self {
            PowerSupplyConfig::BkPrecision196X(config) => config.loads(r),
        }
    }

    /// Starts a session with the configured device: its driver, and the command
    /// to send once the serial port is open.
    pub fn load(&self) -> (r: Result<(bk_precision_196x::BkPrecision196X, Transmission), ConfigError>)
        ensures
            self.loads(r),
    {
        match self {
            PowerSupplyConfig::BkPrecision196X(config) => config.load(),
        }
    }
}

/// Bytes to write to the serial transport, and how long to stay quiet after them
/// before anything else is written.
#[derive(Debug, PartialEq, Eq)]
pub struct Transmission {
    pub bytes: Vec<u8>,
    pub pause_ms: u64,
}

} // verus!
