//! Record shapes shared across endpoints.

use vstd::prelude::*;

verus! {

/// Authentication ticket with token and expiration information.
#[derive(Debug, Clone, PartialEq, Eq)]
pub struct AuthTicket {
    /// Session token
    pub token: String,
    /// Unix timestamp when the token expires
    pub expires: i64,
    /// Duration in seconds for which the token is valid
    pub duration: i64,
}

/// Sensor device information.
#[derive(Debug, Clone, PartialEq, Eq)]
pub struct Sensor {
    /// Device identifier
    pub device_id: String,
    /// Serial number
    pub sn: String,
    /// Sensor age (days)
    pub a: i32,
    /// Sensor warmup period (minutes)
    pub w: i32,
    /// Sensor type
    pub pt: i32,
}

/// Alarm rule configuration for no data (Nd).
#[derive(Debug, Clone, PartialEq, Eq, Structural)]
pub struct Nd {
    /// Interval
    pub i: i32,
    /// Repeat
    pub r: i32,
    /// Limit
    pub l: i32,
}

/// Standard alarm rule configuration.
#[derive(Debug, Clone, PartialEq, Eq, Structural)]
pub struct Std {}

} // verus!
