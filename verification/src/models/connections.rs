//! Record shapes of the connections-listing endpoint.

use vstd::prelude::*;

verus! {

/// Alarm rule configuration for no data (Nd).
#[derive(Debug, Clone, PartialEq, Eq, Structural)]
pub struct Nd {
    /// Interval
    pub i: i32,
    /// Repeat
    pub r: i32,
    /// Limit
    pub l: i32,
}

/// Standard alarm rule configuration.
#[derive(Debug, Clone, PartialEq, Eq, Structural)]
pub struct Std {}

/// Sensor device information.
#[derive(Debug, Clone, PartialEq, Eq)]
pub struct Sensor {
    /// Device identifier
    pub device_id: String,
    /// Serial number
    pub sn: String,
    /// Sensor age (days)
    pub a: i32,
    /// Sensor warmup period (minutes)
    pub w: i32,
    /// Sensor type
    pub pt: i32,
}

/// Authentication ticket returned alongside the connection list.
#[derive(Debug, Clone, PartialEq, Eq)]
pub struct Ticket {
    /// Session token
    pub token: String,
    /// Unix timestamp when the token expires
    pub expires: i64,
    /// Duration in seconds for which the token is valid
    pub duration: i64,
}

} // verus!
