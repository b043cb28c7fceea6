//! Processed reading types handed to consumers.

use vstd::prelude::*;

verus! {

/// Trend direction of a glucose reading.
#[derive(Debug, Clone, Copy, PartialEq, Eq, Structural)]
pub enum TrendType {
    /// Falling quickly
    SingleDown,
    /// Falling
    FortyFiveDown,
    /// Steady
    Flat,
    /// Rising
    FortyFiveUp,
    /// Rising quickly
    SingleUp,
    /// No trend could be computed
    NotComputable,
}

/// One processed glucose reading.
///
/// The value is in mg/dL; the timestamp is the reading's instant in
/// milliseconds since the Unix epoch. Immutable once constructed.
#[derive(Debug, Clone, Copy, PartialEq, Eq, Structural)]
pub struct LibreCgmData {
    /// Glucose value in mg/dL
    pub value: u32,
    /// Whether the value is above the target high
    pub is_high: bool,
    /// Whether the value is below the target low
    pub is_low: bool,
    /// Trend direction
    pub trend: TrendType,
    /// Instant of the reading, milliseconds since the Unix epoch
    pub date: i64,
}

/// A processed current/historical reading pair.
#[derive(Debug, Clone, PartialEq, Eq)]
pub struct ReadResponse {
    /// Current glucose reading
    pub current: LibreCgmData,
    /// Historical glucose readings
    pub history: Vec<LibreCgmData>,
}

} // verus!
