//! Record shapes of the notification-settings endpoint.

use vstd::prelude::*;

verus! {

/// No-data alarm configuration for notification settings.
#[derive(Debug, Clone, PartialEq, Eq, Structural)]
pub struct NotificationSettingsNd {
    /// Whether this alarm rule is enabled
    pub on: bool,
    /// Interval
    pub i: i32,
    /// Repeat
    pub r: i32,
    /// Limit
    pub l: i32,
}

} // verus!
