//! Record shapes of the login, user, and account endpoints.
//!
//! A login response body takes one of four shapes: complete user data, a
//! regional redirect, a verification step, or an account lockout. The
//! classification of a response into an outcome lives in [`crate::auth`].

use vstd::prelude::*;
use crate::models::common::AuthTicket;

verus! {

/// Login request body (email + password).
#[derive(Debug, Clone, PartialEq, Eq)]
pub struct LoginArgs {
    /// Email of the account
    pub username: String,
    /// Password of the account
    pub password: String,
}

/// Login response when a regional redirect is needed.
#[derive(Debug, Clone, PartialEq, Eq)]
pub struct LoginRedirectResponse {
    /// Service status code
    pub status: i32,
    /// Redirect payload
    pub data: LoginRedirectData,
}

/// Redirect payload: whether to redirect, and to which region.
#[derive(Debug, Clone, PartialEq, Eq)]
pub struct LoginRedirectData {
    /// Whether the client must redirect to a different region
    pub redirect: bool,
    /// The region to redirect to
    pub region: String,
}

/// Main login response.
#[derive(Debug, Clone, PartialEq)]
pub struct LoginResponse {
    /// Service status code
    pub status: i32,
    /// The body, in one of its four shapes
    pub data: LoginResponseData,
}

/// The four shapes a login response body can take. The wire format carries no
/// discriminant; the shape is established structurally before the value
/// reaches this type.
#[derive(Debug, Clone, PartialEq)]
pub enum LoginResponseData {
    /// Complete user data: the login succeeded
    Complete(Box<Data>),
    /// The client must repeat login against a different regional address
    Redirect(LoginRedirectData),
    /// An additional verification step is required (MFA, email verification)
    Step(StepData),
    /// The account is locked after repeated failures
    Locked(LockedData),
}

/// Locked-account payload.
#[derive(Debug, Clone, PartialEq, Eq)]
pub struct LockedData {
    /// Service code of the lockout
    pub code: i32,
    /// Lockout details
    pub data: LockoutInfo,
    /// Error message from the service
    pub message: String,
}

/// Lockout details: failure count and wait times.
#[derive(Debug, Clone, PartialEq, Eq, Structural)]
pub struct LockoutInfo {
    /// Number of failed login attempts
    pub failures: i32,
    /// Time interval in seconds before the next login attempt
    pub interval: i32,
    /// Lockout duration in seconds
    pub lockout: i32,
}

/// Payload of a verification step (MFA, email verification).
#[derive(Debug, Clone, PartialEq, Eq)]
pub struct StepData {
    /// The step to perform
    pub step: Step,
    /// The user the step is for
    pub user: StepUser,
    /// Authentication ticket accompanying the step
    pub auth_ticket: AuthTicket,
}

/// A verification step.
#[derive(Debug, Clone, PartialEq, Eq)]
pub struct Step {
    /// Kind of the step
    pub step_type: String,
    /// Name of the component that performs the step
    pub component_name: String,
    /// Properties of the step
    pub props: StepProps,
}

/// Properties of a verification step.
#[derive(Debug, Clone, PartialEq, Eq)]
pub struct StepProps {
    /// Email the step addresses
    pub email: String,
}

/// The user a verification step is for.
#[derive(Debug, Clone, PartialEq, Eq)]
pub struct StepUser {
    /// User identifier
    pub id: String,
    /// Account type
    pub account_type: String,
    /// Country code
    pub country: String,
    /// Interface language
    pub ui_language: String,
}

/// Complete login data with full user information. Also the response body of
/// the user endpoint.
#[derive(Debug, Clone, PartialEq)]
pub struct Data {
    /// User profile
    pub user: User,
    /// Message counters
    pub messages: DataMessages,
    /// Notification counters
    pub notifications: Notifications,
    /// Authentication ticket of the session
    pub auth_ticket: AuthTicket,
    /// Pending invitations
    pub invitations: Option<Vec<String>>,
    /// Trusted device token
    pub trusted_device_token: String,
}

/// Response from the user endpoint (authenticated).
#[derive(Debug, Clone, PartialEq)]
pub struct UserResponse {
    /// Service status code
    pub status: i32,
    /// Complete user data
    pub data: Data,
}

/// Data payload of the account endpoint (user only).
#[derive(Debug, Clone, PartialEq)]
pub struct AccountData {
    /// User profile
    pub user: User,
}

/// Response from the account endpoint (authenticated).
#[derive(Debug, Clone, PartialEq)]
pub struct AccountResponse {
    /// Service status code
    pub status: i32,
    /// Account payload
    pub data: AccountData,
    /// Current authentication ticket
    pub ticket: AuthTicket,
}

/// Message counters.
#[derive(Debug, Clone, PartialEq, Eq, Structural)]
pub struct DataMessages {
    /// Unread messages
    pub unread: i32,
}

/// Notification counters.
#[derive(Debug, Clone, PartialEq, Eq, Structural)]
pub struct Notifications {
    /// Unresolved notifications
    pub unresolved: i32,
}

/// User profile information.
#[derive(Debug, Clone, PartialEq)]
pub struct User {
    /// User identifier
    pub id: String,
    /// First name
    pub first_name: String,
    /// Last name
    pub last_name: String,
    /// Email address
    pub email: String,
    /// Country code
    pub country: String,
    /// Interface language
    pub ui_language: String,
    /// Communication language
    pub communication_language: String,
    /// Account type
    pub account_type: String,
    /// Unit of measure
    pub uom: String,
    /// Date format
    pub date_format: String,
    /// Time format
    pub time_format: String,
    /// Email days
    pub email_day: Vec<i32>,
    /// System messages
    pub system: System,
    /// Details
    pub details: Details,
    /// Two-factor configuration
    pub two_factor: Option<TwoFactor>,
    /// Creation timestamp
    pub created: i64,
    /// Last login timestamp
    pub last_login: i64,
    /// Programs
    pub programs: Details,
    /// Date of birth timestamp
    pub date_of_birth: i64,
    /// Practices
    pub practices: Details,
    /// Devices
    pub devices: Details,
    /// Consents
    pub consents: Consents,
}

/// Two-factor configuration.
#[derive(Debug, Clone, PartialEq, Eq)]
pub struct TwoFactor {
    /// Primary method
    pub primary_method: String,
    /// Primary value
    pub primary_value: String,
    /// Secondary method
    pub secondary_method: String,
    /// Secondary value
    pub secondary_value: String,
}

/// Consent records.
#[derive(Debug, Clone, PartialEq, Eq, Structural)]
pub struct Consents {
    /// Policy acceptance timestamps
    pub llu: Llu,
}

/// Policy acceptance timestamps.
#[derive(Debug, Clone, PartialEq, Eq, Structural)]
pub struct Llu {
    /// Policy acceptance timestamp
    pub policy_accept: i64,
    /// Terms of use acceptance timestamp
    pub tou_accept: i64,
}

/// Empty details object.
#[derive(Debug, Clone, PartialEq, Eq, Structural)]
pub struct Details {}

/// System information of a user.
#[derive(Debug, Clone, PartialEq)]
pub struct System {
    /// System messages
    pub messages: SystemMessages,
}

/// System message timestamps.
#[derive(Debug, Clone, PartialEq)]
pub struct SystemMessages {
    /// First use timestamp
    pub first_use_phoenix: Option<i64>,
    /// Reports-merged timestamp
    pub first_use_phoenix_reports_data_merged: Option<i64>,
    /// Getting-started banner timestamp
    pub llu_getting_started_banner: Option<i64>,
    /// New-feature modal timestamp
    pub llu_new_feature_modal: Option<i64>,
    /// Onboarding timestamp
    pub llu_onboarding: Option<i64>,
    /// Post-release marker
    pub lv_web_post_release: Option<String>,
    /// Review banner timestamp
    pub app_review_banner: Option<i64>,
    /// Streaming tour flag
    pub streaming_tour_mandatory: Option<i64>,
}

} // verus!
