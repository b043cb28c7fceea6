//! Client library for a remote continuous-glucose-monitoring sharing service.
//!
//! The library holds the session lifecycle and the polling/averaging engine:
//! the login state machine (success, credential failure, account lockout,
//! additional-verification-required, regional redirect), the authenticated
//! request wrapper with its single-retry policy, the patient/connection
//! resolution policy, and the windowed averaging of readings. Every function
//! here carries a contract checked by Verus.
//!
//! Network transport, JSON (de)serialization of the wire records, and the
//! background task plumbing live outside this crate, in a thin shell that
//! drives the state machines defined here.

pub mod auth;
pub mod client;
pub mod errors;
pub mod executor;
pub mod models;
pub mod session;
pub mod utils;
pub mod window;

pub use auth::{Authenticator, LoginOutcome, LoginProgress};
pub use client::{ClientConfig, ConnectionDescriptor, ConnectionIdentifier};
pub use errors::LibreLinkUpError;
pub use executor::{ExecAction, ExecEvent, ExecPhase, RequestExecutor};
pub use models::client::{LibreCgmData, ReadResponse, TrendType};
pub use models::countries::{CountryConfigData, CountryConfigResponse};
pub use models::login::{AccountResponse, LoginArgs, LoginResponse, LoginResponseData, UserResponse};
pub use models::region::Region;
pub use session::SessionState;
pub use utils::RawReading;
pub use window::AveragingWindow;
