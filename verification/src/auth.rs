//! The login state machine.
//!
//! One login attempt answers with a body in one of four shapes; the
//! classifier below turns the answer into an outcome in a fixed priority
//! order (lockout, then credential failure, then verification step, then
//! redirect, then completion), and the authenticator applies the outcome to
//! the session: a completed login commits token and account identity, a
//! redirect moves the base address through the region directory and asks the
//! driver for a second attempt against the new address. Redirects are bounded
//! by a hop counter so that a misbehaving service cannot cause an unbounded
//! redirect loop.

use vstd::prelude::*;
use crate::errors::LibreLinkUpError;
use crate::executor::{spec_status_is_success, status_is_success};
use crate::models::login::{LoginResponse, LoginResponseData};
use crate::models::region::{Region, spec_base_url, spec_region_from_code};
use crate::session::SessionState;
use crate::utils::{spec_dec, u64_to_dec};

verus! {

use vstd::string::StringExecFns;

/// The diagnostic text of a login exchange that answered with a non-success
/// status.
pub open spec fn spec_login_failure_message(status: u16, body: Seq<char>) -> Seq<char> {
    "Login failed - HTTP "@ + spec_dec(status as nat) + ": "@ + body
}

/// Classifies the login exchange's HTTP answer: a success status hands the
/// body on to be read as a login response; any other status is an
/// invalid-response error carrying the status and the body as diagnostic
/// text.
pub fn check_login_http(status: u16, body: String) -> (r: Result<String, LibreLinkUpError>)
    ensures
        spec_status_is_success(status) ==> r == Ok::<String, LibreLinkUpError>(body),
        !spec_status_is_success(status) ==> {
            &&& r matches Err(LibreLinkUpError::InvalidResponse(m))
            &&& m@ == spec_login_failure_message(status, body@)
        },
{
    if status_is_success(status) {
        Ok(body)
    } else {
        let mut m = "Login failed - HTTP ".to_owned();
        let dec = u64_to_dec(status as u64);
        m.append(dec.as_str());
        m.append(": ");
        m.append(body.as_str());
        Err(LibreLinkUpError::InvalidResponse(m))
    }
}

/// The outcome of one login attempt, per the classification priority.
/// Produced once per attempt and never persisted.
#[derive(Debug, Clone, PartialEq)]
pub enum LoginOutcome {
    /// The login succeeded: token and account identity
    Complete(String, String),
    /// The client must repeat login against the named region
    Redirect(String),
    /// A verification step is required; the payload names its component
    AdditionalActionRequired(String),
    /// The account is locked for the given number of seconds
    Locked(i32),
    /// The credentials were rejected
    BadCredentials,
}

/// What the login driver does next: stop, or post the login again (after a
/// regional redirect moved the base address).
#[derive(Debug, Clone, Copy, PartialEq, Eq, Structural)]
pub enum LoginProgress {
    /// The attempt is settled; no further login is issued
    Done,
    /// Repeat the login against the (updated) base address
    Retry,
}

/// How many regional redirects one login call will follow before giving up.
pub const MAX_REDIRECT_HOPS: u32 = 5;

/// Classifies a login response into an outcome, in the fixed priority order:
/// lockout first, then credential failure (service status 2), then
/// additional-verification (service status 4), then redirect, then
/// completion. `None` means the response asked for nothing: no recognized
/// shape applied (for instance a redirect record whose flag is off).
pub fn classify_login(resp: &LoginResponse) -> (r: Option<LoginOutcome>)
    ensures
        resp.data matches LoginResponseData::Locked(l) ==> r == Some(
            LoginOutcome::Locked(l.data.lockout),
        ),
        !(resp.data is Locked) && resp.status == 2 ==> r == Some(LoginOutcome::BadCredentials),
        !(resp.data is Locked) && resp.status != 2 && resp.status == 4 ==> {
            &&& r matches Some(LoginOutcome::AdditionalActionRequired(c))
            &&& (resp.data matches LoginResponseData::Step(s) ==> c == s.step.component_name)
            &&& (!(resp.data is Step) ==> c@ == "unknown"@)
        },
        resp.data matches LoginResponseData::Redirect(rd) ==> (resp.status != 2 && resp.status
            != 4 ==> r == (if rd.redirect {
            Some(LoginOutcome::Redirect(rd.region))
        } else {
            None::<LoginOutcome>
        })),
        resp.data matches LoginResponseData::Complete(d) ==> (resp.status != 2 && resp.status != 4
            ==> r == Some(LoginOutcome::Complete(d.auth_ticket.token, d.user.id))),
        resp.data is Step && resp.status != 2 && resp.status != 4 ==> r is None,
{
    if let LoginResponseData::Locked(locked) = &resp.data {
        return Some(LoginOutcome::Locked(locked.data.lockout));
    }
    if resp.status == 2 {
        return Some(LoginOutcome::BadCredentials);
    }
    if resp.status == 4 {
        let component = match &resp.data {
            LoginResponseData::Step(step_data) => step_data.step.component_name.clone(),
            _ => "unknown".to_owned(),
        };
        return Some(LoginOutcome::AdditionalActionRequired(component));
    }
    match &resp.data {
        LoginResponseData::Redirect(redirect_data) => {
            if redirect_data.redirect {
                Some(LoginOutcome::Redirect(redirect_data.region.clone()))
            } else {
                None
            }
        },
        LoginResponseData::Complete(data) => {
            Some(LoginOutcome::Complete(data.auth_ticket.token.clone(), data.user.id.clone()))
        },
        _ => None,
    }
}

/// Performs the login exchange's decision half: interprets each answer and
/// updates the session. The driver posts credentials and hands every answer
/// to [`Authenticator::handle_response`] until it returns something other
/// than [`LoginProgress::Retry`].
#[derive(Debug, Clone, PartialEq, Eq, Structural)]
pub struct Authenticator {
    /// How many more redirects this login call will follow
    pub hops_left: u32,
}

impl Authenticator {
    /// A fresh authenticator for one login call.
    pub fn new() -> (a: Authenticator)
        ensures
            a.hops_left == MAX_REDIRECT_HOPS,
    {
        Authenticator { hops_left: MAX_REDIRECT_HOPS }
    }

    /// Applies one login answer to the session.
    ///
    /// In priority order: a lockout is a fatal error and leaves the session
    /// untouched; service status 2 is a fatal credential error; service
    /// status 4 is a fatal verification-step error; a redirect moves the base
    /// address to the directory's address for the redirect's region — an
    /// unrecognized region code falls back to the global address — and asks
    /// for a second attempt; otherwise a complete body commits token and
    /// account identity together, and a body that asked for nothing changes
    /// nothing. A redirect past the hop budget is answered as an invalid
    /// response instead of a further attempt.
    pub fn handle_response(
        &mut self,
        session: &mut SessionState,
        resp: &LoginResponse,
    ) -> (r: Result<LoginProgress, LibreLinkUpError>)
        requires
            old(session).wf(),
        ensures
            final(session).wf(),
            // An account lockout is fatal and the session is not touched.
            resp.data matches LoginResponseData::Locked(l) ==> r == Err::<
                LoginProgress,
                LibreLinkUpError,
            >(LibreLinkUpError::AccountLocked(l.data.lockout)) && *final(session) == *old(session)
                && *final(self) == *old(self),
            // Rejected credentials are fatal and the session is not touched.
            !(resp.data is Locked) && resp.status == 2 ==> r == Err::<
                LoginProgress,
                LibreLinkUpError,
            >(LibreLinkUpError::BadCredentials) && *final(session) == *old(session)
                && *final(self) == *old(self),
            // A required verification step is fatal and the session is not touched.
            !(resp.data is Locked) && resp.status != 2 && resp.status == 4 ==> {
                &&& r matches Err(LibreLinkUpError::AdditionalActionRequired(c))
                &&& (resp.data matches LoginResponseData::Step(s) ==> c == s.step.component_name)
                &&& *final(session) == *old(session)
                &&& *final(self) == *old(self)
            },
            // A redirect moves the base address to the directory's address for
            // the redirect's region and asks for a second attempt; credentials
            // and connection identity are untouched.
            resp.data matches LoginResponseData::Redirect(rd) ==> (resp.status != 2 && resp.status
                != 4 && rd.redirect && old(self).hops_left > 0 ==> {
                &&& r == Ok::<LoginProgress, LibreLinkUpError>(LoginProgress::Retry)
                &&& final(session).base_address@ == spec_base_url(
                    spec_region_from_code(rd.region@),
                )
                &&& final(session).token == old(session).token
                &&& final(session).account_id == old(session).account_id
                &&& final(session).connection_id == old(session).connection_id
                &&& final(self).hops_left == old(self).hops_left - 1
            }),
            // A redirect past the hop budget is fatal and the session is not touched.
            resp.data matches LoginResponseData::Redirect(rd) ==> (resp.status != 2 && resp.status
                != 4 && rd.redirect && old(self).hops_left == 0 ==> {
                &&& r matches Err(LibreLinkUpError::InvalidResponse(_))
                &&& *final(session) == *old(session)
            }),
            // A complete body commits token and account identity together.
            resp.data matches LoginResponseData::Complete(d) ==> (resp.status != 2 && resp.status
                != 4 ==> {
                &&& r == Ok::<LoginProgress, LibreLinkUpError>(LoginProgress::Done)
                &&& final(session).token == Some(d.auth_ticket.token)
                &&& final(session).account_id == Some(d.user.id)
                &&& final(session).base_address == old(session).base_address
                &&& final(session).connection_id == old(session).connection_id
            }),
            // A body that asked for nothing settles the attempt and changes nothing.
            resp.data is Step && resp.status != 2 && resp.status != 4 ==> r == Ok::<
                LoginProgress,
                LibreLinkUpError,
            >(LoginProgress::Done) && *final(session) == *old(session) && *final(self) == *old(self),
            resp.data matches LoginResponseData::Redirect(rd) ==> (resp.status != 2 && resp.status
                != 4 && !rd.redirect ==> r == Ok::<LoginProgress, LibreLinkUpError>(
                LoginProgress::Done,
            ) && *final(session) == *old(session) && *final(self) == *old(self)),
    {
        match classify_login(resp) {
            Some(LoginOutcome::Locked(seconds)) => Err(LibreLinkUpError::AccountLocked(seconds)),
            Some(LoginOutcome::BadCredentials) => Err(LibreLinkUpError::BadCredentials),
            Some(LoginOutcome::AdditionalActionRequired(component)) => Err(
                LibreLinkUpError::AdditionalActionRequired(component),
            ),
            Some(LoginOutcome::Redirect(code)) => {
                if self.hops_left == 0 {
                    Err(LibreLinkUpError::InvalidResponse("too many regional redirects".to_owned()))
                } else {
                    self.hops_left = self.hops_left - 1;
                    let region = Region::from_str(code.as_str());
                    session.set_base_address(region.base_url().to_owned());
                    Ok(LoginProgress::Retry)
                }
            },
            Some(LoginOutcome::Complete(token, account_id)) => {
                session.set_credentials(token, account_id);
                Ok(LoginProgress::Done)
            },
            None => Ok(LoginProgress::Done),
        }
    }
}

} // verus!
