//! The authenticated-request executor.
//!
//! An authenticated GET runs as a small state machine: if no token is present
//! a login comes first; then the GET is attempted with the current
//! credentials; if that attempt fails for any reason (network error,
//! non-success status, or unreadable body) exactly one re-login and one
//! retried GET follow; a failure of the retry is surfaced to the caller
//! verbatim. The driver performs the login exchanges and the GETs and reports
//! each result back; the machine decides what happens next.
//!
//! This module also builds what a request needs from the session: the full
//! request address, the bearer credential, and the hashed account identity
//! header — and classifies the response by status.

use vstd::prelude::*;
use sha2::Digest;
use crate::errors::LibreLinkUpError;
use crate::utils::{spec_dec, u64_to_dec};

verus! {

use vstd::string::{StringExecFns, StringSliceAdditionalSpecFns};

/// The SHA-256 digest of a byte string.
pub uninterp spec fn spec_sha256(data: Seq<u8>) -> Seq<u8>;

/// Relies on sha2's `Sha256::digest`: the digest is a function of the input
/// bytes alone, and its output size is 32 bytes.
#[verifier::external_body]
fn sha256_digest(data: &[u8]) -> (r: Vec<u8>)
    ensures
        r@ == spec_sha256(data@),
        r@.len() == 32,
{
    sha2::Sha256::digest(data).to_vec()
}

/// The lowercase hexadecimal digit for a value below sixteen.
pub open spec fn spec_hex_digit(d: int) -> char {
    if d == 0 {
        '0'
    } else if d == 1 {
        '1'
    } else if d == 2 {
        '2'
    } else if d == 3 {
        '3'
    } else if d == 4 {
        '4'
    } else if d == 5 {
        '5'
    } else if d == 6 {
        '6'
    } else if d == 7 {
        '7'
    } else if d == 8 {
        '8'
    } else if d == 9 {
        '9'
    } else if d == 10 {
        'a'
    } else if d == 11 {
        'b'
    } else if d == 12 {
        'c'
    } else if d == 13 {
        'd'
    } else if d == 14 {
        'e'
    } else {
        'f'
    }
}

/// The lowercase hexadecimal rendering of a byte string: two digits per byte.
pub open spec fn spec_hex(data: Seq<u8>) -> Seq<char>
    decreases data.len(),
{
    if data.len() == 0 {
        Seq::empty()
    } else {
        seq![
            spec_hex_digit(data.first() as int / 16),
            spec_hex_digit(data.first() as int % 16),
        ] + spec_hex(data.drop_first())
    }
}

/// The lowercase hexadecimal digit for a value below sixteen, as a
/// one-character text.
fn hex_digit_str(d: u8) -> (r: &'static str)
    requires
        d < 16,
    ensures
        r@ == seq![spec_hex_digit(d as int)],
{
    proof {
        reveal_strlit("0");
        reveal_strlit("1");
        reveal_strlit("2");
        reveal_strlit("3");
        reveal_strlit("4");
        reveal_strlit("5");
        reveal_strlit("6");
        reveal_strlit("7");
        reveal_strlit("8");
        reveal_strlit("9");
        reveal_strlit("a");
        reveal_strlit("b");
        reveal_strlit("c");
        reveal_strlit("d");
        reveal_strlit("e");
        reveal_strlit("f");
    }
    match d {
        0 => "0",
        1 => "1",
        2 => "2",
        3 => "3",
        4 => "4",
        5 => "5",
        6 => "6",
        7 => "7",
        8 => "8",
        9 => "9",
        10 => "a",
        11 => "b",
        12 => "c",
        13 => "d",
        14 => "e",
        _ => "f",
    }
}

/// Renders a byte string in lowercase hexadecimal, two digits per byte.
pub fn to_hex_lower(data: &[u8]) -> (r: String)
    ensures
        r@ == spec_hex(data@),
{
    let mut res = String::new();
    let n: usize = data.len();
    assert(data@.skip(0) == data@);
    for i in 0..n
        invariant
            n == data@.len(),
            spec_hex(data@) =~= res@ + spec_hex(data@.skip(i as int)),
    {
        let byte = data[i];
        res.append(hex_digit_str(byte / 16));
        res.append(hex_digit_str(byte % 16));
        assert(data@.skip(i as int).drop_first() =~= data@.skip(i + 1));
    }
    res
}

/// The hashed account identity sent alongside the bearer credential: the
/// SHA-256 digest of the raw account identity, in lowercase hexadecimal. The
/// raw identity itself is never sent.
pub fn hashed_account_id(account_id: &str) -> (r: String)
    ensures
        r@ == spec_hex(spec_sha256(account_id.spec_bytes())),
{
    let digest = sha256_digest(account_id.as_bytes());
    to_hex_lower(digest.as_slice())
}

/// The bearer credential header value for a token.
pub fn bearer_header_value(token: &str) -> (r: String)
    ensures
        r@ == "Bearer "@ + token@,
{
    let mut s = "Bearer ".to_owned();
    s.append(token);
    s
}

/// The full address of a request: base address followed by the path.
pub fn request_url(base: &str, path: &str) -> (r: String)
    ensures
        r@ == base@ + path@,
{
    let mut s = base.to_owned();
    s.append(path);
    s
}

/// Whether an HTTP status code counts as success.
pub open spec fn spec_status_is_success(status: u16) -> bool {
    200 <= status < 300
}

/// Whether an HTTP status code counts as success.
pub fn status_is_success(status: u16) -> (b: bool)
    ensures
        b == spec_status_is_success(status),
{
    200 <= status && status < 300
}

/// The diagnostic text of a failed request.
pub open spec fn spec_request_failure_message(
    path: Seq<char>,
    status: u16,
    body: Seq<char>,
) -> Seq<char> {
    "request to '"@ + path + "' failed - HTTP "@ + spec_dec(status as nat) + ": "@ + body
}

/// Classifies a response: a success status hands the body on; any other
/// status is an invalid-response error carrying the path, the status, and
/// the body as diagnostic text.
pub fn classify_response(path: &str, status: u16, body: String) -> (r: Result<
    String,
    LibreLinkUpError,
>)
    ensures
        spec_status_is_success(status) ==> r == Ok::<String, LibreLinkUpError>(body),
        !spec_status_is_success(status) ==> {
            &&& r matches Err(LibreLinkUpError::InvalidResponse(m))
            &&& m@ == spec_request_failure_message(path@, status, body@)
        },
{
    if status_is_success(status) {
        Ok(body)
    } else {
        let mut m = "request to '".to_owned();
        m.append(path);
        m.append("' failed - HTTP ");
        let dec = u64_to_dec(status as u64);
        m.append(dec.as_str());
        m.append(": ");
        m.append(body.as_str());
        Err(LibreLinkUpError::InvalidResponse(m))
    }
}

/// Where one authenticated call stands.
#[derive(Debug, Clone, Copy, PartialEq, Eq, Structural)]
pub enum ExecPhase {
    /// The call has not started
    Idle,
    /// A login is in flight because no token was present
    PreLogin,
    /// The first GET attempt is in flight
    FirstAttempt,
    /// A re-login after a failed first attempt is in flight
    ReLogin,
    /// The retried GET is in flight
    SecondAttempt,
    /// The call is settled
    Settled,
}

/// What the driver must do next.
#[derive(Debug, Clone, PartialEq)]
pub enum ExecAction {
    /// Perform a login exchange and report how it went
    Login,
    /// Perform the GET with the current credentials and report how it went
    Get,
    /// The call succeeded: hand the last GET's value to the caller
    Succeed,
    /// The call failed: surface this error to the caller
    Fail(LibreLinkUpError),
}

/// What the driver reports back after performing an action.
#[derive(Debug, Clone, PartialEq)]
pub enum ExecEvent {
    /// The login exchange completed
    LoginSucceeded,
    /// The login exchange failed
    LoginFailed(LibreLinkUpError),
    /// The GET returned a well-formed value
    GetSucceeded,
    /// The GET failed: network error, non-success status, or unreadable body
    GetFailed(LibreLinkUpError),
}

/// Whether an event can answer the action pending in a phase: login results
/// answer a pending login, GET results answer a pending GET.
pub open spec fn event_fits(phase: ExecPhase, event: ExecEvent) -> bool {
    match phase {
        ExecPhase::PreLogin | ExecPhase::ReLogin => event is LoginSucceeded || event
            is LoginFailed,
        ExecPhase::FirstAttempt | ExecPhase::SecondAttempt => event is GetSucceeded || event
            is GetFailed,
        _ => false,
    }
}

/// The first action of a call: a GET if a token is present, else a login.
pub open spec fn spec_start(has_token: bool) -> (ExecPhase, ExecAction) {
    if has_token {
        (ExecPhase::FirstAttempt, ExecAction::Get)
    } else {
        (ExecPhase::PreLogin, ExecAction::Login)
    }
}

/// The transition of the call on one reported event.
pub open spec fn spec_step(phase: ExecPhase, event: ExecEvent) -> (ExecPhase, ExecAction) {
    match (phase, event) {
        (ExecPhase::PreLogin, ExecEvent::LoginSucceeded) => (
            ExecPhase::FirstAttempt,
            ExecAction::Get,
        ),
        (ExecPhase::PreLogin, ExecEvent::LoginFailed(e)) => (
            ExecPhase::Settled,
            ExecAction::Fail(e),
        ),
        (ExecPhase::FirstAttempt, ExecEvent::GetSucceeded) => (
            ExecPhase::Settled,
            ExecAction::Succeed,
        ),
        // the first failure is swallowed: one re-login follows
        (ExecPhase::FirstAttempt, ExecEvent::GetFailed(_)) => (
            ExecPhase::ReLogin,
            ExecAction::Login,
        ),
        (ExecPhase::ReLogin, ExecEvent::LoginSucceeded) => (
            ExecPhase::SecondAttempt,
            ExecAction::Get,
        ),
        (ExecPhase::ReLogin, ExecEvent::LoginFailed(e)) => (ExecPhase::Settled, ExecAction::Fail(e)),
        (ExecPhase::SecondAttempt, ExecEvent::GetSucceeded) => (
            ExecPhase::Settled,
            ExecAction::Succeed,
        ),
        // the retry's failure is surfaced verbatim
        (ExecPhase::SecondAttempt, ExecEvent::GetFailed(e)) => (
            ExecPhase::Settled,
            ExecAction::Fail(e),
        ),
        _ => (phase, vstd::pervasive::arbitrary()),
    }
}

/// How many login exchanges an action asks for.
pub open spec fn spec_login_delta(a: ExecAction) -> nat {
    if a is Login {
        1
    } else {
        0
    }
}

/// How many GET attempts an action asks for.
pub open spec fn spec_get_delta(a: ExecAction) -> nat {
    if a is Get {
        1
    } else {
        0
    }
}

/// Issues one authenticated GET with automatic recovery from expired
/// credentials. The driver calls [`RequestExecutor::start`], performs each
/// returned action, and hands the result to [`RequestExecutor::step`] until
/// the action is `Succeed` or `Fail`.
pub struct RequestExecutor {
    /// Where the call stands
    pub phase: ExecPhase,
    /// How many login exchanges this call has asked for
    pub logins: Ghost<nat>,
    /// How many GET attempts this call has asked for
    pub gets: Ghost<nat>,
}

impl RequestExecutor {
    /// The counters a phase allows: one call never asks for more than two
    /// logins and two GET attempts.
    pub open spec fn wf(self) -> bool {
        match self.phase {
            ExecPhase::Idle => self.logins@ == 0 && self.gets@ == 0,
            ExecPhase::PreLogin => self.logins@ == 1 && self.gets@ == 0,
            ExecPhase::FirstAttempt => self.logins@ <= 1 && self.gets@ == 1,
            ExecPhase::ReLogin => self.logins@ <= 2 && self.gets@ == 1,
            ExecPhase::SecondAttempt => self.logins@ <= 2 && self.gets@ == 2,
            ExecPhase::Settled => self.logins@ <= 2 && self.gets@ <= 2,
        }
    }

    /// A fresh executor for one authenticated call.
    pub fn new() -> (e: RequestExecutor)
        ensures
            e.phase == ExecPhase::Idle,
            e.logins@ == 0,
            e.gets@ == 0,
            e.wf(),
    {
        RequestExecutor { phase: ExecPhase::Idle, logins: Ghost(0), gets: Ghost(0) }
    }

    /// Starts the call: with no prior token a login comes first; otherwise
    /// the GET is attempted at once.
    pub fn start(&mut self, has_token: bool) -> (a: ExecAction)
        requires
            old(self).phase == ExecPhase::Idle,
            old(self).wf(),
        ensures
            (final(self).phase, a) == spec_start(has_token),
            final(self).logins@ == old(self).logins@ + spec_login_delta(a),
            final(self).gets@ == old(self).gets@ + spec_get_delta(a),
            final(self).wf(),
    {
        if has_token {
            self.phase = ExecPhase::FirstAttempt;
            proof {
                self.gets@ = self.gets@ + 1;
            }
            ExecAction::Get
        } else {
            self.phase = ExecPhase::PreLogin;
            proof {
                self.logins@ = self.logins@ + 1;
            }
            ExecAction::Login
        }
    }

    /// Advances the call on one reported result.
    pub fn step(&mut self, event: ExecEvent) -> (a: ExecAction)
        requires
            event_fits(old(self).phase, event),
            old(self).wf(),
        ensures
            (final(self).phase, a) == spec_step(old(self).phase, event),
            final(self).logins@ == old(self).logins@ + spec_login_delta(a),
            final(self).gets@ == old(self).gets@ + spec_get_delta(a),
            final(self).wf(),
    {
        match (self.phase, event) {
            (ExecPhase::PreLogin, ExecEvent::LoginSucceeded) => {
                self.phase = ExecPhase::FirstAttempt;
                proof {
                    self.gets@ = self.gets@ + 1;
                }
                ExecAction::Get
            },
            (ExecPhase::PreLogin, ExecEvent::LoginFailed(e)) => {
                self.phase = ExecPhase::Settled;
                ExecAction::Fail(e)
            },
            (ExecPhase::FirstAttempt, ExecEvent::GetSucceeded) => {
                self.phase = ExecPhase::Settled;
                ExecAction::Succeed
            },
            (ExecPhase::FirstAttempt, ExecEvent::GetFailed(_)) => {
                self.phase = ExecPhase::ReLogin;
                proof {
                    self.logins@ = self.logins@ + 1;
                }
                ExecAction::Login
            },
            (ExecPhase::ReLogin, ExecEvent::LoginSucceeded) => {
                self.phase = ExecPhase::SecondAttempt;
                proof {
                    self.gets@ = self.gets@ + 1;
                }
                ExecAction::Get
            },
            (ExecPhase::ReLogin, ExecEvent::LoginFailed(e)) => {
                self.phase = ExecPhase::Settled;
                ExecAction::Fail(e)
            },
            (ExecPhase::SecondAttempt, ExecEvent::GetSucceeded) => {
                self.phase = ExecPhase::Settled;
                ExecAction::Succeed
            },
            (ExecPhase::SecondAttempt, ExecEvent::GetFailed(e)) => {
                self.phase = ExecPhase::Settled;
                ExecAction::Fail(e)
            },
            _ => vstd::pervasive::unreached(),
        }
    }
}

/// Law: a call that starts with no prior token asks for exactly one login,
/// and that login precedes the first GET attempt; if the login fails, no GET
/// is ever attempted.
pub proof fn lemma_single_login_precedes_first_get(e: LibreLinkUpError)
    ensures
        spec_start(false) == (ExecPhase::PreLogin, ExecAction::Login),
        spec_login_delta(spec_start(false).1) == 1,
        spec_get_delta(spec_start(false).1) == 0,
        spec_step(ExecPhase::PreLogin, ExecEvent::LoginSucceeded) == (
            ExecPhase::FirstAttempt,
            ExecAction::Get,
        ),
        spec_step(ExecPhase::PreLogin, ExecEvent::LoginFailed(e)) == (
            ExecPhase::Settled,
            ExecAction::Fail(e),
        ),
{
}

/// Law: a failure of the first GET attempt causes exactly one re-login and
/// exactly one retried GET; a failure of the retry is surfaced to the caller
/// unchanged.
pub proof fn lemma_single_retry_after_failure(e1: LibreLinkUpError, e2: LibreLinkUpError)
    ensures
        spec_step(ExecPhase::FirstAttempt, ExecEvent::GetFailed(e1)) == (
            ExecPhase::ReLogin,
            ExecAction::Login,
        ),
        spec_step(ExecPhase::ReLogin, ExecEvent::LoginSucceeded) == (
            ExecPhase::SecondAttempt,
            ExecAction::Get,
        ),
        spec_step(ExecPhase::SecondAttempt, ExecEvent::GetFailed(e2)) == (
            ExecPhase::Settled,
            ExecAction::Fail(e2),
        ),
{
}

/// Law: one authenticated call never performs more than two logins or two
/// GET attempts, whatever happens.
pub proof fn lemma_bounded_work(e: RequestExecutor)
    requires
        e.wf(),
    ensures
        e.logins@ <= 2,
        e.gets@ <= 2,
{
}

} // verus!
