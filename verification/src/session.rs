//! Session state: base address, login token, account identity, and the
//! resolved connection identity.

use vstd::prelude::*;
use crate::models::region::{Region, spec_base_url};

verus! {

/// The mutable session record of one client instance.
///
/// Invariant: the token and the account identity are set together — both
/// present or both absent — because they are populated atomically from one
/// successful login. The connection identity, once resolved, is cached for
/// the lifetime of the instance.
#[derive(Debug, Clone, PartialEq)]
pub struct SessionState {
    /// Base address of the regional endpoint every request goes to
    pub base_address: String,
    /// Login token, present after a completed login
    pub token: Option<String>,
    /// Account identity, present after a completed login
    pub account_id: Option<String>,
    /// Resolved connection identity, cached after the first resolution
    pub connection_id: Option<String>,
}

impl SessionState {
    /// Well-formedness: token and account identity are both present or both
    /// absent.
    pub open spec fn wf(self) -> bool {
        self.token is Some <==> self.account_id is Some
    }

    /// A fresh session against the given region: no token, no account
    /// identity, no resolved connection.
    pub fn new(region: Region) -> (s: SessionState)
        ensures
            s.wf(),
            s.base_address@ == spec_base_url(region),
            s.token is None,
            s.account_id is None,
            s.connection_id is None,
    {
        SessionState {
            base_address: region.base_url().to_owned(),
            token: None,
            account_id: None,
            connection_id: None,
        }
    }

    /// Commits a completed login: token and account identity are overwritten
    /// together; nothing else changes.
    pub fn set_credentials(&mut self, token: String, account_id: String)
        ensures
            final(self).wf(),
            final(self).token == Some(token),
            final(self).account_id == Some(account_id),
            final(self).base_address == old(self).base_address,
            final(self).connection_id == old(self).connection_id,
    {
        self.token = Some(token);
        self.account_id = Some(account_id);
    }

    /// Moves the session to a different regional base address; credentials
    /// and the resolved connection are untouched.
    pub fn set_base_address(&mut self, base_address: String)
        ensures
            final(self).base_address == base_address,
            final(self).token == old(self).token,
            final(self).account_id == old(self).account_id,
            final(self).connection_id == old(self).connection_id,
            old(self).wf() ==> final(self).wf(),
    {
        self.base_address = base_address;
    }

    /// Caches the resolved connection identity. Resolution happens at most
    /// once per instance, so a cached identity is never overwritten.
    pub fn set_connection_id(&mut self, connection_id: String)
        requires
            old(self).connection_id is None,
        ensures
            final(self).connection_id == Some(connection_id),
            final(self).base_address == old(self).base_address,
            final(self).token == old(self).token,
            final(self).account_id == old(self).account_id,
            old(self).wf() ==> final(self).wf(),
    {
        self.connection_id = Some(connection_id);
    }

    /// Whether a login token is present.
    pub fn has_token(&self) -> (b: bool)
        ensures
            b == (self.token is Some),
    {
        self.token.is_some()
    }
}

} // verus!
