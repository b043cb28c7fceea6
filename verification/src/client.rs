//! Client configuration, connection resolution, endpoint paths, and the
//! assembly of processed reading pairs.

use vstd::prelude::*;
use crate::errors::LibreLinkUpError;
use crate::models::client::{LibreCgmData, ReadResponse};
use crate::models::region::{Region, spec_base_url, spec_region_from_code};
use crate::session::SessionState;
use crate::utils::{RawReading, map_glucose_data, spec_mapped};

verus! {

use vstd::string::{StringExecFns, StrSliceExecFns};

/// How to pick one patient when the account follows several.
#[derive(Debug, Clone, PartialEq)]
pub enum ConnectionIdentifier {
    /// Case-insensitive exact match against "first-name last-name"
    ByName(String),
    /// A caller-supplied function over the full descriptor list picks the
    /// patient identity; the resolver receives that function's result
    ByFunction,
}

/// Client configuration: credentials, version, region, and how to pick a
/// patient.
#[derive(Debug, Clone, PartialEq)]
pub struct ClientConfig {
    /// Account email
    pub username: String,
    /// Account password
    pub password: String,
    /// Version identifier sent with every request; a default applies when absent
    pub api_version: Option<String>,
    /// Region to start against; the global region applies when absent
    pub region: Option<Region>,
    /// How to pick a patient when the account follows several
    pub connection_identifier: Option<ConnectionIdentifier>,
}

/// One followed patient, as the connections listing returns it: the patient
/// identity and the name the by-name policy matches against.
#[derive(Debug, Clone, PartialEq)]
pub struct ConnectionDescriptor {
    /// Patient identifier
    pub patient_id: String,
    /// Patient's first name
    pub first_name: String,
    /// Patient's last name
    pub last_name: String,
}

/// The case folding of a text, as the platform's lowercase conversion
/// performs it. The result depends on the characters alone.
pub uninterp spec fn lower_of(s: Seq<char>) -> Seq<char>;

/// Relies on `str::to_lowercase`: the result depends on the characters alone.
#[verifier::external_body]
fn lowercase(s: &str) -> (r: String)
    ensures
        r@ == lower_of(s@),
{
    s.to_lowercase()
}

/// A descriptor's full name: first name, a space, last name.
pub open spec fn spec_full_name(c: ConnectionDescriptor) -> Seq<char> {
    c.first_name@ + " "@ + c.last_name@
}

/// Whether a descriptor's full name equals the given name up to case.
pub open spec fn name_matches(c: ConnectionDescriptor, name: Seq<char>) -> bool {
    lower_of(spec_full_name(c)) == lower_of(name)
}

/// The first descriptor whose full name matches, if any.
pub open spec fn spec_find_by_name(conns: Seq<ConnectionDescriptor>, name: Seq<char>) -> Option<
    ConnectionDescriptor,
>
    decreases conns.len(),
{
    if conns.len() == 0 {
        None
    } else if name_matches(conns.first(), name) {
        Some(conns.first())
    } else {
        spec_find_by_name(conns.drop_first(), name)
    }
}

/// The connection resolution policy. An empty descriptor list always resolves
/// to no-connections, before any policy applies; the by-name policy picks the
/// first case-insensitive match on "first-name last-name"; the by-function
/// policy takes whatever the caller's function picked; with no policy the
/// first descriptor, in service-returned order, wins.
pub open spec fn spec_resolve(
    identifier: Option<ConnectionIdentifier>,
    conns: Seq<ConnectionDescriptor>,
    function_result: Option<String>,
) -> Result<String, LibreLinkUpError> {
    if conns.len() == 0 {
        Err(LibreLinkUpError::NoConnections)
    } else {
        match identifier {
            Some(ConnectionIdentifier::ByName(name)) => match spec_find_by_name(conns, name@) {
                Some(c) => Ok(c.patient_id),
                None => Err(LibreLinkUpError::ConnectionNotFound(name)),
            },
            Some(ConnectionIdentifier::ByFunction) => match function_result {
                Some(id) => Ok(id),
                None => Err(LibreLinkUpError::ConnectionFunctionFailed),
            },
            None => Ok(conns.first().patient_id),
        }
    }
}

/// Renders a descriptor's full name: first name, a space, last name.
fn full_name(c: &ConnectionDescriptor) -> (r: String)
    ensures
        r@ == spec_full_name(*c),
{
    let mut s = c.first_name.clone();
    s.append(" ");
    s.append(c.last_name.as_str());
    s
}

/// Picks one patient identity from the followed-patient list, per the
/// configured policy. `function_result` is what the caller-supplied function
/// picked, for the by-function policy; the other policies ignore it.
#[verifier::loop_isolation(false)]
pub fn get_connection_id(
    identifier: &Option<ConnectionIdentifier>,
    connections: &Vec<ConnectionDescriptor>,
    function_result: Option<String>,
) -> (r: Result<String, LibreLinkUpError>)
    ensures
        r == spec_resolve(*identifier, connections@, function_result),
{
    if connections.len() == 0 {
        return Err(LibreLinkUpError::NoConnections);
    }
    match identifier {
        Some(ConnectionIdentifier::ByName(name)) => {
            let target = lowercase(name.as_str());
            let n = connections.len();
            assert(connections@.skip(0) == connections@);
            for i in 0..n
                invariant
                    n == connections@.len(),
                    target@ == lower_of(name@),
                    spec_find_by_name(connections@, name@) == spec_find_by_name(
                        connections@.skip(i as int),
                        name@,
                    ),
                    forall|j: int| 0 <= j < i ==> !name_matches(connections@[j], name@),
            {
                let candidate = full_name(&connections[i]);
                let folded = lowercase(candidate.as_str());
                assert(connections@.skip(i as int).first() == connections@[i as int]);
                if folded == target {
                    return Ok(connections[i].patient_id.clone());
                }
                assert(connections@.skip(i as int).drop_first() =~= connections@.skip(i + 1));
            }
            Err(LibreLinkUpError::ConnectionNotFound(name.clone()))
        },
        Some(ConnectionIdentifier::ByFunction) => match function_result {
            Some(id) => Ok(id),
            None => Err(LibreLinkUpError::ConnectionFunctionFailed),
        },
        None => Ok(connections[0].patient_id.clone()),
    }
}

/// Hands back the cached connection identity, or resolves one and caches it.
/// Resolution happens at most once per session: a cached identity is returned
/// as it is, whatever the descriptor list now says.
pub fn ensure_connection_id(
    session: &mut SessionState,
    identifier: &Option<ConnectionIdentifier>,
    connections: &Vec<ConnectionDescriptor>,
    function_result: Option<String>,
) -> (r: Result<String, LibreLinkUpError>)
    ensures
        old(session).connection_id matches Some(id) ==> r == Ok::<String, LibreLinkUpError>(id)
            && *final(session) == *old(session),
        old(session).connection_id is None ==> {
            &&& r == spec_resolve(*identifier, connections@, function_result)
            &&& (r matches Ok(id) ==> final(session).connection_id == Some(id))
            &&& (r is Err ==> *final(session) == *old(session))
        },
        final(session).base_address == old(session).base_address,
        final(session).token == old(session).token,
        final(session).account_id == old(session).account_id,
        old(session).wf() ==> final(session).wf(),
{
    if let Some(id) = &session.connection_id {
        return Ok(id.clone());
    }
    match get_connection_id(identifier, connections, function_result) {
        Ok(id) => {
            session.set_connection_id(id.clone());
            Ok(id)
        },
        Err(e) => Err(e),
    }
}

/// The path of the login endpoint.
pub fn login_path() -> (r: &'static str)
    ensures
        r@ == "/llu/auth/login"@,
{
    "/llu/auth/login"
}

/// The path of the connections listing endpoint.
pub fn connections_path() -> (r: &'static str)
    ensures
        r@ == "/llu/connections"@,
{
    "/llu/connections"
}

/// The path of a connection's reading snapshot (graph) endpoint.
pub fn graph_path(connection_id: &str) -> (r: String)
    ensures
        r@ == "/llu/connections/"@ + connection_id@ + "/graph"@,
{
    let mut s = "/llu/connections/".to_owned();
    s.append(connection_id);
    s.append("/graph");
    s
}

/// The path of a patient's logbook endpoint.
pub fn logbook_path(patient_id: &str) -> (r: String)
    ensures
        r@ == "/llu/connections/"@ + patient_id@ + "/logbook"@,
{
    let mut s = "/llu/connections/".to_owned();
    s.append(patient_id);
    s.append("/logbook");
    s
}

/// The path of a connection's notification-settings endpoint.
pub fn notification_settings_path(connection_id: &str) -> (r: String)
    ensures
        r@ == "/llu/notifications/settings/"@ + connection_id@,
{
    let mut s = "/llu/notifications/settings/".to_owned();
    s.append(connection_id);
    s
}

/// The full address of the unauthenticated country/region configuration
/// lookup: always against the global endpoint.
pub fn country_config_url(country: &str, version: &str) -> (r: String)
    ensures
        r@ == spec_base_url(Region::Global) + "/llu/config/country?country="@ + country@
            + "&version="@ + version@,
{
    let mut s = Region::Global.base_url().to_owned();
    s.append("/llu/config/country?country=");
    s.append(country);
    s.append("&version=");
    s.append(version);
    s
}

/// The version identifier a configuration sends: its own, or the default.
pub fn effective_api_version(api_version: &Option<String>) -> (r: String)
    ensures
        api_version matches Some(v) ==> r == v,
        api_version is None ==> r@ == "4.16.0"@,
{
    match api_version {
        Some(v) => v.clone(),
        None => "4.16.0".to_owned(),
    }
}

/// The full address of a country/region configuration lookup, with the
/// version defaulted: an explicit version wins, then the configuration's own,
/// then the library default.
pub fn country_config_request_url(
    country: &str,
    version: Option<&str>,
    api_version: &Option<String>,
) -> (r: String)
    ensures
        version matches Some(v) ==> r@ == spec_base_url(Region::Global)
            + "/llu/config/country?country="@ + country@ + "&version="@ + v@,
        api_version matches Some(v) ==> (version is None ==> r@ == spec_base_url(Region::Global)
            + "/llu/config/country?country="@ + country@ + "&version="@ + v@),
        version is None && api_version is None ==> r@ == spec_base_url(Region::Global)
            + "/llu/config/country?country="@ + country@ + "&version="@ + "4.16.0"@,
{
    match version {
        Some(v) => country_config_url(country, v),
        None => {
            let v = effective_api_version(api_version);
            country_config_url(country, v.as_str())
        },
    }
}

/// Whether a character is whitespace, per the Unicode White_Space property
/// that the platform's trimming goes by.
pub open spec fn spec_is_space(c: char) -> bool {
    c == ' ' || c == '\t' || c == '\n' || c == '\r' || c == '\u{000B}' || c == '\u{000C}' || c
        == '\u{0085}' || c == '\u{00A0}' || c == '\u{1680}' || ('\u{2000}' <= c && c <= '\u{200A}')
        || c == '\u{2028}' || c == '\u{2029}' || c == '\u{202F}' || c == '\u{205F}' || c
        == '\u{3000}'
}

/// Whether a text holds nothing but whitespace.
pub open spec fn spec_is_blank(s: Seq<char>) -> bool {
    forall|i: int| 0 <= i < s.len() ==> spec_is_space(s[i])
}

/// Whether a character is whitespace.
fn is_space(c: char) -> (b: bool)
    ensures
        b == spec_is_space(c),
{
    c == ' ' || c == '\t' || c == '\n' || c == '\r' || c == '\u{000B}' || c == '\u{000C}' || c
        == '\u{0085}' || c == '\u{00A0}' || c == '\u{1680}' || ('\u{2000}' <= c && c <= '\u{200A}')
        || c == '\u{2028}' || c == '\u{2029}' || c == '\u{202F}' || c == '\u{205F}' || c
        == '\u{3000}'
}

/// Whether a text holds nothing but whitespace.
fn is_blank(s: &str) -> (b: bool)
    ensures
        b == spec_is_blank(s@),
{
    let n = s.unicode_len();
    for i in 0..n
        invariant
            n == s@.len(),
            forall|j: int| 0 <= j < i ==> spec_is_space(s@[j]),
    {
        if !is_space(s.get_char(i)) {
            return false;
        }
    }
    true
}

impl ClientConfig {
    /// Checks the credentials and opens a fresh session against the
    /// configured region — the global endpoint when none is set. A blank
    /// username or an empty password is rejected before anything is sent.
    pub fn initial_session(&self) -> (r: Result<SessionState, LibreLinkUpError>)
        ensures
            spec_is_blank(self.username@) ==> {
                &&& r matches Err(LibreLinkUpError::AuthFailed(m))
                &&& m@ == "username must not be empty"@
            },
            !spec_is_blank(self.username@) && self.password@.len() == 0 ==> {
                &&& r matches Err(LibreLinkUpError::AuthFailed(m))
                &&& m@ == "password must not be empty"@
            },
            !spec_is_blank(self.username@) && self.password@.len() > 0 ==> {
                &&& r matches Ok(s)
                &&& s.wf()
                &&& s.base_address@ == spec_base_url(
                    match self.region {
                        Some(rg) => rg,
                        None => Region::Global,
                    },
                )
                &&& s.token is None
                &&& s.account_id is None
                &&& s.connection_id is None
            },
    {
        if is_blank(self.username.as_str()) {
            return Err(LibreLinkUpError::AuthFailed("username must not be empty".to_owned()));
        }
        if self.password.as_str().is_empty() {
            return Err(LibreLinkUpError::AuthFailed("password must not be empty".to_owned()));
        }
        let region = match self.region {
            Some(rg) => rg,
            None => Region::Global,
        };
        Ok(SessionState::new(region))
    }

    /// A configuration from just credentials and an optional region code,
    /// with default settings everywhere else. The code is parsed
    /// case-insensitively and an unrecognized code falls back to the global
    /// region. A blank username or an empty password is rejected.
    pub fn simple(username: String, password: String, region: Option<String>) -> (r: Result<
        ClientConfig,
        LibreLinkUpError,
    >)
        ensures
            spec_is_blank(username@) ==> {
                &&& r matches Err(LibreLinkUpError::AuthFailed(m))
                &&& m@ == "username must not be empty"@
            },
            !spec_is_blank(username@) && password@.len() == 0 ==> {
                &&& r matches Err(LibreLinkUpError::AuthFailed(m))
                &&& m@ == "password must not be empty"@
            },
            !spec_is_blank(username@) && password@.len() > 0 ==> {
                &&& r matches Ok(c)
                &&& c.username == username
                &&& c.password == password
                &&& c.api_version is None
                &&& c.connection_identifier is None
                &&& (region matches Some(code) ==> c.region == Some(
                    spec_region_from_code(code@),
                ))
                &&& (region is None ==> c.region == Some(Region::Global))
            },
    {
        if is_blank(username.as_str()) {
            return Err(LibreLinkUpError::AuthFailed("username must not be empty".to_owned()));
        }
        if password.as_str().is_empty() {
            return Err(LibreLinkUpError::AuthFailed("password must not be empty".to_owned()));
        }
        let region_enum = match region {
            Some(code) => Region::from_str(code.as_str()),
            None => Region::Global,
        };
        Ok(
            ClientConfig {
                username,
                password,
                api_version: None,
                region: Some(region_enum),
                connection_identifier: None,
            },
        )
    }
}

/// Assembles the processed current/historical reading pair from the raw
/// records of one snapshot: the connection's current measurement and the
/// historical graph records, each mapped through the same conversion.
pub fn build_read_response(current: &RawReading, history: &Vec<RawReading>) -> (r: ReadResponse)
    ensures
        spec_mapped(*current, r.current),
        r.history@.len() == history@.len(),
        forall|i: int|
            0 <= i < history@.len() ==> spec_mapped(history@[i], #[trigger] r.history@[i]),
{
    let mapped_current = map_glucose_data(current);
    let mut mapped_history: Vec<LibreCgmData> = Vec::new();
    let n = history.len();
    for i in 0..n
        invariant
            n == history@.len(),
            mapped_history@.len() == i,
            forall|j: int|
                0 <= j < i ==> spec_mapped(history@[j], #[trigger] mapped_history@[j]),
    {
        mapped_history.push(map_glucose_data(&history[i]));
    }
    ReadResponse { current: mapped_current, history: mapped_history }
}

} // verus!
