//! Region directory: a pure lookup from region code to base address.
//!
//! Region codes are matched case-insensitively; a code outside the known set
//! falls back to [`Region::Global`] rather than erroring.

use vstd::prelude::*;

verus! {

use vstd::string::StrSliceExecFns;

/// A regional deployment of the sharing service.
#[derive(Debug, Clone, Copy, PartialEq, Eq, Hash, Structural)]
pub enum Region {
    /// Global endpoint (redirects to the appropriate region on login)
    Global,
    /// United Arab Emirates
    AE,
    /// Asia-Pacific
    AP,
    /// Australia
    AU,
    /// Canada
    CA,
    /// Germany
    DE,
    /// Europe
    EU,
    /// Europe 2
    EU2,
    /// France
    FR,
    /// Japan
    JP,
    /// United States
    US,
    /// Latin America
    LA,
    /// Russia
    RU,
    /// China
    CN,
}

/// The base address of each region's API endpoint.
pub open spec fn spec_base_url(r: Region) -> Seq<char> {
    match r {
        Region::Global => "https://api.libreview.io"@,
        Region::AE => "https://api-ae.libreview.io"@,
        Region::AP => "https://api-ap.libreview.io"@,
        Region::AU => "https://api-au.libreview.io"@,
        Region::CA => "https://api-ca.libreview.io"@,
        Region::DE => "https://api-de.libreview.io"@,
        Region::EU => "https://api-eu.libreview.io"@,
        Region::EU2 => "https://api-eu2.libreview.io"@,
        Region::FR => "https://api-fr.libreview.io"@,
        Region::JP => "https://api-jp.libreview.io"@,
        Region::US => "https://api-us.libreview.io"@,
        Region::LA => "https://api-la.libreview.io"@,
        Region::RU => "https://api.libreview.ru"@,
        Region::CN => "https://api-cn.myfreestyle.cn"@,
    }
}

/// The lowercase string key of each region.
pub open spec fn spec_region_code(r: Region) -> Seq<char> {
    match r {
        Region::Global => "global"@,
        Region::AE => "ae"@,
        Region::AP => "ap"@,
        Region::AU => "au"@,
        Region::CA => "ca"@,
        Region::DE => "de"@,
        Region::EU => "eu"@,
        Region::EU2 => "eu2"@,
        Region::FR => "fr"@,
        Region::JP => "jp"@,
        Region::US => "us"@,
        Region::LA => "la"@,
        Region::RU => "ru"@,
        Region::CN => "cn"@,
    }
}

/// ASCII case folding of a single character, as a code point.
pub open spec fn ascii_lower(c: char) -> int {
    if 65 <= c as u32 && c as u32 <= 90 {
        c as u32 + 32
    } else {
        c as u32 as int
    }
}

/// `s` equals `code` up to ASCII case (where `code` is already lowercase).
pub open spec fn code_matches(s: Seq<char>, code: Seq<char>) -> bool {
    s.len() == code.len() && forall|i: int|
        0 <= i < s.len() ==> ascii_lower(s[i]) == code[i] as u32
}

/// The region a code string resolves to: the matching region if there is one,
/// and the global region for every other string.
pub open spec fn spec_region_from_code(s: Seq<char>) -> Region {
    if code_matches(s, "us"@) {
        Region::US
    } else if code_matches(s, "eu"@) {
        Region::EU
    } else if code_matches(s, "eu2"@) {
        Region::EU2
    } else if code_matches(s, "fr"@) {
        Region::FR
    } else if code_matches(s, "jp"@) {
        Region::JP
    } else if code_matches(s, "de"@) {
        Region::DE
    } else if code_matches(s, "ap"@) {
        Region::AP
    } else if code_matches(s, "au"@) {
        Region::AU
    } else if code_matches(s, "ae"@) {
        Region::AE
    } else if code_matches(s, "ca"@) {
        Region::CA
    } else if code_matches(s, "la"@) {
        Region::LA
    } else if code_matches(s, "ru"@) {
        Region::RU
    } else if code_matches(s, "cn"@) {
        Region::CN
    } else {
        Region::Global
    }
}

/// Compares `s` to a known lowercase code, folding ASCII case on `s`.
fn eq_code(s: &str, code: &str) -> (r: bool)
    ensures
        r == code_matches(s@, code@),
{
    let n = s.unicode_len();
    if n != code.unicode_len() {
        return false;
    }
    for i in 0..n
        invariant
            n == s@.len(),
            n == code@.len(),
            forall|j: int| 0 <= j < i ==> ascii_lower(s@[j]) == code@[j] as u32,
    {
        let a = s.get_char(i) as u32;
        let b = code.get_char(i) as u32;
        let folded: u32 = if 65 <= a && a <= 90 {
            a + 32
        } else {
            a
        };
        if folded != b {
            return false;
        }
    }
    true
}

impl Region {
    /// The base API address for this region.
    pub fn base_url(&self) -> (r: &'static str)
        ensures
            r@ == spec_base_url(*self),
    {
        match self {
            Region::Global => "https://api.libreview.io",
            Region::AE => "https://api-ae.libreview.io",
            Region::AP => "https://api-ap.libreview.io",
            Region::AU => "https://api-au.libreview.io",
            Region::CA => "https://api-ca.libreview.io",
            Region::DE => "https://api-de.libreview.io",
            Region::EU => "https://api-eu.libreview.io",
            Region::EU2 => "https://api-eu2.libreview.io",
            Region::FR => "https://api-fr.libreview.io",
            Region::JP => "https://api-jp.libreview.io",
            Region::US => "https://api-us.libreview.io",
            Region::LA => "https://api-la.libreview.io",
            Region::RU => "https://api.libreview.ru",
            Region::CN => "https://api-cn.myfreestyle.cn",
        }
    }

    /// The lowercase string key of this region.
    pub fn as_str(&self) -> (r: &'static str)
        ensures
            r@ == spec_region_code(*self),
    {
        match self {
            Region::Global => "global",
            Region::AE => "ae",
            Region::AP => "ap",
            Region::AU => "au",
            Region::CA => "ca",
            Region::DE => "de",
            Region::EU => "eu",
            Region::EU2 => "eu2",
            Region::FR => "fr",
            Region::JP => "jp",
            Region::US => "us",
            Region::LA => "la",
            Region::RU => "ru",
            Region::CN => "cn",
        }
    }

    /// Parses a region code, case-insensitively. Unrecognized codes resolve
    /// to [`Region::Global`]; parsing never fails.
    pub fn from_str(s: &str) -> (r: Region)
        ensures
            r == spec_region_from_code(s@),
    {
        if eq_code(s, "us") {
            Region::US
        } else if eq_code(s, "eu") {
            Region::EU
        } else if eq_code(s, "eu2") {
            Region::EU2
        } else if eq_code(s, "fr") {
            Region::FR
        } else if eq_code(s, "jp") {
            Region::JP
        } else if eq_code(s, "de") {
            Region::DE
        } else if eq_code(s, "ap") {
            Region::AP
        } else if eq_code(s, "au") {
            Region::AU
        } else if eq_code(s, "ae") {
            Region::AE
        } else if eq_code(s, "ca") {
            Region::CA
        } else if eq_code(s, "la") {
            Region::LA
        } else if eq_code(s, "ru") {
            Region::RU
        } else if eq_code(s, "cn") {
            Region::CN
        } else {
            Region::Global
        }
    }
}

impl Default for Region {
    /// The default region is the global endpoint.
    fn default() -> (r: Self)
        ensures
            r == Region::Global,
    {
        Region::Global
    }
}

/// Two codes of equal length do not match when some position differs after
/// case folding.
proof fn lemma_codes_differ(s: Seq<char>, code: Seq<char>, i: int)
    requires
        0 <= i < s.len(),
        ascii_lower(s[i]) != code[i] as u32,
    ensures
        !code_matches(s, code),
{
}

/// Law: parsing a region's own string key resolves to that region.
pub proof fn lemma_region_code_round_trip(r: Region)
    ensures
        spec_region_from_code(spec_region_code(r)) == r,
{
    reveal_strlit("global");
    reveal_strlit("us");
    reveal_strlit("eu");
    reveal_strlit("eu2");
    reveal_strlit("fr");
    reveal_strlit("jp");
    reveal_strlit("de");
    reveal_strlit("ap");
    reveal_strlit("au");
    reveal_strlit("ae");
    reveal_strlit("ca");
    reveal_strlit("la");
    reveal_strlit("ru");
    reveal_strlit("cn");
    let key = spec_region_code(r);
    match r {
        Region::Global => {
        },
        Region::US => {
        },
        Region::EU => {
            lemma_codes_differ(key, "us"@, 0);
        },
        Region::EU2 => {
        },
        Region::FR => {
            lemma_codes_differ(key, "us"@, 0);
            lemma_codes_differ(key, "eu"@, 0);
        },
        Region::JP => {
            lemma_codes_differ(key, "us"@, 0);
            lemma_codes_differ(key, "eu"@, 0);
            lemma_codes_differ(key, "fr"@, 0);
        },
        Region::DE => {
            lemma_codes_differ(key, "us"@, 0);
            lemma_codes_differ(key, "eu"@, 0);
            lemma_codes_differ(key, "fr"@, 0);
            lemma_codes_differ(key, "jp"@, 0);
        },
        Region::AP => {
            lemma_codes_differ(key, "us"@, 0);
            lemma_codes_differ(key, "eu"@, 0);
            lemma_codes_differ(key, "fr"@, 0);
            lemma_codes_differ(key, "jp"@, 0);
            lemma_codes_differ(key, "de"@, 0);
        },
        Region::AU => {
            lemma_codes_differ(key, "us"@, 0);
            lemma_codes_differ(key, "eu"@, 0);
            lemma_codes_differ(key, "fr"@, 0);
            lemma_codes_differ(key, "jp"@, 0);
            lemma_codes_differ(key, "de"@, 0);
            lemma_codes_differ(key, "ap"@, 1);
        },
        Region::AE => {
            lemma_codes_differ(key, "us"@, 0);
            lemma_codes_differ(key, "eu"@, 0);
            lemma_codes_differ(key, "fr"@, 0);
            lemma_codes_differ(key, "jp"@, 0);
            lemma_codes_differ(key, "de"@, 0);
            lemma_codes_differ(key, "ap"@, 1);
            lemma_codes_differ(key, "au"@, 1);
        },
        Region::CA => {
            lemma_codes_differ(key, "us"@, 0);
            lemma_codes_differ(key, "eu"@, 0);
            lemma_codes_differ(key, "fr"@, 0);
            lemma_codes_differ(key, "jp"@, 0);
            lemma_codes_differ(key, "de"@, 0);
            lemma_codes_differ(key, "ap"@, 0);
            lemma_codes_differ(key, "au"@, 0);
            lemma_codes_differ(key, "ae"@, 0);
        },
        Region::LA => {
            lemma_codes_differ(key, "us"@, 0);
            lemma_codes_differ(key, "eu"@, 0);
            lemma_codes_differ(key, "fr"@, 0);
            lemma_codes_differ(key, "jp"@, 0);
            lemma_codes_differ(key, "de"@, 0);
            lemma_codes_differ(key, "ap"@, 0);
            lemma_codes_differ(key, "au"@, 0);
            lemma_codes_differ(key, "ae"@, 0);
            lemma_codes_differ(key, "ca"@, 0);
        },
        Region::RU => {
            lemma_codes_differ(key, "us"@, 0);
            lemma_codes_differ(key, "eu"@, 0);
            lemma_codes_differ(key, "fr"@, 0);
            lemma_codes_differ(key, "jp"@, 0);
            lemma_codes_differ(key, "de"@, 0);
            lemma_codes_differ(key, "ap"@, 0);
            lemma_codes_differ(key, "au"@, 0);
            lemma_codes_differ(key, "ae"@, 0);
            lemma_codes_differ(key, "ca"@, 0);
            lemma_codes_differ(key, "la"@, 0);
        },
        Region::CN => {
            lemma_codes_differ(key, "us"@, 0);
            lemma_codes_differ(key, "eu"@, 0);
            lemma_codes_differ(key, "fr"@, 0);
            lemma_codes_differ(key, "jp"@, 0);
            lemma_codes_differ(key, "de"@, 0);
            lemma_codes_differ(key, "ap"@, 0);
            lemma_codes_differ(key, "au"@, 0);
            lemma_codes_differ(key, "ae"@, 0);
            lemma_codes_differ(key, "ca"@, 1);
            lemma_codes_differ(key, "la"@, 0);
            lemma_codes_differ(key, "ru"@, 0);
        },
    }
}

/// Law: a code string that matches no known region code resolves to the
/// global region, and hence to the global base address.
pub proof fn lemma_unknown_code_resolves_global(s: Seq<char>)
    requires
        !code_matches(s, "us"@),
        !code_matches(s, "eu"@),
        !code_matches(s, "eu2"@),
        !code_matches(s, "fr"@),
        !code_matches(s, "jp"@),
        !code_matches(s, "de"@),
        !code_matches(s, "ap"@),
        !code_matches(s, "au"@),
        !code_matches(s, "ae"@),
        !code_matches(s, "ca"@),
        !code_matches(s, "la"@),
        !code_matches(s, "ru"@),
        !code_matches(s, "cn"@),
    ensures
        spec_region_from_code(s) == Region::Global,
        spec_base_url(spec_region_from_code(s)) == spec_base_url(Region::Global),
{
}

} // verus!
