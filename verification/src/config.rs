//! Service configuration.
use vstd::prelude::*;

use crate::text::{chars_of, string_from_chars, occurs_at};

verus! {

/// Service configuration.
#[derive(Debug)]
pub struct AppConfig {
    pub database_url: String,
    pub session_secret: String,
    pub enka_user_agent: String,
    pub base_url: String,
    pub listen_addr: String,
    /// Base URL of the Auth Gateway (without trailing slash, no `/auth` suffix).
    /// Used by the plugin to query guild membership/permission.
    /// In production this is usually the same origin as `BASE_URL`
    /// (e.g. `https://plugin-rolelogic.faizo.net`). For local dev, set this to the
    /// Auth Gateway's local listener (e.g. `http://localhost:8080`) so that the
    /// plugin talks to the local gateway instead of going back through Cloudflare.
    pub auth_gateway_url: String,
}

pub const DEFAULT_ENKA_USER_AGENT: &'static str = "GenshinRoles/1.0";

pub const DEFAULT_LISTEN_ADDR: &'static str = "0.0.0.0:8080";

/// Whether `i` is the first position of `needle` in `s`.
pub open spec fn is_first_occurrence(s: Seq<char>, needle: Seq<char>, i: int) -> bool {
    occurs_at(s, needle, i) && forall|k: int| 0 <= k < i ==> !occurs_at(s, needle, k)
}

/// Whether `j` is the first position at or after `from` that holds `/`.
pub open spec fn is_first_slash_from(s: Seq<char>, from: int, j: int) -> bool {
    &&& from <= j < s.len()
    &&& s[j] == '/'
    &&& forall|k: int| from <= k < j ==> s[k] != '/'
}

/// The origin (scheme and authority) of a URL: the URL cut before the first
/// `/` after its `://`; the whole text when there is no such `/`.
pub open spec fn url_origin(s: Seq<char>) -> Seq<char> {
    if exists|i: int| is_first_occurrence(s, "://"@, i) {
        let i = choose|i: int| is_first_occurrence(s, "://"@, i);
        let from = i + 3;
        if exists|j: int| is_first_slash_from(s, from, j) {
            let j = choose|j: int| is_first_slash_from(s, from, j);
            s.subrange(0, j)
        } else {
            s
        }
    } else {
        s
    }
}

/// The origin of a URL, as the Auth Gateway's default address.
pub fn derive_origin(base_url: &str) -> (r: String)
    ensures
        r@ == url_origin(base_url@),
{
    let v: Vec<char> = chars_of(base_url);
    let n: usize = v.len();
    proof {
        reveal_strlit("://");
    }
    let mut i: usize = 0;
    let mut found: bool = false;
    while !found && n >= 3 && i <= n - 3
        invariant
            v@ == base_url@,
            n == v@.len(),
            "://"@ == seq![':', '/', '/'],
            i <= n,
            found ==> i + 3 <= n,
            forall|k: int| 0 <= k < i ==> !occurs_at(v@, "://"@, k),
            found ==> occurs_at(v@, "://"@, i as int),
        decreases n - i + (if found {
            0int
        } else {
            1int
        }),
    {
        if v[i] == ':' && v[i + 1] == '/' && v[i + 2] == '/' {
            found = true;
            assert(v@.subrange(i as int, i + 3) =~= "://"@);
        } else {
            assert(!occurs_at(v@, "://"@, i as int)) by {
                if occurs_at(v@, "://"@, i as int) {
                    assert(v@.subrange(i as int, i + 3)[0] == v@[i as int]);
                    assert(v@.subrange(i as int, i + 3)[1] == v@[i + 1]);
                    assert(v@.subrange(i as int, i + 3)[2] == v@[i + 2]);
                }
            }
            i = i + 1;
        }
    }
    if !found {
        assert forall|k: int| !is_first_occurrence(v@, "://"@, k) by {
            if occurs_at(v@, "://"@, k) {
                assert(k + 3 <= n);
                assert(k < i);
            }
        }
        return string_from_chars(&v, 0, n);
    }
    assert(is_first_occurrence(v@, "://"@, i as int));
    let ghost first = choose|k: int| is_first_occurrence(v@, "://"@, k);
    assert(first == i) by {
        if first < i {
        } else if first > i {
        }
    }
    let after_scheme: usize = i + 3;
    let mut j: usize = after_scheme;
    while j < n
        invariant
            v@ == base_url@,
            n == v@.len(),
            after_scheme >= 3,
            (choose|k: int| is_first_occurrence(v@, "://"@, k)) == after_scheme - 3,
            exists|k: int| is_first_occurrence(v@, "://"@, k),
            after_scheme <= j <= n,
            forall|k: int| after_scheme <= k < j ==> v@[k] != '/',
        decreases n - j,
    {
        if v[j] == '/' {
            assert(is_first_slash_from(v@, after_scheme as int, j as int));
            let ghost cut = choose|c: int| is_first_slash_from(v@, after_scheme as int, c);
            assert(cut == j) by {
                if cut < j {
                } else if cut > j {
                }
            }
            proof {
                let i0 = choose|k: int| is_first_occurrence(v@, "://"@, k);
                assert(i0 + 3 == after_scheme);
                let from = i0 + 3;
                assert(is_first_slash_from(v@, from, j as int));
                assert(exists|c: int| is_first_slash_from(v@, from, c));
                assert(url_origin(v@) == v@.subrange(0, j as int));
            }
            return string_from_chars(&v, 0, j);
        }
        j = j + 1;
    }
    assert forall|c: int| !is_first_slash_from(v@, after_scheme as int, c) by {}
    string_from_chars(&v, 0, n)
}

/// A text without its trailing `/` characters.
pub open spec fn trim_trailing_slashes(s: Seq<char>) -> Seq<char>
    decreases s.len(),
{
    if s.len() > 0 && s.last() == '/' {
        trim_trailing_slashes(s.drop_last())
    } else {
        s
    }
}

/// Removes the trailing `/` characters, as `trim_end_matches('/')`.
pub fn trim_end_slashes(s: &str) -> (r: String)
    ensures
        r@ == trim_trailing_slashes(s@),
{
    let v: Vec<char> = chars_of(s);
    let mut j: usize = v.len();
    assert(v@.subrange(0, j as int) =~= s@);
    while j > 0 && v[j - 1] == '/'
        invariant
            v@ == s@,
            j <= v@.len(),
            trim_trailing_slashes(s@) == trim_trailing_slashes(v@.subrange(0, j as int)),
        decreases j,
    {
        assert(v@.subrange(0, j as int).drop_last() =~= v@.subrange(0, j - 1));
        j = j - 1;
    }
    string_from_chars(&v, 0, j)
}

impl AppConfig {
    /// The configuration from its settings: the Auth Gateway defaults to the
    /// origin of the base URL, the user agent and listen address to their
    /// defaults.
    pub fn from_settings(
        database_url: String,
        session_secret: String,
        base_url: String,
        enka_user_agent: Option<String>,
        listen_addr: Option<String>,
        auth_gateway_url: Option<String>,
    ) -> (r: AppConfig)
        ensures
            r.database_url@ == database_url@,
            r.session_secret@ == session_secret@,
            r.base_url@ == base_url@,
            r.enka_user_agent@ == (match enka_user_agent {
                Some(a) => a@,
                None => DEFAULT_ENKA_USER_AGENT@,
            }),
            r.listen_addr@ == (match listen_addr {
                Some(a) => a@,
                None => DEFAULT_LISTEN_ADDR@,
            }),
            r.auth_gateway_url@ == (match auth_gateway_url {
                Some(a) => trim_trailing_slashes(a@),
                None => url_origin(base_url@),
            }),
    {
        let gateway: String = match auth_gateway_url {
            Some(a) => trim_end_slashes(a.as_str()),
            None => derive_origin(base_url.as_str()),
        };
        let user_agent: String = match enka_user_agent {
            Some(a) => a,
            None => String::from_str(DEFAULT_ENKA_USER_AGENT),
        };
        let listen: String = match listen_addr {
            Some(a) => a,
            None => String::from_str(DEFAULT_LISTEN_ADDR),
        };
        AppConfig {
            database_url,
            session_secret,
            enka_user_agent: user_agent,
            base_url,
            listen_addr: listen,
            auth_gateway_url: gateway,
        }
    }
}

} // verus!
