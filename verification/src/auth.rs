//! Access control of the gRPC server and the token stores.
//!
//! Behaviour by [`AuthMode`]:
//! - [`AuthMode::Single`] (default): no per-user enforcement. An optional API
//!   key is still checked if configured. No identity is attached.
//! - [`AuthMode::Multi`]: a request to a data RPC needs a valid bearer JWT,
//!   whose user id is attached to the request. `Register` and `Login` are
//!   exempt, so users can bootstrap a session.

use vstd::prelude::*;

use crate::text::{chars_of, owned, seq_ends_with, seq_starts_with, str_ends_with, str_eq, str_starts_with, string_of_chars};

verus! {

/// Server auth mode, from `GITDECK_AUTH` (`single` default, or `multi`).
#[derive(Debug, Clone, Copy, PartialEq, Eq)]
pub enum AuthMode {
    /// No per-user auth. Backwards-compatible default.
    Single,
    /// Multi-user: bearer JWT required for data RPCs; user id attached.
    Multi,
}

/// White space as `char::is_whitespace` defines it (Unicode `White_Space`).
pub open spec fn is_ws(c: char) -> bool {
    let u = c as u32;
    (9 <= u <= 13) || u == 32 || u == 0x85 || u == 0xA0 || u == 0x1680 || (0x2000 <= u <= 0x200A)
        || u == 0x2028 || u == 0x2029 || u == 0x202F || u == 0x205F || u == 0x3000
}

fn ws(c: char) -> (r: bool)
    ensures
        r == is_ws(c),
{
    let u = c as u32;
    (9 <= u && u <= 13) || u == 32 || u == 0x85 || u == 0xA0 || u == 0x1680 || (0x2000 <= u && u <= 0x200A)
        || u == 0x2028 || u == 0x2029 || u == 0x202F || u == 0x205F || u == 0x3000
}

/// Number of leading white-space characters of `s`.
pub open spec fn lead_ws(s: Seq<char>) -> nat
    decreases s.len(),
{
    if s.len() > 0 && is_ws(s[0]) {
        1 + lead_ws(s.drop_first())
    } else {
        0
    }
}

/// Number of trailing white-space characters of `s`.
pub open spec fn trail_ws(s: Seq<char>) -> nat
    decreases s.len(),
{
    if s.len() > 0 && is_ws(s.last()) {
        1 + trail_ws(s.drop_last())
    } else {
        0
    }
}

/// `s` without leading and trailing white space, as `str::trim` gives it.
pub open spec fn spec_trim(s: Seq<char>) -> Seq<char> {
    let a = lead_ws(s) as int;
    let t = s.skip(a);
    t.take(t.len() - trail_ws(t))
}

proof fn lemma_lead_ws(s: Seq<char>, i: int)
    requires
        0 <= i <= s.len(),
        forall|k: int| 0 <= k < i ==> is_ws(#[trigger] s[k]),
    ensures
        lead_ws(s) == i + lead_ws(s.skip(i)),
    decreases i,
{
    if i > 0 {
        lemma_lead_ws(s.drop_first(), i - 1);
        assert(s.drop_first().skip(i - 1) =~= s.skip(i));
    } else {
        assert(s.skip(0) =~= s);
    }
}

proof fn lemma_trail_ws(s: Seq<char>, n: int)
    requires
        0 <= n <= s.len(),
        forall|k: int| n <= k < s.len() ==> is_ws(#[trigger] s[k]),
    ensures
        trail_ws(s) == (s.len() - n) + trail_ws(s.take(n)),
    decreases s.len() - n,
{
    if n < s.len() {
        lemma_trail_ws(s.drop_last(), n);
        assert(s.drop_last().take(n) =~= s.take(n));
    } else {
        assert(s.take(n) =~= s);
    }
}

/// `s` with leading and trailing white space removed.
pub fn trim(s: &str) -> (r: String)
    ensures
        r@ == spec_trim(s@),
{
    let cs = chars_of(s);
    let n = cs.len();
    let mut a: usize = 0;
    while a < n && ws(cs[a])
        invariant
            a <= n == cs@.len(),
            cs@ == s@,
            forall|k: int| 0 <= k < a ==> is_ws(#[trigger] cs@[k]),
        decreases n - a,
    {
        a = a + 1;
    }
    proof {
        lemma_lead_ws(s@, a as int);
        if a < n {
            assert(s@.skip(a as int)[0] == cs@[a as int]);
        }
        assert(lead_ws(s@.skip(a as int)) == 0);
    }
    let mut b: usize = n;
    while b > a && ws(cs[b - 1])
        invariant
            a <= b <= n == cs@.len(),
            cs@ == s@,
            forall|k: int| b <= k < n ==> is_ws(#[trigger] cs@[k]),
        decreases b,
    {
        b = b - 1;
    }
    let ghost t = s@.skip(a as int);
    proof {
        assert forall|k: int| b - a <= k < t.len() implies is_ws(#[trigger] t[k]) by {
            assert(t[k] == cs@[a + k]);
        }
        lemma_trail_ws(t, b - a);
        if b > a {
            assert(t.take(b - a).last() == cs@[b - 1]);
        }
        assert(trail_ws(t.take(b - a)) == 0);
    }
    let mut out: Vec<char> = Vec::new();
    let mut i = a;
    while i < b
        invariant
            a <= i <= b <= n == cs@.len(),
            out@ == cs@.subrange(a as int, i as int),
        decreases b - i,
    {
        out.push(cs[i]);
        assert(cs@.subrange(a as int, i + 1) =~= cs@.subrange(a as int, i as int).push(cs@[i as int]));
        i = i + 1;
    }
    assert(out@ =~= t.take(t.len() - trail_ws(t)));
    string_of_chars(out.as_slice())
}

/// ASCII upper-case letters lowered, as `str::to_ascii_lowercase` does.
pub open spec fn spec_ascii_lower(s: Seq<char>) -> Seq<char> {
    Seq::new(s.len(), |i: int| if 'A' <= s[i] <= 'Z' { ((s[i] as u32) + 32) as char } else { s[i] })
}

/// The mode `GITDECK_AUTH` selects: `multi` in any letter case, ignoring
/// surrounding white space; anything else is single.
pub open spec fn spec_auth_mode(s: Seq<char>) -> AuthMode {
    if spec_ascii_lower(spec_trim(s)) == "multi"@ {
        AuthMode::Multi
    } else {
        AuthMode::Single
    }
}

fn ascii_lower_eq(s: &str, lower: &str) -> (r: bool)
    ensures
        r == (spec_ascii_lower(s@) == lower@),
{
    let cs = chars_of(s);
    let ls = chars_of(lower);
    if cs.len() != ls.len() {
        return false;
    }
    let mut i: usize = 0;
    while i < cs.len()
        invariant
            i <= cs@.len() == ls@.len(),
            cs@ == s@,
            ls@ == lower@,
            forall|k: int| 0 <= k < i ==> #[trigger] spec_ascii_lower(s@)[k] == ls@[k],
        decreases cs.len() - i,
    {
        let c = cs[i];
        let l = if 'A' <= c && c <= 'Z' {
            ((c as u32) + 32) as u8 as char
        } else {
            c
        };
        assert(l == spec_ascii_lower(s@)[i as int]) by {
            if 'A' <= c && c <= 'Z' {
                assert(((c as u32) + 32) as u8 as char == ((c as u32) + 32) as char);
            }
        }
        if l != ls[i] {
            return false;
        }
        i = i + 1;
    }
    assert(spec_ascii_lower(s@) =~= lower@);
    true
}

impl AuthMode {
    /// Parse from the `GITDECK_AUTH` env value. Unknown/empty → `Single`.
    pub fn parse(s: &str) -> (r: AuthMode)
        ensures
            r == spec_auth_mode(s@),
    {
        let t = trim(s);
        if ascii_lower_eq(t.as_str(), "multi") {
            AuthMode::Multi
        } else {
            AuthMode::Single
        }
    }
}

/// The authenticated identity attached to a request. `user_id` is `Some` only
/// in multi mode with a valid bearer token.
#[derive(Debug, Clone, PartialEq, Eq)]
pub struct AuthContext {
    pub mode: AuthMode,
    pub user_id: Option<String>,
}

/// Methods that bootstrap a session and are therefore exempt from auth.
pub open spec fn spec_is_exempt(path: Seq<char>) -> bool {
    seq_ends_with(path, "/Register"@) || seq_ends_with(path, "/Login"@)
}

pub fn is_exempt(path: &str) -> (r: bool)
    ensures
        r == spec_is_exempt(path@),
{
    str_ends_with(path, "/Register") || str_ends_with(path, "/Login")
}

/// The token of an `authorization` header of the form `Bearer <token>`.
pub open spec fn spec_bearer(header: Option<Seq<char>>) -> Option<Seq<char>> {
    match header {
        Some(h) => if seq_starts_with(h, "Bearer "@) {
            Some(h.skip(7))
        } else {
            None
        },
        None => None,
    }
}

/// Extract the bearer token from an `authorization` header value, if present.
pub fn bearer(header: Option<&str>) -> (r: Option<String>)
    ensures
        crate::text::opt_string(r) == spec_bearer(crate::text::opt_str(header)),
{
    match header {
        Some(h) => {
            if str_starts_with(h, "Bearer ") {
                proof {
                    reveal_strlit("Bearer ");
                }
                let cs = chars_of(h);
                let mut out: Vec<char> = Vec::new();
                let mut i: usize = 7;
                while i < cs.len()
                    invariant
                        7 <= i <= cs@.len(),
                        cs@ == h@,
                        out@ == cs@.subrange(7, i as int),
                    decreases cs.len() - i,
                {
                    out.push(cs[i]);
                    assert(cs@.subrange(7, i + 1) =~= cs@.subrange(7, i as int).push(cs@[i as int]));
                    i = i + 1;
                }
                assert(out@ =~= h@.skip(7));
                Some(string_of_chars(out.as_slice()))
            } else {
                None
            }
        },
        None => None,
    }
}

/// The outcome of gating one request.
#[derive(Debug, Clone, PartialEq, Eq)]
pub enum AuthDecision {
    /// Short-circuit with gRPC `unauthenticated` and this message.
    Reject(String),
    /// Pass the request on with this identity attached.
    Proceed(AuthContext),
}

/// The access check made before every RPC.
///
/// `api_key` is the configured key (if any), `token` the request's bearer
/// token (if any), and `verified_user` the user id that the bearer token
/// verifies to as a session JWT (`None` when there is no codec, no token, or
/// it does not verify).
///
/// 1. Unless the RPC is exempt, a configured API key must be presented as the
///    bearer token.
/// 2. Single mode attaches an empty identity. Multi mode attaches the verified
///    user, and rejects a non-exempt RPC without one.
pub open spec fn spec_authorize(
    mode: AuthMode,
    path: Seq<char>,
    api_key: Option<Seq<char>>,
    token: Option<Seq<char>>,
    verified_user: Option<String>,
) -> (bool, Seq<char>, AuthContext) {
    let exempt = spec_is_exempt(path);
    if !exempt && api_key is Some && token != api_key {
        (false, "missing or invalid API key"@, AuthContext { mode, user_id: None })
    } else {
        match mode {
            AuthMode::Single => (true, Seq::empty(), AuthContext { mode: AuthMode::Single, user_id: None }),
            AuthMode::Multi => if !exempt && verified_user is None {
                (false, "missing or invalid bearer token"@, AuthContext { mode, user_id: None })
            } else {
                (true, Seq::empty(), AuthContext { mode: AuthMode::Multi, user_id: verified_user })
            },
        }
    }
}

pub open spec fn decision_matches(d: AuthDecision, s: (bool, Seq<char>, AuthContext)) -> bool {
    match d {
        AuthDecision::Reject(m) => !s.0 && m@ == s.1,
        AuthDecision::Proceed(c) => s.0 && c == s.2,
    }
}

/// The API-key check: on a path that is not exempt, a configured key must be
/// presented as the bearer token. A request without it is rejected with
/// "missing or invalid API key", whatever the mode and identity; one that
/// gets through carried the key.
pub open spec fn api_key_law(path: Seq<char>, api_key: Option<Seq<char>>, token: Option<Seq<char>>, d: AuthDecision) -> bool {
    !spec_is_exempt(path) && api_key is Some ==> {
        &&& (token != api_key ==> (d matches AuthDecision::Reject(m) && m@ == "missing or invalid API key"@))
        &&& (d is Proceed ==> token == api_key)
    }
}

/// [`spec_authorize`] refuses every non-exempt request that does
/// not carry the configured key.
pub proof fn lemma_api_key_required(
    mode: AuthMode,
    path: Seq<char>,
    api_key: Option<Seq<char>>,
    token: Option<Seq<char>>,
    verified_user: Option<String>,
)
    requires
        !spec_is_exempt(path),
        api_key is Some,
        token != api_key,
    ensures
        !spec_authorize(mode, path, api_key, token, verified_user).0,
        spec_authorize(mode, path, api_key, token, verified_user).1 == "missing or invalid API key"@,
{
}

pub fn authorize(
    mode: AuthMode,
    path: &str,
    api_key: Option<&str>,
    token: Option<&str>,
    verified_user: Option<String>,
) -> (d: AuthDecision)
    ensures
        decision_matches(
            d,
            spec_authorize(mode, path@, crate::text::opt_str(api_key), crate::text::opt_str(token), verified_user),
        ),
        api_key_law(path@, crate::text::opt_str(api_key), crate::text::opt_str(token), d),
{
    let exempt = is_exempt(path);
    if !exempt {
        if let Some(expected) = api_key {
            let ok = match token {
                Some(t) => str_eq(t, expected),
                None => false,
            };
            if !ok {
                return AuthDecision::Reject(owned("missing or invalid API key"));
            }
        }
    }
    match mode {
        AuthMode::Single => AuthDecision::Proceed(AuthContext { mode: AuthMode::Single, user_id: None }),
        AuthMode::Multi => {
            if !exempt && verified_user.is_none() {
                return AuthDecision::Reject(owned("missing or invalid bearer token"));
            }
            AuthDecision::Proceed(AuthContext { mode: AuthMode::Multi, user_id: verified_user })
        },
    }
}

/// In multi mode a data RPC never gets through without a verified user.
pub proof fn lemma_multi_requires_identity(path: Seq<char>, api_key: Option<Seq<char>>, token: Option<Seq<char>>)
    requires
        !spec_is_exempt(path),
    ensures
        !spec_authorize(AuthMode::Multi, path, api_key, token, None).0,
{
}

/// `Register` and `Login` always get through, whatever the credentials.
pub proof fn lemma_exempt_always_proceeds(
    mode: AuthMode,
    path: Seq<char>,
    api_key: Option<Seq<char>>,
    token: Option<Seq<char>>,
    verified_user: Option<String>,
)
    requires
        spec_is_exempt(path),
    ensures
        spec_authorize(mode, path, api_key, token, verified_user).0,
{
}

/// A gRPC status: its code and message.
#[derive(Debug, Clone, PartialEq, Eq)]
pub enum Code {
    NotFound,
    Unauthenticated,
    Internal,
    InvalidArgument,
    Unimplemented,
}

#[derive(Debug, Clone, PartialEq, Eq)]
pub struct Status {
    pub code: Code,
    pub message: String,
}

/// The optional bearer-API-key check: with a key configured, the request must
/// carry `authorization: Bearer <key>`.
pub fn api_key_check(api_key: Option<&str>, header: Option<&str>) -> (r: Result<(), Status>)
    ensures
        match crate::text::opt_str(api_key) {
            None => r is Ok,
            Some(k) => if spec_bearer(crate::text::opt_str(header)) == Some(k) {
                r is Ok
            } else {
                (r matches Err(s) && s.code == Code::Unauthenticated && s.message@ == "missing or invalid API key"@)
            },
        },
{
    match api_key {
        None => Ok(()),
        Some(expected) => {
            let provided = bearer(header);
            match provided {
                Some(t) => {
                    if str_eq(t.as_str(), expected) {
                        return Ok(());
                    }
                },
                None => {},
            }
            Err(Status { code: Code::Unauthenticated, message: owned("missing or invalid API key") })
        },
    }
}

/// Optional bearer-API-key interceptor. When an api key is configured, every
/// request must carry `authorization: Bearer <key>`.
#[derive(Debug, Clone, PartialEq, Eq)]
pub struct ApiKeyInterceptor {
    pub api_key: Option<String>,
}

impl ApiKeyInterceptor {
    pub fn new(api_key: Option<String>) -> (r: ApiKeyInterceptor)
        ensures
            r.api_key == api_key,
    {
        ApiKeyInterceptor { api_key }
    }

    /// Check one request's `authorization` header.
    pub fn call(&self, header: Option<&str>) -> (r: Result<(), Status>)
        ensures
            match self.api_key {
                None => r is Ok,
                Some(k) => if spec_bearer(crate::text::opt_str(header)) == Some(k@) {
                    r is Ok
                } else {
                    (r matches Err(s) && s.code == Code::Unauthenticated && s.message@
                        == "missing or invalid API key"@)
                },
            },
    {
        match &self.api_key {
            None => Ok(()),
            Some(k) => api_key_check(Some(k.as_str()), header),
        }
    }
}

} // verus!
