//! OAuth 2.0 authorization-code flow pieces: PKCE, the authorize URL, the
//! token request form and the loopback callback.

use vstd::prelude::*;
use vstd::string::StringSliceAdditionalSpecFns;

use crate::text::{owned, push_str, str_eq};
use crate::tokens::{OAuthToken, TokenError};
use base64::Engine;
use sha2::Digest;

verus! {

/// The SHA-256 digest of `data`.
pub uninterp spec fn sha256(data: Seq<u8>) -> Seq<u8>;

/// Calls `sha2::Sha256::digest(data)`. Claimed: the digest is a function of
/// `data` alone, named [`sha256`], and is 32 bytes long (SHA-256's output size).
#[verifier::external_body]
fn sha256_digest(data: &[u8]) -> (r: Vec<u8>)
    ensures
        r@ == sha256(data@),
        r@.len() == 32,
{
    sha2::Sha256::digest(data).to_vec()
}

/// The character of the URL-safe base64 alphabet for `v < 64`.
pub open spec fn b64_char(v: int) -> char {
    if v < 26 {
        ((65 + v) as u32) as char
    } else if v < 52 {
        ((97 + v - 26) as u32) as char
    } else if v < 62 {
        ((48 + v - 52) as u32) as char
    } else if v == 62 {
        '-'
    } else {
        '_'
    }
}

/// URL-safe base64 without padding (RFC 4648 §5): each 3 bytes become 4
/// characters; a final 1 or 2 bytes become 2 or 3 characters.
pub open spec fn base64url_nopad(d: Seq<u8>) -> Seq<char>
    decreases d.len(),
{
    if d.len() == 0 {
        Seq::empty()
    } else {
        let a = d[0] as int;
        let b = if d.len() > 1 { d[1] as int } else { 0 };
        let c = if d.len() > 2 { d[2] as int } else { 0 };
        let quad = seq![b64_char(a / 4), b64_char((a % 4) * 16 + b / 16), b64_char((b % 16) * 4 + c / 64), b64_char(c % 64)];
        if d.len() == 1 {
            quad.take(2)
        } else if d.len() == 2 {
            quad.take(3)
        } else {
            quad + base64url_nopad(d.skip(3))
        }
    }
}

/// Calls `base64::engine::general_purpose::URL_SAFE_NO_PAD.encode(data)`.
/// Claimed: the text is the URL-safe, unpadded base64 encoding of `data`
/// ([`base64url_nopad`]), as RFC 4648 §5 defines it.
#[verifier::external_body]
fn encode_base64url(data: &[u8]) -> (r: String)
    ensures
        r@ == base64url_nopad(data@),
{
    base64::engine::general_purpose::URL_SAFE_NO_PAD.encode(data)
}

/// A PKCE verifier and its S256 challenge.
#[derive(Debug, Clone, PartialEq, Eq)]
pub struct PkcePair {
    pub verifier: String,
    pub challenge: String,
}

/// S256 PKCE: `challenge = base64url_nopad(sha256(verifier))`.
pub fn generate_pkce(verifier: &str) -> (p: PkcePair)
    ensures
        p.verifier@ == verifier@,
        p.challenge@ == base64url_nopad(sha256(vstd::utf8::encode_utf8(verifier@))),
        p.challenge@.len() == 43,
{
    let digest = sha256_digest(verifier.as_bytes());
    proof {
        let d = digest@;
        assert(d.skip(3).skip(3).skip(3).skip(3).skip(3).skip(3).skip(3).skip(3).skip(3).skip(3).len() == 2);
        reveal_with_fuel(base64url_nopad, 12);
    }
    let challenge = encode_base64url(digest.as_slice());
    PkcePair { verifier: owned(verifier), challenge }
}

/// The parameters of an authorization request.
pub struct AuthRequest<'a> {
    pub authorize_endpoint: &'a str,
    pub client_id: &'a str,
    pub redirect_uri: &'a str,
    pub scope: &'a str,
    pub state: &'a str,
    pub pkce_challenge: Option<&'a str>,
}

/// The query of an authorize URL: the fixed authorization-code parameters,
/// then the PKCE challenge when there is one.
pub open spec fn spec_authorize_pairs(req: AuthRequest) -> Seq<(Seq<char>, Seq<char>)> {
    let base = seq![
        ("response_type"@, "code"@),
        ("client_id"@, req.client_id@),
        ("redirect_uri"@, req.redirect_uri@),
        ("scope"@, req.scope@),
        ("state"@, req.state@),
    ];
    match req.pkce_challenge {
        Some(c) => base + seq![("code_challenge"@, c@), ("code_challenge_method"@, "S256"@)],
        None => base,
    }
}

/// The view of a list of string pairs.
pub open spec fn pairs_view(v: Seq<(String, String)>) -> Seq<(Seq<char>, Seq<char>)> {
    Seq::new(v.len(), |i: int| (v[i].0@, v[i].1@))
}

fn pair(k: &str, v: &str) -> (r: (String, String))
    ensures
        r.0@ == k@,
        r.1@ == v@,
{
    (owned(k), owned(v))
}

/// The authorize URL's query parameters, in order.
pub fn authorize_pairs(req: &AuthRequest) -> (r: Vec<(String, String)>)
    ensures
        pairs_view(r@) == spec_authorize_pairs(*req),
{
    let mut r: Vec<(String, String)> = Vec::new();
    r.push(pair("response_type", "code"));
    r.push(pair("client_id", req.client_id));
    r.push(pair("redirect_uri", req.redirect_uri));
    r.push(pair("scope", req.scope));
    r.push(pair("state", req.state));
    if let Some(challenge) = req.pkce_challenge {
        r.push(pair("code_challenge", challenge));
        r.push(pair("code_challenge_method", "S256"));
    }
    assert(pairs_view(r@) =~= spec_authorize_pairs(*req));
    r
}

/// The text of `endpoint` parsed as a URL with the given query pairs appended
/// (form-urlencoded), or `None` when `endpoint` is not a URL.
pub uninterp spec fn url_with_query(endpoint: Seq<char>, pairs: Seq<(Seq<char>, Seq<char>)>) -> Option<Seq<char>>;

/// Calls `url::Url::parse(endpoint)`, then `query_pairs_mut().append_pair` for
/// each pair, then `to_string()`. Claimed: the outcome is a function of the
/// endpoint and the pairs alone, named [`url_with_query`]; nothing is claimed
/// about its text.
#[verifier::external_body]
fn append_query(endpoint: &str, pairs: &Vec<(String, String)>) -> (r: Option<String>)
    ensures
        match (r, url_with_query(endpoint@, pairs_view(pairs@))) {
            (Some(a), Some(b)) => a@ == b,
            (None, None) => true,
            _ => false,
        },
{
    let mut url = url::Url::parse(endpoint).ok()?;
    url.query_pairs_mut().extend_pairs(pairs.iter().map(|(k, v)| (k.as_str(), v.as_str())));
    Some(url.to_string())
}

/// Build the authorize URL. The endpoint must be a URL.
pub fn build_authorize_url(req: &AuthRequest) -> (r: String)
    requires
        url_with_query(req.authorize_endpoint@, spec_authorize_pairs(*req)) is Some,
    ensures
        Some(r@) == url_with_query(req.authorize_endpoint@, spec_authorize_pairs(*req)),
{
    let pairs = authorize_pairs(req);
    match append_query(req.authorize_endpoint, &pairs) {
        Some(u) => u,
        None => String::new(),
    }
}

/// Build the authorize URL, or `None` when the endpoint is not a URL.
pub fn try_build_authorize_url(req: &AuthRequest) -> (r: Option<String>)
    ensures
        match (r, url_with_query(req.authorize_endpoint@, spec_authorize_pairs(*req))) {
            (Some(a), Some(b)) => a@ == b,
            (None, None) => true,
            _ => false,
        },
{
    let pairs = authorize_pairs(req);
    match append_query(req.authorize_endpoint, &pairs) {
        Some(_) => Some(build_authorize_url(req)),
        None => None,
    }
}

/// The parameters of a code-for-token exchange.
pub struct TokenRequest<'a> {
    pub token_endpoint: &'a str,
    pub client_id: &'a str,
    pub client_secret: Option<&'a str>,
    pub code: &'a str,
    pub redirect_uri: &'a str,
    pub pkce_verifier: Option<&'a str>,
}

/// The form fields of a token request: client id, code and redirect uri, then
/// the client secret and the PKCE verifier when given.
pub open spec fn spec_token_form(req: TokenRequest) -> Seq<(Seq<char>, Seq<char>)> {
    let base = seq![("client_id"@, req.client_id@), ("code"@, req.code@), ("redirect_uri"@, req.redirect_uri@)];
    let with_secret = match req.client_secret {
        Some(s) => base.push(("client_secret"@, s@)),
        None => base,
    };
    match req.pkce_verifier {
        Some(v) => with_secret.push(("code_verifier"@, v@)),
        None => with_secret,
    }
}

/// The value a form gives the field `name`, if it has one: that of its last
/// pair of that name.
pub open spec fn form_value(f: Seq<(Seq<char>, Seq<char>)>, name: Seq<char>) -> Option<Seq<char>>
    decreases f.len(),
{
    if f.len() == 0 {
        None
    } else if f.last().0 == name {
        Some(f.last().1)
    } else {
        form_value(f.drop_last(), name)
    }
}

/// A token form carries each request field under its own name: the client id,
/// code and redirect uri always, the client secret and PKCE verifier exactly
/// when the request has them.
pub open spec fn token_form_law(req: TokenRequest, f: Seq<(Seq<char>, Seq<char>)>) -> bool {
    &&& form_value(f, "client_id"@) == Some(req.client_id@)
    &&& form_value(f, "code"@) == Some(req.code@)
    &&& form_value(f, "redirect_uri"@) == Some(req.redirect_uri@)
    &&& form_value(f, "client_secret"@) == match req.client_secret {
        Some(s) => Some(s@),
        None => None::<Seq<char>>,
    }
    &&& form_value(f, "code_verifier"@) == match req.pkce_verifier {
        Some(v) => Some(v@),
        None => None::<Seq<char>>,
    }
}

proof fn lemma_form_value_push(f: Seq<(Seq<char>, Seq<char>)>, x: (Seq<char>, Seq<char>), name: Seq<char>)
    ensures
        form_value(f.push(x), name) == if x.0 == name { Some(x.1) } else { form_value(f, name) },
{
    assert(f.push(x).drop_last() =~= f);
}

/// The token form of [`spec_token_form`] gives every field the request's value.
pub proof fn lemma_token_form_fields(req: TokenRequest)
    ensures
        token_form_law(req, spec_token_form(req)),
{
    reveal_strlit("client_id");
    reveal_strlit("code");
    reveal_strlit("redirect_uri");
    reveal_strlit("client_secret");
    reveal_strlit("code_verifier");
    let names = seq!["client_id"@, "code"@, "redirect_uri"@, "client_secret"@, "code_verifier"@];
    assert(names[0].len() == 9 && names[1].len() == 4 && names[2].len() == 12);
    assert(names[3].len() == 13 && names[4].len() == 13);
    assert forall|i: int, j: int| 0 <= i < j < names.len() implies #[trigger] names[i] != #[trigger] names[j] by {
        if i == 3 && j == 4 {
            assert(names[3][1] != names[4][1]);
        }
    }
    assert("client_secret"@ != "code_verifier"@) by {
        assert("client_secret"@[1] != "code_verifier"@[1]);
    }
    let e = Seq::<(Seq<char>, Seq<char>)>::empty();
    let a = ("client_id"@, req.client_id@);
    let b = ("code"@, req.code@);
    let c = ("redirect_uri"@, req.redirect_uri@);
    let base = e.push(a).push(b).push(c);
    assert(base =~= seq![a, b, c]);
    let ws = match req.client_secret {
        Some(s) => base.push(("client_secret"@, s@)),
        None => base,
    };
    let f = spec_token_form(req);
    match req.pkce_verifier {
        Some(v) => assert(f == ws.push(("code_verifier"@, v@))),
        None => assert(f == ws),
    }
    assert forall|k: int| 0 <= k < names.len() implies form_value(f, #[trigger] names[k]) == (if k == 0 {
        Some(req.client_id@)
    } else if k == 1 {
        Some(req.code@)
    } else if k == 2 {
        Some(req.redirect_uri@)
    } else if k == 3 {
        match req.client_secret {
            Some(s) => Some(s@),
            None => None::<Seq<char>>,
        }
    } else {
        match req.pkce_verifier {
            Some(v) => Some(v@),
            None => None::<Seq<char>>,
        }
    }) by {
        let n = names[k];
        if k == 0 { assert(n == "client_id"@); }
        if k == 1 { assert(n == "code"@); }
        if k == 2 { assert(n == "redirect_uri"@); }
        if k == 3 { assert(n == "client_secret"@); }
        if k == 4 { assert(n == "code_verifier"@); }
        assert(form_value(e, n) is None);
        lemma_form_value_push(e, a, n);
        lemma_form_value_push(e.push(a), b, n);
        lemma_form_value_push(e.push(a).push(b), c, n);
        if let Some(s) = req.client_secret {
            lemma_form_value_push(base, ("client_secret"@, s@), n);
        }
        if let Some(v) = req.pkce_verifier {
            lemma_form_value_push(ws, ("code_verifier"@, v@), n);
        }
    }
    assert(names[0] == "client_id"@);
    assert(names[1] == "code"@);
    assert(names[2] == "redirect_uri"@);
    assert(names[3] == "client_secret"@);
    assert(names[4] == "code_verifier"@);
}

pub fn token_form(req: &TokenRequest) -> (r: Vec<(String, String)>)
    ensures
        pairs_view(r@) == spec_token_form(*req),
        token_form_law(*req, pairs_view(r@)),
{
    let mut r: Vec<(String, String)> = Vec::new();
    r.push(pair("client_id", req.client_id));
    r.push(pair("code", req.code));
    r.push(pair("redirect_uri", req.redirect_uri));
    if let Some(secret) = req.client_secret {
        r.push(pair("client_secret", secret));
    }
    if let Some(verifier) = req.pkce_verifier {
        r.push(pair("code_verifier", verifier));
    }
    assert(pairs_view(r@) =~= spec_token_form(*req));
    proof {
        lemma_token_form_fields(*req);
    }
    r
}

/// Whether an HTTP status code is a success (2xx).
pub fn is_success(status: u16) -> (r: bool)
    ensures
        r == (200 <= status <= 299),
{
    200 <= status && status <= 299
}

/// What the token endpoint answered: a failure status (its text, such as
/// `401 Unauthorized`, and the response body), or a success whose JSON was
/// read into a token (or the reader's message).
#[derive(Debug, PartialEq, Eq)]
pub enum TokenReply {
    Failed { status: String, body: String },
    Parsed(Result<OAuthToken, String>),
}

/// The token a code exchange yields, or why it failed.
pub fn token_outcome(reply: TokenReply) -> (r: Result<OAuthToken, TokenError>)
    ensures
        match reply {
            TokenReply::Failed { status, body } => (r matches Err(e)
                && e.0@ == "token endpoint returned "@ + status@ + ": "@ + body@),
            TokenReply::Parsed(Ok(t)) => r == Ok::<OAuthToken, TokenError>(t),
            TokenReply::Parsed(Err(m)) => r == Err::<OAuthToken, TokenError>(TokenError(m)),
        },
{
    match reply {
        TokenReply::Failed { status, body } => {
            let mut m = owned("token endpoint returned ");
            push_str(&mut m, status.as_str());
            push_str(&mut m, ": ");
            push_str(&mut m, body.as_str());
            Err(TokenError(m))
        },
        TokenReply::Parsed(Ok(t)) => Ok(t),
        TokenReply::Parsed(Err(m)) => Err(TokenError(m)),
    }
}

/// The decoded query pairs of `text` parsed as a URL, or the parse error's message.
pub uninterp spec fn url_query_pairs(text: Seq<char>) -> Result<Seq<(Seq<char>, Seq<char>)>, Seq<char>>;

/// Calls `url::Url::parse(text)` and collects `query_pairs()` (percent- and
/// `+`-decoded). Claimed: the outcome is a function of `text` alone, named
/// [`url_query_pairs`]; nothing is claimed about which texts parse.
#[verifier::external_body]
fn query_pairs(text: &str) -> (r: Result<Vec<(String, String)>, String>)
    ensures
        match (r, url_query_pairs(text@)) {
            (Ok(a), Ok(b)) => pairs_view(a@) == b,
            (Err(a), Err(b)) => a@ == b,
            _ => false,
        },
{
    match url::Url::parse(text) {
        Ok(u) => Ok(u.query_pairs().map(|(k, v)| (k.into_owned(), v.into_owned())).collect()),
        Err(e) => Err(e.to_string()),
    }
}

/// The value of the last pair named `key`, if any.
pub open spec fn last_value(pairs: Seq<(Seq<char>, Seq<char>)>, key: Seq<char>) -> Option<Seq<char>>
    decreases pairs.len(),
{
    if pairs.len() == 0 {
        None
    } else if pairs.last().0 == key {
        Some(pairs.last().1)
    } else {
        last_value(pairs.drop_last(), key)
    }
}

/// `code` and `state` from the callback's query: each the last occurrence of
/// its parameter; a missing one is an error naming it.
pub open spec fn spec_callback(pairs: Seq<(Seq<char>, Seq<char>)>) -> Result<(Seq<char>, Seq<char>), Seq<char>> {
    match last_value(pairs, "code"@) {
        None => Err("callback url missing `code` parameter"@),
        Some(c) => match last_value(pairs, "state"@) {
            None => Err("callback url missing `state` parameter"@),
            Some(s) => Ok((c, s)),
        },
    }
}

/// Pick `code` and `state` out of the callback's query pairs.
pub fn callback_params(pairs: &Vec<(String, String)>) -> (r: Result<(String, String), String>)
    ensures
        match (r, spec_callback(pairs_view(pairs@))) {
            (Ok(a), Ok(b)) => a.0@ == b.0 && a.1@ == b.1,
            (Err(a), Err(b)) => a@ == b,
            _ => false,
        },
{
    let ghost pv = pairs_view(pairs@);
    let mut code: Option<String> = None;
    let mut state: Option<String> = None;
    let mut i: usize = 0;
    while i < pairs.len()
        invariant
            i <= pairs@.len(),
            pv == pairs_view(pairs@),
            crate::text::opt_string(code) == last_value(pv.take(i as int), "code"@),
            crate::text::opt_string(state) == last_value(pv.take(i as int), "state"@),
        decreases pairs.len() - i,
    {
        proof {
            let t = pv.take(i + 1);
            assert(t.drop_last() =~= pv.take(i as int));
            assert(t.last() == (pairs@[i as int].0@, pairs@[i as int].1@));
        }
        let key = pairs[i].0.as_str();
        if str_eq(key, "code") {
            code = Some(pairs[i].1.clone());
        } else if str_eq(key, "state") {
            state = Some(pairs[i].1.clone());
        }
        proof {
            reveal_strlit("code");
            reveal_strlit("state");
            assert("code"@.len() != "state"@.len());
        }
        i = i + 1;
    }
    assert(pv.take(pairs@.len() as int) =~= pv);
    let code = match code {
        Some(c) => c,
        None => {
            return Err(owned("callback url missing `code` parameter"));
        },
    };
    let state = match state {
        Some(s) => s,
        None => {
            return Err(owned("callback url missing `state` parameter"));
        },
    };
    Ok((code, state))
}

/// Parse the `code` and `state` query parameters out of an OAuth callback URL.
pub open spec fn spec_parse_callback(url: Seq<char>) -> Result<(Seq<char>, Seq<char>), Seq<char>> {
    match url_query_pairs(url) {
        Err(e) => Err("invalid callback url: "@ + e),
        Ok(pairs) => spec_callback(pairs),
    }
}

pub fn parse_callback(callback_url: &str) -> (r: Result<(String, String), String>)
    ensures
        match (r, spec_parse_callback(callback_url@)) {
            (Ok(a), Ok(b)) => a.0@ == b.0 && a.1@ == b.1,
            (Err(a), Err(b)) => a@ == b,
            _ => false,
        },
{
    match query_pairs(callback_url) {
        Err(e) => {
            let mut m = owned("invalid callback url: ");
            push_str(&mut m, e.as_str());
            Err(m)
        },
        Ok(pairs) => callback_params(&pairs),
    }
}

} // verus!
