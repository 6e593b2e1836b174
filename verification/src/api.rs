//! The server's request-level rules: how failures become statuses, how an
//! optional filter document is read, and where the database lives.

use vstd::prelude::*;

use crate::auth::{Code, Status};
use crate::json::{check_json, json_problem};
use crate::text::{owned, push_str, seq_contains, str_contains};

verus! {

/// The lower-case form of `s`, as `str::to_lowercase` gives it.
pub uninterp spec fn lowercase(s: Seq<char>) -> Seq<char>;

/// Calls `str::to_lowercase`. Claimed: the result is a function of `s` alone
/// (Unicode's lower-case mapping, the same on every machine), named [`lowercase`].
#[verifier::external_body]
fn to_lower(s: &str) -> (r: String)
    ensures
        r@ == lowercase(s@),
{
    s.to_lowercase()
}

/// The status code a failure message is reported with: "not found" anywhere
/// in it, ignoring case, is `NotFound`; else "no token" or "unauthor" is
/// `Unauthenticated`; anything else is `Internal`.
pub open spec fn status_code_for(msg: Seq<char>) -> Code {
    let lower = lowercase(msg);
    if seq_contains(lower, "not found"@) {
        Code::NotFound
    } else if seq_contains(lower, "no token"@) || seq_contains(lower, "unauthor"@) {
        Code::Unauthenticated
    } else {
        Code::Internal
    }
}

/// The status a failed operation is answered with; its message is kept whole.
pub fn to_status(msg: String) -> (r: Status)
    ensures
        r.code == status_code_for(msg@),
        r.message == msg,
{
    let lower = to_lower(msg.as_str());
    let code = if str_contains(lower.as_str(), "not found") {
        Code::NotFound
    } else if str_contains(lower.as_str(), "no token") || str_contains(lower.as_str(), "unauthor") {
        Code::Unauthenticated
    } else {
        Code::Internal
    };
    Status { code, message: msg }
}

/// An optional filter document: absent or empty means none (the service then
/// uses `{}`); anything else must be JSON.
pub fn parse_optional_json(s: Option<String>) -> (r: Result<Option<String>, Status>)
    ensures
        match s {
            None => r == Ok::<Option<String>, Status>(None),
            Some(t) => if t@.len() == 0 {
                r == Ok::<Option<String>, Status>(None)
            } else {
                match json_problem(t@) {
                    None => r == Ok::<Option<String>, Status>(Some(t)),
                    Some(m) => (r matches Err(st) && st.code == Code::InvalidArgument
                        && st.message@ == "invalid filter_json: "@ + m),
                }
            },
        },
{
    match s {
        None => Ok(None),
        Some(t) => {
            if t.unicode_len() == 0 {
                Ok(None)
            } else {
                match check_json(t.as_str()) {
                    Ok(()) => Ok(Some(t)),
                    Err(m) => {
                        let mut message = owned("invalid filter_json: ");
                        push_str(&mut message, m.as_str());
                        Err(Status { code: Code::InvalidArgument, message })
                    },
                }
            }
        },
    }
}

/// The SQLite URL for a database file, created when missing.
pub fn db_url_for_path(path: &str) -> (r: String)
    ensures
        r@ == "sqlite://"@ + path@ + "?mode=rwc"@,
{
    let mut r = owned("sqlite://");
    push_str(&mut r, path);
    push_str(&mut r, "?mode=rwc");
    r
}

/// The database URL a setting names: a value holding `://` is a URL and used
/// as it is; anything else is a SQLite file path.
pub fn db_url_from_setting(setting: &str) -> (r: String)
    ensures
        r@ == if seq_contains(setting@, "://"@) {
            setting@
        } else {
            "sqlite://"@ + setting@ + "?mode=rwc"@
        },
{
    if str_contains(setting, "://") {
        owned(setting)
    } else {
        db_url_for_path(setting)
    }
}

} // verus!
