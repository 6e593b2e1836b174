//! Flat JSON objects of strings, integers and nulls, written and read through
//! `serde_json`, and the typed reading of their fields.

use vstd::prelude::*;

use crate::error::CoreError;
use crate::text::{opt_string, owned, push_str, str_eq};

verus! {

/// A value written into a flat JSON object.
#[derive(Debug, PartialEq, Eq)]
pub enum JsonScalar {
    Str(String),
    Int(i64),
    Null,
}

/// A value read out of a JSON object; any other kind of JSON value is `Other`.
#[derive(Debug, PartialEq, Eq)]
pub enum JsonRead {
    Str(String),
    Int(i64),
    Null,
    Other,
}

/// The abstract value of a field.
pub enum JsonView {
    Str(Seq<char>),
    Int(int),
    Null,
    Other,
}

pub open spec fn scalar_view(v: JsonScalar) -> JsonView {
    match v {
        JsonScalar::Str(s) => JsonView::Str(s@),
        JsonScalar::Int(i) => JsonView::Int(i as int),
        JsonScalar::Null => JsonView::Null,
    }
}

pub open spec fn read_view(v: JsonRead) -> JsonView {
    match v {
        JsonRead::Str(s) => JsonView::Str(s@),
        JsonRead::Int(i) => JsonView::Int(i as int),
        JsonRead::Null => JsonView::Null,
        JsonRead::Other => JsonView::Other,
    }
}

/// The view of an optional string as a field value: the string, or null.
pub open spec fn opt_field(o: Option<String>) -> JsonView {
    match o {
        Some(s) => JsonView::Str(s@),
        None => JsonView::Null,
    }
}

pub open spec fn written_view(f: Seq<(String, JsonScalar)>) -> Seq<(Seq<char>, JsonView)> {
    Seq::new(f.len(), |i: int| (f[i].0@, scalar_view(f[i].1)))
}

pub open spec fn entries_view(f: Seq<(String, JsonRead)>) -> Seq<(Seq<char>, JsonView)> {
    Seq::new(f.len(), |i: int| (f[i].0@, read_view(f[i].1)))
}

/// The object a list of fields makes: a later field overrides an earlier one
/// of the same name.
pub open spec fn object_of(f: Seq<(Seq<char>, JsonView)>) -> Map<Seq<char>, JsonView>
    decreases f.len(),
{
    if f.len() == 0 {
        Map::empty()
    } else {
        object_of(f.drop_last()).insert(f.last().0, f.last().1)
    }
}

/// The text `serde_json` writes for the object with these fields.
pub uninterp spec fn json_object_text(fields: Seq<(Seq<char>, JsonView)>) -> Seq<char>;

/// What reading `text` with `serde_json` gives: the object's fields, `None`
/// when it is JSON but no object, or the parser's error message.
pub uninterp spec fn json_object_read(text: Seq<char>) -> Result<Option<Map<Seq<char>, JsonView>>, Seq<char>>;

/// Builds a `serde_json::Map` of the fields (a later one replacing an earlier
/// one of the same name) and writes it with `to_string`. Claimed: the text is
/// a function of the fields alone, named [`json_object_text`], and, as
/// serde_json's values promise, reading it back gives that object.
#[verifier::external_body]
pub(crate) fn write_object(fields: &Vec<(String, JsonScalar)>) -> (r: String)
    ensures
        r@ == json_object_text(written_view(fields@)),
        match json_object_read(r@) {
            Ok(Some(m)) => m == object_of(written_view(fields@)),
            _ => false,
        },
{
    let mut m = serde_json::Map::new();
    for (k, v) in fields.iter() {
        let value = match v {
            JsonScalar::Str(s) => serde_json::Value::from(s.as_str()),
            JsonScalar::Int(i) => serde_json::Value::from(*i),
            JsonScalar::Null => serde_json::Value::Null,
        };
        m.insert(k.clone(), value);
    }
    serde_json::Value::Object(m).to_string()
}

/// Reads `text` with `serde_json::from_str::<serde_json::Value>` and lists an
/// object's fields, strings, nulls and `i64` numbers as they are and any other
/// value as `Other`. Claimed: the outcome is a function of `text` alone, named
/// [`json_object_read`].
#[verifier::external_body]
pub(crate) fn read_object(text: &str) -> (r: Result<Option<Vec<(String, JsonRead)>>, String>)
    ensures
        match (r, json_object_read(text@)) {
            (Ok(Some(v)), Ok(Some(m))) => object_of(entries_view(v@)) == m,
            (Ok(None), Ok(None)) => true,
            (Err(a), Err(b)) => a@ == b,
            _ => false,
        },
{
    let m = match serde_json::from_str::<serde_json::Value>(text) {
        Ok(serde_json::Value::Object(m)) => m,
        Ok(_) => return Ok(None),
        Err(e) => return Err(e.to_string()),
    };
    let mut out = Vec::new();
    for (k, v) in m {
        out.push((k, match v {
            serde_json::Value::String(s) => JsonRead::Str(s),
            serde_json::Value::Null => JsonRead::Null,
            serde_json::Value::Number(n) => n.as_i64().map_or(JsonRead::Other, JsonRead::Int),
            _ => JsonRead::Other,
        }));
    }
    Ok(Some(out))
}

fn copy_read(v: &JsonRead) -> (r: JsonRead)
    ensures
        r == *v,
{
    match v {
        JsonRead::Str(s) => JsonRead::Str(s.clone()),
        JsonRead::Int(i) => JsonRead::Int(*i),
        JsonRead::Null => JsonRead::Null,
        JsonRead::Other => JsonRead::Other,
    }
}

/// The value of the field `key`, if the entries have one (the last wins).
fn lookup(entries: &Vec<(String, JsonRead)>, key: &str) -> (r: Option<JsonRead>)
    ensures
        object_of(entries_view(entries@)).contains_key(key@) <==> r is Some,
        r matches Some(v) ==> read_view(v) == object_of(entries_view(entries@))[key@],
{
    let mut found: Option<JsonRead> = None;
    let mut i: usize = 0;
    while i < entries.len()
        invariant
            i <= entries@.len(),
            object_of(entries_view(entries@.take(i as int))).contains_key(key@) <==> found is Some,
            found matches Some(v) ==> read_view(v) == object_of(entries_view(entries@.take(i as int)))[key@],
        decreases entries.len() - i,
    {
        proof {
            let prev = entries_view(entries@.take(i as int));
            let next = entries_view(entries@.take(i + 1));
            assert(next.drop_last() =~= prev);
            assert(next.last() == (entries@[i as int].0@, read_view(entries@[i as int].1)));
        }
        if str_eq(entries[i].0.as_str(), key) {
            found = Some(copy_read(&entries[i].1));
        }
        i = i + 1;
    }
    proof {
        assert(entries@.take(entries@.len() as int) =~= entries@);
    }
    found
}

/// A string field: present and a string.
pub open spec fn req_str(m: Map<Seq<char>, JsonView>, k: Seq<char>) -> Option<Seq<char>> {
    if m.contains_key(k) {
        match m[k] {
            JsonView::Str(s) => Some(s),
            _ => None,
        }
    } else {
        None
    }
}

/// An optional string field: absent or null is none, a string is some.
pub open spec fn opt_str_field(m: Map<Seq<char>, JsonView>, k: Seq<char>) -> Option<Option<Seq<char>>> {
    if m.contains_key(k) {
        match m[k] {
            JsonView::Str(s) => Some(Some(s)),
            JsonView::Null => Some(None),
            _ => None,
        }
    } else {
        Some(None)
    }
}

/// An integer field: present and a 64-bit integer.
pub open spec fn req_int(m: Map<Seq<char>, JsonView>, k: Seq<char>) -> Option<int> {
    if m.contains_key(k) {
        match m[k] {
            JsonView::Int(i) => Some(i),
            _ => None,
        }
    } else {
        None
    }
}

/// The error naming a field that is missing or of the wrong type.
pub open spec fn field_error(m: Map<Seq<char>, JsonView>, k: Seq<char>) -> Seq<char> {
    if m.contains_key(k) {
        "invalid type for field `"@ + k + "`"@
    } else {
        "missing field `"@ + k + "`"@
    }
}

fn field_err(present: bool, key: &str) -> (e: CoreError)
    ensures
        e matches CoreError::Serde(m) && m@ == (if present {
            "invalid type for field `"@ + key@ + "`"@
        } else {
            "missing field `"@ + key@ + "`"@
        }),
{
    let mut m = if present {
        owned("invalid type for field `")
    } else {
        owned("missing field `")
    };
    push_str(&mut m, key);
    push_str(&mut m, "`");
    CoreError::Serde(m)
}

/// Read the string field `key`.
pub fn get_str(entries: &Vec<(String, JsonRead)>, key: &str) -> (r: Result<String, CoreError>)
    ensures
        match req_str(object_of(entries_view(entries@)), key@) {
            Some(s) => r matches Ok(x) && x@ == s,
            None => r matches Err(CoreError::Serde(e)) && e@ == field_error(object_of(entries_view(entries@)), key@),
        },
{
    match lookup(entries, key) {
        Some(JsonRead::Str(s)) => Ok(s),
        Some(_) => Err(field_err(true, key)),
        None => Err(field_err(false, key)),
    }
}

/// Read the optional string field `key`.
pub fn get_opt_str(entries: &Vec<(String, JsonRead)>, key: &str) -> (r: Result<Option<String>, CoreError>)
    ensures
        match opt_str_field(object_of(entries_view(entries@)), key@) {
            Some(s) => r matches Ok(x) && opt_string(x) == s,
            None => r matches Err(CoreError::Serde(e)) && e@ == field_error(object_of(entries_view(entries@)), key@),
        },
{
    match lookup(entries, key) {
        Some(JsonRead::Str(s)) => Ok(Some(s)),
        Some(JsonRead::Null) => Ok(None),
        Some(_) => Err(field_err(true, key)),
        None => Ok(None),
    }
}

/// Read the integer field `key`.
pub fn get_int(entries: &Vec<(String, JsonRead)>, key: &str) -> (r: Result<i64, CoreError>)
    ensures
        match req_int(object_of(entries_view(entries@)), key@) {
            Some(i) => r matches Ok(x) && x == i,
            None => r matches Err(CoreError::Serde(e)) && e@ == field_error(object_of(entries_view(entries@)), key@),
        },
{
    match lookup(entries, key) {
        Some(JsonRead::Int(i)) => Ok(i),
        Some(_) => Err(field_err(true, key)),
        None => Err(field_err(false, key)),
    }
}

/// The field value of an optional string: the string, or null.
pub fn opt_scalar(o: &Option<String>) -> (r: JsonScalar)
    ensures
        scalar_view(r) == opt_field(*o),
{
    match o {
        Some(s) => JsonScalar::Str(s.clone()),
        None => JsonScalar::Null,
    }
}

/// A named field.
pub fn field(key: &str, v: JsonScalar) -> (r: (String, JsonScalar))
    ensures
        r.0@ == key@,
        r.1 == v,
{
    (owned(key), v)
}

} // verus!
