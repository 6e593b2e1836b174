//! Row ids: UUIDs, read through the `uuid` crate and written in their
//! canonical hyphenated lower-case form.

use vstd::prelude::*;

use crate::text::push_char;

verus! {

/// What `uuid::Uuid::parse_str` gives for `text`: the UUID's 128-bit value,
/// or the parser's error message.
pub uninterp spec fn uuid_parse(text: Seq<char>) -> Result<u128, Seq<char>>;

/// Calls `uuid::Uuid::parse_str(text)`, keeping the parsed value as its
/// `u128` and an error as its message. Claimed: the outcome is a function of
/// `text` alone, named [`uuid_parse`]; nothing is claimed about which texts parse.
#[verifier::external_body]
fn parse_uuid(text: &str) -> (r: Result<u128, String>)
    ensures
        match (r, uuid_parse(text@)) {
            (Ok(a), Ok(b)) => a == b,
            (Err(a), Err(b)) => a@ == b,
            _ => false,
        },
{
    match uuid::Uuid::parse_str(text) {
        Ok(u) => Ok(u.as_u128()),
        Err(e) => Err(e.to_string()),
    }
}

/// The lower-case hexadecimal digit of `d` (`d < 16`).
pub open spec fn spec_hex_digit(d: nat) -> char {
    if d < 10 {
        ((d + 48) as char)
    } else {
        ((d - 10 + 97) as char)
    }
}

/// The `n` lowest hexadecimal digits of `v`, most significant first.
pub open spec fn spec_hex(v: nat, n: nat) -> Seq<char>
    decreases n,
{
    if n == 0 {
        Seq::empty()
    } else {
        spec_hex(v / 16, (n - 1) as nat).push(spec_hex_digit(v % 16))
    }
}

/// The canonical text of the UUID `v`: 32 lower-case hex digits grouped
/// 8-4-4-4-12 by hyphens.
pub open spec fn spec_uuid_text(v: u128) -> Seq<char> {
    let h = spec_hex(v as nat, 32);
    h.subrange(0, 8) + seq!['-'] + h.subrange(8, 12) + seq!['-'] + h.subrange(12, 16) + seq!['-']
        + h.subrange(16, 20) + seq!['-'] + h.subrange(20, 32)
}

proof fn lemma_hex_len(v: nat, n: nat)
    ensures
        spec_hex(v, n).len() == n,
    decreases n,
{
    if n > 0 {
        lemma_hex_len(v / 16, (n - 1) as nat);
    }
}

fn hex_digit(d: u128) -> (c: char)
    requires
        d < 16,
    ensures
        c == spec_hex_digit(d as nat),
{
    if d == 0 {
        '0'
    } else if d == 1 {
        '1'
    } else if d == 2 {
        '2'
    } else if d == 3 {
        '3'
    } else if d == 4 {
        '4'
    } else if d == 5 {
        '5'
    } else if d == 6 {
        '6'
    } else if d == 7 {
        '7'
    } else if d == 8 {
        '8'
    } else if d == 9 {
        '9'
    } else if d == 10 {
        'a'
    } else if d == 11 {
        'b'
    } else if d == 12 {
        'c'
    } else if d == 13 {
        'd'
    } else if d == 14 {
        'e'
    } else {
        'f'
    }
}

fn hex_digits(v: u128, n: u32) -> (r: Vec<char>)
    ensures
        r@ == spec_hex(v as nat, n as nat),
    decreases n,
{
    if n == 0 {
        Vec::new()
    } else {
        let mut r = hex_digits(v / 16, n - 1);
        r.push(hex_digit(v % 16));
        r
    }
}

fn push_range(out: &mut String, h: &Vec<char>, from: usize, to: usize)
    requires
        from <= to <= h@.len(),
    ensures
        final(out)@ == old(out)@ + h@.subrange(from as int, to as int),
{
    let mut i = from;
    while i < to
        invariant
            from <= i <= to <= h@.len(),
            out@ == old(out)@ + h@.subrange(from as int, i as int),
        decreases to - i,
    {
        push_char(out, h[i]);
        assert(h@.subrange(from as int, i as int).push(h@[i as int]) =~= h@.subrange(from as int, i + 1));
        i = i + 1;
    }
}

/// The canonical text of the UUID `v`, as `Uuid::to_string` writes it.
pub fn uuid_text(v: u128) -> (s: String)
    ensures
        s@ == spec_uuid_text(v),
{
    proof {
        lemma_hex_len(v as nat, 32);
    }
    let h = hex_digits(v, 32);
    let mut s = String::new();
    push_range(&mut s, &h, 0, 8);
    push_char(&mut s, '-');
    push_range(&mut s, &h, 8, 12);
    push_char(&mut s, '-');
    push_range(&mut s, &h, 12, 16);
    push_char(&mut s, '-');
    push_range(&mut s, &h, 16, 20);
    push_char(&mut s, '-');
    push_range(&mut s, &h, 20, 32);
    assert(s@ =~= spec_uuid_text(v));
    s
}

/// `text` read as a UUID and written back canonically, or the parser's message.
pub fn canonical_id(text: &str) -> (r: Result<String, String>)
    ensures
        match uuid_parse(text@) {
            Ok(v) => r matches Ok(s) && s@ == spec_uuid_text(v),
            Err(m) => r matches Err(e) && e@ == m,
        },
{
    match parse_uuid(text) {
        Ok(v) => Ok(uuid_text(v)),
        Err(m) => Err(m),
    }
}

} // verus!
