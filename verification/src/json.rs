//! JSON plumbing for the relay's two wire shapes.
//!
//! Encoding is the library's own verified logic: the upstream generation
//! request and the client-facing success body are built character by
//! character against an exact specification of JSON string escaping.
//! Decoding (finding a string field inside an arbitrary JSON document) is
//! delegated to `serde_json` behind one trusted wrapper whose result is
//! named by the uninterpreted function [`string_field_of`].

use vstd::prelude::*;
use vstd::string::StrSliceExecFns;

verus! {

/// What `serde_json` yields when a text is parsed as JSON and the given
/// field is looked up: `Some` of the field's characters when the text is a
/// valid JSON document whose top level is an object carrying the key with a
/// string value, `None` otherwise. Parsing is a function of the text alone,
/// so the result can be named even though stating it would take pages.
pub uninterp spec fn string_field_of(s: Seq<char>, key: Seq<char>) -> Option<Seq<char>>;

/// Relies on `serde_json::from_str` and `serde_json::Value::get`: parses
/// `s` as JSON and returns the string value of the top-level field `key`,
/// or `None` when `s` is not valid JSON, not an object, or the field is
/// missing or not a string. The result depends on `s` and `key` alone.
#[verifier::external_body]
pub fn json_string_field(s: &str, key: &str) -> (r: Option<String>)
    ensures
        r matches Some(t) ==> string_field_of(s@, key@) == Some(t@),
        r is None ==> string_field_of(s@, key@) is None,
{
    let parsed: Result<serde_json::Value, serde_json::Error> = serde_json::from_str(s);
    match parsed {
        Ok(v) => match v.get(key) {
            Some(serde_json::Value::String(t)) => Some(t.clone()),
            _ => None,
        },
        Err(_) => None,
    }
}

/// Relies on `String::push`: appends exactly the one character.
#[verifier::external_body]
fn push_char(out: &mut String, c: char)
    ensures
        final(out)@ == old(out)@.push(c),
{
    out.push(c);
}

/// The lower-case hexadecimal digit for a value below sixteen.
pub open spec fn hex_digit(n: int) -> char {
    if n == 0 { '0' } else if n == 1 { '1' } else if n == 2 { '2' } else if n == 3 { '3' }
    else if n == 4 { '4' } else if n == 5 { '5' } else if n == 6 { '6' } else if n == 7 { '7' }
    else if n == 8 { '8' } else if n == 9 { '9' } else if n == 10 { 'a' } else if n == 11 { 'b' }
    else if n == 12 { 'c' } else if n == 13 { 'd' } else if n == 14 { 'e' } else { 'f' }
}

fn hex_digit_exec(n: u32) -> (c: char)
    requires
        n < 16,
    ensures
        c == hex_digit(n as int),
{
    match n {
        0 => '0', 1 => '1', 2 => '2', 3 => '3',
        4 => '4', 5 => '5', 6 => '6', 7 => '7',
        8 => '8', 9 => '9', 10 => 'a', 11 => 'b',
        12 => 'c', 13 => 'd', 14 => 'e', _ => 'f',
    }
}

/// How one character appears inside a JSON string literal: quotes and
/// backslashes are escaped, the control characters with short escapes use
/// them, the remaining control characters use a `\u00XX` escape, and every
/// other character stands for itself.
pub open spec fn escape_char(c: char) -> Seq<char> {
    if c == '"' { seq!['\\', '"'] }
    else if c == '\\' { seq!['\\', '\\'] }
    else if c == '\n' { seq!['\\', 'n'] }
    else if c == '\r' { seq!['\\', 'r'] }
    else if c == '\t' { seq!['\\', 't'] }
    else if c == '\u{8}' { seq!['\\', 'b'] }
    else if c == '\u{c}' { seq!['\\', 'f'] }
    else if (c as u32) < 0x20 {
        seq!['\\', 'u', '0', '0', hex_digit((c as u32 >> 4) as int), hex_digit((c as u32 & 0xf) as int)]
    } else {
        seq![c]
    }
}

/// The body of a JSON string literal holding the characters of `s`.
pub open spec fn json_escape(s: Seq<char>) -> Seq<char>
    decreases s.len(),
{
    if s.len() == 0 {
        Seq::empty()
    } else {
        json_escape(s.drop_last()) + escape_char(s.last())
    }
}

/// The JSON string literal (quotes included) holding the characters of `s`.
pub open spec fn json_string_lit(s: Seq<char>) -> Seq<char> {
    seq!['"'] + json_escape(s) + seq!['"']
}

proof fn lemma_json_escape_step(s: Seq<char>, i: int)
    requires
        0 <= i < s.len(),
    ensures
        json_escape(s.take(i + 1)) == json_escape(s.take(i)) + escape_char(s[i]),
{
    let t = s.take(i + 1);
    assert(t.drop_last() =~= s.take(i));
    assert(t.last() == s[i]);
}

fn append_escaped_char(out: &mut String, c: char)
    ensures
        final(out)@ == old(out)@ + escape_char(c),
{
    if c == '"' {
        push_char(out, '\\');
        push_char(out, '"');
    } else if c == '\\' {
        push_char(out, '\\');
        push_char(out, '\\');
    } else if c == '\n' {
        push_char(out, '\\');
        push_char(out, 'n');
    } else if c == '\r' {
        push_char(out, '\\');
        push_char(out, 'r');
    } else if c == '\t' {
        push_char(out, '\\');
        push_char(out, 't');
    } else if c == '\u{8}' {
        push_char(out, '\\');
        push_char(out, 'b');
    } else if c == '\u{c}' {
        push_char(out, '\\');
        push_char(out, 'f');
    } else if (c as u32) < 0x20 {
        let x: u32 = c as u32;
        proof {
            assert(x >> 4 < 16 && x & 0xf < 16) by (bit_vector)
                requires
                    x < 0x20,
            ;
        }
        push_char(out, '\\');
        push_char(out, 'u');
        push_char(out, '0');
        push_char(out, '0');
        push_char(out, hex_digit_exec(x >> 4));
        push_char(out, hex_digit_exec(x & 0xf));
    } else {
        push_char(out, c);
    }
    assert(out@ =~= old(out)@ + escape_char(c));
}

/// Appends to `out` the JSON string literal (quotes and escapes included)
/// holding the characters of `s`.
pub fn append_json_string(out: &mut String, s: &str)
    ensures
        final(out)@ == old(out)@ + json_string_lit(s@),
{
    push_char(out, '"');
    let len = s.unicode_len();
    let mut i: usize = 0;
    while i < len
        invariant
            i <= len,
            len == s@.len(),
            out@ == old(out)@ + seq!['"'] + json_escape(s@.take(i as int)),
        decreases len - i,
    {
        let c = s.get_char(i);
        append_escaped_char(out, c);
        proof {
            lemma_json_escape_step(s@, i as int);
            assert(out@ =~= old(out)@ + seq!['"'] + json_escape(s@.take(i as int + 1)));
        }
        i += 1;
    }
    push_char(out, '"');
    proof {
        assert(s@.take(len as int) =~= s@);
        assert(out@ =~= old(out)@ + json_string_lit(s@));
    }
}

} // verus!
