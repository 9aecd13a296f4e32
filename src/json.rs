//! The few questions the protocol asks of a JSON text, answered by serde_json.
//!
//! Each answer is a function of the text alone, so it is named here rather
//! than restated; the protocol's own rules are written over these names.
use vstd::prelude::*;

verus! {

/// The string held by member `key` of the JSON object that `text` holds; none
/// when `text` is not a JSON object or the member is absent or not a string.
pub uninterp spec fn json_str_member(text: Seq<char>, key: Seq<char>) -> Option<Seq<char>>;

/// The boolean held by member `key` of the JSON object that `text` holds.
pub uninterp spec fn json_bool_member(text: Seq<char>, key: Seq<char>) -> Option<bool>;

/// The compact JSON text of member `key` of the JSON object that `text` holds,
/// whatever its kind (`null` included).
pub uninterp spec fn json_member_text(text: Seq<char>, key: Seq<char>) -> Option<Seq<char>>;

/// The compact JSON texts of the elements of the array held by member `key`
/// of the JSON object that `text` holds, in order.
pub uninterp spec fn json_array_member(text: Seq<char>, key: Seq<char>) -> Option<Seq<Seq<char>>>;

/// The compact JSON text of the value that `text` holds; none when `text`
/// is not JSON.
pub uninterp spec fn json_compact(text: Seq<char>) -> Option<Seq<char>>;

/// No character of `s` is a line feed.
pub open spec fn one_line(s: Seq<char>) -> bool {
    forall|i: int| 0 <= i < s.len() ==> s[i] != '\n'
}

pub open spec fn hex_digit(d: u32) -> char {
    if d == 0 { '0' } else if d == 1 { '1' } else if d == 2 { '2' } else if d == 3 { '3' }
    else if d == 4 { '4' } else if d == 5 { '5' } else if d == 6 { '6' } else if d == 7 { '7' }
    else if d == 8 { '8' } else if d == 9 { '9' } else if d == 10 { 'a' } else if d == 11 { 'b' }
    else if d == 12 { 'c' } else if d == 13 { 'd' } else if d == 14 { 'e' } else { 'f' }
}

/// How one character stands inside a JSON string literal: quote and
/// backslash behind a backslash, the usual short escapes, other control
/// characters as `\u00xx` in lower-case hex, everything else as itself.
pub open spec fn escaped_char(c: char) -> Seq<char> {
    if c == '"' {
        seq!['\\', '"']
    } else if c == '\\' {
        seq!['\\', '\\']
    } else if c == '\u{8}' {
        seq!['\\', 'b']
    } else if c == '\t' {
        seq!['\\', 't']
    } else if c == '\n' {
        seq!['\\', 'n']
    } else if c == '\u{c}' {
        seq!['\\', 'f']
    } else if c == '\r' {
        seq!['\\', 'r']
    } else if (c as u32) < 0x20 {
        seq!['\\', 'u', '0', '0', hex_digit((c as u32) / 16), hex_digit((c as u32) % 16)]
    } else {
        seq![c]
    }
}

pub open spec fn escaped(s: Seq<char>) -> Seq<char>
    decreases s.len(),
{
    if s.len() == 0 {
        Seq::empty()
    } else {
        escaped(s.drop_last()) + escaped_char(s.last())
    }
}

/// `s` written as a JSON string literal, quotes and escapes included.
pub open spec fn json_quoted(s: Seq<char>) -> Seq<char> {
    seq!['"'] + escaped(s) + seq!['"']
}

pub proof fn lemma_one_line_concat(a: Seq<char>, b: Seq<char>)
    requires
        one_line(a),
        one_line(b),
    ensures
        one_line(a + b),
{
    assert forall|i: int| 0 <= i < (a + b).len() implies (a + b)[i] != '\n' by {
        if i >= a.len() {
            assert((a + b)[i] == b[i - a.len()]);
        }
    }
}

/// A JSON string literal never spans lines: a line feed is escaped.
pub proof fn lemma_quoted_one_line(s: Seq<char>)
    ensures
        one_line(json_quoted(s)),
{
    lemma_escaped_one_line(s);
    lemma_one_line_concat(seq!['"'], escaped(s));
    lemma_one_line_concat(seq!['"'] + escaped(s), seq!['"']);
}

proof fn lemma_escaped_one_line(s: Seq<char>)
    ensures
        one_line(escaped(s)),
    decreases s.len(),
{
    if s.len() > 0 {
        lemma_escaped_one_line(s.drop_last());
        let c = s.last();
        assert(one_line(escaped_char(c)));
        lemma_one_line_concat(escaped(s.drop_last()), escaped_char(c));
    }
}

pub open spec fn opt_view(o: Option<String>) -> Option<Seq<char>> {
    match o {
        Some(s) => Some(s@),
        None => None,
    }
}

pub open spec fn texts_view(v: Seq<String>) -> Seq<Seq<char>> {
    v.map_values(|s: String| s@)
}

/// Relies on serde_json::from_str into a serde_json::Value, then Value::get
/// and Value::as_str, to read one string member of an object.
#[verifier::external_body]
pub(crate) fn str_member(text: &str, key: &str) -> (r: Option<String>)
    ensures
        opt_view(r) == json_str_member(text@, key@),
{
    match serde_json::from_str::<serde_json::Value>(text) {
        Ok(v) => match v.get(key) {
            Some(m) => m.as_str().map(String::from),
            None => None,
        },
        Err(_) => None,
    }
}

/// Relies on serde_json::from_str into a serde_json::Value, then Value::get
/// and Value::as_bool, to read one boolean member of an object.
#[verifier::external_body]
pub(crate) fn bool_member(text: &str, key: &str) -> (r: Option<bool>)
    ensures
        r == json_bool_member(text@, key@),
{
    match serde_json::from_str::<serde_json::Value>(text) {
        Ok(v) => match v.get(key) {
            Some(m) => m.as_bool(),
            None => None,
        },
        Err(_) => None,
    }
}

/// Relies on serde_json::from_str into a serde_json::Value, then Value::get,
/// and on the Display of Value, which writes compact JSON, to hand one member
/// of an object back as text.
#[verifier::external_body]
pub(crate) fn member_text(text: &str, key: &str) -> (r: Option<String>)
    ensures
        opt_view(r) == json_member_text(text@, key@),
{
    match serde_json::from_str::<serde_json::Value>(text) {
        Ok(v) => match v.get(key) {
            Some(m) => Some(m.to_string()),
            None => None,
        },
        Err(_) => None,
    }
}

/// Relies on serde_json::from_str into a serde_json::Value, then Value::get
/// and Value::as_array, and on the Display of Value, to hand the elements of
/// one array member back as texts.
#[verifier::external_body]
pub(crate) fn array_member(text: &str, key: &str) -> (r: Option<Vec<String>>)
    ensures
        match r {
            Some(v) => json_array_member(text@, key@) == Some(texts_view(v@)),
            None => json_array_member(text@, key@).is_none(),
        },
{
    match serde_json::from_str::<serde_json::Value>(text) {
        Ok(v) => match v.get(key) {
            Some(m) => m.as_array().map(|items| items.iter().map(|i| i.to_string()).collect()),
            None => None,
        },
        Err(_) => None,
    }
}

/// Relies on serde_json::to_string of a `str`, which writes it as a JSON
/// string literal with the escapes of its serializer's table, and cannot fail
/// for a string.
#[verifier::external_body]
pub(crate) fn quote(s: &str) -> (r: String)
    ensures
        r@ == json_quoted(s@),
{
    serde_json::to_string(s).unwrap_or_default()
}

/// Relies on serde_json::from_str into a serde_json::Value and on the Display
/// of Value, which writes compact JSON: no whitespace between tokens, and a
/// line feed inside a string escaped.
#[verifier::external_body]
pub(crate) fn compact(text: &str) -> (r: Option<String>)
    ensures
        opt_view(r) == json_compact(text@),
        r matches Some(c) ==> one_line(c@),
{
    match serde_json::from_str::<serde_json::Value>(text) {
        Ok(v) => Some(v.to_string()),
        Err(_) => None,
    }
}

} // verus!
