//! JSON text, as `serde_json` writes it.

use crate::text::{hex_digit, lemma_cancel_prefix};
use serde_json::Value;
use vstd::prelude::*;

verus! {

/// `serde_json::Value`, any JSON value.
#[verifier::external_type_specification]
#[verifier::external_body]
pub struct ExValue(Value);

/// `serde_json::Error`, why a value could not be written or read.
#[verifier::external_type_specification]
#[verifier::external_body]
pub struct ExJsonError(serde_json::Error);

/// The compact JSON text of a value.
pub uninterp spec fn json_text(value: Value) -> Seq<char>;

/// How one character stands inside a JSON string: the quote, the backslash
/// and the control characters are escaped, every other character stands for
/// itself.
pub open spec fn json_escape(c: char) -> Seq<char> {
    if c == '"' {
        seq!['\\', '"']
    } else if c == '\\' {
        seq!['\\', '\\']
    } else if c == '\u{8}' {
        seq!['\\', 'b']
    } else if c == '\u{c}' {
        seq!['\\', 'f']
    } else if c == '\n' {
        seq!['\\', 'n']
    } else if c == '\r' {
        seq!['\\', 'r']
    } else if c == '\t' {
        seq!['\\', 't']
    } else if (c as int) < 32 {
        seq!['\\', 'u', '0', '0', hex_digit((c as int) / 16), hex_digit((c as int) % 16)]
    } else {
        seq![c]
    }
}

/// A text with each of its characters as it stands inside a JSON string.
pub open spec fn json_escaped(text: Seq<char>) -> Seq<char> {
    text.flat_map(|c: char| json_escape(c))
}

/// A text as a JSON string: its escaped characters between two quotes.
pub open spec fn json_string(text: Seq<char>) -> Seq<char> {
    seq!['"'] + json_escaped(text) + seq!['"']
}

/// `serde_json::to_string` on a `Value`: the value's compact JSON text. The
/// outside function fails only where its writer fails, where the type's own
/// `Serialize` fails, or where a map has a key that is no string. It writes
/// to a `Vec`, which takes every byte, and a `Value` writes itself as null,
/// a boolean, a number, a string, an array of values or an object keyed by
/// `String`: so the call succeeds.
#[verifier::external_body]
pub(crate) fn value_to_json(value: &Value) -> (written: Result<String, serde_json::Error>)
    ensures
        written is Ok,
        written matches Ok(text) ==> text@ == json_text(*value),
{
    serde_json::to_string(value)
}

/// `serde_json::to_string` on a `str`: the text as a JSON string. The outside
/// function hands a `str` to its string writer, which fails only where the
/// writer underneath fails; that writer is a `Vec`, which takes every byte:
/// so the call succeeds.
#[verifier::external_body]
pub(crate) fn str_to_json(text: &str) -> (written: Result<String, serde_json::Error>)
    ensures
        written is Ok,
        written matches Ok(quoted) ==> quoted@ == json_string(text@),
{
    serde_json::to_string(text)
}

/// The escaped form of a text begins with the escape of its first character.
proof fn lemma_escaped_unfold(text: Seq<char>)
    requires
        text.len() > 0,
    ensures
        json_escaped(text) == json_escape(text[0]) + json_escaped(text.drop_first()),
{
    let escape = |c: char| json_escape(c);
    assert(text.map_values(escape).drop_first() =~= text.drop_first().map_values(escape));
}

/// No escape is the beginning of another: where two of them begin the same
/// text, they are escapes of the same character.
proof fn lemma_escape_prefix_free(c: char, d: char, r1: Seq<char>, r2: Seq<char>)
    requires
        json_escape(c) + r1 == json_escape(d) + r2,
    ensures
        c == d,
{
    let text = json_escape(c) + r1;
    let (e1, e2) = (json_escape(c), json_escape(d));
    assert(text[0] == e1[0] && text[0] == e2[0]);
    if e1.len() >= 2 {
        assert(text[1] == e1[1]);
    }
    if e2.len() >= 2 {
        assert(text[1] == e2[1]);
    }
    if e1.len() == 6 && e2.len() == 6 {
        assert(text[4] == e1[4] && text[4] == e2[4]);
        assert(text[5] == e1[5] && text[5] == e2[5]);
        let (x, y) = (c as int, d as int);
        assert(x / 16 == y / 16 && x % 16 == y % 16);
        assert(c as u32 == d as u32);
    }
}

/// The end of a JSON string can be told: where two escaped texts, each with
/// the closing quote, begin the same text, they are the same, and so is what
/// follows them.
proof fn lemma_escaped_prefix_free(x: Seq<char>, y: Seq<char>, r1: Seq<char>, r2: Seq<char>)
    requires
        json_escaped(x) + seq!['"'] + r1 == json_escaped(y) + seq!['"'] + r2,
    ensures
        x == y,
        r1 == r2,
    decreases x.len(),
{
    let left = json_escaped(x) + seq!['"'] + r1;
    let right = json_escaped(y) + seq!['"'] + r2;
    if x.len() == 0 && y.len() == 0 {
        assert(left =~= seq!['"'] + r1);
        assert(right =~= seq!['"'] + r2);
        lemma_cancel_prefix(seq!['"'], r1, r2);
        assert(x =~= y);
    } else if x.len() == 0 {
        lemma_escaped_unfold(y);
        assert(left[0] == '"');
        assert(right[0] == json_escape(y[0])[0]);
    } else if y.len() == 0 {
        lemma_escaped_unfold(x);
        assert(right[0] == '"');
        assert(left[0] == json_escape(x[0])[0]);
    } else {
        lemma_escaped_unfold(x);
        lemma_escaped_unfold(y);
        let t1 = json_escaped(x.drop_first()) + seq!['"'] + r1;
        let t2 = json_escaped(y.drop_first()) + seq!['"'] + r2;
        assert(left =~= json_escape(x[0]) + t1);
        assert(right =~= json_escape(y[0]) + t2);
        lemma_escape_prefix_free(x[0], y[0], t1, t2);
        lemma_cancel_prefix(json_escape(x[0]), t1, t2);
        lemma_escaped_prefix_free(x.drop_first(), y.drop_first(), r1, r2);
        assert(x =~= seq![x[0]] + x.drop_first());
        assert(y =~= seq![y[0]] + y.drop_first());
    }
}

/// A JSON string can be read back: where two of them begin the same text,
/// they are strings of the same text, and what follows them is the same.
pub proof fn lemma_json_string_prefix_free(x: Seq<char>, y: Seq<char>, r1: Seq<char>, r2: Seq<char>)
    requires
        json_string(x) + r1 == json_string(y) + r2,
    ensures
        x == y,
        r1 == r2,
{
    let t1 = json_escaped(x) + seq!['"'] + r1;
    let t2 = json_escaped(y) + seq!['"'] + r2;
    assert(json_string(x) + r1 =~= seq!['"'] + t1);
    assert(json_string(y) + r2 =~= seq!['"'] + t2);
    lemma_cancel_prefix(seq!['"'], t1, t2);
    lemma_escaped_prefix_free(x, y, r1, r2);
}

} // verus!
