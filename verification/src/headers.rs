//! The `http` crate's header collection, as the protocol code sees it.
//!
//! A `HeaderMap` is modelled by the map from each field name it holds, as
//! lower-case text, to the bytes of the first value stored under that name.

use http::header::{HeaderMap, HeaderValue};
use vstd::prelude::*;
use vstd::utf8::{encode_utf8, is_ascii_chars, is_ascii_chars_encode_utf8};

verus! {

/// `http::HeaderMap`, the collection of the header fields of a message.
#[verifier::external_type_specification]
#[verifier::external_body]
#[verifier::reject_recursive_types(T)]
pub struct ExHeaderMap<T>(HeaderMap<T>);

/// `http::HeaderValue`, the bytes of one header value.
#[verifier::external_type_specification]
#[verifier::external_body]
pub struct ExHeaderValue(HeaderValue);

/// The fields of a header map: each name it holds, mapped to the bytes of the
/// first value stored under it.
pub uninterp spec fn header_fields(map: HeaderMap<HeaderValue>) -> Map<Seq<char>, Seq<u8>>;

/// The bytes that a header value holds.
pub uninterp spec fn header_value_bytes(value: HeaderValue) -> Seq<u8>;

/// A character of the field names this library uses.
pub open spec fn is_name_char(c: char) -> bool {
    ('a' <= c && c <= 'z') || ('0' <= c && c <= '9') || c == '-'
}

/// A field name in the form the map stores it: short, lower-case, made of
/// letters, digits and hyphens.
pub open spec fn is_field_name(name: Seq<char>) -> bool {
    &&& 1 <= name.len() <= 64
    &&& forall|i: int| 0 <= i < name.len() ==> is_name_char(#[trigger] name[i])
}

/// A byte that may stand in a header value: no control character but the tab.
pub open spec fn is_value_byte(b: u8) -> bool {
    (b >= 32 && b != 127) || b == 9
}

/// A byte of visible ASCII, or the tab.
pub open spec fn is_visible_byte(b: u8) -> bool {
    (b >= 32 && b < 127) || b == 9
}

/// Text that can be stored as a header value.
pub open spec fn is_value_text(text: Seq<char>) -> bool {
    forall|i: int| 0 <= i < encode_utf8(text).len() ==> is_value_byte(#[trigger] encode_utf8(text)[i])
}

/// Bytes that can be read back as text.
pub open spec fn is_visible_ascii(bytes: Seq<u8>) -> bool {
    forall|i: int| 0 <= i < bytes.len() ==> is_visible_byte(#[trigger] bytes[i])
}

/// The text that ASCII bytes spell.
pub open spec fn ascii_text(bytes: Seq<u8>) -> Seq<char> {
    Seq::new(bytes.len(), |i: int| bytes[i] as char)
}

/// `HeaderMap::new`: the new map holds no field.
#[verifier::external_body]
pub(crate) fn new_header_map() -> (headers: HeaderMap<HeaderValue>)
    ensures
        header_fields(headers) =~= Map::empty(),
{
    HeaderMap::new()
}

/// `HeaderMap::insert` with a static name: afterwards the name maps to the
/// given value, whatever it mapped to before, and the other fields are as
/// they were. The outside function panics on a text that is no field name,
/// and when its table would outgrow 32768 slots, which a map of fewer than
/// sixteen names never needs.
#[verifier::external_body]
pub(crate) fn insert_header(map: &mut HeaderMap<HeaderValue>, name: &'static str, value: HeaderValue)
    requires
        is_field_name(name@),
        header_fields(*old(map)).dom().finite(),
        header_fields(*old(map)).dom().len() < 16,
    ensures
        header_fields(*final(map)) == header_fields(*old(map)).insert(
            name@,
            header_value_bytes(value),
        ),
{
    map.insert(name, value);
}

/// `HeaderMap::get` with a text name: the first value stored under the name,
/// if the map holds the name.
#[verifier::external_body]
pub(crate) fn get_header<'a>(map: &'a HeaderMap<HeaderValue>, name: &str) -> (found: Option<
    &'a HeaderValue,
>)
    requires
        is_field_name(name@),
    ensures
        found is Some <==> header_fields(*map).dom().contains(name@),
        found matches Some(value) ==> header_value_bytes(*value) == header_fields(*map)[name@],
{
    map.get(name)
}

/// `HeaderValue::from_str`: succeeds exactly on text whose UTF-8 form holds
/// no control byte but the tab, and the value then holds that UTF-8 form.
#[verifier::external_body]
pub(crate) fn header_value_from_str(text: &str) -> (value: Option<HeaderValue>)
    ensures
        value is Some <==> is_value_text(text@),
        value matches Some(v) ==> header_value_bytes(v) == encode_utf8(text@),
{
    HeaderValue::from_str(text).ok()
}

/// `HeaderValue::to_str`: succeeds exactly when every byte is visible ASCII
/// or a tab, and then yields the text those bytes spell.
#[verifier::external_body]
pub(crate) fn header_value_to_str(value: &HeaderValue) -> (text: Option<&str>)
    ensures
        text is Some <==> is_visible_ascii(header_value_bytes(*value)),
        text matches Some(s) ==> s@ == ascii_text(header_value_bytes(*value)),
{
    value.to_str().ok()
}

/// The text of the field `name`: the first value stored under the name, where
/// the map holds the name and the value is visible ASCII.
pub open spec fn field_text(fields: Map<Seq<char>, Seq<u8>>, name: Seq<char>) -> Option<Seq<char>> {
    if fields.dom().contains(name) && is_visible_ascii(fields[name]) {
        Some(ascii_text(fields[name]))
    } else {
        None
    }
}

/// Reads the field `name` as text.
pub(crate) fn header_text(map: &HeaderMap<HeaderValue>, name: &str) -> (text: Option<String>)
    requires
        is_field_name(name@),
    ensures
        text.deep_view() == field_text(header_fields(*map), name@),
{
    match get_header(map, name) {
        Some(value) => match header_value_to_str(value) {
            Some(text) => Some(text.to_owned()),
            None => None,
        },
        None => None,
    }
}

/// Text of printable ASCII: from the space to the tilde.
pub open spec fn is_printable(text: Seq<char>) -> bool {
    forall|i: int| 0 <= i < text.len() ==> ' ' <= #[trigger] text[i] <= '~'
}

/// Printable ASCII can be stored as a header value, its UTF-8 form is the
/// text itself, byte for character, and reading the value back gives the
/// text again.
pub proof fn lemma_printable_is_value_text(text: Seq<char>)
    requires
        is_printable(text),
    ensures
        is_value_text(text),
        is_visible_ascii(encode_utf8(text)),
        ascii_text(encode_utf8(text)) == text,
{
    assert(is_ascii_chars(text)) by {
        assert forall|i: int| 0 <= i < text.len() implies '\0' <= #[trigger] text[i] <= '\u{7f}' by {
            assert(' ' <= text[i] <= '~');
        }
    }
    is_ascii_chars_encode_utf8(text);
    let bytes = encode_utf8(text);
    assert forall|i: int| 0 <= i < bytes.len() implies is_value_byte(#[trigger] bytes[i])
        && is_visible_byte(bytes[i]) && bytes[i] as char == text[i] by {
        assert(' ' <= text[i] <= '~');
        assert(text[i] as u8 == bytes[i]);
    }
    assert(ascii_text(bytes) =~= text);
}

} // verus!
