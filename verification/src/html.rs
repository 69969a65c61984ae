//! HTML text, as `maud` escapes it.

use vstd::prelude::*;

verus! {

/// How one character stands in HTML text and in attribute values: the
/// ampersand, the angle brackets and the double quote are replaced by their
/// entities, every other character stands for itself.
pub open spec fn html_escape(c: char) -> Seq<char> {
    if c == '&' {
        "&amp;"@
    } else if c == '<' {
        "&lt;"@
    } else if c == '>' {
        "&gt;"@
    } else if c == '"' {
        "&quot;"@
    } else {
        seq![c]
    }
}

/// A text with each of its characters escaped.
pub open spec fn html_escaped(text: Seq<char>) -> Seq<char> {
    text.flat_map(|c: char| html_escape(c))
}

/// `maud`'s `Render::render` on a `str`: the text with `&`, `<`, `>` and `"`
/// replaced by `&amp;`, `&lt;`, `&gt;` and `&quot;`.
#[verifier::external_body]
pub(crate) fn escape_html(text: &str) -> (escaped: String)
    ensures
        escaped@ == html_escaped(text@),
{
    maud::Render::render(text).into_string()
}

} // verus!
