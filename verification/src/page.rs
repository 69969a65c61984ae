//! The page model: what view to show, with what data, at what URL, and how it
//! is written as JSON.

use crate::json::{
    json_string, json_text, lemma_json_string_prefix_free, str_to_json, value_to_json,
};
use crate::text::lemma_cancel_prefix;
use serde_json::Value;
use vstd::prelude::*;
use vstd::utf8::encode_utf8;

verus! {

/// The description of a view that is handed to the client.
pub struct Page {
    /// The name by which the client finds the view. The server never reads it.
    pub component: &'static str,
    /// The data of the view.
    pub props: Value,
    /// Path and query of the request, as received.
    pub url: String,
    /// The asset version of the server when the page was made.
    pub version: Option<String>,
}

/// A page as plain values. The props stand as their compact JSON text.
pub struct PageView {
    pub component: Seq<char>,
    pub props: Seq<char>,
    pub url: Seq<char>,
    pub version: Option<Seq<char>>,
}

impl View for Page {
    type V = PageView;

    open spec fn view(&self) -> PageView {
        PageView {
            component: self.component@,
            props: json_text(self.props),
            url: self.url@,
            version: self.version.deep_view(),
        }
    }
}

/// The page for a component and its props, at the URL of a request, on a
/// server with the given version or none.
pub open spec fn page_of(
    component: Seq<char>,
    props: Value,
    url: Seq<char>,
    current: Option<Seq<char>>,
) -> PageView {
    PageView { component, props: json_text(props), url, version: current }
}

/// The JSON form of the version member: a string, or `null` where the server
/// has no version.
pub open spec fn version_json(version: Option<Seq<char>>) -> Seq<char> {
    match version {
        Some(v) => json_string(v),
        None => "null"@,
    }
}

/// The JSON object with the members `component`, `props`, `url` and
/// `version`, in this order, each given as JSON text.
pub open spec fn page_object(
    component: Seq<char>,
    props: Seq<char>,
    url: Seq<char>,
    version: Seq<char>,
) -> Seq<char> {
    "{\"component\":"@ + component + ",\"props\":"@ + props + ",\"url\":"@ + url
        + ",\"version\":"@ + version + "}"@
}

/// The structured payload of a page.
pub open spec fn payload(page: PageView) -> Seq<char> {
    page_object(
        json_string(page.component),
        page.props,
        json_string(page.url),
        version_json(page.version),
    )
}

/// Writes the JSON object of a page from the JSON text of its four members.
pub fn frame_page(component: &str, props: &str, url: &str, version: &str) -> (text: String)
    ensures
        text@ == page_object(component@, props@, url@, version@),
{
    let mut text = String::new();
    text.append("{\"component\":");
    text.append(component);
    text.append(",\"props\":");
    text.append(props);
    text.append(",\"url\":");
    text.append(url);
    text.append(",\"version\":");
    text.append(version);
    text.append("}");
    assert(text@ =~= page_object(component@, props@, url@, version@));
    text
}

impl Page {
    /// Serialises the page: the result is the payload of the page, for every
    /// page. `serde_json` writes each of the four members, and a text or a
    /// `Value` is always written, so the error of the result does not come.
    pub fn to_json(&self) -> (written: Result<String, serde_json::Error>)
        ensures
            written matches Ok(text) && text@ == payload(self@),
    {
        let component = match str_to_json(self.component) {
            Ok(text) => text,
            Err(e) => {
                return Err(e);
            },
        };
        let props = match value_to_json(&self.props) {
            Ok(text) => text,
            Err(e) => {
                return Err(e);
            },
        };
        let url = match str_to_json(self.url.as_str()) {
            Ok(text) => text,
            Err(e) => {
                return Err(e);
            },
        };
        let version = match &self.version {
            Some(v) => match str_to_json(v.as_str()) {
                Ok(text) => text,
                Err(e) => {
                    return Err(e);
                },
            },
            None => "null".to_owned(),
        };
        Ok(frame_page(component.as_str(), props.as_str(), url.as_str(), version.as_str()))
    }
}

/// Pages made from the same component, props and URL on a server with the
/// same version are the same, and so are their payloads, character for
/// character and byte for byte.
pub proof fn lemma_same_inputs_same_payload(
    component: Seq<char>,
    props: Value,
    url: Seq<char>,
    current: Option<Seq<char>>,
    first: PageView,
    second: PageView,
)
    requires
        first == page_of(component, props, url, current),
        second == page_of(component, props, url, current),
    ensures
        first == second,
        payload(first) == payload(second),
        encode_utf8(payload(first)) == encode_utf8(payload(second)),
{
}

/// A version can be read back from its JSON form.
proof fn lemma_version_json_injective(a: Option<Seq<char>>, b: Option<Seq<char>>)
    requires
        version_json(a) == version_json(b),
    ensures
        a == b,
{
    reveal_strlit("null");
    match (a, b) {
        (Some(x), Some(y)) => {
            assert(json_string(x) + Seq::<char>::empty() =~= json_string(x));
            assert(json_string(y) + Seq::<char>::empty() =~= json_string(y));
            lemma_json_string_prefix_free(x, y, Seq::empty(), Seq::empty());
        },
        (Some(x), None) => {
            assert(json_string(x)[0] == '"');
            assert("null"@[0] == 'n');
        },
        (None, Some(y)) => {
            assert(json_string(y)[0] == '"');
            assert("null"@[0] == 'n');
        },
        (None, None) => {},
    }
}

/// What a payload tells of its page. Two pages with the same payload have the
/// same component; if their props have the same JSON text, they also have
/// the same URL and the same version, and so are the same page.
pub proof fn lemma_payload_tells_page(a: PageView, b: PageView)
    requires
        payload(a) == payload(b),
    ensures
        a.component == b.component,
        a.props == b.props ==> a == b,
{
    let (k_component, k_props, k_url, k_version, close) = (
        "{\"component\":"@,
        ",\"props\":"@,
        ",\"url\":"@,
        ",\"version\":"@,
        "}"@,
    );
    let (va, vb) = (version_json(a.version), version_json(b.version));
    let ta = k_version + va + close;
    let tb = k_version + vb + close;
    let sa = k_url + (json_string(a.url) + ta);
    let sb = k_url + (json_string(b.url) + tb);
    let ra = k_props + a.props + sa;
    let rb = k_props + b.props + sb;
    assert(payload(a) =~= k_component + (json_string(a.component) + ra));
    assert(payload(b) =~= k_component + (json_string(b.component) + rb));
    lemma_cancel_prefix(k_component, json_string(a.component) + ra, json_string(b.component) + rb);
    lemma_json_string_prefix_free(a.component, b.component, ra, rb);
    if a.props == b.props {
        lemma_cancel_prefix(k_props + a.props, sa, sb);
        lemma_cancel_prefix(k_url, json_string(a.url) + ta, json_string(b.url) + tb);
        lemma_json_string_prefix_free(a.url, b.url, ta, tb);
        assert(ta =~= k_version + (va + close));
        assert(tb =~= k_version + (vb + close));
        lemma_cancel_prefix(k_version, va + close, vb + close);
        assert(va.len() == vb.len()) by {
            assert((va + close).len() == (vb + close).len());
        }
        assert(va =~= (va + close).subrange(0, va.len() as int));
        assert(vb =~= (vb + close).subrange(0, vb.len() as int));
        lemma_version_json_injective(a.version, b.version);
    }
}

} // verus!
