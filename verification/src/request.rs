//! The request classifier: what a request says about itself to the protocol.

use crate::headers::{field_text, header_fields, header_text};
use crate::text::same_text;
use http::header::{HeaderMap, HeaderValue};
use vstd::prelude::*;

verus! {

/// What the classifier reads of an inbound request.
pub struct RequestHead {
    /// The method, as the request line spells it.
    pub method: String,
    /// The path of the request target.
    pub path: String,
    /// The query of the request target, without the question mark.
    pub query: Option<String>,
    /// The header fields.
    pub headers: HeaderMap<HeaderValue>,
}

/// A request head as plain values.
pub struct RequestHeadView {
    pub method: Seq<char>,
    pub path: Seq<char>,
    pub query: Option<Seq<char>>,
    pub fields: Map<Seq<char>, Seq<u8>>,
}

impl View for RequestHead {
    type V = RequestHeadView;

    open spec fn view(&self) -> RequestHeadView {
        RequestHeadView {
            method: self.method@,
            path: self.path@,
            query: self.query.deep_view(),
            fields: header_fields(self.headers),
        }
    }
}

/// A classified request.
#[derive(Clone, Debug)]
pub struct Request {
    /// Whether the client-side runtime sent the request.
    pub is_xhr: bool,
    /// The asset version the client declared, if it declared one.
    pub version: Option<String>,
    /// Path and query of the request, as received.
    pub url: String,
}

/// A classified request as plain values.
pub struct RequestView {
    pub is_xhr: bool,
    pub version: Option<Seq<char>>,
    pub url: Seq<char>,
}

impl View for Request {
    type V = RequestView;

    open spec fn view(&self) -> RequestView {
        RequestView { is_xhr: self.is_xhr, version: self.version.deep_view(), url: self.url@ }
    }
}

/// The request target: the path, and after a question mark the query, where
/// there is one.
pub open spec fn target(path: Seq<char>, query: Option<Seq<char>>) -> Seq<char> {
    match query {
        Some(q) => path + "?"@ + q,
        None => path,
    }
}

/// The marker that the fields carry: the text of `x-inertia`. The map holds
/// its names in lower case, however the request spelled them.
pub open spec fn marker(fields: Map<Seq<char>, Seq<u8>>) -> Option<Seq<char>> {
    field_text(fields, "x-inertia"@)
}

/// Whether the fields carry the marker of the client-side runtime: the field
/// `x-inertia` with the value `true`.
pub open spec fn has_marker(fields: Map<Seq<char>, Seq<u8>>) -> bool {
    marker(fields) == Some("true"@)
}

/// The version that the fields declare: the text of `x-inertia-version`.
pub open spec fn declared_version(fields: Map<Seq<char>, Seq<u8>>) -> Option<Seq<char>> {
    field_text(fields, "x-inertia-version"@)
}

/// The classification of a request by what it says: it is of the
/// client-side runtime if its marker reads `true`, it declares the version
/// that it gives, as it gives it, and its URL is its target.
pub open spec fn classify_texts(
    marker: Option<Seq<char>>,
    version: Option<Seq<char>>,
    path: Seq<char>,
    query: Option<Seq<char>>,
) -> RequestView {
    RequestView { is_xhr: marker == Some("true"@), version, url: target(path, query) }
}

/// The classification of a request head: that of the texts of its fields
/// `x-inertia` and `x-inertia-version`, its path and its query.
pub open spec fn classify(head: RequestHeadView) -> RequestView {
    classify_texts(
        marker(head.fields),
        declared_version(head.fields),
        head.path,
        head.query,
    )
}

impl Request {
    /// Classifies a request by the text of its marker, the version it
    /// declares, its path and its query.
    pub fn from_texts(
        marker: Option<String>,
        version: Option<String>,
        path: &str,
        query: &Option<String>,
    ) -> (request: Request)
        ensures
            request@ == classify_texts(
                marker.deep_view(),
                version.deep_view(),
                path@,
                query.deep_view(),
            ),
    {
        let is_xhr = match &marker {
            Some(text) => same_text(text.as_str(), "true"),
            None => false,
        };
        let mut url = path.to_owned();
        match query {
            Some(q) => {
                url.append("?");
                url.append(q.as_str());
            },
            None => {},
        }
        Request { is_xhr, version, url }
    }

    /// Classifies a request. Any request can be classified: one without
    /// protocol headers is an ordinary first visit.
    pub fn from_request_parts(head: &RequestHead) -> (request: Request)
        ensures
            request@ == classify(head@),
    {
        proof {
            reveal_strlit("x-inertia");
            reveal_strlit("x-inertia-version");
        }
        let marker = header_text(&head.headers, "x-inertia");
        let version = header_text(&head.headers, "x-inertia-version");
        Request::from_texts(marker, version, head.path.as_str(), &head.query)
    }
}

} // verus!
