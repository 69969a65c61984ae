//! The response assembler: status, header fields and body of what is sent.

use crate::headers::{
    header_fields, header_value_from_str, insert_header, is_field_name, is_printable,
    is_value_text, lemma_printable_is_value_text, new_header_map,
};
use crate::negotiate::{decision, OutcomeView, PayloadKind};
use crate::page::{payload, Page, PageView};
use crate::request::{classify, declared_version, Request, RequestHeadView, RequestView};
use http::header::{HeaderMap, HeaderValue};
use vstd::prelude::*;
use vstd::utf8::encode_utf8;

verus! {

/// A response, ready to be sent.
#[derive(Debug)]
pub struct HttpResponse {
    /// The status code.
    pub status: u16,
    /// The header fields.
    pub headers: HeaderMap<HeaderValue>,
    /// The body.
    pub body: String,
}

/// Why no response could be assembled.
#[derive(Debug)]
pub enum ResponseError {
    /// The page could not be written as JSON. No page of this library meets
    /// it: `serde_json` writes every text and every `Value`.
    Serialize(serde_json::Error),
    /// A text that a header field has to carry holds a control character.
    InvalidHeaderValue,
}

/// The fields of a response that carries a page: the content type of its
/// shape, for the structured payload the marker, and the server's version
/// where it has one.
pub open spec fn page_fields(kind: PayloadKind, version: Option<Seq<char>>) -> Map<
    Seq<char>,
    Seq<u8>,
> {
    let shaped = match kind {
        PayloadKind::StructuredPayload => Map::<Seq<char>, Seq<u8>>::empty().insert(
            "content-type"@,
            encode_utf8("application/json"@),
        ).insert("x-inertia"@, encode_utf8("true"@)),
        PayloadKind::FullDocument => Map::<Seq<char>, Seq<u8>>::empty().insert(
            "content-type"@,
            encode_utf8("text/html; charset=utf-8"@),
        ),
    };
    match version {
        Some(v) => shaped.insert("x-inertia-version"@, encode_utf8(v)),
        None => shaped,
    }
}

/// The fields of a conflict response: the location to load afresh.
pub open spec fn conflict_fields(location: Seq<char>) -> Map<Seq<char>, Seq<u8>> {
    Map::<Seq<char>, Seq<u8>>::empty().insert("x-inertia-location"@, encode_utf8(location))
}

/// Whether a version can be echoed in a header field: there is none, or it
/// holds no control character but the tab.
pub open spec fn version_fits(version: Option<Seq<char>>) -> bool {
    match version {
        Some(v) => is_value_text(v),
        None => true,
    }
}

/// Sets the field `name` to `text`, if the text can be a header value.
fn set_field(headers: &mut HeaderMap<HeaderValue>, name: &'static str, text: &str) -> (set: bool)
    requires
        is_field_name(name@),
        header_fields(*old(headers)).dom().finite(),
        header_fields(*old(headers)).dom().len() < 16,
    ensures
        set == is_value_text(text@),
        set ==> header_fields(*final(headers)) == header_fields(*old(headers)).insert(
            name@,
            encode_utf8(text@),
        ),
        !set ==> header_fields(*final(headers)) == header_fields(*old(headers)),
{
    match header_value_from_str(text) {
        Some(value) => {
            insert_header(headers, name, value);
            true
        },
        None => false,
    }
}

/// The response to a version conflict: status 409 and the one field
/// `x-inertia-location` with the location to load afresh, without a body.
/// It fails exactly when the location cannot be a header value.
pub fn conflict_response(location: &str) -> (assembled: Result<HttpResponse, ResponseError>)
    ensures
        is_value_text(location@) ==> (assembled matches Ok(response) && response.status == 409
            && header_fields(response.headers) == conflict_fields(location@) && response.body@
            == Seq::<char>::empty()),
        !is_value_text(location@) ==> assembled matches Err(ResponseError::InvalidHeaderValue),
{
    proof {
        reveal_strlit("x-inertia-location");
    }
    let mut headers = new_header_map();
    if set_field(&mut headers, "x-inertia-location", location) {
        Ok(HttpResponse { status: 409, headers, body: String::new() })
    } else {
        Err(ResponseError::InvalidHeaderValue)
    }
}

/// The response that carries a page, from its serialised payload: status 200
/// and the fields of its shape; the body is the payload itself for the
/// structured payload, and what the layout makes of the payload for the full
/// document. It fails exactly when the server's version cannot be a header
/// value.
pub fn page_response<L: Fn(String) -> String>(
    kind: PayloadKind,
    payload: String,
    version: &Option<String>,
    layout: L,
) -> (assembled: Result<HttpResponse, ResponseError>)
    requires
        call_requires(layout, (payload,)),
    ensures
        version_fits(version.deep_view()) ==> (assembled matches Ok(response) && response.status
            == 200 && header_fields(response.headers) == page_fields(kind, version.deep_view())
            && match kind {
            PayloadKind::StructuredPayload => response.body == payload,
            PayloadKind::FullDocument => call_ensures(layout, (payload,), response.body),
        }),
        !version_fits(version.deep_view()) ==> assembled matches Err(
            ResponseError::InvalidHeaderValue,
        ),
{
    proof {
        reveal_strlit("content-type");
        reveal_strlit("x-inertia");
        reveal_strlit("x-inertia-version");
        reveal_strlit("application/json");
        reveal_strlit("text/html; charset=utf-8");
        reveal_strlit("true");
        lemma_printable_is_value_text("application/json"@);
        lemma_printable_is_value_text("text/html; charset=utf-8"@);
        lemma_printable_is_value_text("true"@);
    }
    let mut headers = new_header_map();
    match version {
        Some(v) => {
            if !set_field(&mut headers, "x-inertia-version", v.as_str()) {
                return Err(ResponseError::InvalidHeaderValue);
            }
        },
        None => {},
    }
    match kind {
        PayloadKind::StructuredPayload => {
            set_field(&mut headers, "x-inertia", "true");
            set_field(&mut headers, "content-type", "application/json");
            assert(header_fields(headers) =~= page_fields(kind, version.deep_view()));
            Ok(HttpResponse { status: 200, headers, body: payload })
        },
        PayloadKind::FullDocument => {
            set_field(&mut headers, "content-type", "text/html; charset=utf-8");
            assert(header_fields(headers) =~= page_fields(kind, version.deep_view()));
            let body = layout(payload);
            Ok(HttpResponse { status: 200, headers, body })
        },
    }
}

/// What a handler answers: a page for the client that asked, and what is
/// needed to send it in the shape the client expects.
pub struct Response<L: Fn(String) -> String> {
    page: Page,
    request: Request,
    layout: L,
    version: Option<String>,
}

/// A handler's answer as plain values.
pub struct ResponseView<L> {
    pub page: PageView,
    pub request: RequestView,
    pub layout: L,
    pub version: Option<Seq<char>>,
}

impl<L: Fn(String) -> String> View for Response<L> {
    type V = ResponseView<L>;

    closed spec fn view(&self) -> ResponseView<L> {
        ResponseView {
            page: self.page@,
            request: self.request@,
            layout: self.layout,
            version: self.version.deep_view(),
        }
    }
}

/// The shape in which a classified request is answered.
pub open spec fn kind_for(request: RequestView) -> PayloadKind {
    if request.is_xhr {
        PayloadKind::StructuredPayload
    } else {
        PayloadKind::FullDocument
    }
}

impl<L: Fn(String) -> String> Response<L> {
    /// The layout takes every text; the page carries the server's version and
    /// the URL of the request.
    #[verifier::type_invariant]
    closed spec fn well_formed(self) -> bool {
        &&& forall|props: String| call_requires(self.layout, (props,))
        &&& self.page.version.deep_view() == self.version.deep_view()
        &&& self.page.url@ == self.request.url@
    }

    /// The answer to `request` with `page`, rendered by `layout` on a first
    /// visit.
    pub(crate) fn new(page: Page, request: Request, layout: L, version: Option<String>) -> (response:
        Response<L>)
        requires
            forall|props: String| call_requires(layout, (props,)),
            page.version.deep_view() == version.deep_view(),
            page.url@ == request.url@,
        ensures
            response@ == (ResponseView {
                page: page@,
                request: request@,
                layout,
                version: version.deep_view(),
            }),
    {
        Response { page, request, layout, version }
    }

    /// The page of the answer. It carries the server's version and the URL of
    /// the request.
    pub fn page(&self) -> (page: &Page)
        ensures
            page@ == self@.page,
            page@.version == self@.version,
            page@.url == self@.request.url,
    {
        proof {
            use_type_invariant(self);
        }
        &self.page
    }

    /// The request that is answered.
    pub fn request(&self) -> (request: &Request)
        ensures
            request@ == self@.request,
    {
        &self.request
    }

    /// Assembles the response: status 200 and the fields of the shape that the
    /// request asked for; the body is the payload of the page for the
    /// client-side runtime, and what the layout makes of that payload for a
    /// first visit. Assembling succeeds exactly when the server's version can
    /// be a header value, and else fails with `InvalidHeaderValue`: every
    /// page can be serialised.
    pub fn into_http(self) -> (assembled: Result<HttpResponse, ResponseError>)
        ensures
            version_fits(self@.version) ==> assembled is Ok,
            match assembled {
                Ok(response) => {
                    &&& version_fits(self@.version)
                    &&& response.status == 200
                    &&& header_fields(response.headers) == page_fields(
                        kind_for(self@.request),
                        self@.version,
                    )
                    &&& self@.request.is_xhr ==> response.body@ == payload(self@.page)
                    &&& !self@.request.is_xhr ==> exists|text: String|
                        text@ == payload(self@.page) && call_ensures(
                            self@.layout,
                            (text,),
                            response.body,
                        )
                },
                Err(ResponseError::InvalidHeaderValue) => !version_fits(self@.version),
                Err(ResponseError::Serialize(_)) => false,
            },
    {
        proof {
            use_type_invariant(&self);
        }
        let kind = if self.request.is_xhr {
            PayloadKind::StructuredPayload
        } else {
            PayloadKind::FullDocument
        };
        match self.page.to_json() {
            Ok(text) => page_response(kind, text, &self.version, self.layout),
            Err(e) => Err(ResponseError::Serialize(e)),
        }
    }
}

/// The shape that the negotiator announces is the shape in which the answer
/// is sent: where the decision on a request is to proceed, it names the
/// shape for the classified request.
pub proof fn lemma_announced_shape_is_sent(head: RequestHeadView, current: Option<Seq<char>>)
    ensures
        decision(head, current) matches OutcomeView::Proceed(kind) ==> kind == kind_for(
            classify(head),
        ),
{
}

/// A client can send back the version that it was given: where the server's
/// version is printable ASCII, the field that echoes it declares, read as a
/// request field, the same version.
pub proof fn lemma_echoed_version_reads_back(kind: PayloadKind, version: Seq<char>)
    requires
        is_printable(version),
    ensures
        version_fits(Some(version)),
        declared_version(page_fields(kind, Some(version))) == Some(version),
{
    lemma_printable_is_value_text(version);
}

/// A version conflict: the client has to load `location` afresh.
#[derive(Debug)]
pub struct Conflict {
    /// The path of the request that met the conflict.
    pub location: String,
}

impl Conflict {
    /// The response to the conflict: status 409 and the one field
    /// `x-inertia-location`, without a body. It fails exactly when the
    /// location cannot be a header value.
    pub fn into_http(self) -> (assembled: Result<HttpResponse, ResponseError>)
        ensures
            is_value_text(self.location@) ==> (assembled matches Ok(response) && response.status
                == 409 && header_fields(response.headers) == conflict_fields(self.location@)
                && response.body@ == Seq::<char>::empty()),
            !is_value_text(self.location@) ==> assembled matches Err(
                ResponseError::InvalidHeaderValue,
            ),
    {
        conflict_response(self.location.as_str())
    }
}

} // verus!
