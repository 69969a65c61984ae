//! Server side of the Inertia protocol: request classification, asset-version
//! negotiation, page serialisation and response assembly.

use crate::headers::{header_fields, is_value_text};
use crate::negotiate::{decide, decision, Outcome, OutcomeView, PayloadKind};
use crate::page::{page_of, payload, Page};
use crate::request::{classify, Request, RequestHead, RequestView};
use crate::response::{
    conflict_fields, page_fields, version_fits, Conflict, HttpResponse, Response, ResponseError,
    ResponseView,
};
use serde_json::Value;
use vstd::prelude::*;

pub mod config;
pub mod fingerprint;
pub mod headers;
pub mod html;
pub mod json;
pub mod negotiate;
pub mod page;
pub mod request;
pub mod response;
pub mod shared_props;
pub mod text;
pub mod vite;

verus! {

/// The protocol state of a server: its asset version and its layout, and,
/// once a request has come in, what the request said about itself.
pub struct Inertia<L: Fn(String) -> String> {
    request: Option<Request>,
    version: Option<String>,
    layout: L,
}

/// The state as plain values.
pub struct InertiaView<L> {
    pub request: Option<RequestView>,
    pub version: Option<Seq<char>>,
    pub layout: L,
}

impl<L: Fn(String) -> String> View for Inertia<L> {
    type V = InertiaView<L>;

    closed spec fn view(&self) -> InertiaView<L> {
        InertiaView {
            request: match self.request {
                Some(r) => Some(r@),
                None => None,
            },
            version: self.version.deep_view(),
            layout: self.layout,
        }
    }
}

impl<L: Fn(String) -> String> Inertia<L> {
    /// The layout takes every text.
    #[verifier::type_invariant]
    closed spec fn well_formed(self) -> bool {
        forall|props: String| call_requires(self.layout, (props,))
    }

    /// The state of a server with the given asset version, or none, that
    /// renders first visits with `layout`: a function from the serialised
    /// page to the HTML document that embeds it.
    pub fn new(version: Option<String>, layout: L) -> (inertia: Inertia<L>)
        requires
            forall|props: String| call_requires(layout, (props,)),
        ensures
            inertia@ == (InertiaView { request: None, version: version.deep_view(), layout }),
    {
        Inertia { request: None, version, layout }
    }

    /// The asset version of the server.
    pub fn version(&self) -> (version: &Option<String>)
        ensures
            version.deep_view() == self@.version,
    {
        &self.version
    }

    /// Attaches a classified request, in place of the one attached before.
    pub fn with_request(self, request: Request) -> (inertia: Inertia<L>)
        ensures
            inertia@ == (InertiaView { request: Some(request@), ..self@ }),
    {
        proof {
            use_type_invariant(&self);
        }
        Inertia { request: Some(request), version: self.version, layout: self.layout }
    }

    /// Takes the state apart: the attached request, the asset version and the
    /// layout.
    pub fn into_parts(self) -> (parts: (Option<Request>, Option<String>, L))
        ensures
            parts.0.is_some() == self@.request.is_some(),
            parts.0 matches Some(request) ==> Some(request@) == self@.request,
            parts.1.deep_view() == self@.version,
            parts.2 == self@.layout,
            forall|props: String| call_requires(parts.2, (props,)),
    {
        proof {
            use_type_invariant(&self);
        }
        (self.request, self.version, self.layout)
    }

    /// Takes in a request: classifies it and decides on it. On a version
    /// conflict the request is turned away with the location to load afresh;
    /// else the state goes on with the classified request attached.
    pub fn from_request_parts(self, head: &RequestHead) -> (taken: Result<Inertia<L>, Conflict>)
        ensures
            match decision(head@, self@.version) {
                OutcomeView::Conflict(location) => taken matches Err(conflict)
                    && conflict.location@ == location,
                OutcomeView::Proceed(_) => taken matches Ok(inertia) && inertia@ == (InertiaView {
                    request: Some(classify(head@)),
                    ..self@
                }),
            },
    {
        let (request, outcome) = decide(head, &self.version);
        match outcome {
            Outcome::Conflict(location) => Err(Conflict { location }),
            Outcome::Proceed(_) => Ok(self.with_request(request)),
        }
    }

    /// Answers a request from beginning to end: classifies it, decides on
    /// it, and assembles either the conflict response or the response that
    /// carries the page of the given component and props. It fails exactly
    /// when the text that a header field has to carry cannot be a header
    /// value: the location on a conflict, the server's version else.
    pub fn respond(self, head: &RequestHead, component: &'static str, props: Value) -> (assembled:
        Result<HttpResponse, ResponseError>)
        ensures
            decision(head@, self@.version) is Proceed && version_fits(self@.version)
                ==> assembled is Ok,
            match decision(head@, self@.version) {
                OutcomeView::Conflict(location) => {
                    &&& is_value_text(location) ==> (assembled matches Ok(response)
                        && response.status == 409 && header_fields(response.headers)
                        == conflict_fields(location) && response.body@ == Seq::<char>::empty())
                    &&& !is_value_text(location) ==> assembled matches Err(
                        ResponseError::InvalidHeaderValue,
                    )
                },
                OutcomeView::Proceed(kind) => match assembled {
                    Ok(response) => {
                        let page = page_of(component@, props, classify(head@).url, self@.version);
                        &&& version_fits(self@.version)
                        &&& response.status == 200
                        &&& header_fields(response.headers) == page_fields(kind, self@.version)
                        &&& kind == PayloadKind::StructuredPayload ==> response.body@ == payload(
                            page,
                        )
                        &&& kind == PayloadKind::FullDocument ==> exists|text: String|
                            text@ == payload(page) && call_ensures(
                                self@.layout,
                                (text,),
                                response.body,
                            )
                    },
                    Err(ResponseError::InvalidHeaderValue) => !version_fits(self@.version),
                    Err(ResponseError::Serialize(_)) => false,
                },
            },
    {
        match self.from_request_parts(head) {
            Ok(inertia) => inertia.render(component, props).into_http(),
            Err(conflict) => conflict.into_http(),
        }
    }

    /// Answers the attached request with a page: the given component and
    /// props, the URL of the request, and the server's version as it is now.
    pub fn render(self, component: &'static str, props: Value) -> (response: Response<L>)
        requires
            self@.request is Some,
        ensures
            response@ == (ResponseView {
                page: page_of(component@, props, self@.request->0.url, self@.version),
                request: self@.request->0,
                layout: self@.layout,
                version: self@.version,
            }),
    {
        proof {
            use_type_invariant(&self);
        }
        let request = self.request.unwrap();
        let url = request.url.clone();
        let page = Page { component, props, url, version: self.version.clone() };
        Response::new(page, request, self.layout, self.version)
    }
}

} // verus!
