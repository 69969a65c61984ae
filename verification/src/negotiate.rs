//! The negotiator: which shape of response a classified request gets.

use crate::request::{
    classify, declared_version, has_marker, Request, RequestHead, RequestHeadView, RequestView,
};
use crate::text::same_text;
use vstd::prelude::*;

verus! {

/// The two shapes of a response that carries a page.
#[derive(Clone, Copy, Debug, PartialEq, Eq, Structural)]
pub enum PayloadKind {
    /// A whole HTML document with the page embedded in it.
    FullDocument,
    /// The page alone, as JSON.
    StructuredPayload,
}

/// What the negotiator decides.
#[derive(Debug)]
pub enum Outcome {
    /// Go on, and answer in the given shape.
    Proceed(PayloadKind),
    /// Client and server disagree on the asset version: the client has to
    /// load the given location afresh.
    Conflict(String),
}

/// An outcome as plain values.
pub enum OutcomeView {
    Proceed(PayloadKind),
    Conflict(Seq<char>),
}

impl View for Outcome {
    type V = OutcomeView;

    open spec fn view(&self) -> OutcomeView {
        match self {
            Outcome::Proceed(kind) => OutcomeView::Proceed(*kind),
            Outcome::Conflict(location) => OutcomeView::Conflict(location@),
        }
    }
}

/// Whether a method is GET. Methods are case-sensitive.
pub open spec fn is_get(method: Seq<char>) -> bool {
    method == "GET"@
}

/// Whether the client's version conflicts with the server's: the server has
/// one, and the client's is not the same. A client that declared none
/// conflicts with every server that has one.
pub open spec fn versions_conflict(client: Option<Seq<char>>, current: Option<Seq<char>>) -> bool {
    current is Some && client != current
}

/// The decision: a conflict for a GET request of the client-side runtime
/// whose version conflicts with the server's, at the request's own path;
/// else the structured payload for the client-side runtime, and the full
/// document for everyone else.
pub open spec fn negotiation(
    method: Seq<char>,
    path: Seq<char>,
    request: RequestView,
    current: Option<Seq<char>>,
) -> OutcomeView {
    if request.is_xhr && is_get(method) && versions_conflict(request.version, current) {
        OutcomeView::Conflict(path)
    } else if request.is_xhr {
        OutcomeView::Proceed(PayloadKind::StructuredPayload)
    } else {
        OutcomeView::Proceed(PayloadKind::FullDocument)
    }
}

/// Whether two optional texts are the same.
pub fn same_version(a: &Option<String>, b: &Option<String>) -> (same: bool)
    ensures
        same == (a.deep_view() == b.deep_view()),
{
    match a {
        Some(x) => match b {
            Some(y) => *x == *y,
            None => false,
        },
        None => b.is_none(),
    }
}

/// Decides the shape of the response. The decision never fails.
pub fn negotiate(method: &str, path: &str, request: &Request, current: &Option<String>) -> (outcome:
    Outcome)
    ensures
        outcome@ == negotiation(method@, path@, request@, current.deep_view()),
{
    let get = same_text(method, "GET");
    if request.is_xhr && get && current.is_some() && !same_version(&request.version, current) {
        Outcome::Conflict(path.to_owned())
    } else if request.is_xhr {
        Outcome::Proceed(PayloadKind::StructuredPayload)
    } else {
        Outcome::Proceed(PayloadKind::FullDocument)
    }
}

/// The decision on a request as it came in: the negotiation on its
/// classification.
pub open spec fn decision(head: RequestHeadView, current: Option<Seq<char>>) -> OutcomeView {
    negotiation(head.method, head.path, classify(head), current)
}

/// Classifies a request and decides the shape of the response.
pub fn decide(head: &RequestHead, current: &Option<String>) -> (decided: (Request, Outcome))
    ensures
        decided.0@ == classify(head@),
        decided.1@ == decision(head@, current.deep_view()),
{
    let request = Request::from_request_parts(head);
    let outcome = negotiate(head.method.as_str(), head.path.as_str(), &request, current);
    (request, outcome)
}

/// A request without the marker field gets the full document, whatever its
/// method, whatever version it declares and whatever version the server has.
pub proof fn lemma_unmarked_gets_full_document(head: RequestHeadView, current: Option<Seq<char>>)
    requires
        !head.fields.dom().contains("x-inertia"@),
    ensures
        decision(head, current) == OutcomeView::Proceed(PayloadKind::FullDocument),
{
}

/// A marked GET request is in conflict exactly when the server has a version
/// and the version that the request declares is not the same; a request that
/// declares none is in conflict with every server that has one, and a server
/// without a version is in conflict with no request. The conflict names the
/// path of the request; without conflict the request gets the structured
/// payload.
pub proof fn lemma_marked_get_conflicts_iff_versions_differ(
    head: RequestHeadView,
    current: Option<Seq<char>>,
)
    requires
        has_marker(head.fields),
        is_get(head.method),
    ensures
        decision(head, current) is Conflict <==> (current is Some && declared_version(head.fields)
            != current),
        current is Some && declared_version(head.fields) is None ==> decision(head, current)
            is Conflict,
        current is None ==> !(decision(head, current) is Conflict),
        decision(head, current) is Conflict ==> decision(head, current) == OutcomeView::Conflict(
            head.path,
        ),
        !(decision(head, current) is Conflict) ==> decision(head, current) == OutcomeView::Proceed(
            PayloadKind::StructuredPayload,
        ),
{
}

/// A marked request with another method than GET is never in conflict: it
/// gets the structured payload, whatever version it declares and whatever
/// version the server has.
pub proof fn lemma_marked_mutation_never_conflicts(
    head: RequestHeadView,
    current: Option<Seq<char>>,
)
    requires
        has_marker(head.fields),
        !is_get(head.method),
    ensures
        decision(head, current) == OutcomeView::Proceed(PayloadKind::StructuredPayload),
{
}

} // verus!
