use axum_inertia::negotiate::{decide, negotiate, Outcome, PayloadKind};
use axum_inertia::request::{Request, RequestHead};
use axum_inertia::response::{conflict_response, page_response, HttpResponse, ResponseError};
use axum_inertia::Inertia;
use http::header::{HeaderMap, HeaderValue};
use serde_json::Value;

fn layout(props: String) -> String {
    format!(r#"<html><body><div id="app" data-page='{}'></div>"#, props)
}

fn head(method: &str, path: &str, query: Option<&str>, fields: &[(&'static str, &str)]) -> RequestHead {
    let mut headers = HeaderMap::new();
    for (name, value) in fields {
        headers.insert(*name, HeaderValue::from_str(value).unwrap());
    }
    RequestHead {
        method: method.to_string(),
        path: path.to_string(),
        query: query.map(|q| q.to_string()),
        headers,
    }
}

fn bar_baz() -> Value {
    let mut props = serde_json::Map::new();
    props.insert("bar".to_string(), Value::String("baz".to_string()));
    Value::Object(props)
}

fn field<'a>(response: &'a HttpResponse, name: &str) -> Option<&'a str> {
    response.headers.get(name).map(|h| h.to_str().unwrap())
}

fn serve(version: Option<&str>, head: &RequestHead) -> HttpResponse {
    let inertia = Inertia::new(version.map(|v| v.to_string()), layout);
    match inertia.from_request_parts(head) {
        Ok(inertia) => inertia.render("foo!", bar_baz()).into_http().unwrap(),
        Err(conflict) => conflict.into_http().unwrap(),
    }
}

#[test]
fn it_works() {
    let res = serve(Some("123"), &head("GET", "/test", None, &[]));
    assert_eq!(res.status, 200);
    assert_eq!(field(&res, "X-Inertia-Version"), Some("123"));
}

#[test]
fn it_responds_with_conflict_on_version_mismatch() {
    let res = serve(
        Some("123"),
        &head("GET", "/test", None, &[("X-Inertia", "true"), ("X-Inertia-Version", "456")]),
    );
    assert_eq!(res.status, 409);
    assert_eq!(field(&res, "X-Inertia-Location"), Some("/test"));
}

#[test]
fn first_visit_gets_the_document_with_the_page_embedded() {
    let res = serve(Some("123"), &head("GET", "/test", None, &[]));
    assert_eq!(res.status, 200);
    assert_eq!(field(&res, "content-type"), Some("text/html; charset=utf-8"));
    assert_eq!(field(&res, "x-inertia"), None);
    assert_eq!(
        res.body,
        r#"<html><body><div id="app" data-page='{"component":"foo!","props":{"bar":"baz"},"url":"/test","version":"123"}'></div>"#
    );
}

#[test]
fn matching_version_gets_the_structured_payload() {
    let res = serve(
        Some("123"),
        &head("GET", "/test", None, &[("X-Inertia", "true"), ("X-Inertia-Version", "123")]),
    );
    assert_eq!(res.status, 200);
    assert_eq!(field(&res, "x-inertia-version"), Some("123"));
    assert_eq!(field(&res, "x-inertia"), Some("true"));
    assert_eq!(field(&res, "content-type"), Some("application/json"));
    assert_eq!(
        res.body,
        r#"{"component":"foo!","props":{"bar":"baz"},"url":"/test","version":"123"}"#
    );
}

#[test]
fn conflict_has_one_field_and_no_body() {
    let res = serve(
        Some("123"),
        &head("GET", "/test", Some("page=2"), &[("X-Inertia", "true"), ("X-Inertia-Version", "456")]),
    );
    assert_eq!(res.status, 409);
    assert_eq!(res.headers.len(), 1);
    assert_eq!(field(&res, "x-inertia-location"), Some("/test"));
    assert_eq!(res.body, "");
}

#[test]
fn post_with_stale_version_proceeds() {
    let res = serve(
        Some("123"),
        &head("POST", "/test", None, &[("X-Inertia", "true"), ("X-Inertia-Version", "456")]),
    );
    assert_eq!(res.status, 200);
    assert_eq!(field(&res, "x-inertia"), Some("true"));
    assert_eq!(
        res.body,
        r#"{"component":"foo!","props":{"bar":"baz"},"url":"/test","version":"123"}"#
    );
}

#[test]
fn server_without_version_never_conflicts() {
    for client in [None, Some("456"), Some("")] {
        let mut fields = vec![("X-Inertia", "true")];
        if let Some(v) = client {
            fields.push(("X-Inertia-Version", v));
        }
        let res = serve(None, &head("GET", "/test", None, &fields));
        assert_eq!(res.status, 200);
        assert_eq!(field(&res, "x-inertia-version"), None);
        assert_eq!(field(&res, "x-inertia"), Some("true"));
        assert_eq!(
            res.body,
            r#"{"component":"foo!","props":{"bar":"baz"},"url":"/test","version":null}"#
        );
        let parsed: Value = serde_json::from_str(&res.body).unwrap();
        assert_eq!(parsed["version"], Value::Null);
    }
}

#[test]
fn classifier_reads_marker_version_and_target() {
    let request = Request::from_request_parts(&head(
        "GET",
        "/posts",
        Some("page=2&sort=asc"),
        &[("x-inertia", "true"), ("x-inertia-version", "abc")],
    ));
    assert!(request.is_xhr);
    assert_eq!(request.version.as_deref(), Some("abc"));
    assert_eq!(request.url, "/posts?page=2&sort=asc");
}

#[test]
fn classifier_accepts_a_request_without_protocol_fields() {
    let request = Request::from_request_parts(&head("GET", "/", None, &[("accept", "text/html")]));
    assert!(!request.is_xhr);
    assert_eq!(request.version, None);
    assert_eq!(request.url, "/");
}

#[test]
fn marker_counts_only_when_true() {
    for value in ["false", "1", "TRUE", "True", "", " true", "yes"] {
        let request = Request::from_request_parts(&head("GET", "/", None, &[("x-inertia", value)]));
        assert!(!request.is_xhr, "{:?}", value);
    }
    let request = Request::from_request_parts(&head("GET", "/", None, &[("X-INERTIA", "true")]));
    assert!(request.is_xhr);
}

#[test]
fn marker_reads_the_first_of_several_values() {
    let mut h = head("GET", "/", None, &[("x-inertia", "true")]);
    h.headers.append("x-inertia", HeaderValue::from_static("false"));
    assert!(Request::from_request_parts(&h).is_xhr);
    let mut h = head("GET", "/", None, &[("x-inertia", "false")]);
    h.headers.append("x-inertia", HeaderValue::from_static("true"));
    assert!(!Request::from_request_parts(&h).is_xhr);
}

#[test]
fn version_that_is_not_visible_ascii_counts_as_absent() {
    let mut h = head("GET", "/", None, &[("x-inertia", "true")]);
    h.headers.insert("x-inertia-version", HeaderValue::from_bytes(b"v\xe9").unwrap());
    let request = Request::from_request_parts(&h);
    assert_eq!(request.version, None);
    let mut h = head("GET", "/", None, &[]);
    h.headers.insert("x-inertia", HeaderValue::from_bytes(b"true\xff").unwrap());
    assert!(!Request::from_request_parts(&h).is_xhr);
    let h = head("GET", "/", None, &[("x-inertia-version", "a\tb")]);
    assert_eq!(Request::from_request_parts(&h).version.as_deref(), Some("a\tb"));
}

fn classified(is_xhr: bool, version: Option<&str>) -> Request {
    Request { is_xhr, version: version.map(|v| v.to_string()), url: "/here?x=1".to_string() }
}

fn current(version: Option<&str>) -> Option<String> {
    version.map(|v| v.to_string())
}

#[test]
fn unmarked_request_gets_full_document_whatever_the_versions() {
    for method in ["GET", "POST", "PUT", "DELETE"] {
        for client in [None, Some("1"), Some("2")] {
            for server in [None, Some("1"), Some("2")] {
                let outcome = negotiate(method, "/here", &classified(false, client), &current(server));
                assert!(matches!(outcome, Outcome::Proceed(PayloadKind::FullDocument)));
            }
        }
    }
}

#[test]
fn marked_get_conflicts_exactly_when_versions_differ() {
    for client in [None, Some("1"), Some("2"), Some("")] {
        for server in [None, Some("1"), Some("2"), Some("")] {
            let outcome = negotiate("GET", "/here", &classified(true, client), &current(server));
            if server.is_some() && client != server {
                match outcome {
                    Outcome::Conflict(location) => assert_eq!(location, "/here"),
                    other => panic!("{:?}", other),
                }
            } else {
                assert!(matches!(outcome, Outcome::Proceed(PayloadKind::StructuredPayload)));
            }
        }
    }
}

#[test]
fn marked_mutation_never_conflicts() {
    for method in ["POST", "PUT", "PATCH", "DELETE", "get", "Get", ""] {
        for client in [None, Some("1"), Some("2")] {
            for server in [None, Some("1"), Some("2")] {
                let outcome = negotiate(method, "/here", &classified(true, client), &current(server));
                assert!(matches!(outcome, Outcome::Proceed(PayloadKind::StructuredPayload)));
            }
        }
    }
}

#[test]
fn decide_classifies_then_negotiates() {
    let h = head("GET", "/a", Some("b=c"), &[("x-inertia", "true"), ("x-inertia-version", "1")]);
    let (request, outcome) = decide(&h, &Some("2".to_string()));
    assert!(request.is_xhr);
    assert_eq!(request.url, "/a?b=c");
    match outcome {
        Outcome::Conflict(location) => assert_eq!(location, "/a"),
        other => panic!("{:?}", other),
    }
    let (_, outcome) = decide(&h, &Some("1".to_string()));
    assert!(matches!(outcome, Outcome::Proceed(PayloadKind::StructuredPayload)));
}

#[test]
fn state_keeps_version_and_attaches_the_request() {
    let inertia = Inertia::new(Some("7".to_string()), layout);
    assert_eq!(inertia.version().as_deref(), Some("7"));
    let inertia = inertia
        .from_request_parts(&head("GET", "/k", Some("q"), &[("x-inertia", "true"), ("x-inertia-version", "7")]))
        .ok()
        .unwrap();
    assert_eq!(inertia.version().as_deref(), Some("7"));
    let response = inertia.render("Posts/Index", Value::Null);
    assert_eq!(response.page().component, "Posts/Index");
    assert_eq!(response.page().url, "/k?q");
    assert_eq!(response.page().version.as_deref(), Some("7"));
    assert_eq!(response.page().props, Value::Null);
    assert!(response.request().is_xhr);
    assert_eq!(response.request().url, "/k?q");
}

#[test]
fn version_with_a_control_character_cannot_be_echoed() {
    let res = Inertia::new(Some("1\n2".to_string()), layout)
        .from_request_parts(&head("GET", "/", None, &[]))
        .ok()
        .unwrap()
        .render("c", Value::Null)
        .into_http();
    assert!(matches!(res, Err(ResponseError::InvalidHeaderValue)));
    let res = page_response(PayloadKind::StructuredPayload, "{}".to_string(), &Some("\u{7f}".to_string()), layout);
    assert!(matches!(res, Err(ResponseError::InvalidHeaderValue)));
    let res = page_response(PayloadKind::StructuredPayload, "{}".to_string(), &Some("v\u{e9}\t".to_string()), layout)
        .unwrap();
    assert_eq!(res.headers.get("x-inertia-version").unwrap().as_bytes(), "v\u{e9}\t".as_bytes());
}

#[test]
fn conflict_location_with_a_control_character_is_refused() {
    assert!(matches!(conflict_response("/a\r\nb"), Err(ResponseError::InvalidHeaderValue)));
    let res = conflict_response("/caf\u{e9}").unwrap();
    assert_eq!(res.status, 409);
    assert_eq!(res.headers.get("x-inertia-location").unwrap().as_bytes(), "/caf\u{e9}".as_bytes());
    assert_eq!(res.body, "");
}

#[test]
fn page_response_takes_the_payload_as_it_is() {
    let res = page_response(PayloadKind::StructuredPayload, "payload".to_string(), &None, layout).unwrap();
    assert_eq!(res.status, 200);
    assert_eq!(res.body, "payload");
    assert_eq!(res.headers.len(), 2);
    let res = page_response(PayloadKind::FullDocument, "payload".to_string(), &Some("v".to_string()), layout)
        .unwrap();
    assert_eq!(res.status, 200);
    assert_eq!(res.body, r#"<html><body><div id="app" data-page='payload'></div>"#);
    assert_eq!(res.headers.len(), 2);
    assert_eq!(field(&res, "content-type"), Some("text/html; charset=utf-8"));
    assert_eq!(field(&res, "x-inertia-version"), Some("v"));
}

#[test]
fn classification_by_texts() {
    let r = Request::from_texts(Some("true".to_string()), Some("v".to_string()), "/p", &Some("q=1".to_string()));
    assert!(r.is_xhr);
    assert_eq!(r.version.as_deref(), Some("v"));
    assert_eq!(r.url, "/p?q=1");
    let r = Request::from_texts(Some("True".to_string()), None, "/p", &None);
    assert!(!r.is_xhr);
    assert_eq!(r.version, None);
    assert_eq!(r.url, "/p");
    let r = Request::from_texts(None, Some("".to_string()), "", &Some("".to_string()));
    assert!(!r.is_xhr);
    assert_eq!(r.version.as_deref(), Some(""));
    assert_eq!(r.url, "?");
}

#[test]
fn respond_answers_as_the_steps_do() {
    let heads = [
        head("GET", "/test", None, &[]),
        head("GET", "/test", None, &[("X-Inertia", "true"), ("X-Inertia-Version", "123")]),
        head("GET", "/test", Some("a=b"), &[("X-Inertia", "true"), ("X-Inertia-Version", "456")]),
        head("POST", "/test", None, &[("X-Inertia", "true"), ("X-Inertia-Version", "456")]),
        head("GET", "/test", None, &[("X-Inertia", "true")]),
    ];
    for h in &heads {
        for version in [None, Some("123")] {
            let by_steps = serve(version, h);
            let at_once = Inertia::new(version.map(|v| v.to_string()), layout)
                .respond(h, "foo!", bar_baz())
                .unwrap();
            assert_eq!(at_once.status, by_steps.status);
            assert_eq!(at_once.headers, by_steps.headers);
            assert_eq!(at_once.body, by_steps.body);
        }
    }
    let res = Inertia::new(Some("123".to_string()), layout).respond(&heads[2], "foo!", bar_baz()).unwrap();
    assert_eq!(res.status, 409);
    assert_eq!(field(&res, "x-inertia-location"), Some("/test"));
    let res = Inertia::new(Some("123".to_string()), layout).respond(&heads[3], "foo!", bar_baz()).unwrap();
    assert_eq!(res.status, 200);
    assert_eq!(field(&res, "content-type"), Some("application/json"));
    let res = Inertia::new(Some("\u{1}".to_string()), layout).respond(&heads[0], "foo!", bar_baz());
    assert!(matches!(res, Err(ResponseError::InvalidHeaderValue)));
}

#[test]
fn echoed_version_sent_back_meets_no_conflict() {
    for version in ["123", "a9993e364706816aba3e25717850c26c9cd0d89d", "v 1.0 ~beta", ""] {
        let first = serve(Some(version), &head("GET", "/", None, &[]));
        let echoed = first.headers.get("x-inertia-version").unwrap().clone();
        let mut next = head("GET", "/next", None, &[("x-inertia", "true")]);
        next.headers.insert("x-inertia-version", echoed);
        let second = serve(Some(version), &next);
        assert_eq!(second.status, 200);
        assert_eq!(field(&second, "x-inertia"), Some("true"));
    }
}
