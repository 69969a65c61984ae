use axum_inertia::page::{frame_page, Page};
use serde_json::{Number, Value};

fn page(component: &'static str, props: Value, url: &str, version: Option<&str>) -> Page {
    Page { component, props, url: url.to_string(), version: version.map(|v| v.to_string()) }
}

fn sample_props() -> Value {
    let mut inner = serde_json::Map::new();
    inner.insert("id".to_string(), Value::Number(Number::from(7)));
    inner.insert("tags".to_string(), Value::Array(vec![Value::String("a\"b".to_string()), Value::Null]));
    let mut props = serde_json::Map::new();
    props.insert("post".to_string(), Value::Object(inner));
    props.insert("ok".to_string(), Value::Bool(true));
    props.insert(",\"url\":\"x\"".to_string(), Value::String("}".to_string()));
    Value::Object(props)
}

#[test]
fn frame_page_joins_the_four_members() {
    assert_eq!(
        frame_page("\"c\"", "{}", "\"/\"", "null"),
        r#"{"component":"c","props":{},"url":"/","version":null}"#
    );
    assert_eq!(frame_page("", "", "", ""), r#"{"component":,"props":,"url":,"version":}"#);
}

#[test]
fn payload_has_exactly_four_members() {
    let text = page("Posts/Index", sample_props(), "/posts?page=2", Some("123")).to_json().unwrap();
    let parsed: Value = serde_json::from_str(&text).unwrap();
    let object = parsed.as_object().unwrap();
    assert_eq!(object.len(), 4);
    let keys: Vec<&str> = object.keys().map(|k| k.as_str()).collect();
    assert_eq!(keys, vec!["component", "props", "url", "version"]);
}

#[test]
fn payload_parses_back_to_the_same_page() {
    let strings = [
        "",
        "plain",
        "quote \" backslash \\ slash /",
        "line\nfeed\rreturn\ttab\u{8}\u{c}",
        "\u{0}\u{1}\u{1f}\u{7f}",
        "caf\u{e9} \u{4e16}\u{754c} \u{1f600}",
        ",\"props\":{\"x\":1}",
    ];
    for url in strings {
        for version in [None, Some("123"), Some(""), Some("v\"1\\")] {
            let text = page("Comp\"onent\n", sample_props(), url, version).to_json().unwrap();
            let parsed: Value = serde_json::from_str(&text).unwrap();
            assert_eq!(parsed["component"], Value::String("Comp\"onent\n".to_string()));
            assert_eq!(parsed["props"], sample_props());
            assert_eq!(parsed["url"], Value::String(url.to_string()));
            match version {
                Some(v) => assert_eq!(parsed["version"], Value::String(v.to_string())),
                None => assert_eq!(parsed["version"], Value::Null),
            }
        }
    }
}

#[test]
fn payload_is_the_same_for_the_same_page() {
    let a = page("c", sample_props(), "/u", Some("1")).to_json().unwrap();
    let b = page("c", sample_props(), "/u", Some("1")).to_json().unwrap();
    assert_eq!(a.as_bytes(), b.as_bytes());
}

#[test]
fn payload_escapes_as_json_does() {
    let text = page("a\"b", Value::Null, "/x\\y\u{1}", Some("\t")).to_json().unwrap();
    assert_eq!(text, "{\"component\":\"a\\\"b\",\"props\":null,\"url\":\"/x\\\\y\\u0001\",\"version\":\"\\t\"}");
    let text = page("\u{8}\u{c}\n\r\u{1f}\u{7f}\u{e9}", Value::Null, "", None).to_json().unwrap();
    assert_eq!(
        text,
        "{\"component\":\"\\b\\f\\n\\r\\u001f\u{7f}\u{e9}\",\"props\":null,\"url\":\"\",\"version\":null}"
    );
}

#[test]
fn props_stand_in_the_payload_as_compact_json() {
    let text = page("c", sample_props(), "/", None).to_json().unwrap();
    let props = serde_json::to_string(&sample_props()).unwrap();
    assert_eq!(text, format!("{{\"component\":\"c\",\"props\":{},\"url\":\"/\",\"version\":null}}", props));
    assert!(!props.contains(' '));
}

#[test]
fn different_pages_have_different_payloads() {
    let base = page("c", Value::Null, "/u", Some("1")).to_json().unwrap();
    assert_ne!(base, page("d", Value::Null, "/u", Some("1")).to_json().unwrap());
    assert_ne!(base, page("c", Value::Null, "/v", Some("1")).to_json().unwrap());
    assert_ne!(base, page("c", Value::Null, "/u", Some("2")).to_json().unwrap());
    assert_ne!(base, page("c", Value::Null, "/u", None).to_json().unwrap());
    assert_ne!(base, page("c", Value::Bool(false), "/u", Some("1")).to_json().unwrap());
    assert_ne!(
        page("c", Value::Null, "/u", Some("null")).to_json().unwrap(),
        page("c", Value::Null, "/u", None).to_json().unwrap()
    );
    assert_ne!(
        page("a\",\"props\":null,\"url\":\"", Value::Null, "", None).to_json().unwrap(),
        page("a", Value::Null, "", None).to_json().unwrap()
    );
}

#[test]
fn every_kind_of_value_is_written() {
    let mut inner = serde_json::Map::new();
    inner.insert("".to_string(), Value::Null);
    inner.insert("k\"\\\n\u{0}\u{7f}\u{e9}".to_string(), Value::Bool(false));
    let numbers = vec![
        Value::Number(Number::from(0)),
        Value::Number(Number::from(u64::MAX)),
        Value::Number(Number::from(i64::MIN)),
        Value::Number(Number::from_f64(1.5).unwrap()),
        Value::Number(Number::from_f64(-0.0).unwrap()),
        Value::Number(Number::from_f64(1e300).unwrap()),
        Value::Number(Number::from_f64(5e-324).unwrap()),
    ];
    let mut deep = Value::Array(vec![]);
    for _ in 0..100 {
        deep = Value::Array(vec![deep]);
    }
    let values = vec![
        Value::Null,
        Value::Bool(true),
        Value::String("\u{0}\u{1f}\"\\ \u{1f600}".to_string()),
        Value::Array(numbers),
        Value::Array(vec![]),
        Value::Object(serde_json::Map::new()),
        Value::Object(inner),
        deep,
        sample_props(),
    ];
    let mut deeper = Value::Null;
    for _ in 0..1000 {
        deeper = Value::Array(vec![deeper]);
    }
    let text = page("c", deeper, "/", None).to_json().unwrap();
    let expected = format!(
        "{{\"component\":\"c\",\"props\":{}null{},\"url\":\"/\",\"version\":null}}",
        "[".repeat(1000),
        "]".repeat(1000)
    );
    assert_eq!(text, expected);
    for props in values {
        for component in ["", "c", "\u{0}\"\\", "\u{10ffff}"] {
            for version in [None, Some(""), Some("\u{1}\t\u{7f}")] {
                let written = page(component, props.clone(), "/u?\u{0}", version).to_json();
                let text = written.unwrap();
                let parsed: Value = serde_json::from_str(&text).unwrap();
                assert_eq!(parsed["component"], Value::String(component.to_string()));
                assert_eq!(parsed["props"], props);
                assert_eq!(parsed["url"], Value::String("/u?\u{0}".to_string()));
            }
        }
    }
}
