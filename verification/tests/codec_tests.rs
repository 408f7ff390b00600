use vcr_cassette::{
    Body, Cassette, DecodeError, HttpInteraction, Instant, Method, Node, Request, Response,
    Status, Version,
};

fn text(s: &str) -> Node {
    Node::Text(s.to_owned())
}

fn entry(k: &str, n: Node) -> (String, Node) {
    (k.to_owned(), n)
}

fn headers_node(pairs: &[(&str, &[&str])]) -> Node {
    let mut entries: Vec<(String, Node)> = Vec::new();
    for (k, vs) in pairs {
        let items: Vec<Node> = vs.iter().map(|v| text(v)).collect();
        entries.push(entry(k, Node::List(items)));
    }
    Node::Object(entries)
}

fn sample_request() -> Node {
    Node::Object(vec![
        entry("uri", text("http://localhost:7777/foo")),
        entry("body", text("")),
        entry("method", text("get")),
        entry("headers", headers_node(&[("Accept-Encoding", &["identity"])])),
    ])
}

fn sample_response(version: Option<Node>) -> Node {
    let status = Node::Object(vec![entry("code", Node::Int(200)), entry("message", text("OK"))]);
    let mut entries = vec![entry("body", text("Hello foo"))];
    if let Some(v) = version {
        entries.push(entry("http_version", v));
    }
    entries.push(entry("status", status));
    entries.push(entry(
        "headers",
        headers_node(&[("Content-Type", &["text/html;charset=utf-8"]), ("Content-Length", &["9"])]),
    ));
    Node::Object(entries)
}

fn sample_cassette() -> Node {
    let interaction = Node::Object(vec![
        entry("request", sample_request()),
        entry("response", sample_response(Some(text("1.1")))),
        entry("recorded_at", text("Tue, 01 Nov 2011 04:58:44 GMT")),
    ]);
    Node::Object(vec![
        entry("http_interactions", Node::List(vec![interaction])),
        entry("recorded_with", text("VCR 2.0.0")),
    ])
}

#[test]
fn body_decodes_bare_scalar() {
    let b = Body::decode(&text("Hello foo")).unwrap();
    assert_eq!(b, Body { encoding: None, string: "Hello foo".to_owned() });
}

#[test]
fn body_decodes_object_with_encoding() {
    let n = Node::Object(vec![
        entry("encoding", text("base64")),
        entry("string", text("aGk=")),
    ]);
    let b = Body::decode(&n).unwrap();
    assert_eq!(b, Body { encoding: Some("base64".to_owned()), string: "aGk=".to_owned() });
}

#[test]
fn body_object_without_string_is_missing_field() {
    let n = Node::Object(vec![entry("encoding", text("base64"))]);
    match Body::decode(&n) {
        Err(DecodeError::MissingField(f)) => assert_eq!(f, "string"),
        other => panic!("expected missing field, got {:?}", other),
    }
}

#[test]
fn body_from_str_never_fails() {
    let b = Body::from_str("plain");
    assert_eq!(b, Body { encoding: None, string: "plain".to_owned() });
}

#[test]
fn body_always_encodes_to_object_form() {
    let b = Body::decode(&text("Hello foo")).unwrap();
    let n = b.encode();
    match &n {
        Node::Object(entries) => {
            assert_eq!(entries.len(), 2);
            assert_eq!(entries[0].0, "encoding");
            assert!(matches!(entries[0].1, Node::Null));
            assert_eq!(entries[1].0, "string");
        }
        other => panic!("expected object form, got {:?}", other),
    }
    assert_eq!(Body::decode(&n).unwrap(), b);
}

#[test]
fn method_decodes_named_token() {
    assert_eq!(Method::decode("get"), Method::Get);
    assert_eq!(Method::decode("trace"), Method::Trace);
}

#[test]
fn method_decodes_unknown_token_verbatim() {
    assert_eq!(Method::decode("PROPFIND"), Method::Other("PROPFIND".to_owned()));
}

#[test]
fn method_decode_is_case_sensitive() {
    assert_eq!(Method::decode("Get"), Method::Other("Get".to_owned()));
}

#[test]
fn method_encodes_lowercase_tokens() {
    assert_eq!(Method::Get.encode(), "get");
    assert_eq!(Method::Connect.encode(), "connect");
}

#[test]
fn method_fallback_encodes_unchanged() {
    assert_eq!(Method::Other("PROPFIND".to_owned()).encode(), "PROPFIND");
}

#[test]
fn method_as_str_is_uppercase_display() {
    assert_eq!(Method::Get.as_str(), "GET");
    assert_eq!(Method::Other("Copy".to_owned()).as_str(), "Copy");
}

#[test]
fn version_decodes_known_tokens() {
    assert_eq!(Version::decode("0.9"), Some(Version::Http0_9));
    assert_eq!(Version::decode("1.0"), Some(Version::Http1_0));
    assert_eq!(Version::decode("1.1"), Some(Version::Http1_1));
    assert_eq!(Version::decode("2"), Some(Version::Http2_0));
    assert_eq!(Version::decode("3"), Some(Version::Http3_0));
}

#[test]
fn version_rejects_unknown_token() {
    assert_eq!(Version::decode("9.9"), None);
}

#[test]
fn version_encodes_exact_tokens() {
    assert_eq!(Version::Http1_1.encode(), "1.1");
    assert_eq!(Version::Http2_0.encode(), "2");
}

#[test]
fn timestamp_decodes_rfc2822_with_gmt_zone() {
    let i = Instant::decode("Tue, 01 Nov 2011 04:58:44 GMT").unwrap();
    assert_eq!(i, Instant { epoch_secs: 1320123524, offset_secs: 0 });
}

#[test]
fn timestamp_retains_nonzero_offset() {
    let i = Instant::decode("Tue, 01 Nov 2011 04:58:44 +0530").unwrap();
    assert_eq!(i.offset_secs, 5 * 3600 + 30 * 60);
    assert_eq!(i.epoch_secs, 1320123524 - (5 * 3600 + 30 * 60) as i64);
    assert_eq!(i.encode(), "Tue, 1 Nov 2011 04:58:44 +0530");
}

#[test]
fn timestamp_encodes_canonical_text() {
    let i = Instant::decode("Tue, 01 Nov 2011 04:58:44 GMT").unwrap();
    assert_eq!(i.encode(), "Tue, 1 Nov 2011 04:58:44 +0000");
}

#[test]
fn timestamp_round_trips_canonical_text() {
    let s = "Tue, 1 Nov 2011 04:58:44 +0000";
    let i = Instant::decode(s).unwrap();
    assert_eq!(i.encode(), s);
    assert_eq!(Instant::decode(&i.encode()).unwrap(), i);
}

#[test]
fn timestamp_rejects_malformed_text() {
    match Instant::decode("not a date") {
        Err(DecodeError::InvalidTimestamp(raw)) => assert_eq!(raw, "not a date"),
        other => panic!("expected invalid timestamp, got {:?}", other),
    }
}

#[test]
fn instant_new_checks_range() {
    assert!(Instant::new(1320123524, 0).is_some());
    assert!(Instant::new(1320123524, 30).is_none());
    assert!(Instant::new(1320123524, 86400).is_none());
    assert!(Instant::new(260000000000, 0).is_none());
}

#[test]
fn headers_round_trip_repeated_values_in_order() {
    let n = headers_node(&[("Set-Cookie", &["a=1", "b=2"])]);
    let h = vcr_cassette::headers::decode_headers(&n).unwrap();
    assert_eq!(h.len(), 1);
    assert_eq!(h[0].0, "Set-Cookie");
    assert_eq!(h[0].1, vec!["a=1".to_owned(), "b=2".to_owned()]);
    let back = vcr_cassette::headers::encode_headers(&h);
    assert_eq!(vcr_cassette::headers::decode_headers(&back).unwrap(), h);
}

#[test]
fn headers_reject_non_text_value() {
    let n = Node::Object(vec![entry("X", Node::List(vec![Node::Int(1)]))]);
    match vcr_cassette::headers::decode_headers(&n) {
        Err(DecodeError::TypeMismatch(f)) => assert_eq!(f, "headers"),
        other => panic!("expected mismatch, got {:?}", other),
    }
}

#[test]
fn status_decodes_and_encodes() {
    let n = Node::Object(vec![entry("code", Node::Int(200)), entry("message", text("OK"))]);
    let s = Status::decode(&n).unwrap();
    assert_eq!(s, Status { code: 200, message: "OK".to_owned() });
    assert_eq!(Status::decode(&s.encode()).unwrap(), s);
}

#[test]
fn status_rejects_non_numeric_code() {
    let n = Node::Object(vec![entry("code", text("OK")), entry("message", text("OK"))]);
    match Status::decode(&n) {
        Err(DecodeError::TypeMismatch(f)) => assert_eq!(f, "code"),
        other => panic!("expected mismatch, got {:?}", other),
    }
}

#[test]
fn status_rejects_out_of_range_code() {
    let n = Node::Object(vec![entry("code", Node::Int(70000)), entry("message", text("OK"))]);
    assert!(matches!(Status::decode(&n), Err(DecodeError::TypeMismatch(_))));
}

#[test]
fn response_absent_version_is_none() {
    let r = Response::decode(&sample_response(None)).unwrap();
    assert_eq!(r.http_version, None);
}

#[test]
fn response_null_version_is_none() {
    let r = Response::decode(&sample_response(Some(Node::Null))).unwrap();
    assert_eq!(r.http_version, None);
}

#[test]
fn response_unknown_version_fails() {
    match Response::decode(&sample_response(Some(text("9.9")))) {
        Err(DecodeError::UnknownVersion(tok)) => assert_eq!(tok, "9.9"),
        other => panic!("expected unknown version, got {:?}", other),
    }
}

#[test]
fn request_decodes_sample() {
    let q = Request::decode(&sample_request()).unwrap();
    assert_eq!(q.uri, "http://localhost:7777/foo");
    assert_eq!(q.method, Method::Get);
    assert_eq!(q.body, Body { encoding: None, string: String::new() });
    assert_eq!(q.headers.len(), 1);
    assert_eq!(q.headers[0].0, "Accept-Encoding");
}

#[test]
fn cassette_decodes_sample() {
    let c = Cassette::decode(&sample_cassette()).unwrap();
    assert_eq!(c.recorded_with, "VCR 2.0.0");
    assert_eq!(c.http_interactions.len(), 1);
    let x: &HttpInteraction = &c.http_interactions[0];
    assert_eq!(x.recorded_at, Instant { epoch_secs: 1320123524, offset_secs: 0 });
    assert_eq!(x.response.http_version, Some(Version::Http1_1));
    assert_eq!(x.response.status.code, 200);
}

#[test]
fn cassette_round_trips_through_encode() {
    let c = Cassette::decode(&sample_cassette()).unwrap();
    let n = c.encode();
    let back = Cassette::decode(&n).unwrap();
    assert_eq!(back, c);
}

#[test]
fn cassette_missing_interactions_is_missing_field() {
    let n = Node::Object(vec![entry("recorded_with", text("VCR 2.0.0"))]);
    match Cassette::decode(&n) {
        Err(DecodeError::MissingField(f)) => assert_eq!(f, "http_interactions"),
        other => panic!("expected missing field, got {:?}", other),
    }
}

#[test]
fn cassette_empty_interactions_round_trip() {
    let n = Node::Object(vec![
        entry("http_interactions", Node::List(Vec::new())),
        entry("recorded_with", text("VCR 2.0.0")),
    ]);
    let c = Cassette::decode(&n).unwrap();
    assert_eq!(c.http_interactions.len(), 0);
    assert_eq!(Cassette::decode(&c.encode()).unwrap(), c);
}

#[test]
fn interaction_bad_timestamp_fails_whole_decode() {
    let interaction = Node::Object(vec![
        entry("request", sample_request()),
        entry("response", sample_response(None)),
        entry("recorded_at", text("yesterday")),
    ]);
    let n = Node::Object(vec![
        entry("http_interactions", Node::List(vec![interaction])),
        entry("recorded_with", text("VCR 2.0.0")),
    ]);
    assert!(matches!(Cassette::decode(&n), Err(DecodeError::InvalidTimestamp(_))));
}

#[test]
fn error_describe_names_the_field() {
    let e = DecodeError::MissingField("string".to_owned());
    assert_eq!(e.describe(), "missing field string");
    let e = DecodeError::UnknownVersion("9.9".to_owned());
    assert_eq!(e.describe(), "unknown version 9.9");
}

#[test]
fn cassette_preserves_interaction_order() {
    let one = Node::Object(vec![
        entry("request", sample_request()),
        entry("response", sample_response(None)),
        entry("recorded_at", text("Tue, 01 Nov 2011 04:58:44 GMT")),
    ]);
    let two = Node::Object(vec![
        entry("request", sample_request()),
        entry("response", sample_response(None)),
        entry("recorded_at", text("Wed, 02 Nov 2011 04:58:44 GMT")),
    ]);
    let n = Node::Object(vec![
        entry("http_interactions", Node::List(vec![one, two])),
        entry("recorded_with", text("VCR 2.0.0")),
    ]);
    let c = Cassette::decode(&n).unwrap();
    assert_eq!(c.http_interactions.len(), 2);
    assert_eq!(c.http_interactions[0].recorded_at.epoch_secs, 1320123524);
    assert_eq!(c.http_interactions[1].recorded_at.epoch_secs, 1320123524 + 86400);
    let back = Cassette::decode(&c.encode()).unwrap();
    assert_eq!(back.http_interactions[0], c.http_interactions[0]);
    assert_eq!(back.http_interactions[1], c.http_interactions[1]);
}

#[test]
fn request_with_custom_method_round_trips() {
    let n = Node::Object(vec![
        entry("uri", text("http://localhost:7777/dav")),
        entry("body", text("")),
        entry("method", text("PROPFIND")),
        entry("headers", headers_node(&[])),
    ]);
    let q = Request::decode(&n).unwrap();
    assert_eq!(q.method, Method::Other("PROPFIND".to_owned()));
    let back = Request::decode(&q.encode()).unwrap();
    assert_eq!(back, q);
}

#[test]
fn well_formedness_rejects_shadowed_fallback_method() {
    let c = Cassette::decode(&sample_cassette()).unwrap();
    assert!(c.is_well_formed());
    let mut shadowed = c.clone();
    shadowed.http_interactions[0].request.method = Method::Other("get".to_owned());
    assert!(!shadowed.is_well_formed());
}
