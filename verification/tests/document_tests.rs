//! Decoding whole documents through the generic JSON and YAML readers, as a
//! consumer of the library would: the reader produces a value tree, the test
//! turns it into nodes, and the library does the rest.

use vcr_cassette::{Cassette, Method, Node, Version};

fn node_of_json(v: &serde_json::Value) -> Node {
    match v {
        serde_json::Value::String(s) => Node::Text(s.clone()),
        serde_json::Value::Number(n) => match n.as_i64() {
            Some(i) => Node::Int(i),
            None => Node::Other,
        },
        serde_json::Value::Null => Node::Null,
        serde_json::Value::Bool(_) => Node::Other,
        serde_json::Value::Array(items) => Node::List(items.iter().map(node_of_json).collect()),
        serde_json::Value::Object(map) => {
            Node::Object(map.iter().map(|(k, x)| (k.clone(), node_of_json(x))).collect())
        }
    }
}

fn node_of_yaml(v: &serde_yaml::Value) -> Node {
    match v {
        serde_yaml::Value::String(s) => Node::Text(s.clone()),
        serde_yaml::Value::Number(n) => match n.as_i64() {
            Some(i) => Node::Int(i),
            None => Node::Other,
        },
        serde_yaml::Value::Null => Node::Null,
        serde_yaml::Value::Bool(_) => Node::Other,
        serde_yaml::Value::Sequence(items) => Node::List(items.iter().map(node_of_yaml).collect()),
        serde_yaml::Value::Mapping(map) => Node::Object(
            map.iter()
                .map(|(k, x)| {
                    let key = match k {
                        serde_yaml::Value::String(s) => s.clone(),
                        other => panic!("non-text mapping key: {:?}", other),
                    };
                    (key, node_of_yaml(x))
                })
                .collect(),
        ),
        serde_yaml::Value::Tagged(_) => Node::Other,
    }
}

const EXAMPLE_JSON: &str = r#"{
    "http_interactions": [
        {
            "request": {
                "uri": "http://localhost:7777/foo",
                "body": "",
                "method": "get",
                "headers": { "Accept-Encoding": [ "identity" ] }
            },
            "response": {
                "body": "Hello foo",
                "http_version": "1.1",
                "status": { "code": 200, "message": "OK" },
                "headers": {
                    "Date": [ "Thu, 27 Oct 2011 06:16:31 GMT" ],
                    "Content-Type": [ "text/html;charset=utf-8" ],
                    "Content-Length": [ "9" ]
                }
            },
            "recorded_at": "Tue, 01 Nov 2011 04:58:44 GMT"
        }
    ],
    "recorded_with": "VCR 2.0.0"
}"#;

const EXAMPLE_YAML: &str = "
http_interactions:
- request:
    uri: http://localhost:7777/bar
    body: ''
    method: post
    headers:
      Accept-Encoding:
      - identity
  response:
    body: Hello bar
    http_version:
    status:
      code: 200
      message: OK
    headers:
      Content-Length:
      - '9'
  recorded_at: Sat, 05 Nov 2011 04:58:44 GMT
recorded_with: VCR 2.0.0
";

#[test]
fn decodes_json_document() {
    let value: serde_json::Value = serde_json::from_str(EXAMPLE_JSON).unwrap();
    let cassette = Cassette::decode(&node_of_json(&value)).unwrap();
    assert_eq!(cassette.recorded_with, "VCR 2.0.0");
    assert_eq!(cassette.http_interactions.len(), 1);
    let x = &cassette.http_interactions[0];
    assert_eq!(x.request.method, Method::Get);
    assert_eq!(x.response.http_version, Some(Version::Http1_1));
    assert_eq!(x.response.body.string, "Hello foo");
    assert_eq!(x.response.headers.len(), 3);
}

#[test]
fn decodes_yaml_document() {
    let value: serde_yaml::Value = serde_yaml::from_str(EXAMPLE_YAML).unwrap();
    let cassette = Cassette::decode(&node_of_yaml(&value)).unwrap();
    assert_eq!(cassette.http_interactions.len(), 1);
    let x = &cassette.http_interactions[0];
    assert_eq!(x.request.method, Method::Post);
    assert_eq!(x.response.http_version, None);
    assert_eq!(x.response.body.string, "Hello bar");
}

#[test]
fn json_document_round_trips_through_the_model() {
    let value: serde_json::Value = serde_json::from_str(EXAMPLE_JSON).unwrap();
    let cassette = Cassette::decode(&node_of_json(&value)).unwrap();
    let reencoded = cassette.encode();
    assert_eq!(Cassette::decode(&reencoded).unwrap(), cassette);
}
