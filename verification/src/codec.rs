//! Decode and encode between structured nodes and the schema model.
//!
//! Every field other than `body`, `method`, `http_version` and
//! `recorded_at` binds directly to its node counterpart; those four
//! delegate to their codecs. Each `encode` carries the round trip in its
//! contract: decoding the encoded node yields the encoded value back.

use vstd::prelude::*;

verus! {

use crate::body::Body;
use crate::body::body_node;
use crate::body::body_of_node;
use crate::error::DecodeError;
use crate::error::DecodeErrorV;
use crate::error::rview;
use crate::headers::decode_headers;
use crate::headers::encode_headers;
use crate::headers::headers_node;
use crate::headers::headers_of_node;
use crate::method::Method;
use crate::method::lemma_method_round_trip;
use crate::method::method_of_wire;
use crate::method::method_wire;
use crate::model::Cassette;
use crate::model::CassetteV;
use crate::model::HttpInteraction;
use crate::model::HttpInteractionV;
use crate::model::Request;
use crate::model::RequestV;
use crate::model::Response;
use crate::model::ResponseV;
use crate::model::Status;
use crate::model::StatusV;
use crate::model::interactions_view;
use crate::node::Node;
use crate::node::NodeV;
use crate::node::entries_view;
use crate::node::lemma_entries_view;
use crate::node::lemma_list_view;
use crate::node::list_view;
use crate::node::map_get;
use crate::node::node_lookup;
use crate::timestamp::Instant;
use crate::timestamp::instant_of_wire;
use crate::timestamp::instant_wire;
use crate::version::Version;
use crate::version::lemma_version_round_trip;
use crate::version::version_of_wire;
use crate::version::version_wire;

/// What a status node decodes to: an object with an integer `code` fitting
/// sixteen unsigned bits and a text `message`.
pub open spec fn status_of_node(n: NodeV) -> Result<StatusV, DecodeErrorV> {
    match n {
        NodeV::Object(m) => match node_lookup(m, "code"@) {
            Some(NodeV::Int(c)) => if 0 <= c <= 65535 {
                match node_lookup(m, "message"@) {
                    Some(NodeV::Text(t)) => Ok(StatusV { code: c, message: t }),
                    None => Err(DecodeErrorV::MissingField("message"@)),
                    Some(_) => Err(DecodeErrorV::TypeMismatch("message"@)),
                }
            } else {
                Err(DecodeErrorV::TypeMismatch("code"@))
            },
            None => Err(DecodeErrorV::MissingField("code"@)),
            Some(_) => Err(DecodeErrorV::TypeMismatch("code"@)),
        },
        _ => Err(DecodeErrorV::TypeMismatch("status"@)),
    }
}

/// The node a status encodes to.
pub open spec fn status_node(s: StatusV) -> NodeV {
    NodeV::Object(
        seq![("code"@, NodeV::Int(s.code)), ("message"@, NodeV::Text(s.message))],
    )
}

/// What the optional `http_version` field of a response's entries decodes
/// to: an absent or null field is `None`; a text field must spell a known
/// version token, else the decode fails with an unknown-version error.
pub open spec fn version_field_of(m: Seq<(Seq<char>, NodeV)>) -> Result<
    Option<Version>,
    DecodeErrorV,
> {
    match node_lookup(m, "http_version"@) {
        None => Ok(None),
        Some(NodeV::Null) => Ok(None),
        Some(NodeV::Text(s)) => match version_of_wire(s) {
            Some(v) => Ok(Some(v)),
            None => Err(DecodeErrorV::UnknownVersion(s)),
        },
        Some(_) => Err(DecodeErrorV::TypeMismatch("http_version"@)),
    }
}

/// What a request node decodes to: an object with text `uri`, a `body` of
/// either representation, a text `method` (any token), and `headers`.
pub open spec fn request_of_node(n: NodeV) -> Result<RequestV, DecodeErrorV> {
    match n {
        NodeV::Object(m) => match node_lookup(m, "uri"@) {
            Some(NodeV::Text(u)) => match node_lookup(m, "body"@) {
                Some(bn) => match body_of_node(bn) {
                    Ok(b) => match node_lookup(m, "method"@) {
                        Some(NodeV::Text(ms)) => match node_lookup(m, "headers"@) {
                            Some(hn) => match headers_of_node(hn) {
                                Ok(h) => Ok(
                                    RequestV {
                                        uri: u,
                                        body: b,
                                        method: method_of_wire(ms),
                                        headers: h,
                                    },
                                ),
                                Err(e) => Err(e),
                            },
                            None => Err(DecodeErrorV::MissingField("headers"@)),
                        },
                        None => Err(DecodeErrorV::MissingField("method"@)),
                        Some(_) => Err(DecodeErrorV::TypeMismatch("method"@)),
                    },
                    Err(e) => Err(e),
                },
                None => Err(DecodeErrorV::MissingField("body"@)),
            },
            None => Err(DecodeErrorV::MissingField("uri"@)),
            Some(_) => Err(DecodeErrorV::TypeMismatch("uri"@)),
        },
        _ => Err(DecodeErrorV::TypeMismatch("request"@)),
    }
}

/// The node a request encodes to.
pub open spec fn request_node(r: RequestV) -> NodeV {
    NodeV::Object(
        seq![
            ("uri"@, NodeV::Text(r.uri)),
            ("body"@, body_node(r.body)),
            ("method"@, NodeV::Text(method_wire(r.method))),
            ("headers"@, headers_node(r.headers)),
        ],
    )
}

/// What a response node decodes to: an object with a `body` of either
/// representation, an optional `http_version`, a `status` and `headers`.
pub open spec fn response_of_node(n: NodeV) -> Result<ResponseV, DecodeErrorV> {
    match n {
        NodeV::Object(m) => match node_lookup(m, "body"@) {
            Some(bn) => match body_of_node(bn) {
                Ok(b) => match version_field_of(m) {
                    Ok(hv) => match node_lookup(m, "status"@) {
                        Some(sn) => match status_of_node(sn) {
                            Ok(st) => match node_lookup(m, "headers"@) {
                                Some(hn) => match headers_of_node(hn) {
                                    Ok(h) => Ok(
                                        ResponseV {
                                            body: b,
                                            http_version: hv,
                                            status: st,
                                            headers: h,
                                        },
                                    ),
                                    Err(e) => Err(e),
                                },
                                None => Err(DecodeErrorV::MissingField("headers"@)),
                            },
                            Err(e) => Err(e),
                        },
                        None => Err(DecodeErrorV::MissingField("status"@)),
                    },
                    Err(e) => Err(e),
                },
                Err(e) => Err(e),
            },
            None => Err(DecodeErrorV::MissingField("body"@)),
        },
        _ => Err(DecodeErrorV::TypeMismatch("response"@)),
    }
}

/// The node a response encodes to: an absent version is written as an
/// explicit null.
pub open spec fn response_node(r: ResponseV) -> NodeV {
    NodeV::Object(
        seq![
            ("body"@, body_node(r.body)),
            (
                "http_version"@,
                match r.http_version {
                    Some(v) => NodeV::Text(version_wire(v)),
                    None => NodeV::Null,
                },
            ),
            ("status"@, status_node(r.status)),
            ("headers"@, headers_node(r.headers)),
        ],
    )
}

/// What an interaction node decodes to: an object with a `response`, a
/// `request` and a text RFC 2822 `recorded_at`.
pub open spec fn interaction_of_node(n: NodeV) -> Result<HttpInteractionV, DecodeErrorV> {
    match n {
        NodeV::Object(m) => match node_lookup(m, "response"@) {
            Some(rn) => match response_of_node(rn) {
                Ok(resp) => match node_lookup(m, "request"@) {
                    Some(qn) => match request_of_node(qn) {
                        Ok(req) => match node_lookup(m, "recorded_at"@) {
                            Some(NodeV::Text(ts)) => match instant_of_wire(ts) {
                                Ok(at) => Ok(
                                    HttpInteractionV {
                                        response: resp,
                                        request: req,
                                        recorded_at: at,
                                    },
                                ),
                                Err(e) => Err(e),
                            },
                            None => Err(DecodeErrorV::MissingField("recorded_at"@)),
                            Some(_) => Err(DecodeErrorV::TypeMismatch("recorded_at"@)),
                        },
                        Err(e) => Err(e),
                    },
                    None => Err(DecodeErrorV::MissingField("request"@)),
                },
                Err(e) => Err(e),
            },
            None => Err(DecodeErrorV::MissingField("response"@)),
        },
        _ => Err(DecodeErrorV::TypeMismatch("interaction"@)),
    }
}

/// The node an interaction encodes to.
pub open spec fn interaction_node(x: HttpInteractionV) -> NodeV {
    NodeV::Object(
        seq![
            ("response"@, response_node(x.response)),
            ("request"@, request_node(x.request)),
            ("recorded_at"@, NodeV::Text(instant_wire(x.recorded_at))),
        ],
    )
}

/// What a list of interaction nodes decodes to: each in order, stopping at
/// the first failure.
pub open spec fn interactions_of_nodes(s: Seq<NodeV>) -> Result<
    Seq<HttpInteractionV>,
    DecodeErrorV,
>
    decreases s,
{
    if s.len() == 0 {
        Ok(Seq::empty())
    } else {
        match interactions_of_nodes(s.drop_last()) {
            Ok(pre) => match interaction_of_node(s.last()) {
                Ok(x) => Ok(pre.push(x)),
                Err(e) => Err(e),
            },
            Err(e) => Err(e),
        }
    }
}

/// The nodes a sequence of interactions encodes to, in order.
pub open spec fn interactions_nodes(s: Seq<HttpInteractionV>) -> Seq<NodeV> {
    Seq::new(s.len(), |i: int| interaction_node(s[i]))
}

/// What a cassette node decodes to: an object with the interaction list and
/// the text recorder identifier.
pub open spec fn cassette_of_node(n: NodeV) -> Result<CassetteV, DecodeErrorV> {
    match n {
        NodeV::Object(m) => match node_lookup(m, "http_interactions"@) {
            Some(NodeV::List(items)) => match interactions_of_nodes(items) {
                Ok(xs) => match node_lookup(m, "recorded_with"@) {
                    Some(NodeV::Text(t)) => Ok(
                        CassetteV { http_interactions: xs, recorded_with: t },
                    ),
                    None => Err(DecodeErrorV::MissingField("recorded_with"@)),
                    Some(_) => Err(DecodeErrorV::TypeMismatch("recorded_with"@)),
                },
                Err(e) => Err(e),
            },
            None => Err(DecodeErrorV::MissingField("http_interactions"@)),
            Some(_) => Err(DecodeErrorV::TypeMismatch("http_interactions"@)),
        },
        _ => Err(DecodeErrorV::TypeMismatch("cassette"@)),
    }
}

/// The node a cassette encodes to.
pub open spec fn cassette_node(c: CassetteV) -> NodeV {
    NodeV::Object(
        seq![
            ("http_interactions"@, NodeV::List(interactions_nodes(c.http_interactions))),
            ("recorded_with"@, NodeV::Text(c.recorded_with)),
        ],
    )
}

/// An error in a prefix of the interaction list is the error of the whole
/// list.
proof fn lemma_interactions_err_extends(s: Seq<NodeV>, j: int)
    requires
        0 <= j <= s.len(),
        interactions_of_nodes(s.subrange(0, j)) is Err,
    ensures
        interactions_of_nodes(s) == interactions_of_nodes(s.subrange(0, j)),
    decreases s.len() - j,
{
    if j == s.len() {
        assert(s.subrange(0, j) =~= s);
    } else {
        assert(s.subrange(0, j + 1).drop_last() =~= s.subrange(0, j));
        assert(interactions_of_nodes(s.subrange(0, j + 1)) == interactions_of_nodes(
            s.subrange(0, j),
        ));
        lemma_interactions_err_extends(s, j + 1);
    }
}

impl Status {
    /// Decode a status node. Fails with a mismatch or missing-field error
    /// exactly when the node is not an object with an in-range integer
    /// `code` and a text `message`.
    pub fn decode(n: &Node) -> (r: Result<Status, DecodeError>)
        ensures
            rview(r) == status_of_node(n@),
    {
        match n {
            Node::Object(entries) => match map_get(entries, "code") {
                Some(Node::Int(c)) => {
                    if 0 <= *c && *c <= 65535 {
                        match map_get(entries, "message") {
                            Some(Node::Text(t)) => Ok(
                                Status { code: *c as u16, message: t.clone() },
                            ),
                            None => Err(DecodeError::MissingField("message".to_owned())),
                            Some(_) => Err(DecodeError::TypeMismatch("message".to_owned())),
                        }
                    } else {
                        Err(DecodeError::TypeMismatch("code".to_owned()))
                    }
                },
                None => Err(DecodeError::MissingField("code".to_owned())),
                Some(_) => Err(DecodeError::TypeMismatch("code".to_owned())),
            },
            _ => Err(DecodeError::TypeMismatch("status".to_owned())),
        }
    }

    /// Encode to a status node. Decoding the encoded node yields this
    /// status back.
    pub fn encode(&self) -> (n: Node)
        ensures
            n@ == status_node(self@),
            status_of_node(n@) == Ok::<StatusV, DecodeErrorV>(self@),
    {
        let mut entries: Vec<(String, Node)> = Vec::new();
        entries.push(("code".to_owned(), Node::Int(self.code as i64)));
        entries.push(("message".to_owned(), Node::Text(self.message.clone())));
        proof {
            lemma_entries_view(entries@);
            let ev = entries_view(entries@);
            assert(ev =~= status_node(self@)->Object_0);
            reveal_strlit("code");
            reveal_strlit("message");
            assert(!("code"@ =~= "message"@));
            assert(node_lookup(ev, "code"@) == Some(ev[0].1));
            assert(ev.drop_first() =~= seq![ev[1]]);
            assert(node_lookup(ev.drop_first(), "message"@) == Some(ev[1].1));
            assert(node_lookup(ev, "message"@) == Some(NodeV::Text(self.message@)));
        }
        Node::Object(entries)
    }
}

impl Request {
    /// Decode a request node. The `method` field accepts any text token;
    /// the other fields fail with the error their codec gives.
    pub fn decode(n: &Node) -> (r: Result<Request, DecodeError>)
        ensures
            rview(r) == request_of_node(n@),
            r matches Ok(q) ==> q@.wf(),
    {
        match n {
            Node::Object(entries) => match map_get(entries, "uri") {
                Some(Node::Text(u)) => {
                    let uri: String = u.clone();
                    match map_get(entries, "body") {
                        Some(bn) => match Body::decode(bn) {
                            Ok(body) => match map_get(entries, "method") {
                                Some(Node::Text(ms)) => {
                                    let method: Method = Method::decode(ms.as_str());
                                    match map_get(entries, "headers") {
                                        Some(hn) => match decode_headers(hn) {
                                            Ok(headers) => Ok(
                                                Request { uri, body, method, headers },
                                            ),
                                            Err(e) => Err(e),
                                        },
                                        None => Err(
                                            DecodeError::MissingField("headers".to_owned()),
                                        ),
                                    }
                                },
                                None => Err(DecodeError::MissingField("method".to_owned())),
                                Some(_) => Err(DecodeError::TypeMismatch("method".to_owned())),
                            },
                            Err(e) => Err(e),
                        },
                        None => Err(DecodeError::MissingField("body".to_owned())),
                    }
                },
                None => Err(DecodeError::MissingField("uri".to_owned())),
                Some(_) => Err(DecodeError::TypeMismatch("uri".to_owned())),
            },
            _ => Err(DecodeError::TypeMismatch("request".to_owned())),
        }
    }

    /// Encode to a request node. Decoding the encoded node yields this
    /// request back, provided its method is canonical.
    pub fn encode(&self) -> (n: Node)
        requires
            self@.wf(),
        ensures
            n@ == request_node(self@),
            request_of_node(n@) == Ok::<RequestV, DecodeErrorV>(self@),
    {
        let body_n: Node = self.body.encode();
        let headers_n: Node = encode_headers(&self.headers);
        let mut entries: Vec<(String, Node)> = Vec::new();
        entries.push(("uri".to_owned(), Node::Text(self.uri.clone())));
        entries.push(("body".to_owned(), body_n));
        entries.push(("method".to_owned(), Node::Text(self.method.encode())));
        entries.push(("headers".to_owned(), headers_n));
        proof {
            lemma_entries_view(entries@);
            let ev = entries_view(entries@);
            assert(ev =~= request_node(self@)->Object_0);
            reveal_strlit("uri");
            reveal_strlit("body");
            reveal_strlit("method");
            reveal_strlit("headers");
            assert(!("uri"@ =~= "body"@));
            assert(!("uri"@ =~= "method"@));
            assert(!("uri"@ =~= "headers"@));
            assert(!("body"@ =~= "method"@));
            assert(!("body"@ =~= "headers"@));
            assert(!("method"@ =~= "headers"@));
            let t1 = ev.drop_first();
            let t2 = t1.drop_first();
            let t3 = t2.drop_first();
            assert(t1 =~= seq![ev[1], ev[2], ev[3]]);
            assert(t2 =~= seq![ev[2], ev[3]]);
            assert(t3 =~= seq![ev[3]]);
            assert(node_lookup(ev, "uri"@) == Some(ev[0].1));
            assert(node_lookup(t1, "body"@) == Some(ev[1].1));
            assert(node_lookup(ev, "body"@) == Some(ev[1].1));
            assert(node_lookup(t2, "method"@) == Some(ev[2].1));
            assert(node_lookup(t1, "method"@) == Some(ev[2].1));
            assert(node_lookup(ev, "method"@) == Some(ev[2].1));
            assert(node_lookup(t3, "headers"@) == Some(ev[3].1));
            assert(node_lookup(t2, "headers"@) == Some(ev[3].1));
            assert(node_lookup(t1, "headers"@) == Some(ev[3].1));
            assert(node_lookup(ev, "headers"@) == Some(ev[3].1));
            lemma_method_round_trip(self@.method);
        }
        Node::Object(entries)
    }
}

impl Response {
    /// Decode a response node. An absent or null `http_version` is `None`;
    /// an unrecognized version token is an unknown-version failure.
    pub fn decode(n: &Node) -> (r: Result<Response, DecodeError>)
        ensures
            rview(r) == response_of_node(n@),
    {
        match n {
            Node::Object(entries) => match map_get(entries, "body") {
                Some(bn) => match Body::decode(bn) {
                    Ok(body) => {
                        let http_version: Option<Version> = match map_get(
                            entries,
                            "http_version",
                        ) {
                            None => None,
                            Some(Node::Null) => None,
                            Some(Node::Text(vs)) => match Version::decode(vs.as_str()) {
                                Some(v) => Some(v),
                                None => {
                                    return Err(DecodeError::UnknownVersion(vs.clone()));
                                },
                            },
                            Some(_) => {
                                return Err(
                                    DecodeError::TypeMismatch("http_version".to_owned()),
                                );
                            },
                        };
                        match map_get(entries, "status") {
                            Some(sn) => match Status::decode(sn) {
                                Ok(status) => match map_get(entries, "headers") {
                                    Some(hn) => match decode_headers(hn) {
                                        Ok(headers) => Ok(
                                            Response { body, http_version, status, headers },
                                        ),
                                        Err(e) => Err(e),
                                    },
                                    None => Err(DecodeError::MissingField("headers".to_owned())),
                                },
                                Err(e) => Err(e),
                            },
                            None => Err(DecodeError::MissingField("status".to_owned())),
                        }
                    },
                    Err(e) => Err(e),
                },
                None => Err(DecodeError::MissingField("body".to_owned())),
            },
            _ => Err(DecodeError::TypeMismatch("response".to_owned())),
        }
    }

    /// Encode to a response node, writing an absent version as an explicit
    /// null. Decoding the encoded node yields this response back.
    pub fn encode(&self) -> (n: Node)
        ensures
            n@ == response_node(self@),
            response_of_node(n@) == Ok::<ResponseV, DecodeErrorV>(self@),
    {
        let body_n: Node = self.body.encode();
        let version_n: Node = match &self.http_version {
            Some(v) => Node::Text(v.encode()),
            None => Node::Null,
        };
        let status_n: Node = self.status.encode();
        let headers_n: Node = encode_headers(&self.headers);
        let mut entries: Vec<(String, Node)> = Vec::new();
        entries.push(("body".to_owned(), body_n));
        entries.push(("http_version".to_owned(), version_n));
        entries.push(("status".to_owned(), status_n));
        entries.push(("headers".to_owned(), headers_n));
        proof {
            lemma_entries_view(entries@);
            let ev = entries_view(entries@);
            assert(ev =~= response_node(self@)->Object_0);
            reveal_strlit("body");
            reveal_strlit("http_version");
            reveal_strlit("status");
            reveal_strlit("headers");
            assert(!("body"@ =~= "http_version"@));
            assert(!("body"@ =~= "status"@));
            assert(!("body"@ =~= "headers"@));
            assert(!("http_version"@ =~= "status"@));
            assert(!("http_version"@ =~= "headers"@));
            assert(!("status"@ =~= "headers"@));
            let t1 = ev.drop_first();
            let t2 = t1.drop_first();
            let t3 = t2.drop_first();
            assert(t1 =~= seq![ev[1], ev[2], ev[3]]);
            assert(t2 =~= seq![ev[2], ev[3]]);
            assert(t3 =~= seq![ev[3]]);
            assert(node_lookup(ev, "body"@) == Some(ev[0].1));
            assert(node_lookup(t1, "http_version"@) == Some(ev[1].1));
            assert(node_lookup(ev, "http_version"@) == Some(ev[1].1));
            assert(node_lookup(t2, "status"@) == Some(ev[2].1));
            assert(node_lookup(t1, "status"@) == Some(ev[2].1));
            assert(node_lookup(ev, "status"@) == Some(ev[2].1));
            assert(node_lookup(t3, "headers"@) == Some(ev[3].1));
            assert(node_lookup(t2, "headers"@) == Some(ev[3].1));
            assert(node_lookup(t1, "headers"@) == Some(ev[3].1));
            assert(node_lookup(ev, "headers"@) == Some(ev[3].1));
            match self@.http_version {
                Some(v) => lemma_version_round_trip(v),
                None => {},
            }
        }
        Node::Object(entries)
    }
}

impl HttpInteraction {
    /// Decode an interaction node: a `response`, a `request` and a text
    /// RFC 2822 `recorded_at`.
    pub fn decode(n: &Node) -> (r: Result<HttpInteraction, DecodeError>)
        ensures
            rview(r) == interaction_of_node(n@),
            r matches Ok(x) ==> x@.wf(),
    {
        match n {
            Node::Object(entries) => match map_get(entries, "response") {
                Some(rn) => match Response::decode(rn) {
                    Ok(response) => match map_get(entries, "request") {
                        Some(qn) => match Request::decode(qn) {
                            Ok(request) => match map_get(entries, "recorded_at") {
                                Some(Node::Text(ts)) => match Instant::decode(ts.as_str()) {
                                    Ok(recorded_at) => Ok(
                                        HttpInteraction { response, request, recorded_at },
                                    ),
                                    Err(e) => Err(e),
                                },
                                None => Err(
                                    DecodeError::MissingField("recorded_at".to_owned()),
                                ),
                                Some(_) => Err(
                                    DecodeError::TypeMismatch("recorded_at".to_owned()),
                                ),
                            },
                            Err(e) => Err(e),
                        },
                        None => Err(DecodeError::MissingField("request".to_owned())),
                    },
                    Err(e) => Err(e),
                },
                None => Err(DecodeError::MissingField("response".to_owned())),
            },
            _ => Err(DecodeError::TypeMismatch("interaction".to_owned())),
        }
    }

    /// Encode to an interaction node. Decoding the encoded node yields this
    /// interaction back, provided it is well formed.
    pub fn encode(&self) -> (n: Node)
        requires
            self@.wf(),
        ensures
            n@ == interaction_node(self@),
            interaction_of_node(n@) == Ok::<HttpInteractionV, DecodeErrorV>(self@),
    {
        let response_n: Node = self.response.encode();
        let request_n: Node = self.request.encode();
        let at_n: Node = Node::Text(self.recorded_at.encode());
        let mut entries: Vec<(String, Node)> = Vec::new();
        entries.push(("response".to_owned(), response_n));
        entries.push(("request".to_owned(), request_n));
        entries.push(("recorded_at".to_owned(), at_n));
        proof {
            lemma_entries_view(entries@);
            let ev = entries_view(entries@);
            assert(ev =~= interaction_node(self@)->Object_0);
            reveal_strlit("response");
            reveal_strlit("request");
            reveal_strlit("recorded_at");
            assert(!("response"@ =~= "request"@));
            assert(!("response"@ =~= "recorded_at"@));
            assert(!("request"@ =~= "recorded_at"@));
            let t1 = ev.drop_first();
            let t2 = t1.drop_first();
            assert(t1 =~= seq![ev[1], ev[2]]);
            assert(t2 =~= seq![ev[2]]);
            assert(node_lookup(ev, "response"@) == Some(ev[0].1));
            assert(node_lookup(t1, "request"@) == Some(ev[1].1));
            assert(node_lookup(ev, "request"@) == Some(ev[1].1));
            assert(node_lookup(t2, "recorded_at"@) == Some(ev[2].1));
            assert(node_lookup(t1, "recorded_at"@) == Some(ev[2].1));
            assert(node_lookup(ev, "recorded_at"@) == Some(ev[2].1));
        }
        Node::Object(entries)
    }
}

impl Cassette {
    /// Decode a cassette node: the interaction list in playback order and
    /// the recorder identifier. Every decoded cassette is well formed.
    #[verifier::loop_isolation(false)]
    pub fn decode(n: &Node) -> (r: Result<Cassette, DecodeError>)
        ensures
            rview(r) == cassette_of_node(n@),
            r matches Ok(c) ==> c@.wf(),
    {
        match n {
            Node::Object(entries) => {
                proof {
                    lemma_entries_view(entries@);
                }
                match map_get(entries, "http_interactions") {
                    Some(Node::List(items)) => {
                        proof {
                            lemma_list_view(items@);
                        }
                        let ghost lv = list_view(items@);
                        let mut out: Vec<HttpInteraction> = Vec::new();
                        let mut i: usize = 0;
                        proof {
                            assert(lv.subrange(0, 0) =~= Seq::empty());
                            assert(interactions_view(out@) =~= Seq::empty());
                        }
                        while i < items.len()
                            invariant
                                0 <= i <= items.len(),
                                interactions_of_nodes(lv.subrange(0, i as int)) == Ok::<
                                    Seq<HttpInteractionV>,
                                    DecodeErrorV,
                                >(interactions_view(out@)),
                                forall|k: int|
                                    0 <= k < out@.len() ==> (#[trigger] interactions_view(
                                        out@,
                                    )[k]).wf(),
                            decreases items.len() - i,
                        {
                            let ghost opre = interactions_view(out@);
                            match HttpInteraction::decode(&items[i]) {
                                Ok(x) => {
                                    out.push(x);
                                    proof {
                                        assert(lv.subrange(0, i + 1).drop_last() =~= lv.subrange(
                                            0,
                                            i as int,
                                        ));
                                        assert(lv.subrange(0, i + 1).last() == lv[i as int]);
                                        assert(interactions_view(out@) =~= opre.push(x@));
                                    }
                                },
                                Err(e) => {
                                    proof {
                                        assert(lv.subrange(0, i + 1).drop_last() =~= lv.subrange(
                                            0,
                                            i as int,
                                        ));
                                        assert(interactions_of_nodes(lv.subrange(0, i + 1))
                                            == Err::<Seq<HttpInteractionV>, DecodeErrorV>(e@));
                                        lemma_interactions_err_extends(lv, i + 1);
                                    }
                                    return Err(e);
                                },
                            }
                            i = i + 1;
                        }
                        proof {
                            assert(lv.subrange(0, items@.len() as int) =~= lv);
                        }
                        match map_get(entries, "recorded_with") {
                            Some(Node::Text(t)) => Ok(
                                Cassette { http_interactions: out, recorded_with: t.clone() },
                            ),
                            None => Err(DecodeError::MissingField("recorded_with".to_owned())),
                            Some(_) => Err(DecodeError::TypeMismatch("recorded_with".to_owned())),
                        }
                    },
                    None => Err(DecodeError::MissingField("http_interactions".to_owned())),
                    Some(_) => Err(DecodeError::TypeMismatch("http_interactions".to_owned())),
                }
            },
            _ => Err(DecodeError::TypeMismatch("cassette".to_owned())),
        }
    }

    /// Whether every interaction of this cassette is well formed: exactly
    /// the cassettes that `encode` accepts.
    #[verifier::loop_isolation(false)]
    pub fn is_well_formed(&self) -> (b: bool)
        ensures
            b == self@.wf(),
    {
        let ghost cv = self@;
        let mut i: usize = 0;
        while i < self.http_interactions.len()
            invariant
                0 <= i <= self.http_interactions.len(),
                forall|k: int|
                    0 <= k < i ==> (#[trigger] cv.http_interactions[k]).wf(),
            decreases self.http_interactions.len() - i,
        {
            let x = &self.http_interactions[i];
            let ok: bool = x.request.method.is_canonical() && x.recorded_at.is_valid();
            if !ok {
                proof {
                    assert(!cv.http_interactions[i as int].wf());
                }
                return false;
            }
            i = i + 1;
        }
        true
    }

    /// Encode to a cassette node, playback order preserved. The round trip
    /// in full: decoding the encoded node yields this cassette back, for
    /// every well-formed cassette — in particular for every decoded one.
    #[verifier::loop_isolation(false)]
    pub fn encode(&self) -> (n: Node)
        requires
            self@.wf(),
        ensures
            n@ == cassette_node(self@),
            cassette_of_node(n@) == Ok::<CassetteV, DecodeErrorV>(self@),
    {
        let ghost cv = self@;
        let mut items: Vec<Node> = Vec::new();
        let mut i: usize = 0;
        proof {
            lemma_list_view(items@);
            assert(list_view(items@) =~= Seq::empty());
            assert(cv.http_interactions.subrange(0, 0) =~= Seq::empty());
        }
        while i < self.http_interactions.len()
            invariant
                0 <= i <= self.http_interactions.len(),
                items@.len() == i,
                list_view(items@) =~= interactions_nodes(
                    cv.http_interactions.subrange(0, i as int),
                ),
                interactions_of_nodes(list_view(items@)) == Ok::<
                    Seq<HttpInteractionV>,
                    DecodeErrorV,
                >(cv.http_interactions.subrange(0, i as int)),
            decreases self.http_interactions.len() - i,
        {
            let ghost ipre = list_view(items@);
            proof {
                assert(cv.http_interactions[i as int].wf());
            }
            let node: Node = self.http_interactions[i].encode();
            let ghost items_old = items@;
            items.push(node);
            proof {
                lemma_list_view(items@);
                assert(items@ == items_old.push(items@.last()));
                assert(items@.drop_last() =~= items_old);
                assert(list_view(items@) == list_view(items@.drop_last()).push(items@.last()@));
                assert(cv.http_interactions.subrange(0, i + 1).drop_last()
                    =~= cv.http_interactions.subrange(0, i as int));
                assert(cv.http_interactions.subrange(0, i + 1).last()
                    == cv.http_interactions[i as int]);
                assert(list_view(items@) =~= interactions_nodes(
                    cv.http_interactions.subrange(0, i + 1),
                ));
                assert(cv.http_interactions.subrange(0, i as int).push(
                    cv.http_interactions[i as int],
                ) =~= cv.http_interactions.subrange(0, i + 1));
                assert(list_view(items@).drop_last() =~= ipre);
                assert(list_view(items@).last() == node@);
                assert(interaction_of_node(list_view(items@).last())
                    == Ok::<HttpInteractionV, DecodeErrorV>(cv.http_interactions[i as int]));
                assert(interactions_of_nodes(list_view(items@)) == Ok::<
                    Seq<HttpInteractionV>,
                    DecodeErrorV,
                >(cv.http_interactions.subrange(0, i as int).push(cv.http_interactions[i as int])));
            }
            i = i + 1;
        }
        proof {
            assert(cv.http_interactions.subrange(0, self.http_interactions@.len() as int)
                =~= cv.http_interactions);
        }
        let mut entries: Vec<(String, Node)> = Vec::new();
        entries.push(("http_interactions".to_owned(), Node::List(items)));
        entries.push(("recorded_with".to_owned(), Node::Text(self.recorded_with.clone())));
        proof {
            lemma_entries_view(entries@);
            let ev = entries_view(entries@);
            assert(ev =~= cassette_node(cv)->Object_0);
            reveal_strlit("http_interactions");
            reveal_strlit("recorded_with");
            assert(!("http_interactions"@ =~= "recorded_with"@));
            assert(node_lookup(ev, "http_interactions"@) == Some(ev[0].1));
            assert(ev.drop_first() =~= seq![ev[1]]);
            assert(node_lookup(ev.drop_first(), "recorded_with"@) == Some(ev[1].1));
            assert(node_lookup(ev, "recorded_with"@) == Some(NodeV::Text(self.recorded_with@)));
        }
        Node::Object(entries)
    }
}

} // verus!
