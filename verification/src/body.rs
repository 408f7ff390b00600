//! The dual-representation HTTP body and its codec.
//!
//! On the wire a body is either a bare text scalar or an object with a
//! `string` field and an optional `encoding` field; both decode into the one
//! [`Body`] type. A body always encodes back to the object form — an
//! intentional, lossless normalization, since a bare scalar and an object
//! with no encoding mean the same body.

use vstd::prelude::*;

verus! {

use crate::error::DecodeError;
use crate::error::DecodeErrorV;
use crate::error::rview;
use crate::node::Node;
use crate::node::NodeV;
use crate::node::entries_view;
use crate::node::lemma_entries_view;
use crate::node::map_get;
use crate::node::node_lookup;

/// A recorded HTTP body.
#[derive(Debug, Clone, PartialEq)]
pub struct Body {
    /// The content transfer encoding of the body, if one was recorded.
    pub encoding: Option<String>,
    /// The body content, always present, possibly empty.
    pub string: String,
}

/// The mathematical value of a [`Body`].
pub ghost struct BodyV {
    /// The content transfer encoding, if one was recorded.
    pub encoding: Option<Seq<char>>,
    /// The body content.
    pub string: Seq<char>,
}

impl View for Body {
    type V = BodyV;

    open spec fn view(&self) -> BodyV {
        BodyV {
            encoding: match self.encoding {
                Some(e) => Some(e@),
                None => None,
            },
            string: self.string@,
        }
    }
}

/// What a body node decodes to. A bare text scalar always succeeds, with no
/// encoding; an object needs a text `string` field (absence is a
/// missing-field failure) and may carry a text or null `encoding` field;
/// any other shape is a mismatch.
pub open spec fn body_of_node(n: NodeV) -> Result<BodyV, DecodeErrorV> {
    match n {
        NodeV::Text(s) => Ok(BodyV { encoding: None, string: s }),
        NodeV::Object(m) => match node_lookup(m, "string"@) {
            Some(NodeV::Text(s)) => match node_lookup(m, "encoding"@) {
                None => Ok(BodyV { encoding: None, string: s }),
                Some(NodeV::Null) => Ok(BodyV { encoding: None, string: s }),
                Some(NodeV::Text(e)) => Ok(BodyV { encoding: Some(e), string: s }),
                Some(_) => Err(DecodeErrorV::TypeMismatch("encoding"@)),
            },
            None => Err(DecodeErrorV::MissingField("string"@)),
            Some(_) => Err(DecodeErrorV::TypeMismatch("string"@)),
        },
        _ => Err(DecodeErrorV::TypeMismatch("body"@)),
    }
}

/// The node a body encodes to: always the object form, with the absent
/// encoding written as an explicit null.
pub open spec fn body_node(b: BodyV) -> NodeV {
    NodeV::Object(
        seq![
            (
                "encoding"@,
                match b.encoding {
                    Some(e) => NodeV::Text(e),
                    None => NodeV::Null,
                },
            ),
            ("string"@, NodeV::Text(b.string)),
        ],
    )
}

impl Body {
    /// Build a body from bare text. This conversion cannot fail, and says so
    /// by returning the body directly, with no error channel: the scalar leg
    /// of the dual representation.
    pub fn from_str(s: &str) -> (b: Body)
        ensures
            b@ == (BodyV { encoding: None, string: s@ }),
    {
        Body { encoding: None, string: s.to_owned() }
    }

    /// Decode a body node of either representation.
    pub fn decode(n: &Node) -> (r: Result<Body, DecodeError>)
        ensures
            rview(r) == body_of_node(n@),
    {
        match n {
            Node::Text(s) => Ok(Body { encoding: None, string: s.clone() }),
            Node::Object(entries) => match map_get(entries, "string") {
                Some(Node::Text(s)) => {
                    let string: String = s.clone();
                    match map_get(entries, "encoding") {
                        None => Ok(Body { encoding: None, string }),
                        Some(Node::Null) => Ok(Body { encoding: None, string }),
                        Some(Node::Text(e)) => Ok(
                            Body { encoding: Some(e.clone()), string },
                        ),
                        Some(_) => Err(DecodeError::TypeMismatch("encoding".to_owned())),
                    }
                },
                None => Err(DecodeError::MissingField("string".to_owned())),
                Some(_) => Err(DecodeError::TypeMismatch("string".to_owned())),
            },
            _ => Err(DecodeError::TypeMismatch("body".to_owned())),
        }
    }

    /// Encode to the object form. Decoding the encoded node yields this body
    /// back: the body leg of the round trip.
    pub fn encode(&self) -> (n: Node)
        ensures
            n@ == body_node(self@),
            body_of_node(n@) == Ok::<BodyV, DecodeErrorV>(self@),
    {
        let enc: Node = match &self.encoding {
            Some(e) => Node::Text(e.clone()),
            None => Node::Null,
        };
        let mut entries: Vec<(String, Node)> = Vec::new();
        entries.push(("encoding".to_owned(), enc));
        entries.push(("string".to_owned(), Node::Text(self.string.clone())));
        proof {
            lemma_entries_view(entries@);
            let ev = entries_view(entries@);
            assert(ev =~= body_node(self@)->Object_0);
            reveal_strlit("encoding");
            reveal_strlit("string");
            assert(!("encoding"@ =~= "string"@));
            assert(node_lookup(ev, "encoding"@) == Some(ev[0].1));
            assert(ev.drop_first() =~= seq![ev[1]]);
            assert(node_lookup(ev.drop_first(), "string"@) == Some(ev[1].1));
            assert(node_lookup(ev, "string"@) == Some(NodeV::Text(self.string@)));
        }
        Node::Object(entries)
    }
}

} // verus!
