//! HTTP headers: a mapping from header name to an ordered list of values.
//!
//! Names keep their case exactly as given and are not normalized; value
//! order within a list is significant (repeated headers such as multiple
//! `Set-Cookie` entries), and entries keep document order through decode and
//! encode.

use vstd::prelude::*;

verus! {

use crate::error::DecodeError;
use crate::error::DecodeErrorV;
use crate::node::Node;
use crate::node::NodeV;
use crate::node::entries_view;
use crate::node::lemma_entries_view;
use crate::node::lemma_list_view;
use crate::node::list_view;

/// An HTTP headers mapping, in document order.
pub type Headers = Vec<(String, Vec<String>)>;

/// The mathematical value of a [`Headers`] mapping.
pub type HeadersV = Seq<(Seq<char>, Seq<Seq<char>>)>;

/// The values of a list of header values.
pub open spec fn values_view(s: Seq<String>) -> Seq<Seq<char>> {
    Seq::new(s.len(), |i: int| s[i]@)
}

/// The value of a headers mapping.
pub open spec fn headers_view(s: Seq<(String, Vec<String>)>) -> HeadersV {
    Seq::new(s.len(), |i: int| (s[i].0@, values_view(s[i].1@)))
}

/// What a list of value nodes decodes to: every node must be text.
pub open spec fn values_of_nodes(s: Seq<NodeV>) -> Option<Seq<Seq<char>>>
    decreases s,
{
    if s.len() == 0 {
        Some(Seq::empty())
    } else {
        match values_of_nodes(s.drop_last()) {
            Some(pre) => match s.last() {
                NodeV::Text(t) => Some(pre.push(t)),
                _ => None,
            },
            None => None,
        }
    }
}

/// What a mapping's entries decode to: every value must be a list of text
/// nodes.
pub open spec fn headers_of_entries(s: Seq<(Seq<char>, NodeV)>) -> Option<HeadersV>
    decreases s,
{
    if s.len() == 0 {
        Some(Seq::empty())
    } else {
        match headers_of_entries(s.drop_last()) {
            Some(pre) => match s.last().1 {
                NodeV::List(vs) => match values_of_nodes(vs) {
                    Some(v) => Some(pre.push((s.last().0, v))),
                    None => None,
                },
                _ => None,
            },
            None => None,
        }
    }
}

/// What a headers node decodes to: a mapping whose values are lists of
/// text; any other shape is a mismatch.
pub open spec fn headers_of_node(n: NodeV) -> Result<HeadersV, DecodeErrorV> {
    match n {
        NodeV::Object(m) => match headers_of_entries(m) {
            Some(h) => Ok(h),
            None => Err(DecodeErrorV::TypeMismatch("headers"@)),
        },
        _ => Err(DecodeErrorV::TypeMismatch("headers"@)),
    }
}

/// The nodes a list of header values encodes to.
pub open spec fn values_nodes(v: Seq<Seq<char>>) -> Seq<NodeV> {
    Seq::new(v.len(), |i: int| NodeV::Text(v[i]))
}

/// The node a headers mapping encodes to, entry order preserved.
pub open spec fn headers_node(h: HeadersV) -> NodeV {
    NodeV::Object(Seq::new(h.len(), |i: int| (h[i].0, NodeV::List(values_nodes(h[i].1)))))
}

/// A rejected prefix rejects the whole list of value nodes.
proof fn lemma_values_none_extends(s: Seq<NodeV>, j: int)
    requires
        0 <= j <= s.len(),
        values_of_nodes(s.subrange(0, j)) is None,
    ensures
        values_of_nodes(s) is None,
    decreases s.len() - j,
{
    if j == s.len() {
        assert(s.subrange(0, j) =~= s);
    } else {
        assert(s.subrange(0, j + 1).drop_last() =~= s.subrange(0, j));
        assert(values_of_nodes(s.subrange(0, j + 1)) is None);
        lemma_values_none_extends(s, j + 1);
    }
}

/// A rejected prefix rejects the whole entry list.
proof fn lemma_headers_none_extends(s: Seq<(Seq<char>, NodeV)>, j: int)
    requires
        0 <= j <= s.len(),
        headers_of_entries(s.subrange(0, j)) is None,
    ensures
        headers_of_entries(s) is None,
    decreases s.len() - j,
{
    if j == s.len() {
        assert(s.subrange(0, j) =~= s);
    } else {
        assert(s.subrange(0, j + 1).drop_last() =~= s.subrange(0, j));
        assert(headers_of_entries(s.subrange(0, j + 1)) is None);
        lemma_headers_none_extends(s, j + 1);
    }
}

/// Decode a headers node: a mapping from header name to a list of text
/// values, names and order kept exactly. Fails with a mismatch exactly when
/// the node is not such a mapping.
#[verifier::loop_isolation(false)]
pub fn decode_headers(n: &Node) -> (r: Result<Headers, DecodeError>)
    ensures
        match r {
            Ok(h) => headers_of_node(n@) == Ok::<HeadersV, DecodeErrorV>(headers_view(h@)),
            Err(e) => headers_of_node(n@) == Err::<HeadersV, DecodeErrorV>(e@),
        },
{
    match n {
        Node::Object(entries) => {
            proof {
                lemma_entries_view(entries@);
            }
            let ghost ev = entries_view(entries@);
            let mut out: Headers = Vec::new();
            let mut i: usize = 0;
            proof {
                assert(ev.subrange(0, 0) =~= Seq::empty());
                assert(headers_view(out@) =~= Seq::empty());
            }
            while i < entries.len()
                invariant
                    0 <= i <= entries.len(),
                    ev == entries_view(entries@),
                    ev.len() == entries@.len(),
                    forall|j: int|
                        0 <= j < entries@.len() ==> ev[j] == (entries@[j].0@, entries@[j].1@),
                    headers_of_entries(ev.subrange(0, i as int)) == Some(headers_view(out@)),
                decreases entries.len() - i,
            {
                let ghost pre = headers_view(out@);
                match &entries[i].1 {
                    Node::List(vals) => {
                        proof {
                            lemma_list_view(vals@);
                        }
                        let ghost lv = list_view(vals@);
                        let mut vs: Vec<String> = Vec::new();
                        let mut j: usize = 0;
                        proof {
                            assert(lv.subrange(0, 0) =~= Seq::empty());
                            assert(values_view(vs@) =~= Seq::empty());
                        }
                        while j < vals.len()
                            invariant
                                0 <= j <= vals.len(),
                                lv == list_view(vals@),
                                lv.len() == vals@.len(),
                                forall|k: int| 0 <= k < vals@.len() ==> lv[k] == vals@[k]@,
                                values_of_nodes(lv.subrange(0, j as int)) == Some(
                                    values_view(vs@),
                                ),
                            decreases vals.len() - j,
                        {
                            match &vals[j] {
                                Node::Text(t) => {
                                    let ghost vpre = values_view(vs@);
                                    vs.push(t.clone());
                                    proof {
                                        assert(lv.subrange(0, j + 1).drop_last() =~= lv.subrange(
                                            0,
                                            j as int,
                                        ));
                                        assert(lv.subrange(0, j + 1).last() == lv[j as int]);
                                        assert(values_view(vs@) =~= vpre.push(t@));
                                    }
                                },
                                _ => {
                                    proof {
                                        assert(lv.subrange(0, j + 1).drop_last() =~= lv.subrange(
                                            0,
                                            j as int,
                                        ));
                                        assert(values_of_nodes(lv.subrange(0, j + 1)) is None);
                                        lemma_values_none_extends(lv, j + 1);
                                        assert(ev.subrange(0, i + 1).drop_last() =~= ev.subrange(
                                            0,
                                            i as int,
                                        ));
                                        assert(headers_of_entries(ev.subrange(0, i + 1)) is None);
                                        lemma_headers_none_extends(ev, i + 1);
                                    }
                                    return Err(DecodeError::TypeMismatch("headers".to_owned()));
                                },
                            }
                            j = j + 1;
                        }
                        proof {
                            assert(lv.subrange(0, vals@.len() as int) =~= lv);
                        }
                        out.push((entries[i].0.clone(), vs));
                        proof {
                            assert(ev.subrange(0, i + 1).drop_last() =~= ev.subrange(0, i as int));
                            assert(ev.subrange(0, i + 1).last() == ev[i as int]);
                            assert(headers_view(out@) =~= pre.push(
                                (entries@[i as int].0@, values_view(vs@)),
                            ));
                        }
                    },
                    _ => {
                        proof {
                            assert(ev.subrange(0, i + 1).drop_last() =~= ev.subrange(0, i as int));
                            assert(headers_of_entries(ev.subrange(0, i + 1)) is None);
                            lemma_headers_none_extends(ev, i + 1);
                        }
                        return Err(DecodeError::TypeMismatch("headers".to_owned()));
                    },
                }
                i = i + 1;
            }
            proof {
                assert(ev.subrange(0, entries@.len() as int) =~= ev);
            }
            Ok(out)
        },
        _ => Err(DecodeError::TypeMismatch("headers".to_owned())),
    }
}

/// Encode a headers mapping, entry order and value order preserved.
/// Decoding the encoded node yields this mapping back: the headers leg of
/// the round trip.
#[verifier::loop_isolation(false)]
pub fn encode_headers(h: &Headers) -> (n: Node)
    ensures
        n@ == headers_node(headers_view(h@)),
        headers_of_node(n@) == Ok::<HeadersV, DecodeErrorV>(headers_view(h@)),
{
    let ghost hv = headers_view(h@);
    let mut entries: Vec<(String, Node)> = Vec::new();
    let mut i: usize = 0;
    proof {
        lemma_entries_view(entries@);
        assert(entries_view(entries@) =~= Seq::empty());
        assert(hv.subrange(0, 0) =~= Seq::empty());
    }
    while i < h.len()
        invariant
            0 <= i <= h.len(),
            hv == headers_view(h@),
            hv.len() == h@.len(),
            entries@.len() == i,
            entries_view(entries@) =~= Seq::new(
                i as nat,
                |k: int| (hv[k].0, NodeV::List(values_nodes(hv[k].1))),
            ),
            headers_of_entries(entries_view(entries@)) == Some(hv.subrange(0, i as int)),
        decreases h.len() - i,
    {
        let ghost epre = entries_view(entries@);
        let mut vs: Vec<Node> = Vec::new();
        let mut j: usize = 0;
        proof {
            lemma_list_view(vs@);
            assert(list_view(vs@) =~= Seq::empty());
            assert(values_of_nodes(list_view(vs@)) == Some(Seq::<Seq<char>>::empty()));
            assert(hv[i as int].1.subrange(0, 0) =~= Seq::empty());
        }
        while j < h[i].1.len()
            invariant
                0 <= i < h.len(),
                0 <= j <= h@[i as int].1.len(),
                hv == headers_view(h@),
                hv.len() == h@.len(),
                hv[i as int].1 == values_view(h@[i as int].1@),
                hv[i as int].1.len() == h@[i as int].1@.len(),
                vs@.len() == j,
                list_view(vs@) =~= values_nodes(hv[i as int].1.subrange(0, j as int)),
                values_of_nodes(list_view(vs@)) == Some(hv[i as int].1.subrange(0, j as int)),
            decreases h[i as int].1.len() - j,
        {
            let ghost vpre = list_view(vs@);
            let ghost vs_old = vs@;
            vs.push(Node::Text(h[i].1[j].clone()));
            proof {
                lemma_list_view(vs@);
                assert(vs@ == vs_old.push(vs@.last()));
                assert(vs@.drop_last() =~= vs_old);
                assert(list_view(vs@) == list_view(vs@.drop_last()).push(vs@.last()@));
                assert(vs@.last()@ == NodeV::Text(h@[i as int].1@[j as int]@));
                assert(list_view(vs@) =~= vpre.push(NodeV::Text(h@[i as int].1@[j as int]@)));
                assert(list_view(vs@) =~= values_nodes(hv[i as int].1.subrange(0, j + 1)));
                assert(list_view(vs@).drop_last() =~= vpre);
                assert(hv[i as int].1.subrange(0, j + 1).drop_last() =~= hv[i as int].1.subrange(
                    0,
                    j as int,
                ));
            }
            j = j + 1;
        }
        proof {
            assert(hv[i as int].1.subrange(0, h@[i as int].1@.len() as int) =~= hv[i as int].1);
        }
        let ghost entries_old = entries@;
        entries.push((h[i].0.clone(), Node::List(vs)));
        proof {
            lemma_entries_view(entries@);
            assert(entries@ == entries_old.push(entries@.last()));
            assert(entries@.drop_last() =~= entries_old);
            assert(entries_view(entries@) == entries_view(entries@.drop_last()).push(
                (entries@.last().0@, entries@.last().1@),
            ));
            assert(entries@.last().1@ == NodeV::List(values_nodes(hv[i as int].1)));
            assert(entries_view(entries@) =~= epre.push(
                (hv[i as int].0, NodeV::List(values_nodes(hv[i as int].1))),
            ));
            assert(entries_view(entries@).drop_last() =~= epre);
            assert(hv.subrange(0, i + 1).drop_last() =~= hv.subrange(0, i as int));
            assert(hv.subrange(0, i + 1).last() == hv[i as int]);
        }
        i = i + 1;
    }
    proof {
        assert(hv.subrange(0, h@.len() as int) =~= hv);
        assert(entries_view(entries@) =~= headers_node(hv)->Object_0);
    }
    Node::Object(entries)
}

} // verus!
