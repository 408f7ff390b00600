//! Structured data nodes: the shape-level interface between this library and
//! a generic JSON or YAML reader or writer.

use vstd::prelude::*;

verus! {

/// One node of a structured document, as a generic JSON or YAML reader hands
/// it over: a text scalar, an integer scalar, an explicit null, some other
/// scalar, an ordered sequence, or a mapping whose entries keep document
/// order.
#[derive(Debug, PartialEq)]
pub enum Node {
    /// A text scalar.
    Text(String),
    /// An integer scalar.
    Int(i64),
    /// An explicit null.
    Null,
    /// Any other scalar (a boolean, a floating-point number, ...). The
    /// encoder never produces it; the decoder rejects it where a typed value
    /// is required and ignores it elsewhere.
    Other,
    /// An ordered sequence of nodes.
    List(Vec<Node>),
    /// A mapping: key/value entries in document order.
    Object(Vec<(String, Node)>),
}

/// The mathematical value of a [`Node`].
pub ghost enum NodeV {
    /// A text scalar.
    Text(Seq<char>),
    /// An integer scalar.
    Int(int),
    /// An explicit null.
    Null,
    /// Any other scalar.
    Other,
    /// An ordered sequence of nodes.
    List(Seq<NodeV>),
    /// A mapping in document order.
    Object(Seq<(Seq<char>, NodeV)>),
}

/// The values of a sequence of nodes, element by element.
pub open spec fn list_view(s: Seq<Node>) -> Seq<NodeV>
    decreases s,
{
    if s.len() == 0 {
        Seq::empty()
    } else {
        list_view(s.drop_last()).push(s.last()@)
    }
}

/// The values of a sequence of mapping entries, entry by entry.
pub open spec fn entries_view(s: Seq<(String, Node)>) -> Seq<(Seq<char>, NodeV)>
    decreases s,
{
    if s.len() == 0 {
        Seq::empty()
    } else {
        entries_view(s.drop_last()).push((s.last().0@, s.last().1@))
    }
}

impl View for Node {
    type V = NodeV;

    open spec fn view(&self) -> NodeV
        decreases self,
    {
        match self {
            Node::Text(s) => NodeV::Text(s@),
            Node::Int(i) => NodeV::Int(*i as int),
            Node::Null => NodeV::Null,
            Node::Other => NodeV::Other,
            Node::List(v) => NodeV::List(list_view(v@)),
            Node::Object(v) => NodeV::Object(entries_view(v@)),
        }
    }
}

/// A node sequence and its value sequence line up element by element.
pub proof fn lemma_list_view(s: Seq<Node>)
    ensures
        list_view(s).len() == s.len(),
        forall|i: int| 0 <= i < s.len() ==> list_view(s)[i] == s[i]@,
    decreases s,
{
    if s.len() > 0 {
        lemma_list_view(s.drop_last());
        assert(list_view(s) == list_view(s.drop_last()).push(s.last()@));
        assert forall|i: int| 0 <= i < s.len() implies list_view(s)[i] == s[i]@ by {
            if i < s.len() - 1 {
                assert(list_view(s)[i] == list_view(s.drop_last())[i]);
                assert(s.drop_last()[i] == s[i]);
            } else {
                assert(list_view(s)[i] == s.last()@);
            }
        }
    }
}

/// An entry sequence and its value sequence line up entry by entry.
pub proof fn lemma_entries_view(s: Seq<(String, Node)>)
    ensures
        entries_view(s).len() == s.len(),
        forall|i: int|
            0 <= i < s.len() ==> entries_view(s)[i] == (s[i].0@, s[i].1@),
    decreases s,
{
    if s.len() > 0 {
        lemma_entries_view(s.drop_last());
        assert(entries_view(s) == entries_view(s.drop_last()).push((s.last().0@, s.last().1@)));
        assert forall|i: int|
            0 <= i < s.len() implies entries_view(s)[i] == (s[i].0@, s[i].1@) by {
            if i < s.len() - 1 {
                assert(entries_view(s)[i] == entries_view(s.drop_last())[i]);
                assert(s.drop_last()[i] == s[i]);
            } else {
                assert(entries_view(s)[i] == (s.last().0@, s.last().1@));
            }
        }
    }
}

/// The first value bound to `key`, scanning the entries in document order.
pub open spec fn node_lookup(entries: Seq<(Seq<char>, NodeV)>, key: Seq<char>) -> Option<NodeV>
    decreases entries,
{
    if entries.len() == 0 {
        None
    } else if entries.first().0 == key {
        Some(entries.first().1)
    } else {
        node_lookup(entries.drop_first(), key)
    }
}

/// Text equality, decided by comparing the owned copies of both slices.
pub fn str_eq(a: &str, b: &str) -> (r: bool)
    ensures
        r == (a@ == b@),
{
    let oa: String = a.to_owned();
    let ob: String = b.to_owned();
    oa == ob
}

/// Find the first entry bound to `key` in a mapping's entry list.
pub fn map_get<'a>(entries: &'a Vec<(String, Node)>, key: &str) -> (r: Option<&'a Node>)
    ensures
        match r {
            Some(n) => node_lookup(entries_view(entries@), key@) == Some(n@),
            None => node_lookup(entries_view(entries@), key@) is None,
        },
{
    proof {
        lemma_entries_view(entries@);
        assert(entries_view(entries@).skip(0) =~= entries_view(entries@));
    }
    let mut i: usize = 0;
    while i < entries.len()
        invariant
            0 <= i <= entries.len(),
            entries_view(entries@).len() == entries@.len(),
            forall|j: int|
                0 <= j < entries@.len() ==> entries_view(entries@)[j] == (
                entries@[j].0@,
                entries@[j].1@,
                ),
            node_lookup(entries_view(entries@), key@) == node_lookup(
                entries_view(entries@).skip(i as int),
                key@,
            ),
        decreases entries.len() - i,
    {
        if str_eq(entries[i].0.as_str(), key) {
            proof {
                assert(entries_view(entries@).skip(i as int).first() == (
                    entries@[i as int].0@,
                    entries@[i as int].1@,
                ));
            }
            return Some(&entries[i].1);
        }
        proof {
            assert(entries_view(entries@).skip(i as int).drop_first() =~= entries_view(
                entries@,
            ).skip(i + 1));
        }
        i = i + 1;
    }
    proof {
        assert(entries_view(entries@).skip(i as int) =~= Seq::empty());
    }
    None
}

} // verus!
