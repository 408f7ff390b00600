//! The open HTTP method enumeration and its wire codec.
//!
//! Nine named verbs decode from their exact lowercase tokens; every other
//! token — including a differently-cased spelling of a known verb — falls
//! back to [`Method::Other`] holding the token verbatim, so decoding can
//! never fail.

use vstd::prelude::*;

verus! {

/// An HTTP method.
///
/// WebDAV and custom methods are carried by the [`Method::Other`] member,
/// which stores the wire token exactly as given.
#[derive(Debug, Clone, PartialEq)]
pub enum Method {
    /// An HTTP `CONNECT` method.
    Connect,
    /// An HTTP `DELETE` method.
    Delete,
    /// An HTTP `GET` method.
    Get,
    /// An HTTP `HEAD` method.
    Head,
    /// An HTTP `OPTIONS` method.
    Options,
    /// An HTTP `PATCH` method.
    Patch,
    /// An HTTP `POST` method.
    Post,
    /// An HTTP `PUT` method.
    Put,
    /// An HTTP `TRACE` method.
    Trace,
    /// Any other HTTP method, stored verbatim.
    Other(String),
}

/// The mathematical value of a [`Method`].
pub ghost enum MethodV {
    /// An HTTP `CONNECT` method.
    Connect,
    /// An HTTP `DELETE` method.
    Delete,
    /// An HTTP `GET` method.
    Get,
    /// An HTTP `HEAD` method.
    Head,
    /// An HTTP `OPTIONS` method.
    Options,
    /// An HTTP `PATCH` method.
    Patch,
    /// An HTTP `POST` method.
    Post,
    /// An HTTP `PUT` method.
    Put,
    /// An HTTP `TRACE` method.
    Trace,
    /// Any other HTTP method, stored verbatim.
    Other(Seq<char>),
}

impl View for Method {
    type V = MethodV;

    open spec fn view(&self) -> MethodV {
        match self {
            Method::Connect => MethodV::Connect,
            Method::Delete => MethodV::Delete,
            Method::Get => MethodV::Get,
            Method::Head => MethodV::Head,
            Method::Options => MethodV::Options,
            Method::Patch => MethodV::Patch,
            Method::Post => MethodV::Post,
            Method::Put => MethodV::Put,
            Method::Trace => MethodV::Trace,
            Method::Other(s) => MethodV::Other(s@),
        }
    }
}

/// The wire token a method encodes to: the fixed lowercase token of a named
/// verb, or the fallback's stored text unchanged.
pub open spec fn method_wire(m: MethodV) -> Seq<char> {
    match m {
        MethodV::Connect => "connect"@,
        MethodV::Delete => "delete"@,
        MethodV::Get => "get"@,
        MethodV::Head => "head"@,
        MethodV::Options => "options"@,
        MethodV::Patch => "patch"@,
        MethodV::Post => "post"@,
        MethodV::Put => "put"@,
        MethodV::Trace => "trace"@,
        MethodV::Other(s) => s,
    }
}

/// The method a wire token decodes to: a case-sensitive match against the
/// nine lowercase tokens, with every other token falling back verbatim.
/// Total: no token is rejected.
pub open spec fn method_of_wire(s: Seq<char>) -> MethodV {
    if s == "connect"@ {
        MethodV::Connect
    } else if s == "delete"@ {
        MethodV::Delete
    } else if s == "get"@ {
        MethodV::Get
    } else if s == "head"@ {
        MethodV::Head
    } else if s == "options"@ {
        MethodV::Options
    } else if s == "patch"@ {
        MethodV::Patch
    } else if s == "post"@ {
        MethodV::Post
    } else if s == "put"@ {
        MethodV::Put
    } else if s == "trace"@ {
        MethodV::Trace
    } else {
        MethodV::Other(s)
    }
}

/// The display form: the canonical uppercase token of a named verb, or the
/// fallback's stored text. This is a human-readable representation, distinct
/// from the wire token.
pub open spec fn method_display(m: MethodV) -> Seq<char> {
    match m {
        MethodV::Connect => "CONNECT"@,
        MethodV::Delete => "DELETE"@,
        MethodV::Get => "GET"@,
        MethodV::Head => "HEAD"@,
        MethodV::Options => "OPTIONS"@,
        MethodV::Patch => "PATCH"@,
        MethodV::Post => "POST"@,
        MethodV::Put => "PUT"@,
        MethodV::Trace => "TRACE"@,
        MethodV::Other(s) => s,
    }
}

/// A method is canonical when its fallback, if that is what it is, does not
/// spell one of the nine lowercase tokens. Every decoded method is
/// canonical; only canonical methods round-trip through the wire.
pub open spec fn method_canonical(m: MethodV) -> bool {
    m matches MethodV::Other(s) ==> method_of_wire(s) == m
}

impl Method {
    /// Decode a wire token. Total by design: an unknown token — or a known
    /// verb in the wrong case — becomes [`Method::Other`] holding the token
    /// verbatim.
    pub fn decode(s: &str) -> (m: Method)
        ensures
            m@ == method_of_wire(s@),
    {
        if crate::node::str_eq(s, "connect") {
            Method::Connect
        } else if crate::node::str_eq(s, "delete") {
            Method::Delete
        } else if crate::node::str_eq(s, "get") {
            Method::Get
        } else if crate::node::str_eq(s, "head") {
            Method::Head
        } else if crate::node::str_eq(s, "options") {
            Method::Options
        } else if crate::node::str_eq(s, "patch") {
            Method::Patch
        } else if crate::node::str_eq(s, "post") {
            Method::Post
        } else if crate::node::str_eq(s, "put") {
            Method::Put
        } else if crate::node::str_eq(s, "trace") {
            Method::Trace
        } else {
            Method::Other(s.to_owned())
        }
    }

    /// Whether this method is canonical: a named verb always is, and a
    /// fallback is exactly when its stored text spells none of the nine
    /// lowercase tokens.
    pub fn is_canonical(&self) -> (b: bool)
        ensures
            b == method_canonical(self@),
    {
        match self {
            Method::Other(s) => {
                let known: bool = crate::node::str_eq(s.as_str(), "connect")
                    || crate::node::str_eq(s.as_str(), "delete")
                    || crate::node::str_eq(s.as_str(), "get")
                    || crate::node::str_eq(s.as_str(), "head")
                    || crate::node::str_eq(s.as_str(), "options")
                    || crate::node::str_eq(s.as_str(), "patch")
                    || crate::node::str_eq(s.as_str(), "post")
                    || crate::node::str_eq(s.as_str(), "put")
                    || crate::node::str_eq(s.as_str(), "trace");
                !known
            },
            _ => true,
        }
    }

    /// Encode to the wire token: the fixed lowercase token for a named verb,
    /// the stored text unchanged for the fallback.
    pub fn encode(&self) -> (r: String)
        ensures
            r@ == method_wire(self@),
    {
        match self {
            Method::Connect => "connect".to_owned(),
            Method::Delete => "delete".to_owned(),
            Method::Get => "get".to_owned(),
            Method::Head => "head".to_owned(),
            Method::Options => "options".to_owned(),
            Method::Patch => "patch".to_owned(),
            Method::Post => "post".to_owned(),
            Method::Put => "put".to_owned(),
            Method::Trace => "trace".to_owned(),
            Method::Other(s) => s.clone(),
        }
    }

    /// Convert the HTTP method to its string representation: the canonical
    /// uppercase token for a named verb, the stored text for the fallback.
    pub fn as_str(&self) -> (r: &str)
        ensures
            r@ == method_display(self@),
    {
        match self {
            Method::Connect => "CONNECT",
            Method::Delete => "DELETE",
            Method::Get => "GET",
            Method::Head => "HEAD",
            Method::Options => "OPTIONS",
            Method::Patch => "PATCH",
            Method::Post => "POST",
            Method::Put => "PUT",
            Method::Trace => "TRACE",
            Method::Other(s) => s.as_str(),
        }
    }
}

/// Decoding is left inverse to encoding for every canonical method: the wire
/// token of a canonical method decodes back to that method exactly.
pub proof fn lemma_method_round_trip(m: MethodV)
    requires
        method_canonical(m),
    ensures
        method_of_wire(method_wire(m)) == m,
{
    reveal_strlit("connect");
    reveal_strlit("delete");
    reveal_strlit("get");
    reveal_strlit("head");
    reveal_strlit("options");
    reveal_strlit("patch");
    reveal_strlit("post");
    reveal_strlit("put");
    reveal_strlit("trace");
    assert(!("connect"@ =~= "delete"@));
    assert(!("connect"@ =~= "get"@));
    assert(!("delete"@ =~= "get"@));
    assert(!("connect"@ =~= "head"@));
    assert(!("delete"@ =~= "head"@));
    assert(!("get"@ =~= "head"@));
    assert("connect"@[0] != "options"@[0]);
    assert(!("connect"@ =~= "options"@));
    assert(!("delete"@ =~= "options"@));
    assert(!("get"@ =~= "options"@));
    assert(!("head"@ =~= "options"@));
    assert(!("connect"@ =~= "patch"@));
    assert(!("delete"@ =~= "patch"@));
    assert(!("get"@ =~= "patch"@));
    assert(!("head"@ =~= "patch"@));
    assert(!("options"@ =~= "patch"@));
    assert(!("connect"@ =~= "post"@));
    assert(!("delete"@ =~= "post"@));
    assert(!("get"@ =~= "post"@));
    assert("head"@[0] != "post"@[0]);
    assert(!("head"@ =~= "post"@));
    assert(!("options"@ =~= "post"@));
    assert(!("patch"@ =~= "post"@));
    assert(!("connect"@ =~= "put"@));
    assert(!("delete"@ =~= "put"@));
    assert("get"@[0] != "put"@[0]);
    assert(!("get"@ =~= "put"@));
    assert(!("head"@ =~= "put"@));
    assert(!("options"@ =~= "put"@));
    assert(!("patch"@ =~= "put"@));
    assert(!("post"@ =~= "put"@));
    assert(!("connect"@ =~= "trace"@));
    assert(!("delete"@ =~= "trace"@));
    assert(!("get"@ =~= "trace"@));
    assert(!("head"@ =~= "trace"@));
    assert(!("options"@ =~= "trace"@));
    assert("patch"@[0] != "trace"@[0]);
    assert(!("patch"@ =~= "trace"@));
    assert(!("post"@ =~= "trace"@));
    assert(!("put"@ =~= "trace"@));
    match m {
        MethodV::Connect => assert(method_of_wire("connect"@) == MethodV::Connect),
        MethodV::Delete => assert(method_of_wire("delete"@) == MethodV::Delete),
        MethodV::Get => assert(method_of_wire("get"@) == MethodV::Get),
        MethodV::Head => assert(method_of_wire("head"@) == MethodV::Head),
        MethodV::Options => assert(method_of_wire("options"@) == MethodV::Options),
        MethodV::Patch => assert(method_of_wire("patch"@) == MethodV::Patch),
        MethodV::Post => assert(method_of_wire("post"@) == MethodV::Post),
        MethodV::Put => assert(method_of_wire("put"@) == MethodV::Put),
        MethodV::Trace => assert(method_of_wire("trace"@) == MethodV::Trace),
        MethodV::Other(s) => assert(method_of_wire(method_wire(m)) == m),
    }
}

/// Every decoded method is canonical, so decoded methods round-trip.
pub proof fn lemma_method_decode_canonical(s: Seq<char>)
    ensures
        method_canonical(method_of_wire(s)),
{
}

} // verus!
