//! The closed HTTP protocol version enumeration and its wire codec.
//!
//! Five named versions decode from their exact wire tokens; any other token
//! is a decode failure. The enumeration is marked non-exhaustive so that
//! variants can be added later without breaking consumers that match on it.

use vstd::prelude::*;

verus! {

/// The version of the HTTP protocol in use.
#[derive(Debug, Clone, Copy, PartialEq, Eq, Structural)]
#[non_exhaustive]
pub enum Version {
    /// HTTP/0.9
    Http0_9,
    /// HTTP/1.0
    Http1_0,
    /// HTTP/1.1
    Http1_1,
    /// HTTP/2.0
    Http2_0,
    /// HTTP/3.0
    Http3_0,
}

/// The wire token each version encodes to.
pub open spec fn version_wire(v: Version) -> Seq<char> {
    match v {
        Version::Http0_9 => "0.9"@,
        Version::Http1_0 => "1.0"@,
        Version::Http1_1 => "1.1"@,
        Version::Http2_0 => "2"@,
        Version::Http3_0 => "3"@,
    }
}

/// The version a wire token decodes to, if it is one of the five known
/// tokens; any other token is rejected.
pub open spec fn version_of_wire(s: Seq<char>) -> Option<Version> {
    if s == "0.9"@ {
        Some(Version::Http0_9)
    } else if s == "1.0"@ {
        Some(Version::Http1_0)
    } else if s == "1.1"@ {
        Some(Version::Http1_1)
    } else if s == "2"@ {
        Some(Version::Http2_0)
    } else if s == "3"@ {
        Some(Version::Http3_0)
    } else {
        None
    }
}

impl Version {
    /// Decode a wire token; `None` means the token is outside the known set,
    /// which callers report as an unknown-version failure.
    pub fn decode(s: &str) -> (r: Option<Version>)
        ensures
            r == version_of_wire(s@),
    {
        if crate::node::str_eq(s, "0.9") {
            Some(Version::Http0_9)
        } else if crate::node::str_eq(s, "1.0") {
            Some(Version::Http1_0)
        } else if crate::node::str_eq(s, "1.1") {
            Some(Version::Http1_1)
        } else if crate::node::str_eq(s, "2") {
            Some(Version::Http2_0)
        } else if crate::node::str_eq(s, "3") {
            Some(Version::Http3_0)
        } else {
            None
        }
    }

    /// Encode to the exact wire token of this version.
    pub fn encode(&self) -> (r: String)
        ensures
            r@ == version_wire(*self),
    {
        match self {
            Version::Http0_9 => "0.9".to_owned(),
            Version::Http1_0 => "1.0".to_owned(),
            Version::Http1_1 => "1.1".to_owned(),
            Version::Http2_0 => "2".to_owned(),
            Version::Http3_0 => "3".to_owned(),
        }
    }
}

/// Decoding is left inverse to encoding: the wire token of every version
/// decodes back to exactly that version.
pub proof fn lemma_version_round_trip(v: Version)
    ensures
        version_of_wire(version_wire(v)) == Some(v),
{
    reveal_strlit("0.9");
    reveal_strlit("1.0");
    reveal_strlit("1.1");
    reveal_strlit("2");
    reveal_strlit("3");
    assert("0.9"@[0] != "1.0"@[0]);
    assert(!("0.9"@ =~= "1.0"@));
    assert("0.9"@[0] != "1.1"@[0]);
    assert(!("0.9"@ =~= "1.1"@));
    assert("1.0"@[2] != "1.1"@[2]);
    assert(!("1.0"@ =~= "1.1"@));
    assert(!("0.9"@ =~= "2"@));
    assert(!("0.9"@ =~= "3"@));
    assert(!("1.0"@ =~= "2"@));
    assert(!("1.0"@ =~= "3"@));
    assert(!("1.1"@ =~= "2"@));
    assert(!("1.1"@ =~= "3"@));
    assert("2"@[0] != "3"@[0]);
    assert(!("2"@ =~= "3"@));
    match v {
        Version::Http0_9 => assert(version_of_wire("0.9"@) == Some(Version::Http0_9)),
        Version::Http1_0 => assert(version_of_wire("1.0"@) == Some(Version::Http1_0)),
        Version::Http1_1 => assert(version_of_wire("1.1"@) == Some(Version::Http1_1)),
        Version::Http2_0 => assert(version_of_wire("2"@) == Some(Version::Http2_0)),
        Version::Http3_0 => assert(version_of_wire("3"@) == Some(Version::Http3_0)),
    }
}

} // verus!
