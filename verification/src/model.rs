//! The composed schema model: a cassette owns its interactions, each
//! interaction owns a request, a response and a timestamp. All entities are
//! plain owned values with no shared mutable state.

use vstd::prelude::*;

verus! {

use crate::body::Body;
use crate::body::BodyV;
use crate::headers::Headers;
use crate::headers::HeadersV;
use crate::headers::headers_view;
use crate::method::Method;
use crate::method::MethodV;
use crate::method::method_canonical;
use crate::timestamp::Instant;
use crate::timestamp::InstantV;
use crate::version::Version;

/// An identifier of the library which created the recording.
pub type RecorderId = String;

/// A recorded HTTP status code with its message. No relationship between
/// the two is enforced.
#[derive(Debug, Clone, PartialEq)]
pub struct Status {
    /// The HTTP status code.
    pub code: u16,
    /// The HTTP status message.
    pub message: String,
}

/// The mathematical value of a [`Status`].
pub ghost struct StatusV {
    /// The HTTP status code.
    pub code: int,
    /// The HTTP status message.
    pub message: Seq<char>,
}

impl View for Status {
    type V = StatusV;

    open spec fn view(&self) -> StatusV {
        StatusV { code: self.code as int, message: self.message@ }
    }
}

/// A recorded HTTP request.
#[derive(Debug, Clone, PartialEq)]
pub struct Request {
    /// The request URI.
    pub uri: String,
    /// The request body.
    pub body: Body,
    /// The request method.
    pub method: Method,
    /// The request headers.
    pub headers: Headers,
}

/// The mathematical value of a [`Request`].
pub ghost struct RequestV {
    /// The request URI.
    pub uri: Seq<char>,
    /// The request body.
    pub body: BodyV,
    /// The request method.
    pub method: MethodV,
    /// The request headers.
    pub headers: HeadersV,
}

impl View for Request {
    type V = RequestV;

    open spec fn view(&self) -> RequestV {
        RequestV {
            uri: self.uri@,
            body: self.body@,
            method: self.method@,
            headers: headers_view(self.headers@),
        }
    }
}

impl RequestV {
    /// A request is well formed when its method is canonical: a decoded
    /// request always is, and only such requests round-trip.
    pub open spec fn wf(self) -> bool {
        method_canonical(self.method)
    }
}

/// A recorded HTTP response.
#[derive(Debug, Clone, PartialEq)]
pub struct Response {
    /// The response body.
    pub body: Body,
    /// The version of the HTTP response, when one was recorded: absence is
    /// meaningful and distinct from an unrecognized version, which is a
    /// decode failure.
    pub http_version: Option<Version>,
    /// The response status.
    pub status: Status,
    /// The response headers.
    pub headers: Headers,
}

/// The mathematical value of a [`Response`].
pub ghost struct ResponseV {
    /// The response body.
    pub body: BodyV,
    /// The recorded HTTP version, if any.
    pub http_version: Option<Version>,
    /// The response status.
    pub status: StatusV,
    /// The response headers.
    pub headers: HeadersV,
}

impl View for Response {
    type V = ResponseV;

    open spec fn view(&self) -> ResponseV {
        ResponseV {
            body: self.body@,
            http_version: self.http_version,
            status: self.status@,
            headers: headers_view(self.headers@),
        }
    }
}

/// A single recorded HTTP request/response pair.
#[derive(Debug, Clone, PartialEq)]
pub struct HttpInteraction {
    /// The HTTP response.
    pub response: Response,
    /// The HTTP request.
    pub request: Request,
    /// When the interaction was recorded: an RFC 2822 timestamp with its
    /// retained offset.
    pub recorded_at: Instant,
}

/// The mathematical value of an [`HttpInteraction`].
pub ghost struct HttpInteractionV {
    /// The HTTP response.
    pub response: ResponseV,
    /// The HTTP request.
    pub request: RequestV,
    /// When the interaction was recorded.
    pub recorded_at: InstantV,
}

impl View for HttpInteraction {
    type V = HttpInteractionV;

    open spec fn view(&self) -> HttpInteractionV {
        HttpInteractionV {
            response: self.response@,
            request: self.request@,
            recorded_at: self.recorded_at@,
        }
    }
}

impl HttpInteractionV {
    /// An interaction is well formed when its request is and its timestamp
    /// lies in the range this library carries.
    pub open spec fn wf(self) -> bool {
        self.request.wf() && self.recorded_at.wf()
    }
}

/// A sequence of recorded HTTP request/response pairs: the playback order
/// is the sequence order and is preserved verbatim by decode and encode.
#[derive(Debug, Clone, PartialEq)]
pub struct Cassette {
    /// The recorded interactions, in playback order.
    pub http_interactions: Vec<HttpInteraction>,
    /// An identifier of the library which created the recording.
    pub recorded_with: RecorderId,
}

/// The mathematical value of a [`Cassette`].
pub ghost struct CassetteV {
    /// The recorded interactions, in playback order.
    pub http_interactions: Seq<HttpInteractionV>,
    /// The recorder identifier.
    pub recorded_with: Seq<char>,
}

/// The values of a sequence of interactions, element by element.
pub open spec fn interactions_view(s: Seq<HttpInteraction>) -> Seq<HttpInteractionV> {
    Seq::new(s.len(), |i: int| s[i]@)
}

impl View for Cassette {
    type V = CassetteV;

    open spec fn view(&self) -> CassetteV {
        CassetteV {
            http_interactions: interactions_view(self.http_interactions@),
            recorded_with: self.recorded_with@,
        }
    }
}

impl CassetteV {
    /// A cassette is well formed when every interaction is. Every decoded
    /// cassette is well formed, and every well-formed cassette round-trips.
    pub open spec fn wf(self) -> bool {
        forall|i: int|
            0 <= i < self.http_interactions.len() ==> (#[trigger] self.http_interactions[i]).wf()
    }
}

} // verus!
