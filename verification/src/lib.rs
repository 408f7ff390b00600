//! Schema model and bidirectional structured-node codec for VCR cassette
//! recordings of HTTP request/response sessions.
//!
//! A cassette document is handed to this library as a [`node::Node`] tree
//! (objects, sequences and scalars), the shape that a generic JSON or YAML
//! reader produces; the library itself reads no text. Decoding turns such a
//! tree into a [`Cassette`] and encoding renders a [`Cassette`] back into a
//! tree. The non-trivial field codecs — the dual-representation HTTP body,
//! the open [`Method`] enumeration, the closed [`Version`] enumeration and
//! the RFC 2822 timestamp — each state exactly what they accept and produce.

pub mod body;
pub mod codec;
pub mod error;
pub mod headers;
pub mod method;
pub mod model;
pub mod node;
pub mod timestamp;
pub mod version;

pub use body::Body;
pub use error::DecodeError;
pub use headers::Headers;
pub use method::Method;
pub use model::Cassette;
pub use model::HttpInteraction;
pub use model::RecorderId;
pub use model::Request;
pub use model::Response;
pub use model::Status;
pub use node::Node;
pub use timestamp::Instant;
pub use version::Version;
