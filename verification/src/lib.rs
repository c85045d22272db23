//! Decoder and encoder for the fixed 4-byte header of a CoAP-style binary
//! message: protocol version, message type, token length, a two-part
//! request/response code, and a message identifier, packed as bit fields.
//!
//! The code byte splits into a 3-bit class and a 5-bit detail; only the
//! classes 0 (method), 2 (success), 4 (client error), 5 (server error) and
//! 7 (signaling) are valid, and each class admits its own range of details.

pub mod codes;
pub mod header;
pub mod text;

pub use codes::ClientError;
pub use codes::DecodeError;
pub use codes::Method;
pub use codes::MsgType;
pub use codes::RqCode;
pub use codes::ServerError;
pub use codes::Signaling;
pub use codes::Success;
pub use header::Header;
