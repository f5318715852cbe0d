//! Transport and reply core of a small SMTP client.
//!
//! The crate holds the decisions of the client's lowest layer and proves them:
//! how a reply's status code is classified ([`StatusCodes::lookup`]), how a
//! command is framed for the wire, when an accumulated reply is complete or
//! overdue, and how a connection moves from plaintext to TLS. Sockets and
//! clocks stay with the caller, which performs the I/O and reports what
//! happened.

pub mod error;
pub mod reader;
pub mod stream;
pub mod tls;
pub mod types;
pub mod utf8;

pub use error::Error;
pub use reader::{ReadStep, ReplyReader};
pub use stream::{Outbound, Stream, Transport};
pub use tls::{connector_outcome, HandshakeFailure};
pub use types::{ContentType, StatusCodes};
