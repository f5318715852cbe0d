//! The error type shared by the client's layers.

use vstd::prelude::*;
use crate::tls::HandshakeFailure;
use crate::types::StatusCodes;

verus! {

/// The error of a failed socket or file operation; carried, never inspected.
#[verifier::external_type_specification]
#[verifier::external_body]
pub struct ExIoError(std::io::Error);

/// Everything that can go wrong in a mail session.
#[derive(Debug)]
pub enum Error {
    /// A socket operation failed.
    IO(std::io::Error),
    /// The server answered with a rejection: its kind and the reply's text.
    SmtpStatus(StatusCodes, String),
    /// The TLS library could not be set up.
    TLS(native_tls::Error),
    /// The TLS handshake with the server did not complete.
    Handshake(HandshakeFailure),
    /// A file to send could not be opened.
    OpenFile(std::io::Error),
    /// No TLS stream where one was expected.
    TLSStreamNotFound,
    /// No TCP stream where one was expected.
    TCPStreamNotFound,
    /// Text could not be converted to or from UTF-8.
    UTF8Convert,
    /// A forwarding server refused the message.
    EmailRejectedByForwardSever,
    /// No complete reply arrived before the read deadline.
    TCPReadTimeout,
}

} // verus!
