//! The upgrade to TLS, as far as it is a matter of values.
//!
//! The caller builds the connector and runs the handshake on its socket,
//! both with `native_tls`. This module names the ways in which the two can
//! fail and puts the failures into the session's terms.

use vstd::prelude::*;
use native_tls::Error as TlsError;
use native_tls::TlsConnector;
use crate::error::Error;

verus! {

/// `native_tls::Error`: an error of the platform's TLS implementation.
#[verifier::external_type_specification]
#[verifier::external_body]
pub struct ExTlsError(TlsError);

/// `native_tls::TlsConnector`: the configuration with which a client opens
/// TLS sessions.
#[verifier::external_type_specification]
#[verifier::external_body]
pub struct ExTlsConnector(native_tls::TlsConnector);

/// Why a TLS handshake did not complete.
#[derive(Debug)]
pub enum HandshakeFailure {
    /// The handshake failed for good: the server's certificate did not
    /// validate for the host name, no protocol version was shared, or the
    /// TLS library reported an error of its own.
    Failure(TlsError),
    /// The socket stopped delivering midway through the handshake.
    WouldBlock,
}

/// Turns the outcome of building a connector, which is what
/// `TlsConnector::new` returned to the caller, into the session's terms:
/// the connector as it is, or the library's error as [`Error::TLS`].
pub fn connector_outcome(made: Result<TlsConnector, TlsError>) -> (outcome: Result<
    TlsConnector,
    Error,
>)
    ensures
        match made {
            Ok(connector) => outcome == Ok::<TlsConnector, Error>(connector),
            Err(e) => outcome == Err::<TlsConnector, Error>(Error::TLS(e)),
        },
{
    match made {
        Ok(connector) => Ok(connector),
        Err(e) => Err(Error::TLS(e)),
    }
}

} // verus!
