//! Error taxonomy.
//!
//! Every error here is terminal for the one connection it arose on; a task
//! converts it into exactly one reported event and never unwinds.

use vstd::prelude::*;

verus! {

/// Why establishing or negotiating a connection failed.
#[derive(Clone, Copy, PartialEq, Eq, Structural, Debug)]
pub enum ConnectionError {
    /// Opening the TCP stream failed.
    TcpConnection,
    /// Disabling Nagle's algorithm on the stream failed.
    TcpNoDelay,
    /// Building the TLS session failed.
    TlsInitialization,
    /// Driving the TLS handshake failed.
    TlsHandshake,
    /// The peer presented no certificate.
    NoPeerCertificate,
    /// The peer's certificate did not pass validation.
    PeerCertificateInvalid,
    /// The application handshake did not finish within the timeout.
    HandshakeTimeout,
    /// The peer broke the wire protocol: an overlong handshake frame or a
    /// record that does not decode.
    ProtocolViolation,
    /// The peer belongs to a different network.
    ChainMismatch,
    /// The peer speaks an incompatible protocol version.
    IncompatibleVersion,
    /// The peer's consensus-key attestation does not verify.
    InvalidAttestation,
    /// The peer was deliberately held idle and then refused.
    Tarpitted,
}

/// Why the message reader stopped with an error.
#[derive(Clone, Copy, PartialEq, Eq, Structural, Debug)]
pub enum MessageReaderError {
    /// Receiving or decoding an incoming message failed.
    ReceiveError,
    /// The demand semaphore was closed, which no correct run ever does.
    UnexpectedSemaphoreClose,
}

} // verus!
