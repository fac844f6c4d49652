//! The ways in which decoding a message or setting up a connection fails.

use vstd::prelude::*;

verus! {

/// Why a message was refused or a handshake was abandoned.
#[derive(Clone, Copy, Debug, PartialEq, Eq, Structural)]
pub enum Error {
    /// The first byte of a message is not the SOCKS5 version; the byte is kept.
    UnsupportedVersion(u8),
    /// The command byte of a request names no known command; the byte is kept.
    UnsupportedCommand(u8),
    /// The address type byte names no known address type; the byte is kept.
    UnsupportedAddressType(u8),
    /// The input ended before the message did.
    MalformedMessage,
    /// The client offered no authentication method that the server accepts.
    AuthenticationNegotiationFailed,
    /// The agreed authentication method ran and refused the client.
    AuthenticationExecutionFailed,
    /// The stream under the connection failed.
    Io,
}

} // verus!
