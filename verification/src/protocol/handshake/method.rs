//! Authentication method identifiers.

use vstd::prelude::*;

verus! {

/// An authentication method, as named in the handshake.
///
/// Bytes that name no known method are kept in `Unrecognized`, so that
/// method codes assigned later pass through unchanged.
#[derive(Clone, Copy, Debug, PartialEq, Eq, Structural)]
pub enum HandshakeMethod {
    /// No authentication.
    NoAuth,
    /// GSSAPI.
    Gssapi,
    /// User name and password.
    Password,
    /// The server's answer when none of the offered methods will do.
    Unacceptable,
    /// Any other method code.
    Unrecognized(u8),
}

impl HandshakeMethod {
    /// The byte that stands for this method on the wire.
    pub open spec fn code(self) -> u8 {
        match self {
            HandshakeMethod::NoAuth => 0x00,
            HandshakeMethod::Gssapi => 0x01,
            HandshakeMethod::Password => 0x02,
            HandshakeMethod::Unacceptable => 0xff,
            HandshakeMethod::Unrecognized(b) => b,
        }
    }

    /// The method that a byte stands for.
    pub open spec fn of_code(b: u8) -> HandshakeMethod {
        if b == 0x00 {
            HandshakeMethod::NoAuth
        } else if b == 0x01 {
            HandshakeMethod::Gssapi
        } else if b == 0x02 {
            HandshakeMethod::Password
        } else if b == 0xff {
            HandshakeMethod::Unacceptable
        } else {
            HandshakeMethod::Unrecognized(b)
        }
    }

    /// A method is valid unless it hides a known code in `Unrecognized`.
    pub open spec fn valid(self) -> bool {
        self matches HandshakeMethod::Unrecognized(b) ==> b != 0x00 && b != 0x01 && b != 0x02 && b
            != 0xff
    }

    /// Encodes the method as its wire byte.
    pub fn to_u8(self) -> (b: u8)
        ensures
            b == self.code(),
    {
        match self {
            HandshakeMethod::NoAuth => 0x00,
            HandshakeMethod::Gssapi => 0x01,
            HandshakeMethod::Password => 0x02,
            HandshakeMethod::Unacceptable => 0xff,
            HandshakeMethod::Unrecognized(b) => b,
        }
    }

    /// Decodes a wire byte. Every byte decodes; the result is always valid
    /// and encodes back to the same byte.
    pub fn from_u8(b: u8) -> (m: HandshakeMethod)
        ensures
            m == HandshakeMethod::of_code(b),
            m.valid(),
            m.code() == b,
    {
        if b == 0x00 {
            HandshakeMethod::NoAuth
        } else if b == 0x01 {
            HandshakeMethod::Gssapi
        } else if b == 0x02 {
            HandshakeMethod::Password
        } else if b == 0xff {
            HandshakeMethod::Unacceptable
        } else {
            HandshakeMethod::Unrecognized(b)
        }
    }
}

} // verus!
