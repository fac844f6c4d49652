//! The reply code of a response.

use vstd::prelude::*;

verus! {

/// How the server answers a request.
///
/// Bytes that name no known reply are kept in `Unrecognized`, so that reply
/// codes assigned later pass through unchanged.
#[derive(Clone, Copy, Debug, PartialEq, Eq, Structural)]
pub enum Reply {
    Succeeded,
    GeneralFailure,
    ConnectionNotAllowed,
    NetworkUnreachable,
    HostUnreachable,
    ConnectionRefused,
    TtlExpired,
    CommandNotSupported,
    AddressTypeNotSupported,
    /// Any other reply code.
    Unrecognized(u8),
}

impl Reply {
    /// The byte that stands for this reply on the wire.
    pub open spec fn code(self) -> u8 {
        match self {
            Reply::Succeeded => 0x00,
            Reply::GeneralFailure => 0x01,
            Reply::ConnectionNotAllowed => 0x02,
            Reply::NetworkUnreachable => 0x03,
            Reply::HostUnreachable => 0x04,
            Reply::ConnectionRefused => 0x05,
            Reply::TtlExpired => 0x06,
            Reply::CommandNotSupported => 0x07,
            Reply::AddressTypeNotSupported => 0x08,
            Reply::Unrecognized(b) => b,
        }
    }

    /// The reply that a byte stands for.
    pub open spec fn of_code(b: u8) -> Reply {
        if b == 0x00 {
            Reply::Succeeded
        } else if b == 0x01 {
            Reply::GeneralFailure
        } else if b == 0x02 {
            Reply::ConnectionNotAllowed
        } else if b == 0x03 {
            Reply::NetworkUnreachable
        } else if b == 0x04 {
            Reply::HostUnreachable
        } else if b == 0x05 {
            Reply::ConnectionRefused
        } else if b == 0x06 {
            Reply::TtlExpired
        } else if b == 0x07 {
            Reply::CommandNotSupported
        } else if b == 0x08 {
            Reply::AddressTypeNotSupported
        } else {
            Reply::Unrecognized(b)
        }
    }

    /// A reply is valid unless it hides a known code in `Unrecognized`.
    pub open spec fn valid(self) -> bool {
        self matches Reply::Unrecognized(b) ==> b > 0x08
    }

    /// Encodes the reply as its wire byte.
    pub fn to_u8(self) -> (b: u8)
        ensures
            b == self.code(),
    {
        match self {
            Reply::Succeeded => 0x00,
            Reply::GeneralFailure => 0x01,
            Reply::ConnectionNotAllowed => 0x02,
            Reply::NetworkUnreachable => 0x03,
            Reply::HostUnreachable => 0x04,
            Reply::ConnectionRefused => 0x05,
            Reply::TtlExpired => 0x06,
            Reply::CommandNotSupported => 0x07,
            Reply::AddressTypeNotSupported => 0x08,
            Reply::Unrecognized(b) => b,
        }
    }

    /// Decodes a wire byte. Every byte decodes; the result is always valid
    /// and encodes back to the same byte.
    pub fn from_u8(b: u8) -> (r: Reply)
        ensures
            r == Reply::of_code(b),
            r.valid(),
            r.code() == b,
    {
        if b == 0x00 {
            Reply::Succeeded
        } else if b == 0x01 {
            Reply::GeneralFailure
        } else if b == 0x02 {
            Reply::ConnectionNotAllowed
        } else if b == 0x03 {
            Reply::NetworkUnreachable
        } else if b == 0x04 {
            Reply::HostUnreachable
        } else if b == 0x05 {
            Reply::ConnectionRefused
        } else if b == 0x06 {
            Reply::TtlExpired
        } else if b == 0x07 {
            Reply::CommandNotSupported
        } else if b == 0x08 {
            Reply::AddressTypeNotSupported
        } else {
            Reply::Unrecognized(b)
        }
    }
}

} // verus!
