//! The server's answer to the handshake: the method it chose.
//!
//! ```plain
//! +-----+--------+
//! | VER | METHOD |
//! +-----+--------+
//! |  1  |   1    |
//! +-----+--------+
//! ```

use crate::buffer::{put_u8, with_capacity, written, written_slice};
use crate::error::Error;
use crate::protocol::handshake::method::HandshakeMethod;
use crate::protocol::{decoded, SOCKS_VERSION};
use bytes::BytesMut;
use vstd::prelude::*;

verus! {

/// The method the server chose, or [`HandshakeMethod::Unacceptable`].
#[derive(Clone, Copy, Debug, PartialEq, Eq, Structural)]
pub struct HandshakeResponse {
    pub method: HandshakeMethod,
}

impl View for HandshakeResponse {
    type V = HandshakeResponse;

    open spec fn view(&self) -> HandshakeResponse {
        *self
    }
}

impl HandshakeResponse {
    /// A response reads back as itself if its method is valid.
    pub open spec fn valid(self) -> bool {
        self.method.valid()
    }

    /// The two bytes of the response on the wire.
    pub open spec fn wire(self) -> Seq<u8> {
        seq![SOCKS_VERSION, self.method.code()]
    }

    /// What the bytes `s` decode to: the response at their start and the
    /// number of bytes it takes up, or the reason there is none. Every
    /// method byte is accepted.
    pub open spec fn parse(s: Seq<u8>) -> Result<(HandshakeResponse, nat), Error> {
        if s.len() < 1 {
            Err(Error::MalformedMessage)
        } else if s[0] != SOCKS_VERSION {
            Err(Error::UnsupportedVersion(s[0]))
        } else if s.len() < 2 {
            Err(Error::MalformedMessage)
        } else {
            Ok((HandshakeResponse { method: HandshakeMethod::of_code(s[1]) }, 2))
        }
    }

    /// The length that an input starting with `s` must reach before a reader
    /// can go on.
    pub open spec fn expected(s: Seq<u8>) -> nat {
        if s.len() < 1 || s[0] != SOCKS_VERSION {
            1
        } else {
            2
        }
    }

    /// The number of bytes that a reader holding `s` must read next.
    pub open spec fn missing(s: Seq<u8>) -> nat {
        if HandshakeResponse::expected(s) > s.len() {
            (HandshakeResponse::expected(s) - s.len()) as nat
        } else {
            0
        }
    }

    pub fn new(method: HandshakeMethod) -> (resp: HandshakeResponse)
        ensures
            resp.method == method,
    {
        HandshakeResponse { method }
    }

    /// Decodes the response at the start of `r`, exactly as
    /// [`HandshakeResponse::parse`] says.
    pub fn read_from(r: &[u8]) -> (res: Result<(HandshakeResponse, usize), Error>)
        ensures
            decoded(res) == HandshakeResponse::parse(r@),
    {
        if r.len() < 1 {
            return Err(Error::MalformedMessage);
        }
        let ver: u8 = r[0];
        if ver != SOCKS_VERSION {
            return Err(Error::UnsupportedVersion(ver));
        }
        if r.len() < 2 {
            return Err(Error::MalformedMessage);
        }
        let method: HandshakeMethod = HandshakeMethod::from_u8(r[1]);
        Ok((HandshakeResponse { method }, 2))
    }

    /// How many bytes to read next, for a reader that holds the first bytes
    /// `prefix` of a response: zero once [`HandshakeResponse::read_from`] can
    /// give its answer.
    pub fn needed(prefix: &[u8]) -> (n: usize)
        ensures
            n == HandshakeResponse::missing(prefix@),
    {
        let len: usize = prefix.len();
        if len < 1 {
            1
        } else if prefix[0] != SOCKS_VERSION {
            0
        } else if len < 2 {
            1
        } else {
            0
        }
    }

    /// Appends the wire form of the response to the writer `w`.
    pub fn write_to(&self, w: &mut Vec<u8>)
        ensures
            final(w)@ == old(w)@ + self.wire(),
    {
        let mut buf: BytesMut = with_capacity(self.serialized_len());
        self.write_to_buf(&mut buf);
        w.extend_from_slice(written_slice(&buf));
    }

    /// Appends the wire form of the response to `buf`.
    pub fn write_to_buf(&self, buf: &mut BytesMut)
        ensures
            written(*final(buf)) == written(*old(buf)) + self.wire(),
    {
        put_u8(buf, SOCKS_VERSION);
        put_u8(buf, self.method.to_u8());
    }

    /// The number of bytes that [`HandshakeResponse::write_to_buf`] appends:
    /// always two.
    pub fn serialized_len(&self) -> (n: usize)
        ensures
            n == 2,
            n == self.wire().len(),
    {
        2
    }
}

} // verus!
