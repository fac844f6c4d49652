//! The server's reply: a reply code and the address it speaks of.
//!
//! ```plain
//! +-----+-----+-------+------+----------+----------+
//! | VER | REP |  RSV  | ATYP | BND.ADDR | BND.PORT |
//! +-----+-----+-------+------+----------+----------+
//! |  1  |  1  | X'00' |  1   | Variable |    2     |
//! +-----+-----+-------+------+----------+----------+
//! ```

use crate::buffer::{put_u8, with_capacity, written, written_slice};
use crate::error::Error;
use crate::protocol::address::{Address, AddressView};
use crate::protocol::reply::Reply;
use crate::protocol::{decoded, SOCKS_VERSION};
use bytes::BytesMut;
use vstd::prelude::*;
use vstd::slice::slice_subrange;

verus! {

/// How the server answers, and the address that goes with the answer.
#[derive(Clone, Debug, PartialEq, Eq)]
pub struct Response {
    pub reply: Reply,
    pub address: Address,
}

/// A response as a mathematical value.
pub struct ResponseView {
    pub reply: Reply,
    pub address: AddressView,
}

impl View for Response {
    type V = ResponseView;

    open spec fn view(&self) -> ResponseView {
        ResponseView { reply: self.reply, address: self.address@ }
    }
}

impl ResponseView {
    /// A response can be put on the wire and read back if its reply code and
    /// its address can.
    pub open spec fn valid(self) -> bool {
        self.reply.valid() && self.address.valid()
    }

    /// The bytes of the response on the wire. The reserved byte is zero.
    pub open spec fn wire(self) -> Seq<u8> {
        seq![SOCKS_VERSION, self.reply.code(), 0x00u8] + self.address.wire()
    }
}

impl Response {
    /// What the bytes `s` decode to: the response at their start and the
    /// number of bytes it takes up, or the reason there is none.
    ///
    /// Every reply byte is accepted, and the reserved byte may hold
    /// anything.
    pub open spec fn parse(s: Seq<u8>) -> Result<(ResponseView, nat), Error> {
        if s.len() < 1 {
            Err(Error::MalformedMessage)
        } else if s[0] != SOCKS_VERSION {
            Err(Error::UnsupportedVersion(s[0]))
        } else if s.len() < 3 {
            Err(Error::MalformedMessage)
        } else {
            match Address::parse(s.subrange(3, s.len() as int)) {
                Err(e) => Err(e),
                Ok((address, taken)) => Ok(
                    (ResponseView { reply: Reply::of_code(s[1]), address }, 3 + taken),
                ),
            }
        }
    }

    /// The length that an input starting with `s` must reach before a reader
    /// can go on.
    pub open spec fn expected(s: Seq<u8>) -> nat {
        if s.len() < 1 || s[0] != SOCKS_VERSION {
            1
        } else if s.len() < 3 {
            3
        } else {
            3 + Address::expected(s.subrange(3, s.len() as int))
        }
    }

    /// The number of bytes that a reader holding `s` must read next.
    pub open spec fn missing(s: Seq<u8>) -> nat {
        if Response::expected(s) > s.len() {
            (Response::expected(s) - s.len()) as nat
        } else {
            0
        }
    }

    pub fn new(reply: Reply, address: Address) -> (resp: Response)
        ensures
            resp.reply == reply,
            resp.address == address,
    {
        Response { reply, address }
    }

    /// Decodes the response at the start of `r`.
    ///
    /// Returns the response and the number of bytes it took, exactly as
    /// [`Response::parse`] says.
    pub fn from_stream(r: &[u8]) -> (res: Result<(Response, usize), Error>)
        ensures
            decoded(res) == Response::parse(r@),
    {
        if r.len() < 1 {
            return Err(Error::MalformedMessage);
        }
        let ver: u8 = r[0];
        if ver != SOCKS_VERSION {
            return Err(Error::UnsupportedVersion(ver));
        }
        if r.len() < 3 {
            return Err(Error::MalformedMessage);
        }
        let reply: Reply = Reply::from_u8(r[1]);
        match Address::from_stream(slice_subrange(r, 3, r.len())) {
            Ok((address, taken)) => Ok((Response { reply, address }, 3 + taken)),
            Err(e) => Err(e),
        }
    }

    /// How many bytes to read next, for a reader that holds the first bytes
    /// `prefix` of a response: zero once [`Response::from_stream`] can give
    /// its answer.
    pub fn needed(prefix: &[u8]) -> (n: usize)
        ensures
            n == Response::missing(prefix@),
    {
        let len: usize = prefix.len();
        if len < 1 {
            return 1;
        }
        if prefix[0] != SOCKS_VERSION {
            return 0;
        }
        if len < 3 {
            return 3 - len;
        }
        Address::needed(slice_subrange(prefix, 3, len))
    }

    /// Appends the wire form of the response to the writer `w`.
    pub fn write_to(&self, w: &mut Vec<u8>)
        requires
            self@.wire().len() <= isize::MAX,
        ensures
            final(w)@ == old(w)@ + self@.wire(),
    {
        let mut buf: BytesMut = with_capacity(self.serialized_len());
        self.write_to_buf(&mut buf);
        w.extend_from_slice(written_slice(&buf));
    }

    /// Appends the wire form of the response to `buf`.
    pub fn write_to_buf(&self, buf: &mut BytesMut)
        ensures
            written(*final(buf)) == written(*old(buf)) + self@.wire(),
    {
        put_u8(buf, SOCKS_VERSION);
        put_u8(buf, self.reply.to_u8());
        put_u8(buf, 0x00);
        self.address.write_to_buf(buf);
    }

    /// The number of bytes that [`Response::write_to_buf`] appends.
    pub fn serialized_len(&self) -> (n: usize)
        requires
            self@.wire().len() <= usize::MAX,
        ensures
            n == self@.wire().len(),
    {
        3 + self.address.serialized_len()
    }
}

} // verus!
