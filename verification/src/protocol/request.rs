//! The client's request: a command and its target.
//!
//! ```plain
//! +-----+-----+-------+------+----------+----------+
//! | VER | CMD |  RSV  | ATYP | DST.ADDR | DST.PORT |
//! +-----+-----+-------+------+----------+----------+
//! |  1  |  1  | X'00' |  1   | Variable |    2     |
//! +-----+-----+-------+------+----------+----------+
//! ```

use crate::buffer::{put_u8, with_capacity, written, written_slice};
use crate::error::Error;
use crate::protocol::address::{Address, AddressView};
use crate::protocol::command::Command;
use crate::protocol::{decoded, SOCKS_VERSION};
use bytes::BytesMut;
use vstd::prelude::*;
use vstd::slice::slice_subrange;

verus! {

/// What the client asks for, and for which address.
#[derive(Clone, Debug, PartialEq, Eq)]
pub struct Request {
    pub command: Command,
    pub address: Address,
}

/// A request as a mathematical value.
pub struct RequestView {
    pub command: Command,
    pub address: AddressView,
}

impl View for Request {
    type V = RequestView;

    open spec fn view(&self) -> RequestView {
        RequestView { command: self.command, address: self.address@ }
    }
}

impl RequestView {
    /// A request can be put on the wire and read back if its address can.
    pub open spec fn valid(self) -> bool {
        self.address.valid()
    }

    /// The bytes of the request on the wire. The reserved byte is zero.
    pub open spec fn wire(self) -> Seq<u8> {
        seq![SOCKS_VERSION, self.command.code(), 0x00u8] + self.address.wire()
    }
}

impl Request {
    /// What the bytes `s` decode to: the request at their start and the
    /// number of bytes it takes up, or the reason there is none.
    ///
    /// The checks come in the order of the fields: version, then the
    /// presence of the command and reserved bytes, then the command, then
    /// the address. The reserved byte may hold anything.
    pub open spec fn parse(s: Seq<u8>) -> Result<(RequestView, nat), Error> {
        if s.len() < 1 {
            Err(Error::MalformedMessage)
        } else if s[0] != SOCKS_VERSION {
            Err(Error::UnsupportedVersion(s[0]))
        } else if s.len() < 3 {
            Err(Error::MalformedMessage)
        } else {
            match Command::of_code(s[1]) {
                Err(e) => Err(e),
                Ok(command) => match Address::parse(s.subrange(3, s.len() as int)) {
                    Err(e) => Err(e),
                    Ok((address, taken)) => Ok((RequestView { command, address }, 3 + taken)),
                },
            }
        }
    }

    /// The length that an input starting with `s` must reach before a reader
    /// can go on.
    pub open spec fn expected(s: Seq<u8>) -> nat {
        if s.len() < 1 || s[0] != SOCKS_VERSION {
            1
        } else if s.len() < 3 || Command::of_code(s[1]) is Err {
            3
        } else {
            3 + Address::expected(s.subrange(3, s.len() as int))
        }
    }

    /// The number of bytes that a reader holding `s` must read next.
    pub open spec fn missing(s: Seq<u8>) -> nat {
        if Request::expected(s) > s.len() {
            (Request::expected(s) - s.len()) as nat
        } else {
            0
        }
    }

    pub fn new(command: Command, address: Address) -> (req: Request)
        ensures
            req.command == command,
            req.address == address,
    {
        Request { command, address }
    }

    /// Decodes the request at the start of `r`.
    ///
    /// Returns the request and the number of bytes it took, exactly as
    /// [`Request::parse`] says.
    pub fn from_stream(r: &[u8]) -> (res: Result<(Request, usize), Error>)
        ensures
            decoded(res) == Request::parse(r@),
    {
        if r.len() < 1 {
            return Err(Error::MalformedMessage);
        }
        let ver: u8 = r[0];
        if ver != SOCKS_VERSION {
            return Err(Error::UnsupportedVersion(ver));
        }
        if r.len() < 3 {
            return Err(Error::MalformedMessage);
        }
        let command: Command = match Command::from_u8(r[1]) {
            Ok(command) => command,
            Err(e) => {
                return Err(e);
            },
        };
        match Address::from_stream(slice_subrange(r, 3, r.len())) {
            Ok((address, taken)) => Ok((Request { command, address }, 3 + taken)),
            Err(e) => Err(e),
        }
    }

    /// How many bytes to read next, for a reader that holds the first bytes
    /// `prefix` of a request: zero once [`Request::from_stream`] can give its
    /// answer.
    pub fn needed(prefix: &[u8]) -> (n: usize)
        ensures
            n == Request::missing(prefix@),
    {
        let len: usize = prefix.len();
        if len < 1 {
            return 1;
        }
        if prefix[0] != SOCKS_VERSION {
            return 0;
        }
        if len < 3 {
            return 3 - len;
        }
        if Command::from_u8(prefix[1]).is_err() {
            return 0;
        }
        Address::needed(slice_subrange(prefix, 3, len))
    }

    /// Appends the wire form of the request to the writer `w`.
    pub fn write_to(&self, w: &mut Vec<u8>)
        requires
            self@.wire().len() <= isize::MAX,
        ensures
            final(w)@ == old(w)@ + self@.wire(),
    {
        let mut buf: BytesMut = with_capacity(self.serialized_len());
        self.write_to_buf(&mut buf);
        w.extend_from_slice(written_slice(&buf));
    }

    /// Appends the wire form of the request to `buf`.
    pub fn write_to_buf(&self, buf: &mut BytesMut)
        ensures
            written(*final(buf)) == written(*old(buf)) + self@.wire(),
    {
        put_u8(buf, SOCKS_VERSION);
        put_u8(buf, self.command.to_u8());
        put_u8(buf, 0x00);
        self.address.write_to_buf(buf);
    }

    /// The number of bytes that [`Request::write_to_buf`] appends.
    pub fn serialized_len(&self) -> (n: usize)
        requires
            self@.wire().len() <= usize::MAX,
        ensures
            n == self@.wire().len(),
    {
        3 + self.address.serialized_len()
    }
}

} // verus!
