//! The header in front of every relayed datagram.
//!
//! ```plain
//! +-----+------+------+----------+----------+
//! | RSV | FRAG | ATYP | DST.ADDR | DST.PORT |
//! +-----+------+------+----------+----------+
//! |  2  |  1   |  1   | Variable |    2     |
//! +-----+------+------+----------+----------+
//! ```

use crate::buffer::{put_u8, written};
use crate::error::Error;
use crate::protocol::address::{Address, AddressView};
use crate::protocol::decoded;
use bytes::BytesMut;
use vstd::prelude::*;
use vstd::slice::slice_subrange;

verus! {

/// The fragment number of a datagram and the address it belongs to.
///
/// A fragment number of zero marks a datagram that stands alone. The codec
/// carries the number as it is; putting fragments together is left to
/// whoever relays.
#[derive(Clone, Debug, PartialEq, Eq)]
pub struct UdpHeader {
    pub frag: u8,
    pub address: Address,
}

/// A datagram header as a mathematical value.
pub struct UdpHeaderView {
    pub frag: u8,
    pub address: AddressView,
}

impl View for UdpHeader {
    type V = UdpHeaderView;

    open spec fn view(&self) -> UdpHeaderView {
        UdpHeaderView { frag: self.frag, address: self.address@ }
    }
}

impl UdpHeaderView {
    /// A header can be put on the wire and read back if its address can.
    pub open spec fn valid(self) -> bool {
        self.address.valid()
    }

    /// The bytes of the header on the wire. The two reserved bytes are zero.
    pub open spec fn wire(self) -> Seq<u8> {
        seq![0x00u8, 0x00u8, self.frag] + self.address.wire()
    }
}

impl UdpHeader {
    /// What the bytes `s` decode to: the header at their start and the
    /// number of bytes it takes up, or the reason there is none. The
    /// reserved bytes may hold anything; the fragment number is the third
    /// byte, whatever it is.
    pub open spec fn parse(s: Seq<u8>) -> Result<(UdpHeaderView, nat), Error> {
        if s.len() < 3 {
            Err(Error::MalformedMessage)
        } else {
            match Address::parse(s.subrange(3, s.len() as int)) {
                Err(e) => Err(e),
                Ok((address, taken)) => Ok((UdpHeaderView { frag: s[2], address }, 3 + taken)),
            }
        }
    }

    pub fn new(frag: u8, address: Address) -> (header: UdpHeader)
        ensures
            header.frag == frag,
            header.address == address,
    {
        UdpHeader { frag, address }
    }

    /// The longest a header can be on the wire.
    pub fn max_serialized_len() -> (n: usize)
        ensures
            n == 262,
    {
        3 + Address::max_serialized_len()
    }

    /// Decodes the header at the start of `r`.
    ///
    /// Returns the header and the number of bytes it took, exactly as
    /// [`UdpHeader::parse`] says; the payload after it is left alone.
    pub fn read_from(r: &[u8]) -> (res: Result<(UdpHeader, usize), Error>)
        ensures
            decoded(res) == UdpHeader::parse(r@),
    {
        if r.len() < 3 {
            return Err(Error::MalformedMessage);
        }
        let frag: u8 = r[2];
        match Address::from_stream(slice_subrange(r, 3, r.len())) {
            Ok((address, taken)) => Ok((UdpHeader { frag, address }, 3 + taken)),
            Err(e) => Err(e),
        }
    }

    /// Appends the wire form of the header to `buf`.
    pub fn write_to_buf(&self, buf: &mut BytesMut)
        ensures
            written(*final(buf)) == written(*old(buf)) + self@.wire(),
    {
        put_u8(buf, 0x00);
        put_u8(buf, 0x00);
        put_u8(buf, self.frag);
        self.address.write_to_buf(buf);
    }

    /// The number of bytes that [`UdpHeader::write_to_buf`] appends.
    pub fn serialized_len(&self) -> (n: usize)
        requires
            self@.wire().len() <= usize::MAX,
        ensures
            n == self@.wire().len(),
    {
        3 + self.address.serialized_len()
    }
}

} // verus!
