//! The address of a request, a reply or a relayed datagram.
//!
//! On the wire an address is a type byte, the address proper and a port of
//! two bytes, high byte first. An IPv4 address takes four bytes, an IPv6
//! address sixteen; a domain name is one length byte and then that many
//! bytes.

use crate::buffer::{put_slice, put_u16, put_u8, written};
use crate::error::Error;
use crate::protocol::decoded;
use bytes::BytesMut;
use vstd::prelude::*;
use vstd::slice::{slice_subrange, slice_to_vec};

verus! {

/// The address type byte of an IPv4 address.
pub const ATYP_IPV4: u8 = 0x01;

/// The address type byte of a domain name.
pub const ATYP_DOMAIN: u8 = 0x03;

/// The address type byte of an IPv6 address.
pub const ATYP_IPV6: u8 = 0x04;

/// Where a connection or a datagram goes to or comes from.
#[derive(Clone, Debug, PartialEq, Eq)]
pub enum Address {
    /// An IPv4 address, in network order, and a port.
    Ipv4([u8; 4], u16),
    /// An IPv6 address, in network order, and a port.
    Ipv6([u8; 16], u16),
    /// A domain name, as the bytes sent, and a port.
    Domain(Vec<u8>, u16),
}

/// An address as a mathematical value.
pub enum AddressView {
    Ipv4(Seq<u8>, u16),
    Ipv6(Seq<u8>, u16),
    Domain(Seq<u8>, u16),
}

impl View for Address {
    type V = AddressView;

    open spec fn view(&self) -> AddressView {
        match *self {
            Address::Ipv4(ip, port) => AddressView::Ipv4(ip@, port),
            Address::Ipv6(ip, port) => AddressView::Ipv6(ip@, port),
            Address::Domain(name, port) => AddressView::Domain(name@, port),
        }
    }
}

/// The two bytes of a port on the wire, high byte first.
pub open spec fn port_wire(port: u16) -> Seq<u8> {
    seq![(port / 256) as u8, (port % 256) as u8]
}

/// The port that two bytes on the wire stand for.
pub open spec fn port_of(high: u8, low: u8) -> u16 {
    (high * 256 + low) as u16
}

impl AddressView {
    /// An address can be put on the wire and read back if its parts have the
    /// sizes the format allows: four and sixteen bytes for the IP addresses,
    /// at most 255 for a domain name.
    pub open spec fn valid(self) -> bool {
        match self {
            AddressView::Ipv4(ip, _) => ip.len() == 4,
            AddressView::Ipv6(ip, _) => ip.len() == 16,
            AddressView::Domain(name, _) => name.len() <= 255,
        }
    }

    /// The bytes of the address on the wire.
    ///
    /// The length byte of a domain name holds the length modulo 256: a name
    /// of more than 255 bytes is written out, but does not read back.
    pub open spec fn wire(self) -> Seq<u8> {
        match self {
            AddressView::Ipv4(ip, port) => seq![ATYP_IPV4] + ip + port_wire(port),
            AddressView::Ipv6(ip, port) => seq![ATYP_IPV6] + ip + port_wire(port),
            AddressView::Domain(name, port) => seq![ATYP_DOMAIN, (name.len() % 256) as u8] + name
                + port_wire(port),
        }
    }
}

impl Address {
    /// What the bytes `s` decode to: the address at their start and the
    /// number of bytes it takes up, or the reason there is none.
    ///
    /// The input is malformed where it ends before the address does; the
    /// type byte is unsupported where it is none of the three known ones.
    pub open spec fn parse(s: Seq<u8>) -> Result<(AddressView, nat), Error> {
        if s.len() < 1 {
            Err(Error::MalformedMessage)
        } else if s[0] == ATYP_IPV4 {
            if s.len() < 7 {
                Err(Error::MalformedMessage)
            } else {
                Ok((AddressView::Ipv4(s.subrange(1, 5), port_of(s[5], s[6])), 7))
            }
        } else if s[0] == ATYP_IPV6 {
            if s.len() < 19 {
                Err(Error::MalformedMessage)
            } else {
                Ok((AddressView::Ipv6(s.subrange(1, 17), port_of(s[17], s[18])), 19))
            }
        } else if s[0] == ATYP_DOMAIN {
            if s.len() < 2 || s.len() < 4 + s[1] {
                Err(Error::MalformedMessage)
            } else {
                let n = s[1] as int;
                Ok((AddressView::Domain(s.subrange(2, 2 + n), port_of(s[2 + n], s[3 + n])), (4 + n) as nat))
            }
        } else {
            Err(Error::UnsupportedAddressType(s[0]))
        }
    }

    /// The length that an input starting with `s` must reach before a reader
    /// can go on: the whole address where `s` shows its size, the next field
    /// where it does not yet, and no more than `s` where `s` is already
    /// refused.
    pub open spec fn expected(s: Seq<u8>) -> nat {
        if s.len() < 1 {
            1
        } else if s[0] == ATYP_IPV4 {
            7
        } else if s[0] == ATYP_IPV6 {
            19
        } else if s[0] == ATYP_DOMAIN {
            if s.len() < 2 {
                2
            } else {
                (4 + s[1]) as nat
            }
        } else {
            1
        }
    }

    /// The number of bytes that a reader holding `s` must read next.
    pub open spec fn missing(s: Seq<u8>) -> nat {
        if Address::expected(s) > s.len() {
            (Address::expected(s) - s.len()) as nat
        } else {
            0
        }
    }

    /// The longest an address can be on the wire.
    pub fn max_serialized_len() -> (n: usize)
        ensures
            n == 259,
    {
        259
    }

    /// The address that stands for "none": IPv4 `0.0.0.0`, port 0.
    pub fn unspecified() -> (a: Address)
        ensures
            a@ == AddressView::Ipv4(seq![0u8, 0u8, 0u8, 0u8], 0),
            a@.valid(),
    {
        let ip: [u8; 4] = [0, 0, 0, 0];
        Address::Ipv4(ip, 0)
    }

    /// Whether the address can be put on the wire and read back: always for
    /// an IP address, and for a domain name of at most 255 bytes.
    pub fn is_valid(&self) -> (b: bool)
        ensures
            b == self@.valid(),
    {
        match self {
            Address::Ipv4(_, _) => true,
            Address::Ipv6(_, _) => true,
            Address::Domain(name, _) => name.len() <= 255,
        }
    }

    /// Decodes the address at the start of `r`.
    ///
    /// Returns the address and the number of bytes it took, exactly as
    /// [`Address::parse`] says; bytes after the address are left alone.
    pub fn from_stream(r: &[u8]) -> (res: Result<(Address, usize), Error>)
        ensures
            decoded(res) == Address::parse(r@),
    {
        if r.len() < 1 {
            return Err(Error::MalformedMessage);
        }
        let atyp: u8 = r[0];
        if atyp == ATYP_IPV4 {
            if r.len() < 7 {
                return Err(Error::MalformedMessage);
            }
            let ip: [u8; 4] = [r[1], r[2], r[3], r[4]];
            let port: u16 = read_port(r[5], r[6]);
            assert(ip@ =~= r@.subrange(1, 5));
            Ok((Address::Ipv4(ip, port), 7))
        } else if atyp == ATYP_IPV6 {
            if r.len() < 19 {
                return Err(Error::MalformedMessage);
            }
            let ip: [u8; 16] = [
                r[1],
                r[2],
                r[3],
                r[4],
                r[5],
                r[6],
                r[7],
                r[8],
                r[9],
                r[10],
                r[11],
                r[12],
                r[13],
                r[14],
                r[15],
                r[16],
            ];
            let port: u16 = read_port(r[17], r[18]);
            assert(ip@ =~= r@.subrange(1, 17));
            Ok((Address::Ipv6(ip, port), 19))
        } else if atyp == ATYP_DOMAIN {
            if r.len() < 2 {
                return Err(Error::MalformedMessage);
            }
            let n: usize = r[1] as usize;
            if r.len() < 4 + n {
                return Err(Error::MalformedMessage);
            }
            let name: Vec<u8> = slice_to_vec(slice_subrange(r, 2, 2 + n));
            let port: u16 = read_port(r[2 + n], r[3 + n]);
            Ok((Address::Domain(name, port), 4 + n))
        } else {
            Err(Error::UnsupportedAddressType(atyp))
        }
    }

    /// How many bytes to read next, for a reader that holds the first bytes
    /// `prefix` of an address: zero once [`Address::from_stream`] can give
    /// its answer.
    pub fn needed(prefix: &[u8]) -> (n: usize)
        ensures
            n == Address::missing(prefix@),
    {
        let len: usize = prefix.len();
        if len < 1 {
            return 1;
        }
        let atyp: u8 = prefix[0];
        let expected: usize = if atyp == ATYP_IPV4 {
            7
        } else if atyp == ATYP_IPV6 {
            19
        } else if atyp == ATYP_DOMAIN {
            if len < 2 {
                2
            } else {
                4 + prefix[1] as usize
            }
        } else {
            1
        };
        if expected > len {
            expected - len
        } else {
            0
        }
    }

    /// Appends the wire form of the address to `buf`.
    pub fn write_to_buf(&self, buf: &mut BytesMut)
        ensures
            written(*final(buf)) == written(*old(buf)) + self@.wire(),
    {
        match self {
            Address::Ipv4(ip, port) => {
                put_u8(buf, ATYP_IPV4);
                put_slice(buf, ip);
                put_u16(buf, *port);
            },
            Address::Ipv6(ip, port) => {
                put_u8(buf, ATYP_IPV6);
                put_slice(buf, ip);
                put_u16(buf, *port);
            },
            Address::Domain(name, port) => {
                put_u8(buf, ATYP_DOMAIN);
                put_u8(buf, (name.len() % 256) as u8);
                put_slice(buf, name.as_slice());
                put_u16(buf, *port);
            },
        }
    }

    /// The number of bytes that [`Address::write_to_buf`] appends.
    pub fn serialized_len(&self) -> (n: usize)
        requires
            self@.wire().len() <= usize::MAX,
        ensures
            n == self@.wire().len(),
    {
        match self {
            Address::Ipv4(_, _) => 7,
            Address::Ipv6(_, _) => 19,
            Address::Domain(name, _) => 4 + name.len(),
        }
    }
}

/// Puts the two bytes of a port together.
fn read_port(high: u8, low: u8) -> (port: u16)
    ensures
        port == port_of(high, low),
{
    (high as u16) * 256 + (low as u16)
}

} // verus!
