//! The ASSOCIATE command: the control connection of a UDP relay, and the
//! framing of the datagrams that the relay carries.

use crate::buffer::{
    bytes_from_vec, content, content_slice, extend_from_slice, slice_from, with_capacity, written,
};
use crate::connection::ReplyPhase;
use crate::protocol::address::Address;
use crate::protocol::reply::Reply;
use crate::protocol::response::{Response, ResponseView};
use crate::protocol::udp::{UdpHeader, UdpHeaderView};
use bytes::Bytes;
use bytes::BytesMut;
use vstd::prelude::*;

verus! {

/// The phase in which the reply to the request has yet to be sent.
pub struct NeedReply;

/// The phase in which the reply has been sent and the relay runs.
pub struct Ready;

impl ReplyPhase for NeedReply {
    open spec fn replies_sent() -> nat {
        0
    }

    fn count() -> (n: usize) {
        0
    }
}

impl ReplyPhase for Ready {
    open spec fn replies_sent() -> nat {
        1
    }

    fn count() -> (n: usize) {
        1
    }
}

/// The control connection of a UDP association, in phase `S`.
///
/// The handle is made in phase [`NeedReply`]. The only way on is
/// [`Associate::reply`], which uses the handle up and gives the one for phase
/// [`Ready`]; only that one can wait for the client to close. A handle keeps
/// account of the replies made through it, and never holds more or fewer
/// than its phase stands for.
pub struct Associate<S: ReplyPhase> {
    replies: Ghost<Seq<Seq<u8>>>,
    _state: S,
}

impl<S: ReplyPhase> Associate<S> {
    #[verifier::type_invariant]
    spec fn replies_match_phase(self) -> bool {
        self.replies@.len() == S::replies_sent()
    }

    /// The replies made through the handle and the one it came from, each
    /// as the bytes of its response.
    pub closed spec fn replies(self) -> Seq<Seq<u8>> {
        self.replies@
    }

    /// The number of replies made through the handle and the one it came
    /// from: what its phase stands for.
    pub fn replies_sent(&self) -> (n: usize)
        ensures
            n == self.replies().len(),
            n == S::replies_sent(),
    {
        proof {
            use_type_invariant(self);
        }
        S::count()
    }
}

impl Associate<NeedReply> {
    pub(crate) fn new() -> (handle: Associate<NeedReply>)
        ensures
            handle.replies() == Seq::<Seq<u8>>::empty(),
    {
        Associate { replies: Ghost(Seq::empty()), _state: NeedReply }
    }

    /// Answers the request: returns the handle for the next phase and the
    /// bytes of the response to send on the control connection. `addr` is
    /// the address that the client is to send its datagrams to.
    pub fn reply(self, reply: Reply, addr: Address) -> (res: (Associate<Ready>, Vec<u8>))
        requires
            addr@.wire().len() + 3 <= isize::MAX,
        ensures
            res.1@ == (ResponseView { reply, address: addr@ }).wire(),
            self.replies() == Seq::<Seq<u8>>::empty(),
            res.0.replies() == seq![res.1@],
    {
        proof {
            use_type_invariant(&self);
        }
        let resp: Response = Response::new(reply, addr);
        let mut out: Vec<u8> = Vec::new();
        resp.write_to(&mut out);
        (Associate { replies: Ghost(self.replies@.push(out@)), _state: Ready }, out)
    }
}

impl Associate<Ready> {
    /// Decides what a read on the control connection means while the relay
    /// runs. `read` is what the read returned: the number of bytes, or the
    /// error.
    ///
    /// Zero bytes mean that the client has closed the connection, and the
    /// wait is over: `Some(Ok(()))`. An error ends the wait with that error.
    /// Bytes that did arrive carry nothing and are dropped: `None`, read
    /// again.
    pub fn wait_close<E>(&mut self, read: Result<usize, E>) -> (res: Option<Result<(), E>>)
        ensures
            res == match read {
                Ok(n) => if n == 0 {
                    Some(Ok::<(), E>(()))
                } else {
                    None
                },
                Err(e) => Some(Err::<(), E>(e)),
            },
            final(self).replies() == old(self).replies(),
            old(self).replies().len() == 1,
    {
        proof {
            use_type_invariant(&*self);
        }
        match read {
            Ok(0) => Some(Ok(())),
            Ok(_) => None,
            Err(err) => Some(Err(err)),
        }
    }
}

/// The framing of relayed datagrams: puts the header in front of what goes
/// to the client and takes it off what comes from the client.
pub struct AssociateUdpSocket;

/// A datagram framed for sending.
pub struct Framed {
    /// The header and the payload, to be sent as one datagram.
    pub datagram: BytesMut,
    /// The length of the header at the start of `datagram`.
    pub header_len: usize,
}

impl Framed {
    /// The number of payload bytes that went out, given the number of bytes
    /// that the socket reports as sent: the header does not count.
    pub fn payload_sent(&self, sent: usize) -> (n: usize)
        requires
            sent >= self.header_len,
        ensures
            n == sent - self.header_len,
    {
        sent - self.header_len
    }
}

impl AssociateUdpSocket {
    /// The size of the buffer that a datagram is received into: no datagram
    /// is longer.
    pub const MAX_DATAGRAM_LEN: usize = 65535;

    /// A fresh buffer to receive one datagram into, as large as a datagram
    /// can be.
    pub fn buffer() -> (buf: Vec<u8>)
        ensures
            buf@ == Seq::new(AssociateUdpSocket::MAX_DATAGRAM_LEN as nat, |i: int| 0u8),
    {
        vec![0u8; AssociateUdpSocket::MAX_DATAGRAM_LEN]
    }

    /// Takes the header off a received datagram. `buf` is the buffer that the
    /// datagram was received into and `len` the number of bytes received.
    ///
    /// Where the datagram starts with a header, returns the payload after
    /// it, the fragment number and the address of the header. Where it does
    /// not, because it is too short or its address is of no known type, the
    /// datagram is dropped: `None`, and the caller receives the next one.
    pub fn recv(buf: Vec<u8>, len: usize) -> (res: Option<(Bytes, u8, Address)>)
        ensures
            match UdpHeader::parse(received(buf@, len)) {
                Ok((header, taken)) => res matches Some((payload, frag, address)) && content(payload)
                    == received(buf@, len).subrange(taken as int, received(buf@, len).len() as int)
                    && frag == header.frag && address@ == header.address,
                Err(_) => res is None,
            },
    {
        let mut buf = buf;
        buf.truncate(len);
        let pkt: Bytes = bytes_from_vec(buf);
        match UdpHeader::read_from(content_slice(&pkt)) {
            Ok((header, taken)) => {
                let payload: Bytes = slice_from(&pkt, taken);
                Some((payload, header.frag, header.address))
            },
            Err(_) => None,
        }
    }

    /// Takes the header off a datagram received from `src_addr`, as
    /// [`AssociateUdpSocket::recv`] does, and hands the sender's address back
    /// with what was found.
    pub fn recv_from<A>(buf: Vec<u8>, len: usize, src_addr: A) -> (res: Option<
        (Bytes, u8, Address, A),
    >)
        ensures
            match UdpHeader::parse(received(buf@, len)) {
                Ok((header, taken)) => res matches Some((payload, frag, address, from))
                    && content(payload) == received(buf@, len).subrange(
                    taken as int,
                    received(buf@, len).len() as int,
                ) && frag == header.frag && address@ == header.address && from == src_addr,
                Err(_) => res is None,
            },
    {
        match AssociateUdpSocket::recv(buf, len) {
            Some((payload, frag, address)) => Some((payload, frag, address, src_addr)),
            None => None,
        }
    }

    /// Puts the header in front of a payload, as [`AssociateUdpSocket::send`]
    /// does, where the result can be sent at all: where the address is valid
    /// and header and payload together are no longer than a datagram can be.
    /// Where not, there is nothing to send: `None`.
    pub fn try_send(pkt: Bytes, frag: u8, from_addr: Address) -> (out: Option<Framed>)
        ensures
            out is Some <==> from_addr@.valid() && 3 + from_addr@.wire().len() + content(pkt).len()
                <= AssociateUdpSocket::MAX_DATAGRAM_LEN,
            out matches Some(framed) ==> written(framed.datagram) == (UdpHeaderView {
                frag,
                address: from_addr@,
            }).wire() + content(pkt) && framed.header_len == (UdpHeaderView {
                frag,
                address: from_addr@,
            }).wire().len(),
    {
        if !from_addr.is_valid() {
            return None;
        }
        let header_len: usize = 3 + from_addr.serialized_len();
        if content_slice(&pkt).len() > AssociateUdpSocket::MAX_DATAGRAM_LEN - header_len {
            return None;
        }
        Some(AssociateUdpSocket::send(pkt, frag, from_addr))
    }

    /// Puts the header in front of a payload. `from_addr` is the address
    /// that the payload comes from and `frag` the fragment number, which is
    /// written as given.
    pub fn send(pkt: Bytes, frag: u8, from_addr: Address) -> (out: Framed)
        requires
            3 + from_addr@.wire().len() + content(pkt).len() <= isize::MAX,
        ensures
            written(out.datagram) == (UdpHeaderView { frag, address: from_addr@ }).wire() + content(
                pkt,
            ),
            out.header_len == (UdpHeaderView { frag, address: from_addr@ }).wire().len(),
    {
        let header: UdpHeader = UdpHeader::new(frag, from_addr);
        let payload: &[u8] = content_slice(&pkt);
        let header_len: usize = header.serialized_len();
        let mut buf: BytesMut = with_capacity(header_len + payload.len());
        header.write_to_buf(&mut buf);
        extend_from_slice(&mut buf, payload);
        Framed { datagram: buf, header_len }
    }

    /// Puts the header in front of a payload bound for `to_addr`, as
    /// [`AssociateUdpSocket::send`] does, and hands the destination back with
    /// the datagram.
    pub fn send_to<A>(pkt: Bytes, frag: u8, from_addr: Address, to_addr: A) -> (out: (Framed, A))
        requires
            3 + from_addr@.wire().len() + content(pkt).len() <= isize::MAX,
        ensures
            written(out.0.datagram) == (UdpHeaderView { frag, address: from_addr@ }).wire()
                + content(pkt),
            out.0.header_len == (UdpHeaderView { frag, address: from_addr@ }).wire().len(),
            out.1 == to_addr,
    {
        (AssociateUdpSocket::send(pkt, frag, from_addr), to_addr)
    }
}

/// The datagram that lies in a receive buffer: its first `len` bytes, or all
/// of it where the buffer is no longer than that.
pub open spec fn received(buf: Seq<u8>, len: usize) -> Seq<u8> {
    if len <= buf.len() {
        buf.subrange(0, len as int)
    } else {
        buf
    }
}

} // verus!
