//! The client's opening message: the authentication methods it offers.
//!
//! ```plain
//! +-----+----------+----------+
//! | VER | NMETHODS | METHODS  |
//! +-----+----------+----------+
//! |  1  |    1     | 1 to 255 |
//! +-----+----------+----------+
//! ```

use crate::buffer::{put_slice, put_u8, with_capacity, written, written_slice};
use crate::error::Error;
use crate::protocol::handshake::method::HandshakeMethod;
use crate::protocol::{decoded, SOCKS_VERSION};
use bytes::BytesMut;
use vstd::prelude::*;

verus! {

/// The methods a client offers, in the client's order of preference.
#[derive(Clone, Debug, PartialEq, Eq)]
pub struct HandshakeRequest {
    pub methods: Vec<HandshakeMethod>,
}

/// A handshake request as a mathematical value.
pub struct HandshakeRequestView {
    pub methods: Seq<HandshakeMethod>,
}

impl View for HandshakeRequest {
    type V = HandshakeRequestView;

    open spec fn view(&self) -> HandshakeRequestView {
        HandshakeRequestView { methods: self.methods@ }
    }
}

impl HandshakeRequestView {
    /// A request can be put on the wire and read back if the count of its
    /// methods fits the count byte and each method is valid. The protocol
    /// asks for at least one method; the codec does not.
    pub open spec fn valid(self) -> bool {
        &&& self.methods.len() <= 255
        &&& forall|i: int| 0 <= i < self.methods.len() ==> (#[trigger] self.methods[i]).valid()
    }

    /// The method codes, in the order of the methods.
    pub open spec fn codes(self) -> Seq<u8> {
        Seq::new(self.methods.len(), |i: int| self.methods[i].code())
    }

    /// The bytes of the request on the wire. The count byte holds the number
    /// of methods modulo 256.
    pub open spec fn wire(self) -> Seq<u8> {
        seq![SOCKS_VERSION, (self.methods.len() % 256) as u8] + self.codes()
    }

    /// Whether a method with the wire code of `method` is among those offered.
    pub open spec fn offers(self, method: HandshakeMethod) -> bool {
        exists|i: int| 0 <= i < self.methods.len() && (#[trigger] self.methods[i]).code() == method.code()
    }
}

impl HandshakeRequest {
    /// What the bytes `s` decode to: the request at their start and the
    /// number of bytes it takes up, or the reason there is none.
    ///
    /// The version byte is looked at first, so a wrong version is reported
    /// even where nothing follows it.
    pub open spec fn parse(s: Seq<u8>) -> Result<(HandshakeRequestView, nat), Error> {
        if s.len() < 1 {
            Err(Error::MalformedMessage)
        } else if s[0] != SOCKS_VERSION {
            Err(Error::UnsupportedVersion(s[0]))
        } else if s.len() < 2 || s.len() < 2 + s[1] {
            Err(Error::MalformedMessage)
        } else {
            Ok(
                (
                    HandshakeRequestView {
                        methods: Seq::new(s[1] as nat, |i: int| HandshakeMethod::of_code(s[2 + i])),
                    },
                    (2 + s[1]) as nat,
                ),
            )
        }
    }

    /// The length that an input starting with `s` must reach before a reader
    /// can go on.
    pub open spec fn expected(s: Seq<u8>) -> nat {
        if s.len() < 1 || s[0] != SOCKS_VERSION {
            1
        } else if s.len() < 2 {
            2
        } else {
            (2 + s[1]) as nat
        }
    }

    /// The number of bytes that a reader holding `s` must read next.
    pub open spec fn missing(s: Seq<u8>) -> nat {
        if HandshakeRequest::expected(s) > s.len() {
            (HandshakeRequest::expected(s) - s.len()) as nat
        } else {
            0
        }
    }

    pub fn new(methods: Vec<HandshakeMethod>) -> (req: HandshakeRequest)
        ensures
            req.methods == methods,
    {
        HandshakeRequest { methods }
    }

    /// Decodes the request at the start of `r`.
    ///
    /// Returns the request and the number of bytes it took, exactly as
    /// [`HandshakeRequest::parse`] says. The methods come out in the order
    /// of their bytes, none dropped and none merged.
    pub fn from_stream(r: &[u8]) -> (res: Result<(HandshakeRequest, usize), Error>)
        ensures
            decoded(res) == HandshakeRequest::parse(r@),
    {
        if r.len() < 1 {
            return Err(Error::MalformedMessage);
        }
        let ver: u8 = r[0];
        if ver != SOCKS_VERSION {
            return Err(Error::UnsupportedVersion(ver));
        }
        if r.len() < 2 {
            return Err(Error::MalformedMessage);
        }
        let mlen: usize = r[1] as usize;
        if r.len() < 2 + mlen {
            return Err(Error::MalformedMessage);
        }
        let mut methods: Vec<HandshakeMethod> = Vec::with_capacity(mlen);
        let mut i: usize = 0;
        while i < mlen
            invariant
                i <= mlen <= 255,
                2 + mlen <= r@.len(),
                methods@ == Seq::new(i as nat, |j: int| HandshakeMethod::of_code(r@[2 + j])),
            decreases mlen - i,
        {
            methods.push(HandshakeMethod::from_u8(r[2 + i]));
            i += 1;
        }
        Ok((HandshakeRequest { methods }, 2 + mlen))
    }

    /// How many bytes to read next, for a reader that holds the first bytes
    /// `prefix` of a request: zero once [`HandshakeRequest::from_stream`] can
    /// give its answer.
    pub fn needed(prefix: &[u8]) -> (n: usize)
        ensures
            n == HandshakeRequest::missing(prefix@),
    {
        let len: usize = prefix.len();
        let expected: usize = if len < 1 || prefix[0] != SOCKS_VERSION {
            1
        } else if len < 2 {
            2
        } else {
            2 + prefix[1] as usize
        };
        if expected > len {
            expected - len
        } else {
            0
        }
    }

    /// Appends the wire form of the request to the writer `w`.
    pub fn write_to(&self, w: &mut Vec<u8>)
        requires
            self@.wire().len() <= isize::MAX,
        ensures
            final(w)@ == old(w)@ + self@.wire(),
    {
        let mut buf: BytesMut = with_capacity(self.serialized_len());
        self.write_to_buf(&mut buf);
        w.extend_from_slice(written_slice(&buf));
    }

    /// Appends the wire form of the request to `buf`: version, count, then
    /// one byte for each method, in the order given.
    pub fn write_to_buf(&self, buf: &mut BytesMut)
        ensures
            written(*final(buf)) == written(*old(buf)) + self@.wire(),
    {
        put_u8(buf, SOCKS_VERSION);
        put_u8(buf, (self.methods.len() % 256) as u8);
        let mut codes: Vec<u8> = Vec::with_capacity(self.methods.len());
        let mut i: usize = 0;
        while i < self.methods.len()
            invariant
                i <= self.methods@.len(),
                codes@ == Seq::new(i as nat, |j: int| self.methods@[j].code()),
            decreases self.methods@.len() - i,
        {
            codes.push(self.methods[i].to_u8());
            i += 1;
        }
        put_slice(buf, codes.as_slice());
    }

    /// The number of bytes that [`HandshakeRequest::write_to_buf`] appends.
    pub fn serialized_len(&self) -> (n: usize)
        requires
            self@.wire().len() <= usize::MAX,
        ensures
            n == self@.wire().len(),
    {
        2 + self.methods.len()
    }
}

} // verus!
