//! What holds of the codec as a whole.
//!
//! Each function here is a theorem about the `wire` and `parse` functions of
//! the message types, and through the contracts of the encoders and decoders
//! about the code that runs.

use crate::error::Error;
use crate::protocol::address::{port_of, port_wire, Address, AddressView};
use crate::protocol::handshake::method::HandshakeMethod;
use crate::protocol::handshake::request::{HandshakeRequest, HandshakeRequestView};
use crate::protocol::handshake::response::HandshakeResponse;
use crate::protocol::reply::Reply;
use crate::protocol::request::{Request, RequestView};
use crate::protocol::response::{Response, ResponseView};
use crate::protocol::udp::{UdpHeader, UdpHeaderView};
use crate::protocol::command::Command;
use crate::protocol::SOCKS_VERSION;
use vstd::prelude::*;

verus! {

/// A port written as two bytes reads back as the same port, and two bytes
/// read as a port are written back as the same two bytes.
pub proof fn port_round_trip(port: u16, high: u8, low: u8)
    ensures
        port_of(port_wire(port)[0], port_wire(port)[1]) == port,
        port_wire(port_of(high, low)) == seq![high, low],
{
}

/// Every method byte decodes to a valid method that encodes to the same
/// byte, and every valid method decodes from its own code.
pub proof fn method_round_trip(b: u8, m: HandshakeMethod)
    ensures
        HandshakeMethod::of_code(b).valid(),
        HandshakeMethod::of_code(b).code() == b,
        m.valid() ==> HandshakeMethod::of_code(m.code()) == m,
{
}

/// Every reply byte decodes to a valid reply that encodes to the same byte,
/// and every valid reply decodes from its own code.
pub proof fn reply_round_trip(b: u8, r: Reply)
    ensures
        Reply::of_code(b).valid(),
        Reply::of_code(b).code() == b,
        r.valid() ==> Reply::of_code(r.code()) == r,
{
}

/// Every command decodes from its own code, and a byte that decodes to a
/// command is that command's code.
pub proof fn command_round_trip(b: u8, c: Command)
    ensures
        Command::of_code(c.code()) == Ok::<Command, Error>(c),
        Command::of_code(b) == Ok::<Command, Error>(c) ==> c.code() == b,
        Command::of_code(b) is Err ==> Command::of_code(b) == Err::<Command, Error>(
            Error::UnsupportedCommand(b),
        ),
{
}

/// Round trip of an address: the wire form of a valid address, followed by
/// any bytes at all, decodes to that address and takes up exactly the wire
/// form.
pub proof fn address_round_trip(a: AddressView, rest: Seq<u8>)
    requires
        a.valid(),
    ensures
        Address::parse(a.wire()) == Ok::<(AddressView, nat), Error>((a, a.wire().len())),
        Address::parse(a.wire() + rest) == Ok::<(AddressView, nat), Error>((a, a.wire().len())),
{
    address_round_trip_with(a, rest);
    address_round_trip_with(a, Seq::empty());
}

proof fn address_round_trip_with(a: AddressView, rest: Seq<u8>)
    requires
        a.valid(),
    ensures
        Address::parse(a.wire() + rest) == Ok::<(AddressView, nat), Error>((a, a.wire().len())),
{
    let s = a.wire() + rest;
    match a {
        AddressView::Ipv4(ip, port) => {
            port_round_trip(port, 0, 0);
            assert(s.subrange(1, 5) =~= ip);
        },
        AddressView::Ipv6(ip, port) => {
            port_round_trip(port, 0, 0);
            assert(s.subrange(1, 17) =~= ip);
        },
        AddressView::Domain(name, port) => {
            port_round_trip(port, 0, 0);
            let n = name.len() as int;
            assert(s.subrange(2, 2 + n) =~= name);
        },
    }
}

/// Whatever decodes as an address is valid, and its wire form is the very
/// bytes it was decoded from.
pub proof fn address_parse_inverts_wire(s: Seq<u8>)
    requires
        Address::parse(s) is Ok,
    ensures
        Address::parse(s)->Ok_0.0.valid(),
        Address::parse(s)->Ok_0.1 <= s.len(),
        Address::parse(s)->Ok_0.0.wire() == s.subrange(0, Address::parse(s)->Ok_0.1 as int),
{
    match Address::parse(s)->Ok_0.0 {
        AddressView::Ipv4(_, _) => {
            port_round_trip(0, s[5], s[6]);
        },
        AddressView::Ipv6(_, _) => {
            port_round_trip(0, s[17], s[18]);
        },
        AddressView::Domain(_, _) => {
            port_round_trip(0, s[2 + s[1]], s[3 + s[1]]);
        },
    }
}

/// Round trip of a handshake request: the wire form of a valid request,
/// followed by any bytes at all, decodes to that request, with the same
/// methods in the same order, and takes up exactly the wire form.
pub proof fn handshake_request_round_trip(v: HandshakeRequestView, rest: Seq<u8>)
    requires
        v.valid(),
    ensures
        HandshakeRequest::parse(v.wire()) == Ok::<(HandshakeRequestView, nat), Error>(
            (v, v.wire().len()),
        ),
        HandshakeRequest::parse(v.wire() + rest) == Ok::<(HandshakeRequestView, nat), Error>(
            (v, v.wire().len()),
        ),
{
    handshake_request_round_trip_with(v, rest);
    handshake_request_round_trip_with(v, Seq::empty());
}

proof fn handshake_request_round_trip_with(v: HandshakeRequestView, rest: Seq<u8>)
    requires
        v.valid(),
    ensures
        HandshakeRequest::parse(v.wire() + rest) == Ok::<(HandshakeRequestView, nat), Error>(
            (v, v.wire().len()),
        ),
{
    let s = v.wire() + rest;
    let got = Seq::new(s[1] as nat, |i: int| HandshakeMethod::of_code(s[2 + i]));
    assert(got =~= v.methods);
}

/// Order of the methods: what decodes as a handshake request has one method
/// for each method byte, at the same place and with that byte as its code,
/// and writing the decoded request out gives back the very bytes it was
/// decoded from. Nothing is reordered, dropped or merged.
pub proof fn handshake_request_keeps_order(s: Seq<u8>)
    requires
        HandshakeRequest::parse(s) is Ok,
    ensures
        HandshakeRequest::parse(s)->Ok_0.0.valid(),
        HandshakeRequest::parse(s)->Ok_0.0.methods.len() == s[1],
        forall|i: int|
            0 <= i < s[1] ==> (#[trigger] HandshakeRequest::parse(s)->Ok_0.0.methods[i]).code()
                == s[2 + i],
        HandshakeRequest::parse(s)->Ok_0.1 <= s.len(),
        HandshakeRequest::parse(s)->Ok_0.0.wire() == s.subrange(
            0,
            HandshakeRequest::parse(s)->Ok_0.1 as int,
        ),
{
}

/// Round trip of a handshake response: the wire form of a valid response,
/// followed by any bytes at all, decodes to that response and takes up the
/// two bytes of the wire form.
pub proof fn handshake_response_round_trip(v: HandshakeResponse, rest: Seq<u8>)
    requires
        v.valid(),
    ensures
        HandshakeResponse::parse(v.wire()) == Ok::<(HandshakeResponse, nat), Error>((v, 2)),
        HandshakeResponse::parse(v.wire() + rest) == Ok::<(HandshakeResponse, nat), Error>(
            (v, 2),
        ),
{
}

/// Round trip of a request: the wire form of a valid request, followed by
/// any bytes at all, decodes to that request and takes up exactly the wire
/// form.
pub proof fn request_round_trip(v: RequestView, rest: Seq<u8>)
    requires
        v.valid(),
    ensures
        Request::parse(v.wire()) == Ok::<(RequestView, nat), Error>((v, v.wire().len())),
        Request::parse(v.wire() + rest) == Ok::<(RequestView, nat), Error>((v, v.wire().len())),
{
    let s = v.wire() + rest;
    address_round_trip(v.address, rest);
    assert(s.subrange(3, s.len() as int) =~= v.address.wire() + rest);
    assert(v.wire().subrange(3, v.wire().len() as int) =~= v.address.wire());
}

/// Round trip of a response: the wire form of a valid response, followed by
/// any bytes at all, decodes to that response and takes up exactly the wire
/// form.
pub proof fn response_round_trip(v: ResponseView, rest: Seq<u8>)
    requires
        v.valid(),
    ensures
        Response::parse(v.wire()) == Ok::<(ResponseView, nat), Error>((v, v.wire().len())),
        Response::parse(v.wire() + rest) == Ok::<(ResponseView, nat), Error>(
            (v, v.wire().len()),
        ),
{
    let s = v.wire() + rest;
    address_round_trip(v.address, rest);
    assert(s.subrange(3, s.len() as int) =~= v.address.wire() + rest);
    assert(v.wire().subrange(3, v.wire().len() as int) =~= v.address.wire());
}

/// Round trip of a datagram header: the wire form of a valid header,
/// followed by any payload at all, decodes to that header and takes up
/// exactly the wire form, so that the payload starts right after it. This
/// holds for every fragment number alike, 0 and 255 included.
pub proof fn udp_header_round_trip(v: UdpHeaderView, payload: Seq<u8>)
    requires
        v.valid(),
    ensures
        UdpHeader::parse(v.wire()) == Ok::<(UdpHeaderView, nat), Error>((v, v.wire().len())),
        UdpHeader::parse(v.wire() + payload) == Ok::<(UdpHeaderView, nat), Error>(
            (v, v.wire().len()),
        ),
        (v.wire() + payload).subrange(v.wire().len() as int, (v.wire() + payload).len() as int)
            == payload,
{
    let s = v.wire() + payload;
    address_round_trip(v.address, payload);
    assert(s.subrange(3, s.len() as int) =~= v.address.wire() + payload);
    assert(v.wire().subrange(3, v.wire().len() as int) =~= v.address.wire());
}

/// The fragment number is carried as it is: whether a datagram decodes, what
/// address it decodes to and how long its header is do not depend on the
/// third byte, and the decoded fragment number is that byte.
pub proof fn udp_fragment_is_opaque(s: Seq<u8>, frag: u8)
    requires
        s.len() >= 3,
    ensures
        UdpHeader::parse(s) is Ok ==> UdpHeader::parse(s)->Ok_0.0.frag == s[2],
        UdpHeader::parse(s.update(2, frag)) is Ok <==> UdpHeader::parse(s) is Ok,
        UdpHeader::parse(s) is Err ==> UdpHeader::parse(s.update(2, frag)) == UdpHeader::parse(s),
        UdpHeader::parse(s) is Ok ==> UdpHeader::parse(s.update(2, frag)) == Ok::<
            (UdpHeaderView, nat),
            Error,
        >(
            (
                UdpHeaderView { frag, address: UdpHeader::parse(s)->Ok_0.0.address },
                UdpHeader::parse(s)->Ok_0.1,
            ),
        ),
{
    let t = s.update(2, frag);
    assert(t.subrange(3, t.len() as int) =~= s.subrange(3, s.len() as int));
}

/// Version check: a message of the control channel whose first byte is not
/// the SOCKS5 version is refused as of an unsupported version, whatever
/// follows the byte and whichever of the four messages is being read.
pub proof fn wrong_version_is_refused(s: Seq<u8>)
    requires
        s.len() >= 1,
        s[0] != SOCKS_VERSION,
    ensures
        HandshakeRequest::parse(s) == Err::<(HandshakeRequestView, nat), Error>(
            Error::UnsupportedVersion(s[0]),
        ),
        HandshakeResponse::parse(s) == Err::<(HandshakeResponse, nat), Error>(
            Error::UnsupportedVersion(s[0]),
        ),
        Request::parse(s) == Err::<(RequestView, nat), Error>(Error::UnsupportedVersion(s[0])),
        Response::parse(s) == Err::<(ResponseView, nat), Error>(Error::UnsupportedVersion(s[0])),
{
}

/// A decoder reports an unsupported version only for a first byte that is
/// not the SOCKS5 version, and then it reports that byte.
pub proof fn unsupported_version_means_wrong_byte(s: Seq<u8>, b: u8)
    ensures
        HandshakeRequest::parse(s) == Err::<(HandshakeRequestView, nat), Error>(
            Error::UnsupportedVersion(b),
        ) ==> s.len() >= 1 && s[0] == b && b != SOCKS_VERSION,
        HandshakeResponse::parse(s) == Err::<(HandshakeResponse, nat), Error>(
            Error::UnsupportedVersion(b),
        ) ==> s.len() >= 1 && s[0] == b && b != SOCKS_VERSION,
        Request::parse(s) == Err::<(RequestView, nat), Error>(Error::UnsupportedVersion(b))
            ==> s.len() >= 1 && s[0] == b && b != SOCKS_VERSION,
        Response::parse(s) == Err::<(ResponseView, nat), Error>(Error::UnsupportedVersion(b))
            ==> s.len() >= 1 && s[0] == b && b != SOCKS_VERSION,
{
}

/// Reading in steps: an input is refused as malformed exactly when there are
/// bytes still to read. So a reader that keeps reading the number of bytes
/// asked for gets, once that number is zero, the decoder's final answer.
pub proof fn missing_means_malformed(s: Seq<u8>)
    ensures
        Address::missing(s) > 0 <==> Address::parse(s) == Err::<(AddressView, nat), Error>(
            Error::MalformedMessage,
        ),
        HandshakeRequest::missing(s) > 0 <==> HandshakeRequest::parse(s) == Err::<
            (HandshakeRequestView, nat),
            Error,
        >(Error::MalformedMessage),
        HandshakeResponse::missing(s) > 0 <==> HandshakeResponse::parse(s) == Err::<
            (HandshakeResponse, nat),
            Error,
        >(Error::MalformedMessage),
        Request::missing(s) > 0 <==> Request::parse(s) == Err::<(RequestView, nat), Error>(
            Error::MalformedMessage,
        ),
        Response::missing(s) > 0 <==> Response::parse(s) == Err::<(ResponseView, nat), Error>(
            Error::MalformedMessage,
        ),
{
}

/// What follows a message does not change how it decodes: once the input is
/// long enough for a decoder to give an answer other than "malformed", the
/// answer stays the same however the input goes on.
pub proof fn parse_ignores_what_follows(s: Seq<u8>, more: Seq<u8>)
    ensures
        Address::parse(s) != Err::<(AddressView, nat), Error>(Error::MalformedMessage)
            ==> Address::parse(s + more) == Address::parse(s),
        HandshakeRequest::parse(s) != Err::<(HandshakeRequestView, nat), Error>(
            Error::MalformedMessage,
        ) ==> HandshakeRequest::parse(s + more) == HandshakeRequest::parse(s),
        HandshakeResponse::parse(s) != Err::<(HandshakeResponse, nat), Error>(
            Error::MalformedMessage,
        ) ==> HandshakeResponse::parse(s + more) == HandshakeResponse::parse(s),
        Request::parse(s) != Err::<(RequestView, nat), Error>(Error::MalformedMessage)
            ==> Request::parse(s + more) == Request::parse(s),
        Response::parse(s) != Err::<(ResponseView, nat), Error>(Error::MalformedMessage)
            ==> Response::parse(s + more) == Response::parse(s),
        UdpHeader::parse(s) != Err::<(UdpHeaderView, nat), Error>(Error::MalformedMessage)
            ==> UdpHeader::parse(s + more) == UdpHeader::parse(s),
{
    let t = s + more;
    address_ignores_what_follows(s, more);
    if HandshakeRequest::parse(s) is Ok {
        let n = s[1] as nat;
        assert(Seq::new(n, |i: int| HandshakeMethod::of_code(t[2 + i])) =~= Seq::new(
            n,
            |i: int| HandshakeMethod::of_code(s[2 + i]),
        ));
    }
    if s.len() >= 3 {
        let sa = s.subrange(3, s.len() as int);
        address_ignores_what_follows(sa, more);
        assert(t.subrange(3, t.len() as int) =~= sa + more);
    }
}

proof fn address_ignores_what_follows(s: Seq<u8>, more: Seq<u8>)
    ensures
        Address::parse(s) != Err::<(AddressView, nat), Error>(Error::MalformedMessage)
            ==> Address::parse(s + more) == Address::parse(s),
{
    let t = s + more;
    if Address::parse(s) is Ok {
        if s[0] == 1 {
            assert(t.subrange(1, 5) =~= s.subrange(1, 5));
        } else if s[0] == 4 {
            assert(t.subrange(1, 17) =~= s.subrange(1, 17));
        } else {
            let n = s[1] as int;
            assert(t.subrange(2, 2 + n) =~= s.subrange(2, 2 + n));
        }
    }
}

/// Reading in steps never reads past the end of a message. A reader that
/// holds `s` and adds to it some of the bytes asked for, and no more, holds
/// no more than the message is known to need; and where what it holds then
/// decodes, the message takes up all of it.
pub proof fn reading_stops_at_the_end(s: Seq<u8>, more: Seq<u8>)
    ensures
        0 < more.len() <= Address::missing(s) ==> (s + more).len() <= Address::expected(s + more)
            && (Address::parse(s + more) matches Ok((_, taken)) ==> taken == (s + more).len()),
        0 < more.len() <= HandshakeRequest::missing(s) ==> (s + more).len()
            <= HandshakeRequest::expected(s + more) && (HandshakeRequest::parse(
            s + more,
        ) matches Ok((_, taken)) ==> taken == (s + more).len()),
        0 < more.len() <= HandshakeResponse::missing(s) ==> (s + more).len()
            <= HandshakeResponse::expected(s + more) && (HandshakeResponse::parse(
            s + more,
        ) matches Ok((_, taken)) ==> taken == (s + more).len()),
        0 < more.len() <= Request::missing(s) ==> (s + more).len() <= Request::expected(s + more)
            && (Request::parse(s + more) matches Ok((_, taken)) ==> taken == (s + more).len()),
        0 < more.len() <= Response::missing(s) ==> (s + more).len() <= Response::expected(
            s + more,
        ) && (Response::parse(s + more) matches Ok((_, taken)) ==> taken == (s + more).len()),
{
    address_reading_stops_at_the_end(s, more);
    if s.len() >= 3 {
        address_reading_stops_at_the_end(s.subrange(3, s.len() as int), more);
    }
}

proof fn address_reading_stops_at_the_end(s: Seq<u8>, more: Seq<u8>)
    ensures
        0 < more.len() <= Address::missing(s) ==> (s + more).len() <= Address::expected(s + more)
            && (Address::parse(s + more) matches Ok((_, taken)) ==> taken == (s + more).len()),
{
}

/// A datagram that does not start with a header is recognised as such: one
/// of fewer than seven bytes, the length of the shortest header, is
/// malformed or of an unsupported address type, and one whose fourth byte
/// is none of the three address types is of an unsupported address type,
/// however long it is.
pub proof fn datagram_without_header_is_refused(s: Seq<u8>)
    ensures
        s.len() < 7 ==> UdpHeader::parse(s) is Err,
        s.len() < 4 ==> UdpHeader::parse(s) == Err::<(UdpHeaderView, nat), Error>(
            Error::MalformedMessage,
        ),
        s.len() >= 4 && s[3] != 0x01 && s[3] != 0x03 && s[3] != 0x04 ==> UdpHeader::parse(s)
            == Err::<(UdpHeaderView, nat), Error>(Error::UnsupportedAddressType(s[3])),
{
}

} // verus!
