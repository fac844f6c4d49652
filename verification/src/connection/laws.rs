//! What holds of the handshake as a whole.

use crate::connection::{
    general_failure, head, no_acceptable_method, served, outcome, ConnectionView, EventView,
    HandshakeView, IncomingConnectionView, Phase,
};
use crate::error::Error;
use crate::protocol::handshake::request::HandshakeRequest;
use crate::protocol::handshake::method::HandshakeMethod;
use crate::protocol::laws::{
    missing_means_malformed, parse_ignores_what_follows, reading_stops_at_the_end,
};
use crate::protocol::request::Request;
use vstd::prelude::*;

verus! {

/// The machine never rests without something to wait for: a step from a
/// well-formed state that leaves the handshake open leaves it in a
/// well-formed state, and the server's method stays what it was.
pub proof fn step_keeps_well_formed(v: IncomingConnectionView, event: EventView)
    requires
        v.wf(),
    ensures
        v.step(event) matches HandshakeView::Pending(next) ==> next.wf() && next.method == v.method,
{
    if let EventView::Received(chunk) = event {
        missing_means_malformed(v.received + chunk);
    }
}

/// The phases come in their order, and none is skipped. A step that leaves
/// the handshake open stays in its phase or goes to the next one: from the
/// negotiation to the authentication only on a handshake request that offers
/// the server's method, and from the authentication to the request only once
/// the client is authenticated. A connection is only ever established from
/// the phase that reads the request, by a request that decodes, and it is
/// the connection for that request's command and address.
pub proof fn phases_come_in_order(v: IncomingConnectionView, event: EventView)
    ensures
        v.step(event) matches HandshakeView::Pending(next) ==> {
            ||| next == v
            ||| {
                &&& event matches EventView::Received(chunk)
                &&& next.phase == v.phase
                &&& v.phase != Phase::Authenticating
                &&& next.received == v.received + chunk
            }
            ||| {
                &&& event matches EventView::Received(chunk)
                &&& HandshakeRequest::parse(v.received + chunk) matches Ok((request, _))
                &&& request.offers(v.method)
                &&& v.phase == Phase::Negotiating
                &&& next.phase == Phase::Authenticating
            }
            ||| {
                &&& event == EventView::Authenticated
                &&& v.phase == Phase::Authenticating
                &&& next.phase == Phase::Requesting
            }
        },
        v.step(event) matches HandshakeView::Established(connection) ==> {
            &&& event matches EventView::Received(chunk)
            &&& Request::parse(v.received + chunk) matches Ok((request, _))
            &&& v.phase == Phase::Requesting
            &&& connection == (ConnectionView {
                command: request.command,
                address: request.address,
            })
        },
{
}

/// What the client is told when the handshake fails. A client that offers
/// no acceptable method gets the two bytes `05 FF`, and only such a client
/// does. A client whose handshake fails after it was authenticated gets the
/// "general failure" response with the unspecified address, ten bytes, and
/// only such a client does. Any other failure is met with silence.
pub proof fn rejections_are_announced(v: IncomingConnectionView, event: EventView)
    ensures
        no_acceptable_method() == seq![0x05u8, 0xffu8],
        general_failure() == seq![0x05u8, 0x01u8, 0, 0x01u8, 0, 0, 0, 0, 0, 0],
        v.step(event) matches HandshakeView::Rejected { notice, error } ==> {
            &&& error == Error::AuthenticationNegotiationFailed <==> notice == Some(
                no_acceptable_method(),
            )
            &&& v.phase == Phase::Requesting <==> notice == Some(general_failure())
            &&& (v.phase != Phase::Requesting && error != Error::AuthenticationNegotiationFailed)
                <==> notice is None
            &&& error == Error::AuthenticationNegotiationFailed ==> v.phase == Phase::Negotiating
            &&& error == Error::AuthenticationExecutionFailed <==> v.phase == Phase::Authenticating
                && event == EventView::Denied
        },
{
}

/// The handshake, step by step, ends as the client's bytes as a whole say it
/// ought to: for every method of the server, every stream of bytes and
/// either outcome of the authentication. In particular the machine reads
/// the handshake request and the request each to its last byte and no
/// further, however the bytes are asked for.
pub proof fn handshake_follows_the_stream(method: HandshakeMethod, stream: Seq<u8>, admitted: bool)
    ensures
        served(
            IncomingConnectionView { method, phase: Phase::Negotiating, received: Seq::empty() },
            stream,
            admitted,
        ) == outcome(method, stream, admitted),
{
    let start = IncomingConnectionView {
        method,
        phase: Phase::Negotiating,
        received: Seq::empty(),
    };
    negotiation_follows_the_stream(start, stream, admitted);
}

/// The outcome on a stream of which `v.received` has been read already.
spec fn outcome_from(v: IncomingConnectionView, rest: Seq<u8>, admitted: bool) -> HandshakeView {
    outcome(v.method, v.received + rest, admitted)
}

proof fn negotiation_follows_the_stream(v: IncomingConnectionView, rest: Seq<u8>, admitted: bool)
    requires
        v.phase == Phase::Negotiating,
        v.wf(),
    ensures
        served(v, rest, admitted) == outcome_from(v, rest, admitted),
    decreases rest.len(),
{
    let whole = v.received + rest;
    let asked = HandshakeRequest::missing(v.received);
    let chunk = head(rest, asked);
    let all = v.received + chunk;
    let left = rest.subrange(chunk.len() as int, rest.len() as int);
    assert(all + left =~= whole);
    if chunk.len() == 0 {
        missing_means_malformed(v.received);
    } else {
        missing_means_malformed(all);
        parse_ignores_what_follows(all, left);
        reading_stops_at_the_end(v.received, chunk);
        match HandshakeRequest::parse(all) {
            Err(Error::MalformedMessage) => {
                let next = IncomingConnectionView { received: all, ..v };
                negotiation_follows_the_stream(next, left, admitted);
            },
            Err(_) => {},
            Ok((offer, taken)) => {
                assert(whole.subrange(taken as int, whole.len() as int) =~= left);
                if offer.offers(v.method) {
                    let waiting = IncomingConnectionView {
                        phase: Phase::Authenticating,
                        received: Seq::empty(),
                        ..v
                    };
                    if admitted {
                        let next = IncomingConnectionView {
                            phase: Phase::Requesting,
                            received: Seq::empty(),
                            ..v
                        };
                        assert(served(waiting, left, admitted) == served(next, left, admitted));
                        request_follows_the_stream(next, left, admitted);
                    }
                }
            },
        }
    }
}

/// The end of a handshake whose request is `stream`.
spec fn request_outcome(stream: Seq<u8>) -> HandshakeView {
    match Request::parse(stream) {
        Err(error) => HandshakeView::Rejected { notice: Some(general_failure()), error },
        Ok((request, _)) => HandshakeView::Established(
            ConnectionView { command: request.command, address: request.address },
        ),
    }
}

proof fn request_follows_the_stream(v: IncomingConnectionView, rest: Seq<u8>, admitted: bool)
    requires
        v.phase == Phase::Requesting,
        v.wf(),
    ensures
        served(v, rest, admitted) == request_outcome(v.received + rest),
    decreases rest.len(),
{
    let whole = v.received + rest;
    let asked = Request::missing(v.received);
    let chunk = head(rest, asked);
    let all = v.received + chunk;
    let left = rest.subrange(chunk.len() as int, rest.len() as int);
    assert(all + left =~= whole);
    if chunk.len() == 0 {
        missing_means_malformed(v.received);
    } else {
        missing_means_malformed(all);
        parse_ignores_what_follows(all, left);
        match Request::parse(all) {
            Err(Error::MalformedMessage) => {
                let next = IncomingConnectionView { received: all, ..v };
                request_follows_the_stream(next, left, admitted);
            },
            _ => {},
        }
    }
}

} // verus!
