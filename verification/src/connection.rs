//! From a fresh connection to a command.
//!
//! [`IncomingConnection`] is the server's side of the opening of a SOCKS5
//! connection, as a state machine that does no I/O of its own. It says what
//! to do next ([`IncomingConnection::action`]); the caller does it and hands
//! back what came of it ([`IncomingConnection::handshake`]). The machine goes
//! through three phases: it reads the client's handshake request and settles
//! the authentication method, it waits for the authentication to run, and it
//! reads the command request. At the end stands a [`Connection`], one handle
//! for each command, or a rejection.
//!
//! The machine is used up by every step and given back only while the
//! handshake is still open, so nothing can be read or sent on behalf of a
//! handshake that has ended.

pub mod associate;
pub mod bind;
pub mod connect;
pub mod laws;

use crate::connection::associate::Associate;
use crate::connection::bind::Bind;
use crate::connection::connect::Connect;
use crate::error::Error;
use crate::protocol::address::{Address, AddressView};
use crate::protocol::command::Command;
use crate::protocol::handshake::method::HandshakeMethod;
use crate::protocol::handshake::request::HandshakeRequest;
use crate::protocol::handshake::response::HandshakeResponse;
use crate::connection::laws::{handshake_follows_the_stream, step_keeps_well_formed};
use crate::protocol::laws::missing_means_malformed;
use crate::protocol::reply::Reply;
use crate::protocol::request::Request;
use crate::protocol::response::{Response, ResponseView};
use vstd::prelude::*;
use vstd::slice::{slice_subrange, slice_to_vec};

verus! {

/// A phase of a handle that serves a command. The phases of a handle are
/// told apart by their types; what they stand for is the number of replies
/// that have been sent by the time a handle is in the phase.
pub trait ReplyPhase {
    /// The number of replies sent by the time a handle is in this phase.
    spec fn replies_sent() -> nat;

    /// The number of replies sent by the time a handle is in this phase.
    fn count() -> (n: usize)
        ensures
            n == Self::replies_sent(),
    ;
}

/// Where a handshake stands.
#[derive(Clone, Copy, Debug, PartialEq, Eq, Structural)]
pub enum Phase {
    /// The client's handshake request is being read.
    Negotiating,
    /// The method is agreed; the authentication has yet to run.
    Authenticating,
    /// The client is authenticated; its command request is being read.
    Requesting,
}

/// A connection that has been accepted and not yet served.
pub struct IncomingConnection {
    method: HandshakeMethod,
    phase: Phase,
    received: Vec<u8>,
}

/// An incoming connection as a mathematical value.
pub struct IncomingConnectionView {
    /// The one authentication method that the server accepts.
    pub method: HandshakeMethod,
    /// Where the handshake stands.
    pub phase: Phase,
    /// The bytes read so far of the message that is being read.
    pub received: Seq<u8>,
}

/// What the caller is to do next.
#[derive(Debug)]
pub enum Action {
    /// Read up to this many bytes from the stream and report them as
    /// [`Event::Received`]; report no bytes where the stream has ended.
    Receive(usize),
    /// Send these bytes, which tell the client the method chosen; then run
    /// the authentication and report how it went, as
    /// [`Event::Authenticated`] or [`Event::Denied`].
    Authenticate(Vec<u8>),
}

/// An action as a mathematical value.
pub enum ActionView {
    Receive(nat),
    Authenticate(Seq<u8>),
}

impl View for Action {
    type V = ActionView;

    open spec fn view(&self) -> ActionView {
        match *self {
            Action::Receive(n) => ActionView::Receive(n as nat),
            Action::Authenticate(bytes) => ActionView::Authenticate(bytes@),
        }
    }
}

/// What came of the last action.
#[derive(Debug)]
pub enum Event {
    /// The bytes that the stream gave; none where it has ended.
    Received(Vec<u8>),
    /// Reading or sending failed.
    Failed,
    /// The authentication let the client in.
    Authenticated,
    /// The authentication turned the client down.
    Denied,
}

/// An event as a mathematical value.
pub enum EventView {
    Received(Seq<u8>),
    Failed,
    Authenticated,
    Denied,
}

impl View for Event {
    type V = EventView;

    open spec fn view(&self) -> EventView {
        match *self {
            Event::Received(bytes) => EventView::Received(bytes@),
            Event::Failed => EventView::Failed,
            Event::Authenticated => EventView::Authenticated,
            Event::Denied => EventView::Denied,
        }
    }
}

/// A connection whose request has been read: the handle for the command
/// asked for, in its first phase, and the address asked for.
pub enum Connection {
    Associate(Associate<associate::NeedReply>, Address),
    Bind(Bind<bind::NeedFirstReply>, Address),
    Connect(Connect<connect::NeedReply>, Address),
}

/// A connection as a mathematical value: the command asked for and its
/// address.
pub struct ConnectionView {
    pub command: Command,
    pub address: AddressView,
}

impl View for Connection {
    type V = ConnectionView;

    open spec fn view(&self) -> ConnectionView {
        match *self {
            Connection::Associate(_, address) => ConnectionView {
                command: Command::Associate,
                address: address@,
            },
            Connection::Bind(_, address) => ConnectionView {
                command: Command::Bind,
                address: address@,
            },
            Connection::Connect(_, address) => ConnectionView {
                command: Command::Connect,
                address: address@,
            },
        }
    }
}

/// How a step of the handshake ended.
pub enum Handshake {
    /// The handshake goes on: here is the machine, ask it what to do.
    Pending(IncomingConnection),
    /// The handshake is done and the request is read.
    Established(Connection),
    /// The handshake has failed. The caller sends `notice`, if there is one,
    /// without minding whether that works, shuts the stream down and reports
    /// `error`.
    Rejected { notice: Option<Vec<u8>>, error: Error },
}

/// The end of a step as a mathematical value.
pub enum HandshakeView {
    Pending(IncomingConnectionView),
    Established(ConnectionView),
    Rejected { notice: Option<Seq<u8>>, error: Error },
}

impl View for Handshake {
    type V = HandshakeView;

    open spec fn view(&self) -> HandshakeView {
        match *self {
            Handshake::Pending(conn) => HandshakeView::Pending(conn@),
            Handshake::Established(connection) => HandshakeView::Established(connection@),
            Handshake::Rejected { notice, error } => HandshakeView::Rejected {
                notice: match notice {
                    Some(bytes) => Some(bytes@),
                    None => None,
                },
                error,
            },
        }
    }
}

/// The bytes that tell a client that none of its methods will do.
pub open spec fn no_acceptable_method() -> Seq<u8> {
    (HandshakeResponse { method: HandshakeMethod::Unacceptable }).wire()
}

/// The bytes that tell a client that its request has failed: a response with
/// the reply "general failure" and the unspecified address.
pub open spec fn general_failure() -> Seq<u8> {
    (ResponseView {
        reply: Reply::GeneralFailure,
        address: AddressView::Ipv4(seq![0u8, 0u8, 0u8, 0u8], 0),
    }).wire()
}

impl IncomingConnectionView {
    /// The machine is only ever at rest where there is something to wait
    /// for: while a message is being read, bytes of it are still missing;
    /// while the authentication runs, nothing has been read.
    pub open spec fn wf(self) -> bool {
        match self.phase {
            Phase::Negotiating => HandshakeRequest::missing(self.received) > 0,
            Phase::Authenticating => self.received.len() == 0,
            Phase::Requesting => Request::missing(self.received) > 0,
        }
    }

    /// What the caller is to do next.
    pub open spec fn action(self) -> ActionView {
        match self.phase {
            Phase::Negotiating => ActionView::Receive(HandshakeRequest::missing(self.received)),
            Phase::Authenticating => ActionView::Authenticate(
                (HandshakeResponse { method: self.method }).wire(),
            ),
            Phase::Requesting => ActionView::Receive(Request::missing(self.received)),
        }
    }

    /// Whether `chunk` answers a request for bytes: it holds at least one
    /// byte and no more than were asked for.
    pub open spec fn fits(chunk: Seq<u8>, asked: nat) -> bool {
        0 < chunk.len() <= asked
    }

    /// The step that the machine takes on `event`.
    ///
    /// While a message is being read, bytes that fit are added to those
    /// read before, and [`HandshakeRequest::parse`] or [`Request::parse`]
    /// decides on the whole: a message still cut short keeps the machine
    /// waiting, a message refused ends the handshake with the decoder's
    /// error, and a message read moves it on. No bytes, or more than asked
    /// for, end the handshake as malformed; a failure of the stream ends it
    /// as such.
    ///
    /// A handshake request that offers the server's method leads to the
    /// authentication; one that does not is answered with "no acceptable
    /// method" and ends the handshake. A read request ends the handshake
    /// with a connection for its command. Once the client is authenticated,
    /// whatever ends the handshake early is announced to the client with a
    /// "general failure" response.
    ///
    /// An event that does not answer what was asked for leaves the machine
    /// as it is.
    pub open spec fn step(self, event: EventView) -> HandshakeView {
        match self.phase {
            Phase::Negotiating => match event {
                EventView::Received(chunk) => {
                    let all = self.received + chunk;
                    if !Self::fits(chunk, HandshakeRequest::missing(self.received)) {
                        HandshakeView::Rejected { notice: None, error: Error::MalformedMessage }
                    } else {
                        match HandshakeRequest::parse(all) {
                            Err(Error::MalformedMessage) => HandshakeView::Pending(
                                IncomingConnectionView { received: all, ..self },
                            ),
                            Err(error) => HandshakeView::Rejected { notice: None, error },
                            Ok((request, _)) => if request.offers(self.method) {
                                HandshakeView::Pending(
                                    IncomingConnectionView {
                                        phase: Phase::Authenticating,
                                        received: Seq::empty(),
                                        ..self
                                    },
                                )
                            } else {
                                HandshakeView::Rejected {
                                    notice: Some(no_acceptable_method()),
                                    error: Error::AuthenticationNegotiationFailed,
                                }
                            },
                        }
                    }
                },
                EventView::Failed => HandshakeView::Rejected { notice: None, error: Error::Io },
                _ => HandshakeView::Pending(self),
            },
            Phase::Authenticating => match event {
                EventView::Authenticated => HandshakeView::Pending(
                    IncomingConnectionView {
                        phase: Phase::Requesting,
                        received: Seq::empty(),
                        ..self
                    },
                ),
                EventView::Denied => HandshakeView::Rejected {
                    notice: None,
                    error: Error::AuthenticationExecutionFailed,
                },
                EventView::Failed => HandshakeView::Rejected { notice: None, error: Error::Io },
                EventView::Received(_) => HandshakeView::Pending(self),
            },
            Phase::Requesting => match event {
                EventView::Received(chunk) => {
                    let all = self.received + chunk;
                    if !Self::fits(chunk, Request::missing(self.received)) {
                        HandshakeView::Rejected {
                            notice: Some(general_failure()),
                            error: Error::MalformedMessage,
                        }
                    } else {
                        match Request::parse(all) {
                            Err(Error::MalformedMessage) => HandshakeView::Pending(
                                IncomingConnectionView { received: all, ..self },
                            ),
                            Err(error) => HandshakeView::Rejected {
                                notice: Some(general_failure()),
                                error,
                            },
                            Ok((request, _)) => HandshakeView::Established(
                                ConnectionView {
                                    command: request.command,
                                    address: request.address,
                                },
                            ),
                        }
                    }
                },
                EventView::Failed => HandshakeView::Rejected {
                    notice: Some(general_failure()),
                    error: Error::Io,
                },
                _ => HandshakeView::Pending(self),
            },
        }
    }
}

/// The first `n` bytes of `stream`, or all of it where it has fewer.
pub open spec fn head(stream: Seq<u8>, n: nat) -> Seq<u8> {
    if n <= stream.len() {
        stream.subrange(0, n as int)
    } else {
        stream
    }
}

/// How a handshake ends for a caller that does as it is told, on a client
/// that sends `stream` and then closes, with an authentication that lets the
/// client in or not, as `admitted` says.
///
/// Asked to read, the caller hands over the next bytes of the stream, as
/// many as asked for, or what is left of it. Asked to authenticate, it
/// reports what the authentication found.
pub open spec fn served(
    v: IncomingConnectionView,
    stream: Seq<u8>,
    admitted: bool,
) -> HandshakeView
    decreases stream.len(), (if v.phase == Phase::Authenticating {
            1nat
        } else {
            0nat
        }),
{
    match v.action() {
        ActionView::Receive(asked) => {
            let chunk = head(stream, asked);
            match v.step(EventView::Received(chunk)) {
                HandshakeView::Pending(next) => served(
                    next,
                    stream.subrange(chunk.len() as int, stream.len() as int),
                    admitted,
                ),
                end => end,
            }
        },
        ActionView::Authenticate(_) => {
            let event = if admitted {
                EventView::Authenticated
            } else {
                EventView::Denied
            };
            match v.step(event) {
                HandshakeView::Pending(next) => served(next, stream, admitted),
                end => end,
            }
        },
    }
}

/// How a handshake ought to end, read off the client's bytes as a whole.
///
/// The stream starts with a handshake request, or the handshake fails as the
/// decoder says. The request offers the server's method, or the client is
/// told that no method will do. The authentication lets the client in, or
/// the handshake fails. What follows the handshake request in the stream is
/// a request, or the client is told of a general failure and the handshake
/// fails as the decoder says. Then the connection is the one for the
/// request's command and address.
pub open spec fn outcome(method: HandshakeMethod, stream: Seq<u8>, admitted: bool) -> HandshakeView {
    match HandshakeRequest::parse(stream) {
        Err(error) => HandshakeView::Rejected { notice: None, error },
        Ok((offer, taken)) => if !offer.offers(method) {
            HandshakeView::Rejected {
                notice: Some(no_acceptable_method()),
                error: Error::AuthenticationNegotiationFailed,
            }
        } else if !admitted {
            HandshakeView::Rejected { notice: None, error: Error::AuthenticationExecutionFailed }
        } else {
            match Request::parse(stream.subrange(taken as int, stream.len() as int)) {
                Err(error) => HandshakeView::Rejected { notice: Some(general_failure()), error },
                Ok((request, _)) => HandshakeView::Established(
                    ConnectionView { command: request.command, address: request.address },
                ),
            }
        },
    }
}

impl View for IncomingConnection {
    type V = IncomingConnectionView;

    closed spec fn view(&self) -> IncomingConnectionView {
        IncomingConnectionView {
            method: self.method,
            phase: self.phase,
            received: self.received@,
        }
    }
}

impl IncomingConnection {
    /// A connection at the start of its handshake, for a server that
    /// accepts the authentication method `method` and no other.
    pub fn new(method: HandshakeMethod) -> (conn: IncomingConnection)
        ensures
            conn@ == (IncomingConnectionView {
                method,
                phase: Phase::Negotiating,
                received: Seq::empty(),
            }),
            conn@.wf(),
    {
        IncomingConnection { method, phase: Phase::Negotiating, received: Vec::new() }
    }

    /// What the caller is to do next.
    pub fn action(&self) -> (action: Action)
        ensures
            action@ == self@.action(),
    {
        match self.phase {
            Phase::Negotiating => Action::Receive(
                HandshakeRequest::needed(self.received.as_slice()),
            ),
            Phase::Authenticating => {
                let mut bytes: Vec<u8> = Vec::new();
                HandshakeResponse::new(self.method).write_to(&mut bytes);
                Action::Authenticate(bytes)
            },
            Phase::Requesting => Action::Receive(Request::needed(self.received.as_slice())),
        }
    }

    /// Takes the handshake one step on, given what came of the last action.
    ///
    /// The result is what [`IncomingConnectionView::step`] says, for every
    /// state and every event. A machine that is given back has something to
    /// wait for, as the one it came from had.
    pub fn handshake(self, event: Event) -> (res: Handshake)
        ensures
            res@ == self@.step(event@),
            self@.wf() ==> (res@ matches HandshakeView::Pending(next) ==> next.wf()),
    {
        proof {
            if self@.wf() {
                step_keeps_well_formed(self@, event@);
            }
        }
        let mut conn = self;
        match conn.phase {
            Phase::Negotiating => match event {
                Event::Received(chunk) => {
                    let mut chunk = chunk;
                    let asked: usize = HandshakeRequest::needed(conn.received.as_slice());
                    if chunk.len() == 0 || chunk.len() > asked {
                        return Handshake::Rejected { notice: None, error: Error::MalformedMessage };
                    }
                    conn.received.append(&mut chunk);
                    proof {
                        missing_means_malformed(conn.received@);
                    }
                    if HandshakeRequest::needed(conn.received.as_slice()) > 0 {
                        return Handshake::Pending(conn);
                    }
                    match HandshakeRequest::from_stream(conn.received.as_slice()) {
                        Ok((request, _)) => match conn.auth(&request) {
                            Ok(_) => Handshake::Pending(
                                IncomingConnection {
                                    method: conn.method,
                                    phase: Phase::Authenticating,
                                    received: Vec::new(),
                                },
                            ),
                            Err((refusal, error)) => {
                                let mut notice: Vec<u8> = Vec::new();
                                refusal.write_to(&mut notice);
                                Handshake::Rejected { notice: Some(notice), error }
                            },
                        },
                        Err(error) => Handshake::Rejected { notice: None, error },
                    }
                },
                Event::Failed => Handshake::Rejected { notice: None, error: Error::Io },
                _ => Handshake::Pending(conn),
            },
            Phase::Authenticating => match event {
                Event::Authenticated => Handshake::Pending(
                    IncomingConnection {
                        method: conn.method,
                        phase: Phase::Requesting,
                        received: Vec::new(),
                    },
                ),
                Event::Denied => Handshake::Rejected {
                    notice: None,
                    error: Error::AuthenticationExecutionFailed,
                },
                Event::Failed => Handshake::Rejected { notice: None, error: Error::Io },
                Event::Received(_) => Handshake::Pending(conn),
            },
            Phase::Requesting => match event {
                Event::Received(chunk) => {
                    let mut chunk = chunk;
                    let asked: usize = Request::needed(conn.received.as_slice());
                    if chunk.len() == 0 || chunk.len() > asked {
                        return Handshake::Rejected {
                            notice: Some(failure_notice()),
                            error: Error::MalformedMessage,
                        };
                    }
                    conn.received.append(&mut chunk);
                    proof {
                        missing_means_malformed(conn.received@);
                    }
                    if Request::needed(conn.received.as_slice()) > 0 {
                        return Handshake::Pending(conn);
                    }
                    match Request::from_stream(conn.received.as_slice()) {
                        Ok((request, _)) => Handshake::Established(dispatch(request)),
                        Err(error) => Handshake::Rejected {
                            notice: Some(failure_notice()),
                            error,
                        },
                    }
                },
                Event::Failed => Handshake::Rejected {
                    notice: Some(failure_notice()),
                    error: Error::Io,
                },
                _ => Handshake::Pending(conn),
            },
        }
    }

    /// Takes the handshake to its end on bytes that are already at hand:
    /// `stream` is all that the client sends before it closes, and
    /// `admitted` is what the authentication finds, should it come to that.
    ///
    /// The machine is asked what to do and given what it asks for, as
    /// [`served`] says, until the handshake ends; from a fresh connection
    /// that is the end that [`outcome`] reads off the stream as a whole.
    pub fn serve(self, stream: &[u8], admitted: bool) -> (end: Handshake)
        ensures
            end@ == served(self@, stream@, admitted),
            !(end@ is Pending),
            self@.phase == Phase::Negotiating && self@.received.len() == 0 ==> end@ == outcome(
                self@.method,
                stream@,
                admitted,
            ),
    {
        proof {
            if self@.phase == Phase::Negotiating && self@.received.len() == 0 {
                handshake_follows_the_stream(self@.method, stream@, admitted);
            }
        }
        let mut conn = self;
        let mut pos: usize = 0;
        assert(stream@.subrange(0, stream@.len() as int) =~= stream@);
        loop
            invariant
                pos <= stream@.len(),
                served(conn@, stream@.subrange(pos as int, stream@.len() as int), admitted)
                    == served(self@, stream@, admitted),
                self@.phase == Phase::Negotiating && self@.received.len() == 0 ==> served(
                    self@,
                    stream@,
                    admitted,
                ) == outcome(self@.method, stream@, admitted),
            decreases
                    stream@.len() - pos,
                    (if conn@.phase == Phase::Authenticating {
                        1nat
                    } else {
                        0nat
                    }),
        {
            let ghost rest = stream@.subrange(pos as int, stream@.len() as int);
            let event = match conn.action() {
                Action::Receive(asked) => {
                    let left: usize = stream.len() - pos;
                    let n: usize = if asked <= left {
                        asked
                    } else {
                        left
                    };
                    let chunk: Vec<u8> = slice_to_vec(slice_subrange(stream, pos, pos + n));
                    assert(chunk@ =~= head(rest, asked as nat));
                    assert(stream@.subrange((pos + n) as int, stream@.len() as int) =~= rest.subrange(
                        n as int,
                        rest.len() as int,
                    ));
                    pos += n;
                    Event::Received(chunk)
                },
                Action::Authenticate(_) => if admitted {
                    Event::Authenticated
                } else {
                    Event::Denied
                },
            };
            match conn.handshake(event) {
                Handshake::Pending(next) => {
                    conn = next;
                },
                end => {
                    return end;
                },
            }
        }
    }

    /// Settles the authentication method, given the client's handshake
    /// request.
    ///
    /// Where the request offers the server's method, by its code on the
    /// wire, the answer is the response that names the method. Where it does
    /// not, the answer is the response "no acceptable method", to be sent
    /// before the connection is given up, and the error to report.
    pub fn auth(&self, hs_req: &HandshakeRequest) -> (res: Result<
        HandshakeResponse,
        (HandshakeResponse, Error),
    >)
        ensures
            res == if hs_req@.offers(self@.method) {
                Ok::<HandshakeResponse, (HandshakeResponse, Error)>(
                    HandshakeResponse { method: self@.method },
                )
            } else {
                Err::<HandshakeResponse, (HandshakeResponse, Error)>(
                    (
                        HandshakeResponse { method: HandshakeMethod::Unacceptable },
                        Error::AuthenticationNegotiationFailed,
                    ),
                )
            },
    {
        let chosen_method: HandshakeMethod = self.method;
        let code: u8 = chosen_method.to_u8();
        let mut offered: bool = false;
        let mut i: usize = 0;
        while i < hs_req.methods.len()
            invariant
                i <= hs_req.methods@.len(),
                code == chosen_method.code(),
                chosen_method == self@.method,
                offered <==> exists|j: int|
                    0 <= j < i && (#[trigger] hs_req.methods@[j]).code() == chosen_method.code(),
            decreases hs_req.methods@.len() - i,
        {
            if hs_req.methods[i].to_u8() == code {
                offered = true;
            }
            i += 1;
        }
        proof {
            if offered {
                let j = choose|j: int|
                    0 <= j < i && (#[trigger] hs_req.methods@[j]).code() == chosen_method.code();
                assert(hs_req@.methods[j].code() == chosen_method.code());
            }
        }
        if offered {
            Ok(HandshakeResponse::new(chosen_method))
        } else {
            Err(
                (
                    HandshakeResponse::new(HandshakeMethod::Unacceptable),
                    Error::AuthenticationNegotiationFailed,
                ),
            )
        }
    }
}

/// The handle for the command of a request, in its first phase, with the
/// address of the request.
fn dispatch(request: Request) -> (connection: Connection)
    ensures
        connection@ == (ConnectionView { command: request.command, address: request.address@ }),
{
    match request.command {
        Command::Associate => Connection::Associate(Associate::<associate::NeedReply>::new(), request.address),
        Command::Bind => Connection::Bind(Bind::<bind::NeedFirstReply>::new(), request.address),
        Command::Connect => Connection::Connect(Connect::<connect::NeedReply>::new(), request.address),
    }
}

/// The bytes of the "general failure" response.
fn failure_notice() -> (notice: Vec<u8>)
    ensures
        notice@ == general_failure(),
{
    let resp: Response = Response::new(Reply::GeneralFailure, Address::unspecified());
    let mut notice: Vec<u8> = Vec::new();
    resp.write_to(&mut notice);
    notice
}

} // verus!
