//! The BIND command: two replies, then the stream is the client's.

use crate::connection::ReplyPhase;
use crate::protocol::address::Address;
use crate::protocol::reply::Reply;
use crate::protocol::response::{Response, ResponseView};
use vstd::prelude::*;

verus! {

/// The phase in which no reply has been sent.
pub struct NeedFirstReply;

/// The phase in which the first reply has been sent and the second has not.
pub struct NeedSecondReply;

/// The phase in which both replies have been sent and data may flow.
pub struct Ready;

impl ReplyPhase for NeedFirstReply {
    open spec fn replies_sent() -> nat {
        0
    }

    fn count() -> (n: usize) {
        0
    }
}

impl ReplyPhase for NeedSecondReply {
    open spec fn replies_sent() -> nat {
        1
    }

    fn count() -> (n: usize) {
        1
    }
}

impl ReplyPhase for Ready {
    open spec fn replies_sent() -> nat {
        2
    }

    fn count() -> (n: usize) {
        2
    }
}

/// A connection that serves a BIND request, in phase `S`.
///
/// The handle is made in phase [`NeedFirstReply`]. Each of the two replies
/// uses the handle up and gives the one for the next phase, so the second
/// reply cannot come before the first, and neither can be sent twice. A
/// handle keeps account of the replies made through it, and never holds more
/// or fewer than its phase stands for.
pub struct Bind<S: ReplyPhase> {
    replies: Ghost<Seq<Seq<u8>>>,
    _state: S,
}

impl<S: ReplyPhase> Bind<S> {
    #[verifier::type_invariant]
    spec fn replies_match_phase(self) -> bool {
        self.replies@.len() == S::replies_sent()
    }

    /// The replies made through the handle and those it came from, oldest
    /// first, each as the bytes of its response.
    pub closed spec fn replies(self) -> Seq<Seq<u8>> {
        self.replies@
    }

    /// The number of replies made through the handle and those it came
    /// from: what its phase stands for.
    pub fn replies_sent(&self) -> (n: usize)
        ensures
            n == self.replies().len(),
            n == S::replies_sent(),
    {
        proof {
            use_type_invariant(self);
        }
        S::count()
    }
}

impl Bind<NeedFirstReply> {
    pub(crate) fn new() -> (handle: Bind<NeedFirstReply>)
        ensures
            handle.replies() == Seq::<Seq<u8>>::empty(),
    {
        Bind { replies: Ghost(Seq::empty()), _state: NeedFirstReply }
    }

    /// Sends the first reply: returns the handle for the next phase and the
    /// bytes of the response to send. `addr` is the address that the server
    /// listens on for the inbound connection.
    pub fn reply(self, reply: Reply, addr: Address) -> (res: (Bind<NeedSecondReply>, Vec<u8>))
        requires
            addr@.wire().len() + 3 <= isize::MAX,
        ensures
            res.1@ == (ResponseView { reply, address: addr@ }).wire(),
            self.replies() == Seq::<Seq<u8>>::empty(),
            res.0.replies() == seq![res.1@],
    {
        proof {
            use_type_invariant(&self);
        }
        let resp: Response = Response::new(reply, addr);
        let mut out: Vec<u8> = Vec::new();
        resp.write_to(&mut out);
        (Bind { replies: Ghost(self.replies@.push(out@)), _state: NeedSecondReply }, out)
    }
}

impl Bind<NeedSecondReply> {
    /// Sends the second reply, once the inbound connection has arrived:
    /// returns the handle for the next phase and the bytes of the response to
    /// send. `addr` is the address of the peer that connected.
    pub fn reply(self, reply: Reply, addr: Address) -> (res: (Bind<Ready>, Vec<u8>))
        requires
            addr@.wire().len() + 3 <= isize::MAX,
        ensures
            res.1@ == (ResponseView { reply, address: addr@ }).wire(),
            self.replies().len() == 1,
            res.0.replies() == seq![self.replies()[0], res.1@],
    {
        proof {
            use_type_invariant(&self);
        }
        let resp: Response = Response::new(reply, addr);
        let mut out: Vec<u8> = Vec::new();
        resp.write_to(&mut out);
        (Bind { replies: Ghost(self.replies@.push(out@)), _state: Ready }, out)
    }
}

} // verus!
