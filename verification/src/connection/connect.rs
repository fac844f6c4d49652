//! The CONNECT command: one reply, then the stream is the client's.

use crate::connection::ReplyPhase;
use crate::protocol::address::Address;
use crate::protocol::reply::Reply;
use crate::protocol::response::{Response, ResponseView};
use vstd::prelude::*;

verus! {

/// The phase in which the reply to the request has yet to be sent.
pub struct NeedReply;

/// The phase in which the reply has been sent and data may flow.
pub struct Ready;

impl ReplyPhase for NeedReply {
    open spec fn replies_sent() -> nat {
        0
    }

    fn count() -> (n: usize) {
        0
    }
}

impl ReplyPhase for Ready {
    open spec fn replies_sent() -> nat {
        1
    }

    fn count() -> (n: usize) {
        1
    }
}

/// A connection that serves a CONNECT request, in phase `S`.
///
/// The handle is made in phase [`NeedReply`]. The only way on is
/// [`Connect::reply`], which uses the handle up and gives the one for phase
/// [`Ready`]. A handle keeps account of the replies made through it, and
/// never holds more or fewer than its phase stands for.
pub struct Connect<S: ReplyPhase> {
    replies: Ghost<Seq<Seq<u8>>>,
    _state: S,
}

impl<S: ReplyPhase> Connect<S> {
    #[verifier::type_invariant]
    spec fn replies_match_phase(self) -> bool {
        self.replies@.len() == S::replies_sent()
    }

    /// The replies made through the handle and the one it came from, each
    /// as the bytes of its response.
    pub closed spec fn replies(self) -> Seq<Seq<u8>> {
        self.replies@
    }

    /// The number of replies made through the handle and the one it came
    /// from: what its phase stands for.
    pub fn replies_sent(&self) -> (n: usize)
        ensures
            n == self.replies().len(),
            n == S::replies_sent(),
    {
        proof {
            use_type_invariant(self);
        }
        S::count()
    }
}

impl Connect<NeedReply> {
    pub(crate) fn new() -> (handle: Connect<NeedReply>)
        ensures
            handle.replies() == Seq::<Seq<u8>>::empty(),
    {
        Connect { replies: Ghost(Seq::empty()), _state: NeedReply }
    }

    /// Answers the request: returns the handle for the next phase and the
    /// bytes of the response to send. `addr` is the address that the server
    /// has connected from.
    pub fn reply(self, reply: Reply, addr: Address) -> (res: (Connect<Ready>, Vec<u8>))
        requires
            addr@.wire().len() + 3 <= isize::MAX,
        ensures
            res.1@ == (ResponseView { reply, address: addr@ }).wire(),
            self.replies() == Seq::<Seq<u8>>::empty(),
            res.0.replies() == seq![res.1@],
    {
        proof {
            use_type_invariant(&self);
        }
        let resp: Response = Response::new(reply, addr);
        let mut out: Vec<u8> = Vec::new();
        resp.write_to(&mut out);
        (Connect { replies: Ghost(self.replies@.push(out@)), _state: Ready }, out)
    }
}

} // verus!
