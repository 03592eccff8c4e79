//! The request/response protocol between the front end and the control loop.
//!
//! An `Exchange` is the channel pair together with ghost bookkeeping of the
//! command the control loop is currently serving (at run time the loop holds
//! that command in a local). Well-formedness bounds the whole system to at
//! most one command in flight: a request waiting in the slot, a request being
//! served, or a verdict waiting in the slot — never two at once. Each
//! executable step ensures a transition relation, and
//! `lemma_request_response_pairing` states the ordering law over those
//! relations.

use vstd::prelude::*;

use crate::channel::ChannelPair;
use crate::command::Command;

verus! {

/// The channel pair plus the protocol phase of the control loop.
pub struct Exchange {
    /// The two single-slot channels.
    pub pair: ChannelPair,
    /// The request the control loop has taken but not yet answered.
    pub serving: Ghost<Option<Command>>,
}

impl Exchange {
    /// How many commands are in flight anywhere in the system.
    pub open spec fn in_flight(self) -> int {
        (if self.pair.request.value is Some { 1int } else { 0int })
            + (if self.serving@ is Some { 1int } else { 0int })
            + (if self.pair.response.value is Some { 1int } else { 0int })
    }

    /// Slots carry the right kinds, the in-hand command is a request, and at
    /// most one command is in flight system-wide.
    pub open spec fn wf(self) -> bool {
        &&& self.pair.wf()
        &&& (self.serving@ matches Some(c) ==> c.is_request())
        &&& self.in_flight() <= 1
    }

    /// Nothing is in flight.
    pub open spec fn idle(self) -> bool {
        &&& self.pair.request.value is None
        &&& self.serving@ is None
        &&& self.pair.response.value is None
    }

    /// A new request may enter only when nothing is in flight.
    pub open spec fn can_submit(self) -> bool {
        self.wf() && self.idle()
    }

    /// A fresh, idle exchange.
    pub fn new() -> (r: Exchange)
        ensures
            r.wf(),
            r.idle(),
    {
        Exchange { pair: ChannelPair::new(), serving: Ghost(None) }
    }
}

/// A front-end thread deposited `c` in the request slot.
pub open spec fn submit_rel(pre: Exchange, post: Exchange, c: Command) -> bool {
    &&& post.pair.request.value == Some(c)
    &&& post.pair.response == pre.pair.response
    &&& post.serving@ == pre.serving@
}

/// The control loop took the pending request `taken` in hand.
pub open spec fn take_rel(pre: Exchange, post: Exchange, taken: Command) -> bool {
    &&& Some(taken) == pre.pair.request.value
    &&& post.pair.request.value is None
    &&& post.serving@ == Some(taken)
    &&& post.pair.response == pre.pair.response
}

/// The control loop answered the request in hand with verdict `v`.
pub open spec fn reply_rel(pre: Exchange, post: Exchange, v: Command) -> bool {
    &&& post.pair.response.value == Some(v)
    &&& post.serving@ is None
    &&& post.pair.request == pre.pair.request
}

/// The front end collected the pending verdict `got`.
pub open spec fn collect_rel(pre: Exchange, post: Exchange, got: Command) -> bool {
    &&& Some(got) == pre.pair.response.value
    &&& post.pair.response.value is None
    &&& post.pair.request == pre.pair.request
    &&& post.serving@ == pre.serving@
}

impl Exchange {
    /// Front end: enter a request. The shell blocks until `can_submit` holds.
    pub fn submit(&mut self, cmd: Command)
        requires
            old(self).can_submit(),
            cmd.is_request(),
        ensures
            submit_rel(*old(self), *final(self), cmd),
            final(self).wf(),
            !final(self).can_submit(),
    {
        self.pair.send_request(cmd);
    }

    /// Control loop: take the request to serve.
    pub fn take_request(&mut self) -> (r: Command)
        requires
            old(self).wf(),
            old(self).pair.request.value is Some,
        ensures
            take_rel(*old(self), *final(self), r),
            final(self).wf(),
            r.is_request(),
            !final(self).can_submit(),
    {
        let cmd = self.pair.receive_request();
        proof {
            self.serving@ = Some(cmd);
        }
        cmd
    }

    /// Control loop: answer the request in hand with one verdict.
    pub fn post_verdict(&mut self, verdict: Command)
        requires
            old(self).wf(),
            old(self).serving@ is Some,
            verdict.is_response(),
        ensures
            reply_rel(*old(self), *final(self), verdict),
            final(self).wf(),
            !final(self).can_submit(),
    {
        proof {
            self.serving@ = None;
        }
        self.pair.send_response(verdict);
    }

    /// Front end: collect the verdict for the request it submitted.
    pub fn collect_verdict(&mut self) -> (r: Command)
        requires
            old(self).wf(),
            old(self).pair.response.value is Some,
        ensures
            collect_rel(*old(self), *final(self), r),
            final(self).wf(),
            r.is_response(),
    {
        self.pair.receive_response()
    }
}

/// At most one in flight, and no cross-delivery: after a caller enters
/// request `c`, no other request can enter before that caller takes its
/// verdict; the control loop takes exactly `c`; and the verdict the caller
/// takes is the one the loop gave for `c`.
pub proof fn lemma_request_response_pairing(
    ex0: Exchange,
    ex1: Exchange,
    ex2: Exchange,
    ex3: Exchange,
    ex4: Exchange,
    c: Command,
    taken: Command,
    v: Command,
    got: Command,
)
    requires
        ex0.can_submit(),
        c.is_request(),
        v.is_response(),
        submit_rel(ex0, ex1, c),
        take_rel(ex1, ex2, taken),
        reply_rel(ex2, ex3, v),
        collect_rel(ex3, ex4, got),
    ensures
        taken == c,
        got == v,
        !ex1.can_submit(),
        !ex2.can_submit(),
        !ex3.can_submit(),
        ex4.idle(),
{
}

} // verus!
