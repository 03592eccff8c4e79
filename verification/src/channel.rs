//! The command channel pair: two single-slot channels connecting the front
//! end to the control loop.
//!
//! Each slot holds at most one command. The request slot carries only
//! `OpenProfile`/`OpenConfig`; the response slot carries only `Ack`/`Nack`.
//! A send requires the slot to be free and a receive requires it to be full:
//! in the running system the unverified shell realizes those preconditions by
//! blocking until they hold, which is what gives the pair its rendezvous,
//! one-at-a-time behaviour.

use vstd::prelude::*;

use crate::command::Command;

verus! {

/// A channel of capacity one.
pub struct Slot {
    /// The command in flight on this channel, if any.
    pub value: Option<Command>,
}

impl Slot {
    /// An empty slot.
    pub fn new() -> (r: Slot)
        ensures
            r.value is None,
    {
        Slot { value: None }
    }

    /// True when no command occupies the slot.
    pub open spec fn is_free(self) -> bool {
        self.value is None
    }

    /// Deposit a command into the free slot.
    pub fn deposit(&mut self, cmd: Command)
        requires
            old(self).is_free(),
        ensures
            final(self).value == Some(cmd),
    {
        self.value = Some(cmd);
    }

    /// Take the command out, leaving the slot free.
    pub fn take(&mut self) -> (r: Command)
        requires
            !old(self).is_free(),
        ensures
            Some(r) == old(self).value,
            final(self).is_free(),
    {
        let taken = self.value.take();
        match taken {
            Some(c) => c,
            None => vstd::pervasive::unreached(),
        }
    }
}

/// The request and response channels, as one unit.
pub struct ChannelPair {
    /// Carries `OpenProfile`/`OpenConfig` toward the control loop.
    pub request: Slot,
    /// Carries `Ack`/`Nack` back toward the front end.
    pub response: Slot,
}

impl ChannelPair {
    /// Each slot carries only its direction's command kinds.
    pub open spec fn wf(self) -> bool {
        &&& (self.request.value matches Some(c) ==> c.is_request())
        &&& (self.response.value matches Some(c) ==> c.is_response())
    }

    /// Both channels start empty.
    pub fn new() -> (r: ChannelPair)
        ensures
            r.wf(),
            r.request.is_free(),
            r.response.is_free(),
    {
        ChannelPair { request: Slot::new(), response: Slot::new() }
    }

    /// Front end: deposit one request. Blocking until the slot frees is the
    /// shell's job; here the free slot is a precondition.
    pub fn send_request(&mut self, cmd: Command)
        requires
            old(self).wf(),
            old(self).request.is_free(),
            cmd.is_request(),
        ensures
            final(self).wf(),
            final(self).request.value == Some(cmd),
            final(self).response == old(self).response,
    {
        self.request.deposit(cmd);
    }

    /// Control loop: take the pending request.
    pub fn receive_request(&mut self) -> (r: Command)
        requires
            old(self).wf(),
            !old(self).request.is_free(),
        ensures
            final(self).wf(),
            Some(r) == old(self).request.value,
            r.is_request(),
            final(self).request.is_free(),
            final(self).response == old(self).response,
    {
        self.request.take()
    }

    /// Control loop: post the verdict for the request just served.
    pub fn send_response(&mut self, verdict: Command)
        requires
            old(self).wf(),
            old(self).response.is_free(),
            verdict.is_response(),
        ensures
            final(self).wf(),
            final(self).response.value == Some(verdict),
            final(self).request == old(self).request,
    {
        self.response.deposit(verdict);
    }

    /// Front end: take the pending verdict.
    pub fn receive_response(&mut self) -> (r: Command)
        requires
            old(self).wf(),
            !old(self).response.is_free(),
        ensures
            final(self).wf(),
            Some(r) == old(self).response.value,
            r.is_response(),
            final(self).response.is_free(),
            final(self).request == old(self).request,
    {
        self.response.take()
    }
}

} // verus!
