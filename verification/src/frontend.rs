//! The front-end dispatcher: one state machine per inbound change request.
//!
//! A request moves through `Received`, `Forwarded` and `AwaitingResponse`
//! before settling as `Acked` or `Nacked`; it is never reported complete
//! until a verdict has been collected. Forwarding and settling are the only
//! steps that touch the exchange, so concurrent callers serialize against
//! each other through its single request slot.

use vstd::prelude::*;

use crate::command::Command;
use crate::protocol::{collect_rel, submit_rel, Exchange};

verus! {

/// Where one inbound request stands.
#[derive(Clone, Copy, Debug, PartialEq, Eq, Structural)]
pub enum RequestPhase {
    /// Accepted from the caller, not yet relayed.
    Received,
    /// Deposited in the request slot.
    Forwarded,
    /// Blocked on the response slot.
    AwaitingResponse,
    /// The control loop acknowledged the change.
    Acked,
    /// The control loop rejected the change.
    Nacked,
}

/// The front end's handling of a single change request.
pub struct Dispatch {
    phase: RequestPhase,
    pending: Option<Command>,
    sent: Ghost<Command>,
}

impl Dispatch {
    /// The current phase.
    pub closed spec fn phase(self) -> RequestPhase {
        self.phase
    }

    /// The request this dispatch carries.
    pub closed spec fn cmd(self) -> Command {
        self.sent@
    }

    /// Before forwarding, the command is still held here; afterwards it
    /// lives in the exchange.
    pub closed spec fn wf(self) -> bool {
        &&& self.sent@.is_request()
        &&& if self.phase is Received {
            self.pending == Some(self.sent@)
        } else {
            self.pending is None
        }
    }

    /// Accept one change request from a caller.
    pub fn new(cmd: Command) -> (r: Dispatch)
        requires
            cmd.is_request(),
        ensures
            r.wf(),
            r.phase() is Received,
            r.cmd() == cmd,
    {
        Dispatch { phase: RequestPhase::Received, sent: Ghost(cmd), pending: Some(cmd) }
    }

    /// Relay the request into the exchange's request slot. The shell blocks
    /// until the slot is free and nothing else is in flight.
    pub fn forward(&mut self, ex: &mut Exchange)
        requires
            old(self).wf(),
            old(self).phase() is Received,
            old(ex).can_submit(),
        ensures
            final(self).wf(),
            final(self).phase() is Forwarded,
            final(self).cmd() == old(self).cmd(),
            submit_rel(*old(ex), *final(ex), old(self).cmd()),
            final(ex).wf(),
            !final(ex).can_submit(),
    {
        let cmd = self.pending.take();
        match cmd {
            Some(c) => ex.submit(c),
            None => vstd::pervasive::unreached(),
        }
        self.phase = RequestPhase::Forwarded;
    }

    /// Start the blocking wait for the verdict.
    pub fn await_response(&mut self)
        requires
            old(self).wf(),
            old(self).phase() is Forwarded,
        ensures
            final(self).wf(),
            final(self).phase() is AwaitingResponse,
            final(self).cmd() == old(self).cmd(),
    {
        self.phase = RequestPhase::AwaitingResponse;
    }

    /// Collect the verdict and settle: `Acked` exactly when the control loop
    /// answered `Ack`.
    pub fn settle(&mut self, ex: &mut Exchange)
        requires
            old(self).wf(),
            old(self).phase() is AwaitingResponse,
            old(ex).wf(),
            old(ex).pair.response.value is Some,
        ensures
            final(self).wf(),
            final(self).cmd() == old(self).cmd(),
            collect_rel(*old(ex), *final(ex), old(ex).pair.response.value->Some_0),
            final(ex).wf(),
            final(self).phase() == (if old(ex).pair.response.value == Some(Command::Ack) {
                RequestPhase::Acked
            } else {
                RequestPhase::Nacked
            }),
    {
        let verdict = ex.collect_verdict();
        if verdict.is_ack() {
            self.phase = RequestPhase::Acked;
        } else {
            self.phase = RequestPhase::Nacked;
        }
    }

    /// What to report to the caller: nothing until settled, then success
    /// exactly for an acknowledged change.
    pub fn report(&self) -> (r: Option<bool>)
        requires
            self.wf(),
        ensures
            self.phase() is Acked ==> r == Some(true),
            self.phase() is Nacked ==> r == Some(false),
            !(self.phase() is Acked) && !(self.phase() is Nacked) ==> r is None,
    {
        match self.phase {
            RequestPhase::Acked => Some(true),
            RequestPhase::Nacked => Some(false),
            _ => None,
        }
    }
}

} // verus!
