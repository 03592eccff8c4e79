//! Commands exchanged between the request front end and the control loop.
//!
//! Only `OpenProfile` and `OpenConfig` travel on the request channel; only
//! `Ack` and `Nack` travel on the response channel. The slot types in
//! `channel` enforce that invariant.

use vstd::prelude::*;

verus! {

/// A command crossing the front-end / control-loop boundary.
pub enum Command {
    /// Request: replace the active profile from raw profile text.
    OpenProfile(String),
    /// Request: replace the active configuration from raw configuration text.
    OpenConfig(String),
    /// Response: the requested change was adopted.
    Ack,
    /// Response: the requested change was rejected; nothing was changed.
    Nack,
}

impl Command {
    /// True of the commands allowed on the request channel.
    pub open spec fn is_request(self) -> bool {
        self matches Command::OpenProfile(_) || self matches Command::OpenConfig(_)
    }

    /// True of the commands allowed on the response channel.
    pub open spec fn is_response(self) -> bool {
        self matches Command::Ack || self matches Command::Nack
    }

    /// Executable test for the request variants.
    pub fn is_request_cmd(&self) -> (r: bool)
        ensures
            r == self.is_request(),
    {
        match self {
            Command::OpenProfile(_) => true,
            Command::OpenConfig(_) => true,
            Command::Ack => false,
            Command::Nack => false,
        }
    }

    /// Executable test for the response variants.
    pub fn is_response_cmd(&self) -> (r: bool)
        ensures
            r == self.is_response(),
    {
        match self {
            Command::Ack => true,
            Command::Nack => true,
            _ => false,
        }
    }

    /// Executable test for a positive acknowledgment.
    pub fn is_ack(&self) -> (r: bool)
        ensures
            r == (*self == Command::Ack),
    {
        match self {
            Command::Ack => true,
            _ => false,
        }
    }
}

/// The front end reports a request complete exactly when the control loop
/// acknowledged it.
pub fn report_success(verdict: &Command) -> (r: bool)
    requires
        verdict.is_response(),
    ensures
        r == (*verdict == Command::Ack),
{
    verdict.is_ack()
}

} // verus!
