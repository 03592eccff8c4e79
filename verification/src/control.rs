//! Command servicing on the control-loop side.
//!
//! Parsing profile or configuration text is owned by an outside collaborator;
//! the loop hands its outcome here as a plain `LoadOutcome`. A load either
//! fully succeeds — the new value is adopted and, for a profile, every
//! registered regulator is notified — or fully fails, leaving every threshold
//! and the previously active value untouched. The verdict posted back is
//! `Ack` exactly on success.

use vstd::prelude::*;

use crate::command::Command;
use crate::conditions::CurrentConditions;
use crate::profile::{Configuration, Profile};
use crate::protocol::{reply_rel, Exchange};
use crate::regulator::{profile_changed_post, update_post, Regulator};

verus! {

/// What the collaborator's parser made of the request body.
pub enum LoadOutcome {
    /// The body parsed as a profile.
    NewProfile(Profile),
    /// The body parsed as a configuration.
    NewConfig(Configuration),
    /// The body was malformed; nothing may change.
    Rejected,
}

/// Notify every registered regulator of the newly adopted profile, each
/// exactly once, in order.
pub fn notify_all<R: Regulator>(regs: &mut Vec<R>, p: &Profile)
    ensures
        final(regs)@.len() == old(regs)@.len(),
        forall|i: int|
            0 <= i < old(regs)@.len() ==> profile_changed_post(
                old(regs)@[i],
                #[trigger] final(regs)@[i],
                *p,
            ),
{
    let ghost orig = regs@;
    let mut k: usize = 0;
    while k < regs.len()
        invariant
            k <= regs@.len(),
            regs@.len() == orig.len(),
            forall|i: int| 0 <= i < k ==> profile_changed_post(orig[i], #[trigger] regs@[i], *p),
            forall|i: int| k <= i < orig.len() ==> regs@[i] == orig[i],
        decreases orig.len() - k,
    {
        let mut r = regs.remove(k);
        r.profile_changed(p);
        regs.insert(k, r);
        k += 1;
    }
}

/// One actuation pass: every registered regulator decides and commands its
/// output from the same snapshot of the conditions.
pub fn update_all<R: Regulator>(regs: &mut Vec<R>, cc: &CurrentConditions)
    ensures
        final(regs)@.len() == old(regs)@.len(),
        forall|i: int|
            0 <= i < old(regs)@.len() ==> update_post(
                old(regs)@[i],
                #[trigger] final(regs)@[i],
                *cc,
            ),
{
    let ghost orig = regs@;
    let mut k: usize = 0;
    while k < regs.len()
        invariant
            k <= regs@.len(),
            regs@.len() == orig.len(),
            forall|i: int| 0 <= i < k ==> update_post(orig[i], #[trigger] regs@[i], *cc),
            forall|i: int| k <= i < orig.len() ==> regs@[i] == orig[i],
        decreases orig.len() - k,
    {
        let mut r = regs.remove(k);
        r.update(cc);
        regs.insert(k, r);
        k += 1;
    }
}

/// Adopt a parsed profile, or keep everything as it was: on success the new
/// profile becomes active and every regulator's threshold is recomputed from
/// it; on failure no regulator and not the active profile changes, and the
/// verdict is `Nack`.
pub fn apply_profile_load<R: Regulator>(
    regs: &mut Vec<R>,
    active: &mut Profile,
    outcome: Option<Profile>,
) -> (verdict: Command)
    ensures
        verdict.is_response(),
        verdict == Command::Ack <==> outcome is Some,
        outcome is None ==> *final(active) == *old(active) && final(regs)@ == old(regs)@,
        outcome matches Some(p) ==> *final(active) == p && final(regs)@.len() == old(regs)@.len()
            && forall|i: int|
            0 <= i < old(regs)@.len() ==> profile_changed_post(
                old(regs)@[i],
                #[trigger] final(regs)@[i],
                p,
            ),
{
    match outcome {
        Some(p) => {
            *active = p;
            notify_all(regs, &p);
            Command::Ack
        },
        None => Command::Nack,
    }
}

/// Adopt a parsed configuration, or keep the previous one: the verdict is
/// `Ack` exactly on success.
pub fn apply_config_load(active: &mut Configuration, outcome: Option<Configuration>) -> (verdict:
    Command)
    ensures
        verdict.is_response(),
        verdict == Command::Ack <==> outcome is Some,
        outcome is None ==> *final(active) == *old(active),
        outcome matches Some(c) ==> *final(active) == c,
{
    match outcome {
        Some(c) => {
            *active = c;
            Command::Ack
        },
        None => Command::Nack,
    }
}

/// Serve one request with the parser's outcome for its body: exactly one
/// `Ack` or `Nack` comes back, `Ack` exactly when the load succeeded, and a
/// failed or mismatched load changes nothing.
pub fn service_request<R: Regulator>(
    regs: &mut Vec<R>,
    profile: &mut Profile,
    config: &mut Configuration,
    req: &Command,
    outcome: LoadOutcome,
) -> (verdict: Command)
    requires
        req.is_request(),
        req matches Command::OpenProfile(_) ==> !(outcome is NewConfig),
        req matches Command::OpenConfig(_) ==> !(outcome is NewProfile),
    ensures
        verdict.is_response(),
        verdict == Command::Ack <==> !(outcome is Rejected),
        outcome is Rejected ==> *final(profile) == *old(profile) && *final(config) == *old(config)
            && final(regs)@ == old(regs)@,
        outcome matches LoadOutcome::NewProfile(p) ==> *final(profile) == p && *final(config)
            == *old(config) && final(regs)@.len() == old(regs)@.len() && forall|i: int|
            0 <= i < old(regs)@.len() ==> profile_changed_post(
                old(regs)@[i],
                #[trigger] final(regs)@[i],
                p,
            ),
        outcome matches LoadOutcome::NewConfig(c) ==> *final(config) == c && *final(profile)
            == *old(profile) && final(regs)@ == old(regs)@,
{
    match outcome {
        LoadOutcome::NewProfile(p) => apply_profile_load(regs, profile, Some(p)),
        LoadOutcome::NewConfig(c) => apply_config_load(config, Some(c)),
        LoadOutcome::Rejected => Command::Nack,
    }
}

/// Serve the request the control loop holds and post exactly one `Ack` or
/// `Nack` before the loop resumes its poll cycle.
pub fn service_and_reply<R: Regulator>(
    ex: &mut Exchange,
    regs: &mut Vec<R>,
    profile: &mut Profile,
    config: &mut Configuration,
    req: &Command,
    outcome: LoadOutcome,
)
    requires
        old(ex).wf(),
        old(ex).serving@ == Some(*req),
        req matches Command::OpenProfile(_) ==> !(outcome is NewConfig),
        req matches Command::OpenConfig(_) ==> !(outcome is NewProfile),
    ensures
        final(ex).wf(),
        final(ex).pair.response.value matches Some(verdict) && verdict.is_response() && (verdict
            == Command::Ack <==> !(outcome is Rejected)) && reply_rel(*old(ex), *final(ex), verdict),
        outcome is Rejected ==> *final(profile) == *old(profile) && *final(config) == *old(config)
            && final(regs)@ == old(regs)@,
        outcome matches LoadOutcome::NewProfile(p) ==> *final(profile) == p && *final(config)
            == *old(config) && final(regs)@.len() == old(regs)@.len() && forall|i: int|
            0 <= i < old(regs)@.len() ==> profile_changed_post(
                old(regs)@[i],
                #[trigger] final(regs)@[i],
                p,
            ),
        outcome matches LoadOutcome::NewConfig(c) ==> *final(config) == c && *final(profile)
            == *old(profile) && final(regs)@ == old(regs)@,
{
    let verdict = service_request(regs, profile, config, req, outcome);
    ex.post_verdict(verdict);
}

} // verus!
