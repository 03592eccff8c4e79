//! The Regulator capability: anything that reacts to current conditions and
//! to profile changes.
//!
//! A regulator owns a threshold derived from the active profile and a
//! commanded actuator state. `update` is bang-bang control without deadband:
//! a below-threshold condition activates the actuator, at or above threshold
//! deactivates it. The unverified shell drives the physical output to the
//! commanded state after each update. `profile_changed` only recomputes the
//! threshold; it never touches the actuator.

use vstd::prelude::*;

use crate::conditions::CurrentConditions;
use crate::profile::Profile;

verus! {

/// A threshold-actuated consumer of current conditions.
pub trait Regulator: Sized {
    /// The threshold in force, derived from the active profile.
    spec fn threshold_spec(&self) -> u32;

    /// The commanded actuator state: true means driven high.
    spec fn active_spec(&self) -> bool;

    /// Which field of the conditions this regulator compares.
    spec fn relevant_measure(cc: CurrentConditions) -> u32;

    /// The threshold this regulator derives from a profile.
    spec fn derived_threshold(p: Profile) -> u32;

    /// Decide and command the actuation for the given conditions: active
    /// exactly when the relevant measure is below the threshold. The
    /// threshold itself is untouched.
    fn update(&mut self, cc: &CurrentConditions)
        ensures
            final(self).threshold_spec() == old(self).threshold_spec(),
            final(self).active_spec() == (Self::relevant_measure(*cc) < old(
                self,
            ).threshold_spec()),
    ;

    /// Adopt the threshold the new profile prescribes; invoked exactly once
    /// per successful load, and never on a failed one. The actuator is not
    /// touched until the next update.
    fn profile_changed(&mut self, profile: &Profile)
        ensures
            final(self).threshold_spec() == Self::derived_threshold(*profile),
            final(self).active_spec() == old(self).active_spec(),
    ;
}

/// Everything `update` promises: the threshold is kept and the actuator is
/// commanded by comparing the relevant measure against it.
pub open spec fn update_post<R: Regulator>(pre: R, post: R, cc: CurrentConditions) -> bool {
    &&& post.threshold_spec() == pre.threshold_spec()
    &&& post.active_spec() == (R::relevant_measure(cc) < pre.threshold_spec())
}

/// Everything `profile_changed` promises: the threshold is recomputed from
/// the new profile and the actuator state is kept.
pub open spec fn profile_changed_post<R: Regulator>(pre: R, post: R, p: Profile) -> bool {
    &&& post.threshold_spec() == R::derived_threshold(p)
    &&& post.active_spec() == pre.active_spec()
}

/// Idempotent regulation: two successive updates under the same conditions
/// command the same actuator state both times.
pub proof fn lemma_update_idempotent<R: Regulator>(r0: R, r1: R, r2: R, cc: CurrentConditions)
    requires
        update_post(r0, r1, cc),
        update_post(r1, r2, cc),
    ensures
        r2.active_spec() == r1.active_spec(),
        r2.threshold_spec() == r1.threshold_spec(),
{
}

/// Threshold crossing: with threshold T in force, a relevant measure below T
/// activates the actuator and a measure at or above T deactivates it.
pub proof fn lemma_threshold_crossing<R: Regulator>(r0: R, r1: R, cc: CurrentConditions)
    requires
        update_post(r0, r1, cc),
    ensures
        R::relevant_measure(cc) < r0.threshold_spec() ==> r1.active_spec(),
        R::relevant_measure(cc) >= r0.threshold_spec() ==> !r1.active_spec(),
{
}

} // verus!
