//! The Sensor capability: anything pollable for temperature and humidity.
//!
//! A hardware acquisition either yields a `Reading` or fails transiently; the
//! unverified shell performs the acquisition and hands the outcome here as a
//! plain value. A sensor absorbs successful outcomes and keeps its last
//! stored pair across failures, so a failed acquisition is never surfaced to
//! the control loop. `read_until_success` is the retry policy: it takes
//! acquisition outcomes in order until the first success, which makes the
//! retry bound testable with injected failure counts.

use vstd::prelude::*;

use crate::conditions::{lemma_read_isolation, load_spec, ConditionsCell, CurrentConditions};

verus! {

/// One successful hardware acquisition.
#[derive(Clone, Copy, Debug, PartialEq, Eq, Structural)]
pub struct Reading {
    /// Acquired temperature.
    pub temperature: u32,
    /// Acquired humidity.
    pub humidity: u32,
}

/// A pollable source of temperature and humidity.
pub trait Sensor: Sized {
    /// The last stored temperature.
    spec fn temperature_spec(&self) -> u32;

    /// The last stored humidity.
    spec fn humidity_spec(&self) -> u32;

    /// Absorb one acquisition outcome: a success is stored whole, a failure
    /// leaves the sensor exactly as it was.
    fn absorb(&mut self, attempt: Option<Reading>) -> (ok: bool)
        ensures
            attempt matches Some(r) ==> ok && final(self).temperature_spec() == r.temperature
                && final(self).humidity_spec() == r.humidity,
            attempt is None ==> !ok && *final(self) == *old(self),
    ;

    /// The last stored temperature; well-defined before any success.
    fn temperature(&self) -> (t: u32)
        ensures
            t == self.temperature_spec(),
    ;

    /// The last stored humidity; well-defined before any success.
    fn humidity(&self) -> (h: u32)
        ensures
            h == self.humidity_spec(),
    ;
}

/// Retry until a reading succeeds: absorb outcomes in order and stop at the
/// first success. The sensor ends up holding exactly the first successful
/// reading; failures before it change nothing, and if every outcome failed
/// the sensor is exactly as it was.
pub fn read_until_success<S: Sensor>(sensor: &mut S, attempts: &Vec<Option<Reading>>) -> (ok: bool)
    ensures
        !ok ==> (forall|j: int| 0 <= j < attempts@.len() ==> attempts@[j] is None)
            && *final(sensor) == *old(sensor),
        ok ==> exists|i: int|
            {
                &&& 0 <= i < attempts@.len()
                &&& #[trigger] attempts@[i] matches Some(r)
                    && final(sensor).temperature_spec() == r.temperature
                    && final(sensor).humidity_spec() == r.humidity
                &&& forall|j: int| 0 <= j < i ==> attempts@[j] is None
            },
{
    let mut k: usize = 0;
    while k < attempts.len()
        invariant
            0 <= k <= attempts@.len(),
            forall|j: int| 0 <= j < k ==> attempts@[j] is None,
            *sensor == *old(sensor),
        decreases attempts@.len() - k,
    {
        let attempt = attempts[k];
        if sensor.absorb(attempt) {
            assert(attempts@[k as int] is Some);
            return true;
        }
        k += 1;
    }
    false
}

/// One complete record of what a sensor holds, for merging into the shared
/// conditions.
pub fn snapshot_of<S: Sensor>(sensor: &S) -> (cc: CurrentConditions)
    ensures
        cc.temperature == sensor.temperature_spec(),
        cc.humidity == sensor.humidity_spec(),
{
    CurrentConditions { temperature: sensor.temperature(), humidity: sensor.humidity() }
}

/// Publish a sensor's pair into the shared conditions as one atomic record,
/// so concurrent readers never see the fields of two different cycles.
pub fn publish<S: Sensor>(sensor: &S, cell: &mut ConditionsCell)
    ensures
        load_spec(*final(cell)) == (CurrentConditions {
            temperature: sensor.temperature_spec(),
            humidity: sensor.humidity_spec(),
        }),
{
    let cc = snapshot_of(sensor);
    let ghost pre = *cell;
    cell.store(cc);
    proof {
        lemma_read_isolation(pre, cc, cc);
    }
}

} // verus!
