//! The latest sensor readings, shared between the control loop and readers.
//!
//! `CurrentConditions` is a plain record; `ConditionsCell` models the shared
//! slot the control loop writes and the front end reads. A store replaces the
//! whole record in one step and a load returns the whole record, so a reader
//! never sees the temperature of one cycle next to the humidity of another.
//! Across real threads the unverified shell must hold its lock around each
//! whole store and load to inherit that guarantee.

use vstd::prelude::*;

verus! {

/// Latest temperature and humidity, as one record.
#[derive(Clone, Copy, Debug, PartialEq, Eq, Structural)]
pub struct CurrentConditions {
    /// Last merged temperature reading.
    pub temperature: u32,
    /// Last merged humidity reading.
    pub humidity: u32,
}

impl CurrentConditions {
    /// Starting record: zeroed until a sensor cycle has completed.
    pub fn new() -> (r: CurrentConditions)
        ensures
            r.temperature == 0,
            r.humidity == 0,
    {
        CurrentConditions { temperature: 0, humidity: 0 }
    }
}

/// The single shared slot holding the current conditions.
pub struct ConditionsCell {
    current: CurrentConditions,
}

/// The record a store leaves in the cell.
pub closed spec fn store_spec(cell: ConditionsCell, cc: CurrentConditions) -> ConditionsCell {
    ConditionsCell { current: cc }
}

/// The record a load returns.
pub closed spec fn load_spec(cell: ConditionsCell) -> CurrentConditions {
    cell.current
}

impl ConditionsCell {
    /// The record currently held.
    pub closed spec fn current(self) -> CurrentConditions {
        self.current
    }

    /// A fresh cell holding the zeroed starting record.
    pub fn new() -> (r: ConditionsCell)
        ensures
            r.current() == (CurrentConditions { temperature: 0, humidity: 0 }),
    {
        ConditionsCell { current: CurrentConditions::new() }
    }

    /// Replace the whole record at once; no partial update is possible.
    pub fn store(&mut self, cc: CurrentConditions)
        ensures
            *final(self) == store_spec(*old(self), cc),
    {
        self.current = cc;
    }

    /// Snapshot the whole record at once.
    pub fn load(&self) -> (r: CurrentConditions)
        ensures
            r == load_spec(*self),
    {
        self.current
    }
}

/// Read isolation: a load after a store returns exactly the stored record,
/// both fields together, so no load mixes fields of two different stores.
pub proof fn lemma_read_isolation(cell: ConditionsCell, a: CurrentConditions, b: CurrentConditions)
    ensures
        load_spec(store_spec(cell, a)) == a,
        load_spec(store_spec(store_spec(cell, a), b)).temperature == b.temperature,
        load_spec(store_spec(store_spec(cell, a), b)).humidity == b.humidity,
{
}

} // verus!
