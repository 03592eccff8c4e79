//! Profile and configuration value objects.
//!
//! A profile supplies the setpoint ranges from which regulator thresholds are
//! derived. A configuration carries deployment-level settings. Both are
//! atomic replaceable units: the control loop adopts a whole new value or
//! keeps the previous one. Parsing their on-disk text is owned by an outside
//! collaborator; this core only consumes the parsed values.

use vstd::prelude::*;

verus! {

/// An inclusive setpoint range.
#[derive(Clone, Copy, Debug, PartialEq, Eq, Structural)]
pub struct Range {
    /// Lower bound of the acceptable band; regulators activate below it.
    pub min: u32,
    /// Upper bound of the acceptable band.
    pub max: u32,
}

/// Target environmental ranges for one enclosure.
#[derive(Clone, Copy, Debug, PartialEq, Eq, Structural)]
pub struct Profile {
    /// Acceptable temperature band.
    pub temp_range: Range,
    /// Acceptable relative-humidity band.
    pub humidity_range: Range,
}

impl Profile {
    /// Assemble a profile from its four bounds.
    pub fn new(temp_min: u32, temp_max: u32, humid_min: u32, humid_max: u32) -> (r: Profile)
        ensures
            r.temp_range.min == temp_min,
            r.temp_range.max == temp_max,
            r.humidity_range.min == humid_min,
            r.humidity_range.max == humid_max,
    {
        Profile {
            temp_range: Range { min: temp_min, max: temp_max },
            humidity_range: Range { min: humid_min, max: humid_max },
        }
    }

    /// The temperature band.
    pub fn temp_range(&self) -> (r: Range)
        ensures
            r == self.temp_range,
    {
        self.temp_range
    }

    /// The humidity band.
    pub fn humidity_range(&self) -> (r: Range)
        ensures
            r == self.humidity_range,
    {
        self.humidity_range
    }
}

/// Deployment-level settings, distinct from the profile.
pub struct Configuration {
    /// Where the default profile is found.
    pub default_profile: String,
}

} // verus!
