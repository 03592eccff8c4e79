//! The reference regulators: one indicator output per regulated quantity.
//!
//! Each owns a GPIO pin number and a threshold. The temperature regulator
//! compares the temperature field and derives its threshold from the
//! profile's temperature band; the humidity regulator does the same with
//! humidity. The unverified shell exports the pin and drives it to the
//! commanded state after each update.

use vstd::prelude::*;

use crate::conditions::CurrentConditions;
use crate::profile::Profile;
use crate::regulator::Regulator;

verus! {

/// Simple regulator that commands a temperature indicator output.
#[derive(Clone, Copy, Debug, PartialEq, Eq, Structural)]
pub struct SimpleTempRegulator {
    pin: u8,
    threshold: u32,
    active: bool,
}

impl SimpleTempRegulator {
    /// The hardware output this regulator commands.
    pub closed spec fn pin_spec(&self) -> u8 {
        self.pin
    }

    /// Creates a new `SimpleTempRegulator` from a GPIO pin number and
    /// threshold value for activation; the output starts deactivated.
    pub fn new(pin: u8, threshold: u32) -> (r: SimpleTempRegulator)
        ensures
            r.pin_spec() == pin,
            r.threshold_spec() == threshold,
            !r.active_spec(),
    {
        SimpleTempRegulator { pin, threshold, active: false }
    }

    /// The pin number, for the shell that drives the output.
    pub fn pin(&self) -> (p: u8)
        ensures
            p == self.pin_spec(),
    {
        self.pin
    }

    /// The threshold in force.
    pub fn threshold(&self) -> (t: u32)
        ensures
            t == self.threshold_spec(),
    {
        self.threshold
    }

    /// The commanded actuator state.
    pub fn is_active(&self) -> (a: bool)
        ensures
            a == self.active_spec(),
    {
        self.active
    }
}

impl Regulator for SimpleTempRegulator {
    closed spec fn threshold_spec(&self) -> u32 {
        self.threshold
    }

    closed spec fn active_spec(&self) -> bool {
        self.active
    }

    open spec fn relevant_measure(cc: CurrentConditions) -> u32 {
        cc.temperature
    }

    open spec fn derived_threshold(p: Profile) -> u32 {
        p.temp_range.min
    }

    fn update(&mut self, cc: &CurrentConditions) {
        self.active = cc.temperature < self.threshold;
    }

    fn profile_changed(&mut self, profile: &Profile) {
        self.threshold = profile.temp_range.min;
    }
}

/// Simple regulator that commands a humidity indicator output.
#[derive(Clone, Copy, Debug, PartialEq, Eq, Structural)]
pub struct SimpleHumidityRegulator {
    pin: u8,
    threshold: u32,
    active: bool,
}

impl SimpleHumidityRegulator {
    /// The hardware output this regulator commands.
    pub closed spec fn pin_spec(&self) -> u8 {
        self.pin
    }

    /// Creates a new `SimpleHumidityRegulator` from a GPIO pin number and
    /// threshold value for activation; the output starts deactivated.
    pub fn new(pin: u8, threshold: u32) -> (r: SimpleHumidityRegulator)
        ensures
            r.pin_spec() == pin,
            r.threshold_spec() == threshold,
            !r.active_spec(),
    {
        SimpleHumidityRegulator { pin, threshold, active: false }
    }

    /// The pin number, for the shell that drives the output.
    pub fn pin(&self) -> (p: u8)
        ensures
            p == self.pin_spec(),
    {
        self.pin
    }

    /// The threshold in force.
    pub fn threshold(&self) -> (t: u32)
        ensures
            t == self.threshold_spec(),
    {
        self.threshold
    }

    /// The commanded actuator state.
    pub fn is_active(&self) -> (a: bool)
        ensures
            a == self.active_spec(),
    {
        self.active
    }
}

impl Regulator for SimpleHumidityRegulator {
    closed spec fn threshold_spec(&self) -> u32 {
        self.threshold
    }

    closed spec fn active_spec(&self) -> bool {
        self.active
    }

    open spec fn relevant_measure(cc: CurrentConditions) -> u32 {
        cc.humidity
    }

    open spec fn derived_threshold(p: Profile) -> u32 {
        p.humidity_range.min
    }

    fn update(&mut self, cc: &CurrentConditions) {
        self.active = cc.humidity < self.threshold;
    }

    fn profile_changed(&mut self, profile: &Profile) {
        self.threshold = profile.humidity_range.min;
    }
}

} // verus!
