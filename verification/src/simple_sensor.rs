//! The reference sensor: one temperature/humidity probe on a GPIO pin.
//!
//! The pin number identifies the hardware channel; the unverified shell
//! performs the actual acquisition on that pin and hands the outcome to
//! `absorb`. Until a first success both stored values are zero.

use vstd::prelude::*;

use crate::sensor::{Reading, Sensor};

verus! {

/// Simple sensor that reads from a specific GPIO pin.
#[derive(Clone, Copy, Debug, PartialEq, Eq, Structural)]
pub struct SimpleSensor {
    pin: u8,
    temp: u32,
    humid: u32,
}

impl SimpleSensor {
    /// The hardware channel this sensor polls.
    pub closed spec fn pin_spec(&self) -> u8 {
        self.pin
    }

    /// Creates a new `SimpleSensor` with the specified pin number, holding
    /// zeroes until a reading succeeds.
    pub fn new(pin: u8) -> (r: SimpleSensor)
        ensures
            r.pin_spec() == pin,
            r.temperature_spec() == 0,
            r.humidity_spec() == 0,
    {
        SimpleSensor { pin, temp: 0, humid: 0 }
    }

    /// The pin number, for the shell that performs acquisitions.
    pub fn pin(&self) -> (p: u8)
        ensures
            p == self.pin_spec(),
    {
        self.pin
    }
}

impl Sensor for SimpleSensor {
    closed spec fn temperature_spec(&self) -> u32 {
        self.temp
    }

    closed spec fn humidity_spec(&self) -> u32 {
        self.humid
    }

    fn absorb(&mut self, attempt: Option<Reading>) -> (ok: bool) {
        match attempt {
            Some(r) => {
                self.temp = r.temperature;
                self.humid = r.humidity;
                true
            },
            None => false,
        }
    }

    fn temperature(&self) -> (t: u32) {
        self.temp
    }

    fn humidity(&self) -> (h: u32) {
        self.humid
    }
}

} // verus!
