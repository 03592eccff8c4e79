//! Supervisory core of a small environmental-control appliance.
//!
//! The library verifies the cross-thread coordination protocol that hands
//! profile/configuration-change commands from a concurrent front end to a
//! single serialized control loop, together with the polymorphic Sensor and
//! Regulator contracts the control loop depends on. Hardware acquisition,
//! GPIO actuation and the HTTP transport are unverified plumbing that lives
//! outside this crate and exchanges plain values with it.

pub mod channel;
pub mod command;
pub mod conditions;
pub mod control;
pub mod frontend;
pub mod profile;
pub mod protocol;
pub mod regulator;
pub mod sensor;
pub mod simple_regulator;
pub mod simple_sensor;

pub use channel::ChannelPair;
pub use command::Command;
pub use conditions::{ConditionsCell, CurrentConditions};
pub use control::LoadOutcome;
pub use frontend::{Dispatch, RequestPhase};
pub use profile::{Configuration, Profile, Range};
pub use protocol::Exchange;
pub use regulator::Regulator;
pub use sensor::{Reading, Sensor};
pub use simple_regulator::{SimpleHumidityRegulator, SimpleTempRegulator};
pub use simple_sensor::SimpleSensor;
