//! Sensor behaviour: silent retry, stored readings, shared-state snapshots.

use repitile_server::conditions::{ConditionsCell, CurrentConditions};
use repitile_server::sensor::{publish, read_until_success, snapshot_of, Reading, Sensor};
use repitile_server::simple_sensor::SimpleSensor;

#[test]
fn new_sensor_reads_zero() {
    let s = SimpleSensor::new(1);
    assert_eq!(s.pin(), 1);
    assert_eq!(s.temperature(), 0);
    assert_eq!(s.humidity(), 0);
}

#[test]
fn retry_succeeds_after_failures() {
    let mut s = SimpleSensor::new(1);
    let attempts = vec![
        None,
        None,
        None,
        Some(Reading { temperature: 24, humidity: 55 }),
        Some(Reading { temperature: 99, humidity: 99 }),
    ];
    let ok = read_until_success(&mut s, &attempts);
    assert!(ok);
    assert_eq!(s.temperature(), 24);
    assert_eq!(s.humidity(), 55);
}

#[test]
fn all_failures_keep_last_reading() {
    let mut s = SimpleSensor::new(2);
    s.absorb(Some(Reading { temperature: 21, humidity: 48 }));
    let attempts = vec![None, None];
    let ok = read_until_success(&mut s, &attempts);
    assert!(!ok);
    assert_eq!(s.temperature(), 21);
    assert_eq!(s.humidity(), 48);
}

#[test]
fn no_attempts_change_nothing() {
    let mut s = SimpleSensor::new(2);
    let ok = read_until_success(&mut s, &Vec::new());
    assert!(!ok);
    assert_eq!(s.temperature(), 0);
}

#[test]
fn failed_absorb_is_silent() {
    let mut s = SimpleSensor::new(1);
    s.absorb(Some(Reading { temperature: 30, humidity: 70 }));
    assert!(!s.absorb(None));
    assert_eq!(s.temperature(), 30);
    assert_eq!(s.humidity(), 70);
}

#[test]
fn snapshot_carries_both_fields() {
    let mut s = SimpleSensor::new(1);
    s.absorb(Some(Reading { temperature: 26, humidity: 61 }));
    let cc = snapshot_of(&s);
    assert_eq!(cc, CurrentConditions { temperature: 26, humidity: 61 });
}

#[test]
fn published_record_is_whole() {
    let mut cell = ConditionsCell::new();
    let mut s = SimpleSensor::new(1);
    s.absorb(Some(Reading { temperature: 20, humidity: 50 }));
    publish(&s, &mut cell);
    s.absorb(Some(Reading { temperature: 31, humidity: 72 }));
    publish(&s, &mut cell);
    let seen = cell.load();
    assert_eq!(seen, CurrentConditions { temperature: 31, humidity: 72 });
}

#[test]
fn loads_never_mix_two_stores() {
    let mut cell = ConditionsCell::new();
    let first = CurrentConditions { temperature: 20, humidity: 50 };
    let second = CurrentConditions { temperature: 31, humidity: 72 };
    cell.store(first);
    assert_eq!(cell.load(), first);
    cell.store(second);
    let seen = cell.load();
    assert!(seen == first || seen == second);
    assert_eq!(seen, second);
}
