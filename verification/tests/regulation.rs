//! Regulator behaviour: threshold crossing, idempotence, reload atomicity.

use repitile_server::conditions::CurrentConditions;
use repitile_server::control::{apply_profile_load, notify_all, update_all};
use repitile_server::profile::Profile;
use repitile_server::regulator::Regulator;
use repitile_server::simple_regulator::{SimpleHumidityRegulator, SimpleTempRegulator};
use repitile_server::Command;

#[test]
fn temp_threshold_crossing() {
    let t = 20;
    for (value, expected) in [(t - 1, true), (t, false), (t + 1, false)] {
        let mut reg = SimpleTempRegulator::new(4, t);
        let cc = CurrentConditions { temperature: value, humidity: 50 };
        reg.update(&cc);
        assert_eq!(reg.is_active(), expected);
    }
}

#[test]
fn humidity_threshold_crossing() {
    let t = 60;
    for (value, expected) in [(t - 1, true), (t, false), (t + 1, false)] {
        let mut reg = SimpleHumidityRegulator::new(3, t);
        let cc = CurrentConditions { temperature: 25, humidity: value };
        reg.update(&cc);
        assert_eq!(reg.is_active(), expected);
    }
}

#[test]
fn zero_threshold_never_activates() {
    let mut reg = SimpleTempRegulator::new(4, 0);
    reg.update(&CurrentConditions { temperature: 0, humidity: 0 });
    assert!(!reg.is_active());
}

#[test]
fn update_is_idempotent() {
    let mut reg = SimpleTempRegulator::new(4, 20);
    let cc = CurrentConditions { temperature: 18, humidity: 50 };
    reg.update(&cc);
    let first = reg.is_active();
    reg.update(&cc);
    let second = reg.is_active();
    assert_eq!(first, second);
    assert!(first);
}

#[test]
fn malformed_profile_changes_nothing() {
    let mut regs = vec![
        SimpleTempRegulator::new(4, 20),
        SimpleTempRegulator::new(5, 22),
    ];
    let mut active = Profile::new(20, 30, 60, 80);
    let verdict = apply_profile_load(&mut regs, &mut active, None);
    assert!(matches!(verdict, Command::Nack));
    assert_eq!(regs[0].threshold(), 20);
    assert_eq!(regs[1].threshold(), 22);
    assert_eq!(active.temp_range().min, 20);
}

#[test]
fn valid_profile_updates_every_regulator() {
    let mut regs = vec![
        SimpleTempRegulator::new(4, 20),
        SimpleTempRegulator::new(5, 22),
        SimpleTempRegulator::new(6, 24),
    ];
    let mut active = Profile::new(20, 30, 60, 80);
    let new_profile = Profile::new(27, 33, 65, 85);
    let verdict = apply_profile_load(&mut regs, &mut active, Some(new_profile));
    assert!(matches!(verdict, Command::Ack));
    for reg in &regs {
        assert_eq!(reg.threshold(), 27);
    }
    assert_eq!(active, new_profile);
}

#[test]
fn humidity_regulators_derive_from_humidity_band() {
    let mut regs = vec![SimpleHumidityRegulator::new(3, 60)];
    let p = Profile::new(27, 33, 65, 85);
    notify_all(&mut regs, &p);
    assert_eq!(regs[0].threshold(), 65);
}

#[test]
fn profile_change_keeps_actuator_until_next_update() {
    let mut reg = SimpleTempRegulator::new(4, 20);
    reg.update(&CurrentConditions { temperature: 10, humidity: 50 });
    assert!(reg.is_active());
    reg.profile_changed(&Profile::new(5, 30, 60, 80));
    assert!(reg.is_active());
    reg.update(&CurrentConditions { temperature: 10, humidity: 50 });
    assert!(!reg.is_active());
}

#[test]
fn update_all_commands_every_output() {
    let mut regs = vec![
        SimpleHumidityRegulator::new(3, 60),
        SimpleHumidityRegulator::new(7, 40),
    ];
    let cc = CurrentConditions { temperature: 25, humidity: 50 };
    update_all(&mut regs, &cc);
    assert!(regs[0].is_active());
    assert!(!regs[1].is_active());
}

#[test]
fn empty_regulator_list_loads_cleanly() {
    let mut regs: Vec<SimpleTempRegulator> = Vec::new();
    let mut active = Profile::new(20, 30, 60, 80);
    let verdict = apply_profile_load(&mut regs, &mut active, Some(Profile::new(1, 2, 3, 4)));
    assert!(matches!(verdict, Command::Ack));
    assert!(regs.is_empty());
}
