//! The command round trip: one request in flight, verdicts paired.

use repitile_server::control::{service_and_reply, service_request, LoadOutcome};
use repitile_server::frontend::Dispatch;
use repitile_server::profile::{Configuration, Profile};
use repitile_server::protocol::Exchange;
use repitile_server::simple_regulator::SimpleTempRegulator;
use repitile_server::Command;

#[test]
fn accepted_profile_round_trip() {
    let mut ex = Exchange::new();
    let mut regs = vec![SimpleTempRegulator::new(4, 20)];
    let mut profile = Profile::new(20, 30, 60, 80);
    let mut config = Configuration { default_profile: String::from("default.pr") };

    let mut dispatch = Dispatch::new(Command::OpenProfile(String::from("temp 25..35")));
    dispatch.forward(&mut ex);
    dispatch.await_response();
    assert_eq!(dispatch.report(), None);

    let req = ex.take_request();
    assert!(matches!(req, Command::OpenProfile(_)));
    let verdict = service_request(
        &mut regs,
        &mut profile,
        &mut config,
        &req,
        LoadOutcome::NewProfile(Profile::new(25, 35, 60, 80)),
    );
    ex.post_verdict(verdict);

    dispatch.settle(&mut ex);
    assert_eq!(dispatch.report(), Some(true));
    assert_eq!(profile.temp_range().min, 25);
    assert_eq!(regs[0].threshold(), 25);
}

#[test]
fn rejected_profile_round_trip() {
    let mut ex = Exchange::new();
    let mut regs = vec![SimpleTempRegulator::new(4, 20)];
    let mut profile = Profile::new(20, 30, 60, 80);
    let mut config = Configuration { default_profile: String::from("default.pr") };

    let mut dispatch = Dispatch::new(Command::OpenProfile(String::from("garbage")));
    dispatch.forward(&mut ex);
    dispatch.await_response();

    let req = ex.take_request();
    let verdict = service_request(&mut regs, &mut profile, &mut config, &req, LoadOutcome::Rejected);
    ex.post_verdict(verdict);

    dispatch.settle(&mut ex);
    assert_eq!(dispatch.report(), Some(false));
    assert_eq!(profile.temp_range().min, 20);
    assert_eq!(regs[0].threshold(), 20);
}

#[test]
fn config_round_trip() {
    let mut ex = Exchange::new();
    let mut regs: Vec<SimpleTempRegulator> = Vec::new();
    let mut profile = Profile::new(20, 30, 60, 80);
    let mut config = Configuration { default_profile: String::from("old.pr") };

    let mut dispatch = Dispatch::new(Command::OpenConfig(String::from("default_profile new.pr")));
    dispatch.forward(&mut ex);
    dispatch.await_response();

    let req = ex.take_request();
    assert!(matches!(req, Command::OpenConfig(_)));
    service_and_reply(
        &mut ex,
        &mut regs,
        &mut profile,
        &mut config,
        &req,
        LoadOutcome::NewConfig(Configuration { default_profile: String::from("new.pr") }),
    );

    dispatch.settle(&mut ex);
    assert_eq!(dispatch.report(), Some(true));
    assert_eq!(config.default_profile, "new.pr");
}

#[test]
fn success_is_reported_for_ack_alone() {
    assert!(repitile_server::command::report_success(&Command::Ack));
    assert!(!repitile_server::command::report_success(&Command::Nack));
}

#[test]
fn request_and_response_kinds() {
    assert!(Command::OpenProfile(String::new()).is_request_cmd());
    assert!(Command::OpenConfig(String::new()).is_request_cmd());
    assert!(!Command::Ack.is_request_cmd());
    assert!(!Command::Nack.is_request_cmd());
    assert!(Command::Ack.is_response_cmd());
    assert!(Command::Nack.is_response_cmd());
    assert!(!Command::OpenProfile(String::new()).is_response_cmd());
    assert!(Command::Ack.is_ack());
    assert!(!Command::Nack.is_ack());
}

#[test]
fn dispatch_phases_in_order() {
    let mut ex = Exchange::new();
    let mut dispatch = Dispatch::new(Command::OpenConfig(String::from("x")));
    assert_eq!(dispatch.report(), None);
    dispatch.forward(&mut ex);
    assert_eq!(dispatch.report(), None);
    dispatch.await_response();
    assert_eq!(dispatch.report(), None);
    let _req = ex.take_request();
    ex.post_verdict(Command::Nack);
    dispatch.settle(&mut ex);
    assert!(matches!(
        dispatch.report(),
        Some(false)
    ));
}
