use danji::engine::{
    engine_step, error_reply, is_loopback_name, is_physical_output_name, model_switch_reply,
    EngineAction, Incoming,
};
use danji::params::{MainCommand, SharedParams, TubeModel};
use std::sync::mpsc;

#[test]
fn engine_switches_tubes_it_knows() {
    let (tx, _rx) = mpsc::channel();
    let mut p = SharedParams::new();
    let a = engine_step(
        &Incoming::Command(MainCommand::SetTube { tube: "EL34".to_string(), resp: tx }),
        &mut p,
    );
    match a {
        EngineAction::SwitchTube(t, reply) => {
            assert_eq!(t, TubeModel::TubeEL34);
            assert_eq!(reply, "OK");
        }
        _ => panic!("expected a tube switch"),
    }
    assert_eq!(p.tube, "EL34");
    assert_eq!(p.model, "single");
    assert!(!p.bypass);
}

#[test]
fn engine_refuses_unknown_tubes() {
    let (tx, _rx) = mpsc::channel();
    let mut p = SharedParams::new();
    let a = engine_step(
        &Incoming::Command(MainCommand::SetTube { tube: "300B".to_string(), resp: tx }),
        &mut p,
    );
    match a {
        EngineAction::Answer(s) => assert_eq!(s, "ERROR unknown tube: 300B"),
        _ => panic!("expected an answer"),
    }
    assert_eq!(p.tube, "12AX7");
    assert_eq!(p.model, "single");
}

#[test]
fn engine_stores_models() {
    let (tx, _rx) = mpsc::channel();
    let mut p = SharedParams::new();
    p.bypass = true;
    let a = engine_step(
        &Incoming::Command(MainCommand::SetModel { model: "chain".to_string(), resp: tx }),
        &mut p,
    );
    assert!(matches!(a, EngineAction::SwitchModel));
    assert_eq!(p.model, "chain");
    assert_eq!(p.tube, "12AX7");
    assert!(p.bypass);
}

#[test]
fn engine_other_events() {
    let mut p = SharedParams::new();
    let a = engine_step(
        &Incoming::Command(MainCommand::SwitchOutput { device: "USB Headphones".to_string() }),
        &mut p,
    );
    match a {
        EngineAction::SwitchOutput(name) => assert_eq!(name, "USB Headphones"),
        _ => panic!("expected an output switch"),
    }
    assert!(matches!(
        engine_step(&Incoming::Command(MainCommand::Stop), &mut p),
        EngineAction::Shutdown
    ));
    assert!(matches!(engine_step(&Incoming::Timeout, &mut p), EngineAction::Wait));
    assert!(matches!(engine_step(&Incoming::Disconnected, &mut p), EngineAction::Shutdown));
    assert_eq!(p.tube, "12AX7");
    assert_eq!(p.model, "single");
}

#[test]
fn model_switch_replies() {
    assert_eq!(model_switch_reply(&Ok(())), "OK");
    assert_eq!(model_switch_reply(&Err("no device".to_string())), "ERROR no device");
}

#[test]
fn error_replies() {
    assert_eq!(error_reply("boom"), "ERROR boom");
    assert_eq!(error_reply(""), "ERROR ");
}

#[test]
fn device_name_filters() {
    assert!(is_loopback_name("BlackHole 16ch"));
    assert!(!is_loopback_name("Built-in Output"));
    assert!(is_physical_output_name("External Headphones"));
    assert!(!is_physical_output_name("BlackHole 2ch"));
    assert!(!is_physical_output_name("\u{591a}\u{8f93}\u{51fa}\u{8bbe}\u{5907}"));
    assert!(!is_physical_output_name("My Aggregate"));
    assert!(is_physical_output_name("MacBook Pro Speakers"));
}
