use danji::params::{AmpModel, Level, SharedParams, TubeModel};
use danji::protocol::{
    after_answer, bypass_command, client_step, level_answer, level_command, model_command,
    parse_command, parse_status_line, response_line, status_line, tube_command, ClientAction,
    ClientEvent, CommandOutcome,
};

fn reply(o: &CommandOutcome) -> Option<(bool, String)> {
    match o {
        CommandOutcome::Reply(s) => Some((true, s.clone())),
        CommandOutcome::Refuse(s) => Some((false, s.clone())),
        _ => None,
    }
}

#[test]
fn bypass_on_and_off_set_the_flag() {
    let mut p = SharedParams::new();
    assert!(!p.bypass_enabled());
    let o = parse_command("bypass on", &mut p);
    assert_eq!(reply(&o), Some((true, "OK".to_string())));
    assert!(p.bypass_enabled());
    let o = parse_command("bypass off", &mut p);
    assert_eq!(reply(&o), Some((true, "OK".to_string())));
    assert!(!p.bypass_enabled());
}

#[test]
fn bypass_with_bad_value_is_refused_and_changes_nothing() {
    let mut p = SharedParams::new();
    p.bypass = true;
    let o = parse_command("bypass maybe", &mut p);
    assert_eq!(reply(&o), Some((false, "usage: bypass on|off".to_string())));
    assert!(p.bypass_enabled());
    let o = parse_command("bypass", &mut p);
    assert_eq!(reply(&o), Some((false, "usage: bypass on|off".to_string())));
    // a second space makes the value " on", which is not a value
    let o = parse_command("bypass  on", &mut p);
    assert_eq!(reply(&o), Some((false, "usage: bypass on|off".to_string())));
}

#[test]
fn level_commands_hand_over_the_value_text() {
    let mut p = SharedParams::new();
    match parse_command("volume -6.5", &mut p) {
        CommandOutcome::SetLevel(Level::Volume, v) => assert_eq!(v, "-6.5"),
        _ => panic!("volume"),
    }
    match parse_command("gain 3", &mut p) {
        CommandOutcome::SetLevel(Level::Gain, v) => assert_eq!(v, "3"),
        _ => panic!("gain"),
    }
    match parse_command("bplus 250", &mut p) {
        CommandOutcome::SetLevel(Level::BPlus, v) => assert_eq!(v, "250"),
        _ => panic!("bplus"),
    }
    match parse_command("volume", &mut p) {
        CommandOutcome::SetLevel(Level::Volume, v) => assert_eq!(v, ""),
        _ => panic!("volume without value"),
    }
    assert_eq!(p.gain, SharedParams::new().gain);
}

#[test]
fn tube_command_is_forwarded_unchecked() {
    let mut p = SharedParams::new();
    match parse_command("tube EL34", &mut p) {
        CommandOutcome::SetTube(t) => assert_eq!(t, "EL34"),
        _ => panic!("tube"),
    }
    match parse_command("tube 6V6", &mut p) {
        CommandOutcome::SetTube(t) => assert_eq!(t, "6V6"),
        _ => panic!("tube"),
    }
}

#[test]
fn model_command_checks_the_name() {
    let mut p = SharedParams::new();
    match parse_command("model two-stage", &mut p) {
        CommandOutcome::SetModel(m) => assert_eq!(m, "two-stage"),
        _ => panic!("model"),
    }
    let o = parse_command("model triple", &mut p);
    assert_eq!(reply(&o), Some((false, "model: single, two-stage, chain".to_string())));
}

#[test]
fn status_stop_and_unknown_commands() {
    let mut p = SharedParams::new();
    assert!(matches!(parse_command("status", &mut p), CommandOutcome::Status));
    match parse_command("stop", &mut p) {
        CommandOutcome::Stop(answer) => assert_eq!(answer, "OK"),
        _ => panic!("expected stop"),
    }
    let o = parse_command("reboot now", &mut p);
    assert_eq!(reply(&o), Some((false, "unknown command: reboot".to_string())));
    let o = parse_command("", &mut p);
    assert_eq!(reply(&o), Some((false, "unknown command: ".to_string())));
    let o = parse_command("Bypass on", &mut p);
    assert_eq!(reply(&o), Some((false, "unknown command: Bypass".to_string())));
}

#[test]
fn response_lines() {
    assert_eq!(response_line(&Ok("OK".to_string())), "OK\n");
    assert_eq!(response_line(&Err("invalid gain".to_string())), "ERROR invalid gain\n");
}

#[test]
fn status_line_of_start_state() {
    let p = SharedParams::new();
    assert_eq!(
        status_line(&p, "-12.0", "-38.0", "300"),
        "bypass=off volume=-12.0 gain=-38.0 bplus=300 tube=12AX7 model=single"
    );
}

#[test]
fn status_line_reads_back() {
    let mut p = SharedParams::new();
    p.bypass = true;
    p.tube = "KT88".to_string();
    p.model = "chain".to_string();
    let line = status_line(&p, "-6.0", "2.5", "450");
    let st = parse_status_line(&line);
    assert_eq!(st.bypass, Some(true));
    assert_eq!(st.volume.as_deref(), Some("-6.0"));
    assert_eq!(st.gain.as_deref(), Some("2.5"));
    assert_eq!(st.bplus.as_deref(), Some("450"));
    assert_eq!(st.tube.as_deref(), Some("KT88"));
    assert_eq!(st.model.as_deref(), Some("chain"));
}

#[test]
fn status_parse_last_word_wins_and_unknown_keys_are_ignored() {
    let st = parse_status_line("  tube=12AU7\tfoo=bar tube=6DJ8 bypass model=a=b\n");
    assert_eq!(st.tube.as_deref(), Some("6DJ8"));
    assert_eq!(st.bypass, Some(false));
    assert_eq!(st.model.as_deref(), Some("a=b"));
    assert_eq!(st.volume, None);
    assert_eq!(st.gain, None);
    assert_eq!(st.bplus, None);
    let empty = parse_status_line("");
    assert_eq!(empty.tube, None);
    assert_eq!(empty.bypass, None);
}

#[test]
fn status_parse_splits_on_unicode_whitespace() {
    let st = parse_status_line("bypass=on\u{3000}gain=1\u{a0}volume=2");
    assert_eq!(st.bypass, Some(true));
    assert_eq!(st.gain.as_deref(), Some("1"));
    assert_eq!(st.volume.as_deref(), Some("2"));
}

#[test]
fn gui_commands_are_accepted() {
    let mut p = SharedParams::new();
    let cmd = bypass_command(true);
    assert_eq!(cmd, "bypass on");
    assert_eq!(reply(&parse_command(&cmd, &mut p)), Some((true, "OK".to_string())));
    assert!(p.bypass);
    assert_eq!(bypass_command(false), "bypass off");
    assert_eq!(tube_command(TubeModel::Tube6L6GC), "tube 6L6GC");
    assert_eq!(model_command(AmpModel::TwoStage), "model two-stage");
    match parse_command(&model_command(AmpModel::Chain), &mut p) {
        CommandOutcome::SetModel(m) => assert_eq!(m, "chain"),
        _ => panic!("model"),
    }
    let lc = level_command(Level::BPlus, "320");
    assert_eq!(lc, "bplus 320");
    match parse_command(&lc, &mut p) {
        CommandOutcome::SetLevel(Level::BPlus, v) => assert_eq!(v, "320"),
        _ => panic!("level"),
    }
}

#[test]
fn level_answers() {
    assert_eq!(level_answer(Level::Volume, false, false), Err("invalid volume".to_string()));
    assert_eq!(level_answer(Level::Gain, false, true), Err("invalid gain".to_string()));
    assert_eq!(level_answer(Level::BPlus, false, false), Err("invalid voltage".to_string()));
    assert_eq!(
        level_answer(Level::Volume, true, false),
        Err("volume range: -60..+12 dB".to_string())
    );
    assert_eq!(level_answer(Level::Gain, true, false), Err("gain range: -96..+10 dB".to_string()));
    assert_eq!(level_answer(Level::BPlus, true, false), Err("bplus range: 50..600 V".to_string()));
    assert_eq!(level_answer(Level::BPlus, true, true), Ok("OK".to_string()));
}

#[test]
fn client_steps() {
    match client_step(&ClientEvent::Send("tube EL34".to_string())) {
        ClientAction::Exchange(l) => assert_eq!(l, "tube EL34"),
        _ => panic!("expected an exchange"),
    }
    match client_step(&ClientEvent::Quit) {
        ClientAction::SendAndEnd(l) => assert_eq!(l, "stop"),
        _ => panic!("expected stop"),
    }
    match client_step(&ClientEvent::Timeout) {
        ClientAction::PollStatus(l) => assert_eq!(l, "status"),
        _ => panic!("expected a status poll"),
    }
    assert!(matches!(client_step(&ClientEvent::Disconnected), ClientAction::End));
}

#[test]
fn answers_to_sent_commands() {
    let a = after_answer("tube EL34", "OK\n");
    assert_eq!(a.message, "OK");
    assert_eq!(a.next, Some("status".to_string()));
    let a = after_answer("stop", "  OK \r\n");
    assert_eq!(a.message, "OK");
    assert_eq!(a.next, None);
    let a = after_answer("stop now", "ERROR unknown command: stop\n");
    assert_eq!(a.message, "ERROR unknown command: stop");
    assert_eq!(a.next, Some("status".to_string()));
}
