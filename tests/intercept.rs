use custom_name_color::intercept::{apply, decide, intercept, same_text, Outcome};
use custom_name_color::lifecycle::{InitGate, ProcessEvent};
use custom_name_color::Color;

#[test]
fn local_player_gets_configured_code() {
    let mut out: i8 = 7;
    let r = intercept(42, b"Hunter", Some("Hunter"), Color::Orange, &mut out);
    assert_eq!(r, (42, Outcome::Recolored(2)));
    assert_eq!(out, 2);
}

#[test]
fn every_real_colour_is_written() {
    for (c, code) in [
        (Color::White, 0i8),
        (Color::Green, 1),
        (Color::Orange, 2),
        (Color::Blue, 3),
        (Color::Purple, 4),
        (Color::Yellow, 5),
    ] {
        let mut out: i8 = -5;
        let r = intercept(-3, "猎人".as_bytes(), Some("猎人"), c, &mut out);
        assert_eq!(r.0, -3);
        assert_eq!(out, code);
    }
}

#[test]
fn other_player_is_untouched() {
    let mut out: i8 = 9;
    let r = intercept(1, b"Someone", Some("Hunter"), Color::Green, &mut out);
    assert_eq!(r, (1, Outcome::OtherPlayer));
    assert_eq!(out, 9);
}

#[test]
fn sentinel_never_writes() {
    let mut out: i8 = 9;
    let r = intercept(i64::MAX, b"Hunter", Some("Hunter"), Color::Default, &mut out);
    assert_eq!(r, (i64::MAX, Outcome::NoOverride));
    assert_eq!(out, 9);
}

#[test]
fn missing_local_player_passes_through() {
    let mut out: i8 = 3;
    let r = intercept(5, b"Hunter", None, Color::Blue, &mut out);
    assert_eq!(r, (5, Outcome::NoLocalPlayer));
    assert_eq!(out, 3);
}

#[test]
fn malformed_name_passes_through() {
    let mut out: i8 = 4;
    let r = intercept(77, &[0x48, 0xff, 0xfe], Some("H"), Color::Yellow, &mut out);
    assert_eq!(r, (77, Outcome::BadName));
    assert_eq!(out, 4);
    assert_eq!(decide(&[0xc3], Some(""), Color::White), Outcome::BadName);
}

#[test]
fn empty_names_match() {
    assert_eq!(decide(b"", Some(""), Color::White), Outcome::Recolored(0));
}

#[test]
fn apply_only_writes_recolor() {
    let mut out: i8 = 1;
    apply(Outcome::OtherPlayer, &mut out);
    assert_eq!(out, 1);
    apply(Outcome::Recolored(-2), &mut out);
    assert_eq!(out, -2);
}

#[test]
fn text_equality() {
    assert!(same_text("abc", "abc"));
    assert!(!same_text("abc", "abd"));
    assert!(!same_text("abc", "ab"));
    assert!(!same_text("Hunter", "hunter"));
}

#[test]
fn init_runs_once_over_repeated_attach() {
    let mut gate = InitGate::new();
    assert!(!gate.started());
    assert!(!gate.on_event(ProcessEvent::Other));
    assert!(gate.on_event(ProcessEvent::Attach));
    assert!(gate.started());
    assert!(!gate.on_event(ProcessEvent::Attach));
    assert!(!gate.on_event(ProcessEvent::Detach));
    assert!(!gate.on_event(ProcessEvent::Attach));
}

#[test]
fn detach_first_does_not_start() {
    let mut gate = InitGate::new();
    assert!(!gate.on_event(ProcessEvent::Detach));
    assert!(!gate.started());
    assert!(gate.on_event(ProcessEvent::Attach));
}
