use torus::terminal::{
    confirm_raw_mode, enter_raw_mode, release_outcome, TerminalConfig, TerminalError,
    CONTROL_CHAR_COUNT, ECHO, ICANON, ICRNL, IEXTEN, ISIG, VMIN_INDEX, VTIME_INDEX,
};

fn cooked() -> TerminalConfig {
    let mut control_chars = vec![0u8; CONTROL_CHAR_COUNT];
    control_chars[VMIN_INDEX] = 4;
    control_chars[VTIME_INDEX] = 9;
    control_chars[0] = 3;
    TerminalConfig {
        input_flags: 0x500,
        output_flags: 0x5,
        control_flags: 0xbf,
        local_flags: 0x8a3b,
        line_discipline: 0,
        control_chars,
        input_speed: 15,
        output_speed: 15,
    }
}

fn same(a: &TerminalConfig, b: &TerminalConfig) -> bool {
    a.input_flags == b.input_flags
        && a.output_flags == b.output_flags
        && a.control_flags == b.control_flags
        && a.local_flags == b.local_flags
        && a.line_discipline == b.line_discipline
        && a.control_chars == b.control_chars
        && a.input_speed == b.input_speed
        && a.output_speed == b.output_speed
}

#[test]
fn flag_values_match_the_platform() {
    assert_eq!(ECHO, libc::ECHO);
    assert_eq!(ICANON, libc::ICANON);
    assert_eq!(ISIG, libc::ISIG);
    assert_eq!(IEXTEN, libc::IEXTEN);
    assert_eq!(ICRNL, libc::ICRNL);
    assert_eq!(VMIN_INDEX, libc::VMIN);
    assert_eq!(VTIME_INDEX, libc::VTIME);
    assert_eq!(CONTROL_CHAR_COUNT, libc::NCCS);
}

#[test]
fn raw_mode_clears_the_flags_on_top_of_the_baseline() {
    let raw = cooked().raw_mode();
    assert_eq!(raw.local_flags, 0x0a30);
    assert_eq!(raw.input_flags, 0x400);
    assert_eq!(raw.output_flags, 0x5);
    assert_eq!(raw.control_flags, 0xbf);
    assert_eq!(raw.control_chars[VMIN_INDEX], 1);
    assert_eq!(raw.control_chars[VTIME_INDEX], 0);
    assert_eq!(raw.control_chars[0], 3);
    assert_eq!(raw.local_flags & (ICANON | ECHO | ISIG), 0);
}

#[test]
fn enter_then_release_restores_the_configuration() {
    let original = cooked();
    let (mut session, raw) = enter_raw_mode(Some(cooked())).unwrap();
    assert!(session.is_active());
    assert_eq!(raw.local_flags & (ICANON | ECHO | ISIG), 0);
    let restored = session.release().unwrap();
    assert!(same(&restored, &original));
    assert!(same(session.original(), &original));
    assert!(!session.is_active());
}

#[test]
fn second_release_does_nothing() {
    let (mut session, _raw) = enter_raw_mode(Some(cooked())).unwrap();
    assert!(session.release().is_some());
    assert!(session.release().is_none());
    assert!(session.release().is_none());
    assert!(!session.is_active());
}

#[test]
fn failed_query_creates_no_session() {
    assert_eq!(enter_raw_mode(None).unwrap_err(), TerminalError::DeviceQuery);
}

#[test]
fn failed_apply_creates_no_session() {
    let (session, _raw) = enter_raw_mode(Some(cooked())).unwrap();
    assert_eq!(
        confirm_raw_mode(session, false).unwrap_err(),
        TerminalError::DeviceConfig
    );
    let (session, _raw) = enter_raw_mode(Some(cooked())).unwrap();
    assert!(confirm_raw_mode(session, true).unwrap().is_active());
}

#[test]
fn failed_restore_is_reported() {
    assert_eq!(release_outcome(false), Err(TerminalError::DeviceConfig));
    assert_eq!(release_outcome(true), Ok(()));
}

#[test]
fn duplicate_keeps_every_field() {
    let c = cooked();
    assert!(same(&c.duplicate(), &c));
}
