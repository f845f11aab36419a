//! Strategy execution: fixed sequences, native-console no-ops, dispatch.

use clearscreen::ClearScreen;

#[test]
fn xterm_clear_exact_bytes() {
    let mut w: Vec<u8> = Vec::new();
    ClearScreen::XtermClear.clear_to(&mut w).unwrap();
    assert_eq!(
        w,
        vec![
            0x1b, b'[', b'H', // cursor home
            0x1b, b'[', b'2', b'J', // erase screen
            0x1b, b'[', b'3', b'J', // erase scrollback
        ]
    );
}

#[test]
fn xterm_reset_exact_bytes() {
    let mut w: Vec<u8> = Vec::new();
    ClearScreen::XtermReset.clear_to(&mut w).unwrap();
    assert_eq!(
        w,
        vec![
            0x1b, b'c', // RIS
            0x1b, b'[', b'!', b'p', // soft terminal reset
            0x1b, b'[', b'?', b'3', b';', b'4', b'l', // width and scroll reset
            0x1b, b'[', b'4', b'l', // replace mode
            0x1b, b'>', // keypad normal
            0x1b, b'[', b'?', b'6', b'9', b'l', // margins reset
        ]
    );
}

#[test]
fn vt_ris_exact_bytes() {
    let mut w: Vec<u8> = Vec::new();
    ClearScreen::VtRis.clear_to(&mut w).unwrap();
    assert_eq!(w, vec![0x1b, b'c']);
}

#[test]
fn vt_leave_alt_exact_bytes() {
    let mut w: Vec<u8> = Vec::new();
    ClearScreen::VtLeaveAlt.clear_to(&mut w).unwrap();
    assert_eq!(w, vec![0x1b, b'[', b'?', b'1', b'0', b'4', b'9', b'l']);
}

#[test]
fn fixed_sequences_identical_across_invocations() {
    for strategy in [
        ClearScreen::XtermClear,
        ClearScreen::XtermReset,
        ClearScreen::VtRis,
        ClearScreen::VtLeaveAlt,
    ] {
        let mut first: Vec<u8> = Vec::new();
        strategy.clear_to(&mut first).unwrap();
        let mut second: Vec<u8> = Vec::new();
        strategy.clear_to(&mut second).unwrap();
        assert_eq!(first, second);
        assert!(!first.is_empty());
    }
}

#[test]
fn fixed_sequences_append_to_existing_sink() {
    let mut w: Vec<u8> = vec![b'x'];
    ClearScreen::VtRis.clear_to(&mut w).unwrap();
    assert_eq!(w, vec![b'x', 0x1b, b'c']);
}

#[test]
fn windows_vt_clear_emits_clear_and_succeeds() {
    let mut w: Vec<u8> = Vec::new();
    ClearScreen::WindowsVtClear.clear_to(&mut w).unwrap();
    let mut expected: Vec<u8> = Vec::new();
    ClearScreen::XtermClear.clear_to(&mut expected).unwrap();
    assert_eq!(w, expected);
}

#[test]
fn native_console_strategies_are_silent_noops() {
    for strategy in [
        ClearScreen::WindowsVt,
        ClearScreen::WindowsConsoleClear,
        ClearScreen::WindowsConsoleBlank,
        ClearScreen::WindowsCooked,
    ] {
        let mut w: Vec<u8> = Vec::new();
        strategy.clear_to(&mut w).unwrap();
        assert!(w.is_empty());
    }
}

#[test]
fn command_strategies_are_recognised() {
    assert!(ClearScreen::TputClear.needs_command());
    assert!(ClearScreen::TputReset.needs_command());
    assert!(ClearScreen::Cls.needs_command());
    assert!(!ClearScreen::XtermClear.needs_command());
    assert!(!ClearScreen::Terminfo.needs_command());
    assert!(!ClearScreen::VtCooked.needs_command());
}

#[test]
fn command_for_names_program_argument_and_label() {
    let spec = ClearScreen::TputClear.command_for().unwrap();
    assert_eq!(spec.program, "tput");
    assert_eq!(spec.argument, Some("clear"));
    assert_eq!(spec.label, "tput clear");

    let spec = ClearScreen::TputReset.command_for().unwrap();
    assert_eq!(spec.program, "tput");
    assert_eq!(spec.argument, Some("reset"));
    assert_eq!(spec.label, "tput reset");

    let spec = ClearScreen::Cls.command_for().unwrap();
    assert_eq!(spec.program, "cls");
    assert_eq!(spec.argument, None);
    assert_eq!(spec.label, "cls");

    assert!(ClearScreen::XtermReset.command_for().is_none());
}

#[test]
fn capabilities_for_pins_the_consulted_names() {
    let q = ClearScreen::Terminfo.capabilities_for().unwrap();
    assert_eq!(q.names, vec!["clear_screen", "user3"]);
    assert_eq!(q.missing, "clear");

    let q = ClearScreen::TerminfoScreen.capabilities_for().unwrap();
    assert_eq!(q.names, vec!["clear_screen"]);
    assert_eq!(q.missing, "clear");

    let q = ClearScreen::TerminfoScrollback.capabilities_for().unwrap();
    assert_eq!(q.names, vec!["user3"]);
    assert_eq!(q.missing, "E3");

    let q = ClearScreen::TerminfoReset.capabilities_for().unwrap();
    assert_eq!(
        q.names,
        vec![
            "reset_1string",
            "reset_2string",
            "reset_3string",
            "reset_file",
            "init_1string",
            "init_2string",
            "init_3string",
            "init_file",
        ]
    );
    assert_eq!(q.missing, "reset");

    assert!(ClearScreen::XtermClear.capabilities_for().is_none());
    assert!(ClearScreen::TputClear.capabilities_for().is_none());
    assert!(ClearScreen::VtCooked.capabilities_for().is_none());
}

#[test]
fn default_strategy_follows_the_decision_table() {
    assert_eq!(
        clearscreen::default_strategy(true, true),
        ClearScreen::WindowsVtClear
    );
    assert_eq!(
        clearscreen::default_strategy(true, false),
        ClearScreen::WindowsVtClear
    );
    assert_eq!(
        clearscreen::default_strategy(false, true),
        ClearScreen::Terminfo
    );
    assert_eq!(
        clearscreen::default_strategy(false, false),
        ClearScreen::XtermClear
    );
}
