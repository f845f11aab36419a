//! The terminal-mode bit sets and the external-command outcome judgement.

use clearscreen::command::{command_outcome, ProcessStatus};
use clearscreen::unix::{cooked_mode, reset_termios, well_done_mode, TermMode};
use clearscreen::Error;

#[test]
fn cooked_mode_raises_exactly_the_documented_bits() {
    let m = cooked_mode();
    // BRKINT | ICRNL | IGNPAR | ISTRIP | IXON
    assert_eq!(m.input_flags, 0x0002 | 0x0100 | 0x0004 | 0x0020 | 0x0400);
    // OPOST
    assert_eq!(m.output_flags, 0x0001);
    assert_eq!(m.control_flags, 0);
    // ICANON | ISIG
    assert_eq!(m.local_flags, 0x0002 | 0x0001);
}

#[test]
fn well_done_mode_raises_exactly_the_documented_bits() {
    let m = well_done_mode();
    // BRKINT | ICRNL | IUTF8 | IGNPAR | IMAXBEL | ISTRIP | IXON
    assert_eq!(
        m.input_flags,
        0x0002 | 0x0100 | 0x4000 | 0x0004 | 0x2000 | 0x0020 | 0x0400
    );
    // ONLCR | OPOST
    assert_eq!(m.output_flags, 0x0004 | 0x0001);
    // CREAD
    assert_eq!(m.control_flags, 0x0080);
    // ICANON | ISIG
    assert_eq!(m.local_flags, 0x0002 | 0x0001);
}

#[test]
fn well_done_is_a_strict_superset_of_cooked() {
    let c = cooked_mode();
    let w = well_done_mode();
    assert_eq!(w.input_flags & c.input_flags, c.input_flags);
    assert_eq!(w.output_flags & c.output_flags, c.output_flags);
    assert_eq!(w.control_flags & c.control_flags, c.control_flags);
    assert_eq!(w.local_flags & c.local_flags, c.local_flags);
    assert_ne!((w.input_flags, w.output_flags, w.control_flags), (
        c.input_flags,
        c.output_flags,
        c.control_flags,
    ));
}

#[test]
fn reset_termios_clears_every_group() {
    let mut m = TermMode {
        input_flags: 0xffff_ffff,
        output_flags: 0x1234,
        control_flags: 0x00ff,
        local_flags: 0x8001,
    };
    reset_termios(&mut m);
    assert_eq!(m.input_flags, 0);
    assert_eq!(m.output_flags, 0);
    assert_eq!(m.control_flags, 0);
    assert_eq!(m.local_flags, 0);
}

#[test]
fn command_success_passes() {
    let status = ProcessStatus { success: true, code: Some(0) };
    assert!(command_outcome("tput clear", status).is_ok());
}

#[test]
fn command_failure_carries_name_and_exact_status() {
    let status = ProcessStatus { success: false, code: Some(2) };
    let e = command_outcome("tput clear", status).unwrap_err();
    assert_eq!(e, Error::Command("tput clear", status));
}

#[test]
fn command_killed_without_code_still_fails() {
    let status = ProcessStatus { success: false, code: None };
    let e = command_outcome("cls", status).unwrap_err();
    match e {
        Error::Command(name, s) => {
            assert_eq!(name, "cls");
            assert_eq!(s.code, None);
            assert!(!s.success);
        }
        other => panic!("unexpected error: {:?}", other),
    }
}
