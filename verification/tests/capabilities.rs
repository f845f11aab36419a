//! The capability-resolution core: combined clear, single lookups, and the
//! two-tier reset fallback.

use clearscreen::Error;
use clearscreen::caps::{combined_sequence, reset_sequence, single_sequence, ResetCaps};

fn no_caps() -> ResetCaps {
    ResetCaps {
        reset1: None,
        reset2: None,
        reset3: None,
        reset_file: None,
        init1: None,
        init2: None,
        init3: None,
        init_file: None,
    }
}

#[test]
fn combined_missing_primary_fails_naming_clear() {
    let r = combined_sequence(&None, &Some(vec![1, 2, 3]));
    assert_eq!(r.unwrap_err(), Error::TerminfoCap("clear"));
}

#[test]
fn combined_missing_scrollback_is_best_effort() {
    let r = combined_sequence(&Some(vec![0x1b, b'X']), &None);
    assert_eq!(r.unwrap(), vec![0x1b, b'X']);
}

#[test]
fn combined_emits_primary_then_scrollback() {
    let r = combined_sequence(&Some(vec![1, 2]), &Some(vec![3, 4]));
    assert_eq!(r.unwrap(), vec![1, 2, 3, 4]);
}

#[test]
fn single_missing_fails_with_the_given_name() {
    let r = single_sequence(&None, "E3");
    assert_eq!(r.unwrap_err(), Error::TerminfoCap("E3"));
}

#[test]
fn single_present_emits_exactly_its_bytes() {
    let r = single_sequence(&Some(vec![9, 8, 7]), "clear");
    assert_eq!(r.unwrap(), vec![9, 8, 7]);
}

#[test]
fn reset_with_only_one_init_capability_emits_it() {
    let mut caps = no_caps();
    caps.init2 = Some(vec![0x1b, b'c']);
    let r = reset_sequence(&caps);
    assert_eq!(r.unwrap(), vec![0x1b, b'c']);
}

#[test]
fn reset_with_no_capabilities_fails_naming_reset() {
    let r = reset_sequence(&no_caps());
    assert_eq!(r.unwrap_err(), Error::TerminfoCap("reset"));
}

#[test]
fn reset_group_short_circuits_init_group() {
    let mut caps = no_caps();
    caps.reset2 = Some(vec![1, 2]);
    caps.init1 = Some(vec![9, 9, 9]);
    caps.init_file = Some(vec![8]);
    let r = reset_sequence(&caps);
    // The init group is present but must contribute nothing.
    assert_eq!(r.unwrap(), vec![1, 2]);
}

#[test]
fn reset_emits_all_available_reset_strings_in_order() {
    let mut caps = no_caps();
    caps.reset1 = Some(vec![1]);
    caps.reset3 = Some(vec![3]);
    caps.reset_file = Some(vec![4]);
    let r = reset_sequence(&caps);
    assert_eq!(r.unwrap(), vec![1, 3, 4]);
}

#[test]
fn reset_falls_back_to_all_available_init_strings_in_order() {
    let mut caps = no_caps();
    caps.init1 = Some(vec![5]);
    caps.init3 = Some(vec![6]);
    caps.init_file = Some(vec![7]);
    let r = reset_sequence(&caps);
    assert_eq!(r.unwrap(), vec![5, 6, 7]);
}
