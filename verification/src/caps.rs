//! The capability-resolution core.
//!
//! These functions decide, from the capabilities a terminal description did or
//! did not provide, exactly which bytes a capability-driven strategy emits and
//! when it fails instead. They work on plain expanded byte sequences, so every
//! rule here — the best-effort scrollback erase and the two-tier reset
//! fallback in particular — is stated and proved exactly.

use vstd::prelude::*;

use crate::Error;
use crate::catalog::append_bytes;

verus! {

/// What a capability-driven strategy consults in the terminal description:
/// every capability name it may look up, in lookup order, and the name its
/// missing-capability error carries.
#[derive(Debug, PartialEq, Eq)]
pub struct CapabilityQuery {
    /// The capability names, in the order the strategy consults them.
    pub names: Vec<&'static str>,
    /// The name the strategy's missing-capability error carries.
    pub missing: &'static str,
}

/// The bytes of an optional capability: its sequence, or empty when absent.
pub open spec fn opt_seq(o: Option<Vec<u8>>) -> Seq<u8> {
    match o {
        Option::Some(v) => v@,
        Option::None => Seq::empty(),
    }
}

/// The expanded reset and init capabilities a terminal description offers.
/// `None` marks a capability the description does not provide.
pub struct ResetCaps {
    /// The first reset string, `rs1`.
    pub reset1: Option<Vec<u8>>,
    /// The second reset string, `rs2`.
    pub reset2: Option<Vec<u8>>,
    /// The third reset string, `rs3`.
    pub reset3: Option<Vec<u8>>,
    /// The reset file contents, `rf`.
    pub reset_file: Option<Vec<u8>>,
    /// The first init string, `is1`.
    pub init1: Option<Vec<u8>>,
    /// The second init string, `is2`.
    pub init2: Option<Vec<u8>>,
    /// The third init string, `is3`.
    pub init3: Option<Vec<u8>>,
    /// The init file contents, `if`.
    pub init_file: Option<Vec<u8>>,
}

/// Whether any capability of the primary (reset) group is available.
pub open spec fn reset_group_present(c: ResetCaps) -> bool {
    c.reset1 is Some || c.reset2 is Some || c.reset3 is Some || c.reset_file is Some
}

/// Whether any capability of the secondary (init) group is available.
pub open spec fn init_group_present(c: ResetCaps) -> bool {
    c.init1 is Some || c.init2 is Some || c.init3 is Some || c.init_file is Some
}

/// The bytes the primary group emits: all its available capabilities in order.
pub open spec fn reset_group_seq(c: ResetCaps) -> Seq<u8> {
    opt_seq(c.reset1) + opt_seq(c.reset2) + opt_seq(c.reset3) + opt_seq(c.reset_file)
}

/// The bytes the secondary group emits: all its available capabilities in order.
pub open spec fn init_group_seq(c: ResetCaps) -> Seq<u8> {
    opt_seq(c.init1) + opt_seq(c.init2) + opt_seq(c.init3) + opt_seq(c.init_file)
}

/// The combined clear: the screen-clear capability is required and comes
/// first; the scrollback-erase capability is best-effort and its absence is
/// not an error.
pub fn combined_sequence(clear: &Option<Vec<u8>>, scrollback: &Option<Vec<u8>>) -> (r: Result<
    Vec<u8>,
    Error,
>)
    ensures
        *clear is None ==> (r matches Err(e) && e == Error::TerminfoCap("clear")),
        *clear matches Some(c) ==> (r matches Ok(b) && b@ == c@ + opt_seq(*scrollback)),
{
    match clear {
        None => Err(Error::TerminfoCap("clear")),
        Some(c) => {
            let mut out: Vec<u8> = Vec::new();
            append_bytes(&mut out, c);
            if let Some(s) = scrollback {
                append_bytes(&mut out, s);
            }
            Ok(out)
        },
    }
}

/// A single required capability: absent fails with a missing-capability error
/// naming `name`; present emits exactly its sequence.
pub fn single_sequence(cap: &Option<Vec<u8>>, name: &'static str) -> (r: Result<Vec<u8>, Error>)
    ensures
        *cap is None ==> (r matches Err(e) && e == Error::TerminfoCap(name)),
        *cap matches Some(c) ==> (r matches Ok(b) && b@ == c@),
{
    match cap {
        None => Err(Error::TerminfoCap(name)),
        Some(c) => {
            let mut out: Vec<u8> = Vec::new();
            append_bytes(&mut out, c);
            Ok(out)
        },
    }
}

/// The two-tier full reset: if any capability of the primary (reset) group is
/// available, all of its available capabilities are emitted and the secondary
/// (init) group contributes nothing; otherwise the available capabilities of
/// the secondary group are emitted; if both groups are empty, the strategy
/// fails with a missing-capability error naming `reset`.
pub fn reset_sequence(caps: &ResetCaps) -> (r: Result<Vec<u8>, Error>)
    ensures
        reset_group_present(*caps) ==> (r matches Ok(b) && b@ == reset_group_seq(*caps)),
        !reset_group_present(*caps) && init_group_present(*caps) ==> (r matches Ok(b) && b@
            == init_group_seq(*caps)),
        !reset_group_present(*caps) && !init_group_present(*caps) ==> (r matches Err(e) && e
            == Error::TerminfoCap("reset")),
{
    let mut out: Vec<u8> = Vec::new();
    let mut found = false;
    if let Some(b) = &caps.reset1 {
        found = true;
        append_bytes(&mut out, b);
    }
    if let Some(b) = &caps.reset2 {
        found = true;
        append_bytes(&mut out, b);
    }
    if let Some(b) = &caps.reset3 {
        found = true;
        append_bytes(&mut out, b);
    }
    if let Some(b) = &caps.reset_file {
        found = true;
        append_bytes(&mut out, b);
    }
    if found {
        proof {
            assert(out@ =~= reset_group_seq(*caps));
        }
        return Ok(out);
    }
    if let Some(b) = &caps.init1 {
        found = true;
        append_bytes(&mut out, b);
    }
    if let Some(b) = &caps.init2 {
        found = true;
        append_bytes(&mut out, b);
    }
    if let Some(b) = &caps.init3 {
        found = true;
        append_bytes(&mut out, b);
    }
    if let Some(b) = &caps.init_file {
        found = true;
        append_bytes(&mut out, b);
    }
    if found {
        proof {
            assert(out@ =~= init_group_seq(*caps));
        }
        Ok(out)
    } else {
        Err(Error::TerminfoCap("reset"))
    }
}

/// Law: when any capability of the primary (reset) group is present, the
/// emitted reset sequence is determined by that group alone — two capability
/// sets that agree on the reset group are emitted identically, however their
/// init groups differ.
pub proof fn lemma_reset_group_short_circuits(a: ResetCaps, b: ResetCaps)
    requires
        a.reset1 == b.reset1,
        a.reset2 == b.reset2,
        a.reset3 == b.reset3,
        a.reset_file == b.reset_file,
        reset_group_present(a),
    ensures
        reset_group_present(b),
        reset_group_seq(a) == reset_group_seq(b),
{
}

} // verus!
