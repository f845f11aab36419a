//! The capability database service.
//!
//! The terminal description is loaded from the environment at the moment a
//! capability-based strategy executes, and its string capabilities are looked
//! up and expanded through the terminfo crate. Everything here is a thin
//! trusted edge: which capabilities are consulted, in what order, and what is
//! made of their presence or absence is decided by verified code.

use vstd::prelude::*;

verus! {

#[verifier::external_type_specification]
#[verifier::external_body]
pub struct ExDatabase(terminfo::Database);

#[verifier::external_type_specification]
#[verifier::external_body]
pub struct ExContext(terminfo::expand::Context);

/// Relies on terminfo::Database::from_env: loads the terminal description the
/// environment names; a failure carries the error's description. Note that
/// the terminfo crate's parser itself can abort on a malformed compiled
/// description file, before any error can be returned here.
#[verifier::external_body]
pub(crate) fn load_database() -> (r: Result<terminfo::Database, String>) {
    terminfo::Database::from_env().map_err(|e| e.to_string())
}

/// Relies on terminfo::expand::Context::default: a fresh parameter-expansion
/// context, shared by successive expansions within one strategy execution.
#[verifier::external_body]
pub(crate) fn new_context() -> (r: terminfo::expand::Context) {
    terminfo::expand::Context::default()
}

/// Relies on terminfo::Database::raw and the terminfo Expand implementation
/// for byte strings: looks the named string capability up and expands it with
/// the given context. Absence — or a capability that is not a string — is the
/// `Ok(None)` outcome; a malformed capability fails with the error's
/// description. Note that the terminfo crate's expansion interpreter performs
/// arithmetic that can abort on pathological capability data, before any
/// error can be returned here.
#[verifier::external_body]
pub(crate) fn expand_raw_cap(
    db: &terminfo::Database,
    name: &str,
    ctx: &mut terminfo::expand::Context,
) -> (r: Result<Option<Vec<u8>>, String>) {
    match db.raw(name) {
        Some(terminfo::capability::Value::String(s)) => {
            let mut out: Vec<u8> = Vec::new();
            match terminfo::Expand::expand(s.as_slice(), &mut out, &[], ctx) {
                Ok(()) => Ok(Some(out)),
                Err(e) => Err(e.to_string()),
            }
        },
        _ => Ok(None),
    }
}

/// Relies on terminfo::Database::from_env: whether a terminal description can
/// be loaded from the environment at all, for default-strategy resolution.
/// Shares the load path's exposure to aborts on a malformed description file.
#[verifier::external_body]
pub(crate) fn database_usable() -> (r: bool) {
    terminfo::Database::from_env().is_ok()
}

} // verus!
