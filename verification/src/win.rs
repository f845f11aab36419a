//! The native console controller.
//!
//! These strategies drive a native console subsystem's buffer and VT-mode
//! APIs. This platform family has no such subsystem, so each of them is the
//! documented no-op that trivially succeeds.

use vstd::prelude::*;

use crate::Error;

verus! {

/// Enables VT escape processing in the native console: a no-op here.
pub fn vt() -> (r: Result<(), Error>)
    ensures
        r is Ok,
{
    Ok(())
}

/// Scrolls and clears the native console's screen buffer: a no-op here.
pub fn clear() -> (r: Result<(), Error>)
    ensures
        r is Ok,
{
    Ok(())
}

/// Blanks the native console's screen buffer: a no-op here.
pub fn blank() -> (r: Result<(), Error>)
    ensures
        r is Ok,
{
    Ok(())
}

/// Disables raw mode in the native console: a no-op here.
pub fn cooked() -> (r: Result<(), Error>)
    ensures
        r is Ok,
{
    Ok(())
}

} // verus!
