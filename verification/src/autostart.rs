//! Launch-at-login switches. Here autostart is left to the system's own
//! mechanism, so the query reports disabled and the switches succeed as
//! no-ops; a build that owns a registry entry would replace these.

use vstd::prelude::*;

verus! {

/// Autostart is never reported enabled: the system mechanism owns it.
pub fn is_enabled() -> (r: Result<bool, String>)
    ensures
        r matches Ok(b) && b == false,
{
    Ok(false)
}

/// Enabling is a successful no-op.
pub fn enable() -> (r: Result<(), String>)
    ensures
        r is Ok,
{
    Ok(())
}

/// Disabling is a successful no-op.
pub fn disable() -> (r: Result<(), String>)
    ensures
        r is Ok,
{
    Ok(())
}

} // verus!
