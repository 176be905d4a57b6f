//! The privilege gate of the `xfetch` surface.
//!
//! Before anything is dispatched, the process decides whether it runs
//! elevated.  On Unix-like systems it is elevated exactly when the invoking
//! user is `root`; the caller hands in the user name it read from the
//! environment.  An unelevated process re-executes the same command line
//! through the platform's elevation mechanism and does no work itself; the
//! outcome of that attempt is reported with a fixed line.

use vstd::prelude::*;
use crate::request::Variant;
use crate::text::str_eq;
use vstd::string::StringExecFns;

verus! {

/// Whether this process may do the work itself.
#[derive(Clone, Copy, Debug, PartialEq, Eq, Structural)]
pub enum Gate {
    /// Elevated, or on a surface that never elevates: dispatch here.
    RunHere,
    /// Re-execute elevated; this process does nothing else.
    Reexec,
}

/// The Unix elevation rule: elevated exactly when the invoking user is
/// `root`.  `user` is the user name read from the environment, when one was
/// set.
pub fn user_is_root(user: &Option<String>) -> (r: bool)
    ensures
        r <==> (user matches Some(u) && u@ == "root"@),
{
    match user {
        Some(u) => str_eq(u.as_str(), "root"),
        None => false,
    }
}

/// The decision before dispatch: only the `xfetch` surface elevates, and
/// only an unelevated process is sent to re-execute.
pub fn preflight(variant: Variant, elevated: bool) -> (g: Gate)
    ensures
        g == Gate::Reexec <==> (variant == Variant::Xfetch && !elevated),
{
    if variant == Variant::Xfetch && !elevated {
        Gate::Reexec
    } else {
        Gate::RunHere
    }
}

/// The line reporting how the elevation attempt ended.
pub fn elevation_outcome_line(success: bool) -> (r: String)
    ensures
        success ==> r@ == "Elevated privileges granted."@,
        !success ==> r@ == "Failed to obtain elevated privileges."@,
{
    if success {
        String::from_str("Elevated privileges granted.")
    } else {
        String::from_str("Failed to obtain elevated privileges.")
    }
}

} // verus!
