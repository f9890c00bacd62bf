//! Start-with-system registration: what toggling it writes.
use vstd::prelude::*;

use crate::text::quoted_path;

verus! {

/// The change to make to the OS launch list.
#[derive(Debug)]
pub enum StartupChange {
    /// Remove the program's entry.
    Unregister,
    /// Add the program's entry with this command line.
    Register(String),
}

/// Toggling start-with-system: a registered program is removed; otherwise it
/// is added with its executable path between double quotes.
pub fn toggle_startup(registered: bool, exe_path: &str) -> (r: StartupChange)
    ensures
        match r {
            StartupChange::Unregister => registered,
            StartupChange::Register(cmd) => !registered && cmd@ == seq!['"'] + exe_path@ + seq!['"'],
        },
{
    if registered {
        StartupChange::Unregister
    } else {
        StartupChange::Register(quoted_path(exe_path))
    }
}

} // verus!
