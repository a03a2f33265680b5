//! The macOS backend's pure part: the owning process a target names.

use vstd::prelude::*;
use crate::config::WindowTarget;

verus! {

/// The owning process id of a macOS target; other platforms' targets name none.
pub fn owning_pid(target: &WindowTarget) -> (pid: Option<i32>)
    ensures
        pid == (match *target {
            WindowTarget::MacOs { pid, .. } => Some(pid),
            _ => None,
        }),
{
    match target {
        WindowTarget::MacOs { pid, .. } => Some(*pid),
        _ => None,
    }
}

} // verus!
