//! The two modes an installer can run in.

use vstd::prelude::*;

use crate::text::str_eq;

verus! {

#[derive(Debug, PartialEq, Eq, Structural, Clone, Copy)]
pub enum ExecutionMode {
    Install,
    Uninstall,
}

impl ExecutionMode {
    /// Maps the word `install` to `Install`, the word `uninstall` to
    /// `Uninstall`, and anything else to `None`.
    pub fn from(s: &str) -> (r: Option<ExecutionMode>)
        ensures
            r == (if s@ == "install"@ {
                Some(ExecutionMode::Install)
            } else if s@ == "uninstall"@ {
                Some(ExecutionMode::Uninstall)
            } else {
                None::<ExecutionMode>
            }),
    {
        if str_eq(s, "install") {
            Some(ExecutionMode::Install)
        } else if str_eq(s, "uninstall") {
            Some(ExecutionMode::Uninstall)
        } else {
            None
        }
    }
}

} // verus!
