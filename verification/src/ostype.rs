//! The operating systems the installer knows how to target.

use vstd::prelude::*;

use crate::text::str_eq;

verus! {

#[derive(Debug, PartialEq, Eq, Structural, Clone, Copy)]
pub enum OsType {
    Linux,
    Mac,
}

impl OsType {
    /// Maps the word `linux` to `Linux`, the word `macos` to `Mac`, and
    /// anything else to `None`.
    pub fn from_string(s: &String) -> (r: Option<OsType>)
        ensures
            r == (if s@ == "linux"@ {
                Some(OsType::Linux)
            } else if s@ == "macos"@ {
                Some(OsType::Mac)
            } else {
                None::<OsType>
            }),
    {
        if str_eq(s.as_str(), "linux") {
            Some(OsType::Linux)
        } else if str_eq(s.as_str(), "macos") {
            Some(OsType::Mac)
        } else {
            None
        }
    }
}

} // verus!
