//! The validated configuration value that crosses into the installer core,
//! and the derivation of the desktop-entry path from its Linux part.

use vstd::prelude::*;

use crate::execution_mode::ExecutionMode;
use crate::ostype::OsType;

verus! {

/// `dir` joined with `name` by exactly one path separator: a trailing
/// separator already on `dir` is reused rather than doubled, and an empty
/// `dir` contributes nothing.
pub open spec fn join_path(dir: Seq<char>, name: Seq<char>) -> Seq<char> {
    if dir.len() == 0 {
        name
    } else if dir.last() == '/' {
        dir + name
    } else {
        dir + seq!['/'] + name
    }
}

/// Joining does not depend on whether `dir` carries a trailing separator:
/// adding one to a directory that has none leaves the joined path unchanged.
pub proof fn lemma_join_path_trailing_separator(dir: Seq<char>, name: Seq<char>)
    requires
        dir.len() > 0,
        dir.last() != '/',
    ensures
        join_path(dir.push('/'), name) == join_path(dir, name),
{
    assert(dir.push('/').last() == '/');
    assert(dir.push('/') + name =~= dir + seq!['/'] + name);
}

/// Configuration for the Linux installer: where the desktop-entry file goes.
pub struct LinuxConfig {
    pub desktop_entry_directory: String,
    pub desktop_file_name: String,
}

impl LinuxConfig {
    /// The full path of the desktop-entry file: the directory joined with
    /// the file name.
    pub fn get_desktop_file_path(&self) -> (r: Option<String>)
        ensures
            r matches Some(p) && p@ == join_path(
                self.desktop_entry_directory@,
                self.desktop_file_name@,
            ),
    {
        let dir = &self.desktop_entry_directory;
        let n = dir.as_str().unicode_len();
        if n == 0 {
            Some(self.desktop_file_name.clone())
        } else if dir.as_str().get_char(n - 1) == '/' {
            Some(dir.clone().concat(self.desktop_file_name.as_str()))
        } else {
            let joined = dir.clone().concat("/").concat(self.desktop_file_name.as_str());
            proof {
                reveal_strlit("/");
                assert("/"@ =~= seq!['/']);
            }
            Some(joined)
        }
    }
}

/// Configuration for the macOS installer: which Emacs client executable the
/// generated launcher script invokes.
pub struct MacOSConfig {
    pub emacsclient_path: String,
}

/// The validated configuration: a target platform, a mode, and the matching
/// platform sub-configuration.
pub struct Config {
    pub target: OsType,
    pub mode: ExecutionMode,
    pub linux_config: Option<LinuxConfig>,
    pub macos_config: Option<MacOSConfig>,
}

impl Config {
    /// Exactly the sub-configuration matching `target` is populated, and its
    /// required field is non-empty.
    pub open spec fn well_formed(&self) -> bool {
        match self.target {
            OsType::Linux => {
                &&& self.linux_config matches Some(c) && c.desktop_file_name@.len() > 0
                &&& self.macos_config is None
            },
            OsType::Mac => {
                &&& self.macos_config matches Some(c) && c.emacsclient_path@.len() > 0
                &&& self.linux_config is None
            },
        }
    }
}

} // verus!
