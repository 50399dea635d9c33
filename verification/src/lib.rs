//! Registers and unregisters an OS-level handler for the `org-protocol`
//! URL scheme, so that external applications can hand URLs to an Emacs
//! process.
//!
//! The library holds the verified core of the installer: configuration
//! validation, the per-platform install and uninstall state machines, the
//! rendered artifacts (desktop entry, launcher script), and the property-list
//! rewrite that associates the URL scheme with the generated helper
//! application.  All filesystem access and process spawning is performed by
//! the surrounding application, which drives the state machines and reports
//! back what happened.

use vstd::prelude::*;

pub mod actions;
pub mod config;
pub mod execution_mode;
pub mod linux_installer;
pub mod macos_installer;
pub mod ostype;
pub mod plist;
pub mod text;

use crate::actions::step_view;
use crate::actions::{Action, ActionV, Event, EventV, InstallError, InstallErrorV, Phase};
use crate::config::Config;
use crate::linux_installer::LinuxRoamProtocolInstaller;
use crate::macos_installer::MacOSRoamProtocolInstaller;
use crate::ostype::OsType;

verus! {

/// Capability set shared by the concrete installers: the install and the
/// uninstall flow, each exposed as a state machine.  The caller starts a
/// flow in `Phase::Ready` with `Event::Begin`; every step returns the next
/// phase together with the action the caller must perform, and the caller
/// reports the action's outcome as the next event.  A flow is complete when
/// it hands out `Action::Done`, and stops early when a step returns an
/// error.
pub trait RoamProtocolInstaller {
    /// The install flow as a mathematical transition function.
    spec fn install_transition(&self, phase: Phase, event: EventV) -> Result<
        (Phase, ActionV),
        InstallErrorV,
    >;

    /// The phase/event pairs the install flow accepts.
    spec fn install_accepts(&self, phase: Phase, event: EventV) -> bool;

    /// The uninstall flow as a mathematical transition function.
    spec fn uninstall_transition(&self, phase: Phase, event: EventV) -> Result<
        (Phase, ActionV),
        InstallErrorV,
    >;

    /// The phase/event pairs the uninstall flow accepts.
    spec fn uninstall_accepts(&self, phase: Phase, event: EventV) -> bool;

    /// One step of the install flow.
    fn install_step(&self, phase: Phase, event: Event) -> (r: Result<
        (Phase, Action),
        InstallError,
    >)
        requires
            self.install_accepts(phase, event@),
        ensures
            step_view(r) == self.install_transition(phase, event@),
    ;

    /// One step of the uninstall flow.
    fn uninstall_step(&self, phase: Phase, event: Event) -> (r: Result<
        (Phase, Action),
        InstallError,
    >)
        requires
            self.uninstall_accepts(phase, event@),
        ensures
            step_view(r) == self.uninstall_transition(phase, event@),
    ;
}

/// The concrete installer selected for a configuration, owning the matching
/// sub-configuration.
pub enum Installer {
    Linux(LinuxRoamProtocolInstaller),
    MacOS(MacOSRoamProtocolInstaller),
}

/// What a rejected configuration is told: a sub-configuration that is
/// present and matching but lacks its required field is named, any other
/// shape is an unrecognizable target.
pub open spec fn config_rejection_message(config: Config) -> Seq<char>
    recommends
        !config.well_formed(),
{
    match config.target {
        OsType::Linux => if config.linux_config is Some && config.macos_config is None {
            "The desktop file name must not be empty"@
        } else {
            "Can not detect OS type"@
        },
        OsType::Mac => if config.macos_config is Some && config.linux_config is None {
            "The emacsclient path must not be empty"@
        } else {
            "Can not detect OS type"@
        },
    }
}

/// Selects the installer matching the configuration's target.  A
/// configuration whose sub-configuration is missing, mismatched, or lacks
/// its required field is rejected before any installer exists, with a
/// message naming what is wrong.
pub fn make_installer(config: Config) -> (r: Result<Installer, InstallError>)
    ensures
        config.well_formed() ==> match r {
            Ok(inst) => match inst {
                Installer::Linux(i) => config.target == OsType::Linux && Some(i.config)
                    == config.linux_config,
                Installer::MacOS(i) => config.target == OsType::Mac && Some(i.config)
                    == config.macos_config,
            },
            Err(_) => false,
        },
        !config.well_formed() ==> (r matches Err(e) && e@ == (InstallErrorV::Configuration {
            message: config_rejection_message(config),
        })),
{
    match config.target {
        OsType::Linux => match (config.linux_config, config.macos_config) {
            (Some(linux_config), None) => if !linux_config.desktop_file_name.as_str().is_empty() {
                Ok(Installer::Linux(linux_installer::new(linux_config)))
            } else {
                Err(InstallError::Configuration {
                    message: String::from_str("The desktop file name must not be empty"),
                })
            },
            _ => Err(InstallError::Configuration {
                message: String::from_str("Can not detect OS type"),
            }),
        },
        OsType::Mac => match (config.macos_config, config.linux_config) {
            (Some(macos_config), None) => if !macos_config.emacsclient_path.as_str().is_empty() {
                Ok(Installer::MacOS(macos_installer::new(macos_config)))
            } else {
                Err(InstallError::Configuration {
                    message: String::from_str("The emacsclient path must not be empty"),
                })
            },
            _ => Err(InstallError::Configuration {
                message: String::from_str("Can not detect OS type"),
            }),
        },
    }
}

} // verus!
