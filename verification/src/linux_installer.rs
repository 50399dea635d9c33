//! The Linux installer: a desktop-entry file plus a MIME-default
//! registration through the `xdg-mime` tool.

use vstd::prelude::*;

use crate::RoamProtocolInstaller;
use crate::actions::{
    Action, ActionV, Event, EventV, InstallError, InstallErrorV, Phase, apply_action,
    apply_actions, lemma_apply_three, lemma_apply_two,
};
use crate::config::{LinuxConfig, join_path};

verus! {

/// The fixed desktop-entry record that registers `org-protocol` with the
/// desktop environment.
pub open spec fn desktop_file_content_view() -> Seq<char> {
    "\n[Desktop Entry]\nName=Org-Protocol\nExec=emacsclient %u\nIcon=emacs-icon\nType=Application\nTerminal=false\nMimeType=x-scheme-handler/org-protocol\n"@
}

/// The fixed desktop-entry record as text.
pub fn desktop_file_content() -> (r: &'static str)
    ensures
        r@ == desktop_file_content_view(),
{
    "\n[Desktop Entry]\nName=Org-Protocol\nExec=emacsclient %u\nIcon=emacs-icon\nType=Application\nTerminal=false\nMimeType=x-scheme-handler/org-protocol\n"
}

/// The installer for Linux, owning its configuration for one flow.
pub struct LinuxRoamProtocolInstaller {
    pub config: LinuxConfig,
}

/// A Linux installer for this configuration.
pub fn new(config: LinuxConfig) -> (r: LinuxRoamProtocolInstaller)
    ensures
        r.config == config,
{
    LinuxRoamProtocolInstaller::new(config)
}

impl LinuxRoamProtocolInstaller {
    /// An installer owning `config`.
    pub fn new(config: LinuxConfig) -> (r: LinuxRoamProtocolInstaller)
        ensures
            r.config == config,
    {
        LinuxRoamProtocolInstaller { config }
    }

    /// Where the desktop-entry file goes.
    pub open spec fn desktop_file_path_view(&self) -> Seq<char> {
        join_path(self.config.desktop_entry_directory@, self.config.desktop_file_name@)
    }

    /// The full path of the desktop-entry file.
    pub fn get_desktop_file_path(&self) -> (r: String)
        ensures
            r@ == self.desktop_file_path_view(),
    {
        match self.config.get_desktop_file_path() {
            Some(p) => p,
            None => String::new(),
        }
    }
}

impl RoamProtocolInstaller for LinuxRoamProtocolInstaller {
    /// Install writes the desktop entry first and only then registers it as
    /// the scheme's MIME default; a filesystem failure or a tool failure
    /// stops the flow with the matching error.
    open spec fn install_transition(&self, phase: Phase, event: EventV) -> Result<
        (Phase, ActionV),
        InstallErrorV,
    > {
        match (phase, event) {
            (Phase::Ready, EventV::Begin) => Ok(
                (
                    Phase::WritingFile,
                    ActionV::WriteFile {
                        path: self.desktop_file_path_view(),
                        content: desktop_file_content_view(),
                    },
                ),
            ),
            (Phase::WritingFile, EventV::Succeeded) => Ok(
                (
                    Phase::RunningTool,
                    ActionV::RunTool {
                        program: "xdg-mime"@,
                        args: seq![
                            "default"@,
                            self.config.desktop_file_name@,
                            "x-scheme-handler/org-protocol"@,
                        ],
                    },
                ),
            ),
            (Phase::WritingFile, EventV::FsFailed { message }) => Err(
                InstallErrorV::Filesystem { message },
            ),
            (Phase::RunningTool, EventV::Succeeded) => Ok(
                (
                    Phase::Finished,
                    ActionV::Done { message: "Installation process finished successfully."@ },
                ),
            ),
            (Phase::RunningTool, EventV::ToolFailed { message }) => Err(
                InstallErrorV::ExternalTool { message },
            ),
            _ => arbitrary(),
        }
    }

    open spec fn install_accepts(&self, phase: Phase, event: EventV) -> bool {
        match (phase, event) {
            (Phase::Ready, EventV::Begin) => true,
            (Phase::WritingFile, EventV::Succeeded) => true,
            (Phase::WritingFile, EventV::FsFailed { .. }) => true,
            (Phase::RunningTool, EventV::Succeeded) => true,
            (Phase::RunningTool, EventV::ToolFailed { .. }) => true,
            _ => false,
        }
    }

    /// Uninstall removes the desktop entry, treating an absent file as
    /// success.
    open spec fn uninstall_transition(&self, phase: Phase, event: EventV) -> Result<
        (Phase, ActionV),
        InstallErrorV,
    > {
        match (phase, event) {
            (Phase::Ready, EventV::Begin) => Ok(
                (
                    Phase::RemovingArtifact,
                    ActionV::RemovePath { path: self.desktop_file_path_view() },
                ),
            ),
            (Phase::RemovingArtifact, EventV::Succeeded) => Ok(
                (
                    Phase::Finished,
                    ActionV::Done { message: "Uninstall process finished successfully"@ },
                ),
            ),
            (Phase::RemovingArtifact, EventV::Missing) => Ok(
                (
                    Phase::Finished,
                    ActionV::Done { message: "Uninstall process finished successfully"@ },
                ),
            ),
            (Phase::RemovingArtifact, EventV::FsFailed { message }) => Err(
                InstallErrorV::Filesystem { message },
            ),
            _ => arbitrary(),
        }
    }

    open spec fn uninstall_accepts(&self, phase: Phase, event: EventV) -> bool {
        match (phase, event) {
            (Phase::Ready, EventV::Begin) => true,
            (Phase::RemovingArtifact, EventV::Succeeded) => true,
            (Phase::RemovingArtifact, EventV::Missing) => true,
            (Phase::RemovingArtifact, EventV::FsFailed { .. }) => true,
            _ => false,
        }
    }

    fn install_step(&self, phase: Phase, event: Event) -> (r: Result<
        (Phase, Action),
        InstallError,
    >) {
        match (phase, event) {
            (Phase::Ready, Event::Begin) => {
                let path = self.get_desktop_file_path();
                let content = String::from_str(desktop_file_content());
                Ok((Phase::WritingFile, Action::WriteFile { path, content }))
            },
            (Phase::WritingFile, Event::Succeeded) => {
                let mut args: Vec<String> = Vec::new();
                args.push(String::from_str("default"));
                args.push(self.config.desktop_file_name.clone());
                args.push(String::from_str("x-scheme-handler/org-protocol"));
                proof {
                    assert(args.deep_view() =~~= seq![
                        "default"@,
                        self.config.desktop_file_name@,
                        "x-scheme-handler/org-protocol"@,
                    ]);
                }
                Ok(
                    (
                        Phase::RunningTool,
                        Action::RunTool { program: String::from_str("xdg-mime"), args },
                    ),
                )
            },
            (Phase::WritingFile, Event::FsFailed { message }) => Err(
                InstallError::Filesystem { message },
            ),
            (Phase::RunningTool, Event::Succeeded) => Ok(
                (
                    Phase::Finished,
                    Action::Done {
                        message: String::from_str("Installation process finished successfully."),
                    },
                ),
            ),
            (Phase::RunningTool, Event::ToolFailed { message }) => Err(
                InstallError::ExternalTool { message },
            ),
            (_, _) => Err(InstallError::Configuration { message: String::new() }),
        }
    }

    fn uninstall_step(&self, phase: Phase, event: Event) -> (r: Result<
        (Phase, Action),
        InstallError,
    >) {
        match (phase, event) {
            (Phase::Ready, Event::Begin) => {
                let path = self.get_desktop_file_path();
                Ok((Phase::RemovingArtifact, Action::RemovePath { path }))
            },
            (Phase::RemovingArtifact, Event::Succeeded) => Ok(
                (
                    Phase::Finished,
                    Action::Done {
                        message: String::from_str("Uninstall process finished successfully"),
                    },
                ),
            ),
            (Phase::RemovingArtifact, Event::Missing) => Ok(
                (
                    Phase::Finished,
                    Action::Done {
                        message: String::from_str("Uninstall process finished successfully"),
                    },
                ),
            ),
            (Phase::RemovingArtifact, Event::FsFailed { message }) => Err(
                InstallError::Filesystem { message },
            ),
            (_, _) => Err(InstallError::Configuration { message: String::new() }),
        }
    }
}

/// The actions of one successful install run, in order: write the desktop
/// entry, register it with `xdg-mime`, finish.
pub open spec fn install_run_actions(inst: &LinuxRoamProtocolInstaller) -> Seq<ActionV> {
    seq![
        inst.install_transition(Phase::Ready, EventV::Begin)->Ok_0.1,
        inst.install_transition(Phase::WritingFile, EventV::Succeeded)->Ok_0.1,
        inst.install_transition(Phase::RunningTool, EventV::Succeeded)->Ok_0.1,
    ]
}

/// Installing twice leaves the filesystem exactly as installing once left
/// it: the desktop entry is rewritten whole with the same fixed content,
/// never appended to.
pub proof fn lemma_install_idempotent(
    inst: &LinuxRoamProtocolInstaller,
    fs: Map<Seq<char>, Seq<char>>,
)
    ensures
        apply_actions(fs, install_run_actions(inst)) == fs.insert(
            inst.desktop_file_path_view(),
            desktop_file_content_view(),
        ),
        apply_actions(apply_actions(fs, install_run_actions(inst)), install_run_actions(inst))
            == apply_actions(fs, install_run_actions(inst)),
{
    let run = install_run_actions(inst);
    let a0 = run[0];
    let a1 = run[1];
    let a2 = run[2];
    assert(run =~= seq![a0, a1, a2]);
    lemma_apply_three(fs, a0, a1, a2);
    let p = inst.desktop_file_path_view();
    let c = desktop_file_content_view();
    let fs1 = apply_actions(fs, run);
    assert(fs1 == fs.insert(p, c));
    lemma_apply_three(fs1, a0, a1, a2);
    assert(fs1.insert(p, c) =~= fs1);
}

/// Registration is requested only right after the desktop entry was
/// written successfully, and the write is the install flow's first action:
/// the file exists before the MIME default is pointed at it.
pub proof fn lemma_write_precedes_registration(
    inst: &LinuxRoamProtocolInstaller,
    phase: Phase,
    event: EventV,
)
    requires
        inst.install_accepts(phase, event),
        inst.install_transition(phase, event) matches Ok((next, action)) && action is RunTool,
    ensures
        phase == Phase::WritingFile && event == EventV::Succeeded,
        inst.install_transition(Phase::Ready, EventV::Begin) matches Ok((next, action))
            && next == Phase::WritingFile && action is WriteFile,
{
}

/// The actions of one uninstall run that found nothing to remove.
pub open spec fn uninstall_run_actions(inst: &LinuxRoamProtocolInstaller) -> Seq<ActionV> {
    seq![
        inst.uninstall_transition(Phase::Ready, EventV::Begin)->Ok_0.1,
        inst.uninstall_transition(Phase::RemovingArtifact, EventV::Missing)->Ok_0.1,
    ]
}

/// Uninstalling when nothing is installed succeeds — an absent desktop
/// entry is answered with a successful finish, not a not-found error — and
/// changes no observable state.
pub proof fn lemma_uninstall_absent_is_success_and_noop(
    inst: &LinuxRoamProtocolInstaller,
    fs: Map<Seq<char>, Seq<char>>,
)
    requires
        !fs.contains_key(inst.desktop_file_path_view()),
    ensures
        inst.uninstall_transition(Phase::RemovingArtifact, EventV::Missing) matches Ok(
            (phase, action),
        ) && phase == Phase::Finished && action is Done,
        apply_actions(fs, uninstall_run_actions(inst)) == fs,
{
    let run = uninstall_run_actions(inst);
    let a0 = run[0];
    let a1 = run[1];
    assert(run =~= seq![a0, a1]);
    lemma_apply_two(fs, a0, a1);
    assert(apply_action(fs, a0) == fs.remove(inst.desktop_file_path_view()));
    assert(fs.remove(inst.desktop_file_path_view()) =~= fs);
}

} // verus!
