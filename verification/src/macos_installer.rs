//! The macOS installer: an AppleScript launcher compiled into a helper
//! application bundle, whose property list is then rewritten to associate
//! the `org-protocol` URL scheme with it.

use vstd::prelude::*;

use crate::RoamProtocolInstaller;
use crate::actions::{
    Action, ActionV, Event, EventV, InstallError, InstallErrorV, Phase, apply_action,
    apply_actions, lemma_apply_two,
};
use crate::config::MacOSConfig;
use crate::plist::{PlistError, ScanResult, plist_error_message, plist_error_text, rewrite_plist,
    rewritten, scan_from};
use crate::text::occurs_at;

verus! {

/// The launcher script up to the configured client path.
pub open spec fn script_head_view() -> Seq<char> {
    "\non open location this_URL\n    set EC to \""@
}

/// The flag the script passes to the client, spaced off on both sides.
pub open spec fn script_flag_view() -> Seq<char> {
    " --no-wait "@
}

/// One character of a path as it stands inside an AppleScript string
/// literal: a double quote or a backslash takes a backslash in front, any
/// other character stands as itself.
pub open spec fn escaped_char(c: char) -> Seq<char> {
    if c == '"' || c == '\\' {
        seq!['\\', c]
    } else {
        seq![c]
    }
}

/// A path quoted for AppleScript's string-literal syntax: every double
/// quote and every backslash is escaped with a backslash.
pub open spec fn applescript_escaped(path: Seq<char>) -> Seq<char>
    decreases path.len(),
{
    if path.len() == 0 {
        Seq::empty()
    } else {
        applescript_escaped(path.drop_last()) + escaped_char(path.last())
    }
}

/// A path holding neither a double quote nor a backslash is its own
/// escaping.
pub proof fn lemma_escaped_clean_path(path: Seq<char>)
    requires
        forall|k: int| 0 <= k < path.len() ==> path[k] != '"' && path[k] != '\\',
    ensures
        applescript_escaped(path) == path,
    decreases path.len(),
{
    if path.len() == 0 {
        assert(applescript_escaped(path) =~= path);
    } else {
        lemma_escaped_clean_path(path.drop_last());
        assert(escaped_char(path.last()) =~= seq![path.last()]);
        assert(path.drop_last() + seq![path.last()] =~= path);
    }
}

/// `path` quoted for AppleScript's string-literal syntax, as
/// `applescript_escaped` describes it.
pub fn escape_applescript(path: &str) -> (r: String)
    ensures
        r@ == applescript_escaped(path@),
{
    let n = path.unicode_len();
    let mut out = String::new();
    let mut i: usize = 0;
    while i < n
        invariant
            0 <= i <= n,
            n == path@.len(),
            out@ == applescript_escaped(path@.subrange(0, i as int)),
        decreases n - i,
    {
        let c = path.get_char(i);
        if c == '"' || c == '\\' {
            out.append("\\");
            proof {
                reveal_strlit("\\");
                assert("\\"@ =~= seq!['\\']);
            }
        }
        out.append(path.substring_char(i, i + 1));
        proof {
            let prefix = path@.subrange(0, i as int);
            let extended = path@.subrange(0, i + 1);
            assert(extended.drop_last() =~= prefix);
            assert(extended.last() == path@[i as int]);
            assert(path@.subrange(i as int, i + 1) =~= seq![path@[i as int]]);
            if c == '"' || c == '\\' {
                assert(out@ =~= applescript_escaped(prefix) + escaped_char(extended.last()));
            } else {
                assert(out@ =~= applescript_escaped(prefix) + escaped_char(extended.last()));
            }
        }
        i = i + 1;
    }
    proof {
        assert(path@.subrange(0, n as int) =~= path@);
    }
    out
}

/// The launcher script after the flag: hand the received URL to the shell
/// command and bring Emacs to the front.
pub open spec fn script_rest_view() -> Seq<char> {
    "\"\n    set filePath to quoted form of this_URL\n    do shell script EC & filePath\n    tell application \"Emacs\" to activate\nend open location\n"@
}

/// The whole launcher script for a client at `path`: it reacts to an
/// `open location` event by running the client with the flag and the URL.
/// The path stands inside the script's string literal, so it is spliced in
/// escaped for that syntax.
pub open spec fn script_view(path: Seq<char>) -> Seq<char> {
    script_head_view() + applescript_escaped(path) + script_flag_view() + script_rest_view()
}

/// The launcher script for a client at `path`, as text.
pub fn make_org_protocol_script(path: &str) -> (r: String)
    ensures
        r@ == script_view(path@),
{
    String::from_str("\non open location this_URL\n    set EC to \"").concat(
        escape_applescript(path).as_str(),
    ).concat(" --no-wait ").concat(
        "\"\n    set filePath to quoted form of this_URL\n    do shell script EC & filePath\n    tell application \"Emacs\" to activate\nend open location\n",
    )
}

/// The rendered script carries the configured client path in its escaped
/// form, and carries the `--no-wait` flag directly after it; a path holding
/// neither a double quote nor a backslash therefore stands in the script
/// verbatim.
pub proof fn lemma_script_contains_path_and_flag(path: Seq<char>)
    ensures
        occurs_at(script_view(path), applescript_escaped(path), script_head_view().len() as int),
        occurs_at(
            script_view(path),
            script_flag_view(),
            script_head_view().len() + applescript_escaped(path).len() as int,
        ),
        (forall|k: int| 0 <= k < path.len() ==> path[k] != '"' && path[k] != '\\') ==> occurs_at(
            script_view(path),
            path,
            script_head_view().len() as int,
        ),
{
    let s = script_view(path);
    let h = script_head_view().len() as int;
    let e = applescript_escaped(path);
    let p = e.len() as int;
    assert(s.subrange(h, h + p) =~= e);
    assert(s.subrange(h + p, h + p + script_flag_view().len() as int) =~= script_flag_view());
    if forall|k: int| 0 <= k < path.len() ==> path[k] != '"' && path[k] != '\\' {
        lemma_escaped_clean_path(path);
    }
}

/// Where the helper application bundle lives.
pub open spec fn bundle_path_view() -> Seq<char> {
    "/Applications/OrgProtocolClient.app"@
}

/// Where the helper application bundle lives, as text.
pub fn bundle_path() -> (r: &'static str)
    ensures
        r@ == bundle_path_view(),
{
    "/Applications/OrgProtocolClient.app"
}

/// Where the bundle's embedded property list lives.
pub open spec fn plist_path_view() -> Seq<char> {
    "/Applications/OrgProtocolClient.app/Contents/Info.plist"@
}

/// Where the bundle's embedded property list lives, as text.
pub fn plist_path() -> (r: &'static str)
    ensures
        r@ == plist_path_view(),
{
    "/Applications/OrgProtocolClient.app/Contents/Info.plist"
}

/// The installer for macOS, owning its configuration for one flow.
pub struct MacOSRoamProtocolInstaller {
    pub config: MacOSConfig,
}

/// A macOS installer for this configuration.
pub fn new(config: MacOSConfig) -> (r: MacOSRoamProtocolInstaller)
    requires
        config.emacsclient_path@.len() > 0,
    ensures
        r.config == config,
{
    MacOSRoamProtocolInstaller::new(config)
}

impl MacOSRoamProtocolInstaller {
    /// An installer owning `config`; a client path must already be present,
    /// for its absence is a configuration error, not an installer error.
    pub fn new(config: MacOSConfig) -> (r: MacOSRoamProtocolInstaller)
        requires
            config.emacsclient_path@.len() > 0,
        ensures
            r.config == config,
    {
        MacOSRoamProtocolInstaller { config }
    }

    /// The launcher script for the configured client.
    pub fn write_protocol_script(&self) -> (r: String)
        ensures
            r@ == script_view(self.config.emacsclient_path@),
    {
        make_org_protocol_script(self.config.emacsclient_path.as_str())
    }

    /// Inserts the URL-scheme association into the bundle's property list,
    /// as `crate::plist::rewrite_plist` describes it, mapping a failure to
    /// the matching installer error.
    pub fn rewrite_plist(&self, original: &str) -> (r: Result<String, InstallError>)
        ensures
            match r {
                Ok(out) => scan_from(original@, 0) is Found && out@ == rewritten(original@),
                Err(e) => {
                    &&& e@ matches InstallErrorV::MalformedInput { message }
                    &&& (scan_from(original@, 0) == ScanResult::NoDictionary || scan_from(
                        original@,
                        0,
                    ) == ScanResult::Malformed)
                    &&& (scan_from(original@, 0) == ScanResult::NoDictionary ==> message
                        == plist_error_message(PlistError::MissingDictionary))
                    &&& (scan_from(original@, 0) == ScanResult::Malformed ==> message
                        == plist_error_message(PlistError::Unparsable))
                },
            },
    {
        match rewrite_plist(original) {
            Ok(out) => Ok(out),
            Err(e) => Err(
                InstallError::MalformedInput { message: String::from_str(plist_error_text(e)) },
            ),
        }
    }
}

impl RoamProtocolInstaller for MacOSRoamProtocolInstaller {
    /// Install renders the launcher script, compiles it into the helper
    /// bundle with `osacompile`, reads the bundle's property list, and puts
    /// the rewritten list back in place; a rewrite failure aborts before
    /// anything is written over the original list.  The helper application
    /// is not launched: the finishing message asks the operator to run it
    /// once by hand.
    open spec fn install_transition(&self, phase: Phase, event: EventV) -> Result<
        (Phase, ActionV),
        InstallErrorV,
    > {
        match (phase, event) {
            (Phase::Ready, EventV::Begin) => Ok(
                (
                    Phase::WritingFile,
                    ActionV::WriteTempFile {
                        name_prefix: "org-protocol-script"@,
                        name_suffix: ".scpt"@,
                        content: script_view(self.config.emacsclient_path@),
                    },
                ),
            ),
            (Phase::WritingFile, EventV::CreatedAt { path }) => Ok(
                (
                    Phase::RunningTool,
                    ActionV::RunTool {
                        program: "osacompile"@,
                        args: seq!["-o"@, bundle_path_view(), path],
                    },
                ),
            ),
            (Phase::WritingFile, EventV::FsFailed { message }) => Err(
                InstallErrorV::Filesystem { message },
            ),
            (Phase::RunningTool, EventV::Succeeded) => Ok(
                (Phase::ReadingPlist, ActionV::ReadFile { path: plist_path_view() }),
            ),
            (Phase::RunningTool, EventV::ToolFailed { message }) => Err(
                InstallErrorV::ExternalTool { message },
            ),
            (Phase::ReadingPlist, EventV::ReadContent { content }) => match scan_from(content, 0) {
                ScanResult::Found { at } => Ok(
                    (
                        Phase::ReplacingPlist,
                        ActionV::ReplaceFile {
                            path: plist_path_view(),
                            content: rewritten(content),
                        },
                    ),
                ),
                ScanResult::NoDictionary => Err(
                    InstallErrorV::MalformedInput {
                        message: plist_error_message(PlistError::MissingDictionary),
                    },
                ),
                ScanResult::Malformed => Err(
                    InstallErrorV::MalformedInput {
                        message: plist_error_message(PlistError::Unparsable),
                    },
                ),
            },
            (Phase::ReadingPlist, EventV::FsFailed { message }) => Err(
                InstallErrorV::Filesystem { message },
            ),
            (Phase::ReplacingPlist, EventV::Succeeded) => Ok(
                (
                    Phase::Finished,
                    ActionV::Done {
                        message: "Please run the application at /Applications/OrgProtocolClient.app once by hand to finish associating the URL scheme."@,
                    },
                ),
            ),
            (Phase::ReplacingPlist, EventV::FsFailed { message }) => Err(
                InstallErrorV::Filesystem { message },
            ),
            _ => arbitrary(),
        }
    }

    open spec fn install_accepts(&self, phase: Phase, event: EventV) -> bool {
        match (phase, event) {
            (Phase::Ready, EventV::Begin) => true,
            (Phase::WritingFile, EventV::CreatedAt { .. }) => true,
            (Phase::WritingFile, EventV::FsFailed { .. }) => true,
            (Phase::RunningTool, EventV::Succeeded) => true,
            (Phase::RunningTool, EventV::ToolFailed { .. }) => true,
            (Phase::ReadingPlist, EventV::ReadContent { .. }) => true,
            (Phase::ReadingPlist, EventV::FsFailed { .. }) => true,
            (Phase::ReplacingPlist, EventV::Succeeded) => true,
            (Phase::ReplacingPlist, EventV::FsFailed { .. }) => true,
            _ => false,
        }
    }

    /// Uninstall removes the helper bundle, treating an absent bundle as
    /// success.
    open spec fn uninstall_transition(&self, phase: Phase, event: EventV) -> Result<
        (Phase, ActionV),
        InstallErrorV,
    > {
        match (phase, event) {
            (Phase::Ready, EventV::Begin) => Ok(
                (Phase::RemovingArtifact, ActionV::RemovePath { path: bundle_path_view() }),
            ),
            (Phase::RemovingArtifact, EventV::Succeeded) => Ok(
                (
                    Phase::Finished,
                    ActionV::Done { message: "Uninstall process finished successfully"@ },
                ),
            ),
            (Phase::RemovingArtifact, EventV::Missing) => Ok(
                (
                    Phase::Finished,
                    ActionV::Done { message: "Uninstall process finished successfully"@ },
                ),
            ),
            (Phase::RemovingArtifact, EventV::FsFailed { message }) => Err(
                InstallErrorV::Filesystem { message },
            ),
            _ => arbitrary(),
        }
    }

    open spec fn uninstall_accepts(&self, phase: Phase, event: EventV) -> bool {
        match (phase, event) {
            (Phase::Ready, EventV::Begin) => true,
            (Phase::RemovingArtifact, EventV::Succeeded) => true,
            (Phase::RemovingArtifact, EventV::Missing) => true,
            (Phase::RemovingArtifact, EventV::FsFailed { .. }) => true,
            _ => false,
        }
    }

    fn install_step(&self, phase: Phase, event: Event) -> (r: Result<
        (Phase, Action),
        InstallError,
    >) {
        match (phase, event) {
            (Phase::Ready, Event::Begin) => Ok(
                (
                    Phase::WritingFile,
                    Action::WriteTempFile {
                        name_prefix: String::from_str("org-protocol-script"),
                        name_suffix: String::from_str(".scpt"),
                        content: self.write_protocol_script(),
                    },
                ),
            ),
            (Phase::WritingFile, Event::CreatedAt { path }) => {
                let ghost path_view = path@;
                let mut args: Vec<String> = Vec::new();
                args.push(String::from_str("-o"));
                args.push(String::from_str(bundle_path()));
                args.push(path);
                proof {
                    assert(args.deep_view() =~~= seq!["-o"@, bundle_path_view(), path_view]);
                }
                Ok(
                    (
                        Phase::RunningTool,
                        Action::RunTool { program: String::from_str("osacompile"), args },
                    ),
                )
            },
            (Phase::WritingFile, Event::FsFailed { message }) => Err(
                InstallError::Filesystem { message },
            ),
            (Phase::RunningTool, Event::Succeeded) => Ok(
                (Phase::ReadingPlist, Action::ReadFile { path: String::from_str(plist_path()) }),
            ),
            (Phase::RunningTool, Event::ToolFailed { message }) => Err(
                InstallError::ExternalTool { message },
            ),
            (Phase::ReadingPlist, Event::ReadContent { content }) => {
                match rewrite_plist(content.as_str()) {
                    Ok(out) => Ok(
                        (
                            Phase::ReplacingPlist,
                            Action::ReplaceFile {
                                path: String::from_str(plist_path()),
                                content: out,
                            },
                        ),
                    ),
                    Err(PlistError::MissingDictionary) => Err(
                        InstallError::MalformedInput {
                            message: String::from_str(
                                plist_error_text(PlistError::MissingDictionary),
                            ),
                        },
                    ),
                    Err(PlistError::Unparsable) => Err(
                        InstallError::MalformedInput {
                            message: String::from_str(plist_error_text(PlistError::Unparsable)),
                        },
                    ),
                }
            },
            (Phase::ReadingPlist, Event::FsFailed { message }) => Err(
                InstallError::Filesystem { message },
            ),
            (Phase::ReplacingPlist, Event::Succeeded) => Ok(
                (
                    Phase::Finished,
                    Action::Done {
                        message: String::from_str(
                            "Please run the application at /Applications/OrgProtocolClient.app once by hand to finish associating the URL scheme.",
                        ),
                    },
                ),
            ),
            (Phase::ReplacingPlist, Event::FsFailed { message }) => Err(
                InstallError::Filesystem { message },
            ),
            (_, _) => Err(InstallError::Configuration { message: String::new() }),
        }
    }

    fn uninstall_step(&self, phase: Phase, event: Event) -> (r: Result<
        (Phase, Action),
        InstallError,
    >) {
        match (phase, event) {
            (Phase::Ready, Event::Begin) => Ok(
                (
                    Phase::RemovingArtifact,
                    Action::RemovePath { path: String::from_str(bundle_path()) },
                ),
            ),
            (Phase::RemovingArtifact, Event::Succeeded) => Ok(
                (
                    Phase::Finished,
                    Action::Done {
                        message: String::from_str("Uninstall process finished successfully"),
                    },
                ),
            ),
            (Phase::RemovingArtifact, Event::Missing) => Ok(
                (
                    Phase::Finished,
                    Action::Done {
                        message: String::from_str("Uninstall process finished successfully"),
                    },
                ),
            ),
            (Phase::RemovingArtifact, Event::FsFailed { message }) => Err(
                InstallError::Filesystem { message },
            ),
            (_, _) => Err(InstallError::Configuration { message: String::new() }),
        }
    }
}

/// The bundle's property list is only ever replaced with the rewrite of
/// exactly what was read from it, and a list that cannot be rewritten stops
/// the flow with a malformed-input error before any replacement is
/// requested: a failure can never leave the original list half-written.
pub proof fn lemma_replace_only_with_rewritten(
    inst: &MacOSRoamProtocolInstaller,
    content: Seq<char>,
)
    ensures
        scan_from(content, 0) is Found ==> inst.install_transition(
            Phase::ReadingPlist,
            EventV::ReadContent { content },
        ) == Ok::<_, InstallErrorV>(
            (
                Phase::ReplacingPlist,
                ActionV::ReplaceFile { path: plist_path_view(), content: rewritten(content) },
            ),
        ),
        !(scan_from(content, 0) is Found) ==> (inst.install_transition(
            Phase::ReadingPlist,
            EventV::ReadContent { content },
        ) matches Err(e) && e is MalformedInput),
{
}

/// The actions of one uninstall run that found nothing to remove.
pub open spec fn uninstall_run_actions(inst: &MacOSRoamProtocolInstaller) -> Seq<ActionV> {
    seq![
        inst.uninstall_transition(Phase::Ready, EventV::Begin)->Ok_0.1,
        inst.uninstall_transition(Phase::RemovingArtifact, EventV::Missing)->Ok_0.1,
    ]
}

/// Uninstalling when no helper bundle is installed succeeds — the absent
/// bundle is answered with a successful finish, not an error — and changes
/// no observable state.
pub proof fn lemma_uninstall_absent_is_success_and_noop(
    inst: &MacOSRoamProtocolInstaller,
    fs: Map<Seq<char>, Seq<char>>,
)
    requires
        !fs.contains_key(bundle_path_view()),
    ensures
        inst.uninstall_transition(Phase::RemovingArtifact, EventV::Missing) matches Ok(
            (phase, action),
        ) && phase == Phase::Finished && action is Done,
        apply_actions(fs, uninstall_run_actions(inst)) == fs,
{
    let run = uninstall_run_actions(inst);
    let a0 = run[0];
    let a1 = run[1];
    assert(run =~= seq![a0, a1]);
    lemma_apply_two(fs, a0, a1);
    assert(apply_action(fs, a0) == fs.remove(bundle_path_view()));
    assert(fs.remove(bundle_path_view()) =~= fs);
}

} // verus!
