//! The vocabulary of the install and uninstall state machines.
//!
//! An installer never touches the filesystem or spawns a process itself.
//! Each step hands the caller an `Action` to perform; the caller performs it
//! and reports what happened as an `Event`.  Ghost views of both, and a
//! small model of the filesystem, let the library state and prove what a
//! whole flow does.

use vstd::prelude::*;

verus! {

/// Where a flow stands between two steps.
#[derive(Debug, PartialEq, Eq, Structural, Clone, Copy)]
pub enum Phase {
    /// Nothing has happened yet; the flow accepts `Event::Begin`.
    Ready,
    /// A file write is in flight.
    WritingFile,
    /// An external tool is running.
    RunningTool,
    /// The helper bundle's property list is being read.
    ReadingPlist,
    /// The rewritten property list is being put in place.
    ReplacingPlist,
    /// The installed artifact is being removed.
    RemovingArtifact,
    /// The flow has handed out `Action::Done`.
    Finished,
}

/// What the caller must do next.
#[derive(Debug)]
pub enum Action {
    /// Create the file at `path` with exactly `content`, truncating anything
    /// already there.
    WriteFile { path: String, content: String },
    /// Create a uniquely named temporary file whose name starts and ends as
    /// given, write exactly `content` into it, and report where it landed.
    WriteTempFile { name_prefix: String, name_suffix: String, content: String },
    /// Run `program` with `args` and wait for it; exit status zero is
    /// success, anything else failure.
    RunTool { program: String, args: Vec<String> },
    /// Read the full contents of the file at `path`.
    ReadFile { path: String },
    /// Replace the file at `path` with exactly `content`, writing a
    /// temporary file first and renaming it into place, so that a failure
    /// mid-write cannot leave a truncated file.
    ReplaceFile { path: String, content: String },
    /// Remove the artifact at `path`; report `Event::Missing` if there is
    /// nothing there.
    RemovePath { path: String },
    /// The flow is complete; show `message` to the operator.
    Done { message: String },
}

/// What happened when the caller performed the previous action.
#[derive(Debug)]
pub enum Event {
    /// Starts a flow; accepted only in `Phase::Ready`.
    Begin,
    /// The action succeeded.
    Succeeded,
    /// The temporary file was created, at this path.
    CreatedAt { path: String },
    /// The file was read, with these contents.
    ReadContent { content: String },
    /// There was nothing to remove.
    Missing,
    /// The filesystem refused the action.
    FsFailed { message: String },
    /// The tool could not be spawned or exited with a nonzero status.
    ToolFailed { message: String },
}

/// Why a flow stopped.
#[derive(Debug)]
pub enum InstallError {
    /// The configuration does not fit the installer.
    Configuration { message: String },
    /// The filesystem refused an action.
    Filesystem { message: String },
    /// An external tool could not be spawned or exited with a nonzero
    /// status.
    ExternalTool { message: String },
    /// The property list to rewrite could not be parsed or lacks a
    /// dictionary element.
    MalformedInput { message: String },
}

/// The mathematical value of an `Action`.
pub ghost enum ActionV {
    WriteFile { path: Seq<char>, content: Seq<char> },
    WriteTempFile { name_prefix: Seq<char>, name_suffix: Seq<char>, content: Seq<char> },
    RunTool { program: Seq<char>, args: Seq<Seq<char>> },
    ReadFile { path: Seq<char> },
    ReplaceFile { path: Seq<char>, content: Seq<char> },
    RemovePath { path: Seq<char> },
    Done { message: Seq<char> },
}

/// The mathematical value of an `Event`.
pub ghost enum EventV {
    Begin,
    Succeeded,
    CreatedAt { path: Seq<char> },
    ReadContent { content: Seq<char> },
    Missing,
    FsFailed { message: Seq<char> },
    ToolFailed { message: Seq<char> },
}

/// The mathematical value of an `InstallError`.
pub ghost enum InstallErrorV {
    Configuration { message: Seq<char> },
    Filesystem { message: Seq<char> },
    ExternalTool { message: Seq<char> },
    MalformedInput { message: Seq<char> },
}

impl View for Action {
    type V = ActionV;

    open spec fn view(&self) -> ActionV {
        match self {
            Action::WriteFile { path, content } => ActionV::WriteFile {
                path: path@,
                content: content@,
            },
            Action::WriteTempFile { name_prefix, name_suffix, content } => ActionV::WriteTempFile {
                name_prefix: name_prefix@,
                name_suffix: name_suffix@,
                content: content@,
            },
            Action::RunTool { program, args } => ActionV::RunTool {
                program: program@,
                args: args.deep_view(),
            },
            Action::ReadFile { path } => ActionV::ReadFile { path: path@ },
            Action::ReplaceFile { path, content } => ActionV::ReplaceFile {
                path: path@,
                content: content@,
            },
            Action::RemovePath { path } => ActionV::RemovePath { path: path@ },
            Action::Done { message } => ActionV::Done { message: message@ },
        }
    }
}

impl View for Event {
    type V = EventV;

    open spec fn view(&self) -> EventV {
        match self {
            Event::Begin => EventV::Begin,
            Event::Succeeded => EventV::Succeeded,
            Event::CreatedAt { path } => EventV::CreatedAt { path: path@ },
            Event::ReadContent { content } => EventV::ReadContent { content: content@ },
            Event::Missing => EventV::Missing,
            Event::FsFailed { message } => EventV::FsFailed { message: message@ },
            Event::ToolFailed { message } => EventV::ToolFailed { message: message@ },
        }
    }
}

impl View for InstallError {
    type V = InstallErrorV;

    open spec fn view(&self) -> InstallErrorV {
        match self {
            InstallError::Configuration { message } => InstallErrorV::Configuration {
                message: message@,
            },
            InstallError::Filesystem { message } => InstallErrorV::Filesystem {
                message: message@,
            },
            InstallError::ExternalTool { message } => InstallErrorV::ExternalTool {
                message: message@,
            },
            InstallError::MalformedInput { message } => InstallErrorV::MalformedInput {
                message: message@,
            },
        }
    }
}

/// The mathematical value of one step's outcome.
pub open spec fn step_view(r: Result<(Phase, Action), InstallError>) -> Result<
    (Phase, ActionV),
    InstallErrorV,
> {
    match r {
        Ok((phase, action)) => Ok((phase, action@)),
        Err(e) => Err(e@),
    }
}

/// What an action does to the filesystem, modelled as a map from paths to
/// contents.  A temporary file lives at a caller-chosen fresh path outside
/// the model and is gone when the flow ends, so `WriteTempFile` leaves the
/// model unchanged, as do running a tool, reading, and finishing.
pub open spec fn apply_action(
    fs: Map<Seq<char>, Seq<char>>,
    action: ActionV,
) -> Map<Seq<char>, Seq<char>> {
    match action {
        ActionV::WriteFile { path, content } => fs.insert(path, content),
        ActionV::ReplaceFile { path, content } => fs.insert(path, content),
        ActionV::RemovePath { path } => fs.remove(path),
        _ => fs,
    }
}

/// The filesystem after performing `actions` in order.
pub open spec fn apply_actions(
    fs: Map<Seq<char>, Seq<char>>,
    actions: Seq<ActionV>,
) -> Map<Seq<char>, Seq<char>>
    decreases actions.len(),
{
    if actions.len() == 0 {
        fs
    } else {
        apply_actions(apply_action(fs, actions[0]), actions.drop_first())
    }
}

/// A two-action run performs its actions in order.
pub proof fn lemma_apply_two(
    fs: Map<Seq<char>, Seq<char>>,
    a0: ActionV,
    a1: ActionV,
)
    ensures
        apply_actions(fs, seq![a0, a1]) == apply_action(apply_action(fs, a0), a1),
{
    let run = seq![a0, a1];
    let fs1 = apply_action(fs, a0);
    let fs2 = apply_action(fs1, a1);
    assert(apply_actions(fs, run) == apply_actions(fs1, seq![a1])) by {
        assert(run[0] == a0);
        assert(run.drop_first() =~= seq![a1]);
    };
    assert(apply_actions(fs1, seq![a1]) == apply_actions(fs2, Seq::<ActionV>::empty())) by {
        assert(seq![a1][0] == a1);
        assert(seq![a1].drop_first() =~= Seq::<ActionV>::empty());
    };
    assert(apply_actions(fs2, Seq::<ActionV>::empty()) == fs2);
}

/// A three-action run performs its actions in order.
pub proof fn lemma_apply_three(
    fs: Map<Seq<char>, Seq<char>>,
    a0: ActionV,
    a1: ActionV,
    a2: ActionV,
)
    ensures
        apply_actions(fs, seq![a0, a1, a2]) == apply_action(
            apply_action(apply_action(fs, a0), a1),
            a2,
        ),
{
    let run = seq![a0, a1, a2];
    let fs1 = apply_action(fs, a0);
    assert(apply_actions(fs, run) == apply_actions(fs1, seq![a1, a2])) by {
        assert(run[0] == a0);
        assert(run.drop_first() =~= seq![a1, a2]);
    };
    lemma_apply_two(fs1, a1, a2);
}

} // verus!
