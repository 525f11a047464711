//! The decisions of a run, as a state machine.
//!
//! A driver starts in `Phase::Start`, feeds each outcome of the outside work
//! to `Phase::step` as an `Event`, and performs the `Action` it gets back,
//! until the action is `Finish` or `Fail`.
use vstd::prelude::*;
use crate::error::{ErrorView, WrapError};
use crate::split::{parse_invocation, split_spec};
use vstd::utf8::*;
use crate::text::{
    all_white, artifact_path, artifact_spec, decode_lossy, lemma_trim_empty, lossy_spec, trim_ws,
};

verus! {

/// The environment variable that names the build tool.
pub const BUILD_TOOL_VAR: &'static str = "CARGO";

/// The build tool run when `BUILD_TOOL_VAR` is not set.
pub open spec fn default_build_tool() -> Seq<char> {
    "cargo"@
}

/// The build tool's subcommand when no build-tool arguments are given.
pub open spec fn default_build_command() -> Seq<char> {
    "build"@
}

/// The variable set in the build tool's environment to mark a wrapped build,
/// and its value.
pub open spec fn wrap_marker() -> (Seq<char>, Seq<char>) {
    ("CARGO_WRAP"@, "1"@)
}

/// A program to spawn, with its arguments and the variables to add to its
/// environment.
#[derive(Debug)]
pub struct Invocation {
    pub program: String,
    pub args: Vec<String>,
    pub env: Vec<(String, String)>,
}

pub struct InvocationView {
    pub program: Seq<char>,
    pub args: Seq<Seq<char>>,
    pub env: Seq<(Seq<char>, Seq<char>)>,
}

impl View for Invocation {
    type V = InvocationView;

    open spec fn view(&self) -> InvocationView {
        InvocationView {
            program: self.program@,
            args: self.args.deep_view(),
            env: self.env@.map_values(|p: (String, String)| (p.0@, p.1@)),
        }
    }
}

/// An optional string seen as an optional character sequence.
pub open spec fn opt_view(o: Option<String>) -> Option<Seq<char>> {
    match o {
        Some(s) => Some(s@),
        None => None,
    }
}

/// The build command: the named build tool (or the default one), given the
/// build-tool arguments (or the default subcommand when there are none), with
/// the wrap marker in its environment.
pub open spec fn build_invocation_spec(
    build_tool: Option<Seq<char>>,
    build_args: Seq<Seq<char>>,
) -> InvocationView {
    InvocationView {
        program: match build_tool {
            Some(t) => t,
            None => default_build_tool(),
        },
        args: if build_args.len() == 0 {
            seq![default_build_command()]
        } else {
            build_args
        },
        env: seq![wrap_marker()],
    }
}

/// Builds the command that runs the build tool.
pub fn build_invocation(build_tool: Option<String>, build_args: Vec<String>) -> (r: Invocation)
    ensures
        r@ == build_invocation_spec(opt_view(build_tool), build_args.deep_view()),
{
    let program = match build_tool {
        Some(t) => t,
        None => String::from_str("cargo"),
    };
    let args = if build_args.len() == 0 {
        let mut v: Vec<String> = Vec::new();
        v.push(String::from_str("build"));
        assert(v.deep_view() =~= seq![default_build_command()]);
        v
    } else {
        build_args
    };
    let mut env: Vec<(String, String)> = Vec::new();
    env.push((String::from_str("CARGO_WRAP"), String::from_str("1")));
    let r = Invocation { program, args, env };
    assert(r@.env =~= seq![wrap_marker()]);
    r
}

/// The secondary tool's command: the program and arguments that the dispatch
/// decision chose, with nothing added to its environment.
pub open spec fn secondary_invocation_spec(program: Seq<char>, args: Seq<Seq<char>>) -> InvocationView {
    InvocationView { program, args, env: Seq::empty() }
}

/// Builds the command that runs the secondary tool.
pub fn secondary_invocation(program: String, args: Vec<String>) -> (r: Invocation)
    ensures
        r@ == secondary_invocation_spec(program@, args.deep_view()),
{
    let r = Invocation { program, args, env: Vec::new() };
    assert(r@.env =~= Seq::<(Seq<char>, Seq<char>)>::empty());
    r
}

/// What inspecting the reported artifact path found.
#[derive(Debug)]
pub enum ArtifactStatus {
    /// The path exists and is not a directory.
    File,
    /// The path exists and is a directory.
    Directory,
    /// The path does not exist or its metadata cannot be read.
    Unreadable { reason: String },
}

pub enum ArtifactStatusView {
    File,
    Directory,
    Unreadable { reason: Seq<char> },
}

impl View for ArtifactStatus {
    type V = ArtifactStatusView;

    open spec fn view(&self) -> ArtifactStatusView {
        match self {
            ArtifactStatus::File => ArtifactStatusView::File,
            ArtifactStatus::Directory => ArtifactStatusView::Directory,
            ArtifactStatus::Unreadable { reason } => ArtifactStatusView::Unreadable {
                reason: reason@,
            },
        }
    }
}

/// An outcome of the outside work, handed to `Phase::step`.
#[derive(Debug)]
pub enum Event {
    /// The run begins: the arguments after the program name, and the value
    /// of `BUILD_TOOL_VAR` if it is set.
    Started { args: Vec<String>, build_tool: Option<String> },
    /// The build tool could not be spawned.
    BuildSpawnFailed { reason: String },
    /// The build tool exited; `code` is absent when a signal ended it.
    BuildExited { success: bool, code: Option<i32>, stdout: Vec<u8> },
    /// The reported artifact path was inspected.
    ArtifactChecked { status: ArtifactStatus },
    /// The dispatch decision chose a secondary tool and its arguments.
    Decided { program: String, args: Vec<String> },
    /// The secondary tool could not be spawned.
    SecondarySpawnFailed { reason: String },
    /// The secondary tool ran and exited, with whatever status.
    SecondaryExited,
}

pub enum EventView {
    Started { args: Seq<Seq<char>>, build_tool: Option<Seq<char>> },
    BuildSpawnFailed { reason: Seq<char> },
    BuildExited { success: bool, code: Option<i32>, stdout: Seq<u8> },
    ArtifactChecked { status: ArtifactStatusView },
    Decided { program: Seq<char>, args: Seq<Seq<char>> },
    SecondarySpawnFailed { reason: Seq<char> },
    SecondaryExited,
}

impl View for Event {
    type V = EventView;

    open spec fn view(&self) -> EventView {
        match self {
            Event::Started { args, build_tool } => EventView::Started {
                args: args.deep_view(),
                build_tool: opt_view(*build_tool),
            },
            Event::BuildSpawnFailed { reason } => EventView::BuildSpawnFailed { reason: reason@ },
            Event::BuildExited { success, code, stdout } => EventView::BuildExited {
                success: *success,
                code: *code,
                stdout: stdout@,
            },
            Event::ArtifactChecked { status } => EventView::ArtifactChecked { status: status@ },
            Event::Decided { program, args } => EventView::Decided {
                program: program@,
                args: args.deep_view(),
            },
            Event::SecondarySpawnFailed { reason } => EventView::SecondarySpawnFailed {
                reason: reason@,
            },
            Event::SecondaryExited => EventView::SecondaryExited,
        }
    }
}

/// What the driver must do next.
#[derive(Debug)]
pub enum Action {
    /// Spawn the build tool, capture its standard output, wait for it, and
    /// report `BuildSpawnFailed` or `BuildExited`.
    RunBuild(Invocation),
    /// Inspect the path and report `ArtifactChecked`.
    CheckArtifact { path: String },
    /// Hand the path and the tool arguments to the dispatch decision and
    /// report `Decided`.
    Dispatch { path: String, tool_args: Vec<String> },
    /// Spawn the secondary tool with inherited standard streams, wait for it,
    /// and report `SecondarySpawnFailed` or `SecondaryExited`.
    RunSecondary(Invocation),
    /// The run succeeded.
    Finish,
    /// The run failed with this error.
    Fail(WrapError),
}

pub enum ActionView {
    RunBuild(InvocationView),
    CheckArtifact { path: Seq<char> },
    Dispatch { path: Seq<char>, tool_args: Seq<Seq<char>> },
    RunSecondary(InvocationView),
    Finish,
    Fail(ErrorView),
}

impl View for Action {
    type V = ActionView;

    open spec fn view(&self) -> ActionView {
        match self {
            Action::RunBuild(inv) => ActionView::RunBuild(inv@),
            Action::CheckArtifact { path } => ActionView::CheckArtifact { path: path@ },
            Action::Dispatch { path, tool_args } => ActionView::Dispatch {
                path: path@,
                tool_args: tool_args.deep_view(),
            },
            Action::RunSecondary(inv) => ActionView::RunSecondary(inv@),
            Action::Finish => ActionView::Finish,
            Action::Fail(e) => ActionView::Fail(e@),
        }
    }
}

/// How far a run has come, with what the later steps need.
#[derive(Debug)]
pub enum Phase {
    /// Nothing has happened yet.
    Start,
    /// The arguments were split and the build tool `program` was asked for.
    ArgsParsed { program: String, tool_args: Vec<String> },
    /// The build succeeded and reported `path`, which is being inspected.
    BuildRan { path: String, tool_args: Vec<String> },
    /// `path` is a file; the dispatch decision is being asked for.
    ArtifactResolved { path: String, tool_args: Vec<String> },
    /// The secondary tool `program` was asked for.
    Dispatched { program: String },
    /// The run is over and succeeded.
    Done,
    /// The run is over and failed.
    Fatal,
}

pub enum PhaseView {
    Start,
    ArgsParsed { program: Seq<char>, tool_args: Seq<Seq<char>> },
    BuildRan { path: Seq<char>, tool_args: Seq<Seq<char>> },
    ArtifactResolved { path: Seq<char>, tool_args: Seq<Seq<char>> },
    Dispatched { program: Seq<char> },
    Done,
    Fatal,
}

impl View for Phase {
    type V = PhaseView;

    open spec fn view(&self) -> PhaseView {
        match self {
            Phase::Start => PhaseView::Start,
            Phase::ArgsParsed { program, tool_args } => PhaseView::ArgsParsed {
                program: program@,
                tool_args: tool_args.deep_view(),
            },
            Phase::BuildRan { path, tool_args } => PhaseView::BuildRan {
                path: path@,
                tool_args: tool_args.deep_view(),
            },
            Phase::ArtifactResolved { path, tool_args } => PhaseView::ArtifactResolved {
                path: path@,
                tool_args: tool_args.deep_view(),
            },
            Phase::Dispatched { program } => PhaseView::Dispatched { program: program@ },
            Phase::Done => PhaseView::Done,
            Phase::Fatal => PhaseView::Fatal,
        }
    }
}

/// True when the event is one that the phase waits for.
pub open spec fn accepts(p: PhaseView, e: EventView) -> bool {
    match p {
        PhaseView::Start => e is Started,
        PhaseView::ArgsParsed { .. } => e is BuildSpawnFailed || e is BuildExited,
        PhaseView::BuildRan { .. } => e is ArtifactChecked,
        PhaseView::ArtifactResolved { .. } => e is Decided,
        PhaseView::Dispatched { .. } => e is SecondarySpawnFailed || e is SecondaryExited,
        PhaseView::Done => false,
        PhaseView::Fatal => false,
    }
}

/// True when no event is waited for: the run is over.
pub open spec fn is_over(p: PhaseView) -> bool {
    forall|e: EventView| !accepts(p, e)
}

/// True when the action spawns a process.
pub open spec fn spawns(a: ActionView) -> bool {
    a is RunBuild || a is RunSecondary
}

/// The phase and action that follow an accepted event.
pub open spec fn next(p: PhaseView, e: EventView) -> (PhaseView, ActionView)
    recommends
        accepts(p, e),
{
    match (p, e) {
        (PhaseView::Start, EventView::Started { args, build_tool }) => {
            if args.len() == 0 {
                (PhaseView::Fatal, ActionView::Fail(ErrorView::Invocation))
            } else {
                let part = split_spec(args.skip(1));
                let inv = build_invocation_spec(build_tool, part.1);
                (
                    PhaseView::ArgsParsed { program: inv.program, tool_args: part.0 },
                    ActionView::RunBuild(inv),
                )
            }
        },
        (PhaseView::ArgsParsed { program, .. }, EventView::BuildSpawnFailed { reason }) => (
            PhaseView::Fatal,
            ActionView::Fail(ErrorView::ToolResolution { program, reason }),
        ),
        (
            PhaseView::ArgsParsed { tool_args, .. },
            EventView::BuildExited { success, code, stdout },
        ) => {
            if !success {
                (
                    PhaseView::Fatal,
                    ActionView::Fail(ErrorView::BuildFailure { code, output: lossy_spec(stdout) }),
                )
            } else {
                match artifact_spec(stdout) {
                    Ok(path) => (
                        PhaseView::BuildRan { path, tool_args },
                        ActionView::CheckArtifact { path },
                    ),
                    Err(err) => (PhaseView::Fatal, ActionView::Fail(err)),
                }
            }
        },
        (PhaseView::BuildRan { path, tool_args }, EventView::ArtifactChecked { status }) => {
            match status {
                ArtifactStatusView::File => (
                    PhaseView::ArtifactResolved { path, tool_args },
                    ActionView::Dispatch { path, tool_args },
                ),
                ArtifactStatusView::Directory => (
                    PhaseView::Fatal,
                    ActionView::Fail(ErrorView::ArtifactType { path }),
                ),
                ArtifactStatusView::Unreadable { reason } => (
                    PhaseView::Fatal,
                    ActionView::Fail(ErrorView::ArtifactNotFound { path, reason }),
                ),
            }
        },
        (PhaseView::ArtifactResolved { .. }, EventView::Decided { program, args }) => (
            PhaseView::Dispatched { program },
            ActionView::RunSecondary(secondary_invocation_spec(program, args)),
        ),
        (PhaseView::Dispatched { program }, EventView::SecondarySpawnFailed { reason }) => (
            PhaseView::Fatal,
            ActionView::Fail(ErrorView::SecondarySpawn { program, reason }),
        ),
        (PhaseView::Dispatched { .. }, EventView::SecondaryExited) => (
            PhaseView::Done,
            ActionView::Finish,
        ),
        _ => (p, ActionView::Finish),
    }
}

impl Phase {
    /// True when the event is one that this phase waits for.
    pub fn expects(&self, e: &Event) -> (r: bool)
        ensures
            r == accepts(self@, e@),
    {
        match self {
            Phase::Start => matches!(e, Event::Started { .. }),
            Phase::ArgsParsed { .. } => matches!(
                e,
                Event::BuildSpawnFailed { .. } | Event::BuildExited { .. }
            ),
            Phase::BuildRan { .. } => matches!(e, Event::ArtifactChecked { .. }),
            Phase::ArtifactResolved { .. } => matches!(e, Event::Decided { .. }),
            Phase::Dispatched { .. } => matches!(
                e,
                Event::SecondarySpawnFailed { .. } | Event::SecondaryExited
            ),
            Phase::Done => false,
            Phase::Fatal => false,
        }
    }

    /// Takes one outcome of the outside work and decides what follows.
    /// The fallback arms below are never taken: `requires` admits only the
    /// events that the phase waits for.
    pub fn step(self, e: Event) -> (r: (Phase, Action))
        requires
            accepts(self@, e@),
        ensures
            (r.0@, r.1@) == next(self@, e@),
    {
        match self {
            Phase::Start => match e {
                Event::Started { args, build_tool } => match parse_invocation(&args) {
                    Err(err) => (Phase::Fatal, Action::Fail(err)),
                    Ok(part) => {
                        let inv = build_invocation(build_tool, part.build_args);
                        let program = inv.program.clone();
                        (
                            Phase::ArgsParsed { program, tool_args: part.tool_args },
                            Action::RunBuild(inv),
                        )
                    },
                },
                _ => (Phase::Fatal, Action::Finish),
            },
            Phase::ArgsParsed { program, tool_args } => match e {
                Event::BuildSpawnFailed { reason } => (
                    Phase::Fatal,
                    Action::Fail(WrapError::ToolResolution { program, reason }),
                ),
                Event::BuildExited { success, code, stdout } => {
                    if !success {
                        let output = decode_lossy(&stdout);
                        (Phase::Fatal, Action::Fail(WrapError::BuildFailure { code, output }))
                    } else {
                        match artifact_path(&stdout) {
                            Ok(path) => {
                                let checked = path.clone();
                                (
                                    Phase::BuildRan { path, tool_args },
                                    Action::CheckArtifact { path: checked },
                                )
                            },
                            Err(err) => (Phase::Fatal, Action::Fail(err)),
                        }
                    }
                },
                _ => (Phase::Fatal, Action::Finish),
            },
            Phase::BuildRan { path, tool_args } => match e {
                Event::ArtifactChecked { status } => match status {
                    ArtifactStatus::File => {
                        let p = path.clone();
                        let t = tool_args.clone();
                        proof {
                            assert(t.deep_view() =~= tool_args.deep_view());
                        }
                        (
                            Phase::ArtifactResolved { path, tool_args },
                            Action::Dispatch { path: p, tool_args: t },
                        )
                    },
                    ArtifactStatus::Directory => (
                        Phase::Fatal,
                        Action::Fail(WrapError::ArtifactType { path }),
                    ),
                    ArtifactStatus::Unreadable { reason } => (
                        Phase::Fatal,
                        Action::Fail(WrapError::ArtifactNotFound { path, reason }),
                    ),
                },
                _ => (Phase::Fatal, Action::Finish),
            },
            Phase::ArtifactResolved { .. } => match e {
                Event::Decided { program, args } => {
                    let name = program.clone();
                    (
                        Phase::Dispatched { program: name },
                        Action::RunSecondary(secondary_invocation(program, args)),
                    )
                },
                _ => (Phase::Fatal, Action::Finish),
            },
            Phase::Dispatched { program } => match e {
                Event::SecondarySpawnFailed { reason } => (
                    Phase::Fatal,
                    Action::Fail(WrapError::SecondarySpawn { program, reason }),
                ),
                _ => (Phase::Done, Action::Finish),
            },
            Phase::Done => (Phase::Done, Action::Finish),
            Phase::Fatal => (Phase::Fatal, Action::Finish),
        }
    }
}

/// A failed run is over: it waits for no event, so nothing more is spawned.
pub proof fn lemma_fatal_is_over()
    ensures
        is_over(PhaseView::Fatal),
{
}

/// Without the caller's leading token the run fails with an invocation error
/// and spawns nothing.
pub proof fn lemma_missing_caller_token(build_tool: Option<Seq<char>>)
    ensures
        next(PhaseView::Start, EventView::Started { args: Seq::empty(), build_tool }) == (
        PhaseView::Fatal, ActionView::Fail(ErrorView::Invocation)),
        !spawns(ActionView::Fail(ErrorView::Invocation)),
        is_over(PhaseView::Fatal),
{
}

/// When the build tool exits unsuccessfully the run fails with its status and
/// decoded output: the artifact is not resolved and no secondary tool is
/// spawned.
pub proof fn lemma_build_failure_stops(
    program: Seq<char>,
    tool_args: Seq<Seq<char>>,
    code: Option<i32>,
    stdout: Seq<u8>,
)
    ensures
        next(
            PhaseView::ArgsParsed { program, tool_args },
            EventView::BuildExited { success: false, code, stdout },
        ) == (PhaseView::Fatal, ActionView::Fail(
            ErrorView::BuildFailure { code, output: lossy_spec(stdout) },
        )),
        is_over(PhaseView::Fatal),
{
}

/// When the build tool succeeds but prints only whitespace, the run fails
/// because no artifact path was reported.
pub proof fn lemma_blank_output_is_missing_artifact(
    program: Seq<char>,
    tool_args: Seq<Seq<char>>,
    code: Option<i32>,
    stdout: Seq<u8>,
)
    requires
        valid_utf8(stdout),
        all_white(decode_utf8(stdout)),
    ensures
        next(
            PhaseView::ArgsParsed { program, tool_args },
            EventView::BuildExited { success: true, code, stdout },
        ) == (PhaseView::Fatal, ActionView::Fail(ErrorView::ArtifactMissing)),
        is_over(PhaseView::Fatal),
{
    lemma_trim_empty(decode_utf8(stdout));
}

/// When the reported path is a directory the run fails with a type error and
/// no secondary tool is spawned.
pub proof fn lemma_directory_artifact_stops(path: Seq<char>, tool_args: Seq<Seq<char>>)
    ensures
        next(
            PhaseView::BuildRan { path, tool_args },
            EventView::ArtifactChecked { status: ArtifactStatusView::Directory },
        ) == (PhaseView::Fatal, ActionView::Fail(ErrorView::ArtifactType { path })),
        is_over(PhaseView::Fatal),
{
}

/// In a run whose build succeeds with a usable path that is a file, the
/// dispatch decision is asked for, with the trimmed path and the tool
/// arguments as they were split from the invocation.
pub proof fn lemma_dispatch_receives_split_arguments(
    args: Seq<Seq<char>>,
    build_tool: Option<Seq<char>>,
    code: Option<i32>,
    stdout: Seq<u8>,
)
    requires
        args.len() > 0,
        artifact_spec(stdout) is Ok,
    ensures
        ({
            let s1 = next(PhaseView::Start, EventView::Started { args, build_tool });
            let s2 = next(s1.0, EventView::BuildExited { success: true, code, stdout });
            let s3 = next(
                s2.0,
                EventView::ArtifactChecked { status: ArtifactStatusView::File },
            );
            &&& s1.1 is RunBuild
            &&& s2.1 == ActionView::CheckArtifact { path: trim_ws(decode_utf8(stdout)) }
            &&& s3.1 == ActionView::Dispatch {
                path: trim_ws(decode_utf8(stdout)),
                tool_args: split_spec(args.skip(1)).0,
            }
            &&& s3.0 is ArtifactResolved
        }),
{
}

} // verus!
