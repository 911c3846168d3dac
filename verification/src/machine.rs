//! The publish orchestration state machine.
//!
//! One publish run is a strictly ordered sequence: resolve the project's
//! configuration, write the game metadata, look up the configured toolchain,
//! mirror the project into a staging area inside the toolchain's installation
//! directory, clear the log and exception side channels on both sides, invoke
//! the toolchain's publish executable, mirror the build artifacts and any
//! side-channel output back into the project, and tear the staging area down
//! whatever happened since staging began.
//!
//! The machine itself performs no I/O. [`Publish::start`] and
//! [`Publish::step`] decide, from the current [`State`] and the [`Event`]
//! reporting how the previous operation went, which [`Action`] the caller
//! must perform next, or the final outcome of the run. The whole transition
//! relation is the specification function [`next_spec`]; `step` is proved to
//! follow it exactly.

use vstd::prelude::*;
use vstd::string::StringExecFns;
use crate::path::AbsPath;
use crate::path::clone_strings;

verus! {

// ---------------------------------------------------------------------------
// Names fixed by the workflow
// ---------------------------------------------------------------------------

/// The configuration file looked for under the project root.
pub open spec fn config_file_name() -> Seq<char> {
    "Smaug.toml"@
}

/// The directory under the project root that holds the game metadata.
pub open spec fn metadata_dir_name() -> Seq<char> {
    "metadata"@
}

/// The metadata file the toolchain expects inside the metadata directory.
pub open spec fn metadata_file_name() -> Seq<char> {
    "game_metadata.txt"@
}

/// The log side-channel directory name.
pub open spec fn logs_dir_name() -> Seq<char> {
    "logs"@
}

/// The exception-report side-channel directory name.
pub open spec fn exceptions_dir_name() -> Seq<char> {
    "exceptions"@
}

/// The directory the publish artifacts land in.
pub open spec fn builds_dir_name() -> Seq<char> {
    "builds"@
}

// ---------------------------------------------------------------------------
// Derived paths, at the specification level
// ---------------------------------------------------------------------------

/// `<root>/Smaug.toml`.
pub open spec fn config_path(root: Seq<Seq<char>>) -> Seq<Seq<char>> {
    root.push(config_file_name())
}

/// `<root>/metadata/game_metadata.txt`.
pub open spec fn metadata_path(root: Seq<Seq<char>>) -> Seq<Seq<char>> {
    root.push(metadata_dir_name()).push(metadata_file_name())
}

/// `<d>/logs`.
pub open spec fn logs_path(d: Seq<Seq<char>>) -> Seq<Seq<char>> {
    d.push(logs_dir_name())
}

/// `<d>/exceptions`.
pub open spec fn exceptions_path(d: Seq<Seq<char>>) -> Seq<Seq<char>> {
    d.push(exceptions_dir_name())
}

/// `<d>/builds`.
pub open spec fn builds_path(d: Seq<Seq<char>>) -> Seq<Seq<char>> {
    d.push(builds_dir_name())
}

/// The staging area for a project: a directory named after the project
/// root's base name, inside the toolchain's installation directory.
pub open spec fn stage_path(install_dir: Seq<Seq<char>>, root: Seq<Seq<char>>) -> Seq<Seq<char>> {
    install_dir.push(root.last())
}

// ---------------------------------------------------------------------------
// Run outcomes
// ---------------------------------------------------------------------------

/// A successful run: the configured project was published.
#[derive(Debug)]
pub struct PublishResult {
    pub project_name: String,
}

/// Abstract value of a [`PublishResult`].
pub struct PublishResultV {
    pub project_name: Seq<char>,
}

impl View for PublishResult {
    type V = PublishResultV;

    open spec fn view(&self) -> PublishResultV {
        PublishResultV { project_name: self.project_name@ }
    }
}

/// A classified failure of a run. The first three are the terminal
/// conditions the workflow distinguishes; the rest classify the filesystem
/// and process faults that would otherwise abort a run without a result.
#[derive(Debug)]
pub enum Error {
    /// The configuration at the given path was missing or would not load.
    ConfigError { path: AbsPath },
    /// The toolchain version the configuration declares is not installed.
    ConfiguredDragonRubyNotFound,
    /// The toolchain ran but exited with a non-success status.
    PublishError { project_name: String },
    /// The game metadata could not be written at the given path.
    MetadataError { path: AbsPath },
    /// Mirroring the project into the staging area, or clearing the side
    /// channels before the run, failed.
    StagingFailed,
    /// The toolchain process could not even be started.
    InvokeFailed,
    /// Mirroring artifacts or side-channel output back into the project
    /// failed.
    ReconciliationFailed,
    /// Tearing the staging area down failed.
    CleanupFailed,
}

/// Abstract value of an [`Error`].
pub enum ErrorV {
    ConfigError { path: Seq<Seq<char>> },
    ConfiguredDragonRubyNotFound,
    PublishError { project_name: Seq<char> },
    MetadataError { path: Seq<Seq<char>> },
    StagingFailed,
    InvokeFailed,
    ReconciliationFailed,
    CleanupFailed,
}

impl View for Error {
    type V = ErrorV;

    open spec fn view(&self) -> ErrorV {
        match self {
            Error::ConfigError { path } => ErrorV::ConfigError { path: path@ },
            Error::ConfiguredDragonRubyNotFound => ErrorV::ConfiguredDragonRubyNotFound,
            Error::PublishError { project_name } => ErrorV::PublishError {
                project_name: project_name@,
            },
            Error::MetadataError { path } => ErrorV::MetadataError { path: path@ },
            Error::StagingFailed => ErrorV::StagingFailed,
            Error::InvokeFailed => ErrorV::InvokeFailed,
            Error::ReconciliationFailed => ErrorV::ReconciliationFailed,
            Error::CleanupFailed => ErrorV::CleanupFailed,
        }
    }
}

// ---------------------------------------------------------------------------
// Actions and events
// ---------------------------------------------------------------------------

/// One outside operation the orchestrator asks its caller to perform.
#[derive(Debug)]
pub enum Action {
    /// Load and parse the configuration file at `path`.
    LoadConfig { path: AbsPath },
    /// Derive the game metadata from the configuration and write it to
    /// `path`.
    WriteMetadata { path: AbsPath },
    /// Look up the installed toolchain matching `version`.
    ResolveToolchain { version: String },
    /// Recursively copy the directory `src` into `dst`, creating `dst` and
    /// overwriting colliding files.
    MirrorDir { src: AbsPath, dst: AbsPath },
    /// Remove `path` and everything under it; succeed if it is absent.
    ClearPath { path: AbsPath },
    /// Report whether `path` exists as a directory.
    ProbeDir { path: AbsPath },
    /// Run `bin` with working directory `workdir`, first argument
    /// `staged_name`, then `pass_through`; suppress its standard output when
    /// `quiet` holds, and wait for it to exit.
    Invoke {
        bin: AbsPath,
        workdir: AbsPath,
        staged_name: String,
        pass_through: Vec<String>,
        quiet: bool,
    },
}

/// Abstract value of an [`Action`].
pub enum ActionV {
    LoadConfig { path: Seq<Seq<char>> },
    WriteMetadata { path: Seq<Seq<char>> },
    ResolveToolchain { version: Seq<char> },
    MirrorDir { src: Seq<Seq<char>>, dst: Seq<Seq<char>> },
    ClearPath { path: Seq<Seq<char>> },
    ProbeDir { path: Seq<Seq<char>> },
    Invoke {
        bin: Seq<Seq<char>>,
        workdir: Seq<Seq<char>>,
        staged_name: Seq<char>,
        pass_through: Seq<Seq<char>>,
        quiet: bool,
    },
}

impl View for Action {
    type V = ActionV;

    open spec fn view(&self) -> ActionV {
        match self {
            Action::LoadConfig { path } => ActionV::LoadConfig { path: path@ },
            Action::WriteMetadata { path } => ActionV::WriteMetadata { path: path@ },
            Action::ResolveToolchain { version } => ActionV::ResolveToolchain {
                version: version@,
            },
            Action::MirrorDir { src, dst } => ActionV::MirrorDir { src: src@, dst: dst@ },
            Action::ClearPath { path } => ActionV::ClearPath { path: path@ },
            Action::ProbeDir { path } => ActionV::ProbeDir { path: path@ },
            Action::Invoke { bin, workdir, staged_name, pass_through, quiet } => ActionV::Invoke {
                bin: bin@,
                workdir: workdir@,
                staged_name: staged_name@,
                pass_through: pass_through.deep_view(),
                quiet: *quiet,
            },
        }
    }
}

/// What the caller reports back about the action it performed.
#[derive(Debug)]
pub enum Event {
    /// The configuration loaded; it declares this project name and this
    /// toolchain version requirement.
    ConfigLoaded { project_name: String, toolchain_version: String },
    /// The configuration was missing or would not parse.
    ConfigFailed,
    /// The metadata file was written.
    MetadataWritten,
    /// The metadata file could not be written.
    MetadataFailed,
    /// The declared toolchain version is installed here, with this
    /// installation directory and this publish executable name.
    ToolchainFound { install_dir: AbsPath, publish_bin: String },
    /// The declared toolchain version is not installed.
    ToolchainMissing,
    /// The mirror or removal completed.
    IoOk,
    /// The mirror or removal failed.
    IoFailed,
    /// The probed path exists as a directory.
    DirPresent,
    /// The probed path does not exist as a directory.
    DirAbsent,
    /// The toolchain process ran to completion with this exit status.
    Exited { success: bool },
    /// The toolchain process could not be started.
    SpawnFailed,
}

/// Abstract value of an [`Event`].
pub enum EventV {
    ConfigLoaded { project_name: Seq<char>, toolchain_version: Seq<char> },
    ConfigFailed,
    MetadataWritten,
    MetadataFailed,
    ToolchainFound { install_dir: Seq<Seq<char>>, publish_bin: Seq<char> },
    ToolchainMissing,
    IoOk,
    IoFailed,
    DirPresent,
    DirAbsent,
    Exited { success: bool },
    SpawnFailed,
}

impl View for Event {
    type V = EventV;

    open spec fn view(&self) -> EventV {
        match self {
            Event::ConfigLoaded { project_name, toolchain_version } => EventV::ConfigLoaded {
                project_name: project_name@,
                toolchain_version: toolchain_version@,
            },
            Event::ConfigFailed => EventV::ConfigFailed,
            Event::MetadataWritten => EventV::MetadataWritten,
            Event::MetadataFailed => EventV::MetadataFailed,
            Event::ToolchainFound { install_dir, publish_bin } => EventV::ToolchainFound {
                install_dir: install_dir@,
                publish_bin: publish_bin@,
            },
            Event::ToolchainMissing => EventV::ToolchainMissing,
            Event::IoOk => EventV::IoOk,
            Event::IoFailed => EventV::IoFailed,
            Event::DirPresent => EventV::DirPresent,
            Event::DirAbsent => EventV::DirAbsent,
            Event::Exited { success } => EventV::Exited { success: *success },
            Event::SpawnFailed => EventV::SpawnFailed,
        }
    }
}

// ---------------------------------------------------------------------------
// States
// ---------------------------------------------------------------------------

/// The failure recorded while the run heads for teardown: staging begun, the
/// run must still reach the teardown state before it may report.
#[derive(Clone, Copy, Debug, PartialEq, Eq, Structural)]
pub enum Pending {
    /// No failure so far: the exit status will decide the outcome.
    Nothing,
    /// Staging the project or clearing a side channel failed.
    Staging,
    /// The toolchain process could not be started.
    Invoke,
    /// Mirroring output back into the project failed.
    Reconcile,
}

/// What a run resolved before staging began: the configured project name,
/// the toolchain's installation directory and publish executable, and the
/// staging area derived from them.
#[derive(Debug)]
pub struct RunCtx {
    pub project_name: String,
    pub install_dir: AbsPath,
    pub publish_bin: String,
    pub stage: AbsPath,
}

/// Abstract value of a [`RunCtx`].
pub struct RunCtxV {
    pub project_name: Seq<char>,
    pub install_dir: Seq<Seq<char>>,
    pub publish_bin: Seq<char>,
    pub stage: Seq<Seq<char>>,
}

impl View for RunCtx {
    type V = RunCtxV;

    open spec fn view(&self) -> RunCtxV {
        RunCtxV {
            project_name: self.project_name@,
            install_dir: self.install_dir@,
            publish_bin: self.publish_bin@,
            stage: self.stage@,
        }
    }
}

/// Where a run stands: each state awaits the event for exactly one action.
/// The order of the variants is the order of the run.
#[derive(Debug)]
pub enum State {
    /// Awaiting the configuration load.
    AwaitConfig,
    /// Awaiting the metadata write.
    AwaitMetadata { project_name: String, toolchain_version: String },
    /// Awaiting the toolchain lookup.
    AwaitToolchain { project_name: String, toolchain_version: String },
    /// Awaiting the mirror of the project root into the staging area.
    AwaitStageMirror { ctx: RunCtx },
    /// Awaiting the clearing of the staging area's log directory.
    AwaitStageLogsClear { ctx: RunCtx },
    /// Awaiting the clearing of the staging area's exception directory.
    AwaitStageExceptionsClear { ctx: RunCtx },
    /// Awaiting the pre-run clearing of the project's log directory.
    AwaitLocalLogsClear { ctx: RunCtx },
    /// Awaiting the pre-run clearing of the project's exception directory.
    AwaitLocalExceptionsClear { ctx: RunCtx },
    /// Awaiting the toolchain process's exit.
    AwaitExit { ctx: RunCtx },
    /// Awaiting the mirror of the staged build artifacts into the project.
    AwaitBuildsMirror { ctx: RunCtx, exit_ok: bool },
    /// Awaiting the post-run clearing of the project's log directory.
    AwaitPostLogsClear { ctx: RunCtx, exit_ok: bool },
    /// Awaiting the post-run clearing of the project's exception directory.
    AwaitPostExceptionsClear { ctx: RunCtx, exit_ok: bool },
    /// Awaiting the probe of the staging area's log directory.
    AwaitLogsProbe { ctx: RunCtx, exit_ok: bool },
    /// Awaiting the mirror of the staged logs into the project.
    AwaitLogsMirror { ctx: RunCtx, exit_ok: bool },
    /// Awaiting the probe of the staging area's exception directory.
    AwaitExceptionsProbe { ctx: RunCtx, exit_ok: bool },
    /// Awaiting the mirror of the staged exception reports into the project.
    AwaitExceptionsMirror { ctx: RunCtx, exit_ok: bool },
    /// Awaiting the removal of the whole staging area.
    AwaitTeardown { ctx: RunCtx, exit_ok: bool, pending: Pending },
}

/// Abstract value of a [`State`].
pub enum StateV {
    AwaitConfig,
    AwaitMetadata { project_name: Seq<char>, toolchain_version: Seq<char> },
    AwaitToolchain { project_name: Seq<char>, toolchain_version: Seq<char> },
    AwaitStageMirror { ctx: RunCtxV },
    AwaitStageLogsClear { ctx: RunCtxV },
    AwaitStageExceptionsClear { ctx: RunCtxV },
    AwaitLocalLogsClear { ctx: RunCtxV },
    AwaitLocalExceptionsClear { ctx: RunCtxV },
    AwaitExit { ctx: RunCtxV },
    AwaitBuildsMirror { ctx: RunCtxV, exit_ok: bool },
    AwaitPostLogsClear { ctx: RunCtxV, exit_ok: bool },
    AwaitPostExceptionsClear { ctx: RunCtxV, exit_ok: bool },
    AwaitLogsProbe { ctx: RunCtxV, exit_ok: bool },
    AwaitLogsMirror { ctx: RunCtxV, exit_ok: bool },
    AwaitExceptionsProbe { ctx: RunCtxV, exit_ok: bool },
    AwaitExceptionsMirror { ctx: RunCtxV, exit_ok: bool },
    AwaitTeardown { ctx: RunCtxV, exit_ok: bool, pending: Pending },
}

impl View for State {
    type V = StateV;

    open spec fn view(&self) -> StateV {
        match self {
            State::AwaitConfig => StateV::AwaitConfig,
            State::AwaitMetadata { project_name, toolchain_version } => StateV::AwaitMetadata {
                project_name: project_name@,
                toolchain_version: toolchain_version@,
            },
            State::AwaitToolchain { project_name, toolchain_version } => StateV::AwaitToolchain {
                project_name: project_name@,
                toolchain_version: toolchain_version@,
            },
            State::AwaitStageMirror { ctx } => StateV::AwaitStageMirror { ctx: ctx@ },
            State::AwaitStageLogsClear { ctx } => StateV::AwaitStageLogsClear { ctx: ctx@ },
            State::AwaitStageExceptionsClear { ctx } => StateV::AwaitStageExceptionsClear {
                ctx: ctx@,
            },
            State::AwaitLocalLogsClear { ctx } => StateV::AwaitLocalLogsClear { ctx: ctx@ },
            State::AwaitLocalExceptionsClear { ctx } => StateV::AwaitLocalExceptionsClear {
                ctx: ctx@,
            },
            State::AwaitExit { ctx } => StateV::AwaitExit { ctx: ctx@ },
            State::AwaitBuildsMirror { ctx, exit_ok } => StateV::AwaitBuildsMirror {
                ctx: ctx@,
                exit_ok: *exit_ok,
            },
            State::AwaitPostLogsClear { ctx, exit_ok } => StateV::AwaitPostLogsClear {
                ctx: ctx@,
                exit_ok: *exit_ok,
            },
            State::AwaitPostExceptionsClear { ctx, exit_ok } => StateV::AwaitPostExceptionsClear {
                ctx: ctx@,
                exit_ok: *exit_ok,
            },
            State::AwaitLogsProbe { ctx, exit_ok } => StateV::AwaitLogsProbe {
                ctx: ctx@,
                exit_ok: *exit_ok,
            },
            State::AwaitLogsMirror { ctx, exit_ok } => StateV::AwaitLogsMirror {
                ctx: ctx@,
                exit_ok: *exit_ok,
            },
            State::AwaitExceptionsProbe { ctx, exit_ok } => StateV::AwaitExceptionsProbe {
                ctx: ctx@,
                exit_ok: *exit_ok,
            },
            State::AwaitExceptionsMirror { ctx, exit_ok } => StateV::AwaitExceptionsMirror {
                ctx: ctx@,
                exit_ok: *exit_ok,
            },
            State::AwaitTeardown { ctx, exit_ok, pending } => StateV::AwaitTeardown {
                ctx: ctx@,
                exit_ok: *exit_ok,
                pending: *pending,
            },
        }
    }
}

/// What one call of [`Publish::step`] yields: the next state and the action
/// to perform, or the run's final outcome.
#[derive(Debug)]
pub enum Step {
    Do(State, Action),
    Done(Result<PublishResult, Error>),
}

/// Abstract value of a [`Step`].
pub enum StepV {
    Do(StateV, ActionV),
    Done(Result<PublishResultV, ErrorV>),
}

impl View for Step {
    type V = StepV;

    open spec fn view(&self) -> StepV {
        match self {
            Step::Do(st, a) => StepV::Do(st@, a@),
            Step::Done(r) => StepV::Done(
                match r {
                    Ok(x) => Ok(x@),
                    Err(e) => Err(e@),
                },
            ),
        }
    }
}

// ---------------------------------------------------------------------------
// The orchestrator
// ---------------------------------------------------------------------------

/// One publish run's fixed inputs: the project root directory, the
/// pass-through arguments for the toolchain, and whether its standard output
/// is suppressed.
#[derive(Debug)]
pub struct Publish {
    pub root: AbsPath,
    pub pass_through: Vec<String>,
    pub quiet: bool,
}

/// Abstract value of a [`Publish`].
pub struct PublishV {
    pub root: Seq<Seq<char>>,
    pub pass_through: Seq<Seq<char>>,
    pub quiet: bool,
}

impl View for Publish {
    type V = PublishV;

    open spec fn view(&self) -> PublishV {
        PublishV {
            root: self.root@,
            pass_through: self.pass_through.deep_view(),
            quiet: self.quiet,
        }
    }
}

/// The outcome the teardown state reports once the staging area's removal
/// has been attempted: the failure recorded on the way here wins; otherwise
/// a failed removal is a cleanup failure; otherwise the toolchain's exit
/// status decides, carrying the configured project name either way.
pub open spec fn report(
    ctx: RunCtxV,
    exit_ok: bool,
    pending: Pending,
    removal_ok: bool,
) -> Result<PublishResultV, ErrorV> {
    match pending {
        Pending::Staging => Err(ErrorV::StagingFailed),
        Pending::Invoke => Err(ErrorV::InvokeFailed),
        Pending::Reconcile => Err(ErrorV::ReconciliationFailed),
        Pending::Nothing => if !removal_ok {
            Err(ErrorV::CleanupFailed)
        } else if exit_ok {
            Ok(PublishResultV { project_name: ctx.project_name })
        } else {
            Err(ErrorV::PublishError { project_name: ctx.project_name })
        },
    }
}

/// The entry into the teardown state: whatever stands, the staging area's
/// removal is requested next.
pub open spec fn teardown_step(ctx: RunCtxV, exit_ok: bool, pending: Pending) -> StepV {
    StepV::Do(
        StateV::AwaitTeardown { ctx, exit_ok, pending },
        ActionV::ClearPath { path: ctx.stage },
    )
}

/// The machine's transition relation: from the run's inputs `p`, the state
/// `st` and the event `ev`, the next state and action, or the final
/// outcome. `None` exactly when `ev` does not answer the action `st`
/// awaits.
pub open spec fn next_spec(p: PublishV, st: StateV, ev: EventV) -> Option<StepV> {
    match st {
        StateV::AwaitConfig => match ev {
            EventV::ConfigLoaded { project_name, toolchain_version } => Some(
                StepV::Do(
                    StateV::AwaitMetadata { project_name, toolchain_version },
                    ActionV::WriteMetadata { path: metadata_path(p.root) },
                ),
            ),
            EventV::ConfigFailed => Some(
                StepV::Done(Err(ErrorV::ConfigError { path: config_path(p.root) })),
            ),
            _ => None,
        },
        StateV::AwaitMetadata { project_name, toolchain_version } => match ev {
            EventV::MetadataWritten => Some(
                StepV::Do(
                    StateV::AwaitToolchain { project_name, toolchain_version },
                    ActionV::ResolveToolchain { version: toolchain_version },
                ),
            ),
            EventV::MetadataFailed => Some(
                StepV::Done(Err(ErrorV::MetadataError { path: metadata_path(p.root) })),
            ),
            _ => None,
        },
        StateV::AwaitToolchain { project_name, toolchain_version } => match ev {
            EventV::ToolchainFound { install_dir, publish_bin } => Some(
                ({
                    let ctx = RunCtxV {
                        project_name,
                        install_dir,
                        publish_bin,
                        stage: stage_path(install_dir, p.root),
                    };
                    StepV::Do(
                        StateV::AwaitStageMirror { ctx },
                        ActionV::MirrorDir { src: p.root, dst: ctx.stage },
                    )
                }),
            ),
            EventV::ToolchainMissing => Some(
                StepV::Done(Err(ErrorV::ConfiguredDragonRubyNotFound)),
            ),
            _ => None,
        },
        StateV::AwaitStageMirror { ctx } => match ev {
            EventV::IoOk => Some(
                StepV::Do(
                    StateV::AwaitStageLogsClear { ctx },
                    ActionV::ClearPath { path: logs_path(ctx.stage) },
                ),
            ),
            EventV::IoFailed => Some(teardown_step(ctx, false, Pending::Staging)),
            _ => None,
        },
        StateV::AwaitStageLogsClear { ctx } => match ev {
            EventV::IoOk => Some(
                StepV::Do(
                    StateV::AwaitStageExceptionsClear { ctx },
                    ActionV::ClearPath { path: exceptions_path(ctx.stage) },
                ),
            ),
            EventV::IoFailed => Some(teardown_step(ctx, false, Pending::Staging)),
            _ => None,
        },
        StateV::AwaitStageExceptionsClear { ctx } => match ev {
            EventV::IoOk => Some(
                StepV::Do(
                    StateV::AwaitLocalLogsClear { ctx },
                    ActionV::ClearPath { path: logs_path(p.root) },
                ),
            ),
            EventV::IoFailed => Some(teardown_step(ctx, false, Pending::Staging)),
            _ => None,
        },
        StateV::AwaitLocalLogsClear { ctx } => match ev {
            EventV::IoOk => Some(
                StepV::Do(
                    StateV::AwaitLocalExceptionsClear { ctx },
                    ActionV::ClearPath { path: exceptions_path(p.root) },
                ),
            ),
            EventV::IoFailed => Some(teardown_step(ctx, false, Pending::Staging)),
            _ => None,
        },
        StateV::AwaitLocalExceptionsClear { ctx } => match ev {
            EventV::IoOk => Some(
                StepV::Do(
                    StateV::AwaitExit { ctx },
                    ActionV::Invoke {
                        bin: ctx.install_dir.push(ctx.publish_bin),
                        workdir: ctx.install_dir,
                        staged_name: p.root.last(),
                        pass_through: p.pass_through,
                        quiet: p.quiet,
                    },
                ),
            ),
            EventV::IoFailed => Some(teardown_step(ctx, false, Pending::Staging)),
            _ => None,
        },
        StateV::AwaitExit { ctx } => match ev {
            EventV::Exited { success } => Some(
                StepV::Do(
                    StateV::AwaitBuildsMirror { ctx, exit_ok: success },
                    ActionV::MirrorDir {
                        src: builds_path(ctx.stage),
                        dst: builds_path(p.root),
                    },
                ),
            ),
            EventV::SpawnFailed => Some(teardown_step(ctx, false, Pending::Invoke)),
            _ => None,
        },
        StateV::AwaitBuildsMirror { ctx, exit_ok } => match ev {
            EventV::IoOk => Some(
                StepV::Do(
                    StateV::AwaitPostLogsClear { ctx, exit_ok },
                    ActionV::ClearPath { path: logs_path(p.root) },
                ),
            ),
            EventV::IoFailed => Some(teardown_step(ctx, exit_ok, Pending::Reconcile)),
            _ => None,
        },
        StateV::AwaitPostLogsClear { ctx, exit_ok } => match ev {
            EventV::IoOk => Some(
                StepV::Do(
                    StateV::AwaitPostExceptionsClear { ctx, exit_ok },
                    ActionV::ClearPath { path: exceptions_path(p.root) },
                ),
            ),
            EventV::IoFailed => Some(teardown_step(ctx, exit_ok, Pending::Reconcile)),
            _ => None,
        },
        StateV::AwaitPostExceptionsClear { ctx, exit_ok } => match ev {
            EventV::IoOk => Some(
                StepV::Do(
                    StateV::AwaitLogsProbe { ctx, exit_ok },
                    ActionV::ProbeDir { path: logs_path(ctx.stage) },
                ),
            ),
            EventV::IoFailed => Some(teardown_step(ctx, exit_ok, Pending::Reconcile)),
            _ => None,
        },
        StateV::AwaitLogsProbe { ctx, exit_ok } => match ev {
            EventV::DirPresent => Some(
                StepV::Do(
                    StateV::AwaitLogsMirror { ctx, exit_ok },
                    ActionV::MirrorDir { src: logs_path(ctx.stage), dst: logs_path(p.root) },
                ),
            ),
            EventV::DirAbsent => Some(
                StepV::Do(
                    StateV::AwaitExceptionsProbe { ctx, exit_ok },
                    ActionV::ProbeDir { path: exceptions_path(ctx.stage) },
                ),
            ),
            _ => None,
        },
        StateV::AwaitLogsMirror { ctx, exit_ok } => match ev {
            EventV::IoOk => Some(
                StepV::Do(
                    StateV::AwaitExceptionsProbe { ctx, exit_ok },
                    ActionV::ProbeDir { path: exceptions_path(ctx.stage) },
                ),
            ),
            EventV::IoFailed => Some(teardown_step(ctx, exit_ok, Pending::Reconcile)),
            _ => None,
        },
        StateV::AwaitExceptionsProbe { ctx, exit_ok } => match ev {
            EventV::DirPresent => Some(
                StepV::Do(
                    StateV::AwaitExceptionsMirror { ctx, exit_ok },
                    ActionV::MirrorDir {
                        src: exceptions_path(ctx.stage),
                        dst: exceptions_path(p.root),
                    },
                ),
            ),
            EventV::DirAbsent => Some(teardown_step(ctx, exit_ok, Pending::Nothing)),
            _ => None,
        },
        StateV::AwaitExceptionsMirror { ctx, exit_ok } => match ev {
            EventV::IoOk => Some(teardown_step(ctx, exit_ok, Pending::Nothing)),
            EventV::IoFailed => Some(teardown_step(ctx, exit_ok, Pending::Reconcile)),
            _ => None,
        },
        StateV::AwaitTeardown { ctx, exit_ok, pending } => match ev {
            EventV::IoOk => Some(StepV::Done(report(ctx, exit_ok, pending, true))),
            EventV::IoFailed => Some(StepV::Done(report(ctx, exit_ok, pending, false))),
            _ => None,
        },
    }
}

impl Publish {
    /// The run's inputs are usable: the project root names at least one
    /// component, so that the staging area can be named after its base.
    pub open spec fn wf(&self) -> bool {
        self@.root.len() > 0
    }

    /// Opens a run: the machine's initial state, and the first action — the
    /// configuration load from `<root>/Smaug.toml`.
    pub fn start(&self) -> (r: (State, Action))
        ensures
            r.0@ == StateV::AwaitConfig,
            r.1@ == (ActionV::LoadConfig { path: config_path(self@.root) }),
    {
        let file = String::from_str("Smaug.toml");
        (State::AwaitConfig, Action::LoadConfig { path: self.root.join(file) })
    }

    /// One decision of the orchestrator: from the state `st` and the event
    /// `ev` reporting how the awaited action went, the next state and
    /// action, or the run's outcome — exactly as [`next_spec`] says. `None`
    /// exactly when `ev` does not answer the action `st` awaits.
    pub fn step(&self, st: State, ev: Event) -> (r: Option<Step>)
        requires
            self.wf(),
        ensures
            match r {
                Some(s) => next_spec(self@, st@, ev@) == Some(s@),
                None => next_spec(self@, st@, ev@) is None,
            },
    {
        match (st, ev) {
            (State::AwaitConfig, Event::ConfigLoaded { project_name, toolchain_version }) => {
                let action = Action::WriteMetadata { path: self.metadata_file_path() };
                Some(Step::Do(State::AwaitMetadata { project_name, toolchain_version }, action))
            },
            (State::AwaitConfig, Event::ConfigFailed) => {
                let file = String::from_str("Smaug.toml");
                Some(
                    Step::Done(
                        Err(Error::ConfigError { path: self.root.join(file) }),
                    ),
                )
            },
            (State::AwaitMetadata { project_name, toolchain_version }, Event::MetadataWritten) => {
                let version = toolchain_version.clone();
                Some(
                    Step::Do(
                        State::AwaitToolchain { project_name, toolchain_version },
                        Action::ResolveToolchain { version },
                    ),
                )
            },
            (State::AwaitMetadata { .. }, Event::MetadataFailed) => {
                Some(Step::Done(Err(Error::MetadataError { path: self.metadata_file_path() })))
            },
            (
                State::AwaitToolchain { project_name, .. },
                Event::ToolchainFound { install_dir, publish_bin },
            ) => {
                let base = self.root_base();
                let stage = install_dir.join(base);
                let action = Action::MirrorDir { src: self.root.dup(), dst: stage.dup() };
                let ctx = RunCtx { project_name, install_dir, publish_bin, stage };
                Some(Step::Do(State::AwaitStageMirror { ctx }, action))
            },
            (State::AwaitToolchain { .. }, Event::ToolchainMissing) => {
                Some(Step::Done(Err(Error::ConfiguredDragonRubyNotFound)))
            },
            (State::AwaitStageMirror { ctx }, Event::IoOk) => {
                let action = Action::ClearPath { path: ctx.stage.join(String::from_str("logs")) };
                Some(Step::Do(State::AwaitStageLogsClear { ctx }, action))
            },
            (State::AwaitStageMirror { ctx }, Event::IoFailed) => {
                Some(Self::enter_teardown(ctx, false, Pending::Staging))
            },
            (State::AwaitStageLogsClear { ctx }, Event::IoOk) => {
                let action = Action::ClearPath {
                    path: ctx.stage.join(String::from_str("exceptions")),
                };
                Some(Step::Do(State::AwaitStageExceptionsClear { ctx }, action))
            },
            (State::AwaitStageLogsClear { ctx }, Event::IoFailed) => {
                Some(Self::enter_teardown(ctx, false, Pending::Staging))
            },
            (State::AwaitStageExceptionsClear { ctx }, Event::IoOk) => {
                let action = Action::ClearPath { path: self.root.join(String::from_str("logs")) };
                Some(Step::Do(State::AwaitLocalLogsClear { ctx }, action))
            },
            (State::AwaitStageExceptionsClear { ctx }, Event::IoFailed) => {
                Some(Self::enter_teardown(ctx, false, Pending::Staging))
            },
            (State::AwaitLocalLogsClear { ctx }, Event::IoOk) => {
                let action = Action::ClearPath {
                    path: self.root.join(String::from_str("exceptions")),
                };
                Some(Step::Do(State::AwaitLocalExceptionsClear { ctx }, action))
            },
            (State::AwaitLocalLogsClear { ctx }, Event::IoFailed) => {
                Some(Self::enter_teardown(ctx, false, Pending::Staging))
            },
            (State::AwaitLocalExceptionsClear { ctx }, Event::IoOk) => {
                let action = Action::Invoke {
                    bin: ctx.install_dir.join(ctx.publish_bin.clone()),
                    workdir: ctx.install_dir.dup(),
                    staged_name: self.root_base(),
                    pass_through: clone_strings(&self.pass_through),
                    quiet: self.quiet,
                };
                Some(Step::Do(State::AwaitExit { ctx }, action))
            },
            (State::AwaitLocalExceptionsClear { ctx }, Event::IoFailed) => {
                Some(Self::enter_teardown(ctx, false, Pending::Staging))
            },
            (State::AwaitExit { ctx }, Event::Exited { success }) => {
                let action = Action::MirrorDir {
                    src: ctx.stage.join(String::from_str("builds")),
                    dst: self.root.join(String::from_str("builds")),
                };
                Some(Step::Do(State::AwaitBuildsMirror { ctx, exit_ok: success }, action))
            },
            (State::AwaitExit { ctx }, Event::SpawnFailed) => {
                Some(Self::enter_teardown(ctx, false, Pending::Invoke))
            },
            (State::AwaitBuildsMirror { ctx, exit_ok }, Event::IoOk) => {
                let action = Action::ClearPath { path: self.root.join(String::from_str("logs")) };
                Some(Step::Do(State::AwaitPostLogsClear { ctx, exit_ok }, action))
            },
            (State::AwaitBuildsMirror { ctx, exit_ok }, Event::IoFailed) => {
                Some(Self::enter_teardown(ctx, exit_ok, Pending::Reconcile))
            },
            (State::AwaitPostLogsClear { ctx, exit_ok }, Event::IoOk) => {
                let action = Action::ClearPath {
                    path: self.root.join(String::from_str("exceptions")),
                };
                Some(Step::Do(State::AwaitPostExceptionsClear { ctx, exit_ok }, action))
            },
            (State::AwaitPostLogsClear { ctx, exit_ok }, Event::IoFailed) => {
                Some(Self::enter_teardown(ctx, exit_ok, Pending::Reconcile))
            },
            (State::AwaitPostExceptionsClear { ctx, exit_ok }, Event::IoOk) => {
                let action = Action::ProbeDir { path: ctx.stage.join(String::from_str("logs")) };
                Some(Step::Do(State::AwaitLogsProbe { ctx, exit_ok }, action))
            },
            (State::AwaitPostExceptionsClear { ctx, exit_ok }, Event::IoFailed) => {
                Some(Self::enter_teardown(ctx, exit_ok, Pending::Reconcile))
            },
            (State::AwaitLogsProbe { ctx, exit_ok }, Event::DirPresent) => {
                let action = Action::MirrorDir {
                    src: ctx.stage.join(String::from_str("logs")),
                    dst: self.root.join(String::from_str("logs")),
                };
                Some(Step::Do(State::AwaitLogsMirror { ctx, exit_ok }, action))
            },
            (State::AwaitLogsProbe { ctx, exit_ok }, Event::DirAbsent) => {
                let action = Action::ProbeDir {
                    path: ctx.stage.join(String::from_str("exceptions")),
                };
                Some(Step::Do(State::AwaitExceptionsProbe { ctx, exit_ok }, action))
            },
            (State::AwaitLogsMirror { ctx, exit_ok }, Event::IoOk) => {
                let action = Action::ProbeDir {
                    path: ctx.stage.join(String::from_str("exceptions")),
                };
                Some(Step::Do(State::AwaitExceptionsProbe { ctx, exit_ok }, action))
            },
            (State::AwaitLogsMirror { ctx, exit_ok }, Event::IoFailed) => {
                Some(Self::enter_teardown(ctx, exit_ok, Pending::Reconcile))
            },
            (State::AwaitExceptionsProbe { ctx, exit_ok }, Event::DirPresent) => {
                let action = Action::MirrorDir {
                    src: ctx.stage.join(String::from_str("exceptions")),
                    dst: self.root.join(String::from_str("exceptions")),
                };
                Some(Step::Do(State::AwaitExceptionsMirror { ctx, exit_ok }, action))
            },
            (State::AwaitExceptionsProbe { ctx, exit_ok }, Event::DirAbsent) => {
                Some(Self::enter_teardown(ctx, exit_ok, Pending::Nothing))
            },
            (State::AwaitExceptionsMirror { ctx, exit_ok }, Event::IoOk) => {
                Some(Self::enter_teardown(ctx, exit_ok, Pending::Nothing))
            },
            (State::AwaitExceptionsMirror { ctx, exit_ok }, Event::IoFailed) => {
                Some(Self::enter_teardown(ctx, exit_ok, Pending::Reconcile))
            },
            (State::AwaitTeardown { ctx, exit_ok, pending }, Event::IoOk) => {
                Some(Step::Done(Self::report_exec(ctx, exit_ok, pending, true)))
            },
            (State::AwaitTeardown { ctx, exit_ok, pending }, Event::IoFailed) => {
                Some(Step::Done(Self::report_exec(ctx, exit_ok, pending, false)))
            },
            (_, _) => None,
        }
    }

    /// `<root>/metadata/game_metadata.txt`.
    fn metadata_file_path(&self) -> (r: AbsPath)
        ensures
            r@ == metadata_path(self@.root),
    {
        self.root.join(String::from_str("metadata")).join(String::from_str("game_metadata.txt"))
    }

    /// The project root's base name; the root is non-empty by `wf`.
    fn root_base(&self) -> (r: String)
        requires
            self.wf(),
        ensures
            r@ == self@.root.last(),
    {
        match self.root.base_name() {
            Some(b) => b,
            None => {
                proof {
                    assert(false);
                }
                String::new()
            },
        }
    }

    /// Moves into the teardown state, requesting the staging area's removal.
    fn enter_teardown(ctx: RunCtx, exit_ok: bool, pending: Pending) -> (r: Step)
        ensures
            r@ == teardown_step(ctx@, exit_ok, pending),
    {
        let action = Action::ClearPath { path: ctx.stage.dup() };
        Step::Do(State::AwaitTeardown { ctx, exit_ok, pending }, action)
    }

    /// The final outcome, as [`report`] says.
    fn report_exec(ctx: RunCtx, exit_ok: bool, pending: Pending, removal_ok: bool) -> (r: Result<
        PublishResult,
        Error,
    >)
        ensures
            (match r {
                Ok(x) => Ok::<PublishResultV, ErrorV>(x@),
                Err(e) => Err::<PublishResultV, ErrorV>(e@),
            }) == report(ctx@, exit_ok, pending, removal_ok),
    {
        match pending {
            Pending::Staging => Err(Error::StagingFailed),
            Pending::Invoke => Err(Error::InvokeFailed),
            Pending::Reconcile => Err(Error::ReconciliationFailed),
            Pending::Nothing => if !removal_ok {
                Err(Error::CleanupFailed)
            } else if exit_ok {
                Ok(PublishResult { project_name: ctx.project_name })
            } else {
                Err(Error::PublishError { project_name: ctx.project_name })
            },
        }
    }
}

} // verus!
