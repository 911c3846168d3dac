//! The guarantees of the publish workflow, stated and proved.
//!
//! The filesystem laws speak of the model in [`crate::fs_model`]; the
//! machine laws speak of the transition relation
//! [`crate::machine::next_spec`] and hold of every state and event, so they
//! cover every interleaving of successes and failures a run can meet.

use vstd::prelude::*;
use vstd::pervasive::arbitrary;
use crate::path::under;
use crate::path::strictly_under;
use crate::fs_model::FsModel;
use crate::fs_model::tree_absent;
use crate::fs_model::clear_tree;
use crate::fs_model::mirror_tree;
use crate::fs_model::rebase;
use crate::machine::next_spec;
use crate::machine::report;
use crate::machine::stage_path;
use crate::machine::logs_path;
use crate::machine::exceptions_path;
use crate::machine::builds_path;
use crate::machine::metadata_path;
use crate::machine::config_path;
use crate::machine::Pending;
use crate::machine::PublishV;
use crate::machine::PublishResultV;
use crate::machine::ErrorV;
use crate::machine::EventV;
use crate::machine::ActionV;
use crate::machine::StateV;
use crate::machine::StepV;
use crate::machine::RunCtxV;

verus! {

// ---------------------------------------------------------------------------
// Idempotent cleanup
// ---------------------------------------------------------------------------

/// Clearing a path under which nothing exists changes nothing.
pub proof fn lemma_clear_missing_is_noop(fs: FsModel, d: Seq<Seq<char>>)
    requires
        tree_absent(fs, d),
    ensures
        clear_tree(fs, d) == fs,
{
    assert(clear_tree(fs, d) =~= fs);
}

/// Clearing a path twice in a row is the same as clearing it once.
pub proof fn lemma_clear_idempotent(fs: FsModel, d: Seq<Seq<char>>)
    ensures
        clear_tree(clear_tree(fs, d), d) == clear_tree(fs, d),
{
    assert(clear_tree(clear_tree(fs, d), d) =~= clear_tree(fs, d));
}

/// After a clearing, nothing exists at or below the cleared path.
pub proof fn lemma_clear_clears(fs: FsModel, d: Seq<Seq<char>>)
    ensures
        tree_absent(clear_tree(fs, d), d),
{
}

/// A clearing only removes: a path that held nothing at or below it still
/// holds nothing after any other path is cleared.
pub proof fn lemma_clear_preserves_absence(fs: FsModel, d: Seq<Seq<char>>, e: Seq<Seq<char>>)
    requires
        tree_absent(fs, e),
    ensures
        tree_absent(clear_tree(fs, d), e),
{
}

/// A clearing touches nothing outside the cleared path: every file not at
/// or below it keeps its contents.
pub proof fn lemma_clear_outside_untouched(fs: FsModel, d: Seq<Seq<char>>, p: Seq<Seq<char>>)
    requires
        !under(p, d),
    ensures
        clear_tree(fs, d).dom().contains(p) == fs.dom().contains(p),
        fs.dom().contains(p) ==> clear_tree(fs, d)[p] == fs[p],
{
}

// ---------------------------------------------------------------------------
// Mirror completeness
// ---------------------------------------------------------------------------

/// After mirroring `src` into `dst`, every source file reappears at the
/// same path relative to `dst`, with identical contents — also where a file
/// already lay at that destination path: it is overwritten, not merged.
pub proof fn lemma_mirror_complete(
    fs: FsModel,
    src: Seq<Seq<char>>,
    dst: Seq<Seq<char>>,
    rel: Seq<Seq<char>>,
)
    requires
        rel.len() > 0,
        fs.dom().contains(src + rel),
    ensures
        mirror_tree(fs, src, dst).dom().contains(dst + rel),
        mirror_tree(fs, src, dst)[dst + rel] == fs[src + rel],
{
    assert((dst + rel).take(dst.len() as int) =~= dst);
    assert(strictly_under(dst + rel, dst));
    assert((dst + rel).skip(dst.len() as int) =~= rel);
    assert(rebase(dst + rel, dst, src) == src + rel);
}

/// A mirroring writes only below its destination: every path that receives
/// no copy keeps its mapping, bit for bit.
pub proof fn lemma_mirror_preserves_unrelated(
    fs: FsModel,
    src: Seq<Seq<char>>,
    dst: Seq<Seq<char>>,
    p: Seq<Seq<char>>,
)
    requires
        !(strictly_under(p, dst) && fs.dom().contains(rebase(p, dst, src))),
    ensures
        mirror_tree(fs, src, dst).dom().contains(p) == fs.dom().contains(p),
        fs.dom().contains(p) ==> mirror_tree(fs, src, dst)[p] == fs[p],
{
}

/// The mirrored source is left unmodified: mirroring reads `src` and writes
/// under `dst` alone, so when `dst` does not reach back into `src`, every
/// file under `src` is exactly what it was.
pub proof fn lemma_mirror_source_untouched(
    fs: FsModel,
    src: Seq<Seq<char>>,
    dst: Seq<Seq<char>>,
    p: Seq<Seq<char>>,
)
    requires
        under(p, src),
        !under(p, dst),
    ensures
        mirror_tree(fs, src, dst).dom().contains(p) == fs.dom().contains(p),
        fs.dom().contains(p) ==> mirror_tree(fs, src, dst)[p] == fs[p],
{
    assert(!strictly_under(p, dst));
}

// ---------------------------------------------------------------------------
// Staging isolation
// ---------------------------------------------------------------------------

/// Two projects whose root directories end in different base names stage
/// into different directories of the same toolchain installation, and no
/// path lies in both staging areas: independent runs never collide.
pub proof fn lemma_staging_isolation(
    install_dir: Seq<Seq<char>>,
    root1: Seq<Seq<char>>,
    root2: Seq<Seq<char>>,
    p: Seq<Seq<char>>,
)
    requires
        root1.len() > 0,
        root2.len() > 0,
        root1.last() != root2.last(),
    ensures
        stage_path(install_dir, root1) != stage_path(install_dir, root2),
        !(under(p, stage_path(install_dir, root1)) && under(p, stage_path(install_dir, root2))),
{
    let s1 = stage_path(install_dir, root1);
    let s2 = stage_path(install_dir, root2);
    assert(s1[install_dir.len() as int] == root1.last());
    assert(s2[install_dir.len() as int] == root2.last());
    if under(p, s1) && under(p, s2) {
        assert(p.take(s1.len() as int)[install_dir.len() as int] == p[install_dir.len() as int]);
        assert(p.take(s2.len() as int)[install_dir.len() as int] == p[install_dir.len() as int]);
        assert(false);
    }
}

// ---------------------------------------------------------------------------
// The machine's shape: which states a run can stand in once staging began
// ---------------------------------------------------------------------------

/// Staging has begun: the machine has requested the mirror into the staging
/// area (or something later), and owes a teardown before it may report.
pub open spec fn staging_begun(st: StateV) -> bool {
    !(st is AwaitConfig || st is AwaitMetadata || st is AwaitToolchain)
}

/// The run context a staged state carries.
pub open spec fn ctx_of(st: StateV) -> RunCtxV {
    match st {
        StateV::AwaitStageMirror { ctx } => ctx,
        StateV::AwaitStageLogsClear { ctx } => ctx,
        StateV::AwaitStageExceptionsClear { ctx } => ctx,
        StateV::AwaitLocalLogsClear { ctx } => ctx,
        StateV::AwaitLocalExceptionsClear { ctx } => ctx,
        StateV::AwaitExit { ctx } => ctx,
        StateV::AwaitBuildsMirror { ctx, .. } => ctx,
        StateV::AwaitPostLogsClear { ctx, .. } => ctx,
        StateV::AwaitPostExceptionsClear { ctx, .. } => ctx,
        StateV::AwaitLogsProbe { ctx, .. } => ctx,
        StateV::AwaitLogsMirror { ctx, .. } => ctx,
        StateV::AwaitExceptionsProbe { ctx, .. } => ctx,
        StateV::AwaitExceptionsMirror { ctx, .. } => ctx,
        StateV::AwaitTeardown { ctx, .. } => ctx,
        _ => arbitrary(),
    }
}

/// The staging area a run adopts, the moment staging begins, is exactly the
/// toolchain's installation directory extended by the project root's base
/// name — the shape [`lemma_staging_isolation`] speaks of; and the run keeps
/// it to the end ([`lemma_staging_persists`]).
pub proof fn lemma_stage_named_after_root(
    p: PublishV,
    st: StateV,
    ev: EventV,
    st2: StateV,
    a: ActionV,
)
    requires
        next_spec(p, st, ev) == Some(StepV::Do(st2, a)),
        st2 is AwaitStageMirror,
    ensures
        ctx_of(st2).stage == stage_path(ctx_of(st2).install_dir, p.root),
        a == (ActionV::MirrorDir { src: p.root, dst: ctx_of(st2).stage }),
{
}

// ---------------------------------------------------------------------------
// Teardown guarantee
// ---------------------------------------------------------------------------

/// Once staging has begun, the machine reports an outcome only from the
/// teardown state: no failure path skips the teardown.
pub proof fn lemma_done_only_after_teardown(
    p: PublishV,
    st: StateV,
    ev: EventV,
    out: Result<PublishResultV, ErrorV>,
)
    requires
        staging_begun(st),
        next_spec(p, st, ev) == Some(StepV::Done(out)),
    ensures
        st is AwaitTeardown,
{
}

/// Once staging has begun it stays begun, and the run context — the staging
/// area above all — never changes until the run reports.
pub proof fn lemma_staging_persists(
    p: PublishV,
    st: StateV,
    ev: EventV,
    st2: StateV,
    a: ActionV,
)
    requires
        staging_begun(st),
        next_spec(p, st, ev) == Some(StepV::Do(st2, a)),
    ensures
        staging_begun(st2),
        ctx_of(st2) == ctx_of(st),
{
}

/// The teardown state is entered, from wherever, with exactly one action:
/// the removal of the whole staging area.
pub proof fn lemma_teardown_clears_stage(
    p: PublishV,
    st: StateV,
    ev: EventV,
    st2: StateV,
    a: ActionV,
)
    requires
        next_spec(p, st, ev) == Some(StepV::Do(st2, a)),
        st2 is AwaitTeardown,
    ensures
        a == (ActionV::ClearPath { path: ctx_of(st2).stage }),
{
}

/// The teardown state reports on either answer: the run finishes, and it
/// never asks for anything after the staging area's removal.
pub proof fn lemma_teardown_reports(p: PublishV, st: StateV, ev: EventV, s: StepV)
    requires
        st is AwaitTeardown,
        next_spec(p, st, ev) == Some(s),
    ensures
        s is Done,
{
}

/// And the removal, once it succeeds, leaves nothing at or below the
/// staging area — together with the three lemmas above: a run that began
/// staging ends, whatever the toolchain did, with the staging area gone.
pub proof fn lemma_teardown_guarantee(fs: FsModel, stage: Seq<Seq<char>>)
    ensures
        tree_absent(clear_tree(fs, stage), stage),
{
    lemma_clear_clears(fs, stage);
}

// ---------------------------------------------------------------------------
// Side-channel freshness
// ---------------------------------------------------------------------------

/// The filesystem after the staging phase: the project root mirrored into
/// the staging area, then both sides' log and exception directories
/// cleared — the machine's action sequence from the staging mirror to the
/// toolchain invocation, on the model.
pub open spec fn staged_fs(
    fs: FsModel,
    root: Seq<Seq<char>>,
    stage: Seq<Seq<char>>,
) -> FsModel {
    clear_tree(
        clear_tree(
            clear_tree(
                clear_tree(mirror_tree(fs, root, stage), logs_path(stage)),
                exceptions_path(stage),
            ),
            logs_path(root),
        ),
        exceptions_path(root),
    )
}

/// Before the toolchain is invoked, the log and exception directories on
/// both the staging side and the project side hold nothing, whatever the
/// filesystem held before the run: no stale log can pass for this run's.
pub proof fn lemma_side_channel_freshness(
    fs: FsModel,
    root: Seq<Seq<char>>,
    stage: Seq<Seq<char>>,
)
    ensures
        tree_absent(staged_fs(fs, root, stage), logs_path(stage)),
        tree_absent(staged_fs(fs, root, stage), exceptions_path(stage)),
        tree_absent(staged_fs(fs, root, stage), logs_path(root)),
        tree_absent(staged_fs(fs, root, stage), exceptions_path(root)),
{
    let f0 = mirror_tree(fs, root, stage);
    let f1 = clear_tree(f0, logs_path(stage));
    let f2 = clear_tree(f1, exceptions_path(stage));
    let f3 = clear_tree(f2, logs_path(root));
    lemma_clear_clears(f0, logs_path(stage));
    lemma_clear_preserves_absence(f1, exceptions_path(stage), logs_path(stage));
    lemma_clear_preserves_absence(f2, logs_path(root), logs_path(stage));
    lemma_clear_preserves_absence(f3, exceptions_path(root), logs_path(stage));
    lemma_clear_clears(f1, exceptions_path(stage));
    lemma_clear_preserves_absence(f2, logs_path(root), exceptions_path(stage));
    lemma_clear_preserves_absence(f3, exceptions_path(root), exceptions_path(stage));
    lemma_clear_clears(f2, logs_path(root));
    lemma_clear_preserves_absence(f3, exceptions_path(root), logs_path(root));
    lemma_clear_clears(f3, exceptions_path(root));
}

/// The machine invokes the toolchain from exactly one place: after the last
/// of the four freshness clearings succeeded. With the previous lemma: when
/// the toolchain runs, both sides' side channels are clean.
pub proof fn lemma_invoke_only_after_freshness(
    p: PublishV,
    st: StateV,
    ev: EventV,
    st2: StateV,
    a: ActionV,
)
    requires
        next_spec(p, st, ev) == Some(StepV::Do(st2, a)),
        a is Invoke,
    ensures
        st is AwaitLocalExceptionsClear,
        ev is IoOk,
        st2 is AwaitExit,
{
}

// ---------------------------------------------------------------------------
// Outcome correctness
// ---------------------------------------------------------------------------

/// The outcome of driving the machine from `st` through the events `evs`:
/// the reported result when the events answer the run's actions one for one
/// and the run reports on the last of them; nothing otherwise.
pub open spec fn run_outcome_from(
    p: PublishV,
    st: StateV,
    evs: Seq<EventV>,
    i: int,
) -> Option<Result<PublishResultV, ErrorV>>
    decreases evs.len() - i,
{
    if i < 0 || i >= evs.len() {
        None
    } else {
        match next_spec(p, st, evs[i]) {
            None => None,
            Some(StepV::Done(o)) => if i == evs.len() - 1 {
                Some(o)
            } else {
                None
            },
            Some(StepV::Do(st2, a)) => run_outcome_from(p, st2, evs, i + 1),
        }
    }
}

/// The outcome of a whole run over the events `evs`.
pub open spec fn run_outcome(p: PublishV, evs: Seq<EventV>) -> Option<
    Result<PublishResultV, ErrorV>,
> {
    run_outcome_from(p, StateV::AwaitConfig, evs, 0)
}

/// The events of a run in which every filesystem step succeeds, the
/// toolchain leaves no logs and no exception reports, and its process exits
/// with `success`.
pub open spec fn smooth_run_events(
    project_name: Seq<char>,
    toolchain_version: Seq<char>,
    install_dir: Seq<Seq<char>>,
    publish_bin: Seq<char>,
    success: bool,
) -> Seq<EventV> {
    seq![
        EventV::ConfigLoaded { project_name, toolchain_version },
        EventV::MetadataWritten,
        EventV::ToolchainFound { install_dir, publish_bin },
        EventV::IoOk,
        EventV::IoOk,
        EventV::IoOk,
        EventV::IoOk,
        EventV::IoOk,
        EventV::Exited { success },
        EventV::IoOk,
        EventV::IoOk,
        EventV::IoOk,
        EventV::DirAbsent,
        EventV::DirAbsent,
        EventV::IoOk,
    ]
}

/// Outcome correctness: when the toolchain's invocation exits successfully,
/// the run reports success carrying the configured project name; when it
/// exits non-successfully, the run reports a publish failure carrying that
/// same name.
pub proof fn lemma_outcome_correctness(
    p: PublishV,
    project_name: Seq<char>,
    toolchain_version: Seq<char>,
    install_dir: Seq<Seq<char>>,
    publish_bin: Seq<char>,
    success: bool,
)
    requires
        p.root.len() > 0,
    ensures
        run_outcome(
            p,
            smooth_run_events(project_name, toolchain_version, install_dir, publish_bin, success),
        ) == Some(
            if success {
                Ok::<PublishResultV, ErrorV>(PublishResultV { project_name })
            } else {
                Err::<PublishResultV, ErrorV>(ErrorV::PublishError { project_name })
            },
        ),
{
    let evs = smooth_run_events(
        project_name,
        toolchain_version,
        install_dir,
        publish_bin,
        success,
    );
    let ctx = RunCtxV {
        project_name,
        install_dir,
        publish_bin,
        stage: stage_path(install_dir, p.root),
    };
    assert(run_outcome_from(p, StateV::AwaitConfig, evs, 0) == run_outcome_from(
        p,
        StateV::AwaitMetadata { project_name, toolchain_version },
        evs,
        1,
    ));
    assert(run_outcome_from(p, StateV::AwaitMetadata { project_name, toolchain_version }, evs, 1)
        == run_outcome_from(
        p,
        StateV::AwaitToolchain { project_name, toolchain_version },
        evs,
        2,
    ));
    assert(run_outcome_from(p, StateV::AwaitToolchain { project_name, toolchain_version }, evs, 2)
        == run_outcome_from(p, StateV::AwaitStageMirror { ctx }, evs, 3));
    assert(run_outcome_from(p, StateV::AwaitStageMirror { ctx }, evs, 3) == run_outcome_from(
        p,
        StateV::AwaitStageLogsClear { ctx },
        evs,
        4,
    ));
    assert(run_outcome_from(p, StateV::AwaitStageLogsClear { ctx }, evs, 4) == run_outcome_from(
        p,
        StateV::AwaitStageExceptionsClear { ctx },
        evs,
        5,
    ));
    assert(run_outcome_from(p, StateV::AwaitStageExceptionsClear { ctx }, evs, 5)
        == run_outcome_from(p, StateV::AwaitLocalLogsClear { ctx }, evs, 6));
    assert(run_outcome_from(p, StateV::AwaitLocalLogsClear { ctx }, evs, 6) == run_outcome_from(
        p,
        StateV::AwaitLocalExceptionsClear { ctx },
        evs,
        7,
    ));
    assert(run_outcome_from(p, StateV::AwaitLocalExceptionsClear { ctx }, evs, 7)
        == run_outcome_from(p, StateV::AwaitExit { ctx }, evs, 8));
    assert(run_outcome_from(p, StateV::AwaitExit { ctx }, evs, 8) == run_outcome_from(
        p,
        StateV::AwaitBuildsMirror { ctx, exit_ok: success },
        evs,
        9,
    ));
    assert(run_outcome_from(p, StateV::AwaitBuildsMirror { ctx, exit_ok: success }, evs, 9)
        == run_outcome_from(p, StateV::AwaitPostLogsClear { ctx, exit_ok: success }, evs, 10));
    assert(run_outcome_from(p, StateV::AwaitPostLogsClear { ctx, exit_ok: success }, evs, 10)
        == run_outcome_from(
        p,
        StateV::AwaitPostExceptionsClear { ctx, exit_ok: success },
        evs,
        11,
    ));
    assert(run_outcome_from(p, StateV::AwaitPostExceptionsClear { ctx, exit_ok: success }, evs, 11)
        == run_outcome_from(p, StateV::AwaitLogsProbe { ctx, exit_ok: success }, evs, 12));
    assert(run_outcome_from(p, StateV::AwaitLogsProbe { ctx, exit_ok: success }, evs, 12)
        == run_outcome_from(p, StateV::AwaitExceptionsProbe { ctx, exit_ok: success }, evs, 13));
    assert(run_outcome_from(p, StateV::AwaitExceptionsProbe { ctx, exit_ok: success }, evs, 13)
        == run_outcome_from(
        p,
        StateV::AwaitTeardown { ctx, exit_ok: success, pending: Pending::Nothing },
        evs,
        14,
    ));
    assert(run_outcome_from(
        p,
        StateV::AwaitTeardown { ctx, exit_ok: success, pending: Pending::Nothing },
        evs,
        14,
    ) == Some(report(ctx, success, Pending::Nothing, true)));
}

// ---------------------------------------------------------------------------
// Whole runs
// ---------------------------------------------------------------------------

/// The state from which the run reports its outcome, when the events `evs`
/// from `i` on drive the machine from `st` to an outcome on the last of
/// them; nothing otherwise.
pub open spec fn reporting_state_from(
    p: PublishV,
    st: StateV,
    evs: Seq<EventV>,
    i: int,
) -> Option<StateV>
    decreases evs.len() - i,
{
    if i < 0 || i >= evs.len() {
        None
    } else {
        match next_spec(p, st, evs[i]) {
            None => None,
            Some(StepV::Done(o)) => if i == evs.len() - 1 {
                Some(st)
            } else {
                None
            },
            Some(StepV::Do(st2, a)) => reporting_state_from(p, st2, evs, i + 1),
        }
    }
}

/// Teardown guarantee, over whole runs: drive the machine from any state in
/// which staging has begun, by any events whatever — every success, failure
/// and probe answer interleaved in any way. If the run reports an outcome
/// at all, it reports from the teardown state, for the very staging area the
/// run began with; and the teardown state is only ever entered with the
/// action that removes that staging area, which
/// [`lemma_teardown_guarantee`] shows leaves nothing of it.
pub proof fn lemma_run_reports_only_from_teardown(
    p: PublishV,
    st: StateV,
    evs: Seq<EventV>,
    i: int,
)
    requires
        staging_begun(st),
        run_outcome_from(p, st, evs, i) is Some,
    ensures
        (reporting_state_from(p, st, evs, i) matches Some(r) && r is AwaitTeardown && ctx_of(r)
            == ctx_of(st)),
    decreases evs.len() - i,
{
    match next_spec(p, st, evs[i]) {
        Some(StepV::Do(st2, a)) => {
            lemma_staging_persists(p, st, evs[i], st2, a);
            lemma_run_reports_only_from_teardown(p, st2, evs, i + 1);
        },
        Some(StepV::Done(o)) => {
            lemma_done_only_after_teardown(p, st, evs[i], o);
        },
        None => {
            assert(false);
        },
    }
}

/// The actions a run requests, in order, when the events `evs` from `i` on
/// answer them one for one.
pub open spec fn run_actions_from(
    p: PublishV,
    st: StateV,
    evs: Seq<EventV>,
    i: int,
) -> Seq<ActionV>
    decreases evs.len() - i,
{
    if i < 0 || i >= evs.len() {
        Seq::empty()
    } else {
        match next_spec(p, st, evs[i]) {
            None => Seq::empty(),
            Some(StepV::Done(o)) => Seq::empty(),
            Some(StepV::Do(st2, a)) => seq![a].add(run_actions_from(p, st2, evs, i + 1)),
        }
    }
}

/// The whole work of a smooth run, spelled out: after the configuration
/// load that [`crate::machine::Publish::start`] requests, the machine asks
/// for exactly these fourteen operations, in exactly this order — the
/// metadata write; the toolchain lookup; the mirror of the project into the
/// staging area; the four side-channel clearings, staging side then project
/// side, all before the invocation; the invocation; the mirror of the
/// staged build artifacts back home; the two post-run clearings; the two
/// side-channel probes; and last of all the removal of the staging area.
pub proof fn lemma_smooth_run_actions(
    p: PublishV,
    project_name: Seq<char>,
    toolchain_version: Seq<char>,
    install_dir: Seq<Seq<char>>,
    publish_bin: Seq<char>,
    success: bool,
)
    requires
        p.root.len() > 0,
    ensures
        run_actions_from(
            p,
            StateV::AwaitConfig,
            smooth_run_events(project_name, toolchain_version, install_dir, publish_bin, success),
            0,
        ) == seq![
            ActionV::WriteMetadata { path: metadata_path(p.root) },
            ActionV::ResolveToolchain { version: toolchain_version },
            ActionV::MirrorDir { src: p.root, dst: stage_path(install_dir, p.root) },
            ActionV::ClearPath { path: logs_path(stage_path(install_dir, p.root)) },
            ActionV::ClearPath { path: exceptions_path(stage_path(install_dir, p.root)) },
            ActionV::ClearPath { path: logs_path(p.root) },
            ActionV::ClearPath { path: exceptions_path(p.root) },
            ActionV::Invoke {
                bin: install_dir.push(publish_bin),
                workdir: install_dir,
                staged_name: p.root.last(),
                pass_through: p.pass_through,
                quiet: p.quiet,
            },
            ActionV::MirrorDir {
                src: builds_path(stage_path(install_dir, p.root)),
                dst: builds_path(p.root),
            },
            ActionV::ClearPath { path: logs_path(p.root) },
            ActionV::ClearPath { path: exceptions_path(p.root) },
            ActionV::ProbeDir { path: logs_path(stage_path(install_dir, p.root)) },
            ActionV::ProbeDir { path: exceptions_path(stage_path(install_dir, p.root)) },
            ActionV::ClearPath { path: stage_path(install_dir, p.root) },
        ],
{
    let evs = smooth_run_events(
        project_name,
        toolchain_version,
        install_dir,
        publish_bin,
        success,
    );
    let ctx = RunCtxV {
        project_name,
        install_dir,
        publish_bin,
        stage: stage_path(install_dir, p.root),
    };
    let s1 = StateV::AwaitMetadata { project_name, toolchain_version };
    let s2 = StateV::AwaitToolchain { project_name, toolchain_version };
    let s3 = StateV::AwaitStageMirror { ctx };
    let s4 = StateV::AwaitStageLogsClear { ctx };
    let s5 = StateV::AwaitStageExceptionsClear { ctx };
    let s6 = StateV::AwaitLocalLogsClear { ctx };
    let s7 = StateV::AwaitLocalExceptionsClear { ctx };
    let s8 = StateV::AwaitExit { ctx };
    let s9 = StateV::AwaitBuildsMirror { ctx, exit_ok: success };
    let s10 = StateV::AwaitPostLogsClear { ctx, exit_ok: success };
    let s11 = StateV::AwaitPostExceptionsClear { ctx, exit_ok: success };
    let s12 = StateV::AwaitLogsProbe { ctx, exit_ok: success };
    let s13 = StateV::AwaitExceptionsProbe { ctx, exit_ok: success };
    let s14 = StateV::AwaitTeardown { ctx, exit_ok: success, pending: Pending::Nothing };
    assert(run_actions_from(p, s14, evs, 14) == Seq::<ActionV>::empty());
    assert(run_actions_from(p, s13, evs, 13) == seq![
        ActionV::ClearPath { path: ctx.stage },
    ].add(run_actions_from(p, s14, evs, 14)));
    assert(run_actions_from(p, s12, evs, 12) == seq![
        ActionV::ProbeDir { path: exceptions_path(ctx.stage) },
    ].add(run_actions_from(p, s13, evs, 13)));
    assert(run_actions_from(p, s11, evs, 11) == seq![
        ActionV::ProbeDir { path: logs_path(ctx.stage) },
    ].add(run_actions_from(p, s12, evs, 12)));
    assert(run_actions_from(p, s10, evs, 10) == seq![
        ActionV::ClearPath { path: exceptions_path(p.root) },
    ].add(run_actions_from(p, s11, evs, 11)));
    assert(run_actions_from(p, s9, evs, 9) == seq![
        ActionV::ClearPath { path: logs_path(p.root) },
    ].add(run_actions_from(p, s10, evs, 10)));
    assert(run_actions_from(p, s8, evs, 8) == seq![
        ActionV::MirrorDir { src: builds_path(ctx.stage), dst: builds_path(p.root) },
    ].add(run_actions_from(p, s9, evs, 9)));
    assert(run_actions_from(p, s7, evs, 7) == seq![
        ActionV::Invoke {
            bin: install_dir.push(publish_bin),
            workdir: install_dir,
            staged_name: p.root.last(),
            pass_through: p.pass_through,
            quiet: p.quiet,
        },
    ].add(run_actions_from(p, s8, evs, 8)));
    assert(run_actions_from(p, s6, evs, 6) == seq![
        ActionV::ClearPath { path: exceptions_path(p.root) },
    ].add(run_actions_from(p, s7, evs, 7)));
    assert(run_actions_from(p, s5, evs, 5) == seq![
        ActionV::ClearPath { path: logs_path(p.root) },
    ].add(run_actions_from(p, s6, evs, 6)));
    assert(run_actions_from(p, s4, evs, 4) == seq![
        ActionV::ClearPath { path: exceptions_path(ctx.stage) },
    ].add(run_actions_from(p, s5, evs, 5)));
    assert(run_actions_from(p, s3, evs, 3) == seq![
        ActionV::ClearPath { path: logs_path(ctx.stage) },
    ].add(run_actions_from(p, s4, evs, 4)));
    assert(run_actions_from(p, s2, evs, 2) == seq![
        ActionV::MirrorDir { src: p.root, dst: ctx.stage },
    ].add(run_actions_from(p, s3, evs, 3)));
    assert(run_actions_from(p, s1, evs, 1) == seq![
        ActionV::ResolveToolchain { version: toolchain_version },
    ].add(run_actions_from(p, s2, evs, 2)));
    assert(run_actions_from(p, StateV::AwaitConfig, evs, 0) == seq![
        ActionV::WriteMetadata { path: metadata_path(p.root) },
    ].add(run_actions_from(p, s1, evs, 1)));
    assert(run_actions_from(p, StateV::AwaitConfig, evs, 0) =~= seq![
        ActionV::WriteMetadata { path: metadata_path(p.root) },
        ActionV::ResolveToolchain { version: toolchain_version },
        ActionV::MirrorDir { src: p.root, dst: stage_path(install_dir, p.root) },
        ActionV::ClearPath { path: logs_path(stage_path(install_dir, p.root)) },
        ActionV::ClearPath { path: exceptions_path(stage_path(install_dir, p.root)) },
        ActionV::ClearPath { path: logs_path(p.root) },
        ActionV::ClearPath { path: exceptions_path(p.root) },
        ActionV::Invoke {
            bin: install_dir.push(publish_bin),
            workdir: install_dir,
            staged_name: p.root.last(),
            pass_through: p.pass_through,
            quiet: p.quiet,
        },
        ActionV::MirrorDir {
            src: builds_path(stage_path(install_dir, p.root)),
            dst: builds_path(p.root),
        },
        ActionV::ClearPath { path: logs_path(p.root) },
        ActionV::ClearPath { path: exceptions_path(p.root) },
        ActionV::ProbeDir { path: logs_path(stage_path(install_dir, p.root)) },
        ActionV::ProbeDir { path: exceptions_path(stage_path(install_dir, p.root)) },
        ActionV::ClearPath { path: stage_path(install_dir, p.root) },
    ]);
}

// ---------------------------------------------------------------------------
// The teardown guarantee, closed over a whole run's filesystem history
// ---------------------------------------------------------------------------

/// The action whose answer a state awaits. Each transition emits exactly
/// the action its target state awaits, so a run's actions are determined by
/// its states.
pub open spec fn awaited_action(p: PublishV, st: StateV) -> ActionV {
    match st {
        StateV::AwaitConfig => ActionV::LoadConfig { path: config_path(p.root) },
        StateV::AwaitMetadata { .. } => ActionV::WriteMetadata { path: metadata_path(p.root) },
        StateV::AwaitToolchain { project_name, toolchain_version } => ActionV::ResolveToolchain {
            version: toolchain_version,
        },
        StateV::AwaitStageMirror { ctx } => ActionV::MirrorDir { src: p.root, dst: ctx.stage },
        StateV::AwaitStageLogsClear { ctx } => ActionV::ClearPath { path: logs_path(ctx.stage) },
        StateV::AwaitStageExceptionsClear { ctx } => ActionV::ClearPath {
            path: exceptions_path(ctx.stage),
        },
        StateV::AwaitLocalLogsClear { ctx } => ActionV::ClearPath { path: logs_path(p.root) },
        StateV::AwaitLocalExceptionsClear { ctx } => ActionV::ClearPath {
            path: exceptions_path(p.root),
        },
        StateV::AwaitExit { ctx } => ActionV::Invoke {
            bin: ctx.install_dir.push(ctx.publish_bin),
            workdir: ctx.install_dir,
            staged_name: p.root.last(),
            pass_through: p.pass_through,
            quiet: p.quiet,
        },
        StateV::AwaitBuildsMirror { ctx, .. } => ActionV::MirrorDir {
            src: builds_path(ctx.stage),
            dst: builds_path(p.root),
        },
        StateV::AwaitPostLogsClear { ctx, .. } => ActionV::ClearPath { path: logs_path(p.root) },
        StateV::AwaitPostExceptionsClear { ctx, .. } => ActionV::ClearPath {
            path: exceptions_path(p.root),
        },
        StateV::AwaitLogsProbe { ctx, .. } => ActionV::ProbeDir { path: logs_path(ctx.stage) },
        StateV::AwaitLogsMirror { ctx, .. } => ActionV::MirrorDir {
            src: logs_path(ctx.stage),
            dst: logs_path(p.root),
        },
        StateV::AwaitExceptionsProbe { ctx, .. } => ActionV::ProbeDir {
            path: exceptions_path(ctx.stage),
        },
        StateV::AwaitExceptionsMirror { ctx, .. } => ActionV::MirrorDir {
            src: exceptions_path(ctx.stage),
            dst: exceptions_path(p.root),
        },
        StateV::AwaitTeardown { ctx, .. } => ActionV::ClearPath { path: ctx.stage },
    }
}

/// Every transition emits the action its target state awaits.
pub proof fn lemma_transition_emits_awaited_action(
    p: PublishV,
    st: StateV,
    ev: EventV,
    st2: StateV,
    a: ActionV,
)
    requires
        next_spec(p, st, ev) == Some(StepV::Do(st2, a)),
    ensures
        a == awaited_action(p, st2),
{
}

/// What performing `a`, answered by `ev`, may leave of the file tree `fs`:
/// everything the real operations are allowed to do, and no more. A
/// successful mirror or removal does exactly what the model says; a failed
/// one may have stopped anywhere, but a mirror writes only strictly below
/// its destination and a removal only removes, and only at or below its
/// path. The configuration load, the toolchain lookup and the probes read
/// only. The metadata write touches one path. Of the invoked toolchain
/// nothing is assumed at all: it may do anything to the tree.
pub open spec fn may_leave(fs: FsModel, a: ActionV, ev: EventV, fs2: FsModel) -> bool {
    match a {
        ActionV::MirrorDir { src, dst } => if ev is IoOk {
            fs2 == mirror_tree(fs, src, dst)
        } else {
            forall|q: Seq<Seq<char>>|
                !strictly_under(q, dst) ==> (fs2.dom().contains(q) == fs.dom().contains(q) && (
                fs.dom().contains(q) ==> fs2[q] == fs[q]))
        },
        ActionV::ClearPath { path } => if ev is IoOk {
            fs2 == clear_tree(fs, path)
        } else {
            forall|q: Seq<Seq<char>>|
                (fs2.dom().contains(q) ==> fs.dom().contains(q) && fs2[q] == fs[q]) && (!under(
                    q,
                    path,
                ) ==> fs2.dom().contains(q) == fs.dom().contains(q))
        },
        ActionV::WriteMetadata { path } => forall|q: Seq<Seq<char>>|
            q != path ==> (fs2.dom().contains(q) == fs.dom().contains(q) && (fs.dom().contains(q)
                ==> fs2[q] == fs[q])),
        ActionV::Invoke { .. } => true,
        ActionV::LoadConfig { .. } => fs2 == fs,
        ActionV::ResolveToolchain { .. } => fs2 == fs,
        ActionV::ProbeDir { .. } => fs2 == fs,
    }
}

/// The state the machine stands in after consuming `evs[i..j)`, along a run
/// in which every event is answered by a further state.
pub open spec fn state_at(p: PublishV, st: StateV, evs: Seq<EventV>, i: int, j: int) -> StateV
    decreases j - i,
{
    if j <= i {
        st
    } else {
        let prev = state_at(p, st, evs, i, j - 1);
        match next_spec(p, prev, evs[j - 1]) {
            Some(StepV::Do(st2, a)) => st2,
            _ => prev,
        }
    }
}

/// Walking the same run from one step later reaches the same states.
proof fn lemma_state_at_shift(
    p: PublishV,
    st: StateV,
    st2: StateV,
    a: ActionV,
    evs: Seq<EventV>,
    i: int,
    j: int,
)
    requires
        next_spec(p, st, evs[i]) == Some(StepV::Do(st2, a)),
        i < j,
    ensures
        state_at(p, st, evs, i, j) == state_at(p, st2, evs, i + 1, j),
    decreases j - i,
{
    if j == i + 1 {
    } else {
        lemma_state_at_shift(p, st, st2, a, evs, i, j - 1);
    }
}

/// A run that reports does so from the state the walk reaches at the last
/// event.
proof fn lemma_reporting_state_is_last(p: PublishV, st: StateV, evs: Seq<EventV>, i: int)
    requires
        run_outcome_from(p, st, evs, i) is Some,
    ensures
        reporting_state_from(p, st, evs, i) == Some(state_at(p, st, evs, i, evs.len() - 1)),
    decreases evs.len() - i,
{
    match next_spec(p, st, evs[i]) {
        Some(StepV::Do(st2, a)) => {
            lemma_reporting_state_is_last(p, st2, evs, i + 1);
            lemma_state_at_shift(p, st, st2, a, evs, i, evs.len() - 1);
        },
        Some(StepV::Done(o)) => {
        },
        None => {
            assert(false);
        },
    }
}

/// The teardown guarantee, closed over a whole run: take any run that has
/// begun staging and reports an outcome; take any history the file tree may
/// have gone through, each step allowed by [`may_leave`] for the action the
/// machine awaited — the toolchain free to do anything, every mirror,
/// removal and write free to fail halfway. If the run's last removal — the
/// teardown, by [`lemma_run_reports_only_from_teardown`] — succeeded, then
/// the tree the run leaves holds nothing at or below the staging area.
pub proof fn theorem_run_leaves_no_staging(
    p: PublishV,
    st: StateV,
    evs: Seq<EventV>,
    i: int,
    history: Seq<FsModel>,
)
    requires
        staging_begun(st),
        run_outcome_from(p, st, evs, i) is Some,
        history.len() == evs.len() - i + 1,
        forall|j: int|
            0 <= j < evs.len() - i ==> may_leave(
                #[trigger] history[j],
                awaited_action(p, state_at(p, st, evs, i, i + j)),
                evs[i + j],
                history[j + 1],
            ),
        evs.last() == EventV::IoOk,
    ensures
        tree_absent(history.last(), ctx_of(st).stage),
{
    lemma_run_reports_only_from_teardown(p, st, evs, i);
    lemma_reporting_state_is_last(p, st, evs, i);
    let last = state_at(p, st, evs, i, evs.len() - 1);
    assert(awaited_action(p, last) == (ActionV::ClearPath { path: ctx_of(st).stage }));
    let j = evs.len() - 1 - i;
    assert(may_leave(
        history[j],
        awaited_action(p, state_at(p, st, evs, i, i + j)),
        evs[i + j],
        history[j + 1],
    ));
    assert(history[j + 1] == clear_tree(history[j], ctx_of(st).stage));
    lemma_clear_clears(history[j], ctx_of(st).stage);
}

/// The machine makes a real transition on this state and event: some next
/// state and action, neither a refusal nor a report.
pub open spec fn advances(p: PublishV, st: StateV, ev: EventV) -> bool {
    next_spec(p, st, ev) matches Some(StepV::Do(_, _))
}

/// The invocation state is entered only from the last freshness clearing,
/// and only on its success; the run context rides along.
proof fn lemma_into_exit(p: PublishV, st: StateV, ev: EventV, st2: StateV, a: ActionV)
    requires
        next_spec(p, st, ev) == Some(StepV::Do(st2, a)),
        st2 is AwaitExit,
    ensures
        st is AwaitLocalExceptionsClear,
        ev is IoOk,
        ctx_of(st) == ctx_of(st2),
{
}

/// Each staging-phase state is entered from its one predecessor, on
/// success alone, with the run context unchanged.
proof fn lemma_into_staging_states(p: PublishV, st: StateV, ev: EventV, st2: StateV, a: ActionV)
    requires
        next_spec(p, st, ev) == Some(StepV::Do(st2, a)),
    ensures
        st2 is AwaitLocalExceptionsClear ==> (st is AwaitLocalLogsClear && ev is IoOk && ctx_of(
            st,
        ) == ctx_of(st2)),
        st2 is AwaitLocalLogsClear ==> (st is AwaitStageExceptionsClear && ev is IoOk && ctx_of(st)
            == ctx_of(st2)),
        st2 is AwaitStageExceptionsClear ==> (st is AwaitStageLogsClear && ev is IoOk && ctx_of(st)
            == ctx_of(st2)),
        st2 is AwaitStageLogsClear ==> (st is AwaitStageMirror && ev is IoOk && ctx_of(st)
            == ctx_of(st2)),
{
}

/// Side-channel freshness, closed over a whole run: walk the machine from
/// its first state through any events that keep it advancing, and let the
/// file tree go through any history [`may_leave`] allows for the awaited
/// actions. The moment the machine comes to await the toolchain's exit —
/// the invocation has just been requested — the log and exception
/// directories of both the staging area and the project root hold nothing,
/// whatever the tree held when the run began.
pub proof fn theorem_toolchain_starts_clean(
    p: PublishV,
    evs: Seq<EventV>,
    k: int,
    history: Seq<FsModel>,
)
    requires
        0 < k <= evs.len(),
        history.len() >= k + 1,
        state_at(p, StateV::AwaitConfig, evs, 0, k) is AwaitExit,
        forall|j: int|
            0 <= j < k ==> advances(p, #[trigger] state_at(p, StateV::AwaitConfig, evs, 0, j), evs[j]),
        forall|j: int|
            0 <= j < k ==> may_leave(
                #[trigger] history[j],
                awaited_action(p, state_at(p, StateV::AwaitConfig, evs, 0, j)),
                evs[j],
                history[j + 1],
            ),
    ensures
        ({
            let stage = ctx_of(state_at(p, StateV::AwaitConfig, evs, 0, k)).stage;
            &&& tree_absent(history[k], logs_path(stage))
            &&& tree_absent(history[k], exceptions_path(stage))
            &&& tree_absent(history[k], logs_path(p.root))
            &&& tree_absent(history[k], exceptions_path(p.root))
        }),
{
    let s0 = StateV::AwaitConfig;
    let stage = ctx_of(state_at(p, s0, evs, 0, k)).stage;
    // Step k-1 entered the invocation state: its source was the last local
    // clearing, on success.
    assert(advances(p, state_at(p, s0, evs, 0, k - 1), evs[k - 1]));
    match next_spec(p, state_at(p, s0, evs, 0, k - 1), evs[k - 1]) {
        Some(StepV::Do(st2, a)) => {
            assert(st2 == state_at(p, s0, evs, 0, k));
            lemma_into_exit(p, state_at(p, s0, evs, 0, k - 1), evs[k - 1], st2, a);
        },
        _ => {
            assert(false);
        },
    }
    let c1 = state_at(p, s0, evs, 0, k - 1);
    assert(c1 is AwaitLocalExceptionsClear && ctx_of(c1).stage == stage);
    assert(k - 1 > 0) by {
        if k - 1 == 0 {
            assert(c1 == s0);
        }
    }
    assert(advances(p, state_at(p, s0, evs, 0, k - 2), evs[k - 2]));
    match next_spec(p, state_at(p, s0, evs, 0, k - 2), evs[k - 2]) {
        Some(StepV::Do(st2, a)) => {
            assert(st2 == c1);
            lemma_into_staging_states(p, state_at(p, s0, evs, 0, k - 2), evs[k - 2], st2, a);
        },
        _ => {
            assert(false);
        },
    }
    let c2 = state_at(p, s0, evs, 0, k - 2);
    assert(c2 is AwaitLocalLogsClear && ctx_of(c2).stage == stage);
    assert(k - 2 > 0) by {
        if k - 2 == 0 {
            assert(c2 == s0);
        }
    }
    assert(advances(p, state_at(p, s0, evs, 0, k - 3), evs[k - 3]));
    match next_spec(p, state_at(p, s0, evs, 0, k - 3), evs[k - 3]) {
        Some(StepV::Do(st2, a)) => {
            assert(st2 == c2);
            lemma_into_staging_states(p, state_at(p, s0, evs, 0, k - 3), evs[k - 3], st2, a);
        },
        _ => {
            assert(false);
        },
    }
    let c3 = state_at(p, s0, evs, 0, k - 3);
    assert(c3 is AwaitStageExceptionsClear && ctx_of(c3).stage == stage);
    assert(k - 3 > 0) by {
        if k - 3 == 0 {
            assert(c3 == s0);
        }
    }
    assert(advances(p, state_at(p, s0, evs, 0, k - 4), evs[k - 4]));
    match next_spec(p, state_at(p, s0, evs, 0, k - 4), evs[k - 4]) {
        Some(StepV::Do(st2, a)) => {
            assert(st2 == c3);
            lemma_into_staging_states(p, state_at(p, s0, evs, 0, k - 4), evs[k - 4], st2, a);
        },
        _ => {
            assert(false);
        },
    }
    let c4 = state_at(p, s0, evs, 0, k - 4);
    assert(c4 is AwaitStageLogsClear && ctx_of(c4).stage == stage);
    // The four clearings, last to first, each allowed only its modelled
    // effect by `may_leave`.
    assert(awaited_action(p, c1) == (ActionV::ClearPath { path: exceptions_path(p.root) }));
    assert(history[k] == clear_tree(history[k - 1], exceptions_path(p.root)));
    assert(awaited_action(p, c2) == (ActionV::ClearPath { path: logs_path(p.root) }));
    assert(history[k - 1] == clear_tree(history[k - 2], logs_path(p.root)));
    assert(awaited_action(p, c3) == (ActionV::ClearPath { path: exceptions_path(stage) }));
    assert(history[k - 2] == clear_tree(history[k - 3], exceptions_path(stage)));
    assert(awaited_action(p, c4) == (ActionV::ClearPath { path: logs_path(stage) }));
    assert(history[k - 3] == clear_tree(history[k - 4], logs_path(stage)));
    let f1 = history[k - 3];
    let f2 = history[k - 2];
    let f3 = history[k - 1];
    lemma_clear_clears(history[k - 4], logs_path(stage));
    lemma_clear_preserves_absence(f1, exceptions_path(stage), logs_path(stage));
    lemma_clear_preserves_absence(f2, logs_path(p.root), logs_path(stage));
    lemma_clear_preserves_absence(f3, exceptions_path(p.root), logs_path(stage));
    lemma_clear_clears(f1, exceptions_path(stage));
    lemma_clear_preserves_absence(f2, logs_path(p.root), exceptions_path(stage));
    lemma_clear_preserves_absence(f3, exceptions_path(p.root), exceptions_path(stage));
    lemma_clear_clears(f2, logs_path(p.root));
    lemma_clear_preserves_absence(f3, exceptions_path(p.root), logs_path(p.root));
    lemma_clear_clears(f3, exceptions_path(p.root));
}

/// The artifacts come home: when the reconciliation mirror the machine
/// requests after the toolchain's exit succeeds, every file the toolchain
/// left in the staging area's builds directory stands afterwards at the
/// same relative path under the project root's builds directory, contents
/// identical.
pub proof fn theorem_artifacts_come_home(
    p: PublishV,
    st: StateV,
    ev: EventV,
    fs: FsModel,
    fs2: FsModel,
    rel: Seq<Seq<char>>,
)
    requires
        st is AwaitBuildsMirror,
        ev is IoOk,
        may_leave(fs, awaited_action(p, st), ev, fs2),
        rel.len() > 0,
        fs.dom().contains(builds_path(ctx_of(st).stage) + rel),
    ensures
        fs2.dom().contains(builds_path(p.root) + rel),
        fs2[builds_path(p.root) + rel] == fs[builds_path(ctx_of(st).stage) + rel],
{
    lemma_mirror_complete(fs, builds_path(ctx_of(st).stage), builds_path(p.root), rel);
}

/// Before staging, nothing: a run refused for a missing toolchain reports
/// the toolchain error at once, with no filesystem action ever requested —
/// the machine's first three actions read and write only the project's own
/// configuration and metadata.
pub proof fn lemma_missing_toolchain_aborts_before_staging(
    p: PublishV,
    project_name: Seq<char>,
    toolchain_version: Seq<char>,
)
    ensures
        next_spec(
            p,
            StateV::AwaitToolchain { project_name, toolchain_version },
            EventV::ToolchainMissing,
        ) == Some(StepV::Done(Err::<PublishResultV, ErrorV>(
            ErrorV::ConfiguredDragonRubyNotFound,
        ))),
{
}

} // verus!
