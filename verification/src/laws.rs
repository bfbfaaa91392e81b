//! The engine's guarantees, stated and proved over the spec-level transition
//! function [`step_spec`] that every exec step is pinned to.

use vstd::prelude::*;
use crate::activity::push_bounded;
use crate::activity::EntryView;
use crate::config::{configured, ConfigView};
use crate::engine::{
    action_of, begin_run, outcome_entry, run_wf, step_spec, ActionView, EngineView, EventView,
    RunView, SyncPhase,
};
use crate::status::StatusView;
use crate::text::has_conflict_marker;

verus! {

/// The event reporting a tool invocation that ran and exited successfully.
pub open spec fn tool_success_event() -> EventView {
    EventView::ToolFinished {
        launched: true,
        launch_err: Seq::<char>::empty(),
        exit_ok: true,
        exit_code: Some(0),
        stderr: Seq::<char>::empty(),
    }
}

/// The event reporting a tool invocation that ran and failed with `stderr`.
pub open spec fn tool_failure_event(code: Option<i32>, stderr: Seq<char>) -> EventView {
    EventView::ToolFinished {
        launched: true,
        launch_err: Seq::<char>::empty(),
        exit_ok: false,
        exit_code: code,
        stderr,
    }
}

/// The event reporting a prepared target directory.
pub open spec fn prepared_event(marker_present: bool) -> EventView {
    EventView::Prepared { dir_ok: true, dir_err: Seq::<char>::empty(), marker_present }
}

/// When both targets succeed, one full run ends with status `Idle` and
/// appends exactly two entries — `sync_personal` success, then `sync_shared`
/// success — whatever the log held before and whether either target was on
/// its first run.
pub proof fn lemma_run_both_success(
    e: EngineView,
    c: ConfigView,
    secret: Seq<char>,
    stdout: Seq<char>,
    mp1: bool,
    mp2: bool,
    ts1: i64,
    ts2: i64,
)
    requires
        configured(c),
        e.log.len() + 2 <= 1000,
    ensures
        ({
            let e1 = EngineView { status: e.status, log: e.log, busy: true };
            let r1 = begin_run(c, secret);
            let s2 = step_spec(e1, r1, EventView::Obscured { launched: true, exit_ok: true, stdout }, 0);
            let s3 = step_spec(s2.0, s2.1, prepared_event(mp1), 0);
            let s4 = step_spec(s3.0, s3.1, tool_success_event(), ts1);
            let s5 = if mp1 {
                s4
            } else {
                step_spec(s4.0, s4.1, EventView::MarkerWritten { ok: true }, ts1)
            };
            let s6 = step_spec(s5.0, s5.1, prepared_event(mp2), 0);
            let s7 = step_spec(s6.0, s6.1, tool_success_event(), ts2);
            let s8 = if mp2 {
                s7
            } else {
                step_spec(s7.0, s7.1, EventView::MarkerWritten { ok: true }, ts2)
            };
            &&& s8.1.phase == SyncPhase::Complete
            &&& run_wf(s8.1)
            &&& s8.0.status == StatusView::Idle
            &&& !s8.0.busy
            &&& s8.0.log == e.log.push(outcome_entry(ts1, false, Ok(()))).push(
                outcome_entry(ts2, true, Ok(())),
            )
        }),
{
}

/// When the personal target fails (with a message free of the conflict
/// marker) and the shared target succeeds, the run ends with status `Error`
/// carrying the personal failure message, and still appends two entries: one
/// error, one success.
pub proof fn lemma_personal_fails_shared_succeeds(
    e: EngineView,
    c: ConfigView,
    secret: Seq<char>,
    stdout: Seq<char>,
    code: Option<i32>,
    msg: Seq<char>,
    mp2: bool,
    ts1: i64,
    ts2: i64,
)
    requires
        configured(c),
        e.log.len() + 2 <= 1000,
        msg.len() > 0,
        !has_conflict_marker(msg),
    ensures
        ({
            let e1 = EngineView { status: e.status, log: e.log, busy: true };
            let r1 = begin_run(c, secret);
            let s2 = step_spec(e1, r1, EventView::Obscured { launched: true, exit_ok: true, stdout }, 0);
            let s3 = step_spec(s2.0, s2.1, prepared_event(true), 0);
            let s4 = step_spec(s3.0, s3.1, tool_failure_event(code, msg), ts1);
            let s5 = step_spec(s4.0, s4.1, prepared_event(mp2), 0);
            let s6 = step_spec(s5.0, s5.1, tool_success_event(), ts2);
            let s7 = if mp2 {
                s6
            } else {
                step_spec(s6.0, s6.1, EventView::MarkerWritten { ok: true }, ts2)
            };
            &&& s7.1.phase == SyncPhase::Complete
            &&& s7.0.status == StatusView::Error(msg)
            &&& !s7.0.busy
            &&& s7.0.log == e.log.push(outcome_entry(ts1, false, Err(msg))).push(
                outcome_entry(ts2, true, Ok(())),
            )
        }),
{
}

/// A tool failure whose diagnostic text carries the conflict marker (the
/// substring "conflict" in any case) moves the surfaced status to `Conflict`,
/// not `Error`, even though the target's own outcome is a failure.  For the
/// shared target this holds when the personal target did not itself fail
/// with a conflict-free message (that earlier failure would govern).
pub proof fn lemma_conflict_classified(
    e: EngineView,
    r: RunView,
    shared: bool,
    resync: bool,
    code: Option<i32>,
    stderr: Seq<char>,
    ts: i64,
)
    requires
        r.phase == (SyncPhase::Tool { shared, resync }),
        run_wf(r),
        stderr.len() > 0,
        has_conflict_marker(stderr),
        shared ==> r.personal_outcome == Some(Ok::<(), Seq<char>>(())),
    ensures
        ({
            let s2 = step_spec(e, r, tool_failure_event(code, stderr), ts);
            &&& s2.0.status == StatusView::Conflict
            &&& (if shared {
                s2.1.shared_outcome
            } else {
                s2.1.personal_outcome
            }) == Some(Err::<(), Seq<char>>(stderr))
        }),
{
}

/// An absent init marker puts the target in first-run (resync) mode; a
/// present marker in incremental mode.  Nothing else changes.
pub proof fn lemma_marker_decides_run_mode(
    e: EngineView,
    r: RunView,
    shared: bool,
    marker_present: bool,
)
    requires
        r.phase == (SyncPhase::Prepare { shared }),
    ensures
        ({
            let s2 = step_spec(e, r, prepared_event(marker_present), 0);
            &&& s2.0 == e
            &&& s2.1 == (RunView {
                phase: SyncPhase::Tool { shared, resync: !marker_present },
                ..r
            })
        }),
{
}

/// The engine asks for the init marker to be written exactly when a
/// first-run (resync) tool invocation exits successfully; after any failure
/// the run moves on without a marker write, so the next run for that
/// directory is again treated as a first run.
pub proof fn lemma_marker_written_only_after_success(
    e: EngineView,
    r: RunView,
    shared: bool,
    resync: bool,
    launched: bool,
    launch_err: Seq<char>,
    exit_ok: bool,
    code: Option<i32>,
    stderr: Seq<char>,
    ts: i64,
)
    requires
        r.phase == (SyncPhase::Tool { shared, resync }),
    ensures
        ({
            let ev = EventView::ToolFinished {
                launched,
                launch_err,
                exit_ok,
                exit_code: code,
                stderr,
            };
            let s2 = step_spec(e, r, ev, ts);
            (s2.1.phase == (SyncPhase::Mark { shared })) <==> (resync && launched && exit_ok)
        }),
{
}

/// A marker-write action is pending exactly while a successful first run is
/// being recorded.
pub proof fn lemma_marker_action_only_in_mark_phase(r: RunView)
    ensures
        (action_of(r) matches ActionView::WriteInitMarker { .. }) <==> (r.phase matches SyncPhase::Mark { .. }),
{
}

/// A failed obscure invocation aborts the run before any directory or tool
/// action: the status and the log are exactly as before, only the run guard
/// is released, and nothing is left for the application to do.
pub proof fn lemma_obscure_failure_aborts(
    e: EngineView,
    r: RunView,
    launched: bool,
    exit_ok: bool,
    stdout: Seq<char>,
    ts: i64,
)
    requires
        r.phase == SyncPhase::Obscure,
        !(launched && exit_ok),
    ensures
        ({
            let s2 = step_spec(e, r, EventView::Obscured { launched, exit_ok, stdout }, ts);
            &&& s2.0.status == e.status
            &&& s2.0.log == e.log
            &&& !s2.0.busy
            &&& s2.1.phase == SyncPhase::Failed
            &&& action_of(s2.1) == ActionView::Done
        }),
{
}

/// The activity log is bounded: an append keeps it at or under 1000 entries;
/// below the bound it is a plain append, at the bound the oldest entry is
/// evicted and the retained entries are exactly the most recent 1000 in
/// original order.
pub proof fn lemma_log_bounded(log: Seq<EntryView>, e: EntryView)
    requires
        log.len() <= 1000,
    ensures
        push_bounded(log, e).len() <= 1000,
        log.len() < 1000 ==> push_bounded(log, e) == log.push(e),
        log.len() == 1000 ==> push_bounded(log, e) == log.push(e).skip(1),
{
}

} // verus!

