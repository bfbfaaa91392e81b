//! The sync orchestration engine.
//!
//! One sync run works through both configured directory targets in fixed
//! order (personal, then shared).  The effectful edges — obscuring the
//! credential with the external tool, creating local directories, invoking
//! the tool, writing the init marker — are performed by the surrounding
//! application: the engine hands it a [`SyncAction`], the application performs
//! it and answers with a [`SyncEvent`], and [`SyncEngine::sync_step`] takes
//! the verified decision.  The whole decision logic is captured by the spec
//! function [`step_spec`].
//!
//! Two deliberate choices: the status turns `Syncing` only once the
//! credential has been obscured, so an obscure failure leaves status and log
//! exactly as they were; and a run begins only when no other run holds the
//! engine's single-slot guard, so two tool invocations never overlap on the
//! same directories.

use vstd::prelude::*;
use crate::activity::{ActivityEntry, ActivityLog, EntryView, push_bounded};
use crate::clock::now_timestamp;
use crate::config::{AppConfig, ConfigView, configured, spec_personal_webdav_url, spec_shared_webdav_url};
use crate::status::{StatusView, SyncStatus};
use crate::text::{dec_int, find_conflict_marker, has_conflict_marker, i32_decimal, str_concat, trim_end_spaces, trim_end_spaces_str};

verus! {

/// Where one sync run stands.  `shared` selects the target being worked on:
/// `false` is the personal target, `true` the shared one.
#[derive(Debug, Clone, Copy, PartialEq, Eq, Structural)]
pub enum SyncPhase {
    /// Waiting for the outcome of the credential-obscure invocation.
    Obscure,
    /// Waiting for the target's directory to be ensured and its init marker
    /// probed.
    Prepare { shared: bool },
    /// Waiting for the tool invocation against the target to finish.
    /// `resync` records whether this is a first run (no init marker).
    Tool { shared: bool, resync: bool },
    /// Waiting for the init marker of a successful first run to be written.
    Mark { shared: bool },
    /// Both targets have been worked through.
    Complete,
    /// Obscuring the credential failed; nothing was touched.
    Failed,
}

/// One sync run: a snapshot of the configuration plus the progress made.
pub struct SyncRun {
    username: String,
    secret: String,
    personal_url: String,
    personal_path: String,
    shared_url: String,
    shared_path: String,
    obscured: String,
    personal_outcome: Option<Result<(), String>>,
    shared_outcome: Option<Result<(), String>>,
    phase: SyncPhase,
}

/// Mathematical value of a `SyncRun`.
pub struct RunView {
    pub username: Seq<char>,
    pub secret: Seq<char>,
    pub personal_url: Seq<char>,
    pub personal_path: Seq<char>,
    pub shared_url: Seq<char>,
    pub shared_path: Seq<char>,
    pub obscured: Seq<char>,
    pub personal_outcome: Option<Result<(), Seq<char>>>,
    pub shared_outcome: Option<Result<(), Seq<char>>>,
    pub phase: SyncPhase,
}

/// The message sequence of an outcome.
pub open spec fn res_view(r: Result<(), String>) -> Result<(), Seq<char>> {
    match r {
        Ok(_) => Ok(()),
        Err(m) => Err(m@),
    }
}

/// The option-of-message view of a stored outcome.
pub open spec fn opt_res_view(r: Option<Result<(), String>>) -> Option<Result<(), Seq<char>>> {
    match r {
        Some(o) => Some(res_view(o)),
        None => None,
    }
}

impl View for SyncRun {
    type V = RunView;

    closed spec fn view(&self) -> RunView {
        RunView {
            username: self.username@,
            secret: self.secret@,
            personal_url: self.personal_url@,
            personal_path: self.personal_path@,
            shared_url: self.shared_url@,
            shared_path: self.shared_path@,
            obscured: self.obscured@,
            personal_outcome: opt_res_view(self.personal_outcome),
            shared_outcome: opt_res_view(self.shared_outcome),
            phase: self.phase,
        }
    }
}

/// What the application must do next for a run.
pub enum SyncAction {
    /// Run the external tool's obscure subcommand on the secret.
    ObscureSecret { secret: String },
    /// Create `local_path` (recursively, if absent) and report whether the
    /// file at `marker_path` exists.
    PrepareTarget { local_path: String, marker_path: String },
    /// Invoke the external tool with `args`, supplying `remote_url`,
    /// `username` and `obscured` through its environment, never through
    /// process arguments.
    RunTool {
        remote_url: String,
        local_path: String,
        username: String,
        obscured: String,
        args: Vec<String>,
    },
    /// Write the init marker file at `marker_path` (best effort).
    WriteInitMarker { marker_path: String },
    /// The run is over; nothing is left to do.
    Done,
}

/// Mathematical value of a `SyncAction`.
pub enum ActionView {
    ObscureSecret { secret: Seq<char> },
    PrepareTarget { local_path: Seq<char>, marker_path: Seq<char> },
    RunTool {
        remote_url: Seq<char>,
        local_path: Seq<char>,
        username: Seq<char>,
        obscured: Seq<char>,
        args: Seq<Seq<char>>,
    },
    WriteInitMarker { marker_path: Seq<char> },
    Done,
}

impl View for SyncAction {
    type V = ActionView;

    open spec fn view(&self) -> ActionView {
        match self {
            SyncAction::ObscureSecret { secret } => ActionView::ObscureSecret { secret: secret@ },
            SyncAction::PrepareTarget { local_path, marker_path } => ActionView::PrepareTarget {
                local_path: local_path@,
                marker_path: marker_path@,
            },
            SyncAction::RunTool { remote_url, local_path, username, obscured, args } => ActionView::RunTool {
                remote_url: remote_url@,
                local_path: local_path@,
                username: username@,
                obscured: obscured@,
                args: args.deep_view(),
            },
            SyncAction::WriteInitMarker { marker_path } => ActionView::WriteInitMarker {
                marker_path: marker_path@,
            },
            SyncAction::Done => ActionView::Done,
        }
    }
}

/// What the application observed while performing the pending action.
pub enum SyncEvent {
    /// Outcome of the obscure invocation: whether the tool could be launched,
    /// whether it exited successfully, and its standard output.
    Obscured { launched: bool, exit_ok: bool, stdout: String },
    /// Outcome of preparing a target: whether the directory now exists (with
    /// the failure text otherwise), and whether the init marker was present.
    Prepared { dir_ok: bool, dir_err: String, marker_present: bool },
    /// Outcome of the tool invocation: whether it could be launched (with the
    /// failure text otherwise), its exit, and its standard error.
    ToolFinished {
        launched: bool,
        launch_err: String,
        exit_ok: bool,
        exit_code: Option<i32>,
        stderr: String,
    },
    /// Whether writing the init marker succeeded (best effort either way).
    MarkerWritten { ok: bool },
}

/// Mathematical value of a `SyncEvent`.
pub enum EventView {
    Obscured { launched: bool, exit_ok: bool, stdout: Seq<char> },
    Prepared { dir_ok: bool, dir_err: Seq<char>, marker_present: bool },
    ToolFinished {
        launched: bool,
        launch_err: Seq<char>,
        exit_ok: bool,
        exit_code: Option<i32>,
        stderr: Seq<char>,
    },
    MarkerWritten { ok: bool },
}

impl View for SyncEvent {
    type V = EventView;

    open spec fn view(&self) -> EventView {
        match self {
            SyncEvent::Obscured { launched, exit_ok, stdout } => EventView::Obscured {
                launched: *launched,
                exit_ok: *exit_ok,
                stdout: stdout@,
            },
            SyncEvent::Prepared { dir_ok, dir_err, marker_present } => EventView::Prepared {
                dir_ok: *dir_ok,
                dir_err: dir_err@,
                marker_present: *marker_present,
            },
            SyncEvent::ToolFinished { launched, launch_err, exit_ok, exit_code, stderr } => EventView::ToolFinished {
                launched: *launched,
                launch_err: launch_err@,
                exit_ok: *exit_ok,
                exit_code: *exit_code,
                stderr: stderr@,
            },
            SyncEvent::MarkerWritten { ok } => EventView::MarkerWritten { ok: *ok },
        }
    }
}

/// The engine: the status slot, the activity log, and the single-slot guard
/// that serializes sync runs.
pub struct SyncEngine {
    status: SyncStatus,
    log: ActivityLog,
    busy: bool,
}

/// Mathematical value of a `SyncEngine`.
pub struct EngineView {
    pub status: StatusView,
    pub log: Seq<EntryView>,
    pub busy: bool,
}

impl View for SyncEngine {
    type V = EngineView;

    closed spec fn view(&self) -> EngineView {
        EngineView { status: self.status@, log: self.log@, busy: self.busy }
    }
}

/// The activity-log action name of a target.
pub open spec fn action_name(shared: bool) -> Seq<char> {
    if shared {
        "sync_shared"@
    } else {
        "sync_personal"@
    }
}

/// The activity entry recorded for a target's outcome: `success` with no
/// details, or `error` carrying the failure message.
pub open spec fn outcome_entry(ts: i64, shared: bool, outcome: Result<(), Seq<char>>) -> EntryView {
    EntryView {
        timestamp: ts,
        action: action_name(shared),
        file_path: Seq::<char>::empty(),
        status: if outcome is Ok {
            "success"@
        } else {
            "error"@
        },
        details: match outcome {
            Ok(_) => None,
            Err(m) => Some(m),
        },
    }
}

/// The failure message for a directory that could not be created.
pub open spec fn dir_fail_msg(shared: bool, err: Seq<char>) -> Seq<char> {
    (if shared {
        "Cannot create shared dir: "@
    } else {
        "Cannot create personal dir: "@
    }) + err
}

/// The failure message for a tool process that could not be launched.
pub open spec fn launch_fail_msg(err: Seq<char>) -> Seq<char> {
    "Failed to run rclone: "@ + err
}

/// The synthesized message for a tool run that failed without diagnostics.
pub open spec fn exit_code_msg(code: Option<i32>) -> Seq<char> {
    match code {
        Some(n) => "rclone exited with code "@ + dec_int(n as int),
        None => "rclone exited with an unknown code"@,
    }
}

/// The failure message of a failed tool invocation: the launch failure, or
/// the tool's own diagnostics, or a synthesized exit-code message when the
/// tool produced none.
pub open spec fn tool_fail_msg(
    launched: bool,
    launch_err: Seq<char>,
    exit_code: Option<i32>,
    stderr: Seq<char>,
) -> Seq<char> {
    if !launched {
        launch_fail_msg(launch_err)
    } else if stderr.len() == 0 {
        exit_code_msg(exit_code)
    } else {
        stderr
    }
}

/// The status after both targets are done: `Idle` when both succeeded;
/// otherwise the first failure governs (personal over shared), giving
/// `Conflict` when its message carries the conflict marker and `Error` with
/// that message otherwise.
pub open spec fn aggregate_status(
    personal: Result<(), Seq<char>>,
    shared: Result<(), Seq<char>>,
) -> StatusView {
    match (personal, shared) {
        (Ok(_), Ok(_)) => StatusView::Idle,
        _ => {
            let m = match personal {
                Err(mp) => mp,
                Ok(_) => match shared {
                    Err(ms) => ms,
                    Ok(_) => Seq::<char>::empty(),
                },
            };
            if has_conflict_marker(m) {
                StatusView::Conflict
            } else {
                StatusView::Error(m)
            }
        },
    }
}

/// `r` with the outcome of the selected target recorded and the phase moved.
pub open spec fn set_outcome(
    r: RunView,
    shared: bool,
    outcome: Result<(), Seq<char>>,
    phase: SyncPhase,
) -> RunView {
    if shared {
        RunView { shared_outcome: Some(outcome), phase, ..r }
    } else {
        RunView { personal_outcome: Some(outcome), phase, ..r }
    }
}

/// Finish the selected target: record its activity entry and outcome, then
/// either turn to the shared target (after the personal one) or aggregate the
/// final status and release the run guard (after the shared one).  `mid` is
/// the status surfaced while the run goes on.
pub open spec fn finish_target(
    e: EngineView,
    r: RunView,
    shared: bool,
    outcome: Result<(), Seq<char>>,
    ts: i64,
    mid: StatusView,
) -> (EngineView, RunView) {
    let log2 = push_bounded(e.log, outcome_entry(ts, shared, outcome));
    if !shared {
        (
            EngineView { status: mid, log: log2, busy: e.busy },
            set_outcome(r, false, outcome, SyncPhase::Prepare { shared: true }),
        )
    } else {
        let personal = match r.personal_outcome {
            Some(o) => o,
            None => Ok(()),
        };
        (
            EngineView { status: aggregate_status(personal, outcome), log: log2, busy: false },
            set_outcome(r, true, outcome, SyncPhase::Complete),
        )
    }
}

/// Whether an event answers the action pending in `phase`.
pub open spec fn expects(phase: SyncPhase, ev: EventView) -> bool {
    match (phase, ev) {
        (SyncPhase::Obscure, EventView::Obscured { .. }) => true,
        (SyncPhase::Prepare { .. }, EventView::Prepared { .. }) => true,
        (SyncPhase::Tool { .. }, EventView::ToolFinished { .. }) => true,
        (SyncPhase::Mark { .. }, EventView::MarkerWritten { .. }) => true,
        _ => false,
    }
}

/// The run's bookkeeping is consistent with its phase: outcomes are recorded
/// exactly for the targets already worked through, and a marker is written
/// only after a successful first run.
pub open spec fn run_wf(r: RunView) -> bool {
    match r.phase {
        SyncPhase::Obscure => r.personal_outcome is None && r.shared_outcome is None,
        SyncPhase::Prepare { shared } => (if shared {
            r.personal_outcome is Some
        } else {
            r.personal_outcome is None
        }) && r.shared_outcome is None,
        SyncPhase::Tool { shared, .. } => (if shared {
            r.personal_outcome is Some
        } else {
            r.personal_outcome is None
        }) && r.shared_outcome is None,
        SyncPhase::Mark { shared } => if shared {
            r.personal_outcome is Some && r.shared_outcome == Some(Ok::<(), Seq<char>>(()))
        } else {
            r.personal_outcome == Some(Ok::<(), Seq<char>>(())) && r.shared_outcome is None
        },
        SyncPhase::Complete => r.personal_outcome is Some && r.shared_outcome is Some,
        SyncPhase::Failed => r.personal_outcome is None && r.shared_outcome is None,
    }
}

/// One verified decision step of the engine: given the pending phase and the
/// observed event, the next engine state and run state.
pub open spec fn step_spec(e: EngineView, r: RunView, ev: EventView, ts: i64) -> (
    EngineView,
    RunView,
) {
    match (r.phase, ev) {
        (SyncPhase::Obscure, EventView::Obscured { launched, exit_ok, stdout }) => {
            if launched && exit_ok {
                (
                    EngineView { status: StatusView::Syncing, log: e.log, busy: e.busy },
                    RunView {
                        obscured: trim_end_spaces(stdout),
                        phase: SyncPhase::Prepare { shared: false },
                        ..r
                    },
                )
            } else {
                (
                    EngineView { status: e.status, log: e.log, busy: false },
                    RunView { phase: SyncPhase::Failed, ..r },
                )
            }
        },
        (SyncPhase::Prepare { shared }, EventView::Prepared { dir_ok, dir_err, marker_present }) => {
            if dir_ok {
                (e, RunView { phase: SyncPhase::Tool { shared, resync: !marker_present }, ..r })
            } else {
                finish_target(e, r, shared, Err(dir_fail_msg(shared, dir_err)), ts, e.status)
            }
        },
        (
            SyncPhase::Tool { shared, resync },
            EventView::ToolFinished { launched, launch_err, exit_ok, exit_code, stderr },
        ) => {
            if launched && exit_ok {
                if resync {
                    (e, set_outcome(r, shared, Ok(()), SyncPhase::Mark { shared }))
                } else {
                    finish_target(e, r, shared, Ok(()), ts, e.status)
                }
            } else {
                let msg = tool_fail_msg(launched, launch_err, exit_code, stderr);
                let mid = if has_conflict_marker(msg) {
                    StatusView::Conflict
                } else {
                    e.status
                };
                finish_target(e, r, shared, Err(msg), ts, mid)
            }
        },
        (SyncPhase::Mark { shared }, EventView::MarkerWritten { .. }) => {
            finish_target(e, r, shared, Ok(()), ts, e.status)
        },
        _ => (e, r),
    }
}

/// The run a complete configuration begins: both targets snapshotted, no
/// outcome yet, waiting for the credential to be obscured.
pub open spec fn begin_run(c: ConfigView, secret: Seq<char>) -> RunView {
    RunView {
        username: c.user_email,
        secret,
        personal_url: spec_personal_webdav_url(c),
        personal_path: c.personal_sync_path,
        shared_url: spec_shared_webdav_url(c),
        shared_path: c.shared_sync_path,
        obscured: Seq::<char>::empty(),
        personal_outcome: None,
        shared_outcome: None,
        phase: SyncPhase::Obscure,
    }
}

/// The local path of the selected target.
pub open spec fn target_path(r: RunView, shared: bool) -> Seq<char> {
    if shared {
        r.shared_path
    } else {
        r.personal_path
    }
}

/// The remote endpoint of the selected target.
pub open spec fn target_url(r: RunView, shared: bool) -> Seq<char> {
    if shared {
        r.shared_url
    } else {
        r.personal_url
    }
}

/// The init-marker path inside a target directory.
pub open spec fn marker_path_of(dir: Seq<char>) -> Seq<char> {
    dir + "/.sync-init"@
}

/// The argument list of one tool invocation: bidirectional sync of the remote
/// alias against the local path, creating empty source directories, resilient,
/// resolving conflicts toward the newer version, verbose; a first run asks for
/// a full resync, a later one for recovery from an interrupted run.
pub open spec fn bisync_args(local: Seq<char>, resync: bool) -> Seq<Seq<char>> {
    seq![
        "bisync"@,
        ":webdav:"@,
        local,
        "--create-empty-src-dirs"@,
        "--resilient"@,
        "--conflict-resolve=newer"@,
        "--verbose"@,
        if resync {
            "--resync"@
        } else {
            "--recover"@
        },
    ]
}

/// The action pending for a run.
pub open spec fn action_of(r: RunView) -> ActionView {
    match r.phase {
        SyncPhase::Obscure => ActionView::ObscureSecret { secret: r.secret },
        SyncPhase::Prepare { shared } => ActionView::PrepareTarget {
            local_path: target_path(r, shared),
            marker_path: marker_path_of(target_path(r, shared)),
        },
        SyncPhase::Tool { shared, resync } => ActionView::RunTool {
            remote_url: target_url(r, shared),
            local_path: target_path(r, shared),
            username: r.username,
            obscured: r.obscured,
            args: bisync_args(target_path(r, shared), resync),
        },
        SyncPhase::Mark { shared } => ActionView::WriteInitMarker {
            marker_path: marker_path_of(target_path(r, shared)),
        },
        SyncPhase::Complete => ActionView::Done,
        SyncPhase::Failed => ActionView::Done,
    }
}

fn bisync_args_exec(local: &String, resync: bool) -> (v: Vec<String>)
    ensures
        v.deep_view() == bisync_args(local@, resync),
{
    let mut v: Vec<String> = Vec::new();
    v.push(String::from_str("bisync"));
    v.push(String::from_str(":webdav:"));
    v.push(local.clone());
    v.push(String::from_str("--create-empty-src-dirs"));
    v.push(String::from_str("--resilient"));
    v.push(String::from_str("--conflict-resolve=newer"));
    v.push(String::from_str("--verbose"));
    if resync {
        v.push(String::from_str("--resync"));
    } else {
        v.push(String::from_str("--recover"));
    }
    proof {
        assert(v.deep_view() =~= bisync_args(local@, resync));
    }
    v
}

impl SyncRun {
    /// What the application must do next for this run.
    pub fn next_action(&self) -> (a: SyncAction)
        ensures
            a@ == action_of(self@),
    {
        match self.phase {
            SyncPhase::Obscure => SyncAction::ObscureSecret { secret: self.secret.clone() },
            SyncPhase::Prepare { shared } => {
                let path = if shared {
                    &self.shared_path
                } else {
                    &self.personal_path
                };
                SyncAction::PrepareTarget {
                    local_path: path.clone(),
                    marker_path: str_concat(path.as_str(), "/.sync-init"),
                }
            },
            SyncPhase::Tool { shared, resync } => {
                let path = if shared {
                    &self.shared_path
                } else {
                    &self.personal_path
                };
                let url = if shared {
                    &self.shared_url
                } else {
                    &self.personal_url
                };
                SyncAction::RunTool {
                    remote_url: url.clone(),
                    local_path: path.clone(),
                    username: self.username.clone(),
                    obscured: self.obscured.clone(),
                    args: bisync_args_exec(path, resync),
                }
            },
            SyncPhase::Mark { shared } => {
                let path = if shared {
                    &self.shared_path
                } else {
                    &self.personal_path
                };
                SyncAction::WriteInitMarker { marker_path: str_concat(path.as_str(), "/.sync-init") }
            },
            SyncPhase::Complete => SyncAction::Done,
            SyncPhase::Failed => SyncAction::Done,
        }
    }

    /// Whether the run is over (completed or aborted).
    pub fn finished(&self) -> (r: bool)
        ensures
            r == (self@.phase == SyncPhase::Complete || self@.phase == SyncPhase::Failed),
    {
        match self.phase {
            SyncPhase::Complete => true,
            SyncPhase::Failed => true,
            _ => false,
        }
    }

    /// The run's own result.  A run that worked through both targets returns
    /// success — per-target failures are surfaced through the status and the
    /// activity log, not through this channel.  Only a run aborted by an
    /// obscure failure is a hard failure.
    pub fn result(&self) -> (r: Result<(), String>)
        requires
            self@.phase == SyncPhase::Complete || self@.phase == SyncPhase::Failed,
        ensures
            self@.phase == SyncPhase::Complete ==> r matches Ok(_),
            self@.phase == SyncPhase::Failed ==> (r matches Err(m) && m@
                == "Failed to obscure password"@),
    {
        match self.phase {
            SyncPhase::Complete => Ok(()),
            _ => Err(String::from_str("Failed to obscure password")),
        }
    }
}

impl SyncEngine {
    /// The activity log never exceeds its capacity.
    pub open spec fn wf(&self) -> bool {
        self@.log.len() <= 1000
    }

    /// A fresh engine: not configured, empty log, no run in progress.
    pub fn new() -> (r: Self)
        ensures
            r.wf(),
            r@.status == StatusView::NotConfigured,
            r@.log =~= Seq::<EntryView>::empty(),
            r@.busy == false,
    {
        SyncEngine { status: SyncStatus::NotConfigured, log: ActivityLog::new(), busy: false }
    }

    /// The current sync status.
    pub fn get_status(&self) -> (r: SyncStatus)
        ensures
            r@ == self@.status,
    {
        self.status.clone()
    }

    /// The most recent `limit` activity entries, oldest first.
    pub fn get_activity(&self, limit: usize) -> (r: Vec<ActivityEntry>)
        ensures
            r@.len() == vstd::math::min(limit as int, self@.log.len() as int),
            forall|i: int|
                0 <= i < r@.len() ==> r@[i]@ == self@.log[self@.log.len() - r@.len() + i],
    {
        self.log.last_entries(limit)
    }

    /// Surface `NotConfigured`, e.g. after a logout.
    pub fn mark_not_configured(&mut self)
        requires
            old(self).wf(),
        ensures
            final(self).wf(),
            final(self)@ == (EngineView {
                status: StatusView::NotConfigured,
                log: old(self)@.log,
                busy: old(self)@.busy,
            }),
    {
        self.status = SyncStatus::NotConfigured;
    }

    /// Record one activity entry, timestamped now; returns the timestamp used.
    fn log_activity(&mut self, action: &str, file_path: &str, status: &str, details: Option<
        String,
    >) -> (ts: i64)
        requires
            old(self).wf(),
        ensures
            final(self).wf(),
            final(self)@.log == push_bounded(
                old(self)@.log,
                EntryView {
                    timestamp: ts,
                    action: action@,
                    file_path: file_path@,
                    status: status@,
                    details: match details {
                        Some(d) => Some(d@),
                        None => None,
                    },
                },
            ),
            final(self)@.status == old(self)@.status,
            final(self)@.busy == old(self)@.busy,
    {
        let ts = now_timestamp();
        let entry = ActivityEntry {
            timestamp: ts,
            action: String::from_str(action),
            file_path: String::from_str(file_path),
            status: String::from_str(status),
            details,
        };
        self.log.append(entry);
        ts
    }

    /// Finish the selected target: log its entry, record its outcome, and
    /// either turn to the shared target or aggregate and release the guard.
    fn complete_target(
        &mut self,
        run: &mut SyncRun,
        shared: bool,
        outcome: Result<(), String>,
        mid: SyncStatus,
    ) -> (ts: i64)
        requires
            old(self).wf(),
            shared ==> old(run)@.personal_outcome is Some,
        ensures
            final(self).wf(),
            (final(self)@, final(run)@) == finish_target(
                old(self)@,
                old(run)@,
                shared,
                res_view(outcome),
                ts,
                mid@,
            ),
    {
        let action: &str = if shared {
            "sync_shared"
        } else {
            "sync_personal"
        };
        let (status_str, details): (&str, Option<String>) = match &outcome {
            Ok(_) => ("success", None),
            Err(m) => ("error", Some(m.clone())),
        };
        let ts = self.log_activity(action, "", status_str, details);
        proof {
            reveal_strlit("");
            assert(""@ =~= Seq::<char>::empty());
            assert(self@.log == push_bounded(
                old(self)@.log,
                outcome_entry(ts, shared, res_view(outcome)),
            ));
        }
        if !shared {
            self.status = mid;
            run.personal_outcome = Some(outcome);
            run.phase = SyncPhase::Prepare { shared: true };
        } else {
            let agg: SyncStatus = match (&run.personal_outcome, &outcome) {
                (Some(Ok(())), Ok(())) => SyncStatus::Idle,
                _ => {
                    let m: &String = match &run.personal_outcome {
                        Some(Err(pm)) => pm,
                        _ => match &outcome {
                            Err(sm) => sm,
                            _ => unreached(),
                        },
                    };
                    if find_conflict_marker(m.as_str()) {
                        SyncStatus::Conflict
                    } else {
                        SyncStatus::Error(m.clone())
                    }
                },
            };
            self.status = agg;
            self.busy = false;
            run.shared_outcome = Some(outcome);
            run.phase = SyncPhase::Complete;
        }
        ts
    }

    /// Begin one sync run.  An incomplete configuration is rejected without
    /// touching any state; so is a call while another run holds the guard.
    pub fn sync_begin(&mut self, config: &AppConfig, secret: &str) -> (r: Result<
        SyncRun,
        String,
    >)
        requires
            old(self).wf(),
        ensures
            final(self).wf(),
            !configured(config@) ==> (r matches Err(m) && m@ == "Not configured"@ && final(self)@
                == old(self)@),
            configured(config@) && old(self)@.busy ==> (r matches Err(m) && m@
                == "Sync already in progress"@ && final(self)@ == old(self)@),
            configured(config@) && !old(self)@.busy ==> (r matches Ok(run) && run@ == begin_run(
                config@,
                secret@,
            ) && run_wf(run@) && final(self)@ == (EngineView {
                status: old(self)@.status,
                log: old(self)@.log,
                busy: true,
            })),
    {
        if !config.is_configured() {
            return Err(String::from_str("Not configured"));
        }
        if self.busy {
            return Err(String::from_str("Sync already in progress"));
        }
        self.busy = true;
        Ok(
            SyncRun {
                username: config.user_email.clone(),
                secret: String::from_str(secret),
                personal_url: config.personal_webdav_url(),
                personal_path: config.personal_sync_path.clone(),
                shared_url: config.shared_webdav_url(),
                shared_path: config.shared_sync_path.clone(),
                obscured: String::new(),
                personal_outcome: None,
                shared_outcome: None,
                phase: SyncPhase::Obscure,
            },
        )
    }

    /// Take one decision step: consume the event answering the run's pending
    /// action.  The whole transition is pinned by [`step_spec`], up to the
    /// wall-clock timestamp of the entry logged, when one is.
    pub fn sync_step(&mut self, run: &mut SyncRun, ev: SyncEvent)
        requires
            old(self).wf(),
            run_wf(old(run)@),
            expects(old(run)@.phase, ev@),
        ensures
            final(self).wf(),
            run_wf(final(run)@),
            exists|ts: i64|
                (final(self)@, final(run)@) == step_spec(old(self)@, old(run)@, ev@, ts),
    {
        let ghost e0 = self@;
        let ghost r0 = run@;
        let ghost ev0 = ev@;
        match ev {
            SyncEvent::Obscured { launched, exit_ok, stdout } => {
                if launched && exit_ok {
                    run.obscured = trim_end_spaces_str(stdout.as_str());
                    run.phase = SyncPhase::Prepare { shared: false };
                    self.status = SyncStatus::Syncing;
                    proof {
                        assert((self@, run@) == step_spec(e0, r0, ev0, 0));
                    }
                } else {
                    run.phase = SyncPhase::Failed;
                    self.busy = false;
                    proof {
                        assert((self@, run@) == step_spec(e0, r0, ev0, 0));
                    }
                }
            },
            SyncEvent::Prepared { dir_ok, dir_err, marker_present } => {
                let shared = match run.phase {
                    SyncPhase::Prepare { shared } => shared,
                    _ => unreached(),
                };
                if dir_ok {
                    run.phase = SyncPhase::Tool { shared, resync: !marker_present };
                    proof {
                        assert((self@, run@) == step_spec(e0, r0, ev0, 0));
                    }
                } else {
                    let prefix: &str = if shared {
                        "Cannot create shared dir: "
                    } else {
                        "Cannot create personal dir: "
                    };
                    let msg = str_concat(prefix, dir_err.as_str());
                    let ghost msgv = msg@;
                    proof {
                        assert(msgv == dir_fail_msg(shared, dir_err@));
                    }
                    let mid = self.status.clone();
                    let ts = self.complete_target(run, shared, Err(msg), mid);
                    proof {
                        assert((self@, run@) == step_spec(e0, r0, ev0, ts));
                    }
                }
            },
            SyncEvent::ToolFinished { launched, launch_err, exit_ok, exit_code, stderr } => {
                let (shared, resync) = match run.phase {
                    SyncPhase::Tool { shared, resync } => (shared, resync),
                    _ => unreached(),
                };
                if launched && exit_ok {
                    if resync {
                        if shared {
                            run.shared_outcome = Some(Ok(()));
                        } else {
                            run.personal_outcome = Some(Ok(()));
                        }
                        run.phase = SyncPhase::Mark { shared };
                        proof {
                            assert((self@, run@) == step_spec(e0, r0, ev0, 0));
                        }
                    } else {
                        let mid = self.status.clone();
                        let ts = self.complete_target(run, shared, Ok(()), mid);
                        proof {
                            assert((self@, run@) == step_spec(e0, r0, ev0, ts));
                        }
                    }
                } else {
                    let msg: String = if !launched {
                        str_concat("Failed to run rclone: ", launch_err.as_str())
                    } else if stderr.as_str().is_empty() {
                        match exit_code {
                            Some(n) => {
                                let d = i32_decimal(n);
                                str_concat("rclone exited with code ", d.as_str())
                            },
                            None => String::from_str("rclone exited with an unknown code"),
                        }
                    } else {
                        stderr
                    };
                    let ghost msgv = msg@;
                    proof {
                        assert(msgv == tool_fail_msg(launched, launch_err@, exit_code, ev0->ToolFinished_stderr));
                    }
                    let conflict = find_conflict_marker(msg.as_str());
                    let mid = if conflict {
                        SyncStatus::Conflict
                    } else {
                        self.status.clone()
                    };
                    let ts = self.complete_target(run, shared, Err(msg), mid);
                    proof {
                        assert((self@, run@) == step_spec(e0, r0, ev0, ts));
                    }
                }
            },
            SyncEvent::MarkerWritten { ok: _ } => {
                let shared = match run.phase {
                    SyncPhase::Mark { shared } => shared,
                    _ => unreached(),
                };
                let mid = self.status.clone();
                let ts = self.complete_target(run, shared, Ok(()), mid);
                proof {
                    assert((self@, run@) == step_spec(e0, r0, ev0, ts));
                }
            },
        }
    }
}

} // verus!
