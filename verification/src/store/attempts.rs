//! The ledger of worker launches, the slices that they work on and the tokens that they carry.
use super::{
    attempt_key, lemma_unique_map, lemma_unique_push, res, slice_at, slice_key, token_key,
    Store,
};
use crate::digest::{digest_of, text_digest};
use crate::domain::{
    RunStatus, SliceRun, SliceRunModel, SliceStatus, WorkerAttemptLedger,
    WorkerAttemptLedgerModel, WorkerAttemptProgress, WorkerAttemptProgressModel,
};
use crate::error::StoreError;
use crate::payloads::{
    EventPayload, EventPayloadModel, WorkerAttemptAllocatedPayload,
    WorkerAttemptAllocatedPayloadModel, WorkerAttemptFinishedPayload,
    WorkerAttemptFinishedPayloadModel, WorkerAttemptInterruptedPayload,
    WorkerAttemptInterruptedPayloadModel, WorkerAttemptLaunchedPayload,
    WorkerAttemptLaunchedPayloadModel,
};
use crate::rows::{
    AttemptRow, AttemptRowModel, RunRow, RunRowModel, TablesModel, WorkerObservation,
    WorkerObservationModel, WorkerTokenRow, WorkerTokenRowModel,
};
use crate::table::{
    any, find_row, first, order_rows, ordered, project_rows, push_row, select, select_rows,
    update_rows, upsert, upsert_row, Row,
};
use crate::text::{
    append_int, blank, decimal_int, is_blank, join_path, path_join, same_text, text_before,
    text_lt,
};
use crate::time::Timestamp;
use vstd::prelude::*;
use vstd::string::*;

verus! {

pub open spec fn is_repair(kind: Seq<char>) -> bool {
    kind == "integration-repair"@
}

/// A slice on which a worker may act.
pub open spec fn slice_open(status: SliceStatus) -> bool {
    status == SliceStatus::Running || status == SliceStatus::RepairNeeded
}

pub open spec fn run_running(run_id: Seq<char>) -> spec_fn(RunRowModel) -> bool {
    |row: RunRowModel| row.run.id == run_id && row.run.status == RunStatus::Running
}

pub open spec fn slice_on_attempt(
    run_id: Seq<char>,
    slice_id: Seq<char>,
    attempt: usize,
) -> spec_fn(SliceRunModel) -> bool {
    |row: SliceRunModel|
        row.run_id == run_id && row.slice_id == slice_id && slice_open(row.status) && row.attempts
            == attempt
}

/// The ordinal that counts for a launch: repairs are counted by repairs, other workers by retries.
pub open spec fn ordinal_of(attempt: WorkerAttemptLedgerModel) -> usize {
    if is_repair(attempt.kind) {
        attempt.repair_ordinal
    } else {
        attempt.worker_retry_ordinal
    }
}

/// The running launch of a slice at an ordinal.
pub open spec fn running_launch(
    run_id: Seq<char>,
    slice_id: Seq<char>,
    attempt: usize,
    launch_id: i64,
) -> spec_fn(AttemptRowModel) -> bool {
    |row: AttemptRowModel|
        row.attempt.run_id == run_id && row.attempt.slice_id == slice_id && row.attempt.launch_id
            == launch_id && row.attempt.state == "running"@ && ordinal_of(row.attempt) == attempt
}

pub open spec fn attempt_of_slice(run_id: Seq<char>, slice_id: Seq<char>) -> spec_fn(
    AttemptRowModel,
) -> bool {
    |row: AttemptRowModel| row.attempt.run_id == run_id && row.attempt.slice_id == slice_id
}

/// By launch ordinal, then by launch.
pub open spec fn ledger_order() -> spec_fn(AttemptRowModel, AttemptRowModel) -> bool {
    |a: AttemptRowModel, b: AttemptRowModel|
        a.attempt.launch_ordinal < b.attempt.launch_ordinal || (a.attempt.launch_ordinal
            == b.attempt.launch_ordinal && a.attempt.launch_id < b.attempt.launch_id)
}

pub open spec fn launch_id_order() -> spec_fn(AttemptRowModel, AttemptRowModel) -> bool {
    |a: AttemptRowModel, b: AttemptRowModel| a.attempt.launch_id < b.attempt.launch_id
}

/// Whether anything has been observed of a worker.
pub open spec fn observed_any(o: WorkerObservationModel) -> bool {
    o.pid is Some || o.process_observed_at is Some || o.last_event_at is Some
        || o.last_event_kind.len() > 0 || o.last_semantic_progress_at is Some
        || o.last_semantic_progress_summary.len() > 0 || o.attempt_timeout_seconds > 0
        || o.no_output_warning_seconds > 0
}

pub open spec fn progress_of(
    launch_id: Option<i64>,
    attempt_started_at: Timestamp,
    o: WorkerObservationModel,
) -> WorkerAttemptProgressModel {
    WorkerAttemptProgressModel {
        launch_id,
        attempt_started_at,
        pid: o.pid,
        process_observed_at: o.process_observed_at,
        last_event_at: o.last_event_at,
        last_event_kind: o.last_event_kind,
        last_semantic_progress_at: o.last_semantic_progress_at,
        last_semantic_progress_summary: o.last_semantic_progress_summary,
        attempt_timeout_seconds: o.attempt_timeout_seconds,
        no_output_warning_seconds: o.no_output_warning_seconds,
    }
}

/// A launch as it is read: with its activity, where it was launched and something was observed.
pub open spec fn ledger_of() -> spec_fn(AttemptRowModel) -> WorkerAttemptLedgerModel {
    |row: AttemptRowModel|
        WorkerAttemptLedgerModel {
            activity: match row.attempt.launched_at {
                Some(at) => if observed_any(row.observed) {
                    Some(progress_of(Some(row.attempt.launch_id), at, row.observed))
                } else {
                    None
                },
                None => None,
            },
            ..row.attempt
        }
}

/// The greatest launch ordinal of a slice, zero where it has no launch.
pub open spec fn max_ordinal(
    attempts: Seq<AttemptRowModel>,
    run_id: Seq<char>,
    slice_id: Seq<char>,
) -> nat
    decreases attempts.len(),
{
    if attempts.len() == 0 {
        0
    } else {
        let rest = max_ordinal(attempts.drop_last(), run_id, slice_id);
        let row = attempts.last().attempt;
        if row.run_id == run_id && row.slice_id == slice_id && row.launch_ordinal > rest {
            row.launch_ordinal as nat
        } else {
            rest
        }
    }
}

pub open spec fn launch_branch(
    run_id: Seq<char>,
    slice_id: Seq<char>,
    launch_id: i64,
) -> Seq<char> {
    "khazad/"@ + run_id + "/"@ + slice_id + "/launch-"@ + decimal_int(launch_id as int)
}

pub open spec fn launch_worktree(
    root: Seq<char>,
    slice_id: Seq<char>,
    launch_id: i64,
) -> Seq<char> {
    path_join(path_join(root, slice_id), "launch-"@ + decimal_int(launch_id as int))
}

pub open spec fn launch_stem(slice_id: Seq<char>, launch_id: i64) -> Seq<char> {
    slice_id + ".worker.launch-"@ + decimal_int(launch_id as int)
}

/// The slice is taken up by a launch.
pub open spec fn slice_taken_up(branch: Seq<char>, attempts: usize) -> spec_fn(
    SliceRunModel,
) -> SliceRunModel {
    |row: SliceRunModel| SliceRunModel { status: SliceStatus::Running, branch, attempts, ..row }
}

pub open spec fn attempt_with_id(launch_id: i64) -> spec_fn(AttemptRowModel) -> bool {
    |row: AttemptRowModel| row.attempt.launch_id == launch_id
}

pub open spec fn allocated_with_id(launch_id: i64) -> spec_fn(AttemptRowModel) -> bool {
    |row: AttemptRowModel|
        row.attempt.launch_id == launch_id && row.attempt.state == "allocated"@
}

pub open spec fn attempt_launched(launch_id: i64, now: Timestamp) -> spec_fn(
    AttemptRowModel,
) -> AttemptRowModel {
    |row: AttemptRowModel|
        if row.attempt.launch_id == launch_id && row.attempt.state == "allocated"@ {
            AttemptRowModel {
                attempt: WorkerAttemptLedgerModel {
                    state: "running"@,
                    launched_at: Some(now),
                    ..row.attempt
                },
                ..row
            }
        } else {
            row
        }
}

pub open spec fn attempt_ended(
    launch_id: i64,
    state: Seq<char>,
    failure_cause: Seq<char>,
    now: Timestamp,
) -> spec_fn(AttemptRowModel) -> AttemptRowModel {
    |row: AttemptRowModel|
        if row.attempt.launch_id == launch_id {
            AttemptRowModel {
                attempt: WorkerAttemptLedgerModel {
                    state,
                    finished_at: Some(now),
                    failure_cause,
                    ..row.attempt
                },
                ..row
            }
        } else {
            row
        }
}

/// A launch that has not ended.
pub open spec fn attempt_open(state: Seq<char>) -> bool {
    state == "allocated"@ || state == "running"@
}

pub open spec fn open_attempt_of(run_id: Seq<char>) -> spec_fn(AttemptRowModel) -> bool {
    |row: AttemptRowModel| row.attempt.run_id == run_id && attempt_open(row.attempt.state)
}

pub open spec fn attempt_interrupted(
    run_id: Seq<char>,
    reason: Seq<char>,
    now: Timestamp,
) -> spec_fn(AttemptRowModel) -> AttemptRowModel {
    |row: AttemptRowModel|
        if row.attempt.run_id == run_id && attempt_open(row.attempt.state) {
            AttemptRowModel {
                attempt: WorkerAttemptLedgerModel {
                    state: "interrupted"@,
                    finished_at: Some(now),
                    failure_cause: reason,
                    ..row.attempt
                },
                ..row
            }
        } else {
            row
        }
}

pub open spec fn interruption_of(
    row: AttemptRowModel,
    reason: Seq<char>,
    terminal_status: RunStatus,
) -> EventPayloadModel {
    EventPayloadModel::WorkerAttemptInterrupted(
        WorkerAttemptInterruptedPayloadModel {
            launch_id: row.attempt.launch_id,
            slice_id: row.attempt.slice_id,
            reason,
            prior_state: row.attempt.state,
            terminal_status,
        },
    )
}

pub open spec fn slice_failed_over(
    run_id: Seq<char>,
    slice_id: Seq<char>,
    status: SliceStatus,
    last_error: Seq<char>,
) -> spec_fn(SliceRunModel) -> SliceRunModel {
    |row: SliceRunModel|
        if row.run_id == run_id && row.slice_id == slice_id {
            SliceRunModel { status, last_error, ..row }
        } else {
            row
        }
}

pub open spec fn slice_of_run(run_id: Seq<char>) -> spec_fn(SliceRunModel) -> bool {
    |row: SliceRunModel| row.run_id == run_id
}

pub open spec fn slice_order() -> spec_fn(SliceRunModel, SliceRunModel) -> bool {
    |a: SliceRunModel, b: SliceRunModel| text_lt(a.slice_id, b.slice_id)
}

pub open spec fn token_of(run_id: Seq<char>) -> spec_fn(WorkerTokenRowModel) -> bool {
    |row: WorkerTokenRowModel| row.run_id == run_id
}

pub open spec fn token_set(token_hash: Seq<char>) -> spec_fn(
    WorkerTokenRowModel,
) -> WorkerTokenRowModel {
    |row: WorkerTokenRowModel| WorkerTokenRowModel { token_hash, ..row }
}

/// A launch that waits for its token.
pub open spec fn tokenless(run_id: Seq<char>, launch_id: i64) -> spec_fn(AttemptRowModel) -> bool {
    |row: AttemptRowModel|
        row.attempt.launch_id == launch_id && row.attempt.run_id == run_id && row.attempt.state
            == "allocated"@ && row.worker_token_hash.len() == 0
}

pub open spec fn launch_token_bound(
    run_id: Seq<char>,
    launch_id: i64,
    token_hash: Seq<char>,
) -> spec_fn(AttemptRowModel) -> AttemptRowModel {
    |row: AttemptRowModel|
        if tokenless(run_id, launch_id)(row) {
            AttemptRowModel { worker_token_hash: token_hash, ..row }
        } else {
            row
        }
}

impl TablesModel {
    /// Whether a worker may act: its run is running, and either its exact launch is running, or,
    /// where it has no launch, its slice is on this attempt. A launch that is no repair also needs
    /// its slice to be on this attempt.
    pub open spec fn attempt_is_active(
        self,
        run_id: Seq<char>,
        slice_id: Seq<char>,
        attempt: usize,
        launch_id: Option<i64>,
    ) -> bool {
        &&& any(self.runs, run_running(run_id))
        &&& match launch_id {
            Some(id) => match first(
                self.attempts,
                running_launch(run_id, slice_id, attempt, id),
            ) {
                Some(row) => is_repair(row.attempt.kind) || any(
                    self.slices,
                    slice_on_attempt(run_id, slice_id, attempt),
                ),
                None => false,
            },
            None => any(self.slices, slice_on_attempt(run_id, slice_id, attempt)),
        }
    }

    pub open spec fn allocate_refusal(
        self,
        run_id: Seq<char>,
        slice_id: Seq<char>,
        execution_epoch: usize,
        worker_retry_ordinal: usize,
        kind: Seq<char>,
        project_slice_run: bool,
    ) -> Option<StoreError> {
        if execution_epoch == 0 || (project_slice_run && worker_retry_ordinal == 0) || blank(kind) {
            Some(StoreError::AllocationIncomplete)
        } else if !any(self.runs, run_running(run_id)) {
            Some(StoreError::RunNotRunning)
        } else if self.last_launch_id == i64::MAX || max_ordinal(self.attempts, run_id, slice_id)
            >= usize::MAX {
            Some(StoreError::CounterExhausted)
        } else if !self.room(1) {
            Some(StoreError::EventLogFull)
        } else {
            None
        }
    }

    /// The launch that an allocation creates: the next launch identity, the next ordinal of its
    /// slice, and names of its own that contain the identity.
    pub open spec fn allocated(
        self,
        run_id: Seq<char>,
        slice_id: Seq<char>,
        execution_epoch: usize,
        worker_retry_ordinal: usize,
        repair_ordinal: usize,
        envelope_retry_ordinal: usize,
        kind: Seq<char>,
        worktree_root: Seq<char>,
        now: Timestamp,
    ) -> WorkerAttemptLedgerModel {
        let launch_id = (self.last_launch_id + 1) as i64;
        WorkerAttemptLedgerModel {
            run_id,
            slice_id,
            launch_id,
            launch_ordinal: (max_ordinal(self.attempts, run_id, slice_id) + 1) as usize,
            execution_epoch,
            worker_retry_ordinal,
            repair_ordinal,
            envelope_retry_ordinal,
            kind,
            state: "allocated"@,
            branch: launch_branch(run_id, slice_id, launch_id),
            worktree: launch_worktree(worktree_root, slice_id, launch_id),
            output_stem: launch_stem(slice_id, launch_id),
            created_at: now,
            launched_at: None,
            finished_at: None,
            failure_cause: Seq::empty(),
            activity: None,
        }
    }

    pub open spec fn allocation_event(attempt: WorkerAttemptLedgerModel) -> EventPayloadModel {
        EventPayloadModel::WorkerAttemptAllocated(
            WorkerAttemptAllocatedPayloadModel {
                launch_id: attempt.launch_id,
                slice_id: attempt.slice_id,
                launch_ordinal: attempt.launch_ordinal,
                execution_epoch: attempt.execution_epoch,
                worker_retry_ordinal: attempt.worker_retry_ordinal,
                repair_ordinal: attempt.repair_ordinal,
                envelope_retry_ordinal: attempt.envelope_retry_ordinal,
                kind: attempt.kind,
                state: attempt.state,
                output_stem: attempt.output_stem,
            },
        )
    }

    /// The tables after a launch was allocated, with its slice taken up where that is asked for.
    pub open spec fn allocate(
        self,
        attempt: WorkerAttemptLedgerModel,
        project_slice_run: bool,
    ) -> TablesModel {
        (TablesModel {
            attempts: self.attempts.push(
                AttemptRowModel {
                    attempt,
                    worker_token_hash: Seq::empty(),
                    observed: WorkerObservationModel::empty(),
                },
            ),
            last_launch_id: attempt.launch_id,
            slices: if project_slice_run {
                upsert(
                    self.slices,
                    slice_at(attempt.run_id, attempt.slice_id),
                    slice_taken_up(attempt.branch, attempt.worker_retry_ordinal),
                    SliceRunModel {
                        run_id: attempt.run_id,
                        slice_id: attempt.slice_id,
                        status: SliceStatus::Running,
                        branch: attempt.branch,
                        commit_sha: Seq::empty(),
                        attempts: attempt.worker_retry_ordinal,
                        last_error: Seq::empty(),
                    },
                )
            } else {
                self.slices
            },
            ..self
        }).with_event(
            attempt.run_id,
            "worker_attempt_allocated"@,
            Self::allocation_event(attempt),
            attempt.created_at,
        )
    }

    /// The open launches of a run, in the order of their identities.
    pub open spec fn open_attempts(self, run_id: Seq<char>) -> Seq<AttemptRowModel> {
        ordered(select(self.attempts, open_attempt_of(run_id)), launch_id_order())
    }

    /// One interruption event for each of the launches.
    pub open spec fn with_interruptions(
        self,
        run_id: Seq<char>,
        rows: Seq<AttemptRowModel>,
        reason: Seq<char>,
        terminal_status: RunStatus,
        now: Timestamp,
    ) -> TablesModel
        decreases rows.len(),
    {
        if rows.len() == 0 {
            self
        } else {
            self.with_interruptions(
                run_id,
                rows.drop_last(),
                reason,
                terminal_status,
                now,
            ).with_event(
                run_id,
                "worker_attempt_interrupted"@,
                interruption_of(rows.last(), reason, terminal_status),
                now,
            )
        }
    }

    /// Every open launch of a run is interrupted.
    pub open spec fn interrupt_attempts(
        self,
        run_id: Seq<char>,
        reason: Seq<char>,
        terminal_status: RunStatus,
        now: Timestamp,
    ) -> TablesModel {
        (TablesModel {
            attempts: self.attempts.map_values(attempt_interrupted(run_id, reason, now)),
            ..self
        }).with_interruptions(run_id, self.open_attempts(run_id), reason, terminal_status, now)
    }

    pub open spec fn ledger(
        self,
        run_id: Seq<char>,
        slice_id: Seq<char>,
    ) -> Seq<WorkerAttemptLedgerModel> {
        ordered(
            select(self.attempts, attempt_of_slice(run_id, slice_id)),
            ledger_order(),
        ).map_values(ledger_of())
    }

    pub open spec fn slices_of(self, run_id: Seq<char>) -> Seq<SliceRunModel> {
        ordered(select(self.slices, slice_of_run(run_id)), slice_order())
    }

    pub open spec fn finish_refusal(self, launch_id: i64, state: Seq<char>) -> Option<StoreError> {
        if state != "succeeded"@ && state != "failed"@ && state != "interrupted"@ {
            Some(StoreError::InvalidAttemptState)
        } else {
            match first(self.attempts, attempt_with_id(launch_id)) {
                None => Some(StoreError::AttemptNotFound),
                Some(row) => if !attempt_open(row.attempt.state) || (state == "succeeded"@
                    && row.attempt.state != "running"@) {
                    Some(StoreError::IllegalAttemptTransition)
                } else if !self.room(1) {
                    Some(StoreError::EventLogFull)
                } else {
                    None
                },
            }
        }
    }

    /// The tables after an allocated launch was started.
    pub open spec fn launch_started(self, launch_id: i64, now: Timestamp) -> TablesModel {
        let row = first(self.attempts, allocated_with_id(launch_id))->0;
        (TablesModel {
            attempts: self.attempts.map_values(attempt_launched(launch_id, now)),
            ..self
        }).with_event(
            row.attempt.run_id,
            "worker_attempt_launched"@,
            EventPayloadModel::WorkerAttemptLaunched(
                WorkerAttemptLaunchedPayloadModel { launch_id, slice_id: row.attempt.slice_id },
            ),
            now,
        )
    }

    /// The tables after an open launch was finished.
    pub open spec fn launch_finished(
        self,
        launch_id: i64,
        state: Seq<char>,
        failure_cause: Seq<char>,
        now: Timestamp,
    ) -> TablesModel {
        let row = first(self.attempts, attempt_with_id(launch_id))->0;
        (TablesModel {
            attempts: self.attempts.map_values(
                attempt_ended(launch_id, state, failure_cause, now),
            ),
            ..self
        }).with_event(
            row.attempt.run_id,
            "worker_attempt_finished"@,
            EventPayloadModel::WorkerAttemptFinished(
                WorkerAttemptFinishedPayloadModel {
                    launch_id,
                    slice_id: row.attempt.slice_id,
                    state,
                    failure_cause,
                },
            ),
            now,
        )
    }

    /// The tables after the status of a slice was set.
    pub open spec fn with_slice_status(
        self,
        run_id: Seq<char>,
        slice_id: Seq<char>,
        status: SliceStatus,
        last_error: Seq<char>,
    ) -> TablesModel {
        TablesModel {
            slices: self.slices.map_values(slice_failed_over(run_id, slice_id, status, last_error)),
            ..self
        }
    }

    /// The tables after a token of a run was stored.
    pub open spec fn with_token(
        self,
        run_id: Seq<char>,
        token: Seq<char>,
        now: Timestamp,
    ) -> TablesModel {
        TablesModel {
            tokens: upsert(
                self.tokens,
                token_of(run_id),
                token_set(text_digest(token)),
                WorkerTokenRowModel {
                    run_id,
                    token_hash: text_digest(token),
                    created_at: now.text(),
                },
            ),
            ..self
        }
    }

    /// Whether a token is the one of a run.
    pub open spec fn token_accepted(self, run_id: Seq<char>, token: Seq<char>) -> bool {
        first(self.tokens, token_of(run_id)) matches Some(row) && row.token_hash == text_digest(
            token,
        )
    }

    /// The tables after a token of a launch was stored.
    pub open spec fn with_launch_token(
        self,
        run_id: Seq<char>,
        launch_id: i64,
        token: Seq<char>,
    ) -> TablesModel {
        TablesModel {
            attempts: self.attempts.map_values(
                launch_token_bound(run_id, launch_id, text_digest(token)),
            ),
            ..self
        }
    }

    /// The launch whose token is accepted: it is running within a running run, and its slice is
    /// on its retry, or it is a repair.
    pub open spec fn authorized_launch(self, run_id: Seq<char>, launch_id: i64) -> Option<
        AttemptRowModel,
    > {
        match first(self.attempts, attempt_with_id(launch_id)) {
            Some(row) => if row.attempt.run_id == run_id && row.attempt.state == "running"@ && any(
                self.runs,
                run_running(run_id),
            ) && ((is_repair(row.attempt.kind) && row.attempt.repair_ordinal > 0) || any(
                self.slices,
                slice_on_attempt(run_id, row.attempt.slice_id, row.attempt.worker_retry_ordinal),
            )) {
                Some(row)
            } else {
                None
            },
            None => None,
        }
    }

    pub open spec fn launch_token_accepted(
        self,
        run_id: Seq<char>,
        launch_id: i64,
        token: Seq<char>,
    ) -> bool {
        &&& launch_id > 0
        &&& self.authorized_launch(run_id, launch_id) matches Some(row)
        &&& row.worker_token_hash.len() > 0
        &&& row.worker_token_hash == text_digest(token)
    }
}

fn kind_is_repair(kind: &str) -> (r: bool)
    ensures
        r == is_repair(kind@),
{
    same_text(kind, "integration-repair")
}

fn state_is_open(state: &str) -> (r: bool)
    ensures
        r == attempt_open(state@),
{
    same_text(state, "allocated") || same_text(state, "running")
}

pub(super) fn slice_is_open(status: SliceStatus) -> (r: bool)
    ensures
        r == slice_open(status),
{
    matches!(status, SliceStatus::Running | SliceStatus::RepairNeeded)
}

pub(super) fn attempt_ordinal(attempt: &WorkerAttemptLedger) -> (r: usize)
    ensures
        r == ordinal_of(attempt@),
{
    if kind_is_repair(attempt.kind.as_str()) {
        attempt.repair_ordinal
    } else {
        attempt.worker_retry_ordinal
    }
}

pub(crate) fn worker_progress(
    launch_id: Option<i64>,
    attempt_started_at: Timestamp,
    o: &WorkerObservation,
) -> (r: WorkerAttemptProgress)
    ensures
        r@ == progress_of(launch_id, attempt_started_at, o@),
{
    WorkerAttemptProgress {
        launch_id,
        attempt_started_at,
        pid: o.pid,
        process_observed_at: o.process_observed_at,
        last_event_at: o.last_event_at,
        last_event_kind: o.last_event_kind.dup(),
        last_semantic_progress_at: o.last_semantic_progress_at,
        last_semantic_progress_summary: o.last_semantic_progress_summary.dup(),
        attempt_timeout_seconds: o.attempt_timeout_seconds,
        no_output_warning_seconds: o.no_output_warning_seconds,
    }
}

pub(crate) fn read_attempt(row: &AttemptRow) -> (r: WorkerAttemptLedger)
    ensures
        r@ == ledger_of()(row@),
{
    let o = &row.observed;
    let seen = o.pid.is_some() || o.process_observed_at.is_some() || o.last_event_at.is_some()
        || !o.last_event_kind.as_str().is_empty() || o.last_semantic_progress_at.is_some()
        || !o.last_semantic_progress_summary.as_str().is_empty() || o.attempt_timeout_seconds > 0
        || o.no_output_warning_seconds > 0;
    let mut r = row.attempt.dup();
    r.activity = match row.attempt.launched_at {
        Some(at) => if seen {
            Some(worker_progress(Some(row.attempt.launch_id), at, o))
        } else {
            None
        },
        None => None,
    };
    r
}

pub(crate) fn read_attempts(rows: &Vec<AttemptRow>) -> (r: Vec<WorkerAttemptLedger>)
    ensures
        r.deep_view() == rows.deep_view().map_values(ledger_of()),
{
    let read = |row: &AttemptRow| -> (out: WorkerAttemptLedger)
        ensures
            out@ == ledger_of()(row@),
        { read_attempt(row) };
    project_rows(rows, read, Ghost(ledger_of()))
}

fn branch_name(run_id: &str, slice_id: &str, launch_id: i64) -> (r: String)
    ensures
        r@ == launch_branch(run_id@, slice_id@, launch_id),
{
    let mut r = "khazad/".to_owned();
    r.append(run_id);
    r.append("/");
    r.append(slice_id);
    r.append("/launch-");
    append_int(&mut r, launch_id);
    r
}

fn worktree_path(root: &str, slice_id: &str, launch_id: i64) -> (r: String)
    ensures
        r@ == launch_worktree(root@, slice_id@, launch_id),
{
    let mut name = "launch-".to_owned();
    append_int(&mut name, launch_id);
    let base = join_path(root, slice_id);
    join_path(base.as_str(), name.as_str())
}

fn stem_name(slice_id: &str, launch_id: i64) -> (r: String)
    ensures
        r@ == launch_stem(slice_id@, launch_id),
{
    let mut r = slice_id.to_owned();
    r.append(".worker.launch-");
    append_int(&mut r, launch_id);
    r
}

/// The greatest launch ordinal of a slice.
fn greatest_ordinal(attempts: &Vec<AttemptRow>, run_id: &str, slice_id: &str) -> (r: usize)
    ensures
        r == max_ordinal(attempts.deep_view(), run_id@, slice_id@),
{
    let mut r: usize = 0;
    let mut i: usize = 0;
    assert(attempts.deep_view().take(0) =~= Seq::empty());
    while i < attempts.len()
        invariant
            i <= attempts.len(),
            r == max_ordinal(attempts.deep_view().take(i as int), run_id@, slice_id@),
        decreases attempts.len() - i,
    {
        proof {
            let part = attempts.deep_view().take(i + 1);
            assert(part.drop_last() =~= attempts.deep_view().take(i as int));
            assert(part.last() == attempts@[i as int]@);
        }
        let row = &attempts[i].attempt;
        if same_text(row.run_id.as_str(), run_id) && same_text(row.slice_id.as_str(), slice_id)
            && row.launch_ordinal > r {
            r = row.launch_ordinal;
        }
        i = i + 1;
    }
    assert(attempts.deep_view().take(i as int) =~= attempts.deep_view());
    r
}

/// Interruption events touch nothing but the log.
pub(crate) proof fn lemma_interruptions(
    s: TablesModel,
    run_id: Seq<char>,
    rows: Seq<AttemptRowModel>,
    reason: Seq<char>,
    terminal_status: RunStatus,
    now: Timestamp,
)
    requires
        s.valid(),
        s.room(rows.len() as int),
    ensures
        ({
            let after = s.with_interruptions(run_id, rows, reason, terminal_status, now);
            &&& after.valid()
            &&& after == (TablesModel {
                events: after.events,
                last_event_id: (s.last_event_id + rows.len()) as i64,
                ..s
            })
        }),
    decreases rows.len(),
{
    if rows.len() > 0 {
        lemma_interruptions(s, run_id, rows.drop_last(), reason, terminal_status, now);
    }
}

impl Store {
    pub(crate) fn is_running(&self, run_id: &str) -> (r: bool)
        ensures
            r == any(self@.runs, run_running(run_id@)),
    {
        let running = |row: &RunRow| -> (b: bool)
            ensures
                b == run_running(run_id@)(row@),
            { same_text(row.run.id.as_str(), run_id) && row.run.status == RunStatus::Running };
        find_row(&self.tables.runs, running, Ghost(run_running(run_id@))).is_some()
    }

    fn slice_is_on(&self, run_id: &str, slice_id: &str, attempt: usize) -> (r: bool)
        ensures
            r == any(self@.slices, slice_on_attempt(run_id@, slice_id@, attempt)),
    {
        let on = |row: &SliceRun| -> (b: bool)
            ensures
                b == slice_on_attempt(run_id@, slice_id@, attempt)(row@),
            {
                same_text(row.run_id.as_str(), run_id) && same_text(
                    row.slice_id.as_str(),
                    slice_id,
                ) && slice_is_open(row.status) && row.attempts == attempt
            };
        find_row(
            &self.tables.slices,
            on,
            Ghost(slice_on_attempt(run_id@, slice_id@, attempt)),
        ).is_some()
    }

    pub(super) fn attempt_index(&self, launch_id: i64) -> (r: Option<usize>)
        ensures
            match r {
                Some(i) => i < self.tables.attempts.len() && first(
                    self@.attempts,
                    attempt_with_id(launch_id),
                ) == Some(self.tables.attempts@[i as int]@),
                None => first(self@.attempts, attempt_with_id(launch_id)) is None,
            },
    {
        let with_id = |row: &AttemptRow| -> (b: bool)
            ensures
                b == attempt_with_id(launch_id)(row@),
            { row.attempt.launch_id == launch_id };
        find_row(&self.tables.attempts, with_id, Ghost(attempt_with_id(launch_id)))
    }

    /// Whether an attempt of a slice is the one that works on it.
    pub fn worker_attempt_is_active(&self, run_id: &str, slice_id: &str, attempt: usize) -> (r:
        Result<bool, StoreError>)
        ensures
            r == Ok::<bool, StoreError>(
                self@.attempt_is_active(run_id@, slice_id@, attempt, None),
            ),
    {
        self.worker_attempt_is_active_with_launch_id(run_id, slice_id, attempt, None)
    }

    /// A question of a launch may only be served by its exact running launch; a question without
    /// a launch goes by the attempt alone.
    pub fn worker_attempt_is_active_with_launch_id(
        &self,
        run_id: &str,
        slice_id: &str,
        attempt: usize,
        launch_id: Option<i64>,
    ) -> (r: Result<bool, StoreError>)
        ensures
            r == Ok::<bool, StoreError>(
                self@.attempt_is_active(run_id@, slice_id@, attempt, launch_id),
            ),
    {
        Ok(self.attempt_active(run_id, slice_id, attempt, launch_id))
    }

    pub(crate) fn attempt_active(
        &self,
        run_id: &str,
        slice_id: &str,
        attempt: usize,
        launch_id: Option<i64>,
    ) -> (r: bool)
        ensures
            r == self@.attempt_is_active(run_id@, slice_id@, attempt, launch_id),
    {
        if !self.is_running(run_id) {
            return false;
        }
        match launch_id {
            Some(id) => {
                let running = |row: &AttemptRow| -> (b: bool)
                    ensures
                        b == running_launch(run_id@, slice_id@, attempt, id)(row@),
                    {
                        same_text(row.attempt.run_id.as_str(), run_id) && same_text(
                            row.attempt.slice_id.as_str(),
                            slice_id,
                        ) && row.attempt.launch_id == id && same_text(
                            row.attempt.state.as_str(),
                            "running",
                        ) && attempt_ordinal(&row.attempt) == attempt
                    };
                match find_row(
                    &self.tables.attempts,
                    running,
                    Ghost(running_launch(run_id@, slice_id@, attempt, id)),
                ) {
                    Some(i) => kind_is_repair(self.tables.attempts[i].attempt.kind.as_str())
                        || self.slice_is_on(run_id, slice_id, attempt),
                    None => false,
                }
            },
            None => self.slice_is_on(run_id, slice_id, attempt),
        }
    }

    /// Gives out the next launch of a slice and takes the slice up under its branch.
    pub fn allocate_worker_attempt(
        &mut self,
        run_id: &str,
        slice_id: &str,
        execution_epoch: usize,
        worker_retry_ordinal: usize,
        repair_ordinal: usize,
        envelope_retry_ordinal: usize,
        kind: &str,
        worktree_root: &str,
        now: Timestamp,
    ) -> (r: Result<WorkerAttemptLedger, StoreError>)
        requires
            old(self)@.valid(),
            now.writable(),
        ensures
            final(self)@.valid(),
            old(self)@.one_active_run() ==> final(self)@.one_active_run(),
            match old(self)@.allocate_refusal(
                run_id@,
                slice_id@,
                execution_epoch,
                worker_retry_ordinal,
                kind@,
                true,
            ) {
                Some(error) => r == Err::<WorkerAttemptLedger, StoreError>(error) && final(self)@
                    == old(self)@,
                None => {
                    let attempt = old(self)@.allocated(
                        run_id@,
                        slice_id@,
                        execution_epoch,
                        worker_retry_ordinal,
                        repair_ordinal,
                        envelope_retry_ordinal,
                        kind@,
                        worktree_root@,
                        now,
                    );
                    res(r) == Ok::<WorkerAttemptLedgerModel, StoreError>(attempt) && final(self)@
                        == old(self)@.allocate(attempt, true)
                },
            },
    {
        self.allocate_worker_attempt_with_projection(
            run_id,
            slice_id,
            execution_epoch,
            worker_retry_ordinal,
            repair_ordinal,
            envelope_retry_ordinal,
            kind,
            worktree_root,
            true,
            now,
        )
    }

    /// Gives out the next launch of a scope that is no slice, such as a repair.
    pub fn allocate_run_worker_attempt(
        &mut self,
        run_id: &str,
        scope_id: &str,
        execution_epoch: usize,
        worker_retry_ordinal: usize,
        repair_ordinal: usize,
        envelope_retry_ordinal: usize,
        kind: &str,
        worktree_root: &str,
        now: Timestamp,
    ) -> (r: Result<WorkerAttemptLedger, StoreError>)
        requires
            old(self)@.valid(),
            now.writable(),
        ensures
            final(self)@.valid(),
            old(self)@.one_active_run() ==> final(self)@.one_active_run(),
            match old(self)@.allocate_refusal(
                run_id@,
                scope_id@,
                execution_epoch,
                worker_retry_ordinal,
                kind@,
                false,
            ) {
                Some(error) => r == Err::<WorkerAttemptLedger, StoreError>(error) && final(self)@
                    == old(self)@,
                None => {
                    let attempt = old(self)@.allocated(
                        run_id@,
                        scope_id@,
                        execution_epoch,
                        worker_retry_ordinal,
                        repair_ordinal,
                        envelope_retry_ordinal,
                        kind@,
                        worktree_root@,
                        now,
                    );
                    res(r) == Ok::<WorkerAttemptLedgerModel, StoreError>(attempt) && final(self)@
                        == old(self)@.allocate(attempt, false)
                },
            },
    {
        self.allocate_worker_attempt_with_projection(
            run_id,
            scope_id,
            execution_epoch,
            worker_retry_ordinal,
            repair_ordinal,
            envelope_retry_ordinal,
            kind,
            worktree_root,
            false,
            now,
        )
    }

    fn allocate_worker_attempt_with_projection(
        &mut self,
        run_id: &str,
        slice_id: &str,
        execution_epoch: usize,
        worker_retry_ordinal: usize,
        repair_ordinal: usize,
        envelope_retry_ordinal: usize,
        kind: &str,
        worktree_root: &str,
        project_slice_run: bool,
        now: Timestamp,
    ) -> (r: Result<WorkerAttemptLedger, StoreError>)
        requires
            old(self)@.valid(),
        ensures
            final(self)@.valid(),
            old(self)@.one_active_run() ==> final(self)@.one_active_run(),
            match old(self)@.allocate_refusal(
                run_id@,
                slice_id@,
                execution_epoch,
                worker_retry_ordinal,
                kind@,
                project_slice_run,
            ) {
                Some(error) => r == Err::<WorkerAttemptLedger, StoreError>(error) && final(self)@
                    == old(self)@,
                None => {
                    let attempt = old(self)@.allocated(
                        run_id@,
                        slice_id@,
                        execution_epoch,
                        worker_retry_ordinal,
                        repair_ordinal,
                        envelope_retry_ordinal,
                        kind@,
                        worktree_root@,
                        now,
                    );
                    res(r) == Ok::<WorkerAttemptLedgerModel, StoreError>(attempt) && final(self)@
                        == old(self)@.allocate(attempt, project_slice_run)
                },
            },
    {
        if execution_epoch == 0 || (project_slice_run && worker_retry_ordinal == 0) || is_blank(
            kind,
        ) {
            return Err(StoreError::AllocationIncomplete);
        }
        if !self.is_running(run_id) {
            return Err(StoreError::RunNotRunning);
        }
        let last_ordinal: usize = greatest_ordinal(&self.tables.attempts, run_id, slice_id);
        if self.tables.last_launch_id == i64::MAX || last_ordinal == usize::MAX {
            return Err(StoreError::CounterExhausted);
        }
        if !self.has_room(1) {
            return Err(StoreError::EventLogFull);
        }
        let launch_id: i64 = self.tables.last_launch_id + 1;
        let attempt = WorkerAttemptLedger {
            run_id: run_id.to_owned(),
            slice_id: slice_id.to_owned(),
            launch_id,
            launch_ordinal: last_ordinal + 1,
            execution_epoch,
            worker_retry_ordinal,
            repair_ordinal,
            envelope_retry_ordinal,
            kind: kind.to_owned(),
            state: "allocated".to_owned(),
            branch: branch_name(run_id, slice_id, launch_id),
            worktree: worktree_path(worktree_root, slice_id, launch_id),
            output_stem: stem_name(slice_id, launch_id),
            created_at: now,
            launched_at: None,
            finished_at: None,
            failure_cause: String::new(),
            activity: None,
        };
        let payload = EventPayload::WorkerAttemptAllocated(
            WorkerAttemptAllocatedPayload {
                launch_id,
                slice_id: slice_id.to_owned(),
                launch_ordinal: attempt.launch_ordinal,
                execution_epoch,
                worker_retry_ordinal,
                repair_ordinal,
                envelope_retry_ordinal,
                kind: kind.to_owned(),
                state: "allocated".to_owned(),
                output_stem: attempt.output_stem.dup(),
            },
        );
        let row = AttemptRow {
            attempt: attempt.dup(),
            worker_token_hash: String::new(),
            observed: WorkerObservation::default(),
        };
        proof {
            assert(!any(self@.attempts, attempt_with_id(launch_id)));
            lemma_unique_push(self@.attempts, attempt_key(), row@, attempt_with_id(launch_id));
        }
        push_row(&mut self.tables.attempts, row);
        self.tables.last_launch_id = launch_id;
        if project_slice_run {
            self.take_up_slice(run_id, slice_id, attempt.branch.as_str(), worker_retry_ordinal);
        }
        self.append_event(run_id, "worker_attempt_allocated", payload, now);
        Ok(attempt)
    }

    fn take_up_slice(&mut self, run_id: &str, slice_id: &str, branch: &str, attempts: usize)
        requires
            old(self)@.valid(),
        ensures
            final(self)@.valid(),
            old(self)@.one_active_run() ==> final(self)@.one_active_run(),
            final(self)@ == (TablesModel {
                slices: upsert(
                    old(self)@.slices,
                    slice_at(run_id@, slice_id@),
                    slice_taken_up(branch@, attempts),
                    SliceRunModel {
                        run_id: run_id@,
                        slice_id: slice_id@,
                        status: SliceStatus::Running,
                        branch: branch@,
                        commit_sha: Seq::empty(),
                        attempts,
                        last_error: Seq::empty(),
                    },
                ),
                ..old(self)@
            }),
    {
        let at = |row: &SliceRun| -> (b: bool)
            ensures
                b == slice_at(run_id@, slice_id@)(row@),
            {
                same_text(row.run_id.as_str(), run_id) && same_text(
                    row.slice_id.as_str(),
                    slice_id,
                )
            };
        let taken_up = |row: &SliceRun| -> (out: Option<SliceRun>)
            ensures
                match out {
                    Some(m) => slice_at(run_id@, slice_id@)(row@) && m@ == slice_taken_up(
                        branch@,
                        attempts,
                    )(row@),
                    None => !slice_at(run_id@, slice_id@)(row@),
                },
            {
                if same_text(row.run_id.as_str(), run_id) && same_text(
                    row.slice_id.as_str(),
                    slice_id,
                ) {
                    let mut m = row.dup();
                    m.status = SliceStatus::Running;
                    m.branch = branch.to_owned();
                    m.attempts = attempts;
                    Some(m)
                } else {
                    None
                }
            };
        let new_row = SliceRun {
            run_id: run_id.to_owned(),
            slice_id: slice_id.to_owned(),
            status: SliceStatus::Running,
            branch: branch.to_owned(),
            commit_sha: String::new(),
            attempts,
            last_error: String::new(),
        };
        proof {
            let p = slice_at(run_id@, slice_id@);
            if any(self@.slices, p) {
                let g = |row: SliceRunModel|
                    if p(row) {
                        slice_taken_up(branch@, attempts)(row)
                    } else {
                        row
                    };
                lemma_unique_map(self@.slices, slice_key(), g);
            } else {
                lemma_unique_push(self@.slices, slice_key(), new_row@, p);
            }
        }
        upsert_row(
            &mut self.tables.slices,
            at,
            taken_up,
            new_row,
            Ghost(slice_at(run_id@, slice_id@)),
            Ghost(slice_taken_up(branch@, attempts)),
        );
    }

    /// Records that an allocated launch has begun.
    pub fn mark_worker_attempt_launched(&mut self, launch_id: i64, now: Timestamp) -> (r: Result<
        (),
        StoreError,
    >)
        requires
            old(self)@.valid(),
            now.writable(),
        ensures
            final(self)@.valid(),
            old(self)@.one_active_run() ==> final(self)@.one_active_run(),
            match first(old(self)@.attempts, allocated_with_id(launch_id)) {
                None => r == Err::<(), StoreError>(StoreError::AttemptNotAllocated) && final(self)@
                    == old(self)@,
                Some(row) => if !old(self)@.room(1) {
                    r == Err::<(), StoreError>(StoreError::EventLogFull) && final(self)@ == old(self)@
                } else {
                    r is Ok && final(self)@ == (TablesModel {
                        attempts: old(self)@.attempts.map_values(attempt_launched(launch_id, now)),
                        ..old(self)@
                    }).with_event(
                        row.attempt.run_id,
                        "worker_attempt_launched"@,
                        EventPayloadModel::WorkerAttemptLaunched(
                            WorkerAttemptLaunchedPayloadModel {
                                launch_id,
                                slice_id: row.attempt.slice_id,
                            },
                        ),
                        now,
                    )
                },
            },
            r is Ok ==> final(self)@ == old(self)@.launch_started(launch_id, now),
    {
        let waiting = |row: &AttemptRow| -> (b: bool)
            ensures
                b == allocated_with_id(launch_id)(row@),
            {
                row.attempt.launch_id == launch_id && same_text(
                    row.attempt.state.as_str(),
                    "allocated",
                )
            };
        let index = match find_row(
            &self.tables.attempts,
            waiting,
            Ghost(allocated_with_id(launch_id)),
        ) {
            Some(index) => index,
            None => {
                return Err(StoreError::AttemptNotAllocated);
            },
        };
        if !self.has_room(1) {
            return Err(StoreError::EventLogFull);
        }
        let run_id = self.tables.attempts[index].attempt.run_id.dup();
        let payload = EventPayload::WorkerAttemptLaunched(
            WorkerAttemptLaunchedPayload {
                launch_id,
                slice_id: self.tables.attempts[index].attempt.slice_id.dup(),
            },
        );
        let launch = |row: &AttemptRow| -> (out: Option<AttemptRow>)
            ensures
                match out {
                    Some(m) => m@ == attempt_launched(launch_id, now)(row@),
                    None => attempt_launched(launch_id, now)(row@) == row@,
                },
            {
                if row.attempt.launch_id == launch_id && same_text(
                    row.attempt.state.as_str(),
                    "allocated",
                ) {
                    let mut m = row.dup();
                    m.attempt.state = "running".to_owned();
                    m.attempt.launched_at = Some(now);
                    Some(m)
                } else {
                    None
                }
            };
        proof {
            lemma_attempts_updated(self@, attempt_launched(launch_id, now));
        }
        update_rows(&mut self.tables.attempts, launch, Ghost(attempt_launched(launch_id, now)));
        self.append_event(run_id.as_str(), "worker_attempt_launched", payload, now);
        Ok(())
    }

    /// Records how a launch ended. Only a launch that ran can have succeeded.
    pub fn finish_worker_attempt(
        &mut self,
        launch_id: i64,
        state: &str,
        failure_cause: &str,
        now: Timestamp,
    ) -> (r: Result<(), StoreError>)
        requires
            old(self)@.valid(),
            now.writable(),
        ensures
            final(self)@.valid(),
            old(self)@.one_active_run() ==> final(self)@.one_active_run(),
            match old(self)@.finish_refusal(launch_id, state@) {
                Some(error) => r == Err::<(), StoreError>(error) && final(self)@ == old(self)@,
                None => {
                    let row = first(old(self)@.attempts, attempt_with_id(launch_id))->0;
                    r is Ok && final(self)@ == (TablesModel {
                        attempts: old(self)@.attempts.map_values(
                            attempt_ended(launch_id, state@, failure_cause@, now),
                        ),
                        ..old(self)@
                    }).with_event(
                        row.attempt.run_id,
                        "worker_attempt_finished"@,
                        EventPayloadModel::WorkerAttemptFinished(
                            WorkerAttemptFinishedPayloadModel {
                                launch_id,
                                slice_id: row.attempt.slice_id,
                                state: state@,
                                failure_cause: failure_cause@,
                            },
                        ),
                        now,
                    )
                },
            },
            r is Ok ==> final(self)@ == old(self)@.launch_finished(
                launch_id,
                state@,
                failure_cause@,
                now,
            ),
    {
        if !same_text(state, "succeeded") && !same_text(state, "failed") && !same_text(
            state,
            "interrupted",
        ) {
            return Err(StoreError::InvalidAttemptState);
        }
        let index = match self.attempt_index(launch_id) {
            Some(index) => index,
            None => {
                return Err(StoreError::AttemptNotFound);
            },
        };
        let prior = self.tables.attempts[index].attempt.state.dup();
        if !state_is_open(prior.as_str()) || (same_text(state, "succeeded") && !same_text(
            prior.as_str(),
            "running",
        )) {
            return Err(StoreError::IllegalAttemptTransition);
        }
        if !self.has_room(1) {
            return Err(StoreError::EventLogFull);
        }
        let run_id = self.tables.attempts[index].attempt.run_id.dup();
        let payload = EventPayload::WorkerAttemptFinished(
            WorkerAttemptFinishedPayload {
                launch_id,
                slice_id: self.tables.attempts[index].attempt.slice_id.dup(),
                state: state.to_owned(),
                failure_cause: failure_cause.to_owned(),
            },
        );
        self.end_attempt(launch_id, state, failure_cause, now);
        self.append_event(run_id.as_str(), "worker_attempt_finished", payload, now);
        Ok(())
    }

    pub(crate) fn end_attempt(
        &mut self,
        launch_id: i64,
        state: &str,
        failure_cause: &str,
        now: Timestamp,
    )
        requires
            old(self)@.valid(),
        ensures
            final(self)@.valid(),
            old(self)@.one_active_run() ==> final(self)@.one_active_run(),
            final(self)@ == (TablesModel {
                attempts: old(self)@.attempts.map_values(
                    attempt_ended(launch_id, state@, failure_cause@, now),
                ),
                ..old(self)@
            }),
    {
        let end = |row: &AttemptRow| -> (out: Option<AttemptRow>)
            ensures
                match out {
                    Some(m) => m@ == attempt_ended(launch_id, state@, failure_cause@, now)(row@),
                    None => attempt_ended(launch_id, state@, failure_cause@, now)(row@) == row@,
                },
            {
                if row.attempt.launch_id == launch_id {
                    let mut m = row.dup();
                    m.attempt.state = state.to_owned();
                    m.attempt.finished_at = Some(now);
                    m.attempt.failure_cause = failure_cause.to_owned();
                    Some(m)
                } else {
                    None
                }
            };
        proof {
            lemma_attempts_updated(self@, attempt_ended(launch_id, state@, failure_cause@, now));
        }
        update_rows(
            &mut self.tables.attempts,
            end,
            Ghost(attempt_ended(launch_id, state@, failure_cause@, now)),
        );
    }

    /// The launches of a slice in the order in which they were given out.
    pub fn list_worker_attempt_ledger(&self, run_id: &str, slice_id: &str) -> (r: Result<
        Vec<WorkerAttemptLedger>,
        StoreError,
    >)
        ensures
            res(r) == Ok::<Seq<WorkerAttemptLedgerModel>, StoreError>(
                self@.ledger(run_id@, slice_id@),
            ),
    {
        let of_slice = |row: &AttemptRow| -> (b: bool)
            ensures
                b == attempt_of_slice(run_id@, slice_id@)(row@),
            {
                same_text(row.attempt.run_id.as_str(), run_id) && same_text(
                    row.attempt.slice_id.as_str(),
                    slice_id,
                )
            };
        let found = select_rows(
            &self.tables.attempts,
            of_slice,
            Ghost(attempt_of_slice(run_id@, slice_id@)),
        );
        let before = |a: &AttemptRow, b: &AttemptRow| -> (lt: bool)
            ensures
                lt == ledger_order()(a@, b@),
            {
                a.attempt.launch_ordinal < b.attempt.launch_ordinal || (a.attempt.launch_ordinal
                    == b.attempt.launch_ordinal && a.attempt.launch_id < b.attempt.launch_id)
            };
        let sorted = order_rows(found, before, Ghost(ledger_order()));
        Ok(read_attempts(&sorted))
    }

    pub(crate) fn open_attempts_of(&self, run_id: &str) -> (r: Vec<AttemptRow>)
        ensures
            r.deep_view() == self@.open_attempts(run_id@),
    {
        let open = |row: &AttemptRow| -> (b: bool)
            ensures
                b == open_attempt_of(run_id@)(row@),
            {
                same_text(row.attempt.run_id.as_str(), run_id) && state_is_open(
                    row.attempt.state.as_str(),
                )
            };
        let found = select_rows(&self.tables.attempts, open, Ghost(open_attempt_of(run_id@)));
        let before = |a: &AttemptRow, b: &AttemptRow| -> (lt: bool)
            ensures
                lt == launch_id_order()(a@, b@),
            { a.attempt.launch_id < b.attempt.launch_id };
        order_rows(found, before, Ghost(launch_id_order()))
    }

    /// Interrupts the open launches of a run, which the caller has listed.
    pub(crate) fn interrupt_active_worker_attempts(
        &mut self,
        run_id: &str,
        rows: &Vec<AttemptRow>,
        reason: &str,
        terminal_status: RunStatus,
        now: Timestamp,
    )
        requires
            old(self)@.valid(),
            rows.deep_view() == old(self)@.open_attempts(run_id@),
            old(self)@.room(rows.len() as int),
        ensures
            final(self)@.valid(),
            old(self)@.one_active_run() ==> final(self)@.one_active_run(),
            final(self)@ == old(self)@.interrupt_attempts(run_id@, reason@, terminal_status, now),
            final(self)@.last_event_id == old(self)@.last_event_id + rows.len(),
            final(self)@ == (TablesModel {
                attempts: final(self)@.attempts,
                events: final(self)@.events,
                last_event_id: final(self)@.last_event_id,
                ..old(self)@
            }),
    {
        let interrupt = |row: &AttemptRow| -> (out: Option<AttemptRow>)
            ensures
                match out {
                    Some(m) => m@ == attempt_interrupted(run_id@, reason@, now)(row@),
                    None => attempt_interrupted(run_id@, reason@, now)(row@) == row@,
                },
            {
                if same_text(row.attempt.run_id.as_str(), run_id) && state_is_open(
                    row.attempt.state.as_str(),
                ) {
                    let mut m = row.dup();
                    m.attempt.state = "interrupted".to_owned();
                    m.attempt.finished_at = Some(now);
                    m.attempt.failure_cause = reason.to_owned();
                    Some(m)
                } else {
                    None
                }
            };
        proof {
            lemma_attempts_updated(self@, attempt_interrupted(run_id@, reason@, now));
        }
        update_rows(
            &mut self.tables.attempts,
            interrupt,
            Ghost(attempt_interrupted(run_id@, reason@, now)),
        );
        let ghost updated = self@;
        let mut i: usize = 0;
        assert(rows.deep_view().take(0) =~= Seq::empty());
        while i < rows.len()
            invariant
                i <= rows.len(),
                updated.room(rows.len() as int),
                self@ == updated.with_interruptions(
                    run_id@,
                    rows.deep_view().take(i as int),
                    reason@,
                    terminal_status,
                    now,
                ),
                self@.last_event_id == updated.last_event_id + i,
                self@.valid(),
                updated.one_active_run() ==> self@.one_active_run(),
            decreases rows.len() - i,
        {
            proof {
                let part = rows.deep_view().take(i + 1);
                assert(part.drop_last() =~= rows.deep_view().take(i as int));
                assert(part.last() == rows@[i as int]@);
            }
            let payload = EventPayload::WorkerAttemptInterrupted(
                WorkerAttemptInterruptedPayload {
                    launch_id: rows[i].attempt.launch_id,
                    slice_id: rows[i].attempt.slice_id.dup(),
                    reason: reason.to_owned(),
                    prior_state: rows[i].attempt.state.dup(),
                    terminal_status,
                },
            );
            self.append_event(run_id, "worker_attempt_interrupted", payload, now);
            i = i + 1;
        }
        proof {
            assert(rows.deep_view().take(i as int) =~= rows.deep_view());
            lemma_interruptions(
                updated,
                run_id@,
                rows.deep_view(),
                reason@,
                terminal_status,
                now,
            );
        }
    }

    /// Launches that were allocated or running when the daemon stopped stay in the ledger but are
    /// never taken up again; a resumed run allocates new ones.
    pub fn reconcile_unlaunched_worker_attempts(
        &mut self,
        run_id: &str,
        reason: &str,
        now: Timestamp,
    ) -> (r: Result<usize, StoreError>)
        requires
            old(self)@.valid(),
            now.writable(),
        ensures
            final(self)@.valid(),
            old(self)@.one_active_run() ==> final(self)@.one_active_run(),
            if !old(self)@.room(old(self)@.open_attempts(run_id@).len() as int) {
                r == Err::<usize, StoreError>(StoreError::EventLogFull) && final(self)@ == old(self)@
            } else {
                r is Ok && r->Ok_0 == old(self)@.open_attempts(run_id@).len() && final(self)@
                    == old(self)@.interrupt_attempts(
                    run_id@,
                    reason@,
                    RunStatus::Interrupted,
                    now,
                )
            },
    {
        let rows = self.open_attempts_of(run_id);
        if !self.has_room(rows.len()) {
            return Err(StoreError::EventLogFull);
        }
        self.interrupt_active_worker_attempts(run_id, &rows, reason, RunStatus::Interrupted, now);
        Ok(rows.len())
    }

    /// Writes a slice of a run, in place of the one with the same name.
    pub fn upsert_slice_run(&mut self, slice_run: &SliceRun) -> (r: Result<(), StoreError>)
        requires
            old(self)@.valid(),
        ensures
            final(self)@.valid(),
            old(self)@.one_active_run() ==> final(self)@.one_active_run(),
            r is Ok,
            final(self)@ == old(self)@.with_slice(slice_run@),
    {
        self.put_slice(slice_run);
        Ok(())
    }

    /// Gives a slice of a run another status.
    pub fn update_slice_status(
        &mut self,
        run_id: &str,
        slice_id: &str,
        status: SliceStatus,
        last_error: &str,
    ) -> (r: Result<(), StoreError>)
        requires
            old(self)@.valid(),
        ensures
            final(self)@.valid(),
            old(self)@.one_active_run() ==> final(self)@.one_active_run(),
            r is Ok,
            final(self)@ == (TablesModel {
                slices: old(self)@.slices.map_values(
                    slice_failed_over(run_id@, slice_id@, status, last_error@),
                ),
                ..old(self)@
            }),
            final(self)@ == old(self)@.with_slice_status(run_id@, slice_id@, status, last_error@),
    {
        self.set_slice_status(run_id, slice_id, status, last_error);
        Ok(())
    }

    pub(crate) fn set_slice_status(
        &mut self,
        run_id: &str,
        slice_id: &str,
        status: SliceStatus,
        last_error: &str,
    )
        requires
            old(self)@.valid(),
        ensures
            final(self)@.valid(),
            old(self)@.one_active_run() ==> final(self)@.one_active_run(),
            final(self)@ == (TablesModel {
                slices: old(self)@.slices.map_values(
                    slice_failed_over(run_id@, slice_id@, status, last_error@),
                ),
                ..old(self)@
            }),
    {
        let set = |row: &SliceRun| -> (out: Option<SliceRun>)
            ensures
                match out {
                    Some(m) => m@ == slice_failed_over(run_id@, slice_id@, status, last_error@)(
                        row@,
                    ),
                    None => slice_failed_over(run_id@, slice_id@, status, last_error@)(row@)
                        == row@,
                },
            {
                if same_text(row.run_id.as_str(), run_id) && same_text(
                    row.slice_id.as_str(),
                    slice_id,
                ) {
                    let mut m = row.dup();
                    m.status = status;
                    m.last_error = last_error.to_owned();
                    Some(m)
                } else {
                    None
                }
            };
        proof {
            lemma_unique_map(
                self@.slices,
                slice_key(),
                slice_failed_over(run_id@, slice_id@, status, last_error@),
            );
        }
        update_rows(
            &mut self.tables.slices,
            set,
            Ghost(slice_failed_over(run_id@, slice_id@, status, last_error@)),
        );
    }

    /// The slices of a run by name.
    pub fn get_slice_runs(&self, run_id: &str) -> (r: Result<Vec<SliceRun>, StoreError>)
        ensures
            res(r) == Ok::<Seq<SliceRunModel>, StoreError>(self@.slices_of(run_id@)),
    {
        let of_run = |row: &SliceRun| -> (b: bool)
            ensures
                b == slice_of_run(run_id@)(row@),
            { same_text(row.run_id.as_str(), run_id) };
        let found = select_rows(&self.tables.slices, of_run, Ghost(slice_of_run(run_id@)));
        let before = |a: &SliceRun, b: &SliceRun| -> (lt: bool)
            ensures
                lt == slice_order()(a@, b@),
            { text_before(a.slice_id.as_str(), b.slice_id.as_str()) };
        Ok(order_rows(found, before, Ghost(slice_order())))
    }

    /// Keeps the digest of the worker token of a run.
    pub fn store_worker_token(&mut self, run_id: &str, token: &str, now: Timestamp) -> (r: Result<
        (),
        StoreError,
    >)
        requires
            old(self)@.valid(),
        ensures
            final(self)@.valid(),
            old(self)@.one_active_run() ==> final(self)@.one_active_run(),
            r is Ok,
            final(self)@ == (TablesModel {
                tokens: upsert(
                    old(self)@.tokens,
                    token_of(run_id@),
                    token_set(text_digest(token@)),
                    WorkerTokenRowModel {
                        run_id: run_id@,
                        token_hash: text_digest(token@),
                        created_at: now.text(),
                    },
                ),
                ..old(self)@
            }),
            final(self)@ == old(self)@.with_token(run_id@, token@, now),
    {
        let hash = digest_of(token);
        let of_run = |row: &WorkerTokenRow| -> (b: bool)
            ensures
                b == token_of(run_id@)(row@),
            { same_text(row.run_id.as_str(), run_id) };
        let set = |row: &WorkerTokenRow| -> (out: Option<WorkerTokenRow>)
            ensures
                match out {
                    Some(m) => token_of(run_id@)(row@) && m@ == token_set(hash@)(row@),
                    None => !token_of(run_id@)(row@),
                },
            {
                if same_text(row.run_id.as_str(), run_id) {
                    let mut m = row.dup();
                    m.token_hash = hash.dup();
                    Some(m)
                } else {
                    None
                }
            };
        let new_row = WorkerTokenRow {
            run_id: run_id.to_owned(),
            token_hash: hash.dup(),
            created_at: now.to_rfc3339(),
        };
        proof {
            let p = token_of(run_id@);
            if any(self@.tokens, p) {
                let g = |row: WorkerTokenRowModel|
                    if p(row) {
                        token_set(hash@)(row)
                    } else {
                        row
                    };
                lemma_unique_map(self@.tokens, token_key(), g);
            } else {
                lemma_unique_push(self@.tokens, token_key(), new_row@, p);
            }
        }
        upsert_row(
            &mut self.tables.tokens,
            of_run,
            set,
            new_row,
            Ghost(token_of(run_id@)),
            Ghost(token_set(hash@)),
        );
        Ok(())
    }

    /// Whether a token is the worker token of a run.
    pub fn validate_worker_token(&self, run_id: &str, token: &str) -> (r: Result<bool, StoreError>)
        ensures
            r == Ok::<bool, StoreError>(
                match first(self@.tokens, token_of(run_id@)) {
                    Some(row) => row.token_hash == text_digest(token@),
                    None => false,
                },
            ),
            r == Ok::<bool, StoreError>(self@.token_accepted(run_id@, token@)),
    {
        let of_run = |row: &WorkerTokenRow| -> (b: bool)
            ensures
                b == token_of(run_id@)(row@),
            { same_text(row.run_id.as_str(), run_id) };
        match find_row(&self.tables.tokens, of_run, Ghost(token_of(run_id@))) {
            Some(i) => {
                let hash = digest_of(token);
                Ok(self.tables.tokens[i].token_hash.same(&hash))
            },
            None => Ok(false),
        }
    }

    /// Binds a token to a launch that was given out and has none yet.
    pub fn store_worker_launch_token(&mut self, run_id: &str, launch_id: i64, token: &str) -> (r:
        Result<(), StoreError>)
        requires
            old(self)@.valid(),
        ensures
            final(self)@.valid(),
            old(self)@.one_active_run() ==> final(self)@.one_active_run(),
            if launch_id <= 0 || token@.len() == 0 {
                r == Err::<(), StoreError>(StoreError::InvalidLaunchToken) && final(self)@ == old(self)@
            } else if !any(old(self)@.attempts, tokenless(run_id@, launch_id)) {
                r == Err::<(), StoreError>(StoreError::LaunchTokenRefused) && final(self)@ == old(self)@
            } else {
                r is Ok && final(self)@ == (TablesModel {
                    attempts: old(self)@.attempts.map_values(
                        launch_token_bound(run_id@, launch_id, text_digest(token@)),
                    ),
                    ..old(self)@
                })
            },
            r is Ok ==> !any(final(self)@.attempts, tokenless(run_id@, launch_id)),
            r is Ok ==> final(self)@ == old(self)@.with_launch_token(run_id@, launch_id, token@),
    {
        if launch_id <= 0 || token.is_empty() {
            return Err(StoreError::InvalidLaunchToken);
        }
        let waits = |row: &AttemptRow| -> (b: bool)
            ensures
                b == tokenless(run_id@, launch_id)(row@),
            { waits_for_token(row, run_id, launch_id) };
        if find_row(
            &self.tables.attempts,
            waits,
            Ghost(tokenless(run_id@, launch_id)),
        ).is_none() {
            return Err(StoreError::LaunchTokenRefused);
        }
        let hash = digest_of(token);
        let bind = |row: &AttemptRow| -> (out: Option<AttemptRow>)
            ensures
                match out {
                    Some(m) => m@ == launch_token_bound(run_id@, launch_id, hash@)(row@),
                    None => launch_token_bound(run_id@, launch_id, hash@)(row@) == row@,
                },
            {
                if waits_for_token(row, run_id, launch_id) {
                    let mut m = row.dup();
                    m.worker_token_hash = hash.dup();
                    Some(m)
                } else {
                    None
                }
            };
        proof {
            lemma_attempts_updated(self@, launch_token_bound(run_id@, launch_id, hash@));
        }
        update_rows(
            &mut self.tables.attempts,
            bind,
            Ghost(launch_token_bound(run_id@, launch_id, hash@)),
        );
        Ok(())
    }

    /// Whether a token speaks for a launch that is running.
    pub fn validate_worker_launch_token(&self, run_id: &str, launch_id: i64, token: &str) -> (r:
        Result<bool, StoreError>)
        ensures
            r == Ok::<bool, StoreError>(
                self@.launch_token_accepted(run_id@, launch_id, token@),
            ),
    {
        if launch_id <= 0 {
            return Ok(false);
        }
        let index = match self.attempt_index(launch_id) {
            Some(index) => index,
            None => {
                return Ok(false);
            },
        };
        let row = &self.tables.attempts[index];
        if !same_text(row.attempt.run_id.as_str(), run_id) || !same_text(
            row.attempt.state.as_str(),
            "running",
        ) || !self.is_running(run_id) {
            return Ok(false);
        }
        let repair = kind_is_repair(row.attempt.kind.as_str()) && row.attempt.repair_ordinal > 0;
        if !repair && !self.slice_is_on(
            run_id,
            row.attempt.slice_id.as_str(),
            row.attempt.worker_retry_ordinal,
        ) {
            return Ok(false);
        }
        let hash = digest_of(token);
        Ok(!row.worker_token_hash.as_str().is_empty() && row.worker_token_hash.same(&hash))
    }
}

fn waits_for_token(row: &AttemptRow, run_id: &str, launch_id: i64) -> (r: bool)
    ensures
        r == tokenless(run_id@, launch_id)(row@),
{
    row.attempt.launch_id == launch_id && same_text(row.attempt.run_id.as_str(), run_id)
        && same_text(row.attempt.state.as_str(), "allocated") && row.worker_token_hash.as_str(
    ).is_empty()
}

/// Changing launches without touching their identities keeps the tables valid.
pub(crate) proof fn lemma_attempts_updated(
    s: TablesModel,
    g: spec_fn(AttemptRowModel) -> AttemptRowModel,
)
    requires
        s.valid(),
        forall|m: AttemptRowModel| (#[trigger] g(m)).attempt.launch_id == m.attempt.launch_id,
    ensures
        (TablesModel { attempts: s.attempts.map_values(g), ..s }).valid(),
        s.one_active_run() ==> (TablesModel {
            attempts: s.attempts.map_values(g),
            ..s
        }).one_active_run(),
{
    lemma_unique_map(s.attempts, attempt_key(), g);
}

} // verus!
