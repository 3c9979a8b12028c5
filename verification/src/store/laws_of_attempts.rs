//! What the ledger of worker launches says of them, and what each step of a launch changes, row by row.
use super::attempts::{
    allocated_with_id, attempt_ended, attempt_launched, attempt_with_id, launch_token_bound,
    ledger_of, max_ordinal, run_running, running_launch, slice_on_attempt, token_of, tokenless,
};
use super::{attempt_key, slice_at, slice_key};
use crate::digest::text_digest;
use crate::domain::{
    RunStatus, SliceRunModel, SliceStatus, WorkerAttemptLedgerModel, WorkerAttemptProgressModel,
};
use crate::error::StoreError;
use crate::payloads::{
    EventModel, EventPayloadModel, WorkerAttemptAllocatedPayloadModel,
    WorkerAttemptFinishedPayloadModel,
    WorkerAttemptInterruptedPayloadModel, WorkerAttemptLaunchedPayloadModel,
};
use crate::rows::{AttemptRowModel, TablesModel, WorkerObservationModel, WorkerTokenRowModel};
use crate::table::{any, first, lemma_first_any, lemma_first_none, lemma_first_unique};
use crate::text::{blank, decimal_int, path_join};
use crate::time::Timestamp;
use vstd::prelude::*;

verus! {

/// The run is running.
pub open spec fn run_is_running(s: TablesModel, run_id: Seq<char>) -> bool {
    exists|k: int|
        0 <= k < s.runs.len() && (#[trigger] s.runs[k]).run.id == run_id && s.runs[k].run.status
            == RunStatus::Running
}

/// The slice is running or under repair, and this is its attempt.
pub open spec fn slice_is_on(
    s: TablesModel,
    run_id: Seq<char>,
    slice_id: Seq<char>,
    attempt: usize,
) -> bool {
    exists|k: int|
        0 <= k < s.slices.len() && (#[trigger] s.slices[k]).run_id == run_id && s.slices[k].slice_id
            == slice_id && s.slices[k].attempts == attempt && (s.slices[k].status
            == SliceStatus::Running || s.slices[k].status == SliceStatus::RepairNeeded)
}

/// The launch runs for this attempt of the slice: a repair is counted by its repairs, any other launch
/// by its retries.
pub open spec fn launch_serves(
    row: AttemptRowModel,
    run_id: Seq<char>,
    slice_id: Seq<char>,
    attempt: usize,
    launch_id: i64,
) -> bool {
    &&& row.attempt.run_id == run_id
    &&& row.attempt.slice_id == slice_id
    &&& row.attempt.launch_id == launch_id
    &&& row.attempt.state == "running"@
    &&& attempt == if row.attempt.kind == "integration-repair"@ {
        row.attempt.repair_ordinal
    } else {
        row.attempt.worker_retry_ordinal
    }
}

pub(super) proof fn lemma_run_is_running(s: TablesModel, run_id: Seq<char>)
    ensures
        any(s.runs, run_running(run_id)) <==> run_is_running(s, run_id),
{
    let p = run_running(run_id);
    if any(s.runs, p) {
        let k = choose|k: int| 0 <= k < s.runs.len() && p(#[trigger] s.runs[k]);
        assert(s.runs[k].run.id == run_id);
    }
    if run_is_running(s, run_id) {
        let k = choose|k: int|
            0 <= k < s.runs.len() && (#[trigger] s.runs[k]).run.id == run_id && s.runs[k].run.status
                == RunStatus::Running;
        assert(p(s.runs[k]));
    }
}

proof fn lemma_slice_is_on(s: TablesModel, run_id: Seq<char>, slice_id: Seq<char>, attempt: usize)
    ensures
        any(s.slices, slice_on_attempt(run_id, slice_id, attempt)) <==> slice_is_on(
            s,
            run_id,
            slice_id,
            attempt,
        ),
{
    let p = slice_on_attempt(run_id, slice_id, attempt);
    if any(s.slices, p) {
        let k = choose|k: int| 0 <= k < s.slices.len() && p(#[trigger] s.slices[k]);
        assert(s.slices[k].run_id == run_id);
    }
    if slice_is_on(s, run_id, slice_id, attempt) {
        let k = choose|k: int|
            0 <= k < s.slices.len() && (#[trigger] s.slices[k]).run_id == run_id
                && s.slices[k].slice_id == slice_id && s.slices[k].attempts == attempt && (
            s.slices[k].status == SliceStatus::Running || s.slices[k].status
                == SliceStatus::RepairNeeded);
        assert(p(s.slices[k]));
    }
}

/// An attempt is active exactly while its run is running and, where it is named by a launch, that very
/// launch runs for it and, unless it is a repair of the integration, its slice is on that attempt;
/// without a launch the slice decides.
pub proof fn law_attempt_is_active_while_it_works(
    s: TablesModel,
    run_id: Seq<char>,
    slice_id: Seq<char>,
    attempt: usize,
    launch_id: Option<i64>,
)
    requires
        s.valid(),
    ensures
        s.attempt_is_active(run_id, slice_id, attempt, launch_id) <==> run_is_running(s, run_id) && (
        match launch_id {
            None => slice_is_on(s, run_id, slice_id, attempt),
            Some(id) => exists|a: int|
                0 <= a < s.attempts.len() && launch_serves(
                    #[trigger] s.attempts[a],
                    run_id,
                    slice_id,
                    attempt,
                    id,
                ) && (s.attempts[a].attempt.kind == "integration-repair"@ || slice_is_on(
                    s,
                    run_id,
                    slice_id,
                    attempt,
                )),
        }),
{
    lemma_run_is_running(s, run_id);
    lemma_slice_is_on(s, run_id, slice_id, attempt);
    if let Some(id) = launch_id {
        let p = running_launch(run_id, slice_id, attempt, id);
        assert forall|a: int| 0 <= a < s.attempts.len() implies p(#[trigger] s.attempts[a])
            == launch_serves(s.attempts[a], run_id, slice_id, attempt, id) by {}
        if exists|a: int|
            0 <= a < s.attempts.len() && launch_serves(
                #[trigger] s.attempts[a],
                run_id,
                slice_id,
                attempt,
                id,
            ) {
            let a = choose|a: int|
                0 <= a < s.attempts.len() && launch_serves(
                    #[trigger] s.attempts[a],
                    run_id,
                    slice_id,
                    attempt,
                    id,
                );
            lemma_first_unique(s.attempts, attempt_key(), p, a);
        } else {
            lemma_first_none(s.attempts, p);
        }
    }
}

/// A launch is given out where the request is complete, the run is running and the counters and the
/// log have room; it is refused elsewhere.
pub proof fn law_launch_is_given_out_to_running_runs(
    s: TablesModel,
    run_id: Seq<char>,
    slice_id: Seq<char>,
    execution_epoch: usize,
    worker_retry_ordinal: usize,
    kind: Seq<char>,
    project_slice_run: bool,
)
    requires
        s.last_launch_id < i64::MAX,
        s.last_event_id < i64::MAX,
        max_ordinal(s.attempts, run_id, slice_id) < usize::MAX,
    ensures
        ({
            let refusal = s.allocate_refusal(
                run_id,
                slice_id,
                execution_epoch,
                worker_retry_ordinal,
                kind,
                project_slice_run,
            );
            let complete = execution_epoch > 0 && (project_slice_run ==> worker_retry_ordinal > 0)
                && !blank(kind);
            &&& refusal is None <==> complete && run_is_running(s, run_id)
            &&& !complete ==> refusal == Some(StoreError::AllocationIncomplete)
            &&& complete && !run_is_running(s, run_id) ==> refusal == Some(StoreError::RunNotRunning)
        }),
{
    lemma_run_is_running(s, run_id);
}

/// A launch that is given out is the newest row of the ledger: it has the next number, the names made
/// of that number, what was asked for, and nothing has happened to it yet. The slice, where one is
/// taken up, is running under the branch of the launch and on its retry; other slices stay. The log
/// ends by telling of the launch.
pub proof fn law_given_out_launch_is_on_record(
    s: TablesModel,
    run_id: Seq<char>,
    slice_id: Seq<char>,
    execution_epoch: usize,
    worker_retry_ordinal: usize,
    repair_ordinal: usize,
    envelope_retry_ordinal: usize,
    kind: Seq<char>,
    worktree_root: Seq<char>,
    project_slice_run: bool,
    now: Timestamp,
)
    requires
        s.valid(),
        s.last_launch_id < i64::MAX,
        s.last_event_id < i64::MAX,
    ensures
        ({
            let attempt = s.allocated(
                run_id,
                slice_id,
                execution_epoch,
                worker_retry_ordinal,
                repair_ordinal,
                envelope_retry_ordinal,
                kind,
                worktree_root,
                now,
            );
            let after = s.allocate(attempt, project_slice_run);
            let number = decimal_int(s.last_launch_id + 1);
            &&& attempt == WorkerAttemptLedgerModel {
                run_id,
                slice_id,
                launch_id: (s.last_launch_id + 1) as i64,
                launch_ordinal: attempt.launch_ordinal,
                execution_epoch,
                worker_retry_ordinal,
                repair_ordinal,
                envelope_retry_ordinal,
                kind,
                state: "allocated"@,
                branch: "khazad/"@ + run_id + "/"@ + slice_id + "/launch-"@ + number,
                worktree: attempt.worktree,
                output_stem: slice_id + ".worker.launch-"@ + number,
                created_at: now,
                launched_at: None,
                finished_at: None,
                failure_cause: Seq::empty(),
                activity: None,
            }
            &&& (forall|k: int|
                0 <= k < s.attempts.len() ==> !((#[trigger] s.attempts[k]).attempt.run_id == run_id
                    && s.attempts[k].attempt.slice_id == slice_id)) ==> attempt.launch_ordinal == 1
            &&& attempt.launch_ordinal > 1 && max_ordinal(s.attempts, run_id, slice_id)
                < usize::MAX ==> exists|k: int|
                0 <= k < s.attempts.len() && (#[trigger] s.attempts[k]).attempt.run_id == run_id
                    && s.attempts[k].attempt.slice_id == slice_id
                    && s.attempts[k].attempt.launch_ordinal + 1 == attempt.launch_ordinal
            &&& attempt.worktree == path_join(
                path_join(worktree_root, slice_id),
                "launch-"@ + number,
            )
            &&& worktree_root.len() > 0 && worktree_root.last() != '/' && slice_id.len() > 0
                && slice_id[0] != '/' && slice_id.last() != '/' ==> attempt.worktree
                == worktree_root + "/"@ + slice_id + "/launch-"@ + number
            &&& after.attempts == s.attempts.push(
                AttemptRowModel {
                    attempt,
                    worker_token_hash: Seq::empty(),
                    observed: WorkerObservationModel {
                        pid: None,
                        process_observed_at: None,
                        last_event_at: None,
                        last_event_kind: Seq::empty(),
                        last_semantic_progress_at: None,
                        last_semantic_progress_summary: Seq::empty(),
                        attempt_timeout_seconds: 0,
                        no_output_warning_seconds: 0,
                    },
                },
            )
            &&& after == TablesModel {
                attempts: after.attempts,
                slices: after.slices,
                events: s.events.push(
                    EventModel {
                        id: (s.last_event_id + 1) as i64,
                        run_id,
                        typ: "worker_attempt_allocated"@,
                        payload: EventPayloadModel::WorkerAttemptAllocated(
                            WorkerAttemptAllocatedPayloadModel {
                                launch_id: (s.last_launch_id + 1) as i64,
                                slice_id,
                                launch_ordinal: attempt.launch_ordinal,
                                execution_epoch,
                                worker_retry_ordinal,
                                repair_ordinal,
                                envelope_retry_ordinal,
                                kind,
                                state: "allocated"@,
                                output_stem: slice_id + ".worker.launch-"@ + number,
                            },
                        ),
                        created_at: now,
                    },
                ),
                last_event_id: (s.last_event_id + 1) as i64,
                last_launch_id: (s.last_launch_id + 1) as i64,
                ..s
            }
            &&& !project_slice_run ==> after.slices == s.slices
            &&& forall|k: int|
                0 <= k < s.slices.len() && project_slice_run ==> #[trigger] after.slices[k]
                    == if s.slices[k].run_id == run_id && s.slices[k].slice_id == slice_id {
                    SliceRunModel {
                        status: SliceStatus::Running,
                        branch: "khazad/"@ + run_id + "/"@ + slice_id + "/launch-"@ + number,
                        attempts: worker_retry_ordinal,
                        ..s.slices[k]
                    }
                } else {
                    s.slices[k]
                }
            &&& project_slice_run && (forall|k: int|
                0 <= k < s.slices.len() ==> !((#[trigger] s.slices[k]).run_id == run_id
                    && s.slices[k].slice_id == slice_id)) ==> after.slices == s.slices.push(
                SliceRunModel {
                    run_id,
                    slice_id,
                    status: SliceStatus::Running,
                    branch: "khazad/"@ + run_id + "/"@ + slice_id + "/launch-"@ + number,
                    commit_sha: Seq::empty(),
                    attempts: worker_retry_ordinal,
                    last_error: Seq::empty(),
                },
            )
        }),
{
    let attempt = s.allocated(
        run_id,
        slice_id,
        execution_epoch,
        worker_retry_ordinal,
        repair_ordinal,
        envelope_retry_ordinal,
        kind,
        worktree_root,
        now,
    );
    let after = s.allocate(attempt, project_slice_run);
    let number = decimal_int(s.last_launch_id + 1);
    reveal_strlit("/");
    reveal_strlit("launch-");
    reveal_strlit("/launch-");
    if worktree_root.len() > 0 && worktree_root.last() != '/' && slice_id.len() > 0 && slice_id[0]
        != '/' && slice_id.last() != '/' {
        assert(("launch-"@ + number)[0] == 'l');
        assert((worktree_root.push('/') + slice_id).last() == slice_id.last());
        assert(attempt.worktree =~= worktree_root + "/"@ + slice_id + "/launch-"@ + number);
    }
    lemma_greatest_ordinal(s.attempts, run_id, slice_id);
    let at = slice_at(run_id, slice_id);
    if any(s.slices, at) {
        let k = choose|k: int| 0 <= k < s.slices.len() && at(#[trigger] s.slices[k]);
        assert(s.slices[k].run_id == run_id);
    } else {
        assert forall|k: int| 0 <= k < s.slices.len() && project_slice_run implies
            #[trigger] after.slices[k] == s.slices[k] && !(s.slices[k].run_id == run_id
            && s.slices[k].slice_id == slice_id) by {
            assert(!at(s.slices[k]));
        }
    }
}

/// The greatest ordinal of the launches of a slice is that of one of them.
proof fn lemma_greatest_ordinal(
    attempts: Seq<AttemptRowModel>,
    run_id: Seq<char>,
    slice_id: Seq<char>,
)
    ensures
        max_ordinal(attempts, run_id, slice_id) == 0 || exists|k: int|
            0 <= k < attempts.len() && (#[trigger] attempts[k]).attempt.run_id == run_id
                && attempts[k].attempt.slice_id == slice_id && attempts[k].attempt.launch_ordinal
                == max_ordinal(attempts, run_id, slice_id),
    decreases attempts.len(),
{
    if attempts.len() > 0 {
        let rest = attempts.drop_last();
        lemma_greatest_ordinal(rest, run_id, slice_id);
        let last = attempts.len() - 1;
        if max_ordinal(attempts, run_id, slice_id) == max_ordinal(rest, run_id, slice_id) {
            if max_ordinal(rest, run_id, slice_id) != 0 {
                let k = choose|k: int|
                    0 <= k < rest.len() && (#[trigger] rest[k]).attempt.run_id == run_id
                        && rest[k].attempt.slice_id == slice_id && rest[k].attempt.launch_ordinal
                        == max_ordinal(rest, run_id, slice_id);
                assert(attempts[k] == rest[k]);
            }
        } else {
            assert(attempts[last] == attempts.last());
        }
    }
}

/// An allocated launch is started: it is running from then on, and the log tells of it. A launch that
/// is not allocated is not started.
pub proof fn law_allocated_launch_is_started(s: TablesModel, a: int, now: Timestamp)
    requires
        s.valid(),
        0 <= a < s.attempts.len(),
    ensures
        ({
            let row = s.attempts[a];
            let launch_id = row.attempt.launch_id;
            &&& first(s.attempts, allocated_with_id(launch_id)) == if row.attempt.state
                == "allocated"@ {
                Some(row)
            } else {
                None
            }
            &&& row.attempt.state == "allocated"@ ==> s.launch_started(launch_id, now) == TablesModel {
                attempts: s.attempts.update(
                    a,
                    AttemptRowModel {
                        attempt: WorkerAttemptLedgerModel {
                            state: "running"@,
                            launched_at: Some(now),
                            ..row.attempt
                        },
                        ..row
                    },
                ),
                events: s.events.push(
                    EventModel {
                        id: (s.last_event_id + 1) as i64,
                        run_id: row.attempt.run_id,
                        typ: "worker_attempt_launched"@,
                        payload: EventPayloadModel::WorkerAttemptLaunched(
                            WorkerAttemptLaunchedPayloadModel {
                                launch_id,
                                slice_id: row.attempt.slice_id,
                            },
                        ),
                        created_at: now,
                    },
                ),
                last_event_id: (s.last_event_id + 1) as i64,
                ..s
            }
        }),
{
    let row = s.attempts[a];
    let launch_id = row.attempt.launch_id;
    let p = allocated_with_id(launch_id);
    if row.attempt.state == "allocated"@ {
        lemma_first_unique(s.attempts, attempt_key(), p, a);
        let after = s.attempts.map_values(attempt_launched(launch_id, now));
        assert forall|k: int| 0 <= k < s.attempts.len() && k != a implies #[trigger] after[k]
            == s.attempts[k] by {
            assert(attempt_key()(s.attempts[k]) != attempt_key()(s.attempts[a]));
        }
        assert(after =~= s.attempts.update(a, after[a]));
    } else {
        assert forall|k: int| 0 <= k < s.attempts.len() implies !p(#[trigger] s.attempts[k]) by {
            if k != a {
                assert(attempt_key()(s.attempts[k]) != attempt_key()(s.attempts[a]));
            }
        }
        lemma_first_none(s.attempts, p);
    }
}

/// A launch that was allocated or is running is finished as succeeded, failed or interrupted, but that
/// only a running one succeeds; it keeps the end, the cause and the time, and the log tells of it. No
/// other end is taken, and a launch that has ended does not end again.
pub proof fn law_open_launch_is_finished(
    s: TablesModel,
    a: int,
    state: Seq<char>,
    failure_cause: Seq<char>,
    now: Timestamp,
)
    requires
        s.valid(),
        0 <= a < s.attempts.len(),
        s.last_event_id < i64::MAX,
    ensures
        ({
            let row = s.attempts[a];
            let launch_id = row.attempt.launch_id;
            let refusal = s.finish_refusal(launch_id, state);
            let is_end = state == "succeeded"@ || state == "failed"@ || state == "interrupted"@;
            let may_end = row.attempt.state == "running"@ || (row.attempt.state == "allocated"@
                && state != "succeeded"@);
            &&& refusal is None <==> is_end && may_end
            &&& !is_end ==> refusal == Some(StoreError::InvalidAttemptState)
            &&& is_end && !may_end ==> refusal == Some(StoreError::IllegalAttemptTransition)
            &&& s.launch_finished(launch_id, state, failure_cause, now) == TablesModel {
                attempts: s.attempts.update(
                    a,
                    AttemptRowModel {
                        attempt: WorkerAttemptLedgerModel {
                            state,
                            finished_at: Some(now),
                            failure_cause,
                            ..row.attempt
                        },
                        ..row
                    },
                ),
                events: s.events.push(
                    EventModel {
                        id: (s.last_event_id + 1) as i64,
                        run_id: row.attempt.run_id,
                        typ: "worker_attempt_finished"@,
                        payload: EventPayloadModel::WorkerAttemptFinished(
                            WorkerAttemptFinishedPayloadModel {
                                launch_id,
                                slice_id: row.attempt.slice_id,
                                state,
                                failure_cause,
                            },
                        ),
                        created_at: now,
                    },
                ),
                last_event_id: (s.last_event_id + 1) as i64,
                ..s
            }
        }),
{
    let row = s.attempts[a];
    let launch_id = row.attempt.launch_id;
    lemma_first_unique(s.attempts, attempt_key(), attempt_with_id(launch_id), a);
    reveal_strlit("running");
    reveal_strlit("allocated");
    reveal_strlit("succeeded");
    assert("running"@.len() == 7 && "allocated"@.len() == 9);
    lemma_attempt_stands(s, a, attempt_ended(launch_id, state, failure_cause, now));
}

pub(super) proof fn lemma_attempt_stands(
    s: TablesModel,
    a: int,
    g: spec_fn(AttemptRowModel) -> AttemptRowModel,
)
    requires
        s.valid(),
        0 <= a < s.attempts.len(),
        forall|row: AttemptRowModel|
            row.attempt.launch_id != s.attempts[a].attempt.launch_id ==> #[trigger] g(row) == row,
    ensures
        s.attempts.map_values(g) == s.attempts.update(a, g(s.attempts[a])),
{
    let after = s.attempts.map_values(g);
    assert forall|k: int| 0 <= k < s.attempts.len() && k != a implies #[trigger] after[k]
        == s.attempts[k] by {
        assert(attempt_key()(s.attempts[k]) != attempt_key()(s.attempts[a]));
    }
    assert(after =~= s.attempts.update(a, g(s.attempts[a])));
}

/// What is shown of a launch is its row, and beside it what was observed of it since it was started,
/// where anything was.
pub proof fn law_ledger_shows_the_launch(row: AttemptRowModel)
    ensures
        ({
            let o = row.observed;
            let seen = o.pid is Some || o.process_observed_at is Some || o.last_event_at is Some
                || o.last_event_kind.len() > 0 || o.last_semantic_progress_at is Some
                || o.last_semantic_progress_summary.len() > 0 || o.attempt_timeout_seconds > 0
                || o.no_output_warning_seconds > 0;
            ledger_of()(row) == WorkerAttemptLedgerModel {
                activity: if row.attempt.launched_at is Some && seen {
                    Some(
                        WorkerAttemptProgressModel {
                            launch_id: Some(row.attempt.launch_id),
                            attempt_started_at: row.attempt.launched_at->0,
                            pid: o.pid,
                            process_observed_at: o.process_observed_at,
                            last_event_at: o.last_event_at,
                            last_event_kind: o.last_event_kind,
                            last_semantic_progress_at: o.last_semantic_progress_at,
                            last_semantic_progress_summary: o.last_semantic_progress_summary,
                            attempt_timeout_seconds: o.attempt_timeout_seconds,
                            no_output_warning_seconds: o.no_output_warning_seconds,
                        },
                    )
                } else {
                    None
                },
                ..row.attempt
            }
        }),
{
}

/// A slice whose status is set has that status and that error, and nothing else changes.
pub proof fn law_slice_status_is_set(
    s: TablesModel,
    k: int,
    status: SliceStatus,
    last_error: Seq<char>,
)
    requires
        s.valid(),
        0 <= k < s.slices.len(),
    ensures
        s.with_slice_status(s.slices[k].run_id, s.slices[k].slice_id, status, last_error) == (
        TablesModel {
            slices: s.slices.update(k, SliceRunModel { status, last_error, ..s.slices[k] }),
            ..s
        }),
{
    let row = s.slices[k];
    let after = s.with_slice_status(row.run_id, row.slice_id, status, last_error).slices;
    assert forall|j: int| 0 <= j < s.slices.len() && j != k implies #[trigger] after[j]
        == s.slices[j] by {
        assert(slice_key()(s.slices[j]) != slice_key()(s.slices[k]));
    }
    assert(after =~= s.slices.update(k, SliceRunModel { status, last_error, ..row }));
}

/// A slice that is written is found as it was written, and every slice of another name stays.
pub proof fn law_slice_is_written(s: TablesModel, slice: SliceRunModel)
    ensures
        ({
            let after = s.with_slice(slice);
            &&& after == TablesModel { slices: after.slices, ..s }
            &&& after.slices.contains(slice)
            &&& forall|k: int|
                0 <= k < s.slices.len() ==> #[trigger] after.slices[k] == if s.slices[k].run_id
                    == slice.run_id && s.slices[k].slice_id == slice.slice_id {
                    slice
                } else {
                    s.slices[k]
                }
            &&& forall|k: int|
                s.slices.len() <= k < after.slices.len() ==> #[trigger] after.slices[k] == slice
        }),
{
    let at = slice_at(slice.run_id, slice.slice_id);
    let after = s.with_slice(slice);
    if any(s.slices, at) {
        let k = choose|k: int| 0 <= k < s.slices.len() && at(#[trigger] s.slices[k]);
        assert(after.slices[k] == slice);
    } else {
        assert(after.slices[s.slices.len() as int] == slice);
        assert forall|k: int| 0 <= k < s.slices.len() implies #[trigger] after.slices[k]
            == s.slices[k] && !(s.slices[k].run_id == slice.run_id && s.slices[k].slice_id
            == slice.slice_id) by {
            assert(!at(s.slices[k]));
        }
    }
}

/// After a token of a run was stored it is the one that is accepted for the run, another one only
/// where its digest is the same; the tokens of other runs stay.
pub proof fn law_stored_token_is_accepted(
    s: TablesModel,
    run_id: Seq<char>,
    token: Seq<char>,
    now: Timestamp,
    other: Seq<char>,
    other_run: Seq<char>,
)
    requires
        s.valid(),
    ensures
        ({
            let after = s.with_token(run_id, token, now);
            &&& after == TablesModel { tokens: after.tokens, ..s }
            &&& after.token_accepted(run_id, token)
            &&& after.token_accepted(run_id, other) <==> text_digest(other) == text_digest(token)
            &&& other_run != run_id ==> after.token_accepted(other_run, other)
                == s.token_accepted(other_run, other)
            &&& forall|k: int|
                0 <= k < s.tokens.len() ==> #[trigger] after.tokens[k] == if s.tokens[k].run_id
                    == run_id {
                    WorkerTokenRowModel { token_hash: text_digest(token), ..s.tokens[k] }
                } else {
                    s.tokens[k]
                }
        }),
{
    let p = token_of(run_id);
    let q = token_of(other_run);
    let after = s.with_token(run_id, token, now);
    lemma_first_any(s.tokens, p);
    if any(s.tokens, p) {
        let g = |row: WorkerTokenRowModel|
            if p(row) {
                super::attempts::token_set(text_digest(token))(row)
            } else {
                row
            };
        assert(after.tokens =~= s.tokens.map_values(g));
        crate::table::lemma_first_map(s.tokens, g, p);
        if other_run != run_id {
            crate::table::lemma_first_map(s.tokens, g, q);
            lemma_first_any(s.tokens, q);
        }
    } else {
        let row = WorkerTokenRowModel {
            run_id,
            token_hash: text_digest(token),
            created_at: now.text(),
        };
        crate::table::lemma_first_push(s.tokens, row, p);
        if other_run != run_id {
            crate::table::lemma_first_push(s.tokens, row, q);
            lemma_first_any(s.tokens, q);
        }
        assert forall|k: int| 0 <= k < s.tokens.len() implies #[trigger] after.tokens[k]
            == s.tokens[k] && s.tokens[k].run_id != run_id by {
            assert(!p(s.tokens[k]));
        }
    }
}

/// A token of a launch can be bound while the launch of that run is allocated and has none; it then
/// stands with the launch, and no other launch changes.
pub proof fn law_launch_token_is_stored(
    s: TablesModel,
    a: int,
    run_id: Seq<char>,
    token: Seq<char>,
)
    requires
        s.valid(),
        0 <= a < s.attempts.len(),
    ensures
        ({
            let row = s.attempts[a];
            let launch_id = row.attempt.launch_id;
            let free = row.attempt.run_id == run_id && row.attempt.state == "allocated"@
                && row.worker_token_hash.len() == 0;
            &&& any(s.attempts, tokenless(run_id, launch_id)) <==> free
            &&& free ==> s.with_launch_token(run_id, launch_id, token) == TablesModel {
                attempts: s.attempts.update(
                    a,
                    AttemptRowModel { worker_token_hash: text_digest(token), ..row },
                ),
                ..s
            }
        }),
{
    let row = s.attempts[a];
    let launch_id = row.attempt.launch_id;
    let p = tokenless(run_id, launch_id);
    if any(s.attempts, p) {
        let k = choose|k: int| 0 <= k < s.attempts.len() && p(#[trigger] s.attempts[k]);
        if k != a {
            assert(attempt_key()(s.attempts[k]) != attempt_key()(s.attempts[a]));
        }
    }
    if p(row) {
        assert(p(s.attempts[a]));
    }
    lemma_attempt_stands(s, a, launch_token_bound(run_id, launch_id, text_digest(token)));
}

/// A token speaks for a launch exactly where the launch, of that run, is running and holds the digest
/// of the token, the run is running, and the launch is a numbered repair of the integration or its
/// slice is on its retry.
pub proof fn law_token_speaks_for_a_running_launch(
    s: TablesModel,
    a: int,
    run_id: Seq<char>,
    token: Seq<char>,
)
    requires
        s.valid(),
        0 <= a < s.attempts.len(),
    ensures
        ({
            let row = s.attempts[a];
            s.launch_token_accepted(run_id, row.attempt.launch_id, token) <==> {
                &&& row.attempt.run_id == run_id
                &&& row.attempt.state == "running"@
                &&& row.worker_token_hash.len() > 0
                &&& row.worker_token_hash == text_digest(token)
                &&& run_is_running(s, run_id)
                &&& (row.attempt.kind == "integration-repair"@ && row.attempt.repair_ordinal > 0)
                    || slice_is_on(
                    s,
                    run_id,
                    row.attempt.slice_id,
                    row.attempt.worker_retry_ordinal,
                )
            }
        }),
{
    let row = s.attempts[a];
    lemma_first_unique(s.attempts, attempt_key(), attempt_with_id(row.attempt.launch_id), a);
    lemma_run_is_running(s, run_id);
    lemma_slice_is_on(s, run_id, row.attempt.slice_id, row.attempt.worker_retry_ordinal);
}

/// The launches of a run that were allocated or running when the daemon stopped are interrupted with the
/// reason, each told by an event; every other launch and everything else stays.
pub proof fn law_open_launches_are_interrupted(
    s: TablesModel,
    run_id: Seq<char>,
    reason: Seq<char>,
    status: RunStatus,
    now: Timestamp,
)
    requires
        s.last_event_id + s.attempts.len() <= i64::MAX,
    ensures
        ({
            let after = s.interrupt_attempts(run_id, reason, status, now);
            let open = |row: AttemptRowModel|
                row.attempt.run_id == run_id && (row.attempt.state == "allocated"@
                    || row.attempt.state == "running"@);
            &&& s.open_attempts(run_id).len() == crate::table::select(s.attempts, open).len()
            &&& after == TablesModel {
                attempts: after.attempts,
                events: after.events,
                last_event_id: after.last_event_id,
                ..s
            }
            &&& after.attempts.len() == s.attempts.len()
            &&& forall|i: int|
                0 <= i < s.attempts.len() ==> #[trigger] after.attempts[i] == if open(
                    s.attempts[i],
                ) {
                    AttemptRowModel {
                        attempt: WorkerAttemptLedgerModel {
                            state: "interrupted"@,
                            finished_at: Some(now),
                            failure_cause: reason,
                            ..s.attempts[i].attempt
                        },
                        ..s.attempts[i]
                    }
                } else {
                    s.attempts[i]
                }
            &&& after.events.len() == s.events.len() + crate::table::select(s.attempts, open).len()
            &&& forall|i: int|
                0 <= i < s.events.len() ==> #[trigger] after.events[i] == s.events[i]
            &&& forall|k: int|
                0 <= k < s.attempts.len() && open(#[trigger] s.attempts[k]) ==> exists|i: int|
                    s.events.len() <= i < after.events.len() && #[trigger] after.events[i] == (
                    EventModel {
                        id: (s.last_event_id + 1 + (i - s.events.len())) as i64,
                        run_id,
                        typ: "worker_attempt_interrupted"@,
                        payload: EventPayloadModel::WorkerAttemptInterrupted(
                            WorkerAttemptInterruptedPayloadModel {
                                launch_id: s.attempts[k].attempt.launch_id,
                                slice_id: s.attempts[k].attempt.slice_id,
                                reason,
                                prior_state: s.attempts[k].attempt.state,
                                terminal_status: status,
                            },
                        ),
                        created_at: now,
                    })
        }),
{
    super::laws::lemma_interruption_only(s, run_id, reason, status, now);
    let open = |row: AttemptRowModel|
        row.attempt.run_id == run_id && (row.attempt.state == "allocated"@ || row.attempt.state
            == "running"@);
    let p = super::attempts::open_attempt_of(run_id);
    super::laws_of_ends::lemma_same_choice(s.attempts, open, p);
    let chosen = crate::table::select(s.attempts, p);
    let rows = s.open_attempts(run_id);
    crate::table::lemma_ordered_len(chosen, super::attempts::launch_id_order());
    crate::table::lemma_select_len(s.attempts, p);
    super::laws_of_ends::lemma_interruption_log(
        TablesModel {
            attempts: s.attempts.map_values(
                super::attempts::attempt_interrupted(run_id, reason, now),
            ),
            ..s
        },
        run_id,
        rows,
        reason,
        status,
        now,
    );
    let after = s.interrupt_attempts(run_id, reason, status, now);
    let n = s.events.len() as int;
    assert forall|k: int|
        0 <= k < s.attempts.len() && open(#[trigger] s.attempts[k]) implies exists|i: int|
        n <= i < after.events.len() && #[trigger] after.events[i] == (EventModel {
            id: (s.last_event_id + 1 + (i - n)) as i64,
            run_id,
            typ: "worker_attempt_interrupted"@,
            payload: EventPayloadModel::WorkerAttemptInterrupted(
                WorkerAttemptInterruptedPayloadModel {
                    launch_id: s.attempts[k].attempt.launch_id,
                    slice_id: s.attempts[k].attempt.slice_id,
                    reason,
                    prior_state: s.attempts[k].attempt.state,
                    terminal_status: status,
                },
            ),
            created_at: now,
        }) by {
        crate::table::lemma_select_keeps(s.attempts, p, s.attempts[k]);
        crate::table::lemma_ordered_rows(chosen, super::attempts::launch_id_order());
        assert(rows.contains(s.attempts[k]));
        let i = choose|i: int| 0 <= i < rows.len() && rows[i] == s.attempts[k];
        assert(after.events[n + i].run_id == run_id);
    }
}

} // verus!
