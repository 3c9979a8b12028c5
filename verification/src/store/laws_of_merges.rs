//! What the preparation, the application and the resolution of a merge leave on record, row by row.
use super::attempts::{attempt_ended, attempt_with_id};
use super::laws_of_attempts::lemma_attempt_stands;
use super::merges::{merge_replaced, merge_with_id, other_prepared, prepared_of};
use super::{attempt_key, merge_key, run_has_id, run_key};
use crate::domain::{
    IntegrationMergeCompletionModel, IntegrationMergeIntentModel, IntegrationMergeKind,
    IntegrationMergePrepareOutcome, IntegrationMergeState, RunStatus, SliceRunModel, SliceStatus,
    WorkerAttemptLedgerModel,
};
use crate::error::StoreError;
use crate::payloads::{
    EventModel, EventPayloadModel, IntegrationRepairCompletedPayloadModel, SliceMergedPayloadModel,
    WorkerAttemptFinishedPayloadModel,
};
use crate::rows::{AttemptRowModel, IntegrationMergePrepareTransitionModel, TablesModel};
use crate::table::{any, first, lemma_first_none, lemma_first_unique};
use crate::time::Timestamp;
use vstd::prelude::*;

verus! {

pub(super) proof fn lemma_merge_at(s: TablesModel, m: int)
    requires
        s.valid(),
        0 <= m < s.merges.len(),
    ensures
        s.merge(s.merges[m].operation_id) == Some(s.merges[m]),
{
    lemma_first_unique(s.merges, merge_key(), merge_with_id(s.merges[m].operation_id), m);
}

proof fn lemma_merge_stands(s: TablesModel, m: int, row: IntegrationMergeIntentModel)
    requires
        s.valid(),
        0 <= m < s.merges.len(),
        row.operation_id == s.merges[m].operation_id,
    ensures
        s.merges.map_values(merge_replaced(row.operation_id, row)) == s.merges.update(m, row),
        first(s.merges.update(m, row), merge_with_id(row.operation_id)) == Some(row),
{
    let after = s.merges.map_values(merge_replaced(row.operation_id, row));
    assert forall|k: int| 0 <= k < s.merges.len() implies #[trigger] after[k] == s.merges.update(
        m,
        row,
    )[k] by {
        if k != m {
            assert(merge_key()(s.merges[k]) != merge_key()(s.merges[m]));
        }
    }
    assert(after =~= s.merges.update(m, row));
    let updated = s.merges.update(m, row);
    assert forall|i: int, j: int|
        #![trigger updated[i], updated[j]]
        0 <= i < updated.len() && 0 <= j < updated.len() && merge_key()(updated[i]) == merge_key()(
            updated[j],
        ) implies i == j by {
        assert(merge_key()(s.merges[i]) == merge_key()(s.merges[j]));
    }
    lemma_first_unique(updated, merge_key(), merge_with_id(row.operation_id), m);
}

/// After a resolution was recorded, the merge that is read back under the operation has the state,
/// the resulting head, the cause, the error of the abort and the conflicted files that were handed in;
/// what it was to do is as before. Unless it was on record already, the log ends by the merge as it is
/// read back. Other merges stay.
pub proof fn law_resolution_is_read_back(
    s: TablesModel,
    m: int,
    state: IntegrationMergeState,
    resulting_head: Seq<char>,
    primary_cause: Seq<char>,
    abort_error: Seq<char>,
    conflicted_files: Seq<Seq<char>>,
    now: Timestamp,
)
    requires
        s.valid(),
        0 <= m < s.merges.len(),
        s.resolve_merge_refusal(
            s.merges[m].operation_id,
            state,
            resulting_head,
            primary_cause,
            abort_error,
            conflicted_files,
        ) is None,
    ensures
        ({
            let merge = s.merges[m];
            let after = s.resolve_merge(
                merge.operation_id,
                state,
                resulting_head,
                primary_cause,
                abort_error,
                conflicted_files,
                now,
            );
            let read = after.merge(merge.operation_id)->0;
            &&& after.merge(merge.operation_id) is Some
            &&& read.state == state
            &&& read.resulting_head == resulting_head
            &&& read.primary_cause == primary_cause
            &&& read.abort_error == abort_error
            &&& read.conflicted_files == conflicted_files
            &&& read == IntegrationMergeIntentModel {
                state,
                resulting_head,
                primary_cause,
                abort_error,
                conflicted_files,
                updated_at: read.updated_at,
                ..merge
            }
            &&& after.merges == s.merges.update(m, read)
            &&& after == s || {
                &&& read.updated_at == now
                &&& after == TablesModel {
                    merges: after.merges,
                    slices: after.slices,
                    events: s.events.push(
                        EventModel {
                            id: (s.last_event_id + 1) as i64,
                            run_id: merge.run_id,
                            typ: "integration_merge_reconciled"@,
                            payload: EventPayloadModel::IntegrationMerge(read),
                            created_at: now,
                        },
                    ),
                    last_event_id: (s.last_event_id + 1) as i64,
                    ..s
                }
            }
        }),
{
    let merge = s.merges[m];
    lemma_merge_at(s, m);
    lemma_merge_stands(
        s,
        m,
        IntegrationMergeIntentModel {
            state,
            resulting_head,
            primary_cause,
            abort_error,
            conflicted_files,
            updated_at: now,
            ..merge
        },
    );
    assert(s.merges.update(m, merge) =~= s.merges);
}

/// A resolution of a slice's merge as conflicted or divergent, where it is not on record already,
/// blocks the slice with the cause; no other resolution touches a slice.
pub proof fn law_conflict_blocks_the_slice(
    s: TablesModel,
    m: int,
    state: IntegrationMergeState,
    resulting_head: Seq<char>,
    primary_cause: Seq<char>,
    abort_error: Seq<char>,
    conflicted_files: Seq<Seq<char>>,
    now: Timestamp,
)
    requires
        s.valid(),
        0 <= m < s.merges.len(),
        s.resolve_merge_refusal(
            s.merges[m].operation_id,
            state,
            resulting_head,
            primary_cause,
            abort_error,
            conflicted_files,
        ) is None,
    ensures
        ({
            let merge = s.merges[m];
            let after = s.resolve_merge(
                merge.operation_id,
                state,
                resulting_head,
                primary_cause,
                abort_error,
                conflicted_files,
                now,
            );
            let on_record = merge.state == state && merge.resulting_head == resulting_head
                && merge.primary_cause == primary_cause && merge.abort_error == abort_error
                && merge.conflicted_files == conflicted_files;
            let blocks = merge.kind == IntegrationMergeKind::Slice && (state
                == IntegrationMergeState::Conflicted || state == IntegrationMergeState::Divergent);
            &&& on_record <==> after == s
            &&& after.slices.len() == s.slices.len()
            &&& forall|k: int|
                0 <= k < s.slices.len() ==> #[trigger] after.slices[k] == if !on_record && blocks
                    && s.slices[k].run_id == merge.run_id && s.slices[k].slice_id
                    == merge.slice_id {
                    SliceRunModel {
                        status: SliceStatus::Blocked,
                        last_error: primary_cause,
                        ..s.slices[k]
                    }
                } else {
                    s.slices[k]
                }
        }),
{
    lemma_merge_at(s, m);
    let after = s.resolve_merge(
        s.merges[m].operation_id,
        state,
        resulting_head,
        primary_cause,
        abort_error,
        conflicted_files,
        now,
    );
    if after == s {
        assert(after.events.len() == s.events.len());
    }
}

/// A merge that is prepared may be resolved in any of the three ways that end it without a result; a
/// conflicted one as conflicted or as not started; what is on record already is taken as said. Any
/// other resolution is refused, and none prepares or applies a merge.
pub proof fn law_merge_that_may_be_resolved(
    s: TablesModel,
    m: int,
    state: IntegrationMergeState,
    resulting_head: Seq<char>,
    primary_cause: Seq<char>,
    abort_error: Seq<char>,
    conflicted_files: Seq<Seq<char>>,
)
    requires
        s.valid(),
        0 <= m < s.merges.len(),
        s.last_event_id < i64::MAX,
    ensures
        ({
            let merge = s.merges[m];
            let refusal = s.resolve_merge_refusal(
                merge.operation_id,
                state,
                resulting_head,
                primary_cause,
                abort_error,
                conflicted_files,
            );
            let on_record = merge.state == state && merge.resulting_head == resulting_head
                && merge.primary_cause == primary_cause && merge.abort_error == abort_error
                && merge.conflicted_files == conflicted_files;
            let ends = state == IntegrationMergeState::Conflicted || state
                == IntegrationMergeState::NotStarted || state == IntegrationMergeState::Divergent;
            let may = merge.state == IntegrationMergeState::Prepared || (merge.state
                == IntegrationMergeState::Conflicted && state != IntegrationMergeState::Divergent);
            &&& refusal is None <==> ends && (on_record || may)
            &&& !ends ==> refusal == Some(StoreError::ResolutionNotTerminal)
            &&& ends && !on_record && !may ==> refusal == Some(StoreError::UnexpectedMergeState)
        }),
{
    lemma_merge_at(s, m);
}

/// A merge that nobody knows can be neither resolved nor applied.
pub proof fn law_unknown_merge_is_refused(
    s: TablesModel,
    operation_id: Seq<char>,
    resulting_head: Seq<char>,
    primary_cause: Seq<char>,
    abort_error: Seq<char>,
    conflicted_files: Seq<Seq<char>>,
)
    requires
        forall|k: int| 0 <= k < s.merges.len() ==> (#[trigger] s.merges[k]).operation_id
            != operation_id,
    ensures
        s.resolve_merge_refusal(
            operation_id,
            IntegrationMergeState::Conflicted,
            resulting_head,
            primary_cause,
            abort_error,
            conflicted_files,
        ) == Some(StoreError::MergeNotFound),
        s.commit_merge_refusal(operation_id, resulting_head) == Some(StoreError::MergeNotFound),
        s.merge(operation_id) is None,
{
    lemma_first_none(s.merges, merge_with_id(operation_id));
}

/// A new merge of a running run is prepared where no merge of that run is prepared: it is on record as
/// it was handed in, and the log ends by it. A merge that does not come prepared, or that comes with a
/// result, is refused; so is one of a run that is not running or not known.
pub proof fn law_new_merge_is_prepared(
    s: TablesModel,
    intent: IntegrationMergeIntentModel,
    now: Timestamp,
)
    requires
        s.valid(),
        forall|k: int|
            0 <= k < s.merges.len() ==> (#[trigger] s.merges[k]).operation_id
                != intent.operation_id,
        forall|k: int|
            0 <= k < s.merges.len() ==> !((#[trigger] s.merges[k]).run_id == intent.run_id
                && s.merges[k].state == IntegrationMergeState::Prepared),
        s.last_event_id < i64::MAX,
    ensures
        ({
            let refusal = s.prepare_merge_refusal(intent);
            let fresh = intent.state == IntegrationMergeState::Prepared
                && intent.resulting_head.len() == 0;
            let running = exists|k: int|
                0 <= k < s.runs.len() && (#[trigger] s.runs[k]).run.id == intent.run_id
                    && s.runs[k].run.status == RunStatus::Running;
            let known = exists|k: int|
                0 <= k < s.runs.len() && (#[trigger] s.runs[k]).run.id == intent.run_id;
            &&& refusal is None <==> fresh && running
            &&& !fresh ==> refusal == Some(StoreError::MergeNotFresh)
            &&& fresh && !known ==> refusal == Some(StoreError::RunNotFound)
            &&& fresh && known && !running ==> refusal == Some(StoreError::RunNotRunning)
            &&& s.prepare_merge_answer(intent, now) == IntegrationMergePrepareTransitionModel {
                outcome: IntegrationMergePrepareOutcome::Prepared,
                intent,
            }
            &&& s.prepare_merge(intent, now) == TablesModel {
                merges: s.merges.push(intent),
                events: s.events.push(
                    EventModel {
                        id: (s.last_event_id + 1) as i64,
                        run_id: intent.run_id,
                        typ: "integration_merge_prepared"@,
                        payload: EventPayloadModel::IntegrationMerge(intent),
                        created_at: intent.created_at,
                    },
                ),
                last_event_id: (s.last_event_id + 1) as i64,
                ..s
            }
        }),
{
    lemma_first_none(s.merges, merge_with_id(intent.operation_id));
    lemma_first_none(s.merges, prepared_of(intent.run_id));
    if exists|k: int| 0 <= k < s.runs.len() && (#[trigger] s.runs[k]).run.id == intent.run_id {
        let k = choose|k: int|
            0 <= k < s.runs.len() && (#[trigger] s.runs[k]).run.id == intent.run_id;
        lemma_first_unique(s.runs, run_key(), run_has_id(intent.run_id), k);
        assert forall|j: int|
            0 <= j < s.runs.len() && (#[trigger] s.runs[j]).run.id == intent.run_id implies j
            == k by {
            assert(run_key()(s.runs[j]) == run_key()(s.runs[k]));
        }
    } else {
        lemma_first_none(s.runs, run_has_id(intent.run_id));
    }
}

/// A new merge beside a prepared one of the same run is told of that one, and nothing changes.
pub proof fn law_prepared_merge_comes_first(
    s: TablesModel,
    m: int,
    intent: IntegrationMergeIntentModel,
    now: Timestamp,
)
    requires
        s.valid(),
        0 <= m < s.merges.len(),
        s.merges[m].run_id == intent.run_id,
        s.merges[m].state == IntegrationMergeState::Prepared,
        forall|k: int|
            0 <= k < s.merges.len() ==> (#[trigger] s.merges[k]).operation_id
                != intent.operation_id,
        intent.state == IntegrationMergeState::Prepared,
        intent.resulting_head.len() == 0,
    ensures
        s.prepare_merge_refusal(intent) is None,
        s.prepare_merge_answer(intent, now) == (IntegrationMergePrepareTransitionModel {
            outcome: IntegrationMergePrepareOutcome::Conflict,
            intent: s.merges[m],
        }),
        s.prepare_merge(intent, now) == s,
{
    let p = prepared_of(intent.run_id);
    lemma_first_none(s.merges, merge_with_id(intent.operation_id));
    assert(p(s.merges[m]));
    assert forall|k: int| 0 <= k < s.merges.len() && p(#[trigger] s.merges[k]) implies k == m by {
        assert(s.merges[m].run_id == s.merges[k].run_id);
    }
    lemma_first_unique(s.merges, merge_key(), p, m);
}

/// What is asked of a merge that is on record: where the two agree in all but their state, their
/// times and what a try leaves behind, one that is prepared or applied is answered as such, one that was
/// conflicted or diverged is a conflict, and none of these changes; one that was not started is
/// prepared anew without what the earlier try had left. Another merge under the same operation is
/// refused.
pub proof fn law_known_merge_is_prepared_again(
    s: TablesModel,
    m: int,
    intent: IntegrationMergeIntentModel,
    now: Timestamp,
)
    requires
        s.valid(),
        0 <= m < s.merges.len(),
        s.merges[m].operation_id == intent.operation_id,
        intent.state == IntegrationMergeState::Prepared,
        intent.resulting_head.len() == 0,
        s.last_event_id < i64::MAX,
    ensures
        ({
            let merge = s.merges[m];
            let refusal = s.prepare_merge_refusal(intent);
            let answer = s.prepare_merge_answer(intent, now);
            let same = merge == IntegrationMergeIntentModel {
                resulting_head: merge.resulting_head,
                state: merge.state,
                primary_cause: merge.primary_cause,
                abort_error: merge.abort_error,
                conflicted_files: merge.conflicted_files,
                created_at: merge.created_at,
                updated_at: merge.updated_at,
                ..intent
            };
            let anew = IntegrationMergeIntentModel {
                state: IntegrationMergeState::Prepared,
                resulting_head: Seq::empty(),
                primary_cause: Seq::empty(),
                abort_error: Seq::empty(),
                conflicted_files: Seq::empty(),
                updated_at: now,
                ..merge
            };
            let other = exists|k: int|
                0 <= k < s.merges.len() && k != m && (#[trigger] s.merges[k]).run_id
                    == merge.run_id && s.merges[k].state == IntegrationMergeState::Prepared;
            let not_started = merge.state == IntegrationMergeState::NotStarted;
            &&& !same ==> refusal == Some(StoreError::MergeIdentityConflict)
            &&& same && not_started && other ==> refusal == Some(StoreError::AnotherMergePrepared)
            &&& same && !(not_started && other) ==> refusal is None
            &&& merge.state == IntegrationMergeState::Prepared ==> answer
                == IntegrationMergePrepareTransitionModel {
                outcome: IntegrationMergePrepareOutcome::AlreadyPrepared,
                intent: merge,
            }
            &&& merge.state == IntegrationMergeState::Applied ==> answer
                == IntegrationMergePrepareTransitionModel {
                outcome: IntegrationMergePrepareOutcome::AlreadyApplied,
                intent: merge,
            }
            &&& merge.state == IntegrationMergeState::Conflicted || merge.state
                == IntegrationMergeState::Divergent ==> answer
                == IntegrationMergePrepareTransitionModel {
                outcome: IntegrationMergePrepareOutcome::Conflict,
                intent: merge,
            }
            &&& !not_started ==> s.prepare_merge(intent, now) == s
            &&& not_started ==> {
                &&& answer == IntegrationMergePrepareTransitionModel {
                    outcome: IntegrationMergePrepareOutcome::Prepared,
                    intent: anew,
                }
                &&& s.prepare_merge(intent, now) == TablesModel {
                    merges: s.merges.update(m, anew),
                    events: s.events.push(
                        EventModel {
                            id: (s.last_event_id + 1) as i64,
                            run_id: intent.run_id,
                            typ: "integration_merge_reprepared"@,
                            payload: EventPayloadModel::IntegrationMerge(anew),
                            created_at: now,
                        },
                    ),
                    last_event_id: (s.last_event_id + 1) as i64,
                    ..s
                }
            }
        }),
{
    let merge = s.merges[m];
    lemma_merge_at(s, m);
    lemma_merge_stands(
        s,
        m,
        IntegrationMergeIntentModel {
            state: IntegrationMergeState::Prepared,
            resulting_head: Seq::empty(),
            primary_cause: Seq::empty(),
            abort_error: Seq::empty(),
            conflicted_files: Seq::empty(),
            updated_at: now,
            ..merge
        },
    );
    let p = other_prepared(merge.run_id, merge.operation_id);
    if any(s.merges, p) {
        let k = choose|k: int| 0 <= k < s.merges.len() && p(#[trigger] s.merges[k]);
        assert(k != m);
        assert(s.merges[k].run_id == merge.run_id);
    } else {
        assert forall|k: int| 0 <= k < s.merges.len() && k != m implies !((
        #[trigger] s.merges[k]).run_id == merge.run_id && s.merges[k].state
            == IntegrationMergeState::Prepared) by {
            assert(!p(s.merges[k]));
            assert(merge_key()(s.merges[k]) != merge_key()(s.merges[m]));
        }
    }
}

/// The application of a prepared merge of a slice: the merge is applied with its result, the slice is
/// merged with the branch, the commit and the attempts of the merge and without an error, and the log
/// ends by the slice and then by the merge.
pub proof fn law_applied_merge_merges_the_slice(
    s: TablesModel,
    m: int,
    resulting_head: Seq<char>,
    now: Timestamp,
)
    requires
        s.valid(),
        0 <= m < s.merges.len(),
        s.merges[m].state == IntegrationMergeState::Prepared,
        s.merges[m].completion is Slice,
        s.last_event_id + 2 <= i64::MAX,
    ensures
        ({
            let merge = s.merges[m];
            let applied = IntegrationMergeIntentModel {
                state: IntegrationMergeState::Applied,
                resulting_head,
                updated_at: now,
                ..merge
            };
            let after = s.commit_merge(merge.operation_id, resulting_head, now);
            &&& s.commit_merge_refusal(merge.operation_id, resulting_head) is None
            &&& merge.completion matches IntegrationMergeCompletionModel::Slice {
                branch,
                commit_sha,
                attempts,
            } && after == TablesModel {
                merges: s.merges.update(m, applied),
                slices: s.with_slice(
                    SliceRunModel {
                        run_id: merge.run_id,
                        slice_id: merge.slice_id,
                        status: SliceStatus::Merged,
                        branch,
                        commit_sha,
                        attempts,
                        last_error: Seq::empty(),
                    },
                ).slices,
                events: s.events.push(
                    EventModel {
                        id: (s.last_event_id + 1) as i64,
                        run_id: merge.run_id,
                        typ: "slice_merged"@,
                        payload: EventPayloadModel::SliceMerged(
                            SliceMergedPayloadModel { slice_id: merge.slice_id, commit_sha },
                        ),
                        created_at: now,
                    },
                ).push(
                    EventModel {
                        id: (s.last_event_id + 2) as i64,
                        run_id: merge.run_id,
                        typ: "integration_merge_applied"@,
                        payload: EventPayloadModel::IntegrationMerge(applied),
                        created_at: now,
                    },
                ),
                last_event_id: (s.last_event_id + 2) as i64,
                ..s
            }
        }),
{
    let merge = s.merges[m];
    lemma_merge_at(s, m);
    lemma_merge_stands(
        s,
        m,
        IntegrationMergeIntentModel {
            state: IntegrationMergeState::Applied,
            resulting_head,
            updated_at: now,
            ..merge
        },
    );
}

/// The application of a prepared repair of the integration: the merge is applied with its result, the
/// launch of the repair, which has to be the one of the merge and to be running or interrupted in its
/// run, has succeeded, and the log ends by the launch, the repair and the merge. No slice changes.
pub proof fn law_applied_repair_ends_its_launch(
    s: TablesModel,
    m: int,
    a: int,
    resulting_head: Seq<char>,
    now: Timestamp,
)
    requires
        s.valid(),
        0 <= m < s.merges.len(),
        0 <= a < s.attempts.len(),
        s.merges[m].state == IntegrationMergeState::Prepared,
        s.merges[m].completion matches IntegrationMergeCompletionModel::IntegrationRepair {
            launch_id,
            ..
        } && launch_id == s.attempts[a].attempt.launch_id,
        s.last_event_id + 3 <= i64::MAX,
    ensures
        ({
            let merge = s.merges[m];
            let row = s.attempts[a];
            let launch_id = row.attempt.launch_id;
            let applied = IntegrationMergeIntentModel {
                state: IntegrationMergeState::Applied,
                resulting_head,
                updated_at: now,
                ..merge
            };
            let refusal = s.commit_merge_refusal(merge.operation_id, resulting_head);
            let of_merge = merge.launch_id == Some(launch_id);
            let may = row.attempt.run_id == merge.run_id && (row.attempt.state == "running"@
                || row.attempt.state == "interrupted"@);
            &&& refusal is None <==> of_merge && may
            &&& !of_merge ==> refusal == Some(StoreError::InconsistentLaunch)
            &&& of_merge && !may ==> refusal == Some(StoreError::IllegalAttemptTransition)
            &&& merge.completion matches IntegrationMergeCompletionModel::IntegrationRepair {
                launch_id: named,
                status,
                summary,
            } && s.commit_merge(merge.operation_id, resulting_head, now) == TablesModel {
                merges: s.merges.update(m, applied),
                attempts: s.attempts.update(
                    a,
                    AttemptRowModel {
                        attempt: WorkerAttemptLedgerModel {
                            state: "succeeded"@,
                            finished_at: Some(now),
                            failure_cause: Seq::empty(),
                            ..row.attempt
                        },
                        ..row
                    },
                ),
                events: s.events.push(
                    EventModel {
                        id: (s.last_event_id + 1) as i64,
                        run_id: merge.run_id,
                        typ: "worker_attempt_finished"@,
                        payload: EventPayloadModel::WorkerAttemptFinished(
                            WorkerAttemptFinishedPayloadModel {
                                launch_id,
                                slice_id: row.attempt.slice_id,
                                state: "succeeded"@,
                                failure_cause: Seq::empty(),
                            },
                        ),
                        created_at: now,
                    },
                ).push(
                    EventModel {
                        id: (s.last_event_id + 2) as i64,
                        run_id: merge.run_id,
                        typ: "integration_repair_completed"@,
                        payload: EventPayloadModel::IntegrationRepairCompleted(
                            IntegrationRepairCompletedPayloadModel {
                                status,
                                summary,
                                launch_id: Some(launch_id),
                            },
                        ),
                        created_at: now,
                    },
                ).push(
                    EventModel {
                        id: (s.last_event_id + 3) as i64,
                        run_id: merge.run_id,
                        typ: "integration_merge_applied"@,
                        payload: EventPayloadModel::IntegrationMerge(applied),
                        created_at: now,
                    },
                ),
                last_event_id: (s.last_event_id + 3) as i64,
                ..s
            }
        }),
{
    let merge = s.merges[m];
    let row = s.attempts[a];
    lemma_merge_at(s, m);
    lemma_merge_stands(
        s,
        m,
        IntegrationMergeIntentModel {
            state: IntegrationMergeState::Applied,
            resulting_head,
            updated_at: now,
            ..merge
        },
    );
    lemma_first_unique(s.attempts, attempt_key(), attempt_with_id(row.attempt.launch_id), a);
    lemma_attempt_stands(
        s,
        a,
        attempt_ended(row.attempt.launch_id, "succeeded"@, Seq::empty(), now),
    );
}

/// Only a prepared merge is applied: an applied one keeps its result and takes no other, and one in
/// any other state is refused.
pub proof fn law_only_a_prepared_merge_is_applied(
    s: TablesModel,
    m: int,
    resulting_head: Seq<char>,
    now: Timestamp,
)
    requires
        s.valid(),
        0 <= m < s.merges.len(),
        s.merges[m].state != IntegrationMergeState::Prepared,
    ensures
        ({
            let merge = s.merges[m];
            let refusal = s.commit_merge_refusal(merge.operation_id, resulting_head);
            &&& merge.state == IntegrationMergeState::Applied && merge.resulting_head
                == resulting_head ==> refusal is None && s.commit_merge(
                merge.operation_id,
                resulting_head,
                now,
            ) == s
            &&& merge.state == IntegrationMergeState::Applied && merge.resulting_head
                != resulting_head ==> refusal == Some(StoreError::MergeAppliedElsewhere)
            &&& merge.state != IntegrationMergeState::Applied ==> refusal == Some(
                StoreError::UnexpectedMergeState,
            )
        }),
{
    lemma_merge_at(s, m);
}

} // verus!
