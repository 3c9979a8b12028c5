//! Merges into the integration branch.
use super::attempts::{attempt_ended, attempt_with_id, slice_failed_over};
use super::{lemma_unique_map, lemma_unique_push, merge_key, res, Store};
use crate::domain::{
    IntegrationMergeCompletion, IntegrationMergeCompletionModel, IntegrationMergeIntent,
    IntegrationMergeIntentModel, IntegrationMergeKind, IntegrationMergePrepareOutcome,
    IntegrationMergeState, RunStatus, SliceRun, SliceRunModel, SliceStatus,
};
use crate::error::StoreError;
use crate::payloads::{
    EventPayload, EventPayloadModel, IntegrationRepairCompletedPayload,
    IntegrationRepairCompletedPayloadModel, SliceMergedPayload, SliceMergedPayloadModel,
    WorkerAttemptFinishedPayload, WorkerAttemptFinishedPayloadModel,
};
use crate::rows::{
    IntegrationMergePrepareTransition, IntegrationMergePrepareTransitionModel, TablesModel,
};
use crate::table::{
    any, find_row, first, lemma_first_any, order_rows, ordered, push_row, select, select_rows,
    update_rows, Row,
};
use crate::text::{same_text, text_before, text_lt};
use crate::time::Timestamp;
use vstd::prelude::*;

verus! {

pub open spec fn merge_with_id(operation_id: Seq<char>) -> spec_fn(
    IntegrationMergeIntentModel,
) -> bool {
    |row: IntegrationMergeIntentModel| row.operation_id == operation_id
}

pub open spec fn prepared_of(run_id: Seq<char>) -> spec_fn(IntegrationMergeIntentModel) -> bool {
    |row: IntegrationMergeIntentModel|
        row.run_id == run_id && row.state == IntegrationMergeState::Prepared
}

/// Another merge of the run that is prepared.
pub open spec fn other_prepared(run_id: Seq<char>, operation_id: Seq<char>) -> spec_fn(
    IntegrationMergeIntentModel,
) -> bool {
    |row: IntegrationMergeIntentModel|
        row.run_id == run_id && row.state == IntegrationMergeState::Prepared && row.operation_id
            != operation_id
}

pub open spec fn merge_of_run(run_id: Seq<char>) -> spec_fn(IntegrationMergeIntentModel) -> bool {
    |row: IntegrationMergeIntentModel| row.run_id == run_id
}

/// Earliest created first, then by operation.
pub open spec fn merge_order() -> spec_fn(
    IntegrationMergeIntentModel,
    IntegrationMergeIntentModel,
) -> bool {
    |a: IntegrationMergeIntentModel, b: IntegrationMergeIntentModel|
        a.created_at.lt(b.created_at) || (a.created_at == b.created_at && text_lt(
            a.operation_id,
            b.operation_id,
        ))
}

pub open spec fn merge_replaced(
    operation_id: Seq<char>,
    new_row: IntegrationMergeIntentModel,
) -> spec_fn(IntegrationMergeIntentModel) -> IntegrationMergeIntentModel {
    |row: IntegrationMergeIntentModel|
        if row.operation_id == operation_id {
            new_row
        } else {
            row
        }
}

/// Whether a request names the same merge as the record: everything that identifies what is
/// merged into what.
pub open spec fn same_authority(
    existing: IntegrationMergeIntentModel,
    command: IntegrationMergeIntentModel,
) -> bool {
    existing == (IntegrationMergeIntentModel {
        resulting_head: existing.resulting_head,
        state: existing.state,
        primary_cause: existing.primary_cause,
        abort_error: existing.abort_error,
        conflicted_files: existing.conflicted_files,
        created_at: existing.created_at,
        updated_at: existing.updated_at,
        ..command
    })
}

pub open spec fn merge_reprepared(
    existing: IntegrationMergeIntentModel,
    now: Timestamp,
) -> IntegrationMergeIntentModel {
    IntegrationMergeIntentModel {
        state: IntegrationMergeState::Prepared,
        resulting_head: Seq::empty(),
        primary_cause: Seq::empty(),
        abort_error: Seq::empty(),
        conflicted_files: Seq::empty(),
        updated_at: now,
        ..existing
    }
}

/// Whether a merge in one state may be resolved to another.
pub open spec fn may_resolve(from: IntegrationMergeState, to: IntegrationMergeState) -> bool {
    from == IntegrationMergeState::Prepared || (from == IntegrationMergeState::Conflicted && (to
        == IntegrationMergeState::Conflicted || to == IntegrationMergeState::NotStarted))
}

impl TablesModel {
    pub open spec fn merge(self, operation_id: Seq<char>) -> Option<IntegrationMergeIntentModel> {
        first(self.merges, merge_with_id(operation_id))
    }

    pub open spec fn prepare_merge_refusal(
        self,
        intent: IntegrationMergeIntentModel,
    ) -> Option<StoreError> {
        if intent.state != IntegrationMergeState::Prepared || intent.resulting_head.len() > 0 {
            Some(StoreError::MergeNotFresh)
        } else {
            match self.merge(intent.operation_id) {
                Some(existing) => if !same_authority(existing, intent) {
                    Some(StoreError::MergeIdentityConflict)
                } else if existing.state == IntegrationMergeState::NotStarted && any(
                    self.merges,
                    other_prepared(existing.run_id, existing.operation_id),
                ) {
                    Some(StoreError::AnotherMergePrepared)
                } else if existing.state == IntegrationMergeState::NotStarted && !self.room(1) {
                    Some(StoreError::EventLogFull)
                } else {
                    None
                },
                None => if any(self.merges, prepared_of(intent.run_id)) {
                    None
                } else {
                    match self.run_row(intent.run_id) {
                        None => Some(StoreError::RunNotFound),
                        Some(row) => if row.run.status != RunStatus::Running {
                            Some(StoreError::RunNotRunning)
                        } else if !self.room(1) {
                            Some(StoreError::EventLogFull)
                        } else {
                            None
                        },
                    }
                },
            }
        }
    }

    pub open spec fn prepare_merge_answer(
        self,
        intent: IntegrationMergeIntentModel,
        now: Timestamp,
    ) -> IntegrationMergePrepareTransitionModel {
        match self.merge(intent.operation_id) {
            Some(existing) => match existing.state {
                IntegrationMergeState::Prepared => IntegrationMergePrepareTransitionModel {
                    outcome: IntegrationMergePrepareOutcome::AlreadyPrepared,
                    intent: existing,
                },
                IntegrationMergeState::Applied => IntegrationMergePrepareTransitionModel {
                    outcome: IntegrationMergePrepareOutcome::AlreadyApplied,
                    intent: existing,
                },
                IntegrationMergeState::NotStarted => IntegrationMergePrepareTransitionModel {
                    outcome: IntegrationMergePrepareOutcome::Prepared,
                    intent: merge_reprepared(existing, now),
                },
                _ => IntegrationMergePrepareTransitionModel {
                    outcome: IntegrationMergePrepareOutcome::Conflict,
                    intent: existing,
                },
            },
            None => match first(self.merges, prepared_of(intent.run_id)) {
                Some(other) => IntegrationMergePrepareTransitionModel {
                    outcome: IntegrationMergePrepareOutcome::Conflict,
                    intent: other,
                },
                None => IntegrationMergePrepareTransitionModel {
                    outcome: IntegrationMergePrepareOutcome::Prepared,
                    intent,
                },
            },
        }
    }

    pub open spec fn prepare_merge(
        self,
        intent: IntegrationMergeIntentModel,
        now: Timestamp,
    ) -> TablesModel {
        match self.merge(intent.operation_id) {
            Some(existing) => if existing.state == IntegrationMergeState::NotStarted {
                let after = merge_reprepared(existing, now);
                (TablesModel {
                    merges: self.merges.map_values(merge_replaced(intent.operation_id, after)),
                    ..self
                }).with_event(
                    intent.run_id,
                    "integration_merge_reprepared"@,
                    EventPayloadModel::IntegrationMerge(after),
                    now,
                )
            } else {
                self
            },
            None => if any(self.merges, prepared_of(intent.run_id)) {
                self
            } else {
                (TablesModel { merges: self.merges.push(intent), ..self }).with_event(
                    intent.run_id,
                    "integration_merge_prepared"@,
                    EventPayloadModel::IntegrationMerge(intent),
                    intent.created_at,
                )
            },
        }
    }

    /// Why the completion of an applied merge cannot take effect.
    pub open spec fn completion_refusal(
        self,
        intent: IntegrationMergeIntentModel,
    ) -> Option<StoreError> {
        match intent.completion {
            IntegrationMergeCompletionModel::Slice { .. } => if !self.room(2) {
                Some(StoreError::EventLogFull)
            } else {
                None
            },
            IntegrationMergeCompletionModel::IntegrationRepair { launch_id, .. } => if intent.launch_id
                != Some(launch_id) {
                Some(StoreError::InconsistentLaunch)
            } else {
                match first(self.attempts, attempt_with_id(launch_id)) {
                    None => Some(StoreError::AttemptNotFound),
                    Some(row) => if row.attempt.run_id != intent.run_id || (row.attempt.state
                        != "running"@ && row.attempt.state != "interrupted"@) {
                        Some(StoreError::IllegalAttemptTransition)
                    } else if !self.room(3) {
                        Some(StoreError::EventLogFull)
                    } else {
                        None
                    },
                }
            },
        }
    }

    /// A merged slice is recorded as merged; a repair ends its launch.
    pub open spec fn complete_merge(
        self,
        intent: IntegrationMergeIntentModel,
        now: Timestamp,
    ) -> TablesModel {
        match intent.completion {
            IntegrationMergeCompletionModel::Slice { branch, commit_sha, attempts } => {
                self.with_slice(
                    SliceRunModel {
                        run_id: intent.run_id,
                        slice_id: intent.slice_id,
                        status: SliceStatus::Merged,
                        branch,
                        commit_sha,
                        attempts,
                        last_error: Seq::empty(),
                    },
                ).with_event(
                    intent.run_id,
                    "slice_merged"@,
                    EventPayloadModel::SliceMerged(
                        SliceMergedPayloadModel { slice_id: intent.slice_id, commit_sha },
                    ),
                    now,
                )
            },
            IntegrationMergeCompletionModel::IntegrationRepair { launch_id, status, summary } => {
                let row = first(self.attempts, attempt_with_id(launch_id))->0;
                (TablesModel {
                    attempts: self.attempts.map_values(
                        attempt_ended(launch_id, "succeeded"@, Seq::empty(), now),
                    ),
                    ..self
                }).with_event(
                    intent.run_id,
                    "worker_attempt_finished"@,
                    EventPayloadModel::WorkerAttemptFinished(
                        WorkerAttemptFinishedPayloadModel {
                            launch_id,
                            slice_id: row.attempt.slice_id,
                            state: "succeeded"@,
                            failure_cause: Seq::empty(),
                        },
                    ),
                    now,
                ).with_event(
                    intent.run_id,
                    "integration_repair_completed"@,
                    EventPayloadModel::IntegrationRepairCompleted(
                        IntegrationRepairCompletedPayloadModel {
                            status,
                            summary,
                            launch_id: Some(launch_id),
                        },
                    ),
                    now,
                )
            },
        }
    }

    pub open spec fn commit_merge_refusal(
        self,
        operation_id: Seq<char>,
        resulting_head: Seq<char>,
    ) -> Option<StoreError> {
        match self.merge(operation_id) {
            None => Some(StoreError::MergeNotFound),
            Some(intent) => if intent.state == IntegrationMergeState::Applied {
                if intent.resulting_head != resulting_head {
                    Some(StoreError::MergeAppliedElsewhere)
                } else {
                    None
                }
            } else if intent.state != IntegrationMergeState::Prepared {
                Some(StoreError::UnexpectedMergeState)
            } else {
                self.completion_refusal(intent)
            },
        }
    }

    /// The merge, its completion and their events take effect together, and only once.
    pub open spec fn commit_merge(
        self,
        operation_id: Seq<char>,
        resulting_head: Seq<char>,
        now: Timestamp,
    ) -> TablesModel {
        let intent = self.merge(operation_id)->0;
        if intent.state == IntegrationMergeState::Applied {
            self
        } else {
            let after = IntegrationMergeIntentModel {
                state: IntegrationMergeState::Applied,
                resulting_head,
                updated_at: now,
                ..intent
            };
            (TablesModel {
                merges: self.merges.map_values(merge_replaced(operation_id, after)),
                ..self
            }).complete_merge(after, now).with_event(
                intent.run_id,
                "integration_merge_applied"@,
                EventPayloadModel::IntegrationMerge(after),
                now,
            )
        }
    }

    pub open spec fn merge_resolved(
        intent: IntegrationMergeIntentModel,
        state: IntegrationMergeState,
        resulting_head: Seq<char>,
        primary_cause: Seq<char>,
        abort_error: Seq<char>,
        conflicted_files: Seq<Seq<char>>,
        now: Timestamp,
    ) -> IntegrationMergeIntentModel {
        IntegrationMergeIntentModel {
            state,
            resulting_head,
            primary_cause,
            abort_error,
            conflicted_files,
            updated_at: now,
            ..intent
        }
    }

    /// Whether a resolution that is reported again is the one on record.
    pub open spec fn resolution_on_record(
        intent: IntegrationMergeIntentModel,
        state: IntegrationMergeState,
        resulting_head: Seq<char>,
        primary_cause: Seq<char>,
        abort_error: Seq<char>,
        conflicted_files: Seq<Seq<char>>,
    ) -> bool {
        intent.state == state && intent.resulting_head == resulting_head && intent.primary_cause
            == primary_cause && intent.abort_error == abort_error && intent.conflicted_files
            == conflicted_files
    }

    pub open spec fn resolve_merge_refusal(
        self,
        operation_id: Seq<char>,
        state: IntegrationMergeState,
        resulting_head: Seq<char>,
        primary_cause: Seq<char>,
        abort_error: Seq<char>,
        conflicted_files: Seq<Seq<char>>,
    ) -> Option<StoreError> {
        if state == IntegrationMergeState::Prepared || state == IntegrationMergeState::Applied {
            Some(StoreError::ResolutionNotTerminal)
        } else {
            match self.merge(operation_id) {
                None => Some(StoreError::MergeNotFound),
                Some(intent) => if Self::resolution_on_record(
                    intent,
                    state,
                    resulting_head,
                    primary_cause,
                    abort_error,
                    conflicted_files,
                ) {
                    None
                } else if !may_resolve(intent.state, state) {
                    Some(StoreError::UnexpectedMergeState)
                } else if !self.room(1) {
                    Some(StoreError::EventLogFull)
                } else {
                    None
                },
            }
        }
    }

    /// A slice whose merge met a conflict or a foreign head is blocked.
    pub open spec fn resolve_merge(
        self,
        operation_id: Seq<char>,
        state: IntegrationMergeState,
        resulting_head: Seq<char>,
        primary_cause: Seq<char>,
        abort_error: Seq<char>,
        conflicted_files: Seq<Seq<char>>,
        now: Timestamp,
    ) -> TablesModel {
        let intent = self.merge(operation_id)->0;
        if Self::resolution_on_record(
            intent,
            state,
            resulting_head,
            primary_cause,
            abort_error,
            conflicted_files,
        ) {
            self
        } else {
            let after = Self::merge_resolved(
                intent,
                state,
                resulting_head,
                primary_cause,
                abort_error,
                conflicted_files,
                now,
            );
            (TablesModel {
                merges: self.merges.map_values(merge_replaced(operation_id, after)),
                slices: if intent.kind == IntegrationMergeKind::Slice && (state
                    == IntegrationMergeState::Conflicted || state
                    == IntegrationMergeState::Divergent) {
                    self.slices.map_values(
                        slice_failed_over(
                            intent.run_id,
                            intent.slice_id,
                            SliceStatus::Blocked,
                            primary_cause,
                        ),
                    )
                } else {
                    self.slices
                },
                ..self
            }).with_event(
                intent.run_id,
                "integration_merge_reconciled"@,
                EventPayloadModel::IntegrationMerge(after),
                now,
            )
        }
    }

    pub open spec fn merges_of(self, run_id: Seq<char>) -> Seq<IntegrationMergeIntentModel> {
        ordered(select(self.merges, merge_of_run(run_id)), merge_order())
    }
}

/// Replacing a merge keeps the tables valid, as long as it does not become a second prepared one.
proof fn lemma_merge_replaced(
    s: TablesModel,
    operation_id: Seq<char>,
    new_row: IntegrationMergeIntentModel,
)
    requires
        s.valid(),
        new_row.operation_id == operation_id,
        new_row.state == IntegrationMergeState::Prepared ==> !any(
            s.merges,
            other_prepared(new_row.run_id, operation_id),
        ),
    ensures
        (TablesModel {
            merges: s.merges.map_values(merge_replaced(operation_id, new_row)),
            ..s
        }).valid(),
        s.one_active_run() ==> (TablesModel {
            merges: s.merges.map_values(merge_replaced(operation_id, new_row)),
            ..s
        }).one_active_run(),
{
    let g = merge_replaced(operation_id, new_row);
    let after = s.merges.map_values(g);
    lemma_unique_map(s.merges, merge_key(), g);
    assert forall|i: int, j: int|
        #![trigger after[i], after[j]]
        0 <= i < after.len() && 0 <= j < after.len() && after[i].run_id == after[j].run_id
            && after[i].state == IntegrationMergeState::Prepared && after[j].state
            == IntegrationMergeState::Prepared implies i == j by {
        assert(after[i] == g(s.merges[i]) && after[j] == g(s.merges[j]));
        let other = other_prepared(new_row.run_id, operation_id);
        if s.merges[i].operation_id == operation_id && s.merges[j].operation_id == operation_id {
            assert(merge_key()(s.merges[i]) == merge_key()(s.merges[j]));
        } else if s.merges[i].operation_id == operation_id {
            assert(other(s.merges[j]));
        } else if s.merges[j].operation_id == operation_id {
            assert(other(s.merges[i]));
        }
    }
}

fn authority_matches(existing: &IntegrationMergeIntent, command: &IntegrationMergeIntent) -> (r:
    bool)
    ensures
        r == same_authority(existing@, command@),
{
    existing.operation_id.same(&command.operation_id) && existing.run_id.same(&command.run_id)
        && existing.kind == command.kind && existing.slice_id.same(&command.slice_id)
        && existing.attempt == command.attempt && existing.launch_id.same(&command.launch_id)
        && existing.source_branch.same(&command.source_branch) && existing.source_commit.same(
        &command.source_commit,
    ) && existing.source_tree.same(&command.source_tree) && existing.expected_head.same(
        &command.expected_head,
    ) && existing.expected_result_tree.same(&command.expected_result_tree)
        && existing.completion.same(&command.completion)
}

impl Store {
    fn merge_index(&self, operation_id: &str) -> (r: Option<usize>)
        ensures
            match r {
                Some(i) => i < self.tables.merges.len() && self@.merge(operation_id@) == Some(
                    self.tables.merges@[i as int]@,
                ),
                None => self@.merge(operation_id@) is None && !any(
                    self@.merges,
                    merge_with_id(operation_id@),
                ),
            },
    {
        let with_id = |row: &IntegrationMergeIntent| -> (b: bool)
            ensures
                b == merge_with_id(operation_id@)(row@),
            { same_text(row.operation_id.as_str(), operation_id) };
        find_row(&self.tables.merges, with_id, Ghost(merge_with_id(operation_id@)))
    }

    fn replace_merge(&mut self, operation_id: &str, after: &IntegrationMergeIntent)
        requires
            old(self)@.valid(),
            after@.operation_id == operation_id@,
            after@.state == IntegrationMergeState::Prepared ==> !any(
                old(self)@.merges,
                other_prepared(after@.run_id, operation_id@),
            ),
        ensures
            final(self)@.valid(),
            old(self)@.one_active_run() ==> final(self)@.one_active_run(),
            final(self)@ == (TablesModel {
                merges: old(self)@.merges.map_values(merge_replaced(operation_id@, after@)),
                ..old(self)@
            }),
    {
        let replace = |row: &IntegrationMergeIntent| -> (out: Option<IntegrationMergeIntent>)
            ensures
                match out {
                    Some(m) => m@ == merge_replaced(operation_id@, after@)(row@),
                    None => merge_replaced(operation_id@, after@)(row@) == row@,
                },
            {
                if same_text(row.operation_id.as_str(), operation_id) {
                    Some(after.dup())
                } else {
                    None
                }
            };
        proof {
            lemma_merge_replaced(self@, operation_id@, after@);
        }
        update_rows(
            &mut self.tables.merges,
            replace,
            Ghost(merge_replaced(operation_id@, after@)),
        );
    }

    /// Prepares a merge, or tells of the one that stands in its way.
    pub fn prepare_integration_merge(&mut self, intent: &IntegrationMergeIntent, now: Timestamp) -> (
    r: Result<IntegrationMergePrepareTransition, StoreError>)
        requires
            old(self)@.valid(),
            now.writable(),
            intent@.created_at.writable(),
            intent@.updated_at.writable(),
        ensures
            final(self)@.valid(),
            old(self)@.one_active_run() ==> final(self)@.one_active_run(),
            match old(self)@.prepare_merge_refusal(intent@) {
                Some(error) => r == Err::<IntegrationMergePrepareTransition, StoreError>(error)
                    && final(self)@ == old(self)@,
                None => res(r) == Ok::<IntegrationMergePrepareTransitionModel, StoreError>(
                    old(self)@.prepare_merge_answer(intent@, now),
                ) && final(self)@ == old(self)@.prepare_merge(intent@, now),
            },
    {
        if intent.state != IntegrationMergeState::Prepared || !intent.resulting_head.as_str(
        ).is_empty() {
            return Err(StoreError::MergeNotFresh);
        }
        if let Some(index) = self.merge_index(intent.operation_id.as_str()) {
            let mut existing = self.tables.merges[index].dup();
            if !authority_matches(&existing, intent) {
                return Err(StoreError::MergeIdentityConflict);
            }
            let outcome = match existing.state {
                IntegrationMergeState::Prepared => IntegrationMergePrepareOutcome::AlreadyPrepared,
                IntegrationMergeState::Applied => IntegrationMergePrepareOutcome::AlreadyApplied,
                IntegrationMergeState::NotStarted => {
                    let rival = |row: &IntegrationMergeIntent| -> (b: bool)
                        ensures
                            b == other_prepared(intent@.run_id, intent@.operation_id)(row@),
                        {
                            same_text(row.run_id.as_str(), intent.run_id.as_str()) && row.state
                                == IntegrationMergeState::Prepared && !same_text(
                                row.operation_id.as_str(),
                                intent.operation_id.as_str(),
                            )
                        };
                    if find_row(
                        &self.tables.merges,
                        rival,
                        Ghost(other_prepared(intent@.run_id, intent@.operation_id)),
                    ).is_some() {
                        return Err(StoreError::AnotherMergePrepared);
                    }
                    if !self.has_room(1) {
                        return Err(StoreError::EventLogFull);
                    }
                    existing.state = IntegrationMergeState::Prepared;
                    existing.resulting_head = String::new();
                    existing.primary_cause = String::new();
                    existing.abort_error = String::new();
                    existing.conflicted_files = Vec::new();
                    existing.updated_at = now;
                    proof {
                        assert(existing.conflicted_files.deep_view() =~= Seq::empty());
                    }
                    self.replace_merge(intent.operation_id.as_str(), &existing);
                    self.append_event(
                        intent.run_id.as_str(),
                        "integration_merge_reprepared",
                        EventPayload::IntegrationMerge(existing.dup()),
                        now,
                    );
                    IntegrationMergePrepareOutcome::Prepared
                },
                IntegrationMergeState::Conflicted | IntegrationMergeState::Divergent =>
                IntegrationMergePrepareOutcome::Conflict,
            };
            return Ok(IntegrationMergePrepareTransition { outcome, intent: existing });
        }
        let prepared = |row: &IntegrationMergeIntent| -> (b: bool)
            ensures
                b == prepared_of(intent@.run_id)(row@),
            {
                same_text(row.run_id.as_str(), intent.run_id.as_str()) && row.state
                    == IntegrationMergeState::Prepared
            };
        if let Some(index) = find_row(
            &self.tables.merges,
            prepared,
            Ghost(prepared_of(intent@.run_id)),
        ) {
            return Ok(
                IntegrationMergePrepareTransition {
                    outcome: IntegrationMergePrepareOutcome::Conflict,
                    intent: self.tables.merges[index].dup(),
                },
            );
        }
        let index = match self.run_index(intent.run_id.as_str()) {
            Some(index) => index,
            None => {
                return Err(StoreError::RunNotFound);
            },
        };
        if self.tables.runs[index].run.status != RunStatus::Running {
            return Err(StoreError::RunNotRunning);
        }
        if !self.has_room(1) {
            return Err(StoreError::EventLogFull);
        }
        proof {
            lemma_merge_pushed(self@, intent@);
        }
        push_row(&mut self.tables.merges, intent.dup());
        self.append_event(
            intent.run_id.as_str(),
            "integration_merge_prepared",
            EventPayload::IntegrationMerge(intent.dup()),
            intent.created_at,
        );
        Ok(
            IntegrationMergePrepareTransition {
                outcome: IntegrationMergePrepareOutcome::Prepared,
                intent: intent.dup(),
            },
        )
    }

    fn completion_error(&self, intent: &IntegrationMergeIntent) -> (r: Option<StoreError>)
        requires
            self@.valid(),
        ensures
            r == self@.completion_refusal(intent@),
    {
        match &intent.completion {
            IntegrationMergeCompletion::Slice { branch, commit_sha, attempts } => {
                if !self.has_room(2) {
                    return Some(StoreError::EventLogFull);
                }
                None
            },
            IntegrationMergeCompletion::IntegrationRepair { launch_id, status, summary } => {
                if !intent.launch_id.same(&Some(*launch_id)) {
                    return Some(StoreError::InconsistentLaunch);
                }
                let index = match self.attempt_index(*launch_id) {
                    Some(index) => index,
                    None => {
                        return Some(StoreError::AttemptNotFound);
                    },
                };
                let attempt = &self.tables.attempts[index].attempt;
                if !attempt.run_id.same(&intent.run_id) || (!same_text(
                    attempt.state.as_str(),
                    "running",
                ) && !same_text(attempt.state.as_str(), "interrupted")) {
                    return Some(StoreError::IllegalAttemptTransition);
                }
                if !self.has_room(3) {
                    return Some(StoreError::EventLogFull);
                }
                None
            },
        }
    }

    fn apply_integration_merge_completion(&mut self, intent: &IntegrationMergeIntent, now: Timestamp)
        requires
            old(self)@.valid(),
            old(self)@.completion_refusal(intent@) is None,
        ensures
            final(self)@.valid(),
            old(self)@.one_active_run() ==> final(self)@.one_active_run(),
            final(self)@ == old(self)@.complete_merge(intent@, now),
            final(self)@.room(1),
    {
        match &intent.completion {
            IntegrationMergeCompletion::Slice { branch, commit_sha, attempts } => {
                let slice = SliceRun {
                    run_id: intent.run_id.dup(),
                    slice_id: intent.slice_id.dup(),
                    status: SliceStatus::Merged,
                    branch: branch.dup(),
                    commit_sha: commit_sha.dup(),
                    attempts: *attempts,
                    last_error: String::new(),
                };
                self.put_slice(&slice);
                self.append_event(
                    intent.run_id.as_str(),
                    "slice_merged",
                    EventPayload::SliceMerged(
                        SliceMergedPayload {
                            slice_id: intent.slice_id.dup(),
                            commit_sha: commit_sha.dup(),
                        },
                    ),
                    now,
                );
            },
            IntegrationMergeCompletion::IntegrationRepair { launch_id, status, summary } => {
                let id: i64 = *launch_id;
                let slice_id = match self.attempt_index(id) {
                    Some(index) => self.tables.attempts[index].attempt.slice_id.dup(),
                    None => String::new(),
                };
                self.end_attempt(id, "succeeded", "", now);
                proof {
                    reveal_strlit("");
                    assert(""@ =~= Seq::<char>::empty());
                }
                self.append_event(
                    intent.run_id.as_str(),
                    "worker_attempt_finished",
                    EventPayload::WorkerAttemptFinished(
                        WorkerAttemptFinishedPayload {
                            launch_id: id,
                            slice_id,
                            state: "succeeded".to_owned(),
                            failure_cause: String::new(),
                        },
                    ),
                    now,
                );
                self.append_event(
                    intent.run_id.as_str(),
                    "integration_repair_completed",
                    EventPayload::IntegrationRepairCompleted(
                        IntegrationRepairCompletedPayload {
                            status: status.dup(),
                            summary: summary.dup(),
                            launch_id: Some(id),
                        },
                    ),
                    now,
                );
            },
        }
    }

    /// Records that a prepared merge was applied, with what it completes. False: that is on record.
    pub fn commit_integration_merge(
        &mut self,
        operation_id: &str,
        resulting_head: &str,
        now: Timestamp,
    ) -> (r: Result<bool, StoreError>)
        requires
            old(self)@.valid(),
            now.writable(),
        ensures
            final(self)@.valid(),
            old(self)@.one_active_run() ==> final(self)@.one_active_run(),
            match old(self)@.commit_merge_refusal(operation_id@, resulting_head@) {
                Some(error) => r == Err::<bool, StoreError>(error) && final(self)@ == old(self)@,
                None => r == Ok::<bool, StoreError>(
                    old(self)@.merge(operation_id@)->0.state != IntegrationMergeState::Applied,
                ) && final(self)@ == old(self)@.commit_merge(operation_id@, resulting_head@, now),
            },
    {
        let index = match self.merge_index(operation_id) {
            Some(index) => index,
            None => {
                return Err(StoreError::MergeNotFound);
            },
        };
        let mut intent = self.tables.merges[index].dup();
        if intent.state == IntegrationMergeState::Applied {
            if !same_text(intent.resulting_head.as_str(), resulting_head) {
                return Err(StoreError::MergeAppliedElsewhere);
            }
            return Ok(false);
        }
        if intent.state != IntegrationMergeState::Prepared {
            return Err(StoreError::UnexpectedMergeState);
        }
        if let Some(error) = self.completion_error(&intent) {
            return Err(error);
        }
        proof {
            lemma_first_any(self@.merges, merge_with_id(operation_id@));
        }
        intent.state = IntegrationMergeState::Applied;
        intent.resulting_head = resulting_head.to_owned();
        intent.updated_at = now;
        self.replace_merge(operation_id, &intent);
        self.apply_integration_merge_completion(&intent, now);
        let run_id = intent.run_id.dup();
        self.append_event(
            run_id.as_str(),
            "integration_merge_applied",
            EventPayload::IntegrationMerge(intent),
            now,
        );
        Ok(true)
    }

    /// Records how a merge came to an end without being applied. False: that is on record.
    pub fn resolve_integration_merge(
        &mut self,
        operation_id: &str,
        state: IntegrationMergeState,
        resulting_head: &str,
        primary_cause: &str,
        abort_error: &str,
        conflicted_files: &Vec<String>,
        now: Timestamp,
    ) -> (r: Result<bool, StoreError>)
        requires
            old(self)@.valid(),
            now.writable(),
        ensures
            final(self)@.valid(),
            old(self)@.one_active_run() ==> final(self)@.one_active_run(),
            match old(self)@.resolve_merge_refusal(
                operation_id@,
                state,
                resulting_head@,
                primary_cause@,
                abort_error@,
                conflicted_files.deep_view(),
            ) {
                Some(error) => r == Err::<bool, StoreError>(error) && final(self)@ == old(self)@,
                None => r == Ok::<bool, StoreError>(
                    !TablesModel::resolution_on_record(
                        old(self)@.merge(operation_id@)->0,
                        state,
                        resulting_head@,
                        primary_cause@,
                        abort_error@,
                        conflicted_files.deep_view(),
                    ),
                ) && final(self)@ == old(self)@.resolve_merge(
                    operation_id@,
                    state,
                    resulting_head@,
                    primary_cause@,
                    abort_error@,
                    conflicted_files.deep_view(),
                    now,
                ),
            },
    {
        if matches!(state, IntegrationMergeState::Prepared | IntegrationMergeState::Applied) {
            return Err(StoreError::ResolutionNotTerminal);
        }
        let index = match self.merge_index(operation_id) {
            Some(index) => index,
            None => {
                return Err(StoreError::MergeNotFound);
            },
        };
        let mut intent = self.tables.merges[index].dup();
        if intent.state == state && same_text(intent.resulting_head.as_str(), resulting_head)
            && same_text(intent.primary_cause.as_str(), primary_cause) && same_text(
            intent.abort_error.as_str(),
            abort_error,
        ) && intent.conflicted_files.same(conflicted_files) {
            return Ok(false);
        }
        let valid_transition = intent.state == IntegrationMergeState::Prepared || (intent.state
            == IntegrationMergeState::Conflicted && matches!(
            state,
            IntegrationMergeState::Conflicted | IntegrationMergeState::NotStarted
        ));
        if !valid_transition {
            return Err(StoreError::UnexpectedMergeState);
        }
        if !self.has_room(1) {
            return Err(StoreError::EventLogFull);
        }
        proof {
            lemma_first_any(self@.merges, merge_with_id(operation_id@));
        }
        intent.state = state;
        intent.resulting_head = resulting_head.to_owned();
        intent.primary_cause = primary_cause.to_owned();
        intent.abort_error = abort_error.to_owned();
        intent.conflicted_files = conflicted_files.dup();
        intent.updated_at = now;
        self.replace_merge(operation_id, &intent);
        if intent.kind == IntegrationMergeKind::Slice && matches!(
            state,
            IntegrationMergeState::Conflicted | IntegrationMergeState::Divergent
        ) {
            self.set_slice_status(
                intent.run_id.as_str(),
                intent.slice_id.as_str(),
                SliceStatus::Blocked,
                primary_cause,
            );
        }
        let run_id = intent.run_id.dup();
        self.append_event(
            run_id.as_str(),
            "integration_merge_reconciled",
            EventPayload::IntegrationMerge(intent),
            now,
        );
        Ok(true)
    }

    /// The merges of a run in the order of their creation.
    pub fn integration_merge_intents(&self, run_id: &str) -> (r: Result<
        Vec<IntegrationMergeIntent>,
        StoreError,
    >)
        ensures
            res(r) == Ok::<Seq<IntegrationMergeIntentModel>, StoreError>(self@.merges_of(run_id@)),
    {
        let of_run = |row: &IntegrationMergeIntent| -> (b: bool)
            ensures
                b == merge_of_run(run_id@)(row@),
            { same_text(row.run_id.as_str(), run_id) };
        let found = select_rows(&self.tables.merges, of_run, Ghost(merge_of_run(run_id@)));
        let before = |a: &IntegrationMergeIntent, b: &IntegrationMergeIntent| -> (lt: bool)
            ensures
                lt == merge_order()(a@, b@),
            {
                a.created_at.earlier(&b.created_at) || (a.created_at == b.created_at
                    && text_before(a.operation_id.as_str(), b.operation_id.as_str()))
            };
        Ok(order_rows(found, before, Ghost(merge_order())))
    }
}

/// Adding a merge where none of its run is prepared keeps the tables valid.
proof fn lemma_merge_pushed(s: TablesModel, intent: IntegrationMergeIntentModel)
    requires
        s.valid(),
        !any(s.merges, merge_with_id(intent.operation_id)),
        !any(s.merges, prepared_of(intent.run_id)),
    ensures
        (TablesModel { merges: s.merges.push(intent), ..s }).valid(),
{
    lemma_unique_push(s.merges, merge_key(), intent, merge_with_id(intent.operation_id));
    let after = s.merges.push(intent);
    let p = prepared_of(intent.run_id);
    assert forall|i: int, j: int|
        #![trigger after[i], after[j]]
        0 <= i < after.len() && 0 <= j < after.len() && after[i].run_id == after[j].run_id
            && after[i].state == IntegrationMergeState::Prepared && after[j].state
            == IntegrationMergeState::Prepared implies i == j by {
        if i < s.merges.len() && j < s.merges.len() {
            assert(after[i] == s.merges[i] && after[j] == s.merges[j]);
        } else if i < s.merges.len() {
            assert(p(s.merges[i]));
        } else if j < s.merges.len() {
            assert(p(s.merges[j]));
        }
    }
}

} // verus!
