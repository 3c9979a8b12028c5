//! Admission of runs and the life of a launch.
use super::{
    launch_key, lemma_one_active_kept, lemma_one_active_push, lemma_one_active_raised,
    lemma_unique_map, lemma_unique_push, res,
    run_has_id, run_key, terminal_key, Store,
};
use crate::domain::{
    FrontierBudgetState, FrontierBudgetStateModel, MissionEnvelope, MissionEnvelopeModel, Run,
    RunAdmissionOutcome, RunLaunchAction, RunLaunchIntent, RunLaunchIntentModel, RunLaunchState,
    RunModel, RunStatus, SliceRun, SliceRunModel,
};
use crate::error::StoreError;
use crate::payloads::{EventPayload, EventPayloadModel};
use crate::rows::{
    RunAdmissionTransition, RunAdmissionTransitionModel, RunRow, RunRowModel, TablesModel,
    TerminalRow, TerminalRowModel,
};
use crate::table::{
    any, find_row, first, lemma_unique_select, lemma_first_any, lemma_ordered_len, lemma_select_any, order_rows, ordered, push_row, select,
    select_rows, unique, update_rows, Row,
};
use crate::text::{opt_str, same_text, text_before, text_lt};
use crate::time::Timestamp;
use vstd::prelude::*;

verus! {

/// Another run of the repository that holds its claim.
pub open spec fn active_other(repo_id: Seq<char>, id: Seq<char>) -> spec_fn(RunRowModel) -> bool {
    |row: RunRowModel| row.run.repo_id == repo_id && row.run.status.active() && row.run.id != id
}

/// A run of the repository that holds its claim, other than the excluded one.
pub open spec fn claims(repo_id: Seq<char>, exclude: Option<Seq<char>>) -> spec_fn(
    RunRowModel,
) -> bool {
    |row: RunRowModel|
        row.run.repo_id == repo_id && row.run.status.active() && Some(row.run.id) != exclude
}

/// Most recently updated first, the greater identifier first among equals.
pub open spec fn latest_updated() -> spec_fn(RunRowModel, RunRowModel) -> bool {
    |a: RunRowModel, b: RunRowModel|
        b.run.updated_at.lt(a.run.updated_at) || (a.run.updated_at == b.run.updated_at && text_lt(
            b.run.id,
            a.run.id,
        ))
}

pub open spec fn launch_at(run_id: Seq<char>, epoch: usize) -> spec_fn(
    RunLaunchIntentModel,
) -> bool {
    |row: RunLaunchIntentModel| row.run_id == run_id && row.execution_epoch == epoch
}

pub open spec fn launch_in_states(states: Seq<RunLaunchState>) -> spec_fn(
    RunLaunchIntentModel,
) -> bool {
    |row: RunLaunchIntentModel| states.contains(row.state)
}

/// Earliest created first, then by run and epoch.
pub open spec fn launch_order() -> spec_fn(RunLaunchIntentModel, RunLaunchIntentModel) -> bool {
    |a: RunLaunchIntentModel, b: RunLaunchIntentModel|
        a.created_at.lt(b.created_at) || (a.created_at == b.created_at && (text_lt(
            a.run_id,
            b.run_id,
        ) || (a.run_id == b.run_id && a.execution_epoch < b.execution_epoch)))
}

/// The run as it waits for its next launch.
pub open spec fn reopened(run_id: Seq<char>, epoch: i64, now: Timestamp) -> spec_fn(
    RunRowModel,
) -> RunRowModel {
    |row: RunRowModel|
        if row.run.id == run_id {
            RunRowModel {
                run: RunModel {
                    status: RunStatus::Pending,
                    error: Seq::empty(),
                    updated_at: now,
                    ..row.run
                },
                execution_epoch: epoch,
                ..row
            }
        } else {
            row
        }
}

pub open spec fn terminal_of_other(run_id: Seq<char>) -> spec_fn(TerminalRowModel) -> bool {
    |row: TerminalRowModel| row.run_id != run_id
}

pub open spec fn terminal_of(run_id: Seq<char>) -> spec_fn(TerminalRowModel) -> bool {
    |row: TerminalRowModel| row.run_id == run_id
}

/// The pending run of this epoch starts to run.
pub open spec fn activated(run_id: Seq<char>, epoch: usize, now: Timestamp) -> spec_fn(
    RunRowModel,
) -> RunRowModel {
    |row: RunRowModel|
        if row.run.id == run_id && row.execution_epoch == epoch && row.run.status
            == RunStatus::Pending {
            RunRowModel {
                run: RunModel { status: RunStatus::Running, updated_at: now, ..row.run },
                ..row
            }
        } else {
            row
        }
}

pub open spec fn pending_at(run_id: Seq<char>, epoch: usize) -> spec_fn(RunRowModel) -> bool {
    |row: RunRowModel|
        row.run.id == run_id && row.execution_epoch == epoch && row.run.status == RunStatus::Pending
}

pub open spec fn active_at(run_id: Seq<char>, epoch: usize) -> spec_fn(RunRowModel) -> bool {
    |row: RunRowModel|
        row.run.id == run_id && row.execution_epoch == epoch && row.run.status.active()
}

/// The active run of this epoch ends in a status.
pub open spec fn launch_ended(
    run_id: Seq<char>,
    epoch: usize,
    status: RunStatus,
    error: Seq<char>,
    now: Timestamp,
) -> spec_fn(RunRowModel) -> RunRowModel {
    |row: RunRowModel|
        if row.run.id == run_id && row.execution_epoch == epoch && row.run.status.active() {
            RunRowModel {
                run: RunModel { status, error, updated_at: now, ..row.run },
                ..row
            }
        } else {
            row
        }
}

/// The launch at a key, replaced.
pub open spec fn launch_replaced(
    run_id: Seq<char>,
    epoch: usize,
    new_row: RunLaunchIntentModel,
) -> spec_fn(RunLaunchIntentModel) -> RunLaunchIntentModel {
    |row: RunLaunchIntentModel|
        if row.run_id == run_id && row.execution_epoch == epoch {
            new_row
        } else {
            row
        }
}

impl TablesModel {
    /// A run can be added unless another run holds the claim that it needs, or it is there already.
    pub open spec fn insert_run_refusal(self, run: RunModel) -> Option<StoreError> {
        if run.status.active() && any(self.runs, active_other(run.repo_id, run.id)) {
            Some(StoreError::ActiveRunExists)
        } else if any(self.runs, run_has_id(run.id)) {
            Some(StoreError::RunExists)
        } else {
            None
        }
    }

    pub open spec fn with_run(
        self,
        run: RunModel,
        mission_envelope: Option<MissionEnvelopeModel>,
        frontier_budget: Option<FrontierBudgetStateModel>,
    ) -> TablesModel {
        TablesModel {
            runs: self.runs.push(
                RunRowModel { run, execution_epoch: 1, mission_envelope, frontier_budget },
            ),
            ..self
        }
    }

    /// The run that holds the claim on a repository.
    pub open spec fn active_run_for_repo(
        self,
        repo_id: Seq<char>,
        exclude: Option<Seq<char>>,
    ) -> Option<RunModel> {
        let found = ordered(select(self.runs, claims(repo_id, exclude)), latest_updated());
        if found.len() > 0 {
            Some(found[0].run)
        } else {
            None
        }
    }

    pub open spec fn launch(self, run_id: Seq<char>, epoch: usize) -> Option<RunLaunchIntentModel> {
        first(self.launches, launch_at(run_id, epoch))
    }

    pub open spec fn start_intent(
        run: RunModel,
        integration_worktree: Seq<char>,
    ) -> RunLaunchIntentModel {
        RunLaunchIntentModel {
            run_id: run.id,
            execution_epoch: 1,
            action: RunLaunchAction::Start,
            state: RunLaunchState::Prepared,
            repo_id: run.repo_id,
            integration_branch: run.integration_branch,
            integration_worktree,
            integration_resources_owned: false,
            prior_status: None,
            prior_error: Seq::empty(),
            primary_cause: Seq::empty(),
            compensation_error: Seq::empty(),
            created_at: run.started_at,
            updated_at: run.updated_at,
        }
    }

    /// Whether a pending run can be admitted, where no other run holds the claim.
    pub open spec fn admit_run_refusal(self, run: RunModel) -> Option<StoreError> {
        if run.status != RunStatus::Pending {
            Some(StoreError::AdmissionRequiresPending)
        } else if self.active_run_for_repo(run.repo_id, None) is Some {
            None
        } else if any(self.runs, run_has_id(run.id)) {
            Some(StoreError::RunExists)
        } else if any(self.launches, launch_at(run.id, 1)) {
            Some(StoreError::LaunchExists)
        } else if !self.room(1) {
            Some(StoreError::EventLogFull)
        } else {
            None
        }
    }

    pub open spec fn admit_run_answer(
        self,
        run: RunModel,
        integration_worktree: Seq<char>,
    ) -> RunAdmissionTransitionModel {
        match self.active_run_for_repo(run.repo_id, None) {
            Some(active_run) => RunAdmissionTransitionModel {
                outcome: RunAdmissionOutcome::Conflict,
                intent: None,
                active_run: Some(active_run),
            },
            None => RunAdmissionTransitionModel {
                outcome: RunAdmissionOutcome::Prepared,
                intent: Some(Self::start_intent(run, integration_worktree)),
                active_run: None,
            },
        }
    }

    /// The claim goes to at most one run: where it is held, nothing changes.
    pub open spec fn admit_run(
        self,
        run: RunModel,
        slice_runs: Seq<SliceRunModel>,
        mission_envelope: Option<MissionEnvelopeModel>,
        frontier_budget: Option<FrontierBudgetStateModel>,
        integration_worktree: Seq<char>,
    ) -> TablesModel {
        if self.active_run_for_repo(run.repo_id, None) is Some {
            self
        } else {
            let intent = Self::start_intent(run, integration_worktree);
            let added = self.with_run(run, mission_envelope, frontier_budget);
            (TablesModel {
                slices: added.with_slices(slice_runs).slices,
                launches: self.launches.push(intent),
                ..added
            }).with_event(
                run.id,
                "run_launch_prepared"@,
                EventPayloadModel::RunLaunch(intent),
                run.updated_at,
            )
        }
    }

    /// Whether the run is in a status from which it can be resumed.
    pub open spec fn resumable(status: RunStatus) -> bool {
        status == RunStatus::Interrupted || status == RunStatus::Failed || status
            == RunStatus::Cancelled || status == RunStatus::Blocked
    }

    pub open spec fn incomplete_terminalization(self, run_id: Seq<char>) -> bool {
        first(self.terminals, terminal_of(run_id)) matches Some(row) && row.committed_at is NotMade
    }

    /// The epoch that the next launch of a run gets.
    pub open spec fn next_epoch(row: RunRowModel) -> int {
        if row.execution_epoch < 1 {
            2
        } else {
            row.execution_epoch + 1
        }
    }

    pub open spec fn begin_resume_refusal(self, run_id: Seq<char>) -> Option<StoreError> {
        match self.run_row(run_id) {
            None => Some(StoreError::RunNotFound),
            Some(row) => if !Self::resumable(row.run.status) {
                None
            } else if self.incomplete_terminalization(run_id) {
                Some(StoreError::IncompleteTerminalization)
            } else if self.active_run_for_repo(row.run.repo_id, Some(run_id)) is Some {
                None
            } else if Self::next_epoch(row) > i64::MAX || Self::next_epoch(row) > usize::MAX {
                Some(StoreError::CounterExhausted)
            } else if any(self.launches, launch_at(run_id, Self::next_epoch(row) as usize)) {
                Some(StoreError::LaunchExists)
            } else if !self.room(1) {
                Some(StoreError::EventLogFull)
            } else {
                None
            },
        }
    }

    pub open spec fn resume_intent(
        run: RunModel,
        epoch: usize,
        integration_worktree: Seq<char>,
        now: Timestamp,
    ) -> RunLaunchIntentModel {
        RunLaunchIntentModel {
            run_id: run.id,
            execution_epoch: epoch,
            action: RunLaunchAction::Resume,
            state: RunLaunchState::Prepared,
            repo_id: run.repo_id,
            integration_branch: run.integration_branch,
            integration_worktree,
            integration_resources_owned: false,
            prior_status: Some(run.status),
            prior_error: run.error,
            primary_cause: Seq::empty(),
            compensation_error: Seq::empty(),
            created_at: now,
            updated_at: now,
        }
    }

    pub open spec fn begin_resume_answer(
        self,
        run_id: Seq<char>,
        integration_worktree: Seq<char>,
        now: Timestamp,
    ) -> RunAdmissionTransitionModel {
        let row = self.run_row(run_id)->0;
        if !Self::resumable(row.run.status) {
            RunAdmissionTransitionModel {
                outcome: RunAdmissionOutcome::Conflict,
                intent: None,
                active_run: if row.run.status.active() {
                    Some(row.run)
                } else {
                    None
                },
            }
        } else {
            match self.active_run_for_repo(row.run.repo_id, Some(run_id)) {
                Some(active_run) => RunAdmissionTransitionModel {
                    outcome: RunAdmissionOutcome::Conflict,
                    intent: None,
                    active_run: Some(active_run),
                },
                None => RunAdmissionTransitionModel {
                    outcome: RunAdmissionOutcome::Prepared,
                    intent: Some(
                        Self::resume_intent(
                            row.run,
                            Self::next_epoch(row) as usize,
                            integration_worktree,
                            now,
                        ),
                    ),
                    active_run: None,
                },
            }
        }
    }

    pub open spec fn begin_resume(
        self,
        run_id: Seq<char>,
        integration_worktree: Seq<char>,
        now: Timestamp,
    ) -> TablesModel {
        let row = self.run_row(run_id)->0;
        if !Self::resumable(row.run.status) || self.active_run_for_repo(
            row.run.repo_id,
            Some(run_id),
        ) is Some {
            self
        } else {
            let epoch = Self::next_epoch(row);
            let intent = Self::resume_intent(row.run, epoch as usize, integration_worktree, now);
            (TablesModel {
                runs: self.runs.map_values(reopened(run_id, epoch as i64, now)),
                terminals: select(self.terminals, terminal_of_other(run_id)),
                launches: self.launches.push(intent),
                ..self
            }).with_event(
                run_id,
                "run_launch_prepared"@,
                EventPayloadModel::RunLaunch(intent),
                now,
            )
        }
    }

    /// The name of the event that a launch transition leaves.
    pub open spec fn launch_event(target: RunLaunchState) -> Seq<char> {
        match target {
            RunLaunchState::Activated => "run_launch_activated"@,
            RunLaunchState::Completed => "run_launch_completed"@,
            _ => "run_launch_transitioned"@,
        }
    }

    pub open spec fn reopen(self, run_id: Seq<char>, now: Timestamp) -> (
        Result<usize, StoreError>,
        TablesModel,
    ) {
        match self.begin_resume_refusal(run_id) {
            Some(error) => (Err(error), self),
            None => {
                let answer = self.begin_resume_answer(run_id, ""@, now);
                let begun = self.begin_resume(run_id, ""@, now);
                if answer.outcome != RunAdmissionOutcome::Prepared {
                    (Err(StoreError::ResumeNotAdmitted), begun)
                } else {
                    match answer.intent {
                        None => (Err(StoreError::AdmissionLost), begun),
                        Some(intent) => match begun.transition_launch_refusal(
                            run_id,
                            intent.execution_epoch,
                            RunLaunchState::Prepared,
                            RunLaunchState::Activated,
                            true,
                        ) {
                            Some(error) => (Err(error), begun),
                            None => (
                                Ok(intent.execution_epoch),
                                begun.transition_launch(
                                    run_id,
                                    intent.execution_epoch,
                                    RunLaunchState::Activated,
                                    true,
                                    now,
                                ),
                            ),
                        },
                    }
                }
            },
        }
    }

    pub open spec fn transition_launch_refusal(
        self,
        run_id: Seq<char>,
        epoch: usize,
        expected: RunLaunchState,
        target: RunLaunchState,
        activate_run: bool,
    ) -> Option<StoreError> {
        match self.launch(run_id, epoch) {
            None => Some(StoreError::LaunchNotFound),
            Some(intent) => if intent.state == target {
                None
            } else if intent.state != expected {
                Some(StoreError::UnexpectedLaunchState)
            } else if activate_run && !any(self.runs, pending_at(run_id, epoch)) {
                Some(StoreError::RunNotPending)
            } else if activate_run && any(
                self.runs,
                active_other(first(self.runs, pending_at(run_id, epoch))->0.run.repo_id, run_id),
            ) {
                Some(StoreError::ActiveRunExists)
            } else if !self.room(1) {
                Some(StoreError::EventLogFull)
            } else {
                None
            },
        }
    }

    /// A launch that is already in the target state stays as it is.
    pub open spec fn transition_launch(
        self,
        run_id: Seq<char>,
        epoch: usize,
        target: RunLaunchState,
        activate_run: bool,
        now: Timestamp,
    ) -> TablesModel {
        let intent = self.launch(run_id, epoch)->0;
        if intent.state == target {
            self
        } else {
            let after = RunLaunchIntentModel { state: target, updated_at: now, ..intent };
            (TablesModel {
                runs: if activate_run {
                    self.runs.map_values(activated(run_id, epoch, now))
                } else {
                    self.runs
                },
                launches: self.launches.map_values(launch_replaced(run_id, epoch, after)),
                ..self
            }).with_event(
                run_id,
                Self::launch_event(target),
                EventPayloadModel::RunLaunch(after),
                now,
            )
        }
    }

    /// The tables after a launch was activated, with its run.
    pub open spec fn launch_activated(
        self,
        run_id: Seq<char>,
        epoch: usize,
        now: Timestamp,
    ) -> Result<TablesModel, StoreError> {
        match self.transition_launch_refusal(
            run_id,
            epoch,
            RunLaunchState::Prepared,
            RunLaunchState::Activated,
            true,
        ) {
            Some(error) => Err(error),
            None => Ok(
                self.transition_launch(run_id, epoch, RunLaunchState::Activated, true, now),
            ),
        }
    }

    /// The tables after a launch was completed.
    pub open spec fn launch_completed(
        self,
        run_id: Seq<char>,
        epoch: usize,
        now: Timestamp,
    ) -> Result<TablesModel, StoreError> {
        match self.transition_launch_refusal(
            run_id,
            epoch,
            RunLaunchState::Activated,
            RunLaunchState::Completed,
            false,
        ) {
            Some(error) => Err(error),
            None => Ok(
                self.transition_launch(run_id, epoch, RunLaunchState::Completed, false, now),
            ),
        }
    }

    pub open spec fn claim_resources_refusal(
        self,
        run_id: Seq<char>,
        epoch: usize,
    ) -> Option<StoreError> {
        match self.launch(run_id, epoch) {
            None => Some(StoreError::LaunchNotFound),
            Some(intent) => if intent.action != RunLaunchAction::Start {
                Some(StoreError::ResumeOwnsNoResources)
            } else if intent.integration_resources_owned {
                None
            } else if intent.state != RunLaunchState::Activated {
                Some(StoreError::UnexpectedLaunchState)
            } else if !self.room(1) {
                Some(StoreError::EventLogFull)
            } else {
                None
            },
        }
    }

    pub open spec fn claim_resources(
        self,
        run_id: Seq<char>,
        epoch: usize,
        now: Timestamp,
    ) -> TablesModel {
        let intent = self.launch(run_id, epoch)->0;
        if intent.integration_resources_owned {
            self
        } else {
            let after = RunLaunchIntentModel {
                integration_resources_owned: true,
                updated_at: now,
                ..intent
            };
            (TablesModel {
                launches: self.launches.map_values(launch_replaced(run_id, epoch, after)),
                ..self
            }).with_event(
                run_id,
                "run_launch_integration_resources_created"@,
                EventPayloadModel::RunLaunch(after),
                now,
            )
        }
    }

    /// Whether a failure that is reported again is the one on record.
    pub open spec fn failure_on_record(
        intent: RunLaunchIntentModel,
        primary_cause: Seq<char>,
        compensation_error: Seq<char>,
    ) -> bool {
        intent.state == RunLaunchState::Failed && intent.primary_cause == primary_cause
            && intent.compensation_error == compensation_error
    }

    /// What the run falls back to when its launch fails: a started run fails, a resumed run gets
    /// back what it was.
    pub open spec fn fallback(
        intent: RunLaunchIntentModel,
        primary_cause: Seq<char>,
    ) -> (RunStatus, Seq<char>) {
        match intent.action {
            RunLaunchAction::Start => (RunStatus::Failed, primary_cause),
            RunLaunchAction::Resume => (intent.prior_status->0, intent.prior_error),
        }
    }

    pub open spec fn fail_launch_refusal(
        self,
        run_id: Seq<char>,
        epoch: usize,
        primary_cause: Seq<char>,
        compensation_error: Seq<char>,
    ) -> Option<StoreError> {
        match self.launch(run_id, epoch) {
            None => None,
            Some(intent) => if !intent.state.incomplete() {
                if Self::failure_on_record(intent, primary_cause, compensation_error) {
                    None
                } else {
                    Some(StoreError::UnexpectedLaunchState)
                }
            } else if intent.action == RunLaunchAction::Resume && intent.prior_status is None {
                Some(StoreError::PriorStatusLost)
            } else if Self::fallback(intent, primary_cause).0.active() && any(
                self.runs,
                active_at(run_id, epoch),
            ) && any(
                self.runs,
                active_other(first(self.runs, active_at(run_id, epoch))->0.run.repo_id, run_id),
            ) {
                Some(StoreError::ActiveRunExists)
            } else if !self.room(1) {
                Some(StoreError::EventLogFull)
            } else {
                None
            },
        }
    }

    /// Whether a reported failure changes anything.
    pub open spec fn fail_launch_answer(self, run_id: Seq<char>, epoch: usize) -> bool {
        self.launch(run_id, epoch) matches Some(intent) && intent.state.incomplete()
    }

    pub open spec fn fail_launch(
        self,
        run_id: Seq<char>,
        epoch: usize,
        primary_cause: Seq<char>,
        compensation_error: Seq<char>,
        now: Timestamp,
    ) -> TablesModel {
        if !self.fail_launch_answer(run_id, epoch) {
            self
        } else {
            let intent = self.launch(run_id, epoch)->0;
            let (status, error) = Self::fallback(intent, primary_cause);
            let after = RunLaunchIntentModel {
                state: RunLaunchState::Failed,
                primary_cause,
                compensation_error,
                updated_at: now,
                ..intent
            };
            (TablesModel {
                runs: self.runs.map_values(launch_ended(run_id, epoch, status, error, now)),
                launches: self.launches.map_values(launch_replaced(run_id, epoch, after)),
                ..self
            }).with_event(
                run_id,
                "run_launch_failed"@,
                EventPayloadModel::RunLaunch(after),
                now,
            )
        }
    }

    pub open spec fn compensation_state(compensation_error: Seq<char>) -> RunLaunchState {
        if compensation_error.len() == 0 {
            RunLaunchState::Compensated
        } else {
            RunLaunchState::RecoveryRequired
        }
    }

    pub open spec fn compensation_refusal(
        self,
        run_id: Seq<char>,
        epoch: usize,
        compensation_error: Seq<char>,
    ) -> Option<StoreError> {
        match self.launch(run_id, epoch) {
            None => Some(StoreError::LaunchNotFound),
            Some(intent) => if intent.action != RunLaunchAction::Start {
                Some(StoreError::ResumeOwnsNoResources)
            } else if intent.state == Self::compensation_state(compensation_error)
                && intent.compensation_error == compensation_error {
                None
            } else if intent.state != RunLaunchState::Interrupted && intent.state
                != RunLaunchState::Failed && intent.state != RunLaunchState::RecoveryRequired {
                Some(StoreError::UnexpectedLaunchState)
            } else if !self.room(1) {
                Some(StoreError::EventLogFull)
            } else {
                None
            },
        }
    }

    /// Whether a reported compensation changes anything.
    pub open spec fn compensation_answer(
        self,
        run_id: Seq<char>,
        epoch: usize,
        compensation_error: Seq<char>,
    ) -> bool {
        let intent = self.launch(run_id, epoch)->0;
        !(intent.state == Self::compensation_state(compensation_error) && intent.compensation_error
            == compensation_error)
    }

    pub open spec fn record_compensation(
        self,
        run_id: Seq<char>,
        epoch: usize,
        compensation_error: Seq<char>,
        now: Timestamp,
    ) -> TablesModel {
        if !self.compensation_answer(run_id, epoch, compensation_error) {
            self
        } else {
            let intent = self.launch(run_id, epoch)->0;
            let target = Self::compensation_state(compensation_error);
            let after = RunLaunchIntentModel {
                state: target,
                compensation_error,
                updated_at: now,
                ..intent
            };
            (TablesModel {
                launches: self.launches.map_values(launch_replaced(run_id, epoch, after)),
                ..self
            }).with_event(
                run_id,
                if target == RunLaunchState::Compensated {
                    "run_launch_compensated"@
                } else {
                    "run_launch_compensation_failed"@
                },
                EventPayloadModel::RunLaunch(after),
                now,
            )
        }
    }

    /// The launches that are neither done nor given up.
    pub open spec fn launches_under_way(self) -> Seq<RunLaunchIntentModel> {
        self.launches_in_states(seq![RunLaunchState::Prepared, RunLaunchState::Activated])
    }

    /// The launches whose resources are still to be given back.
    pub open spec fn launches_to_compensate(self) -> Seq<RunLaunchIntentModel> {
        self.launches_in_states(
            seq![
                RunLaunchState::Interrupted,
                RunLaunchState::Failed,
                RunLaunchState::RecoveryRequired,
            ],
        )
    }

    pub open spec fn launches_in_states(
        self,
        states: Seq<RunLaunchState>,
    ) -> Seq<RunLaunchIntentModel> {
        ordered(select(self.launches, launch_in_states(states)), launch_order())
    }
}

fn state_in(states: &Vec<RunLaunchState>, state: RunLaunchState) -> (r: bool)
    ensures
        r == states@.contains(state),
{
    let mut i: usize = 0;
    while i < states.len()
        invariant
            i <= states.len(),
            forall|j: int| 0 <= j < i ==> states@[j] != state,
        decreases states.len() - i,
    {
        if states[i] == state {
            assert(states@[i as int] == state);
            return true;
        }
        i = i + 1;
    }
    false
}

/// An epoch of a run row and the epoch of a launch agree.
fn same_epoch(row_epoch: i64, epoch: usize) -> (r: bool)
    ensures
        r == (row_epoch == epoch),
{
    row_epoch >= 0 && row_epoch as u64 == epoch as u64
}

impl Store {
    pub(crate) fn claimed_by_other(&self, repo_id: &str, id: &str) -> (r: bool)
        ensures
            r == any(self@.runs, active_other(repo_id@, id@)),
    {
        let holds_claim = |row: &RunRow| -> (b: bool)
            ensures
                b == active_other(repo_id@, id@)(row@),
            {
                same_text(row.run.repo_id.as_str(), repo_id) && row.run.status.is_active()
                    && !same_text(row.run.id.as_str(), id)
            };
        find_row(&self.tables.runs, holds_claim, Ghost(active_other(repo_id@, id@))).is_some()
    }

    fn launch_index(&self, run_id: &str, epoch: usize) -> (r: Option<usize>)
        ensures
            match r {
                Some(i) => i < self.tables.launches.len() && self@.launch(run_id@, epoch) == Some(
                    self.tables.launches@[i as int]@,
                ) && any(self@.launches, launch_at(run_id@, epoch)),
                None => self@.launch(run_id@, epoch) is None && !any(
                    self@.launches,
                    launch_at(run_id@, epoch),
                ),
            },
    {
        let at = |row: &RunLaunchIntent| -> (b: bool)
            ensures
                b == launch_at(run_id@, epoch)(row@),
            { same_text(row.run_id.as_str(), run_id) && row.execution_epoch == epoch };
        find_row(&self.tables.launches, at, Ghost(launch_at(run_id@, epoch)))
    }

    pub(crate) fn active_run_for_repo(&self, repo_id: &str, exclude: Option<&str>) -> (r: Option<
        Run,
    >)
        ensures
            r.deep_view() == self@.active_run_for_repo(repo_id@, opt_str(exclude)),
    {
        let holds_claim = |row: &RunRow| -> (b: bool)
            ensures
                b == claims(repo_id@, opt_str(exclude))(row@),
            {
                same_text(row.run.repo_id.as_str(), repo_id) && row.run.status.is_active()
                    && match exclude {
                    Some(id) => !same_text(row.run.id.as_str(), id),
                    None => true,
                }
            };
        let found = select_rows(&self.tables.runs, holds_claim, Ghost(claims(repo_id@, opt_str(exclude))));
        let later = |a: &RunRow, b: &RunRow| -> (lt: bool)
            ensures
                lt == latest_updated()(a@, b@),
            {
                b.run.updated_at.earlier(&a.run.updated_at) || (a.run.updated_at
                    == b.run.updated_at && text_before(b.run.id.as_str(), a.run.id.as_str()))
            };
        let sorted = order_rows(found, later, Ghost(latest_updated()));
        if sorted.len() > 0 {
            assert(sorted.deep_view()[0] == sorted@[0]@);
            Some(sorted[0].run.dup())
        } else {
            None
        }
    }

    /// Adds a run. A repository has one active run.
    pub fn insert_run(&mut self, run: &Run) -> (r: Result<(), StoreError>)
        requires
            old(self)@.valid(),
            run@.started_at.writable(),
            run@.updated_at.writable(),
        ensures
            final(self)@.valid(),
            old(self)@.one_active_run() ==> final(self)@.one_active_run(),
            match old(self)@.insert_run_refusal(run@) {
                Some(error) => r == Err::<(), StoreError>(error) && final(self)@ == old(self)@,
                None => r is Ok && final(self)@ == old(self)@.with_run(run@, None, None),
            },
    {
        if run.status.is_active() && self.claimed_by_other(run.repo_id.as_str(), run.id.as_str()) {
            return Err(StoreError::ActiveRunExists);
        }
        if self.run_index(run.id.as_str()).is_some() {
            return Err(StoreError::RunExists);
        }
        self.push_run(run, None, None);
        Ok(())
    }

    fn push_run(
        &mut self,
        run: &Run,
        mission_envelope: Option<MissionEnvelope>,
        frontier_budget: Option<FrontierBudgetState>,
    )
        requires
            old(self)@.valid(),
            !any(old(self)@.runs, run_has_id(run@.id)),
            run@.status.active() ==> !any(old(self)@.runs, active_other(run@.repo_id, run@.id)),
        ensures
            final(self)@.valid(),
            old(self)@.one_active_run() ==> final(self)@.one_active_run(),
            final(self)@ == old(self)@.with_run(
                run@,
                mission_envelope.deep_view(),
                frontier_budget.deep_view(),
            ),
    {
        let row = RunRow { run: run.dup(), execution_epoch: 1, mission_envelope, frontier_budget };
        proof {
            lemma_unique_push(self@.runs, run_key(), row@, run_has_id(run@.id));
            lemma_one_active_push(self@, row@);
        }
        push_row(&mut self.tables.runs, row);
    }

    /// Admits a run to its repository and prepares its launch, unless the repository has an active run,
    /// which is then named.
    pub fn admit_run(
        &mut self,
        run: &Run,
        slice_runs: &Vec<SliceRun>,
        mission_envelope: Option<&MissionEnvelope>,
        frontier_budget: Option<&FrontierBudgetState>,
        integration_worktree: &str,
    ) -> (r: Result<RunAdmissionTransition, StoreError>)
        requires
            old(self)@.valid(),
            run@.started_at.writable(),
            run@.updated_at.writable(),
        ensures
            final(self)@.valid(),
            old(self)@.one_active_run() ==> final(self)@.one_active_run(),
            match old(self)@.admit_run_refusal(run@) {
                Some(error) => r == Err::<RunAdmissionTransition, StoreError>(error)
                    && final(self)@ == old(self)@,
                None => res(r) == Ok::<RunAdmissionTransitionModel, StoreError>(
                    old(self)@.admit_run_answer(run@, integration_worktree@),
                ) && final(self)@ == old(self)@.admit_run(
                    run@,
                    slice_runs.deep_view(),
                    mission_envelope.deep_view(),
                    frontier_budget.deep_view(),
                    integration_worktree@,
                ),
            },
    {
        if run.status != RunStatus::Pending {
            return Err(StoreError::AdmissionRequiresPending);
        }
        let active = self.active_run_for_repo(run.repo_id.as_str(), None);
        if let Some(active_run) = active {
            return Ok(
                RunAdmissionTransition {
                    outcome: RunAdmissionOutcome::Conflict,
                    intent: None,
                    active_run: Some(active_run),
                },
            );
        }
        if self.run_index(run.id.as_str()).is_some() {
            return Err(StoreError::RunExists);
        }
        if self.launch_index(run.id.as_str(), 1).is_some() {
            return Err(StoreError::LaunchExists);
        }
        if !self.has_room(1) {
            return Err(StoreError::EventLogFull);
        }
        proof {
            lemma_unclaimed(self@, run@.repo_id, None, run@.id);
        }
        let envelope: Option<MissionEnvelope> = match mission_envelope {
            Some(envelope) => Some(envelope.dup()),
            None => None,
        };
        let budget: Option<FrontierBudgetState> = match frontier_budget {
            Some(budget) => Some(budget.dup()),
            None => None,
        };
        self.push_run(run, envelope, budget);
        let ghost added = self@;
        self.put_slices(slice_runs);
        let intent = RunLaunchIntent {
            run_id: run.id.dup(),
            execution_epoch: 1,
            action: RunLaunchAction::Start,
            state: RunLaunchState::Prepared,
            repo_id: run.repo_id.dup(),
            integration_branch: run.integration_branch.dup(),
            integration_worktree: integration_worktree.to_owned(),
            integration_resources_owned: false,
            prior_status: None,
            prior_error: String::new(),
            primary_cause: String::new(),
            compensation_error: String::new(),
            created_at: run.started_at,
            updated_at: run.updated_at,
        };
        proof {
            lemma_slices_only(added, slice_runs.deep_view());
            lemma_unique_push(self@.launches, launch_key(), intent@, launch_at(run@.id, 1));
        }
        self.push_launch(&intent);
        self.append_event(
            run.id.as_str(),
            "run_launch_prepared",
            EventPayload::RunLaunch(intent.dup()),
            run.updated_at,
        );
        Ok(
            RunAdmissionTransition {
                outcome: RunAdmissionOutcome::Prepared,
                intent: Some(intent),
                active_run: None,
            },
        )
    }

    fn push_launch(&mut self, intent: &RunLaunchIntent)
        requires
            old(self)@.valid(),
            unique(old(self)@.launches.push(intent@), launch_key()),
            old(self)@.room(1),
        ensures
            final(self)@ == (TablesModel {
                launches: old(self)@.launches.push(intent@),
                ..old(self)@
            }),
            final(self)@.valid(),
            final(self)@.room(1),
            old(self)@.one_active_run() ==> final(self)@.one_active_run(),
    {
        push_row(&mut self.tables.launches, intent.dup());
    }

    /// Opens a run for its next epoch and prepares that launch, unless its status does not allow it or
    /// another run of its repository is active.
    pub fn begin_resume_run_launch(
        &mut self,
        run_id: &str,
        integration_worktree: &str,
        now: Timestamp,
    ) -> (r: Result<RunAdmissionTransition, StoreError>)
        requires
            old(self)@.valid(),
            now.writable(),
        ensures
            final(self)@.valid(),
            old(self)@.one_active_run() ==> final(self)@.one_active_run(),
            match old(self)@.begin_resume_refusal(run_id@) {
                Some(error) => r == Err::<RunAdmissionTransition, StoreError>(error)
                    && final(self)@ == old(self)@,
                None => res(r) == Ok::<RunAdmissionTransitionModel, StoreError>(
                    old(self)@.begin_resume_answer(run_id@, integration_worktree@, now),
                ) && final(self)@ == old(self)@.begin_resume(run_id@, integration_worktree@, now),
            },
    {
        let index = match self.run_index(run_id) {
            Some(index) => index,
            None => {
                return Err(StoreError::RunNotFound);
            },
        };
        let row = self.tables.runs[index].dup();
        let resumable = matches!(
            row.run.status,
            RunStatus::Interrupted | RunStatus::Failed | RunStatus::Cancelled | RunStatus::Blocked
        );
        if !resumable {
            let active_run = if row.run.status.is_active() {
                Some(row.run)
            } else {
                None
            };
            return Ok(
                RunAdmissionTransition {
                    outcome: RunAdmissionOutcome::Conflict,
                    intent: None,
                    active_run,
                },
            );
        }
        let of_run = |row: &TerminalRow| -> (b: bool)
            ensures
                b == terminal_of(run_id@)(row@),
            { same_text(row.run_id.as_str(), run_id) };
        let terminal = find_row(&self.tables.terminals, of_run, Ghost(terminal_of(run_id@)));
        if let Some(i) = terminal {
            if self.tables.terminals[i].committed_at.is_not_made() {
                return Err(StoreError::IncompleteTerminalization);
            }
        }
        let active = self.active_run_for_repo(row.run.repo_id.as_str(), Some(run_id));
        if let Some(active_run) = active {
            return Ok(
                RunAdmissionTransition {
                    outcome: RunAdmissionOutcome::Conflict,
                    intent: None,
                    active_run: Some(active_run),
                },
            );
        }
        let previous: i64 = if row.execution_epoch < 1 {
            1
        } else {
            row.execution_epoch
        };
        if previous == i64::MAX {
            return Err(StoreError::CounterExhausted);
        }
        let epoch: i64 = previous + 1;
        if epoch as u64 > usize::MAX as u64 {
            return Err(StoreError::CounterExhausted);
        }
        let execution_epoch: usize = epoch as usize;
        if self.launch_index(run_id, execution_epoch).is_some() {
            return Err(StoreError::LaunchExists);
        }
        if !self.has_room(1) {
            return Err(StoreError::EventLogFull);
        }
        let intent = RunLaunchIntent {
            run_id: row.run.id.dup(),
            execution_epoch,
            action: RunLaunchAction::Resume,
            state: RunLaunchState::Prepared,
            repo_id: row.run.repo_id.dup(),
            integration_branch: row.run.integration_branch.dup(),
            integration_worktree: integration_worktree.to_owned(),
            integration_resources_owned: false,
            prior_status: Some(row.run.status),
            prior_error: row.run.error.dup(),
            primary_cause: String::new(),
            compensation_error: String::new(),
            created_at: now,
            updated_at: now,
        };
        let reopen = |row: &RunRow| -> (out: Option<RunRow>)
            ensures
                match out {
                    Some(m) => m@ == reopened(run_id@, epoch, now)(row@),
                    None => reopened(run_id@, epoch, now)(row@) == row@,
                },
            {
                if same_text(row.run.id.as_str(), run_id) {
                    let mut m = row.dup();
                    m.run.status = RunStatus::Pending;
                    m.run.error = String::new();
                    m.run.updated_at = now;
                    m.execution_epoch = epoch;
                    assert(m@ =~= reopened(run_id@, epoch, now)(row@));
                    Some(m)
                } else {
                    None
                }
            };
        proof {
            let g = reopened(run_id@, epoch, now);
            lemma_unclaimed(self@, row@.run.repo_id, Some(run_id@), run_id@);
            lemma_first_any(self@.runs, run_has_id(run_id@));
            lemma_unique_map(self@.runs, run_key(), g);
            lemma_one_active_raised(self@, g, row@);
            lemma_unique_select(self@.terminals, terminal_key(), terminal_of_other(run_id@));
            lemma_unique_push(
                self@.launches,
                launch_key(),
                intent@,
                launch_at(run_id@, execution_epoch),
            );
        }
        update_rows(&mut self.tables.runs, reopen, Ghost(reopened(run_id@, epoch, now)));
        let of_other = |row: &TerminalRow| -> (b: bool)
            ensures
                b == terminal_of_other(run_id@)(row@),
            { !same_text(row.run_id.as_str(), run_id) };
        self.tables.terminals = select_rows(
            &self.tables.terminals,
            of_other,
            Ghost(terminal_of_other(run_id@)),
        );
        self.push_launch(&intent);
        self.append_event(
            run_id,
            "run_launch_prepared",
            EventPayload::RunLaunch(intent.dup()),
            now,
        );
        Ok(
            RunAdmissionTransition {
                outcome: RunAdmissionOutcome::Prepared,
                intent: Some(intent),
                active_run: None,
            },
        )
    }

    fn replace_launch(&mut self, run_id: &str, epoch: usize, after: &RunLaunchIntent)
        requires
            old(self)@.valid(),
            after@.run_id == run_id@,
            after@.execution_epoch == epoch,
        ensures
            final(self)@ == (TablesModel {
                launches: old(self)@.launches.map_values(
                    launch_replaced(run_id@, epoch, after@),
                ),
                ..old(self)@
            }),
            final(self)@.valid(),
            old(self)@.one_active_run() ==> final(self)@.one_active_run(),
    {
        let replace = |row: &RunLaunchIntent| -> (out: Option<RunLaunchIntent>)
            ensures
                match out {
                    Some(m) => m@ == launch_replaced(run_id@, epoch, after@)(row@),
                    None => launch_replaced(run_id@, epoch, after@)(row@) == row@,
                },
            {
                if same_text(row.run_id.as_str(), run_id) && row.execution_epoch == epoch {
                    Some(after.dup())
                } else {
                    None
                }
            };
        proof {
            lemma_unique_map(
                self@.launches,
                launch_key(),
                launch_replaced(run_id@, epoch, after@),
            );
        }
        update_rows(
            &mut self.tables.launches,
            replace,
            Ghost(launch_replaced(run_id@, epoch, after@)),
        );
    }

    /// Resumes a run and lets it work at once. Where the second step is refused the first one
    /// stays.
    pub fn reopen_run_for_resume(&mut self, run_id: &str, now: Timestamp) -> (r: Result<
        usize,
        StoreError,
    >)
        requires
            old(self)@.valid(),
            now.writable(),
        ensures
            final(self)@.valid(),
            old(self)@.one_active_run() ==> final(self)@.one_active_run(),
            (r, final(self)@) == old(self)@.reopen(run_id@, now),
    {
        let transition = match self.begin_resume_run_launch(run_id, "", now) {
            Ok(transition) => transition,
            Err(error) => {
                return Err(error);
            },
        };
        if transition.outcome != RunAdmissionOutcome::Prepared {
            return Err(StoreError::ResumeNotAdmitted);
        }
        let epoch: usize = match &transition.intent {
            Some(intent) => intent.execution_epoch,
            None => {
                return Err(StoreError::AdmissionLost);
            },
        };
        match self.activate_run_launch(run_id, epoch, now) {
            Ok(()) => Ok(epoch),
            Err(error) => Err(error),
        }
    }

    /// Sets the run of a prepared launch running.
    pub fn activate_run_launch(
        &mut self,
        run_id: &str,
        execution_epoch: usize,
        now: Timestamp,
    ) -> (r: Result<(), StoreError>)
        requires
            old(self)@.valid(),
            now.writable(),
        ensures
            final(self)@.valid(),
            old(self)@.one_active_run() ==> final(self)@.one_active_run(),
            match old(self)@.transition_launch_refusal(
                run_id@,
                execution_epoch,
                RunLaunchState::Prepared,
                RunLaunchState::Activated,
                true,
            ) {
                Some(error) => r == Err::<(), StoreError>(error) && final(self)@ == old(self)@,
                None => r is Ok && final(self)@ == old(self)@.transition_launch(
                    run_id@,
                    execution_epoch,
                    RunLaunchState::Activated,
                    true,
                    now,
                ),
            },
            match old(self)@.launch_activated(run_id@, execution_epoch, now) {
                Err(error) => r == Err::<(), StoreError>(error) && final(self)@ == old(self)@,
                Ok(after) => r is Ok && final(self)@ == after,
            },
    {
        self.transition_run_launch(
            run_id,
            execution_epoch,
            RunLaunchState::Prepared,
            RunLaunchState::Activated,
            true,
            now,
        )
    }

    /// Records that a launch has done its work.
    pub fn complete_run_launch(
        &mut self,
        run_id: &str,
        execution_epoch: usize,
        now: Timestamp,
    ) -> (r: Result<(), StoreError>)
        requires
            old(self)@.valid(),
            now.writable(),
        ensures
            final(self)@.valid(),
            old(self)@.one_active_run() ==> final(self)@.one_active_run(),
            match old(self)@.transition_launch_refusal(
                run_id@,
                execution_epoch,
                RunLaunchState::Activated,
                RunLaunchState::Completed,
                false,
            ) {
                Some(error) => r == Err::<(), StoreError>(error) && final(self)@ == old(self)@,
                None => r is Ok && final(self)@ == old(self)@.transition_launch(
                    run_id@,
                    execution_epoch,
                    RunLaunchState::Completed,
                    false,
                    now,
                ),
            },
            match old(self)@.launch_completed(run_id@, execution_epoch, now) {
                Err(error) => r == Err::<(), StoreError>(error) && final(self)@ == old(self)@,
                Ok(after) => r is Ok && final(self)@ == after,
            },
    {
        self.transition_run_launch(
            run_id,
            execution_epoch,
            RunLaunchState::Activated,
            RunLaunchState::Completed,
            false,
            now,
        )
    }

    fn transition_run_launch(
        &mut self,
        run_id: &str,
        execution_epoch: usize,
        expected: RunLaunchState,
        target: RunLaunchState,
        activate_run: bool,
        now: Timestamp,
    ) -> (r: Result<(), StoreError>)
        requires
            old(self)@.valid(),
        ensures
            final(self)@.valid(),
            old(self)@.one_active_run() ==> final(self)@.one_active_run(),
            match old(self)@.transition_launch_refusal(
                run_id@,
                execution_epoch,
                expected,
                target,
                activate_run,
            ) {
                Some(error) => r == Err::<(), StoreError>(error) && final(self)@ == old(self)@,
                None => r is Ok && final(self)@ == old(self)@.transition_launch(
                    run_id@,
                    execution_epoch,
                    target,
                    activate_run,
                    now,
                ),
            },
    {
        let index = match self.launch_index(run_id, execution_epoch) {
            Some(index) => index,
            None => {
                return Err(StoreError::LaunchNotFound);
            },
        };
        let mut intent = self.tables.launches[index].dup();
        if intent.state == target {
            return Ok(());
        }
        if intent.state != expected {
            return Err(StoreError::UnexpectedLaunchState);
        }
        if activate_run {
            let pending = |row: &RunRow| -> (b: bool)
                ensures
                    b == pending_at(run_id@, execution_epoch)(row@),
                {
                    same_text(row.run.id.as_str(), run_id) && same_epoch(
                        row.execution_epoch,
                        execution_epoch,
                    ) && row.run.status == RunStatus::Pending
                };
            let waiting = match find_row(
                &self.tables.runs,
                pending,
                Ghost(pending_at(run_id@, execution_epoch)),
            ) {
                Some(i) => i,
                None => {
                    return Err(StoreError::RunNotPending);
                },
            };
            if self.claimed_by_other(self.tables.runs[waiting].run.repo_id.as_str(), run_id) {
                return Err(StoreError::ActiveRunExists);
            }
        }
        if !self.has_room(1) {
            return Err(StoreError::EventLogFull);
        }
        proof {
            lemma_first_any(self@.launches, launch_at(run_id@, execution_epoch));
        }
        if activate_run {
            let activate = |row: &RunRow| -> (out: Option<RunRow>)
                ensures
                    match out {
                        Some(m) => m@ == activated(run_id@, execution_epoch, now)(row@),
                        None => activated(run_id@, execution_epoch, now)(row@) == row@,
                    },
                {
                    if same_text(row.run.id.as_str(), run_id) && same_epoch(
                        row.execution_epoch,
                        execution_epoch,
                    ) && row.run.status == RunStatus::Pending {
                        let mut m = row.dup();
                        m.run.status = RunStatus::Running;
                        m.run.updated_at = now;
                        Some(m)
                    } else {
                        None
                    }
                };
            proof {
                let g = activated(run_id@, execution_epoch, now);
                lemma_unique_map(self@.runs, run_key(), g);
                lemma_one_active_kept(self@, g);
            }
            update_rows(
                &mut self.tables.runs,
                activate,
                Ghost(activated(run_id@, execution_epoch, now)),
            );
        }
        intent.state = target;
        intent.updated_at = now;
        self.replace_launch(run_id, execution_epoch, &intent);
        let typ: &str = match target {
            RunLaunchState::Activated => "run_launch_activated",
            RunLaunchState::Completed => "run_launch_completed",
            _ => "run_launch_transitioned",
        };
        self.append_event(run_id, typ, EventPayload::RunLaunch(intent), now);
        Ok(())
    }

    /// Records that a launch owns its integration branch and worktree. False: it did already.
    pub fn record_run_launch_integration_resources_created(
        &mut self,
        run_id: &str,
        execution_epoch: usize,
        now: Timestamp,
    ) -> (r: Result<bool, StoreError>)
        requires
            old(self)@.valid(),
            now.writable(),
        ensures
            final(self)@.valid(),
            old(self)@.one_active_run() ==> final(self)@.one_active_run(),
            match old(self)@.claim_resources_refusal(run_id@, execution_epoch) {
                Some(error) => r == Err::<bool, StoreError>(error) && final(self)@ == old(self)@,
                None => r == Ok::<bool, StoreError>(
                    !old(self)@.launch(run_id@, execution_epoch)->0.integration_resources_owned,
                ) && final(self)@ == old(self)@.claim_resources(run_id@, execution_epoch, now),
            },
    {
        let index = match self.launch_index(run_id, execution_epoch) {
            Some(index) => index,
            None => {
                return Err(StoreError::LaunchNotFound);
            },
        };
        let mut intent = self.tables.launches[index].dup();
        if intent.action != RunLaunchAction::Start {
            return Err(StoreError::ResumeOwnsNoResources);
        }
        if intent.integration_resources_owned {
            return Ok(false);
        }
        if intent.state != RunLaunchState::Activated {
            return Err(StoreError::UnexpectedLaunchState);
        }
        if !self.has_room(1) {
            return Err(StoreError::EventLogFull);
        }
        proof {
            lemma_first_any(self@.launches, launch_at(run_id@, execution_epoch));
        }
        intent.integration_resources_owned = true;
        intent.updated_at = now;
        self.replace_launch(run_id, execution_epoch, &intent);
        self.append_event(
            run_id,
            "run_launch_integration_resources_created",
            EventPayload::RunLaunch(intent),
            now,
        );
        Ok(true)
    }

    /// Records that a launch failed and sets its run back. False: that is on record, or there is no
    /// such launch.
    pub fn fail_run_launch(
        &mut self,
        run_id: &str,
        execution_epoch: usize,
        primary_cause: &str,
        compensation_error: &str,
        now: Timestamp,
    ) -> (r: Result<bool, StoreError>)
        requires
            old(self)@.valid(),
            now.writable(),
        ensures
            final(self)@.valid(),
            old(self)@.one_active_run() ==> final(self)@.one_active_run(),
            match old(self)@.fail_launch_refusal(
                run_id@,
                execution_epoch,
                primary_cause@,
                compensation_error@,
            ) {
                Some(error) => r == Err::<bool, StoreError>(error) && final(self)@ == old(self)@,
                None => r == Ok::<bool, StoreError>(
                    old(self)@.fail_launch_answer(run_id@, execution_epoch),
                ) && final(self)@ == old(self)@.fail_launch(
                    run_id@,
                    execution_epoch,
                    primary_cause@,
                    compensation_error@,
                    now,
                ),
            },
    {
        let index = match self.launch_index(run_id, execution_epoch) {
            Some(index) => index,
            None => {
                return Ok(false);
            },
        };
        let mut intent = self.tables.launches[index].dup();
        if !intent.state.is_incomplete() {
            if intent.state == RunLaunchState::Failed && same_text(
                intent.primary_cause.as_str(),
                primary_cause,
            ) && same_text(intent.compensation_error.as_str(), compensation_error) {
                return Ok(false);
            }
            return Err(StoreError::UnexpectedLaunchState);
        }
        let fallback: (RunStatus, String) = match intent.action {
            RunLaunchAction::Start => (RunStatus::Failed, primary_cause.to_owned()),
            RunLaunchAction::Resume => match intent.prior_status {
                Some(status) => (status, intent.prior_error.dup()),
                None => {
                    return Err(StoreError::PriorStatusLost);
                },
            },
        };
        let status: RunStatus = fallback.0;
        let error: String = fallback.1;
        let ended = |row: &RunRow| -> (b: bool)
            ensures
                b == active_at(run_id@, execution_epoch)(row@),
            {
                same_text(row.run.id.as_str(), run_id) && same_epoch(
                    row.execution_epoch,
                    execution_epoch,
                ) && row.run.status.is_active()
            };
        let found = find_row(
            &self.tables.runs,
            ended,
            Ghost(active_at(run_id@, execution_epoch)),
        );
        if status.is_active() {
            if let Some(i) = found {
                if self.claimed_by_other(self.tables.runs[i].run.repo_id.as_str(), run_id) {
                    return Err(StoreError::ActiveRunExists);
                }
            }
        }
        if !self.has_room(1) {
            return Err(StoreError::EventLogFull);
        }
        proof {
            lemma_first_any(self@.launches, launch_at(run_id@, execution_epoch));
        }
        let end = |row: &RunRow| -> (out: Option<RunRow>)
            ensures
                match out {
                    Some(m) => m@ == launch_ended(run_id@, execution_epoch, status, error@, now)(
                        row@,
                    ),
                    None => launch_ended(run_id@, execution_epoch, status, error@, now)(row@)
                        == row@,
                },
            {
                if same_text(row.run.id.as_str(), run_id) && same_epoch(
                    row.execution_epoch,
                    execution_epoch,
                ) && row.run.status.is_active() {
                    let mut m = row.dup();
                    m.run.status = status;
                    m.run.error = error.dup();
                    m.run.updated_at = now;
                    Some(m)
                } else {
                    None
                }
            };
        proof {
            let g = launch_ended(run_id@, execution_epoch, status, error@, now);
            lemma_unique_map(self@.runs, run_key(), g);
            lemma_one_active_kept(self@, g);
        }
        update_rows(
            &mut self.tables.runs,
            end,
            Ghost(launch_ended(run_id@, execution_epoch, status, error@, now)),
        );
        intent.state = RunLaunchState::Failed;
        intent.primary_cause = primary_cause.to_owned();
        intent.compensation_error = compensation_error.to_owned();
        intent.updated_at = now;
        self.replace_launch(run_id, execution_epoch, &intent);
        self.append_event(run_id, "run_launch_failed", EventPayload::RunLaunch(intent), now);
        Ok(true)
    }

    /// Records whether the resources of a failed launch could be given back. False: that is on record.
    pub fn record_run_launch_compensation(
        &mut self,
        run_id: &str,
        execution_epoch: usize,
        compensation_error: &str,
        now: Timestamp,
    ) -> (r: Result<bool, StoreError>)
        requires
            old(self)@.valid(),
            now.writable(),
        ensures
            final(self)@.valid(),
            old(self)@.one_active_run() ==> final(self)@.one_active_run(),
            match old(self)@.compensation_refusal(run_id@, execution_epoch, compensation_error@) {
                Some(error) => r == Err::<bool, StoreError>(error) && final(self)@ == old(self)@,
                None => r == Ok::<bool, StoreError>(
                    old(self)@.compensation_answer(run_id@, execution_epoch, compensation_error@),
                ) && final(self)@ == old(self)@.record_compensation(
                    run_id@,
                    execution_epoch,
                    compensation_error@,
                    now,
                ),
            },
    {
        let index = match self.launch_index(run_id, execution_epoch) {
            Some(index) => index,
            None => {
                return Err(StoreError::LaunchNotFound);
            },
        };
        let mut intent = self.tables.launches[index].dup();
        if intent.action != RunLaunchAction::Start {
            return Err(StoreError::ResumeOwnsNoResources);
        }
        let target: RunLaunchState = if compensation_error.is_empty() {
            RunLaunchState::Compensated
        } else {
            RunLaunchState::RecoveryRequired
        };
        if intent.state == target && same_text(
            intent.compensation_error.as_str(),
            compensation_error,
        ) {
            return Ok(false);
        }
        if !matches!(
            intent.state,
            RunLaunchState::Interrupted | RunLaunchState::Failed | RunLaunchState::RecoveryRequired
        ) {
            return Err(StoreError::UnexpectedLaunchState);
        }
        if !self.has_room(1) {
            return Err(StoreError::EventLogFull);
        }
        proof {
            lemma_first_any(self@.launches, launch_at(run_id@, execution_epoch));
        }
        intent.state = target;
        intent.compensation_error = compensation_error.to_owned();
        intent.updated_at = now;
        self.replace_launch(run_id, execution_epoch, &intent);
        let typ: &str = if target == RunLaunchState::Compensated {
            "run_launch_compensated"
        } else {
            "run_launch_compensation_failed"
        };
        self.append_event(run_id, typ, EventPayload::RunLaunch(intent), now);
        Ok(true)
    }

    /// The launch of a run in an epoch.
    pub fn run_launch_intent(&self, run_id: &str, execution_epoch: usize) -> (r: Result<
        Option<RunLaunchIntent>,
        StoreError,
    >)
        ensures
            res(r) == Ok::<Option<RunLaunchIntentModel>, StoreError>(
                self@.launch(run_id@, execution_epoch),
            ),
    {
        match self.launch_index(run_id, execution_epoch) {
            Some(index) => Ok(Some(self.tables.launches[index].dup())),
            None => Ok(None),
        }
    }

    /// The launches that are neither done nor given up.
    pub fn incomplete_run_launch_intents(&self) -> (r: Result<Vec<RunLaunchIntent>, StoreError>)
        ensures
            res(r) == Ok::<Seq<RunLaunchIntentModel>, StoreError>(
                self@.launches_in_states(
                    seq![RunLaunchState::Prepared, RunLaunchState::Activated],
                ),
            ),
            res(r) == Ok::<Seq<RunLaunchIntentModel>, StoreError>(self@.launches_under_way()),
    {
        let states = vec![RunLaunchState::Prepared, RunLaunchState::Activated];
        assert(states@ =~= seq![RunLaunchState::Prepared, RunLaunchState::Activated]);
        Ok(self.run_launch_intents_in_states(&states))
    }

    /// The launches whose resources are still to be given back.
    pub fn run_launch_intents_requiring_compensation(&self) -> (r: Result<
        Vec<RunLaunchIntent>,
        StoreError,
    >)
        ensures
            res(r) == Ok::<Seq<RunLaunchIntentModel>, StoreError>(
                self@.launches_in_states(
                    seq![
                        RunLaunchState::Interrupted,
                        RunLaunchState::Failed,
                        RunLaunchState::RecoveryRequired,
                    ],
                ),
            ),
            res(r) == Ok::<Seq<RunLaunchIntentModel>, StoreError>(self@.launches_to_compensate()),
    {
        let states = vec![
            RunLaunchState::Interrupted,
            RunLaunchState::Failed,
            RunLaunchState::RecoveryRequired,
        ];
        assert(states@ =~= seq![
            RunLaunchState::Interrupted,
            RunLaunchState::Failed,
            RunLaunchState::RecoveryRequired,
        ]);
        Ok(self.run_launch_intents_in_states(&states))
    }

    fn run_launch_intents_in_states(&self, states: &Vec<RunLaunchState>) -> (r: Vec<
        RunLaunchIntent,
    >)
        ensures
            r.deep_view() == self@.launches_in_states(states@),
    {
        let in_states = |row: &RunLaunchIntent| -> (b: bool)
            ensures
                b == launch_in_states(states@)(row@),
            { state_in(states, row.state) };
        let found = select_rows(
            &self.tables.launches,
            in_states,
            Ghost(launch_in_states(states@)),
        );
        let before = |a: &RunLaunchIntent, b: &RunLaunchIntent| -> (lt: bool)
            ensures
                lt == launch_order()(a@, b@),
            {
                a.created_at.earlier(&b.created_at) || (a.created_at == b.created_at && (
                text_before(a.run_id.as_str(), b.run_id.as_str()) || (same_text(
                    a.run_id.as_str(),
                    b.run_id.as_str(),
                ) && a.execution_epoch < b.execution_epoch)))
            };
        order_rows(found, before, Ghost(launch_order()))
    }
}

/// Where no run holds the claim, no other run is active.
proof fn lemma_unclaimed(
    s: TablesModel,
    repo_id: Seq<char>,
    exclude: Option<Seq<char>>,
    id: Seq<char>,
)
    requires
        s.active_run_for_repo(repo_id, exclude) is None,
        exclude == None::<Seq<char>> || exclude == Some(id),
    ensures
        !any(s.runs, active_other(repo_id, id)),
{
    let p = claims(repo_id, exclude);
    lemma_ordered_len(select(s.runs, p), latest_updated());
    lemma_select_any(s.runs, p);
    if any(s.runs, active_other(repo_id, id)) {
        let i = choose|i: int|
            0 <= i < s.runs.len() && active_other(repo_id, id)(#[trigger] s.runs[i]);
        assert(p(s.runs[i]));
    }
}

/// Setting slices touches no other table.
proof fn lemma_slices_only(s: TablesModel, slices: Seq<SliceRunModel>)
    ensures
        s.with_slices(slices) == (TablesModel { slices: s.with_slices(slices).slices, ..s }),
    decreases slices.len(),
{
    if slices.len() > 0 {
        lemma_slices_only(s, slices.drop_last());
    }
}

} // verus!
