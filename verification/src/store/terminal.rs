//! The end of a run: a durable intent, the summary, the published state, the notification and the
//! cleanup, each at most once and in this order.
use super::launches::terminal_of;
use super::progress::fresh_progress;
use super::questions::{asked_order, pending_of};
use super::runs::run_set;
use super::{
    launch_key, lemma_unique_map, lemma_unique_push, question_key, res, slice_key, terminal_key,
    Store,
};
use crate::domain::{
    RunLaunchIntent, RunLaunchIntentModel, RunLaunchState, RunStatus, SliceRun, SliceRunModel,
    SliceStatus, TerminalTransition, TerminalTransitionModel, WorkerQuestionModel,
};
use crate::error::StoreError;
use crate::payloads::{
    EventPayload, EventPayloadModel, RunLaunchInterruptedPayload, RunLaunchInterruptedPayloadModel,
    TerminalTransitionIntendedPayload, TerminalTransitionIntendedPayloadModel,
    WorkerQuestionInterruptedPayload, WorkerQuestionInterruptedPayloadModel,
};
use crate::rows::{
    ProgressRow, QuestionRow, QuestionRowModel, StepMark, StepMarkModel, TablesModel, TerminalRow,
    TerminalRowModel, WorkerObservation,
};
use crate::table::{
    any, find_row, first, order_rows, ordered, project_rows, push_row, select, select_rows,
    update_rows, Row,
};
use crate::text::{blank, is_blank, same_text, text_before, text_lt};
use crate::time::Timestamp;
use vstd::prelude::*;

verus! {

/// What a recorded terminal intent says.
pub open spec fn intent_of(row: TerminalRowModel) -> TerminalTransitionModel {
    TerminalTransitionModel {
        status: row.status,
        error: row.error,
        progress_message: row.progress_message,
        question_interruption_reason: row.question_interruption_reason,
        summary_written: row.summary_written_at is Made,
        committed: row.committed_at is Made,
    }
}

/// Whether some step of the end of a run left no mark at all.
pub open spec fn unreconciled() -> spec_fn(TerminalRowModel) -> bool {
    |row: TerminalRowModel|
        row.committed_at is NotMade || row.notification_bookkept_at is NotMade || (
        row.cleanup_started_at is NotMade && row.cleanup_completed_at is NotMade)
}

/// Whether an end still has steps to make; a blank mark stands for none.
pub open spec fn has_steps_to_make(row: TerminalRowModel) -> bool {
    row.committed_at !is Made || row.notification_bookkept_at !is Made || (row.cleanup_started_at
        !is Made && row.cleanup_completed_at !is Made)
}

pub open spec fn intended_order() -> spec_fn(TerminalRowModel, TerminalRowModel) -> bool {
    |a: TerminalRowModel, b: TerminalRowModel|
        text_lt(a.intended_at, b.intended_at) || (a.intended_at == b.intended_at && text_lt(
            a.run_id,
            b.run_id,
        ))
}

pub open spec fn terminal_run_id() -> spec_fn(TerminalRowModel) -> Seq<char> {
    |row: TerminalRowModel| row.run_id
}

pub open spec fn terminal_replaced(run_id: Seq<char>, new_row: TerminalRowModel) -> spec_fn(
    TerminalRowModel,
) -> TerminalRowModel {
    |row: TerminalRowModel|
        if row.run_id == run_id {
            new_row
        } else {
            row
        }
}

/// A pending question of a run that ends.
pub open spec fn ended_question(run_id: Seq<char>, reason: Seq<char>, now: Timestamp) -> spec_fn(
    QuestionRowModel,
) -> QuestionRowModel {
    |row: QuestionRowModel|
        if pending_of(run_id)(row) {
            QuestionRowModel {
                question: WorkerQuestionModel {
                    state: "interrupted"@,
                    answered_at: Some(now),
                    answer: reason,
                    answer_source: None,
                    ..row.question
                },
                ..row
            }
        } else {
            row
        }
}

pub open spec fn ended_question_event(reason: Seq<char>, status: RunStatus) -> spec_fn(
    QuestionRowModel,
) -> EventPayloadModel {
    |row: QuestionRowModel|
        EventPayloadModel::WorkerQuestionInterrupted(
            WorkerQuestionInterruptedPayloadModel {
                question_id: row.question.id,
                slice_id: row.question.slice_id,
                attempt: row.question.attempt,
                launch_id: None,
                active_attempt: None,
                reason,
                terminal_status: Some(status),
            },
        )
}

/// The status of a slice whose run ends.
pub open spec fn ended_slice_status(status: RunStatus) -> SliceStatus {
    match status {
        RunStatus::Blocked => SliceStatus::Blocked,
        RunStatus::Failed => SliceStatus::Failed,
        RunStatus::Cancelled => SliceStatus::Cancelled,
        _ => SliceStatus::Interrupted,
    }
}

pub open spec fn slice_under_way(status: SliceStatus) -> bool {
    status == SliceStatus::Running || status == SliceStatus::RepairNeeded || status
        == SliceStatus::ReadyToMerge
}

pub open spec fn ended_slice(run_id: Seq<char>, status: SliceStatus, error: Seq<char>) -> spec_fn(
    SliceRunModel,
) -> SliceRunModel {
    |row: SliceRunModel|
        if row.run_id == run_id && slice_under_way(row.status) {
            SliceRunModel { status, last_error: error, ..row }
        } else {
            row
        }
}

/// The error that a slice shows: that of the run, or the reason where the run has none.
pub open spec fn ended_slice_error(error: Seq<char>, reason: Seq<char>) -> Seq<char> {
    if blank(error) {
        reason
    } else {
        error
    }
}

/// A launch of this epoch that has not come to an end.
pub open spec fn open_launch(run_id: Seq<char>, epoch: i64) -> spec_fn(
    RunLaunchIntentModel,
) -> bool {
    |row: RunLaunchIntentModel|
        row.run_id == run_id && row.execution_epoch == epoch && row.state.incomplete()
}

pub open spec fn launch_terminated(
    run_id: Seq<char>,
    epoch: i64,
    state: RunLaunchState,
    cause: Seq<char>,
    now: Timestamp,
) -> spec_fn(RunLaunchIntentModel) -> RunLaunchIntentModel {
    |row: RunLaunchIntentModel|
        if open_launch(run_id, epoch)(row) {
            RunLaunchIntentModel {
                state,
                primary_cause: if row.primary_cause.len() == 0 {
                    cause
                } else {
                    row.primary_cause
                },
                updated_at: now,
                ..row
            }
        } else {
            row
        }
}

pub open spec fn ended_launch_state(status: RunStatus) -> RunLaunchState {
    if status == RunStatus::Failed || status == RunStatus::Blocked {
        RunLaunchState::Failed
    } else {
        RunLaunchState::Interrupted
    }
}

impl TablesModel {
    pub open spec fn terminal_row(self, run_id: Seq<char>) -> Option<TerminalRowModel> {
        first(self.terminals, terminal_of(run_id))
    }

    pub open spec fn terminal_transition(self, run_id: Seq<char>) -> Option<
        TerminalTransitionModel,
    > {
        match self.terminal_row(run_id) {
            Some(row) => Some(intent_of(row)),
            None => None,
        }
    }

    pub open spec fn with_terminal(self, row: TerminalRowModel) -> TablesModel {
        TablesModel {
            terminals: self.terminals.map_values(terminal_replaced(row.run_id, row)),
            ..self
        }
    }

    /// The pending questions of a run in the order in which they were asked.
    pub open spec fn pending_questions(self, run_id: Seq<char>) -> Seq<QuestionRowModel> {
        ordered(select(self.questions, pending_of(run_id)), asked_order())
    }

    /// The intent is recorded, and everything that waits or works in the run is interrupted. The
    /// run itself stays as it is until the end is published.
    pub open spec fn end_run(
        self,
        run_id: Seq<char>,
        status: RunStatus,
        error: Seq<char>,
        progress_message: Seq<char>,
        reason: Seq<char>,
        now: Timestamp,
    ) -> TablesModel {
        let intended = TablesModel {
            terminals: self.terminals.push(
                TerminalRowModel {
                    run_id,
                    status,
                    error,
                    progress_message,
                    question_interruption_reason: reason,
                    intended_at: now.text(),
                    summary_written_at: StepMarkModel::NotMade,
                    committed_at: StepMarkModel::NotMade,
                    notification_bookkept_at: StepMarkModel::NotMade,
                    cleanup_started_at: StepMarkModel::NotMade,
                    cleanup_completed_at: StepMarkModel::NotMade,
                },
            ),
            questions: self.questions.map_values(ended_question(run_id, reason, now)),
            slices: self.slices.map_values(
                ended_slice(
                    run_id,
                    ended_slice_status(status),
                    ended_slice_error(error, reason),
                ),
            ),
            ..self
        };
        intended.with_event(
            run_id,
            "terminal_transition_intended"@,
            EventPayloadModel::TerminalTransitionIntended(
                TerminalTransitionIntendedPayloadModel {
                    status,
                    error,
                    progress_message,
                    question_interruption_reason: reason,
                },
            ),
            now,
        ).with_question_events(
            run_id,
            self.pending_questions(run_id),
            ended_question_event(reason, status),
            now,
        ).interrupt_attempts(run_id, reason, status, now).with_progress(
            fresh_progress(
                run_id,
                status.text(),
                Seq::empty(),
                0,
                Seq::empty(),
                progress_message,
                Seq::empty(),
                now,
                now,
            ),
        )
    }

    /// How many questions the recording of a terminal intent interrupts, and what it leaves.
    ///
    /// The first intent of a run stays: the same intent again changes nothing but the launches that
    /// are still open, and another intent is refused.
    pub open spec fn prepare_terminal(
        self,
        run_id: Seq<char>,
        status: RunStatus,
        error: Seq<char>,
        progress_message: Seq<char>,
        reason: Seq<char>,
        now: Timestamp,
    ) -> Result<(nat, TablesModel), StoreError> {
        if status.active() {
            Err(StoreError::StatusNotTerminal)
        } else {
            match (self.run_row(run_id), self.terminal_row(run_id)) {
                (None, _) => Err(StoreError::RunNotFound),
                (Some(run), Some(intent)) => if intent.status != status || intent.error != error
                    || intent.progress_message != progress_message
                    || intent.question_interruption_reason != reason {
                    Err(StoreError::TerminalIntentConflict)
                } else if !self.room(self.open_attempts(run_id).len() as int) {
                    Err(StoreError::EventLogFull)
                } else {
                    Ok((0, self.interrupt_attempts(run_id, reason, status, now)))
                },
                (Some(run), None) => if !run.run.status.active() {
                    Err(StoreError::RunAlreadyTerminal)
                } else if !self.room(
                    1 + self.pending_questions(run_id).len() as int + self.open_attempts(
                        run_id,
                    ).len(),
                ) {
                    Err(StoreError::EventLogFull)
                } else {
                    Ok(
                        (
                            self.pending_questions(run_id).len(),
                            self.end_run(run_id, status, error, progress_message, reason, now),
                        ),
                    )
                },
            }
        }
    }

    /// The summary of a run is marked once, before its end is published.
    pub open spec fn write_summary(
        self,
        run_id: Seq<char>,
        event_type: Seq<char>,
        payload: EventPayloadModel,
        now: Timestamp,
    ) -> Result<(bool, TablesModel), StoreError> {
        match self.terminal_row(run_id) {
            None => Err(StoreError::TerminalIntentMissing),
            Some(row) => if row.summary_written_at is Made {
                Ok((false, self))
            } else if row.committed_at is Made {
                Err(StoreError::SummaryMarkerMissing)
            } else if !self.room(1) {
                Err(StoreError::EventLogFull)
            } else {
                Ok(
                    (
                        true,
                        self.with_terminal(
                            TerminalRowModel { summary_written_at: StepMarkModel::at(now), ..row },
                        ).with_event(run_id, event_type, payload, now),
                    ),
                )
            },
        }
    }

    /// How many events the publication of an end appends.
    pub open spec fn publication_events(self, run_id: Seq<char>, run_epoch: i64) -> int {
        1 + self.open_attempts(run_id).len() + if any(
            self.launches,
            open_launch(run_id, run_epoch),
        ) {
            1int
        } else {
            0int
        }
    }

    /// The run takes the status of its intent, and its open launch ends with it.
    pub open spec fn publish(
        self,
        run_id: Seq<char>,
        run_epoch: i64,
        row: TerminalRowModel,
        event_type: Seq<char>,
        payload: EventPayloadModel,
        now: Timestamp,
    ) -> TablesModel {
        let state = ended_launch_state(row.status);
        let ended = TablesModel {
            runs: self.runs.map_values(run_set(run_id, row.status, row.error, now)),
            launches: self.launches.map_values(
                launch_terminated(run_id, run_epoch, state, row.error, now),
            ),
            ..self
        };
        let noted = if any(self.launches, open_launch(run_id, run_epoch)) {
            ended.with_event(
                run_id,
                "run_launch_interrupted"@,
                EventPayloadModel::RunLaunchInterrupted(
                    RunLaunchInterruptedPayloadModel {
                        state,
                        terminal_status: row.status,
                        primary_cause: row.error,
                    },
                ),
                now,
            )
        } else {
            ended
        };
        noted.with_event(run_id, event_type, payload, now).with_terminal(
            TerminalRowModel { committed_at: StepMarkModel::at(now), ..row },
        )
    }

    /// The end of a run is published once, after its summary.
    pub open spec fn commit_terminal(
        self,
        run_id: Seq<char>,
        event_type: Seq<char>,
        payload: EventPayloadModel,
        now: Timestamp,
    ) -> Result<(bool, TablesModel), StoreError> {
        match (self.terminal_row(run_id), self.run_row(run_id)) {
            (None, _) => Err(StoreError::TerminalIntentMissing),
            (Some(row), run) => if row.summary_written_at !is Made {
                Err(StoreError::SummaryNotWritten)
            } else {
                match run {
                    None => Err(StoreError::RunNotFound),
                    Some(run) => if row.committed_at is Made {
                        if run.run.status != row.status || run.run.error != row.error {
                            Err(StoreError::InconsistentTerminalState)
                        } else if !self.room(self.open_attempts(run_id).len() as int) {
                            Err(StoreError::EventLogFull)
                        } else {
                            Ok(
                                (
                                    false,
                                    self.interrupt_attempts(
                                        run_id,
                                        row.question_interruption_reason,
                                        row.status,
                                        now,
                                    ),
                                ),
                            )
                        }
                    } else if !run.run.status.active() {
                        Err(StoreError::RunAlreadyTerminal)
                    } else if !self.room(self.publication_events(run_id, run.execution_epoch)) {
                        Err(StoreError::EventLogFull)
                    } else {
                        Ok(
                            (
                                true,
                                self.interrupt_attempts(
                                    run_id,
                                    row.question_interruption_reason,
                                    row.status,
                                    now,
                                ).publish(
                                    run_id,
                                    run.execution_epoch,
                                    row,
                                    event_type,
                                    payload,
                                    now,
                                ),
                            ),
                        )
                    },
                }
            },
        }
    }

    pub open spec fn bookkeep_notification(self, run_id: Seq<char>, now: Timestamp) -> Result<
        (bool, TablesModel),
        StoreError,
    > {
        match self.terminal_row(run_id) {
            None => Err(StoreError::TerminalIntentMissing),
            Some(row) => if row.committed_at !is Made {
                Err(StoreError::TerminalNotCommitted)
            } else if row.notification_bookkept_at is Made {
                Ok((false, self))
            } else {
                Ok(
                    (
                        true,
                        self.with_terminal(
                            TerminalRowModel { notification_bookkept_at: StepMarkModel::at(now), ..row },
                        ),
                    ),
                )
            },
        }
    }

    pub open spec fn claim_cleanup(self, run_id: Seq<char>, now: Timestamp) -> Result<
        (bool, TablesModel),
        StoreError,
    > {
        match self.terminal_row(run_id) {
            None => Err(StoreError::TerminalIntentMissing),
            Some(row) => if row.committed_at !is Made || row.notification_bookkept_at !is Made {
                Err(StoreError::CleanupNotReady)
            } else if row.cleanup_started_at is Made || row.cleanup_completed_at is Made {
                Ok((false, self))
            } else {
                Ok(
                    (
                        true,
                        self.with_terminal(
                            TerminalRowModel { cleanup_started_at: StepMarkModel::at(now), ..row },
                        ),
                    ),
                )
            },
        }
    }

    pub open spec fn complete_cleanup(
        self,
        run_id: Seq<char>,
        event_type: Seq<char>,
        payload: EventPayloadModel,
        now: Timestamp,
    ) -> Result<(bool, TablesModel), StoreError> {
        match self.terminal_row(run_id) {
            None => Err(StoreError::TerminalIntentMissing),
            Some(row) => if row.cleanup_started_at !is Made {
                Err(StoreError::CleanupNotClaimed)
            } else if row.cleanup_completed_at is Made {
                Ok((false, self))
            } else if !self.room(1) {
                Err(StoreError::EventLogFull)
            } else {
                Ok(
                    (
                        true,
                        self.with_terminal(
                            TerminalRowModel { cleanup_completed_at: StepMarkModel::at(now), ..row },
                        ).with_event(run_id, event_type, payload, now),
                    ),
                )
            },
        }
    }

    pub open spec fn unreconciled_runs(self) -> Seq<Seq<char>> {
        ordered(select(self.terminals, unreconciled()), intended_order()).map_values(
            terminal_run_id(),
        )
    }
}

/// The contract of a step that is made at most once.
pub open spec fn stepped(
    before: TablesModel,
    after: TablesModel,
    r: Result<bool, StoreError>,
    expected: Result<(bool, TablesModel), StoreError>,
) -> bool {
    match expected {
        Err(error) => r == Err::<bool, StoreError>(error) && after == before,
        Ok((done, tables)) => r == Ok::<bool, StoreError>(done) && after == tables,
    }
}

impl Store {
    fn terminal_index(&self, run_id: &str) -> (r: Option<usize>)
        ensures
            match r {
                Some(i) => i < self.tables.terminals.len() && self@.terminal_row(run_id@) == Some(
                    self.tables.terminals@[i as int]@,
                ) && self.tables.terminals@[i as int]@.run_id == run_id@,
                None => self@.terminal_row(run_id@) is None && !any(
                    self@.terminals,
                    terminal_of(run_id@),
                ),
            },
    {
        let of_run = |row: &TerminalRow| -> (b: bool)
            ensures
                b == terminal_of(run_id@)(row@),
            { same_text(row.run_id.as_str(), run_id) };
        let found = find_row(&self.tables.terminals, of_run, Ghost(terminal_of(run_id@)));
        proof {
            if found is Some {
                assert(self@.terminals[found->0 as int] == self.tables.terminals@[found->0 as int]@);
            }
        }
        found
    }

    fn replace_terminal(&mut self, after: &TerminalRow)
        requires
            old(self)@.valid(),
        ensures
            final(self)@.valid(),
            old(self)@.one_active_run() ==> final(self)@.one_active_run(),
            final(self)@ == old(self)@.with_terminal(after@),
    {
        let replace = |row: &TerminalRow| -> (out: Option<TerminalRow>)
            ensures
                match out {
                    Some(m) => m@ == terminal_replaced(after@.run_id, after@)(row@),
                    None => terminal_replaced(after@.run_id, after@)(row@) == row@,
                },
            {
                if row.run_id.same(&after.run_id) {
                    Some(after.dup())
                } else {
                    None
                }
            };
        proof {
            lemma_unique_map(
                self@.terminals,
                terminal_key(),
                terminal_replaced(after@.run_id, after@),
            );
        }
        update_rows(
            &mut self.tables.terminals,
            replace,
            Ghost(terminal_replaced(after@.run_id, after@)),
        );
    }

    /// Records the intent to end a run and interrupts what waits and works in it.
    pub fn prepare_run_terminal_transition(
        &mut self,
        run_id: &str,
        status: RunStatus,
        error: &str,
        progress_message: &str,
        question_interruption_reason: &str,
        now: Timestamp,
    ) -> (r: Result<usize, StoreError>)
        requires
            old(self)@.valid(),
            now.writable(),
        ensures
            final(self)@.valid(),
            old(self)@.one_active_run() ==> final(self)@.one_active_run(),
            match old(self)@.prepare_terminal(
                run_id@,
                status,
                error@,
                progress_message@,
                question_interruption_reason@,
                now,
            ) {
                Err(refusal) => r == Err::<usize, StoreError>(refusal) && final(self)@ == old(self)@,
                Ok((n, after)) => r is Ok && r->Ok_0 == n && final(self)@ == after,
            },
    {
        if status.is_active() {
            return Err(StoreError::StatusNotTerminal);
        }
        let run = match self.run_index(run_id) {
            Some(run) => run,
            None => {
                return Err(StoreError::RunNotFound);
            },
        };
        let attempts = self.open_attempts_of(run_id);
        match self.terminal_index(run_id) {
            Some(i) => {
                let intent = &self.tables.terminals[i];
                if intent.status != status || !same_text(intent.error.as_str(), error)
                    || !same_text(intent.progress_message.as_str(), progress_message)
                    || !same_text(
                    intent.question_interruption_reason.as_str(),
                    question_interruption_reason,
                ) {
                    return Err(StoreError::TerminalIntentConflict);
                }
                if !self.has_room(attempts.len()) {
                    return Err(StoreError::EventLogFull);
                }
                self.interrupt_active_worker_attempts(
                    run_id,
                    &attempts,
                    question_interruption_reason,
                    status,
                    now,
                );
                return Ok(0);
            },
            None => {},
        }
        if !self.tables.runs[run].run.status.is_active() {
            return Err(StoreError::RunAlreadyTerminal);
        }
        let questions = self.pending_rows(run_id);
        let free: u64 = i64::MAX as u64 - self.tables.last_event_id as u64;
        if free < 1 || free - 1 < questions.len() as u64 || free - 1 - (questions.len() as u64)
            < attempts.len() as u64 {
            return Err(StoreError::EventLogFull);
        }
        self.record_intent(
            run_id,
            status,
            error,
            progress_message,
            question_interruption_reason,
            now,
        );
        let ghost before_events = self@;
        let intent_payload = EventPayload::TerminalTransitionIntended(
            TerminalTransitionIntendedPayload {
                status,
                error: error.to_owned(),
                progress_message: progress_message.to_owned(),
                question_interruption_reason: question_interruption_reason.to_owned(),
            },
        );
        self.append_event(run_id, "terminal_transition_intended", intent_payload, now);
        let payload = |row: &QuestionRow| -> (out: EventPayload)
            ensures
                out@ == ended_question_event(question_interruption_reason@, status)(row@),
            {
                EventPayload::WorkerQuestionInterrupted(
                    WorkerQuestionInterruptedPayload {
                        question_id: row.question.id.dup(),
                        slice_id: row.question.slice_id.dup(),
                        attempt: row.question.attempt,
                        launch_id: None,
                        active_attempt: None,
                        reason: question_interruption_reason.to_owned(),
                        terminal_status: Some(status),
                    },
                )
            };
        self.append_question_events(
            run_id,
            &questions,
            payload,
            Ghost(ended_question_event(question_interruption_reason@, status)),
            now,
        );
        self.interrupt_active_worker_attempts(
            run_id,
            &attempts,
            question_interruption_reason,
            status,
            now,
        );
        let ended = ProgressRow {
            run_id: run_id.to_owned(),
            phase: status.as_str().to_owned(),
            slice_id: String::new(),
            attempt: 0,
            command: String::new(),
            message: progress_message.to_owned(),
            output_tail: String::new(),
            phase_started_at: now,
            updated_at: now,
            worker_attempt_started_at: None,
            observed: WorkerObservation::default(),
        };
        self.put_progress(ended);
        Ok(questions.len())
    }

    fn record_intent(
        &mut self,
        run_id: &str,
        status: RunStatus,
        error: &str,
        progress_message: &str,
        reason: &str,
        now: Timestamp,
    )
        requires
            old(self)@.valid(),
            !status.active(),
            !any(old(self)@.terminals, terminal_of(run_id@)),
        ensures
            final(self)@.valid(),
            old(self)@.one_active_run() ==> final(self)@.one_active_run(),
            final(self)@ == (TablesModel {
                terminals: old(self)@.terminals.push(
                    TerminalRowModel {
                        run_id: run_id@,
                        status,
                        error: error@,
                        progress_message: progress_message@,
                        question_interruption_reason: reason@,
                        intended_at: now.text(),
                        summary_written_at: StepMarkModel::NotMade,
                        committed_at: StepMarkModel::NotMade,
                        notification_bookkept_at: StepMarkModel::NotMade,
                        cleanup_started_at: StepMarkModel::NotMade,
                        cleanup_completed_at: StepMarkModel::NotMade,
                    },
                ),
                questions: old(self)@.questions.map_values(
                    ended_question(run_id@, reason@, now),
                ),
                slices: old(self)@.slices.map_values(
                    ended_slice(
                        run_id@,
                        ended_slice_status(status),
                        ended_slice_error(error@, reason@),
                    ),
                ),
                ..old(self)@
            }),
    {
        let row = TerminalRow {
            run_id: run_id.to_owned(),
            status,
            error: error.to_owned(),
            progress_message: progress_message.to_owned(),
            question_interruption_reason: reason.to_owned(),
            intended_at: now.to_rfc3339(),
            summary_written_at: StepMark::NotMade,
            committed_at: StepMark::NotMade,
            notification_bookkept_at: StepMark::NotMade,
            cleanup_started_at: StepMark::NotMade,
            cleanup_completed_at: StepMark::NotMade,
        };
        let slice_status = match status {
            RunStatus::Blocked => SliceStatus::Blocked,
            RunStatus::Failed => SliceStatus::Failed,
            RunStatus::Cancelled => SliceStatus::Cancelled,
            _ => SliceStatus::Interrupted,
        };
        let slice_error = if is_blank(error) {
            reason
        } else {
            error
        };
        let end_question = |row: &QuestionRow| -> (out: Option<QuestionRow>)
            ensures
                match out {
                    Some(m) => m@ == ended_question(run_id@, reason@, now)(row@),
                    None => ended_question(run_id@, reason@, now)(row@) == row@,
                },
            {
                if same_text(row.question.run_id.as_str(), run_id) && same_text(
                    row.question.state.as_str(),
                    "pending",
                ) {
                    let mut m = row.dup();
                    m.question.state = "interrupted".to_owned();
                    m.question.answered_at = Some(now);
                    m.question.answer = reason.to_owned();
                    m.question.answer_source = None;
                    Some(m)
                } else {
                    None
                }
            };
        let end_slice = |row: &SliceRun| -> (out: Option<SliceRun>)
            ensures
                match out {
                    Some(m) => m@ == ended_slice(run_id@, slice_status, slice_error@)(row@),
                    None => ended_slice(run_id@, slice_status, slice_error@)(row@) == row@,
                },
            {
                if same_text(row.run_id.as_str(), run_id) && matches!(
                    row.status,
                    SliceStatus::Running | SliceStatus::RepairNeeded | SliceStatus::ReadyToMerge
                ) {
                    let mut m = row.dup();
                    m.status = slice_status;
                    m.last_error = slice_error.to_owned();
                    Some(m)
                } else {
                    None
                }
            };
        proof {
            lemma_unique_push(self@.terminals, terminal_key(), row@, terminal_of(run_id@));
            lemma_unique_map(
                self@.questions,
                question_key(),
                ended_question(run_id@, reason@, now),
            );
            lemma_unique_map(
                self@.slices,
                slice_key(),
                ended_slice(run_id@, slice_status, slice_error@),
            );
        }
        push_row(&mut self.tables.terminals, row);
        update_rows(
            &mut self.tables.questions,
            end_question,
            Ghost(ended_question(run_id@, reason@, now)),
        );
        update_rows(
            &mut self.tables.slices,
            end_slice,
            Ghost(ended_slice(run_id@, slice_status, slice_error@)),
        );
    }

    /// How far the end of a run has come.
    pub fn terminal_transition(&self, run_id: &str) -> (r: Result<
        Option<TerminalTransition>,
        StoreError,
    >)
        ensures
            res(r) == Ok::<Option<TerminalTransitionModel>, StoreError>(
                self@.terminal_transition(run_id@),
            ),
    {
        match self.terminal_index(run_id) {
            Some(i) => {
                let row = &self.tables.terminals[i];
                Ok(
                    Some(
                        TerminalTransition {
                            status: row.status,
                            error: row.error.dup(),
                            progress_message: row.progress_message.dup(),
                            question_interruption_reason: row.question_interruption_reason.dup(),
                            summary_written: row.summary_written_at.is_made(),
                            committed: row.committed_at.is_made(),
                        },
                    ),
                )
            },
            None => Ok(None),
        }
    }

    /// Records that the summary of an end was written. False: that is on record.
    pub fn mark_terminal_summary_written(
        &mut self,
        run_id: &str,
        event_type: &str,
        event_payload: EventPayload,
        now: Timestamp,
    ) -> (r: Result<bool, StoreError>)
        requires
            old(self)@.valid(),
            now.writable(),
        ensures
            final(self)@.valid(),
            old(self)@.one_active_run() ==> final(self)@.one_active_run(),
            stepped(
                old(self)@,
                final(self)@,
                r,
                old(self)@.write_summary(run_id@, event_type@, event_payload@, now),
            ),
    {
        let index = match self.terminal_index(run_id) {
            Some(index) => index,
            None => {
                return Err(StoreError::TerminalIntentMissing);
            },
        };
        let mut row = self.tables.terminals[index].dup();
        if row.summary_written_at.is_made() {
            return Ok(false);
        }
        if row.committed_at.is_made() {
            return Err(StoreError::SummaryMarkerMissing);
        }
        if !self.has_room(1) {
            return Err(StoreError::EventLogFull);
        }
        row.summary_written_at = StepMark::at(now);
        self.replace_terminal(&row);
        self.append_event(run_id, event_type, event_payload, now);
        Ok(true)
    }

    /// Publishes the end of a run.
    pub fn commit_terminal_transition(
        &mut self,
        run_id: &str,
        event_type: &str,
        event_payload: EventPayload,
        now: Timestamp,
    ) -> (r: Result<bool, StoreError>)
        requires
            old(self)@.valid(),
            now.writable(),
        ensures
            final(self)@.valid(),
            old(self)@.one_active_run() ==> final(self)@.one_active_run(),
            stepped(
                old(self)@,
                final(self)@,
                r,
                old(self)@.commit_terminal(run_id@, event_type@, event_payload@, now),
            ),
    {
        let index = match self.terminal_index(run_id) {
            Some(index) => index,
            None => {
                return Err(StoreError::TerminalIntentMissing);
            },
        };
        let mut row = self.tables.terminals[index].dup();
        if !row.summary_written_at.is_made() {
            return Err(StoreError::SummaryNotWritten);
        }
        let run = match self.run_index(run_id) {
            Some(run) => run,
            None => {
                return Err(StoreError::RunNotFound);
            },
        };
        let attempts = self.open_attempts_of(run_id);
        let status = row.status;
        if row.committed_at.is_made() {
            if self.tables.runs[run].run.status != status || !self.tables.runs[run].run.error.same(
                &row.error,
            ) {
                return Err(StoreError::InconsistentTerminalState);
            }
            if !self.has_room(attempts.len()) {
                return Err(StoreError::EventLogFull);
            }
            self.interrupt_active_worker_attempts(
                run_id,
                &attempts,
                row.question_interruption_reason.as_str(),
                status,
                now,
            );
            return Ok(false);
        }
        if !self.tables.runs[run].run.status.is_active() {
            return Err(StoreError::RunAlreadyTerminal);
        }
        let epoch: i64 = self.tables.runs[run].execution_epoch;
        let open = |launch: &RunLaunchIntent| -> (b: bool)
            ensures
                b == open_launch(run_id@, epoch)(launch@),
            { is_open_launch(launch, run_id, epoch) };
        let launch_open = find_row(
            &self.tables.launches,
            open,
            Ghost(open_launch(run_id@, epoch)),
        ).is_some();
        let events: u64 = if launch_open {
            2
        } else {
            1
        };
        let free: u64 = i64::MAX as u64 - self.tables.last_event_id as u64;
        if free < events || free - events < attempts.len() as u64 {
            return Err(StoreError::EventLogFull);
        }
        self.interrupt_active_worker_attempts(
            run_id,
            &attempts,
            row.question_interruption_reason.as_str(),
            status,
            now,
        );
        let state = if matches!(status, RunStatus::Failed | RunStatus::Blocked) {
            RunLaunchState::Failed
        } else {
            RunLaunchState::Interrupted
        };
        self.set_run_status(run_id, status, row.error.as_str(), now);
        self.end_launches(run_id, epoch, state, row.error.as_str(), now);
        if launch_open {
            let payload = EventPayload::RunLaunchInterrupted(
                RunLaunchInterruptedPayload {
                    state,
                    terminal_status: status,
                    primary_cause: row.error.dup(),
                },
            );
            self.append_event(run_id, "run_launch_interrupted", payload, now);
        }
        self.append_event(run_id, event_type, event_payload, now);
        row.committed_at = StepMark::at(now);
        self.replace_terminal(&row);
        Ok(true)
    }

    fn end_launches(
        &mut self,
        run_id: &str,
        epoch: i64,
        state: RunLaunchState,
        cause: &str,
        now: Timestamp,
    )
        requires
            old(self)@.valid(),
        ensures
            final(self)@.valid(),
            old(self)@.one_active_run() ==> final(self)@.one_active_run(),
            final(self)@ == (TablesModel {
                launches: old(self)@.launches.map_values(
                    launch_terminated(run_id@, epoch, state, cause@, now),
                ),
                ..old(self)@
            }),
    {
        let end = |launch: &RunLaunchIntent| -> (out: Option<RunLaunchIntent>)
            ensures
                match out {
                    Some(m) => m@ == launch_terminated(run_id@, epoch, state, cause@, now)(launch@),
                    None => launch_terminated(run_id@, epoch, state, cause@, now)(launch@)
                        == launch@,
                },
            {
                if is_open_launch(launch, run_id, epoch) {
                    let mut m = launch.dup();
                    m.state = state;
                    if same_text(m.primary_cause.as_str(), "") {
                        m.primary_cause = cause.to_owned();
                    }
                    m.updated_at = now;
                    proof {
                        reveal_strlit("");
                        assert(launch@.primary_cause.len() == 0 <==> launch@.primary_cause =~= ""@);
                    }
                    Some(m)
                } else {
                    None
                }
            };
        proof {
            lemma_unique_map(
                self@.launches,
                launch_key(),
                launch_terminated(run_id@, epoch, state, cause@, now),
            );
        }
        update_rows(
            &mut self.tables.launches,
            end,
            Ghost(launch_terminated(run_id@, epoch, state, cause@, now)),
        );
    }

    /// Whether the end of a run still has steps to make.
    pub fn terminal_transition_needs_reconciliation(&self, run_id: &str) -> (r: Result<
        bool,
        StoreError,
    >)
        ensures
            r == Ok::<bool, StoreError>(
                match self@.terminal_row(run_id@) {
                    Some(row) => has_steps_to_make(row),
                    None => false,
                },
            ),
    {
        match self.terminal_index(run_id) {
            Some(i) => {
                let row = &self.tables.terminals[i];
                Ok(
                    !row.committed_at.is_made() || !row.notification_bookkept_at.is_made() || (
                    !row.cleanup_started_at.is_made() && !row.cleanup_completed_at.is_made()),
                )
            },
            None => Ok(false),
        }
    }

    /// The runs of whose end some step left no mark, in the order of the texts of their intents.
    pub fn terminal_transition_run_ids_needing_reconciliation(&self) -> (r: Result<
        Vec<String>,
        StoreError,
    >)
        ensures
            res(r) == Ok::<Seq<Seq<char>>, StoreError>(self@.unreconciled_runs()),
    {
        let open = |row: &TerminalRow| -> (b: bool)
            ensures
                b == unreconciled()(row@),
            { is_unreconciled(row) };
        let found = select_rows(&self.tables.terminals, open, Ghost(unreconciled()));
        let before = |a: &TerminalRow, b: &TerminalRow| -> (lt: bool)
            ensures
                lt == intended_order()(a@, b@),
            {
                text_before(a.intended_at.as_str(), b.intended_at.as_str()) || (same_text(
                    a.intended_at.as_str(),
                    b.intended_at.as_str(),
                ) && text_before(a.run_id.as_str(), b.run_id.as_str()))
            };
        let sorted = order_rows(found, before, Ghost(intended_order()));
        let id = |row: &TerminalRow| -> (out: String)
            ensures
                out.deep_view() == terminal_run_id()(row@),
            { row.run_id.dup() };
        Ok(project_rows(&sorted, id, Ghost(terminal_run_id())))
    }

    /// Whether the notification of the end of a run is booked.
    pub fn terminal_notification_bookkept(&self, run_id: &str) -> (r: Result<bool, StoreError>)
        ensures
            r == Ok::<bool, StoreError>(
                match self@.terminal_row(run_id@) {
                    Some(row) => row.notification_bookkept_at is Made,
                    None => false,
                },
            ),
    {
        match self.terminal_index(run_id) {
            Some(i) => Ok(self.tables.terminals[i].notification_bookkept_at.is_made()),
            None => Ok(false),
        }
    }

    /// Books the notification of the end of a run. False: it was booked.
    pub fn mark_terminal_notification_bookkept(&mut self, run_id: &str, now: Timestamp) -> (r:
        Result<bool, StoreError>)
        requires
            old(self)@.valid(),
        ensures
            final(self)@.valid(),
            old(self)@.one_active_run() ==> final(self)@.one_active_run(),
            stepped(
                old(self)@,
                final(self)@,
                r,
                old(self)@.bookkeep_notification(run_id@, now),
            ),
    {
        let index = match self.terminal_index(run_id) {
            Some(index) => index,
            None => {
                return Err(StoreError::TerminalIntentMissing);
            },
        };
        let mut row = self.tables.terminals[index].dup();
        if !row.committed_at.is_made() {
            return Err(StoreError::TerminalNotCommitted);
        }
        if row.notification_bookkept_at.is_made() {
            return Ok(false);
        }
        row.notification_bookkept_at = StepMark::at(now);
        self.replace_terminal(&row);
        Ok(true)
    }

    /// Claims the cleanup after a run. False: it was claimed.
    pub fn claim_terminal_cleanup(&mut self, run_id: &str, now: Timestamp) -> (r: Result<
        bool,
        StoreError,
    >)
        requires
            old(self)@.valid(),
        ensures
            final(self)@.valid(),
            old(self)@.one_active_run() ==> final(self)@.one_active_run(),
            stepped(old(self)@, final(self)@, r, old(self)@.claim_cleanup(run_id@, now)),
    {
        let index = match self.terminal_index(run_id) {
            Some(index) => index,
            None => {
                return Err(StoreError::TerminalIntentMissing);
            },
        };
        let mut row = self.tables.terminals[index].dup();
        if !row.committed_at.is_made() || !row.notification_bookkept_at.is_made() {
            return Err(StoreError::CleanupNotReady);
        }
        if row.cleanup_started_at.is_made() || row.cleanup_completed_at.is_made() {
            return Ok(false);
        }
        row.cleanup_started_at = StepMark::at(now);
        self.replace_terminal(&row);
        Ok(true)
    }

    /// Records that the cleanup after a run is done. False: that is on record.
    pub fn mark_terminal_cleanup_completed(
        &mut self,
        run_id: &str,
        event_type: &str,
        event_payload: EventPayload,
        now: Timestamp,
    ) -> (r: Result<bool, StoreError>)
        requires
            old(self)@.valid(),
            now.writable(),
        ensures
            final(self)@.valid(),
            old(self)@.one_active_run() ==> final(self)@.one_active_run(),
            stepped(
                old(self)@,
                final(self)@,
                r,
                old(self)@.complete_cleanup(run_id@, event_type@, event_payload@, now),
            ),
    {
        let index = match self.terminal_index(run_id) {
            Some(index) => index,
            None => {
                return Err(StoreError::TerminalIntentMissing);
            },
        };
        let mut row = self.tables.terminals[index].dup();
        if !row.cleanup_started_at.is_made() {
            return Err(StoreError::CleanupNotClaimed);
        }
        if row.cleanup_completed_at.is_made() {
            return Ok(false);
        }
        if !self.has_room(1) {
            return Err(StoreError::EventLogFull);
        }
        row.cleanup_completed_at = StepMark::at(now);
        self.replace_terminal(&row);
        self.append_event(run_id, event_type, event_payload, now);
        Ok(true)
    }
}

fn is_unreconciled(row: &TerminalRow) -> (r: bool)
    ensures
        r == unreconciled()(row@),
{
    row.committed_at.is_not_made() || row.notification_bookkept_at.is_not_made() || (
    row.cleanup_started_at.is_not_made() && row.cleanup_completed_at.is_not_made())
}

fn is_open_launch(launch: &RunLaunchIntent, run_id: &str, epoch: i64) -> (r: bool)
    ensures
        r == open_launch(run_id@, epoch)(launch@),
{
    same_text(launch.run_id.as_str(), run_id) && epoch >= 0 && launch.execution_epoch as u64
        == epoch as u64 && launch.state.is_incomplete()
}

} // verus!
