//! Questions that workers ask the operator.
use super::progress::{awaiting_message, progress_resumed};
use super::{
    lemma_unique_map, lemma_unique_push, question_key, res, slice_key, Store,
};
use crate::domain::{
    DecisionCommandOutcome, SliceRun, SliceRunModel, WorkerQuestion, WorkerQuestionAnswerSource,
    WorkerQuestionModel, WorkerQuestionRecommendation, WorkerQuestionRecommendationModel,
};
use crate::error::StoreError;
use crate::payloads::{
    EventPayload, EventPayloadModel, ExtraValueModel, RunIncidentPayload, RunIncidentPayloadModel,
    WorkerQuestionAnsweredPayload, WorkerQuestionAnsweredPayloadModel,
    WorkerQuestionInterruptedPayload, WorkerQuestionInterruptedPayloadModel,
};
use crate::rows::{
    QuestionRow, QuestionRowModel, RunRow, RunRowModel, TablesModel, WorkerQuestionDecisionCommand,
    WorkerQuestionDecisionCommandModel, WorkerQuestionDecisionTransition,
    WorkerQuestionDecisionTransitionModel,
};
use crate::table::{
    any, find_row, first, order_rows, ordered, project_rows, push_row, select, select_rows,
    update_rows, Row,
};
use crate::text::{append_decimal, blank, decimal, is_blank, same_text, text_before, text_lt};
use crate::time::Timestamp;
use vstd::prelude::*;
use vstd::string::*;

verus! {

/// The longest time, in seconds, that a question may wait.
pub const MAX_TIMEOUT_SECONDS: u64 = 9223372036854775;

/// Whether the deadline of a question, if it has one, can be written so that it is read back.
pub open spec fn deadline_is_writable(now: Timestamp, timeout_seconds: u64) -> bool {
    timeout_seconds > 0 ==> (now.plus_seconds(timeout_seconds as nat) matches Some(deadline)
        ==> deadline.writable())
}

pub open spec fn pending_of(run_id: Seq<char>) -> spec_fn(QuestionRowModel) -> bool {
    |row: QuestionRowModel| row.question.run_id == run_id && row.question.state == "pending"@
}

/// Earliest asked first, then by identifier.
pub open spec fn asked_order() -> spec_fn(QuestionRowModel, QuestionRowModel) -> bool {
    |a: QuestionRowModel, b: QuestionRowModel|
        a.question.asked_at.lt(b.question.asked_at) || (a.question.asked_at == b.question.asked_at
            && text_lt(a.question.id, b.question.id))
}

/// How often a text occurs among texts.
pub open spec fn occurrences(texts: Seq<Seq<char>>, text: Seq<char>) -> nat
    decreases texts.len(),
{
    if texts.len() == 0 {
        0
    } else {
        occurrences(texts.drop_last(), text) + if texts.last() == text {
            1nat
        } else {
            0nat
        }
    }
}

impl WorkerQuestionRecommendationModel {
    /// A recommendation may stand in for the operator when it names exactly one of the options,
    /// gives its reason, stays within the worker's authority and can be taken back.
    pub open spec fn eligible(self, options: Seq<Seq<char>>) -> bool {
        &&& !blank(self.recommended_answer)
        &&& !blank(self.rationale)
        &&& self.bounded_within_current_slice_or_mission_authority
        &&& self.reversible
        &&& occurrences(options, self.recommended_answer) == 1
    }
}

impl WorkerQuestionRecommendation {
    /// Whether the recommendation may stand in for the operator: it is one of the options, once, it has
    /// a reason, and it is bounded and reversible.
    pub fn is_eligible(&self, options: &Vec<String>) -> (r: bool)
        ensures
            r == self@.eligible(options.deep_view()),
    {
        let mut found: usize = 0;
        let mut i: usize = 0;
        assert(options.deep_view().take(0) =~= Seq::empty());
        while i < options.len()
            invariant
                i <= options.len(),
                found <= i,
                found == occurrences(
                    options.deep_view().take(i as int),
                    self@.recommended_answer,
                ),
            decreases options.len() - i,
        {
            proof {
                let part = options.deep_view().take(i + 1);
                assert(part.drop_last() =~= options.deep_view().take(i as int));
                assert(part.last() == options@[i as int]@);
            }
            if options[i].same(&self.recommended_answer) {
                found = found + 1;
            }
            i = i + 1;
        }
        assert(options.deep_view().take(i as int) =~= options.deep_view());
        !is_blank(self.recommended_answer.as_str()) && !is_blank(self.rationale.as_str())
            && self.bounded_within_current_slice_or_mission_authority && self.reversible && found
            == 1
    }
}

impl WorkerQuestionModel {
    /// The recommendation that the question carries.
    pub open spec fn recommendation(self) -> WorkerQuestionRecommendationModel {
        WorkerQuestionRecommendationModel {
            recommended_answer: self.recommended_answer,
            rationale: self.recommendation_rationale,
            bounded_within_current_slice_or_mission_authority:
                self.bounded_within_current_slice_or_mission_authority,
            reversible: self.reversible,
        }
    }
}

impl WorkerQuestion {
    /// What the worker recommends.
    pub fn recommendation(&self) -> (r: WorkerQuestionRecommendation)
        ensures
            r@ == self@.recommendation(),
    {
        WorkerQuestionRecommendation {
            recommended_answer: self.recommended_answer.dup(),
            rationale: self.recommendation_rationale.dup(),
            bounded_within_current_slice_or_mission_authority: self.bounded_within_current_slice_or_mission_authority,
            reversible: self.reversible,
        }
    }
}

impl WorkerQuestionDecisionCommand {
    /// The command that answers a question.
    pub fn answer(
        answer: &str,
        answer_source: WorkerQuestionAnswerSource,
        progress_message: &str,
    ) -> (r: WorkerQuestionDecisionCommand)
        ensures
            r@ == (WorkerQuestionDecisionCommandModel::Answer {
                answer: answer@,
                answer_source,
                progress_message: progress_message@,
            }),
    {
        WorkerQuestionDecisionCommand::Answer {
            answer: answer.to_owned(),
            answer_source,
            progress_message: progress_message.to_owned(),
        }
    }

    /// A timeout that never applies the recommendation.
    pub fn timeout(incident_code: &str, message_prefix: &str, progress_message: &str) -> (r:
        WorkerQuestionDecisionCommand)
        ensures
            r@ == (WorkerQuestionDecisionCommandModel::Timeout {
                expected_launch_id: None,
                apply_recommendation_at_deadline: false,
                incident_code: incident_code@,
                message_prefix: message_prefix@,
                progress_message: progress_message@,
            }),
    {
        WorkerQuestionDecisionCommand::Timeout {
            expected_launch_id: None,
            apply_recommendation_at_deadline: false,
            incident_code: incident_code.to_owned(),
            message_prefix: message_prefix.to_owned(),
            progress_message: progress_message.to_owned(),
        }
    }

    /// A timeout that applies an eligible recommendation once the deadline has come.
    pub fn resolve_timeout(
        expected_launch_id: Option<i64>,
        incident_code: &str,
        message_prefix: &str,
        progress_message: &str,
    ) -> (r: WorkerQuestionDecisionCommand)
        ensures
            r@ == (WorkerQuestionDecisionCommandModel::Timeout {
                expected_launch_id,
                apply_recommendation_at_deadline: true,
                incident_code: incident_code@,
                message_prefix: message_prefix@,
                progress_message: progress_message@,
            }),
    {
        WorkerQuestionDecisionCommand::Timeout {
            expected_launch_id,
            apply_recommendation_at_deadline: true,
            incident_code: incident_code.to_owned(),
            message_prefix: message_prefix.to_owned(),
            progress_message: progress_message.to_owned(),
        }
    }
}

pub open spec fn question_with_id(id: Seq<char>) -> spec_fn(QuestionRowModel) -> bool {
    |row: QuestionRowModel| row.question.id == id
}

pub open spec fn question_in_run(id: Seq<char>, run_id: Seq<char>) -> spec_fn(
    QuestionRowModel,
) -> bool {
    |row: QuestionRowModel| row.question.id == id && row.question.run_id == run_id
}

pub open spec fn question_of_run(run_id: Seq<char>) -> spec_fn(QuestionRowModel) -> bool {
    |row: QuestionRowModel| row.question.run_id == run_id
}

pub open spec fn run_in_repo(run_id: Seq<char>, repo_path: Seq<char>) -> spec_fn(
    RunRowModel,
) -> bool {
    |row: RunRowModel| row.run.id == run_id && row.run.repo_path == repo_path
}

/// A question of a run that works on a repository.
pub open spec fn question_of_repo(runs: Seq<RunRowModel>, repo_path: Seq<char>) -> spec_fn(
    QuestionRowModel,
) -> bool {
    |row: QuestionRowModel| any(runs, run_in_repo(row.question.run_id, repo_path))
}

pub open spec fn question_only() -> spec_fn(QuestionRowModel) -> WorkerQuestionModel {
    |row: QuestionRowModel| row.question
}

pub open spec fn pending_on(
    run_id: Seq<char>,
    slice_id: Seq<char>,
    attempt: usize,
) -> spec_fn(QuestionRowModel) -> bool {
    |row: QuestionRowModel|
        row.question.run_id == run_id && row.question.slice_id == slice_id && row.question.attempt
            == attempt && row.question.state == "pending"@
}

pub open spec fn pending_for_launch(
    run_id: Seq<char>,
    slice_id: Seq<char>,
    attempt: usize,
    launch_id: Option<i64>,
) -> spec_fn(QuestionRowModel) -> bool {
    |row: QuestionRowModel|
        row.question.run_id == run_id && row.question.slice_id == slice_id && row.question.attempt
            == attempt && row.question.state == "pending"@ && (row.question.launch_id is None
            || row.question.launch_id == launch_id)
}

/// A pending question of another attempt at the slice.
pub open spec fn stale_on(
    run_id: Seq<char>,
    slice_id: Seq<char>,
    attempt: usize,
) -> spec_fn(QuestionRowModel) -> bool {
    |row: QuestionRowModel|
        row.question.run_id == run_id && row.question.slice_id == slice_id && row.question.state
            == "pending"@ && row.question.attempt != attempt
}

pub open spec fn question_replaced(id: Seq<char>, new_row: QuestionRowModel) -> spec_fn(
    QuestionRowModel,
) -> QuestionRowModel {
    |row: QuestionRowModel|
        if row.question.id == id {
            new_row
        } else {
            row
        }
}

pub open spec fn interrupted(
    row: QuestionRowModel,
    answer: Seq<char>,
    now: Timestamp,
) -> QuestionRowModel {
    QuestionRowModel {
        question: WorkerQuestionModel {
            state: "interrupted"@,
            answered_at: Some(now),
            answer,
            ..row.question
        },
        ..row
    }
}

pub open spec fn answered(
    row: QuestionRowModel,
    answer: Seq<char>,
    source: WorkerQuestionAnswerSource,
    command: WorkerQuestionDecisionCommandModel,
    now: Timestamp,
) -> QuestionRowModel {
    QuestionRowModel {
        question: WorkerQuestionModel {
            state: "answered"@,
            answered_at: Some(now),
            answer,
            answer_source: Some(source),
            ..row.question
        },
        resolution: Some(command),
    }
}

pub open spec fn timed_out(
    row: QuestionRowModel,
    command: WorkerQuestionDecisionCommandModel,
    now: Timestamp,
) -> QuestionRowModel {
    QuestionRowModel {
        question: WorkerQuestionModel {
            state: "timed_out"@,
            answered_at: Some(now),
            ..row.question
        },
        resolution: Some(command),
    }
}

pub open spec fn superseded(
    run_id: Seq<char>,
    slice_id: Seq<char>,
    attempt: usize,
    now: Timestamp,
) -> spec_fn(QuestionRowModel) -> QuestionRowModel {
    |row: QuestionRowModel|
        if stale_on(run_id, slice_id, attempt)(row) {
            interrupted(row, superseded_answer(attempt), now)
        } else {
            row
        }
}

pub open spec fn superseded_answer(attempt: usize) -> Seq<char> {
    "superseded by worker attempt "@ + decimal(attempt as nat)
}

pub open spec fn supersession_of(
    slice_id: Seq<char>,
    attempt: usize,
) -> spec_fn(QuestionRowModel) -> EventPayloadModel {
    |row: QuestionRowModel|
        EventPayloadModel::WorkerQuestionInterrupted(
            WorkerQuestionInterruptedPayloadModel {
                question_id: row.question.id,
                slice_id,
                attempt: row.question.attempt,
                launch_id: None,
                active_attempt: Some(attempt),
                reason: "superseded_by_worker_attempt"@,
                terminal_status: None,
            },
        )
}

pub open spec fn slice_advanced(
    run_id: Seq<char>,
    slice_id: Seq<char>,
    attempt: usize,
) -> spec_fn(SliceRunModel) -> SliceRunModel {
    |row: SliceRunModel|
        if may_advance(run_id, slice_id, attempt)(row) {
            SliceRunModel { attempts: attempt, ..row }
        } else {
            row
        }
}

/// A slice that can go on with an attempt: it is open and not beyond the attempt yet.
pub open spec fn may_advance(
    run_id: Seq<char>,
    slice_id: Seq<char>,
    attempt: usize,
) -> spec_fn(SliceRunModel) -> bool {
    |row: SliceRunModel|
        row.run_id == run_id && row.slice_id == slice_id && super::attempts::slice_open(row.status)
            && row.attempts <= attempt
}

/// What a new question looks like.
pub open spec fn new_question(
    id: Seq<char>,
    run_id: Seq<char>,
    slice_id: Seq<char>,
    attempt: usize,
    launch_id: Option<i64>,
    question: Seq<char>,
    options: Seq<Seq<char>>,
    timeout_seconds: u64,
    recommendation: WorkerQuestionRecommendationModel,
    now: Timestamp,
) -> WorkerQuestionModel {
    WorkerQuestionModel {
        id,
        run_id,
        slice_id,
        attempt,
        launch_id,
        question,
        options,
        timeout_seconds,
        recommended_answer: recommendation.recommended_answer,
        recommendation_rationale: recommendation.rationale,
        bounded_within_current_slice_or_mission_authority:
            recommendation.bounded_within_current_slice_or_mission_authority,
        reversible: recommendation.reversible,
        fallback_eligible: recommendation.eligible(options),
        deadline_at: if timeout_seconds == 0 {
            None
        } else {
            now.plus_seconds(timeout_seconds as nat)
        },
        state: "pending"@,
        asked_at: now,
        answered_at: None,
        answer: Seq::empty(),
        answer_source: None,
    }
}

pub open spec fn answer_event(
    question: WorkerQuestionModel,
    answer: Seq<char>,
    source: WorkerQuestionAnswerSource,
) -> EventPayloadModel {
    EventPayloadModel::WorkerQuestionAnswered(
        WorkerQuestionAnsweredPayloadModel {
            question_id: question.id,
            slice_id: question.slice_id,
            launch_id: question.launch_id,
            answer,
            answer_source: source.text(),
            recommended_answer: question.recommended_answer,
            recommendation_rationale: question.recommendation_rationale,
        },
    )
}

pub open spec fn interruption_event(
    question: WorkerQuestionModel,
    reason: Seq<char>,
) -> EventPayloadModel {
    EventPayloadModel::WorkerQuestionInterrupted(
        WorkerQuestionInterruptedPayloadModel {
            question_id: question.id,
            slice_id: question.slice_id,
            attempt: question.attempt,
            launch_id: question.launch_id,
            active_attempt: None,
            reason,
            terminal_status: None,
        },
    )
}

pub open spec fn timeout_event(
    question: WorkerQuestionModel,
    incident_code: Seq<char>,
    message_prefix: Seq<char>,
) -> EventPayloadModel {
    EventPayloadModel::RunIncident(
        RunIncidentPayloadModel::warning(
            incident_code,
            message_prefix + ": "@ + question.question,
        ).with_extra("question_id"@, ExtraValueModel::Text(question.id)).with_extra(
            "slice_id"@,
            ExtraValueModel::Text(question.slice_id),
        ),
    )
}

pub open spec fn inactive_reason() -> Seq<char> {
    "worker attempt became inactive before question resolution"@
}

pub open spec fn fallback_message(question_id: Seq<char>) -> Seq<char> {
    "LLM recommendation applied at deadline for "@ + question_id + "; worker resuming"@
}

impl TablesModel {
    pub open spec fn question_row(self, id: Seq<char>, run_id: Seq<char>) -> Option<
        QuestionRowModel,
    > {
        first(self.questions, question_in_run(id, run_id))
    }

    pub open spec fn question(self, id: Seq<char>) -> Option<WorkerQuestionModel> {
        match first(self.questions, question_with_id(id)) {
            Some(row) => Some(row.question),
            None => None,
        }
    }

    pub open spec fn questions_of(self, run_id: Seq<char>) -> Seq<WorkerQuestionModel> {
        ordered(select(self.questions, question_of_run(run_id)), asked_order()).map_values(
            question_only(),
        )
    }

    pub open spec fn questions_of_repo(self, repo_path: Seq<char>) -> Seq<WorkerQuestionModel> {
        ordered(
            select(self.questions, question_of_repo(self.runs, repo_path)),
            asked_order(),
        ).map_values(question_only())
    }

    pub open spec fn with_question(self, question: WorkerQuestionModel) -> TablesModel {
        TablesModel {
            questions: self.questions.push(QuestionRowModel { question, resolution: None }),
            ..self
        }
    }

    pub open spec fn with_question_row(self, id: Seq<char>, row: QuestionRowModel) -> TablesModel {
        TablesModel { questions: self.questions.map_values(question_replaced(id, row)), ..self }
    }

    /// One event for each of the questions.
    pub open spec fn with_question_events(
        self,
        run_id: Seq<char>,
        rows: Seq<QuestionRowModel>,
        payload: spec_fn(QuestionRowModel) -> EventPayloadModel,
        now: Timestamp,
    ) -> TablesModel
        decreases rows.len(),
    {
        if rows.len() == 0 {
            self
        } else {
            self.with_question_events(run_id, rows.drop_last(), payload, now).with_event(
                run_id,
                "worker_question_interrupted"@,
                payload(rows.last()),
                now,
            )
        }
    }

    pub open spec fn open_question_refusal(
        self,
        id: Seq<char>,
        run_id: Seq<char>,
        slice_id: Seq<char>,
        attempt: usize,
        launch_id: Option<i64>,
    ) -> Option<StoreError> {
        if !self.attempt_is_active(run_id, slice_id, attempt, launch_id) {
            Some(StoreError::QuestionFromInactiveAttempt)
        } else if any(self.questions, pending_on(run_id, slice_id, attempt)) {
            Some(StoreError::PendingQuestionExists)
        } else if any(self.questions, question_with_id(id)) {
            Some(StoreError::QuestionExists)
        } else {
            None
        }
    }

    /// A question, its event and the waiting progress appear together.
    pub open spec fn open_question(
        self,
        question: WorkerQuestionModel,
        asked_event_type: Seq<char>,
        payload: EventPayloadModel,
        progress_message: Seq<char>,
        now: Timestamp,
    ) -> TablesModel {
        self.with_question(question).with_event(
            question.run_id,
            asked_event_type,
            payload,
            now,
        ).with_awaiting(
            question.run_id,
            question.slice_id,
            question.attempt,
            progress_message,
            now,
        )
    }

    /// After a question was resolved the run waits for the next pending question, or works on.
    pub open spec fn after_resolution(
        self,
        run_id: Seq<char>,
        resolved: WorkerQuestionModel,
        resume_message: Seq<char>,
        now: Timestamp,
    ) -> TablesModel {
        match self.pending_question(run_id) {
            Some(next) => self.with_awaiting(
                run_id,
                next.slice_id,
                next.attempt,
                awaiting_message(next.id),
                now,
            ),
            None => TablesModel {
                progress: self.progress.map_values(
                    progress_resumed(
                        run_id,
                        resolved.slice_id,
                        resolved.attempt,
                        resume_message,
                        now,
                    ),
                ),
                ..self
            },
        }
    }

    pub open spec fn question_answer(
        outcome: DecisionCommandOutcome,
        question: WorkerQuestionModel,
    ) -> WorkerQuestionDecisionTransitionModel {
        WorkerQuestionDecisionTransitionModel { outcome, question: Some(question) }
    }

    /// Why the recommendation of a question cannot be applied in place of an answer.
    pub open spec fn fallback_refusal(
        question: WorkerQuestionModel,
        answer: Seq<char>,
        now: Timestamp,
    ) -> Option<StoreError> {
        if !question.fallback_eligible || !question.recommendation().eligible(question.options) {
            Some(StoreError::NoEligibleRecommendation)
        } else if answer != question.recommended_answer {
            Some(StoreError::AnswerNotRecommended)
        } else {
            match question.deadline_at {
                None => Some(StoreError::NoFallbackDeadline),
                Some(deadline) => if now.lt(deadline) {
                    Some(StoreError::BeforeDeadline)
                } else {
                    None
                },
            }
        }
    }

    /// What an answer does to a question of a run.
    pub open spec fn answer_question(
        self,
        run_id: Seq<char>,
        row: QuestionRowModel,
        answer: Seq<char>,
        answer_source: WorkerQuestionAnswerSource,
        progress_message: Seq<char>,
        now: Timestamp,
    ) -> Result<(WorkerQuestionDecisionTransitionModel, TablesModel), StoreError> {
        let command = WorkerQuestionDecisionCommandModel::Answer {
            answer,
            answer_source,
            progress_message,
        };
        let question = row.question;
        if question.state != "pending"@ {
            let idempotent = question.state == "answered"@ && question.answer == answer
                && question.answer_source == Some(answer_source) && row.resolution == Some(command);
            Ok(
                (
                    Self::question_answer(
                        if idempotent {
                            DecisionCommandOutcome::AlreadyAppliedIdempotently
                        } else {
                            DecisionCommandOutcome::Conflict
                        },
                        question,
                    ),
                    self,
                ),
            )
        } else if !self.attempt_is_active(
            run_id,
            question.slice_id,
            question.attempt,
            question.launch_id,
        ) {
            Ok((Self::question_answer(DecisionCommandOutcome::StaleToken, question), self))
        } else if answer_source == WorkerQuestionAnswerSource::LlmRecommendationTimeout
            && Self::fallback_refusal(question, answer, now) is Some {
            Err(Self::fallback_refusal(question, answer, now)->0)
        } else if !self.room(1) {
            Err(StoreError::EventLogFull)
        } else {
            let after = answered(row, answer, answer_source, command, now);
            Ok(
                (
                    Self::question_answer(DecisionCommandOutcome::Applied, after.question),
                    self.with_question_row(question.id, after).after_resolution(
                        run_id,
                        question,
                        progress_message,
                        now,
                    ).with_event(
                        run_id,
                        "worker_question_answered"@,
                        answer_event(question, answer, answer_source),
                        now,
                    ),
                ),
            )
        }
    }

    /// What a timeout does to a question of a run.
    pub open spec fn time_out_question(
        self,
        run_id: Seq<char>,
        row: QuestionRowModel,
        expected_launch_id: Option<i64>,
        apply_recommendation_at_deadline: bool,
        incident_code: Seq<char>,
        message_prefix: Seq<char>,
        progress_message: Seq<char>,
        now: Timestamp,
    ) -> Result<(WorkerQuestionDecisionTransitionModel, TablesModel), StoreError> {
        let command = WorkerQuestionDecisionCommandModel::Timeout {
            expected_launch_id,
            apply_recommendation_at_deadline,
            incident_code,
            message_prefix,
            progress_message,
        };
        let question = row.question;
        let llm = WorkerQuestionAnswerSource::LlmRecommendationTimeout;
        if question.launch_id != expected_launch_id {
            Ok((Self::question_answer(DecisionCommandOutcome::StaleToken, question), self))
        } else if question.state != "pending"@ {
            let same_outcome = question.state == "timed_out"@ || (apply_recommendation_at_deadline
                && question.state == "answered"@ && question.answer_source == Some(llm));
            Ok(
                (
                    Self::question_answer(
                        if question.state == "interrupted"@ {
                            DecisionCommandOutcome::StaleToken
                        } else if same_outcome && row.resolution == Some(command) {
                            DecisionCommandOutcome::AlreadyAppliedIdempotently
                        } else {
                            DecisionCommandOutcome::Conflict
                        },
                        question,
                    ),
                    self,
                ),
            )
        } else if !self.room(1) {
            Err(StoreError::EventLogFull)
        } else if !self.attempt_is_active(
            run_id,
            question.slice_id,
            question.attempt,
            question.launch_id,
        ) {
            let after = interrupted(row, inactive_reason(), now);
            Ok(
                (
                    Self::question_answer(DecisionCommandOutcome::StaleToken, after.question),
                    self.with_question_row(question.id, after).with_event(
                        run_id,
                        "worker_question_interrupted"@,
                        interruption_event(question, inactive_reason()),
                        now,
                    ),
                ),
            )
        } else if Self::applies_recommendation(question, apply_recommendation_at_deadline, now) {
            let answer = question.recommended_answer;
            let after = answered(row, answer, llm, command, now);
            Ok(
                (
                    Self::question_answer(DecisionCommandOutcome::Applied, after.question),
                    self.with_question_row(question.id, after).after_resolution(
                        run_id,
                        question,
                        fallback_message(question.id),
                        now,
                    ).with_event(
                        run_id,
                        "worker_question_answered"@,
                        answer_event(question, answer, llm),
                        now,
                    ),
                ),
            )
        } else {
            let after = timed_out(row, command, now);
            Ok(
                (
                    Self::question_answer(DecisionCommandOutcome::Applied, after.question),
                    self.with_question_row(question.id, after).after_resolution(
                        run_id,
                        question,
                        progress_message,
                        now,
                    ).with_event(
                        run_id,
                        "run_incident"@,
                        timeout_event(question, incident_code, message_prefix),
                        now,
                    ),
                ),
            )
        }
    }

    /// A recommendation is applied only where that is asked for, at or after the deadline, and
    /// where it is eligible.
    pub open spec fn applies_recommendation(
        question: WorkerQuestionModel,
        apply_recommendation_at_deadline: bool,
        now: Timestamp,
    ) -> bool {
        &&& apply_recommendation_at_deadline
        &&& question.deadline_at matches Some(deadline)
        &&& !now.lt(deadline)
        &&& question.fallback_eligible
        &&& question.recommendation().eligible(question.options)
    }

    /// The answer to a question command, and the tables after it.
    pub open spec fn decide_question(
        self,
        run_id: Seq<char>,
        question_id: Seq<char>,
        command: WorkerQuestionDecisionCommandModel,
        now: Timestamp,
    ) -> Result<(WorkerQuestionDecisionTransitionModel, TablesModel), StoreError> {
        match self.question_row(question_id, run_id) {
            None => Ok(
                (
                    WorkerQuestionDecisionTransitionModel {
                        outcome: DecisionCommandOutcome::NotFound,
                        question: None,
                    },
                    self,
                ),
            ),
            Some(row) => match command {
                WorkerQuestionDecisionCommandModel::Answer {
                    answer,
                    answer_source,
                    progress_message,
                } => self.answer_question(
                    run_id,
                    row,
                    answer,
                    answer_source,
                    progress_message,
                    now,
                ),
                WorkerQuestionDecisionCommandModel::Timeout {
                    expected_launch_id,
                    apply_recommendation_at_deadline,
                    incident_code,
                    message_prefix,
                    progress_message,
                } => self.time_out_question(
                    run_id,
                    row,
                    expected_launch_id,
                    apply_recommendation_at_deadline,
                    incident_code,
                    message_prefix,
                    progress_message,
                    now,
                ),
            },
        }
    }

    /// The questions that an advancing attempt leaves behind.
    pub open spec fn stale_questions(
        self,
        run_id: Seq<char>,
        slice_id: Seq<char>,
        attempt: usize,
    ) -> Seq<QuestionRowModel> {
        ordered(select(self.questions, stale_on(run_id, slice_id, attempt)), asked_order())
    }

    pub open spec fn activate_attempt_refusal(
        self,
        run_id: Seq<char>,
        slice_id: Seq<char>,
        attempt: usize,
    ) -> Option<StoreError> {
        if !any(self.slices, may_advance(run_id, slice_id, attempt)) {
            Some(StoreError::StaleSliceAttempt)
        } else if !self.room(self.stale_questions(run_id, slice_id, attempt).len() as int) {
            Some(StoreError::EventLogFull)
        } else {
            None
        }
    }

    /// The slice goes on with an attempt, and pending questions of other attempts are interrupted.
    pub open spec fn activate_attempt(
        self,
        run_id: Seq<char>,
        slice_id: Seq<char>,
        attempt: usize,
        now: Timestamp,
    ) -> TablesModel {
        (TablesModel {
            slices: self.slices.map_values(slice_advanced(run_id, slice_id, attempt)),
            questions: self.questions.map_values(superseded(run_id, slice_id, attempt, now)),
            ..self
        }).with_question_events(
            run_id,
            self.stale_questions(run_id, slice_id, attempt),
            supersession_of(slice_id, attempt),
            now,
        )
    }

    /// What becomes of a question whose worker may have gone.
    pub open spec fn interrupt_if_inactive(
        self,
        run_id: Seq<char>,
        question_id: Seq<char>,
        reason: Seq<char>,
        now: Timestamp,
    ) -> Result<(WorkerQuestionModel, TablesModel), StoreError> {
        match self.question_row(question_id, run_id) {
            None => Err(StoreError::QuestionNotFound),
            Some(row) => if row.question.state != "pending"@ || self.attempt_is_active(
                run_id,
                row.question.slice_id,
                row.question.attempt,
                row.question.launch_id,
            ) {
                Ok((row.question, self))
            } else if !self.room(1) {
                Err(StoreError::EventLogFull)
            } else {
                let after = interrupted(row, reason, now);
                Ok(
                    (
                        after.question,
                        self.with_question_row(question_id, after).with_event(
                            run_id,
                            "worker_question_interrupted"@,
                            interruption_event(row.question, reason),
                            now,
                        ),
                    ),
                )
            },
        }
    }
}

pub(super) fn in_asked_order(rows: Vec<QuestionRow>) -> (r: Vec<QuestionRow>)
    ensures
        r.deep_view() == ordered(rows.deep_view(), asked_order()),
{
    let before = |a: &QuestionRow, b: &QuestionRow| -> (lt: bool)
        ensures
            lt == asked_order()(a@, b@),
        {
            a.question.asked_at.earlier(&b.question.asked_at) || (a.question.asked_at
                == b.question.asked_at && text_before(
                a.question.id.as_str(),
                b.question.id.as_str(),
            ))
        };
    order_rows(rows, before, Ghost(asked_order()))
}

impl Store {
    pub(super) fn pending_rows(&self, run_id: &str) -> (r: Vec<QuestionRow>)
        ensures
            r.deep_view() == ordered(select(self@.questions, pending_of(run_id@)), asked_order()),
    {
        let pending = |row: &QuestionRow| -> (b: bool)
            ensures
                b == pending_of(run_id@)(row@),
            {
                same_text(row.question.run_id.as_str(), run_id) && same_text(
                    row.question.state.as_str(),
                    "pending",
                )
            };
        let found = select_rows(&self.tables.questions, pending, Ghost(pending_of(run_id@)));
        in_asked_order(found)
    }

    fn question_index(&self, id: &str, run_id: &str) -> (r: Option<usize>)
        ensures
            match r {
                Some(i) => i < self.tables.questions.len() && self@.question_row(id@, run_id@)
                    == Some(self.tables.questions@[i as int]@) && self.tables.questions@[i as int]@.question.id
                    == id@,
                None => self@.question_row(id@, run_id@) is None,
            },
    {
        let in_run = |row: &QuestionRow| -> (b: bool)
            ensures
                b == question_in_run(id@, run_id@)(row@),
            {
                same_text(row.question.id.as_str(), id) && same_text(
                    row.question.run_id.as_str(),
                    run_id,
                )
            };
        find_row(&self.tables.questions, in_run, Ghost(question_in_run(id@, run_id@)))
    }

    fn replace_question(&mut self, id: &str, after: &QuestionRow)
        requires
            old(self)@.valid(),
            after@.question.id == id@,
        ensures
            final(self)@.valid(),
            old(self)@.one_active_run() ==> final(self)@.one_active_run(),
            final(self)@ == old(self)@.with_question_row(id@, after@),
    {
        let replace = |row: &QuestionRow| -> (out: Option<QuestionRow>)
            ensures
                match out {
                    Some(m) => m@ == question_replaced(id@, after@)(row@),
                    None => question_replaced(id@, after@)(row@) == row@,
                },
            {
                if same_text(row.question.id.as_str(), id) {
                    Some(after.dup())
                } else {
                    None
                }
            };
        proof {
            lemma_unique_map(self@.questions, question_key(), question_replaced(id@, after@));
        }
        update_rows(
            &mut self.tables.questions,
            replace,
            Ghost(question_replaced(id@, after@)),
        );
    }

    fn has_question(&self, id: &str) -> (r: bool)
        ensures
            r == any(self@.questions, question_with_id(id@)),
    {
        let with_id = |row: &QuestionRow| -> (b: bool)
            ensures
                b == question_with_id(id@)(row@),
            { same_text(row.question.id.as_str(), id) };
        find_row(&self.tables.questions, with_id, Ghost(question_with_id(id@))).is_some()
    }

    fn push_question(&mut self, question: &WorkerQuestion)
        requires
            old(self)@.valid(),
            !any(old(self)@.questions, question_with_id(question@.id)),
        ensures
            final(self)@.valid(),
            old(self)@.one_active_run() ==> final(self)@.one_active_run(),
            final(self)@ == old(self)@.with_question(question@),
    {
        let row = QuestionRow { question: question.dup(), resolution: None };
        proof {
            lemma_unique_push(
                self@.questions,
                question_key(),
                row@,
                question_with_id(question@.id),
            );
        }
        push_row(&mut self.tables.questions, row);
    }

    /// Whether an attempt waits for an answer.
    pub fn has_pending_worker_question(&self, run_id: &str, slice_id: &str, attempt: usize) -> (r:
        Result<bool, StoreError>)
        ensures
            r == Ok::<bool, StoreError>(
                any(self@.questions, pending_for_launch(run_id@, slice_id@, attempt, None)),
            ),
    {
        self.has_pending_worker_question_with_launch_id(run_id, slice_id, attempt, None)
    }

    /// Whether an attempt waits for an answer to a question of this launch, or of none.
    pub fn has_pending_worker_question_with_launch_id(
        &self,
        run_id: &str,
        slice_id: &str,
        attempt: usize,
        launch_id: Option<i64>,
    ) -> (r: Result<bool, StoreError>)
        ensures
            r == Ok::<bool, StoreError>(
                any(self@.questions, pending_for_launch(run_id@, slice_id@, attempt, launch_id)),
            ),
    {
        let pending = |row: &QuestionRow| -> (b: bool)
            ensures
                b == pending_for_launch(run_id@, slice_id@, attempt, launch_id)(row@),
            {
                same_text(row.question.run_id.as_str(), run_id) && same_text(
                    row.question.slice_id.as_str(),
                    slice_id,
                ) && row.question.attempt == attempt && same_text(
                    row.question.state.as_str(),
                    "pending",
                ) && (row.question.launch_id.is_none() || row.question.launch_id.same(&launch_id))
            };
        Ok(
            find_row(
                &self.tables.questions,
                pending,
                Ghost(pending_for_launch(run_id@, slice_id@, attempt, launch_id)),
            ).is_some(),
        )
    }

    /// Adds a question without a recommendation.
    pub fn insert_worker_question(
        &mut self,
        id: &str,
        run_id: &str,
        slice_id: &str,
        attempt: usize,
        question: &str,
        options: &Vec<String>,
        timeout_seconds: u64,
        now: Timestamp,
    ) -> (r: Result<WorkerQuestion, StoreError>)
        requires
            old(self)@.valid(),
            timeout_seconds <= MAX_TIMEOUT_SECONDS,
            now.writable(),
            deadline_is_writable(now, timeout_seconds),
        ensures
            final(self)@.valid(),
            old(self)@.one_active_run() ==> final(self)@.one_active_run(),
            ({
                let added = new_question(
                    id@,
                    run_id@,
                    slice_id@,
                    attempt,
                    None,
                    question@,
                    options.deep_view(),
                    timeout_seconds,
                    WorkerQuestionRecommendationModel::empty(),
                    now,
                );
                if any(old(self)@.questions, question_with_id(id@)) {
                    r == Err::<WorkerQuestion, StoreError>(StoreError::QuestionExists) && final(self)@ == old(self)@
                } else {
                    res(r) == Ok::<WorkerQuestionModel, StoreError>(added) && final(self)@ == old(self)@.with_question(added)
                }
            }),
    {
        let none = WorkerQuestionRecommendation::default();
        self.insert_worker_question_with_recommendation(
            id,
            run_id,
            slice_id,
            attempt,
            question,
            options,
            timeout_seconds,
            &none,
            now,
        )
    }

    /// Adds a question.
    pub fn insert_worker_question_with_recommendation(
        &mut self,
        id: &str,
        run_id: &str,
        slice_id: &str,
        attempt: usize,
        question: &str,
        options: &Vec<String>,
        timeout_seconds: u64,
        recommendation: &WorkerQuestionRecommendation,
        now: Timestamp,
    ) -> (r: Result<WorkerQuestion, StoreError>)
        requires
            old(self)@.valid(),
            timeout_seconds <= MAX_TIMEOUT_SECONDS,
            now.writable(),
            deadline_is_writable(now, timeout_seconds),
        ensures
            final(self)@.valid(),
            old(self)@.one_active_run() ==> final(self)@.one_active_run(),
            ({
                let added = new_question(
                    id@,
                    run_id@,
                    slice_id@,
                    attempt,
                    None,
                    question@,
                    options.deep_view(),
                    timeout_seconds,
                    recommendation@,
                    now,
                );
                if any(old(self)@.questions, question_with_id(id@)) {
                    r == Err::<WorkerQuestion, StoreError>(StoreError::QuestionExists) && final(self)@ == old(self)@
                } else {
                    res(r) == Ok::<WorkerQuestionModel, StoreError>(added) && final(self)@ == old(self)@.with_question(added)
                }
            }),
    {
        self.insert_worker_question_with_launch_id_and_recommendation(
            id,
            run_id,
            slice_id,
            attempt,
            None,
            question,
            options,
            timeout_seconds,
            recommendation,
            now,
        )
    }

    /// Adds a question of a launch.
    pub fn insert_worker_question_with_launch_id_and_recommendation(
        &mut self,
        id: &str,
        run_id: &str,
        slice_id: &str,
        attempt: usize,
        launch_id: Option<i64>,
        question: &str,
        options: &Vec<String>,
        timeout_seconds: u64,
        recommendation: &WorkerQuestionRecommendation,
        now: Timestamp,
    ) -> (r: Result<WorkerQuestion, StoreError>)
        requires
            old(self)@.valid(),
            timeout_seconds <= MAX_TIMEOUT_SECONDS,
            now.writable(),
            deadline_is_writable(now, timeout_seconds),
        ensures
            final(self)@.valid(),
            old(self)@.one_active_run() ==> final(self)@.one_active_run(),
            ({
                let added = new_question(
                    id@,
                    run_id@,
                    slice_id@,
                    attempt,
                    launch_id,
                    question@,
                    options.deep_view(),
                    timeout_seconds,
                    recommendation@,
                    now,
                );
                if any(old(self)@.questions, question_with_id(id@)) {
                    r == Err::<WorkerQuestion, StoreError>(StoreError::QuestionExists) && final(self)@ == old(self)@
                } else {
                    res(r) == Ok::<WorkerQuestionModel, StoreError>(added) && final(self)@ == old(self)@.with_question(added)
                }
            }),
    {
        if self.has_question(id) {
            return Err(StoreError::QuestionExists);
        }
        let added = build_question(
            id,
            run_id,
            slice_id,
            attempt,
            launch_id,
            question,
            options,
            timeout_seconds,
            recommendation,
            now,
        );
        self.push_question(&added);
        Ok(added)
    }

    /// Opens a question of an active worker: the question, its event and the waiting progress
    /// appear together or not at all. `asked_event` makes the payload of the event out of the
    /// question; where the question is refused, it is not called.
    pub fn open_active_worker_question_with_recommendation<F>(
        &mut self,
        id: &str,
        run_id: &str,
        slice_id: &str,
        attempt: usize,
        question: &str,
        options: &Vec<String>,
        timeout_seconds: u64,
        recommendation: &WorkerQuestionRecommendation,
        asked_event_type: &str,
        asked_event: F,
        progress_message: &str,
        now: Timestamp,
    ) -> (r: Result<WorkerQuestion, StoreError>) where
        F: FnOnce(&WorkerQuestion) -> Result<EventPayload, StoreError>,

        requires
            old(self)@.valid(),
            timeout_seconds <= MAX_TIMEOUT_SECONDS,
            old(self)@.open_question_refusal(id@, run_id@, slice_id@, attempt, None) is None ==> (
            forall|q: &WorkerQuestion|
                q@ == new_question(
                    id@,
                    run_id@,
                    slice_id@,
                    attempt,
                    None,
                    question@,
                    options.deep_view(),
                    timeout_seconds,
                    recommendation@,
                    now,
                ) ==> #[trigger] asked_event.requires((q,))),
            now.writable(),
            deadline_is_writable(now, timeout_seconds),
        ensures
            final(self)@.valid(),
            old(self)@.one_active_run() ==> final(self)@.one_active_run(),
            match old(self)@.open_question_refusal(id@, run_id@, slice_id@, attempt, None) {
                Some(error) => r == Err::<WorkerQuestion, StoreError>(error) && final(self)@ == old(self)@,
                None => exists|q: &WorkerQuestion, p: Result<EventPayload, StoreError>|
                    {
                        &&& #[trigger] asked_event.ensures((q,), p)
                        &&& q@ == new_question(
                            id@,
                            run_id@,
                            slice_id@,
                            attempt,
                            None,
                            question@,
                            options.deep_view(),
                            timeout_seconds,
                            recommendation@,
                            now,
                        )
                        &&& opened(
                            old(self)@,
                            final(self)@,
                            r,
                            q@,
                            p,
                            asked_event_type@,
                            progress_message@,
                            now,
                        )
                    },
            },
    {
        self.open_active_worker_question_with_launch_id_and_recommendation(
            id,
            run_id,
            slice_id,
            attempt,
            None,
            question,
            options,
            timeout_seconds,
            recommendation,
            asked_event_type,
            asked_event,
            progress_message,
            now,
        )
    }

    /// As above, for the worker of one launch.
    pub fn open_active_worker_question_with_launch_id_and_recommendation<F>(
        &mut self,
        id: &str,
        run_id: &str,
        slice_id: &str,
        attempt: usize,
        launch_id: Option<i64>,
        question: &str,
        options: &Vec<String>,
        timeout_seconds: u64,
        recommendation: &WorkerQuestionRecommendation,
        asked_event_type: &str,
        asked_event: F,
        progress_message: &str,
        now: Timestamp,
    ) -> (r: Result<WorkerQuestion, StoreError>) where
        F: FnOnce(&WorkerQuestion) -> Result<EventPayload, StoreError>,

        requires
            old(self)@.valid(),
            timeout_seconds <= MAX_TIMEOUT_SECONDS,
            old(self)@.open_question_refusal(id@, run_id@, slice_id@, attempt, launch_id) is None ==> (
            forall|q: &WorkerQuestion|
                q@ == new_question(
                    id@,
                    run_id@,
                    slice_id@,
                    attempt,
                    launch_id,
                    question@,
                    options.deep_view(),
                    timeout_seconds,
                    recommendation@,
                    now,
                ) ==> #[trigger] asked_event.requires((q,))),
            now.writable(),
            deadline_is_writable(now, timeout_seconds),
        ensures
            final(self)@.valid(),
            old(self)@.one_active_run() ==> final(self)@.one_active_run(),
            match old(self)@.open_question_refusal(id@, run_id@, slice_id@, attempt, launch_id) {
                Some(error) => r == Err::<WorkerQuestion, StoreError>(error) && final(self)@ == old(self)@,
                None => exists|q: &WorkerQuestion, p: Result<EventPayload, StoreError>|
                    {
                        &&& #[trigger] asked_event.ensures((q,), p)
                        &&& q@ == new_question(
                            id@,
                            run_id@,
                            slice_id@,
                            attempt,
                            launch_id,
                            question@,
                            options.deep_view(),
                            timeout_seconds,
                            recommendation@,
                            now,
                        )
                        &&& opened(
                            old(self)@,
                            final(self)@,
                            r,
                            q@,
                            p,
                            asked_event_type@,
                            progress_message@,
                            now,
                        )
                    },
            },
    {
        if !self.attempt_active(run_id, slice_id, attempt, launch_id) {
            return Err(StoreError::QuestionFromInactiveAttempt);
        }
        let pending = |row: &QuestionRow| -> (b: bool)
            ensures
                b == pending_on(run_id@, slice_id@, attempt)(row@),
            {
                same_text(row.question.run_id.as_str(), run_id) && same_text(
                    row.question.slice_id.as_str(),
                    slice_id,
                ) && row.question.attempt == attempt && same_text(
                    row.question.state.as_str(),
                    "pending",
                )
            };
        if find_row(
            &self.tables.questions,
            pending,
            Ghost(pending_on(run_id@, slice_id@, attempt)),
        ).is_some() {
            return Err(StoreError::PendingQuestionExists);
        }
        if self.has_question(id) {
            return Err(StoreError::QuestionExists);
        }
        let added = build_question(
            id,
            run_id,
            slice_id,
            attempt,
            launch_id,
            question,
            options,
            timeout_seconds,
            recommendation,
            now,
        );
        let asked = asked_event(&added);
        let payload = match asked {
            Ok(payload) => payload,
            Err(error) => {
                return Err(error);
            },
        };
        if !self.has_room(1) {
            return Err(StoreError::EventLogFull);
        }
        self.push_question(&added);
        self.append_event(run_id, asked_event_type, payload, now);
        self.project_awaiting_operator_progress(run_id, slice_id, attempt, progress_message, now);
        Ok(added)
    }

    /// The question of this name.
    pub fn get_worker_question(&self, id: &str) -> (r: Result<Option<WorkerQuestion>, StoreError>)
        ensures
            res(r) == Ok::<Option<WorkerQuestionModel>, StoreError>(self@.question(id@)),
    {
        let with_id = |row: &QuestionRow| -> (b: bool)
            ensures
                b == question_with_id(id@)(row@),
            { same_text(row.question.id.as_str(), id) };
        match find_row(&self.tables.questions, with_id, Ghost(question_with_id(id@))) {
            Some(i) => Ok(Some(self.tables.questions[i].question.dup())),
            None => Ok(None),
        }
    }

    /// The questions of a run in the order in which they were asked.
    pub fn list_worker_questions(&self, run_id: &str) -> (r: Result<
        Vec<WorkerQuestion>,
        StoreError,
    >)
        ensures
            res(r) == Ok::<Seq<WorkerQuestionModel>, StoreError>(self@.questions_of(run_id@)),
    {
        let of_run = |row: &QuestionRow| -> (b: bool)
            ensures
                b == question_of_run(run_id@)(row@),
            { same_text(row.question.run_id.as_str(), run_id) };
        let found = select_rows(&self.tables.questions, of_run, Ghost(question_of_run(run_id@)));
        let sorted = in_asked_order(found);
        Ok(questions_only(&sorted))
    }

    fn run_is_in_repo(&self, run_id: &str, repo_path: &str) -> (r: bool)
        ensures
            r == any(self@.runs, run_in_repo(run_id@, repo_path@)),
    {
        let in_repo = |row: &RunRow| -> (b: bool)
            ensures
                b == run_in_repo(run_id@, repo_path@)(row@),
            {
                same_text(row.run.id.as_str(), run_id) && same_text(
                    row.run.repo_path.as_str(),
                    repo_path,
                )
            };
        find_row(&self.tables.runs, in_repo, Ghost(run_in_repo(run_id@, repo_path@))).is_some()
    }

    /// The questions of the runs of a repository in the order in which they were asked.
    pub fn list_worker_questions_for_repo(&self, repo_path: &str) -> (r: Result<
        Vec<WorkerQuestion>,
        StoreError,
    >)
        ensures
            res(r) == Ok::<Seq<WorkerQuestionModel>, StoreError>(
                self@.questions_of_repo(repo_path@),
            ),
    {
        let of_repo = |row: &QuestionRow| -> (b: bool)
            ensures
                b == question_of_repo(self@.runs, repo_path@)(row@),
            { self.run_is_in_repo(row.question.run_id.as_str(), repo_path) };
        let found = select_rows(
            &self.tables.questions,
            of_repo,
            Ghost(question_of_repo(self@.runs, repo_path@)),
        );
        let sorted = in_asked_order(found);
        Ok(questions_only(&sorted))
    }

    /// Closes a pending question whose worker is no longer active.
    pub fn interrupt_worker_question_if_inactive_cas(
        &mut self,
        run_id: &str,
        question_id: &str,
        reason: &str,
        now: Timestamp,
    ) -> (r: Result<WorkerQuestion, StoreError>)
        requires
            old(self)@.valid(),
            now.writable(),
        ensures
            final(self)@.valid(),
            old(self)@.one_active_run() ==> final(self)@.one_active_run(),
            match old(self)@.interrupt_if_inactive(run_id@, question_id@, reason@, now) {
                Err(error) => r == Err::<WorkerQuestion, StoreError>(error) && final(self)@ == old(self)@,
                Ok((question, after)) => res(r) == Ok::<WorkerQuestionModel, StoreError>(question)
                    && final(self)@ == after,
            },
    {
        let index = match self.question_index(question_id, run_id) {
            Some(index) => index,
            None => {
                return Err(StoreError::QuestionNotFound);
            },
        };
        let existing = self.tables.questions[index].dup();
        if !same_text(existing.question.state.as_str(), "pending") || self.attempt_active(
            run_id,
            existing.question.slice_id.as_str(),
            existing.question.attempt,
            existing.question.launch_id,
        ) {
            return Ok(existing.question);
        }
        if !self.has_room(1) {
            return Err(StoreError::EventLogFull);
        }
        let after = self.interrupt_question(run_id, question_id, &existing, reason, now);
        Ok(after)
    }

    fn interrupt_question(
        &mut self,
        run_id: &str,
        question_id: &str,
        existing: &QuestionRow,
        reason: &str,
        now: Timestamp,
    ) -> (r: WorkerQuestion)
        requires
            old(self)@.valid(),
            old(self)@.room(1),
            existing@.question.id == question_id@,
        ensures
            final(self)@.valid(),
            old(self)@.one_active_run() ==> final(self)@.one_active_run(),
            r@ == interrupted(existing@, reason@, now).question,
            final(self)@ == old(self)@.with_question_row(
                question_id@,
                interrupted(existing@, reason@, now),
            ).with_event(
                run_id@,
                "worker_question_interrupted"@,
                interruption_event(existing@.question, reason@),
                now,
            ),
    {
        let mut after = existing.dup();
        after.question.state = "interrupted".to_owned();
        after.question.answered_at = Some(now);
        after.question.answer = reason.to_owned();
        self.replace_question(question_id, &after);
        self.append_event(
            run_id,
            "worker_question_interrupted",
            EventPayload::WorkerQuestionInterrupted(
                WorkerQuestionInterruptedPayload {
                    question_id: existing.question.id.dup(),
                    slice_id: existing.question.slice_id.dup(),
                    attempt: existing.question.attempt,
                    launch_id: existing.question.launch_id,
                    active_attempt: None,
                    reason: reason.to_owned(),
                    terminal_status: None,
                },
            ),
            now,
        );
        after.question
    }

    fn transition_progress_after_worker_question_resolution(
        &mut self,
        run_id: &str,
        resolved: &WorkerQuestion,
        resume_message: &str,
        now: Timestamp,
    )
        requires
            old(self)@.valid(),
        ensures
            final(self)@.valid(),
            old(self)@.one_active_run() ==> final(self)@.one_active_run(),
            final(self)@ == old(self)@.after_resolution(
                run_id@,
                resolved@,
                resume_message@,
                now,
            ),
            final(self)@.last_event_id == old(self)@.last_event_id,
    {
        match self.earliest_pending(run_id) {
            Some(next) => {
                let mut waiting = "awaiting operator answer for question ".to_owned();
                waiting.append(next.question.id.as_str());
                self.project_awaiting_operator_progress(
                    run_id,
                    next.question.slice_id.as_str(),
                    next.question.attempt,
                    waiting.as_str(),
                    now,
                );
            },
            None => {
                self.resume_progress(
                    run_id,
                    resolved.slice_id.as_str(),
                    resolved.attempt,
                    resume_message,
                    now,
                );
            },
        }
    }

    /// Records an answer to a pending question, lets the run go on and appends the event.
    fn record_answer(
        &mut self,
        run_id: &str,
        existing: &QuestionRow,
        answer: &str,
        answer_source: WorkerQuestionAnswerSource,
        command: &WorkerQuestionDecisionCommand,
        resume_message: &str,
        now: Timestamp,
    ) -> (r: WorkerQuestion)
        requires
            old(self)@.valid(),
            old(self)@.room(1),
        ensures
            final(self)@.valid(),
            old(self)@.one_active_run() ==> final(self)@.one_active_run(),
            r@ == answered(existing@, answer@, answer_source, command@, now).question,
            final(self)@ == old(self)@.with_question_row(
                existing@.question.id,
                answered(existing@, answer@, answer_source, command@, now),
            ).after_resolution(run_id@, existing@.question, resume_message@, now).with_event(
                run_id@,
                "worker_question_answered"@,
                answer_event(existing@.question, answer@, answer_source),
                now,
            ),
    {
        let mut after = existing.dup();
        after.question.state = "answered".to_owned();
        after.question.answered_at = Some(now);
        after.question.answer = answer.to_owned();
        after.question.answer_source = Some(answer_source);
        after.resolution = Some(command.dup());
        self.replace_question(existing.question.id.as_str(), &after);
        self.transition_progress_after_worker_question_resolution(
            run_id,
            &existing.question,
            resume_message,
            now,
        );
        let payload = WorkerQuestionAnsweredPayload::from_question(
            &existing.question,
            answer,
            answer_source,
        );
        self.append_event(
            run_id,
            "worker_question_answered",
            EventPayload::WorkerQuestionAnswered(payload),
            now,
        );
        after.question
    }

    /// Answers a question or lets it time out. A question is resolved once.
    pub fn decide_worker_question_command(
        &mut self,
        run_id: &str,
        question_id: &str,
        command: &WorkerQuestionDecisionCommand,
        now: Timestamp,
    ) -> (r: Result<WorkerQuestionDecisionTransition, StoreError>)
        requires
            old(self)@.valid(),
            now.writable(),
        ensures
            final(self)@.valid(),
            old(self)@.one_active_run() ==> final(self)@.one_active_run(),
            match old(self)@.decide_question(run_id@, question_id@, command@, now) {
                Err(error) => r == Err::<WorkerQuestionDecisionTransition, StoreError>(error)
                    && final(self)@ == old(self)@,
                Ok((transition, after)) => res(r) == Ok::<
                    WorkerQuestionDecisionTransitionModel,
                    StoreError,
                >(transition) && final(self)@ == after,
            },
    {
        let index = match self.question_index(question_id, run_id) {
            Some(index) => index,
            None => {
                return Ok(
                    WorkerQuestionDecisionTransition {
                        outcome: DecisionCommandOutcome::NotFound,
                        question: None,
                    },
                );
            },
        };
        let existing = self.tables.questions[index].dup();
        match command {
            WorkerQuestionDecisionCommand::Answer { answer, answer_source, progress_message } => {
                self.decide_answer(
                    run_id,
                    &existing,
                    command,
                    answer.as_str(),
                    *answer_source,
                    progress_message.as_str(),
                    now,
                )
            },
            WorkerQuestionDecisionCommand::Timeout {
                expected_launch_id,
                apply_recommendation_at_deadline,
                incident_code,
                message_prefix,
                progress_message,
            } => {
                self.decide_timeout(
                    run_id,
                    question_id,
                    &existing,
                    command,
                    *expected_launch_id,
                    *apply_recommendation_at_deadline,
                    incident_code.as_str(),
                    message_prefix.as_str(),
                    progress_message.as_str(),
                    now,
                )
            },
        }
    }

    fn decide_answer(
        &mut self,
        run_id: &str,
        existing: &QuestionRow,
        command: &WorkerQuestionDecisionCommand,
        answer: &str,
        answer_source: WorkerQuestionAnswerSource,
        progress_message: &str,
        now: Timestamp,
    ) -> (r: Result<WorkerQuestionDecisionTransition, StoreError>)
        requires
            old(self)@.valid(),
            command@ == (WorkerQuestionDecisionCommandModel::Answer {
                answer: answer@,
                answer_source,
                progress_message: progress_message@,
            }),
        ensures
            final(self)@.valid(),
            old(self)@.one_active_run() ==> final(self)@.one_active_run(),
            match old(self)@.answer_question(
                run_id@,
                existing@,
                answer@,
                answer_source,
                progress_message@,
                now,
            ) {
                Err(error) => r == Err::<WorkerQuestionDecisionTransition, StoreError>(error)
                    && final(self)@ == old(self)@,
                Ok((transition, after)) => res(r) == Ok::<
                    WorkerQuestionDecisionTransitionModel,
                    StoreError,
                >(transition) && final(self)@ == after,
            },
    {
        let question = &existing.question;
        if !same_text(question.state.as_str(), "pending") {
            let idempotent = same_text(question.state.as_str(), "answered") && same_text(
                question.answer.as_str(),
                answer,
            ) && question.answer_source.same(&Some(answer_source)) && resolved_by(
                existing,
                command,
            );
            let outcome = if idempotent {
                DecisionCommandOutcome::AlreadyAppliedIdempotently
            } else {
                DecisionCommandOutcome::Conflict
            };
            return Ok(
                WorkerQuestionDecisionTransition { outcome, question: Some(question.dup()) },
            );
        }
        if !self.attempt_active(
            run_id,
            question.slice_id.as_str(),
            question.attempt,
            question.launch_id,
        ) {
            return Ok(
                WorkerQuestionDecisionTransition {
                    outcome: DecisionCommandOutcome::StaleToken,
                    question: Some(question.dup()),
                },
            );
        }
        if answer_source == WorkerQuestionAnswerSource::LlmRecommendationTimeout {
            let recommendation = question.recommendation();
            if !question.fallback_eligible || !recommendation.is_eligible(&question.options) {
                return Err(StoreError::NoEligibleRecommendation);
            }
            if !same_text(answer, question.recommended_answer.as_str()) {
                return Err(StoreError::AnswerNotRecommended);
            }
            match question.deadline_at {
                None => {
                    return Err(StoreError::NoFallbackDeadline);
                },
                Some(deadline) => {
                    if now.earlier(&deadline) {
                        return Err(StoreError::BeforeDeadline);
                    }
                },
            }
        }
        if !self.has_room(1) {
            return Err(StoreError::EventLogFull);
        }
        let after = self.record_answer(
            run_id,
            existing,
            answer,
            answer_source,
            command,
            progress_message,
            now,
        );
        Ok(
            WorkerQuestionDecisionTransition {
                outcome: DecisionCommandOutcome::Applied,
                question: Some(after),
            },
        )
    }

    fn decide_timeout(
        &mut self,
        run_id: &str,
        question_id: &str,
        existing: &QuestionRow,
        command: &WorkerQuestionDecisionCommand,
        expected_launch_id: Option<i64>,
        apply_recommendation_at_deadline: bool,
        incident_code: &str,
        message_prefix: &str,
        progress_message: &str,
        now: Timestamp,
    ) -> (r: Result<WorkerQuestionDecisionTransition, StoreError>)
        requires
            old(self)@.valid(),
            existing@.question.id == question_id@,
            command@ == (WorkerQuestionDecisionCommandModel::Timeout {
                expected_launch_id,
                apply_recommendation_at_deadline,
                incident_code: incident_code@,
                message_prefix: message_prefix@,
                progress_message: progress_message@,
            }),
        ensures
            final(self)@.valid(),
            old(self)@.one_active_run() ==> final(self)@.one_active_run(),
            match old(self)@.time_out_question(
                run_id@,
                existing@,
                expected_launch_id,
                apply_recommendation_at_deadline,
                incident_code@,
                message_prefix@,
                progress_message@,
                now,
            ) {
                Err(error) => r == Err::<WorkerQuestionDecisionTransition, StoreError>(error)
                    && final(self)@ == old(self)@,
                Ok((transition, after)) => res(r) == Ok::<
                    WorkerQuestionDecisionTransitionModel,
                    StoreError,
                >(transition) && final(self)@ == after,
            },
    {
        let question = &existing.question;
        let llm = WorkerQuestionAnswerSource::LlmRecommendationTimeout;
        if !question.launch_id.same(&expected_launch_id) {
            return Ok(
                WorkerQuestionDecisionTransition {
                    outcome: DecisionCommandOutcome::StaleToken,
                    question: Some(question.dup()),
                },
            );
        }
        if !same_text(question.state.as_str(), "pending") {
            let same_outcome = same_text(question.state.as_str(), "timed_out") || (
            apply_recommendation_at_deadline && same_text(question.state.as_str(), "answered")
                && question.answer_source.same(&Some(llm)));
            let outcome = if same_text(question.state.as_str(), "interrupted") {
                DecisionCommandOutcome::StaleToken
            } else if same_outcome && resolved_by(existing, command) {
                DecisionCommandOutcome::AlreadyAppliedIdempotently
            } else {
                DecisionCommandOutcome::Conflict
            };
            return Ok(
                WorkerQuestionDecisionTransition { outcome, question: Some(question.dup()) },
            );
        }
        if !self.has_room(1) {
            return Err(StoreError::EventLogFull);
        }
        if !self.attempt_active(
            run_id,
            question.slice_id.as_str(),
            question.attempt,
            question.launch_id,
        ) {
            let after = self.interrupt_question(
                run_id,
                question_id,
                existing,
                "worker attempt became inactive before question resolution",
                now,
            );
            return Ok(
                WorkerQuestionDecisionTransition {
                    outcome: DecisionCommandOutcome::StaleToken,
                    question: Some(after),
                },
            );
        }
        let recommendation = question.recommendation();
        let due = match question.deadline_at {
            Some(deadline) => !now.earlier(&deadline),
            None => false,
        };
        if apply_recommendation_at_deadline && due && question.fallback_eligible
            && recommendation.is_eligible(&question.options) {
            let mut resume_message = "LLM recommendation applied at deadline for ".to_owned();
            resume_message.append(question.id.as_str());
            resume_message.append("; worker resuming");
            let after = self.record_answer(
                run_id,
                existing,
                question.recommended_answer.as_str(),
                llm,
                command,
                resume_message.as_str(),
                now,
            );
            return Ok(
                WorkerQuestionDecisionTransition {
                    outcome: DecisionCommandOutcome::Applied,
                    question: Some(after),
                },
            );
        }
        let mut after = existing.dup();
        after.question.state = "timed_out".to_owned();
        after.question.answered_at = Some(now);
        after.resolution = Some(command.dup());
        self.replace_question(question_id, &after);
        self.transition_progress_after_worker_question_resolution(
            run_id,
            question,
            progress_message,
            now,
        );
        let mut message = message_prefix.to_owned();
        message.append(": ");
        message.append(question.question.as_str());
        let incident = RunIncidentPayload::warning(incident_code, message.as_str()).with_text(
            "question_id",
            question.id.as_str(),
        ).with_text("slice_id", question.slice_id.as_str());
        self.append_event(run_id, "run_incident", EventPayload::RunIncident(incident), now);
        Ok(
            WorkerQuestionDecisionTransition {
                outcome: DecisionCommandOutcome::Applied,
                question: Some(after.question),
            },
        )
    }

    /// Makes an attempt the one that works on its slice; the questions of other attempts are closed.
    pub fn activate_slice_attempt(
        &mut self,
        run_id: &str,
        slice_id: &str,
        attempt: usize,
        now: Timestamp,
    ) -> (r: Result<(), StoreError>)
        requires
            old(self)@.valid(),
            now.writable(),
        ensures
            final(self)@.valid(),
            old(self)@.one_active_run() ==> final(self)@.one_active_run(),
            match old(self)@.activate_attempt_refusal(run_id@, slice_id@, attempt) {
                Some(error) => r == Err::<(), StoreError>(error) && final(self)@ == old(self)@,
                None => r is Ok && final(self)@ == old(self)@.activate_attempt(
                    run_id@,
                    slice_id@,
                    attempt,
                    now,
                ),
            },
    {
        let can_advance = |row: &SliceRun| -> (b: bool)
            ensures
                b == may_advance(run_id@, slice_id@, attempt)(row@),
            { advances(row, run_id, slice_id, attempt) };
        if find_row(
            &self.tables.slices,
            can_advance,
            Ghost(may_advance(run_id@, slice_id@, attempt)),
        ).is_none() {
            return Err(StoreError::StaleSliceAttempt);
        }
        let stale = |row: &QuestionRow| -> (b: bool)
            ensures
                b == stale_on(run_id@, slice_id@, attempt)(row@),
            { is_stale(row, run_id, slice_id, attempt) };
        let found = select_rows(
            &self.tables.questions,
            stale,
            Ghost(stale_on(run_id@, slice_id@, attempt)),
        );
        let rows = in_asked_order(found);
        if !self.has_room(rows.len()) {
            return Err(StoreError::EventLogFull);
        }
        let advance = |row: &SliceRun| -> (out: Option<SliceRun>)
            ensures
                match out {
                    Some(m) => m@ == slice_advanced(run_id@, slice_id@, attempt)(row@),
                    None => slice_advanced(run_id@, slice_id@, attempt)(row@) == row@,
                },
            {
                if advances(row, run_id, slice_id, attempt) {
                    let mut m = row.dup();
                    m.attempts = attempt;
                    Some(m)
                } else {
                    None
                }
            };
        let mut answer = "superseded by worker attempt ".to_owned();
        append_decimal(&mut answer, attempt as u64);
        let supersede = |row: &QuestionRow| -> (out: Option<QuestionRow>)
            ensures
                match out {
                    Some(m) => m@ == superseded(run_id@, slice_id@, attempt, now)(row@),
                    None => superseded(run_id@, slice_id@, attempt, now)(row@) == row@,
                },
            {
                if is_stale(row, run_id, slice_id, attempt) {
                    let mut m = row.dup();
                    m.question.state = "interrupted".to_owned();
                    m.question.answered_at = Some(now);
                    m.question.answer = answer.dup();
                    Some(m)
                } else {
                    None
                }
            };
        proof {
            lemma_unique_map(
                self@.slices,
                slice_key(),
                slice_advanced(run_id@, slice_id@, attempt),
            );
            lemma_unique_map(
                self@.questions,
                question_key(),
                superseded(run_id@, slice_id@, attempt, now),
            );
        }
        update_rows(
            &mut self.tables.slices,
            advance,
            Ghost(slice_advanced(run_id@, slice_id@, attempt)),
        );
        update_rows(
            &mut self.tables.questions,
            supersede,
            Ghost(superseded(run_id@, slice_id@, attempt, now)),
        );
        let payload = |row: &QuestionRow| -> (out: EventPayload)
            ensures
                out@ == supersession_of(slice_id@, attempt)(row@),
            {
                EventPayload::WorkerQuestionInterrupted(
                    WorkerQuestionInterruptedPayload {
                        question_id: row.question.id.dup(),
                        slice_id: slice_id.to_owned(),
                        attempt: row.question.attempt,
                        launch_id: None,
                        active_attempt: Some(attempt),
                        reason: "superseded_by_worker_attempt".to_owned(),
                        terminal_status: None,
                    },
                )
            };
        self.append_question_events(
            run_id,
            &rows,
            payload,
            Ghost(supersession_of(slice_id@, attempt)),
            now,
        );
        Ok(())
    }

    /// Appends one event for each of the questions.
    pub(super) fn append_question_events<F: Fn(&QuestionRow) -> EventPayload>(
        &mut self,
        run_id: &str,
        rows: &Vec<QuestionRow>,
        payload: F,
        Ghost(g): Ghost<spec_fn(QuestionRowModel) -> EventPayloadModel>,
        now: Timestamp,
    )
        requires
            old(self)@.valid(),
            old(self)@.room(rows.len() as int),
            forall|row: &QuestionRow| #[trigger] payload.requires((row,)),
            forall|row: &QuestionRow, out: EventPayload| #[trigger]
                payload.ensures((row,), out) ==> out@ == g(row@),
        ensures
            final(self)@.valid(),
            old(self)@.one_active_run() ==> final(self)@.one_active_run(),
            final(self)@ == old(self)@.with_question_events(run_id@, rows.deep_view(), g, now),
            final(self)@ == (TablesModel {
                events: final(self)@.events,
                last_event_id: (old(self)@.last_event_id + rows.len()) as i64,
                ..old(self)@
            }),
    {
        let mut i: usize = 0;
        let ghost before = self@;
        assert(rows.deep_view().take(0) =~= Seq::empty());
        while i < rows.len()
            invariant
                i <= rows.len(),
                before.room(rows.len() as int),
                self@ == before.with_question_events(
                    run_id@,
                    rows.deep_view().take(i as int),
                    g,
                    now,
                ),
                self@ == (TablesModel {
                    events: self@.events,
                    last_event_id: (before.last_event_id + i) as i64,
                    ..before
                }),
                self@.valid(),
                before.one_active_run() ==> self@.one_active_run(),
                forall|row: &QuestionRow| #[trigger] payload.requires((row,)),
                forall|row: &QuestionRow, out: EventPayload| #[trigger]
                    payload.ensures((row,), out) ==> out@ == g(row@),
            decreases rows.len() - i,
        {
            proof {
                let part = rows.deep_view().take(i + 1);
                assert(part.drop_last() =~= rows.deep_view().take(i as int));
                assert(part.last() == rows@[i as int]@);
            }
            let out = payload(&rows[i]);
            self.append_event(run_id, "worker_question_interrupted", out, now);
            i = i + 1;
        }
        assert(rows.deep_view().take(i as int) =~= rows.deep_view());
    }
}

/// What opening a question leads to, given the payload that was made for its event.
pub open spec fn opened(
    before: TablesModel,
    after: TablesModel,
    r: Result<WorkerQuestion, StoreError>,
    question: WorkerQuestionModel,
    payload: Result<EventPayload, StoreError>,
    asked_event_type: Seq<char>,
    progress_message: Seq<char>,
    now: Timestamp,
) -> bool {
    match payload {
        Err(error) => r == Err::<WorkerQuestion, StoreError>(error) && after == before,
        Ok(payload) => if !before.room(1) {
            r == Err::<WorkerQuestion, StoreError>(StoreError::EventLogFull) && after == before
        } else {
            res(r) == Ok::<WorkerQuestionModel, StoreError>(question) && after
                == before.open_question(
                question,
                asked_event_type,
                payload@,
                progress_message,
                now,
            )
        },
    }
}

fn resolved_by(row: &QuestionRow, command: &WorkerQuestionDecisionCommand) -> (r: bool)
    ensures
        r == (row@.resolution == Some(command@)),
{
    match &row.resolution {
        Some(resolution) => resolution.same(command),
        None => false,
    }
}

fn advances(row: &SliceRun, run_id: &str, slice_id: &str, attempt: usize) -> (r: bool)
    ensures
        r == may_advance(run_id@, slice_id@, attempt)(row@),
{
    same_text(row.run_id.as_str(), run_id) && same_text(row.slice_id.as_str(), slice_id)
        && super::attempts::slice_is_open(row.status) && row.attempts <= attempt
}

fn is_stale(row: &QuestionRow, run_id: &str, slice_id: &str, attempt: usize) -> (r: bool)
    ensures
        r == stale_on(run_id@, slice_id@, attempt)(row@),
{
    same_text(row.question.run_id.as_str(), run_id) && same_text(
        row.question.slice_id.as_str(),
        slice_id,
    ) && same_text(row.question.state.as_str(), "pending") && row.question.attempt != attempt
}

fn questions_only(rows: &Vec<QuestionRow>) -> (r: Vec<WorkerQuestion>)
    ensures
        r.deep_view() == rows.deep_view().map_values(question_only()),
{
    let only = |row: &QuestionRow| -> (out: WorkerQuestion)
        ensures
            out@ == question_only()(row@),
        { row.question.dup() };
    project_rows(rows, only, Ghost(question_only()))
}

fn build_question(
    id: &str,
    run_id: &str,
    slice_id: &str,
    attempt: usize,
    launch_id: Option<i64>,
    question: &str,
    options: &Vec<String>,
    timeout_seconds: u64,
    recommendation: &WorkerQuestionRecommendation,
    now: Timestamp,
) -> (r: WorkerQuestion)
    ensures
        r@ == new_question(
            id@,
            run_id@,
            slice_id@,
            attempt,
            launch_id,
            question@,
            options.deep_view(),
            timeout_seconds,
            recommendation@,
            now,
        ),
{
    let deadline_at: Option<Timestamp> = if timeout_seconds == 0 {
        None
    } else {
        now.checked_add_seconds(timeout_seconds)
    };
    WorkerQuestion {
        id: id.to_owned(),
        run_id: run_id.to_owned(),
        slice_id: slice_id.to_owned(),
        attempt,
        launch_id,
        question: question.to_owned(),
        options: options.dup(),
        timeout_seconds,
        recommended_answer: recommendation.recommended_answer.dup(),
        recommendation_rationale: recommendation.rationale.dup(),
        bounded_within_current_slice_or_mission_authority: recommendation.bounded_within_current_slice_or_mission_authority,
        reversible: recommendation.reversible,
        fallback_eligible: recommendation.is_eligible(options),
        deadline_at,
        state: "pending".to_owned(),
        asked_at: now,
        answered_at: None,
        answer: String::new(),
        answer_source: None,
    }
}

impl WorkerQuestionAnsweredPayload {
    pub fn from_question(
        question: &WorkerQuestion,
        answer: &str,
        answer_source: WorkerQuestionAnswerSource,
    ) -> (r: WorkerQuestionAnsweredPayload)
        ensures
            EventPayloadModel::WorkerQuestionAnswered(r@) == answer_event(
                question@,
                answer@,
                answer_source,
            ),
    {
        WorkerQuestionAnsweredPayload {
            question_id: question.id.dup(),
            slice_id: question.slice_id.dup(),
            launch_id: question.launch_id,
            answer: answer.to_owned(),
            answer_source: answer_source.as_str().to_owned(),
            recommended_answer: question.recommended_answer.dup(),
            recommendation_rationale: question.recommendation_rationale.dup(),
        }
    }
}

} // verus!
