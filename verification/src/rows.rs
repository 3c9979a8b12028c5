//! The tables of the store, the commands that it takes and the answers that it gives.
use crate::domain::{
    DecisionCommandOutcome, FrontierBudgetState, FrontierBudgetStateModel, FrontierClassification,
    FrontierClassificationModel, IntegrationMergeIntent, IntegrationMergeIntentModel,
    IntegrationMergePrepareOutcome, MissionEnvelope, MissionEnvelopeModel, ReplanProposal,
    ReplanProposalModel, ReplanProposalState, Run, RunAdmissionOutcome,
    RunLaunchIntent, RunLaunchIntentModel, RunModel, RunProgress, RunProgressModel, RunStatus,
    SliceRun, SliceRunModel, TerminalTransition, TerminalTransitionModel, WorkerAttemptLedger,
    WorkerAttemptLedgerModel, WorkerQuestion, WorkerQuestionAnswerSource, WorkerQuestionModel,
};
use crate::payloads::{Event, EventModel};
use crate::table::Row;
use crate::text::{blank, is_blank};
use crate::time::Timestamp;
use vstd::prelude::*;
use vstd::string::*;

verus! {

/// A repository, with the text of the time at which it became known.
#[derive(Debug, Clone, PartialEq, Eq)]
pub struct RepoRow {
    pub id: String,
    pub path: String,
    pub created_at: String,
}

#[verifier::ext_equal]
pub struct RepoRowModel {
    pub id: Seq<char>,
    pub path: Seq<char>,
    pub created_at: Seq<char>,
}

impl DeepView for RepoRow {
    type V = RepoRowModel;

    open spec fn deep_view(&self) -> RepoRowModel {
        RepoRowModel {
            id: self.id.deep_view(),
            path: self.path.deep_view(),
            created_at: self.created_at.deep_view(),
        }
    }
}

impl View for RepoRow {
    type V = RepoRowModel;

    open spec fn view(&self) -> RepoRowModel {
        self.deep_view()
    }
}

impl Row for RepoRow {
    fn dup(&self) -> (r: Self) {
        RepoRow { id: self.id.dup(), path: self.path.dup(), created_at: self.created_at.dup() }
    }

    fn same(&self, other: &Self) -> (r: bool) {
        self.id.same(&other.id) && self.path.same(&other.path) && self.created_at.same(
            &other.created_at,
        )
    }
}

/// A run with what is kept beside it.
#[derive(Debug, Clone, PartialEq, Eq)]
pub struct RunRow {
    pub run: Run,
    pub execution_epoch: i64,
    pub mission_envelope: Option<MissionEnvelope>,
    pub frontier_budget: Option<FrontierBudgetState>,
}

#[verifier::ext_equal]
pub struct RunRowModel {
    pub run: RunModel,
    pub execution_epoch: i64,
    pub mission_envelope: Option<MissionEnvelopeModel>,
    pub frontier_budget: Option<FrontierBudgetStateModel>,
}

impl DeepView for RunRow {
    type V = RunRowModel;

    open spec fn deep_view(&self) -> RunRowModel {
        RunRowModel {
            run: self.run.deep_view(),
            execution_epoch: self.execution_epoch.deep_view(),
            mission_envelope: self.mission_envelope.deep_view(),
            frontier_budget: self.frontier_budget.deep_view(),
        }
    }
}

impl View for RunRow {
    type V = RunRowModel;

    open spec fn view(&self) -> RunRowModel {
        self.deep_view()
    }
}

impl Row for RunRow {
    fn dup(&self) -> (r: Self) {
        RunRow {
            run: self.run.dup(),
            execution_epoch: self.execution_epoch.dup(),
            mission_envelope: self.mission_envelope.dup(),
            frontier_budget: self.frontier_budget.dup(),
        }
    }

    fn same(&self, other: &Self) -> (r: bool) {
        self.run.same(&other.run)
            && self.execution_epoch.same(&other.execution_epoch)
            && self.mission_envelope.same(&other.mission_envelope)
            && self.frontier_budget.same(&other.frontier_budget)
    }
}

/// What has been observed of a worker process.
#[derive(Debug, Clone, PartialEq, Eq)]
pub struct WorkerObservation {
    pub pid: Option<u32>,
    pub process_observed_at: Option<Timestamp>,
    pub last_event_at: Option<Timestamp>,
    pub last_event_kind: String,
    pub last_semantic_progress_at: Option<Timestamp>,
    pub last_semantic_progress_summary: String,
    pub attempt_timeout_seconds: u64,
    pub no_output_warning_seconds: u64,
}

#[verifier::ext_equal]
pub struct WorkerObservationModel {
    pub pid: Option<u32>,
    pub process_observed_at: Option<Timestamp>,
    pub last_event_at: Option<Timestamp>,
    pub last_event_kind: Seq<char>,
    pub last_semantic_progress_at: Option<Timestamp>,
    pub last_semantic_progress_summary: Seq<char>,
    pub attempt_timeout_seconds: u64,
    pub no_output_warning_seconds: u64,
}

impl DeepView for WorkerObservation {
    type V = WorkerObservationModel;

    open spec fn deep_view(&self) -> WorkerObservationModel {
        WorkerObservationModel {
            pid: self.pid.deep_view(),
            process_observed_at: self.process_observed_at.deep_view(),
            last_event_at: self.last_event_at.deep_view(),
            last_event_kind: self.last_event_kind.deep_view(),
            last_semantic_progress_at: self.last_semantic_progress_at.deep_view(),
            last_semantic_progress_summary: self.last_semantic_progress_summary.deep_view(),
            attempt_timeout_seconds: self.attempt_timeout_seconds.deep_view(),
            no_output_warning_seconds: self.no_output_warning_seconds.deep_view(),
        }
    }
}

impl View for WorkerObservation {
    type V = WorkerObservationModel;

    open spec fn view(&self) -> WorkerObservationModel {
        self.deep_view()
    }
}

impl Row for WorkerObservation {
    fn dup(&self) -> (r: Self) {
        WorkerObservation {
            pid: self.pid.dup(),
            process_observed_at: self.process_observed_at.dup(),
            last_event_at: self.last_event_at.dup(),
            last_event_kind: self.last_event_kind.dup(),
            last_semantic_progress_at: self.last_semantic_progress_at.dup(),
            last_semantic_progress_summary: self.last_semantic_progress_summary.dup(),
            attempt_timeout_seconds: self.attempt_timeout_seconds.dup(),
            no_output_warning_seconds: self.no_output_warning_seconds.dup(),
        }
    }

    fn same(&self, other: &Self) -> (r: bool) {
        self.pid.same(&other.pid)
            && self.process_observed_at.same(&other.process_observed_at)
            && self.last_event_at.same(&other.last_event_at)
            && self.last_event_kind.same(&other.last_event_kind)
            && self.last_semantic_progress_at.same(&other.last_semantic_progress_at)
            && self.last_semantic_progress_summary.same(&other.last_semantic_progress_summary)
            && self.attempt_timeout_seconds.same(&other.attempt_timeout_seconds)
            && self.no_output_warning_seconds.same(&other.no_output_warning_seconds)
    }
}

impl Default for WorkerObservation {
    fn default() -> (r: Self)
        ensures
            r@ == WorkerObservationModel::empty(),
    {
        let r = WorkerObservation {
            pid: None,
            process_observed_at: None,
            last_event_at: None,
            last_event_kind: String::new(),
            last_semantic_progress_at: None,
            last_semantic_progress_summary: String::new(),
            attempt_timeout_seconds: 0,
            no_output_warning_seconds: 0,
        };
        assert(r@ =~= WorkerObservationModel::empty());
        r
    }
}

impl WorkerObservationModel {
    /// All texts and lists empty, all numbers zero, all flags off.
    pub open spec fn empty() -> WorkerObservationModel {
        WorkerObservationModel {
            pid: None,
            process_observed_at: None,
            last_event_at: None,
            last_event_kind: Seq::<char>::empty(),
            last_semantic_progress_at: None,
            last_semantic_progress_summary: Seq::<char>::empty(),
            attempt_timeout_seconds: 0,
            no_output_warning_seconds: 0,
        }
    }
}

/// A worker launch with its token and what has been observed of it. The activity of `attempt` is absent here: it is derived when the launch is read.
#[derive(Debug, Clone, PartialEq, Eq)]
pub struct AttemptRow {
    pub attempt: WorkerAttemptLedger,
    pub worker_token_hash: String,
    pub observed: WorkerObservation,
}

#[verifier::ext_equal]
pub struct AttemptRowModel {
    pub attempt: WorkerAttemptLedgerModel,
    pub worker_token_hash: Seq<char>,
    pub observed: WorkerObservationModel,
}

impl DeepView for AttemptRow {
    type V = AttemptRowModel;

    open spec fn deep_view(&self) -> AttemptRowModel {
        AttemptRowModel {
            attempt: self.attempt.deep_view(),
            worker_token_hash: self.worker_token_hash.deep_view(),
            observed: self.observed.deep_view(),
        }
    }
}

impl View for AttemptRow {
    type V = AttemptRowModel;

    open spec fn view(&self) -> AttemptRowModel {
        self.deep_view()
    }
}

impl Row for AttemptRow {
    fn dup(&self) -> (r: Self) {
        AttemptRow {
            attempt: self.attempt.dup(),
            worker_token_hash: self.worker_token_hash.dup(),
            observed: self.observed.dup(),
        }
    }

    fn same(&self, other: &Self) -> (r: bool) {
        self.attempt.same(&other.attempt)
            && self.worker_token_hash.same(&other.worker_token_hash)
            && self.observed.same(&other.observed)
    }
}

/// The progress of a run.
#[derive(Debug, Clone, PartialEq, Eq)]
pub struct ProgressRow {
    pub run_id: String,
    pub phase: String,
    pub slice_id: String,
    pub attempt: usize,
    pub command: String,
    pub message: String,
    pub output_tail: String,
    pub phase_started_at: Timestamp,
    pub updated_at: Timestamp,
    pub worker_attempt_started_at: Option<Timestamp>,
    pub observed: WorkerObservation,
}

#[verifier::ext_equal]
pub struct ProgressRowModel {
    pub run_id: Seq<char>,
    pub phase: Seq<char>,
    pub slice_id: Seq<char>,
    pub attempt: usize,
    pub command: Seq<char>,
    pub message: Seq<char>,
    pub output_tail: Seq<char>,
    pub phase_started_at: Timestamp,
    pub updated_at: Timestamp,
    pub worker_attempt_started_at: Option<Timestamp>,
    pub observed: WorkerObservationModel,
}

impl DeepView for ProgressRow {
    type V = ProgressRowModel;

    open spec fn deep_view(&self) -> ProgressRowModel {
        ProgressRowModel {
            run_id: self.run_id.deep_view(),
            phase: self.phase.deep_view(),
            slice_id: self.slice_id.deep_view(),
            attempt: self.attempt.deep_view(),
            command: self.command.deep_view(),
            message: self.message.deep_view(),
            output_tail: self.output_tail.deep_view(),
            phase_started_at: self.phase_started_at.deep_view(),
            updated_at: self.updated_at.deep_view(),
            worker_attempt_started_at: self.worker_attempt_started_at.deep_view(),
            observed: self.observed.deep_view(),
        }
    }
}

impl View for ProgressRow {
    type V = ProgressRowModel;

    open spec fn view(&self) -> ProgressRowModel {
        self.deep_view()
    }
}

impl Row for ProgressRow {
    fn dup(&self) -> (r: Self) {
        ProgressRow {
            run_id: self.run_id.dup(),
            phase: self.phase.dup(),
            slice_id: self.slice_id.dup(),
            attempt: self.attempt.dup(),
            command: self.command.dup(),
            message: self.message.dup(),
            output_tail: self.output_tail.dup(),
            phase_started_at: self.phase_started_at.dup(),
            updated_at: self.updated_at.dup(),
            worker_attempt_started_at: self.worker_attempt_started_at.dup(),
            observed: self.observed.dup(),
        }
    }

    fn same(&self, other: &Self) -> (r: bool) {
        self.run_id.same(&other.run_id)
            && self.phase.same(&other.phase)
            && self.slice_id.same(&other.slice_id)
            && self.attempt.same(&other.attempt)
            && self.command.same(&other.command)
            && self.message.same(&other.message)
            && self.output_tail.same(&other.output_tail)
            && self.phase_started_at.same(&other.phase_started_at)
            && self.updated_at.same(&other.updated_at)
            && self.worker_attempt_started_at.same(&other.worker_attempt_started_at)
            && self.observed.same(&other.observed)
    }
}

/// A command that resolves a worker question.
#[derive(Debug, Clone, PartialEq, Eq)]
pub enum WorkerQuestionDecisionCommand {
    Answer { answer: String, answer_source: WorkerQuestionAnswerSource, progress_message: String },
    Timeout { expected_launch_id: Option<i64>, apply_recommendation_at_deadline: bool, incident_code: String, message_prefix: String, progress_message: String },
}

#[verifier::ext_equal]
pub enum WorkerQuestionDecisionCommandModel {
    Answer { answer: Seq<char>, answer_source: WorkerQuestionAnswerSource, progress_message: Seq<char> },
    Timeout { expected_launch_id: Option<i64>, apply_recommendation_at_deadline: bool, incident_code: Seq<char>, message_prefix: Seq<char>, progress_message: Seq<char> },
}

impl DeepView for WorkerQuestionDecisionCommand {
    type V = WorkerQuestionDecisionCommandModel;

    open spec fn deep_view(&self) -> WorkerQuestionDecisionCommandModel {
        match self {
            WorkerQuestionDecisionCommand::Answer { answer, answer_source, progress_message } => WorkerQuestionDecisionCommandModel::Answer {
                answer: answer.deep_view(),
                answer_source: answer_source.deep_view(),
                progress_message: progress_message.deep_view(),
            },
            WorkerQuestionDecisionCommand::Timeout { expected_launch_id, apply_recommendation_at_deadline, incident_code, message_prefix, progress_message } => WorkerQuestionDecisionCommandModel::Timeout {
                expected_launch_id: expected_launch_id.deep_view(),
                apply_recommendation_at_deadline: apply_recommendation_at_deadline.deep_view(),
                incident_code: incident_code.deep_view(),
                message_prefix: message_prefix.deep_view(),
                progress_message: progress_message.deep_view(),
            },
        }
    }
}

impl View for WorkerQuestionDecisionCommand {
    type V = WorkerQuestionDecisionCommandModel;

    open spec fn view(&self) -> WorkerQuestionDecisionCommandModel {
        self.deep_view()
    }
}

impl Row for WorkerQuestionDecisionCommand {
    fn dup(&self) -> (r: Self) {
        match self {
            WorkerQuestionDecisionCommand::Answer { answer, answer_source, progress_message } => WorkerQuestionDecisionCommand::Answer {
                answer: answer.dup(),
                answer_source: answer_source.dup(),
                progress_message: progress_message.dup(),
            },
            WorkerQuestionDecisionCommand::Timeout { expected_launch_id, apply_recommendation_at_deadline, incident_code, message_prefix, progress_message } => WorkerQuestionDecisionCommand::Timeout {
                expected_launch_id: expected_launch_id.dup(),
                apply_recommendation_at_deadline: apply_recommendation_at_deadline.dup(),
                incident_code: incident_code.dup(),
                message_prefix: message_prefix.dup(),
                progress_message: progress_message.dup(),
            },
        }
    }

    fn same(&self, other: &Self) -> (r: bool) {
        match (self, other) {
            (
                WorkerQuestionDecisionCommand::Answer { answer, answer_source, progress_message },
                WorkerQuestionDecisionCommand::Answer { answer: other_answer, answer_source: other_answer_source, progress_message: other_progress_message },
            ) => answer.same(other_answer) && answer_source.same(other_answer_source) && progress_message.same(other_progress_message),
            (
                WorkerQuestionDecisionCommand::Timeout { expected_launch_id, apply_recommendation_at_deadline, incident_code, message_prefix, progress_message },
                WorkerQuestionDecisionCommand::Timeout { expected_launch_id: other_expected_launch_id, apply_recommendation_at_deadline: other_apply_recommendation_at_deadline, incident_code: other_incident_code, message_prefix: other_message_prefix, progress_message: other_progress_message },
            ) => expected_launch_id.same(other_expected_launch_id) && apply_recommendation_at_deadline.same(other_apply_recommendation_at_deadline) && incident_code.same(other_incident_code) && message_prefix.same(other_message_prefix) && progress_message.same(other_progress_message),
            _ => false,
        }
    }
}

/// A worker question with the command that resolved it.
#[derive(Debug, Clone, PartialEq, Eq)]
pub struct QuestionRow {
    pub question: WorkerQuestion,
    pub resolution: Option<WorkerQuestionDecisionCommand>,
}

#[verifier::ext_equal]
pub struct QuestionRowModel {
    pub question: WorkerQuestionModel,
    pub resolution: Option<WorkerQuestionDecisionCommandModel>,
}

impl DeepView for QuestionRow {
    type V = QuestionRowModel;

    open spec fn deep_view(&self) -> QuestionRowModel {
        QuestionRowModel {
            question: self.question.deep_view(),
            resolution: self.resolution.deep_view(),
        }
    }
}

impl View for QuestionRow {
    type V = QuestionRowModel;

    open spec fn view(&self) -> QuestionRowModel {
        self.deep_view()
    }
}

impl Row for QuestionRow {
    fn dup(&self) -> (r: Self) {
        QuestionRow {
            question: self.question.dup(),
            resolution: self.resolution.dup(),
        }
    }

    fn same(&self, other: &Self) -> (r: bool) {
        self.question.same(&other.question)
            && self.resolution.same(&other.resolution)
    }
}

/// Whether a step was made, by the text that was left of it.
#[derive(Debug, Clone, PartialEq, Eq)]
pub enum StepMark {
    NotMade,
    /// A text of nothing but white space, which most take for none.
    Blank(String),
    /// The text of the time of the step.
    Made(String),
}

#[verifier::ext_equal]
pub enum StepMarkModel {
    NotMade,
    Blank(Seq<char>),
    Made(Seq<char>),
}

impl DeepView for StepMark {
    type V = StepMarkModel;

    open spec fn deep_view(&self) -> StepMarkModel {
        match self {
            StepMark::NotMade => StepMarkModel::NotMade,
            StepMark::Blank(text) => StepMarkModel::Blank(text.deep_view()),
            StepMark::Made(text) => StepMarkModel::Made(text.deep_view()),
        }
    }
}

impl View for StepMark {
    type V = StepMarkModel;

    open spec fn view(&self) -> StepMarkModel {
        self.deep_view()
    }
}

impl Row for StepMark {
    fn dup(&self) -> (r: Self) {
        match self {
            StepMark::NotMade => StepMark::NotMade,
            StepMark::Blank(text) => StepMark::Blank(text.dup()),
            StepMark::Made(text) => StepMark::Made(text.dup()),
        }
    }

    fn same(&self, other: &Self) -> (r: bool) {
        match (self, other) {
            (StepMark::NotMade, StepMark::NotMade) => true,
            (StepMark::Blank(a), StepMark::Blank(b)) => a.same(b),
            (StepMark::Made(a), StepMark::Made(b)) => a.same(b),
            _ => false,
        }
    }
}

impl StepMarkModel {
    /// The mark of a step that was made at a time.
    pub open spec fn at(at: Timestamp) -> StepMarkModel {
        StepMarkModel::Made(at.text())
    }

    /// What a text says of a step.
    pub open spec fn of_text(text: Seq<char>) -> StepMarkModel {
        if text.len() == 0 {
            StepMarkModel::NotMade
        } else if blank(text) {
            StepMarkModel::Blank(text)
        } else {
            StepMarkModel::Made(text)
        }
    }

    pub open spec fn text(self) -> Seq<char> {
        match self {
            StepMarkModel::NotMade => Seq::empty(),
            StepMarkModel::Blank(text) => text,
            StepMarkModel::Made(text) => text,
        }
    }
}

impl StepMark {
    /// The mark of a step that was made at a time.
    pub fn at(at: Timestamp) -> (r: StepMark)
        ensures
            r@ == StepMarkModel::at(at),
    {
        StepMark::Made(at.to_rfc3339())
    }

    /// What a text says of a step.
    pub fn of_text(text: &str) -> (r: StepMark)
        ensures
            r@ == StepMarkModel::of_text(text@),
    {
        if text.is_empty() {
            StepMark::NotMade
        } else if is_blank(text) {
            StepMark::Blank(text.to_owned())
        } else {
            StepMark::Made(text.to_owned())
        }
    }

    /// The text that is left of a step.
    pub fn text(&self) -> (r: String)
        ensures
            r@ == self@.text(),
    {
        match self {
            StepMark::NotMade => {
                let r = String::new();
                assert(r@ =~= Seq::empty());
                r
            },
            StepMark::Blank(text) => text.dup(),
            StepMark::Made(text) => text.dup(),
        }
    }

    pub fn is_made(&self) -> (r: bool)
        ensures
            r == (self@ is Made),
    {
        matches!(self, StepMark::Made(_))
    }

    pub fn is_not_made(&self) -> (r: bool)
        ensures
            r == (self@ is NotMade),
    {
        matches!(self, StepMark::NotMade)
    }
}

/// The recorded end of a run and how far it has come.
#[derive(Debug, Clone, PartialEq, Eq)]
pub struct TerminalRow {
    pub run_id: String,
    pub status: RunStatus,
    pub error: String,
    pub progress_message: String,
    pub question_interruption_reason: String,
    pub intended_at: String,
    pub summary_written_at: StepMark,
    pub committed_at: StepMark,
    pub notification_bookkept_at: StepMark,
    pub cleanup_started_at: StepMark,
    pub cleanup_completed_at: StepMark,
}

#[verifier::ext_equal]
pub struct TerminalRowModel {
    pub run_id: Seq<char>,
    pub status: RunStatus,
    pub error: Seq<char>,
    pub progress_message: Seq<char>,
    pub question_interruption_reason: Seq<char>,
    pub intended_at: Seq<char>,
    pub summary_written_at: StepMarkModel,
    pub committed_at: StepMarkModel,
    pub notification_bookkept_at: StepMarkModel,
    pub cleanup_started_at: StepMarkModel,
    pub cleanup_completed_at: StepMarkModel,
}

impl DeepView for TerminalRow {
    type V = TerminalRowModel;

    open spec fn deep_view(&self) -> TerminalRowModel {
        TerminalRowModel {
            run_id: self.run_id.deep_view(),
            status: self.status.deep_view(),
            error: self.error.deep_view(),
            progress_message: self.progress_message.deep_view(),
            question_interruption_reason: self.question_interruption_reason.deep_view(),
            intended_at: self.intended_at.deep_view(),
            summary_written_at: self.summary_written_at.deep_view(),
            committed_at: self.committed_at.deep_view(),
            notification_bookkept_at: self.notification_bookkept_at.deep_view(),
            cleanup_started_at: self.cleanup_started_at.deep_view(),
            cleanup_completed_at: self.cleanup_completed_at.deep_view(),
        }
    }
}

impl View for TerminalRow {
    type V = TerminalRowModel;

    open spec fn view(&self) -> TerminalRowModel {
        self.deep_view()
    }
}

impl Row for TerminalRow {
    fn dup(&self) -> (r: Self) {
        TerminalRow {
            run_id: self.run_id.dup(),
            status: self.status.dup(),
            error: self.error.dup(),
            progress_message: self.progress_message.dup(),
            question_interruption_reason: self.question_interruption_reason.dup(),
            intended_at: self.intended_at.dup(),
            summary_written_at: self.summary_written_at.dup(),
            committed_at: self.committed_at.dup(),
            notification_bookkept_at: self.notification_bookkept_at.dup(),
            cleanup_started_at: self.cleanup_started_at.dup(),
            cleanup_completed_at: self.cleanup_completed_at.dup(),
        }
    }

    fn same(&self, other: &Self) -> (r: bool) {
        self.run_id.same(&other.run_id)
            && self.status.same(&other.status)
            && self.error.same(&other.error)
            && self.progress_message.same(&other.progress_message)
            && self.question_interruption_reason.same(&other.question_interruption_reason)
            && self.intended_at.same(&other.intended_at)
            && self.summary_written_at.same(&other.summary_written_at)
            && self.committed_at.same(&other.committed_at)
            && self.notification_bookkept_at.same(&other.notification_bookkept_at)
            && self.cleanup_started_at.same(&other.cleanup_started_at)
            && self.cleanup_completed_at.same(&other.cleanup_completed_at)
    }
}

/// An indexed status source, as the document that was captured.
#[derive(Debug, Clone, PartialEq, Eq)]
pub struct StatusSourceRow {
    pub run_id: String,
    pub source: String,
    pub payload_json: String,
    pub indexed_event_id: i64,
    pub content_sha256: String,
    pub observed_at: Timestamp,
}

#[verifier::ext_equal]
pub struct StatusSourceRowModel {
    pub run_id: Seq<char>,
    pub source: Seq<char>,
    pub payload_json: Seq<char>,
    pub indexed_event_id: i64,
    pub content_sha256: Seq<char>,
    pub observed_at: Timestamp,
}

impl DeepView for StatusSourceRow {
    type V = StatusSourceRowModel;

    open spec fn deep_view(&self) -> StatusSourceRowModel {
        StatusSourceRowModel {
            run_id: self.run_id.deep_view(),
            source: self.source.deep_view(),
            payload_json: self.payload_json.deep_view(),
            indexed_event_id: self.indexed_event_id.deep_view(),
            content_sha256: self.content_sha256.deep_view(),
            observed_at: self.observed_at.deep_view(),
        }
    }
}

impl View for StatusSourceRow {
    type V = StatusSourceRowModel;

    open spec fn view(&self) -> StatusSourceRowModel {
        self.deep_view()
    }
}

impl Row for StatusSourceRow {
    fn dup(&self) -> (r: Self) {
        StatusSourceRow {
            run_id: self.run_id.dup(),
            source: self.source.dup(),
            payload_json: self.payload_json.dup(),
            indexed_event_id: self.indexed_event_id.dup(),
            content_sha256: self.content_sha256.dup(),
            observed_at: self.observed_at.dup(),
        }
    }

    fn same(&self, other: &Self) -> (r: bool) {
        self.run_id.same(&other.run_id)
            && self.source.same(&other.source)
            && self.payload_json.same(&other.payload_json)
            && self.indexed_event_id.same(&other.indexed_event_id)
            && self.content_sha256.same(&other.content_sha256)
            && self.observed_at.same(&other.observed_at)
    }
}

/// The hash of the worker token of a run.
#[derive(Debug, Clone, PartialEq, Eq)]
pub struct WorkerTokenRow {
    pub run_id: String,
    pub token_hash: String,
    pub created_at: String,
}

#[verifier::ext_equal]
pub struct WorkerTokenRowModel {
    pub run_id: Seq<char>,
    pub token_hash: Seq<char>,
    pub created_at: Seq<char>,
}

impl DeepView for WorkerTokenRow {
    type V = WorkerTokenRowModel;

    open spec fn deep_view(&self) -> WorkerTokenRowModel {
        WorkerTokenRowModel {
            run_id: self.run_id.deep_view(),
            token_hash: self.token_hash.deep_view(),
            created_at: self.created_at.deep_view(),
        }
    }
}

impl View for WorkerTokenRow {
    type V = WorkerTokenRowModel;

    open spec fn view(&self) -> WorkerTokenRowModel {
        self.deep_view()
    }
}

impl Row for WorkerTokenRow {
    fn dup(&self) -> (r: Self) {
        WorkerTokenRow {
            run_id: self.run_id.dup(),
            token_hash: self.token_hash.dup(),
            created_at: self.created_at.dup(),
        }
    }

    fn same(&self, other: &Self) -> (r: bool) {
        self.run_id.same(&other.run_id)
            && self.token_hash.same(&other.token_hash)
            && self.created_at.same(&other.created_at)
    }
}

/// Everything that the store holds.
#[derive(Debug, Clone, PartialEq, Eq)]
pub struct Tables {
    pub repos: Vec<RepoRow>,
    pub runs: Vec<RunRow>,
    pub launches: Vec<RunLaunchIntent>,
    pub slices: Vec<SliceRun>,
    pub merges: Vec<IntegrationMergeIntent>,
    pub attempts: Vec<AttemptRow>,
    pub events: Vec<Event>,
    pub terminals: Vec<TerminalRow>,
    pub sources: Vec<StatusSourceRow>,
    pub progress: Vec<ProgressRow>,
    pub tokens: Vec<WorkerTokenRow>,
    pub questions: Vec<QuestionRow>,
    pub proposals: Vec<ReplanProposal>,
    pub last_event_id: i64,
    pub last_launch_id: i64,
}

#[verifier::ext_equal]
pub struct TablesModel {
    pub repos: Seq<RepoRowModel>,
    pub runs: Seq<RunRowModel>,
    pub launches: Seq<RunLaunchIntentModel>,
    pub slices: Seq<SliceRunModel>,
    pub merges: Seq<IntegrationMergeIntentModel>,
    pub attempts: Seq<AttemptRowModel>,
    pub events: Seq<EventModel>,
    pub terminals: Seq<TerminalRowModel>,
    pub sources: Seq<StatusSourceRowModel>,
    pub progress: Seq<ProgressRowModel>,
    pub tokens: Seq<WorkerTokenRowModel>,
    pub questions: Seq<QuestionRowModel>,
    pub proposals: Seq<ReplanProposalModel>,
    pub last_event_id: i64,
    pub last_launch_id: i64,
}

impl DeepView for Tables {
    type V = TablesModel;

    open spec fn deep_view(&self) -> TablesModel {
        TablesModel {
            repos: self.repos.deep_view(),
            runs: self.runs.deep_view(),
            launches: self.launches.deep_view(),
            slices: self.slices.deep_view(),
            merges: self.merges.deep_view(),
            attempts: self.attempts.deep_view(),
            events: self.events.deep_view(),
            terminals: self.terminals.deep_view(),
            sources: self.sources.deep_view(),
            progress: self.progress.deep_view(),
            tokens: self.tokens.deep_view(),
            questions: self.questions.deep_view(),
            proposals: self.proposals.deep_view(),
            last_event_id: self.last_event_id.deep_view(),
            last_launch_id: self.last_launch_id.deep_view(),
        }
    }
}

impl View for Tables {
    type V = TablesModel;

    open spec fn view(&self) -> TablesModel {
        self.deep_view()
    }
}

impl Row for Tables {
    fn dup(&self) -> (r: Self) {
        Tables {
            repos: self.repos.dup(),
            runs: self.runs.dup(),
            launches: self.launches.dup(),
            slices: self.slices.dup(),
            merges: self.merges.dup(),
            attempts: self.attempts.dup(),
            events: self.events.dup(),
            terminals: self.terminals.dup(),
            sources: self.sources.dup(),
            progress: self.progress.dup(),
            tokens: self.tokens.dup(),
            questions: self.questions.dup(),
            proposals: self.proposals.dup(),
            last_event_id: self.last_event_id.dup(),
            last_launch_id: self.last_launch_id.dup(),
        }
    }

    fn same(&self, other: &Self) -> (r: bool) {
        self.repos.same(&other.repos)
            && self.runs.same(&other.runs)
            && self.launches.same(&other.launches)
            && self.slices.same(&other.slices)
            && self.merges.same(&other.merges)
            && self.attempts.same(&other.attempts)
            && self.events.same(&other.events)
            && self.terminals.same(&other.terminals)
            && self.sources.same(&other.sources)
            && self.progress.same(&other.progress)
            && self.tokens.same(&other.tokens)
            && self.questions.same(&other.questions)
            && self.proposals.same(&other.proposals)
            && self.last_event_id.same(&other.last_event_id)
            && self.last_launch_id.same(&other.last_launch_id)
    }
}

/// How an automatic acceptance is recorded.
#[derive(Debug, Clone, PartialEq, Eq)]
pub struct FrontierAutoAcceptRecord {
    pub checkpoint: String,
    pub apply_mode: String,
}

#[verifier::ext_equal]
pub struct FrontierAutoAcceptRecordModel {
    pub checkpoint: Seq<char>,
    pub apply_mode: Seq<char>,
}

impl DeepView for FrontierAutoAcceptRecord {
    type V = FrontierAutoAcceptRecordModel;

    open spec fn deep_view(&self) -> FrontierAutoAcceptRecordModel {
        FrontierAutoAcceptRecordModel {
            checkpoint: self.checkpoint.deep_view(),
            apply_mode: self.apply_mode.deep_view(),
        }
    }
}

impl View for FrontierAutoAcceptRecord {
    type V = FrontierAutoAcceptRecordModel;

    open spec fn view(&self) -> FrontierAutoAcceptRecordModel {
        self.deep_view()
    }
}

impl Row for FrontierAutoAcceptRecord {
    fn dup(&self) -> (r: Self) {
        FrontierAutoAcceptRecord {
            checkpoint: self.checkpoint.dup(),
            apply_mode: self.apply_mode.dup(),
        }
    }

    fn same(&self, other: &Self) -> (r: bool) {
        self.checkpoint.same(&other.checkpoint)
            && self.apply_mode.same(&other.apply_mode)
    }
}

/// An automatic acceptance under the frontier policy.
#[derive(Debug, Clone, PartialEq, Eq)]
pub struct ReplanAutoAcceptCommand {
    pub classification: FrontierClassification,
    pub budget_before: FrontierBudgetState,
    pub budget_after: FrontierBudgetState,
    pub record: Option<FrontierAutoAcceptRecord>,
}

#[verifier::ext_equal]
pub struct ReplanAutoAcceptCommandModel {
    pub classification: FrontierClassificationModel,
    pub budget_before: FrontierBudgetStateModel,
    pub budget_after: FrontierBudgetStateModel,
    pub record: Option<FrontierAutoAcceptRecordModel>,
}

impl DeepView for ReplanAutoAcceptCommand {
    type V = ReplanAutoAcceptCommandModel;

    open spec fn deep_view(&self) -> ReplanAutoAcceptCommandModel {
        ReplanAutoAcceptCommandModel {
            classification: self.classification.deep_view(),
            budget_before: self.budget_before.deep_view(),
            budget_after: self.budget_after.deep_view(),
            record: self.record.deep_view(),
        }
    }
}

impl View for ReplanAutoAcceptCommand {
    type V = ReplanAutoAcceptCommandModel;

    open spec fn view(&self) -> ReplanAutoAcceptCommandModel {
        self.deep_view()
    }
}

impl Row for ReplanAutoAcceptCommand {
    fn dup(&self) -> (r: Self) {
        ReplanAutoAcceptCommand {
            classification: self.classification.dup(),
            budget_before: self.budget_before.dup(),
            budget_after: self.budget_after.dup(),
            record: self.record.dup(),
        }
    }

    fn same(&self, other: &Self) -> (r: bool) {
        self.classification.same(&other.classification)
            && self.budget_before.same(&other.budget_before)
            && self.budget_after.same(&other.budget_after)
            && self.record.same(&other.record)
    }
}

/// A command that decides a replan proposal.
#[derive(Debug, Clone, PartialEq, Eq)]
pub struct ReplanDecisionCommand {
    pub state: ReplanProposalState,
    pub rationale: String,
    pub authorizer: String,
    pub source: String,
    pub replacement_id: String,
    pub revisit_condition: String,
    pub auto_accept: Option<ReplanAutoAcceptCommand>,
}

#[verifier::ext_equal]
pub struct ReplanDecisionCommandModel {
    pub state: ReplanProposalState,
    pub rationale: Seq<char>,
    pub authorizer: Seq<char>,
    pub source: Seq<char>,
    pub replacement_id: Seq<char>,
    pub revisit_condition: Seq<char>,
    pub auto_accept: Option<ReplanAutoAcceptCommandModel>,
}

impl DeepView for ReplanDecisionCommand {
    type V = ReplanDecisionCommandModel;

    open spec fn deep_view(&self) -> ReplanDecisionCommandModel {
        ReplanDecisionCommandModel {
            state: self.state.deep_view(),
            rationale: self.rationale.deep_view(),
            authorizer: self.authorizer.deep_view(),
            source: self.source.deep_view(),
            replacement_id: self.replacement_id.deep_view(),
            revisit_condition: self.revisit_condition.deep_view(),
            auto_accept: self.auto_accept.deep_view(),
        }
    }
}

impl View for ReplanDecisionCommand {
    type V = ReplanDecisionCommandModel;

    open spec fn view(&self) -> ReplanDecisionCommandModel {
        self.deep_view()
    }
}

impl Row for ReplanDecisionCommand {
    fn dup(&self) -> (r: Self) {
        ReplanDecisionCommand {
            state: self.state.dup(),
            rationale: self.rationale.dup(),
            authorizer: self.authorizer.dup(),
            source: self.source.dup(),
            replacement_id: self.replacement_id.dup(),
            revisit_condition: self.revisit_condition.dup(),
            auto_accept: self.auto_accept.dup(),
        }
    }

    fn same(&self, other: &Self) -> (r: bool) {
        self.state.same(&other.state)
            && self.rationale.same(&other.rationale)
            && self.authorizer.same(&other.authorizer)
            && self.source.same(&other.source)
            && self.replacement_id.same(&other.replacement_id)
            && self.revisit_condition.same(&other.revisit_condition)
            && self.auto_accept.same(&other.auto_accept)
    }
}

/// The answer to an admission.
#[derive(Debug, Clone, PartialEq, Eq)]
pub struct RunAdmissionTransition {
    pub outcome: RunAdmissionOutcome,
    pub intent: Option<RunLaunchIntent>,
    pub active_run: Option<Run>,
}

#[verifier::ext_equal]
pub struct RunAdmissionTransitionModel {
    pub outcome: RunAdmissionOutcome,
    pub intent: Option<RunLaunchIntentModel>,
    pub active_run: Option<RunModel>,
}

impl DeepView for RunAdmissionTransition {
    type V = RunAdmissionTransitionModel;

    open spec fn deep_view(&self) -> RunAdmissionTransitionModel {
        RunAdmissionTransitionModel {
            outcome: self.outcome.deep_view(),
            intent: self.intent.deep_view(),
            active_run: self.active_run.deep_view(),
        }
    }
}

impl View for RunAdmissionTransition {
    type V = RunAdmissionTransitionModel;

    open spec fn view(&self) -> RunAdmissionTransitionModel {
        self.deep_view()
    }
}

impl Row for RunAdmissionTransition {
    fn dup(&self) -> (r: Self) {
        RunAdmissionTransition {
            outcome: self.outcome.dup(),
            intent: self.intent.dup(),
            active_run: self.active_run.dup(),
        }
    }

    fn same(&self, other: &Self) -> (r: bool) {
        self.outcome.same(&other.outcome)
            && self.intent.same(&other.intent)
            && self.active_run.same(&other.active_run)
    }
}

/// The answer to a request to prepare a merge.
#[derive(Debug, Clone, PartialEq, Eq)]
pub struct IntegrationMergePrepareTransition {
    pub outcome: IntegrationMergePrepareOutcome,
    pub intent: IntegrationMergeIntent,
}

#[verifier::ext_equal]
pub struct IntegrationMergePrepareTransitionModel {
    pub outcome: IntegrationMergePrepareOutcome,
    pub intent: IntegrationMergeIntentModel,
}

impl DeepView for IntegrationMergePrepareTransition {
    type V = IntegrationMergePrepareTransitionModel;

    open spec fn deep_view(&self) -> IntegrationMergePrepareTransitionModel {
        IntegrationMergePrepareTransitionModel {
            outcome: self.outcome.deep_view(),
            intent: self.intent.deep_view(),
        }
    }
}

impl View for IntegrationMergePrepareTransition {
    type V = IntegrationMergePrepareTransitionModel;

    open spec fn view(&self) -> IntegrationMergePrepareTransitionModel {
        self.deep_view()
    }
}

impl Row for IntegrationMergePrepareTransition {
    fn dup(&self) -> (r: Self) {
        IntegrationMergePrepareTransition {
            outcome: self.outcome.dup(),
            intent: self.intent.dup(),
        }
    }

    fn same(&self, other: &Self) -> (r: bool) {
        self.outcome.same(&other.outcome)
            && self.intent.same(&other.intent)
    }
}

/// The answer to a question command.
#[derive(Debug, Clone, PartialEq, Eq)]
pub struct WorkerQuestionDecisionTransition {
    pub outcome: DecisionCommandOutcome,
    pub question: Option<WorkerQuestion>,
}

#[verifier::ext_equal]
pub struct WorkerQuestionDecisionTransitionModel {
    pub outcome: DecisionCommandOutcome,
    pub question: Option<WorkerQuestionModel>,
}

impl DeepView for WorkerQuestionDecisionTransition {
    type V = WorkerQuestionDecisionTransitionModel;

    open spec fn deep_view(&self) -> WorkerQuestionDecisionTransitionModel {
        WorkerQuestionDecisionTransitionModel {
            outcome: self.outcome.deep_view(),
            question: self.question.deep_view(),
        }
    }
}

impl View for WorkerQuestionDecisionTransition {
    type V = WorkerQuestionDecisionTransitionModel;

    open spec fn view(&self) -> WorkerQuestionDecisionTransitionModel {
        self.deep_view()
    }
}

impl Row for WorkerQuestionDecisionTransition {
    fn dup(&self) -> (r: Self) {
        WorkerQuestionDecisionTransition {
            outcome: self.outcome.dup(),
            question: self.question.dup(),
        }
    }

    fn same(&self, other: &Self) -> (r: bool) {
        self.outcome.same(&other.outcome)
            && self.question.same(&other.question)
    }
}

/// The answer to a replan command.
#[derive(Debug, Clone, PartialEq, Eq)]
pub struct ReplanDecisionTransition {
    pub outcome: DecisionCommandOutcome,
    pub proposal: Option<ReplanProposal>,
}

#[verifier::ext_equal]
pub struct ReplanDecisionTransitionModel {
    pub outcome: DecisionCommandOutcome,
    pub proposal: Option<ReplanProposalModel>,
}

impl DeepView for ReplanDecisionTransition {
    type V = ReplanDecisionTransitionModel;

    open spec fn deep_view(&self) -> ReplanDecisionTransitionModel {
        ReplanDecisionTransitionModel {
            outcome: self.outcome.deep_view(),
            proposal: self.proposal.deep_view(),
        }
    }
}

impl View for ReplanDecisionTransition {
    type V = ReplanDecisionTransitionModel;

    open spec fn view(&self) -> ReplanDecisionTransitionModel {
        self.deep_view()
    }
}

impl Row for ReplanDecisionTransition {
    fn dup(&self) -> (r: Self) {
        ReplanDecisionTransition {
            outcome: self.outcome.dup(),
            proposal: self.proposal.dup(),
        }
    }

    fn same(&self, other: &Self) -> (r: bool) {
        self.outcome.same(&other.outcome)
            && self.proposal.same(&other.proposal)
    }
}

/// An indexed status source whose checksum holds.
#[derive(Debug, Clone, PartialEq, Eq)]
pub struct StatusSourceSnapshot {
    pub source: String,
    pub payload: String,
    pub indexed_event_id: i64,
    pub content_sha256: String,
    pub observed_at: Timestamp,
}

#[verifier::ext_equal]
pub struct StatusSourceSnapshotModel {
    pub source: Seq<char>,
    pub payload: Seq<char>,
    pub indexed_event_id: i64,
    pub content_sha256: Seq<char>,
    pub observed_at: Timestamp,
}

impl DeepView for StatusSourceSnapshot {
    type V = StatusSourceSnapshotModel;

    open spec fn deep_view(&self) -> StatusSourceSnapshotModel {
        StatusSourceSnapshotModel {
            source: self.source.deep_view(),
            payload: self.payload.deep_view(),
            indexed_event_id: self.indexed_event_id.deep_view(),
            content_sha256: self.content_sha256.deep_view(),
            observed_at: self.observed_at.deep_view(),
        }
    }
}

impl View for StatusSourceSnapshot {
    type V = StatusSourceSnapshotModel;

    open spec fn view(&self) -> StatusSourceSnapshotModel {
        self.deep_view()
    }
}

impl Row for StatusSourceSnapshot {
    fn dup(&self) -> (r: Self) {
        StatusSourceSnapshot {
            source: self.source.dup(),
            payload: self.payload.dup(),
            indexed_event_id: self.indexed_event_id.dup(),
            content_sha256: self.content_sha256.dup(),
            observed_at: self.observed_at.dup(),
        }
    }

    fn same(&self, other: &Self) -> (r: bool) {
        self.source.same(&other.source)
            && self.payload.same(&other.payload)
            && self.indexed_event_id.same(&other.indexed_event_id)
            && self.content_sha256.same(&other.content_sha256)
            && self.observed_at.same(&other.observed_at)
    }
}

/// The revision that a snapshot was taken at.
#[derive(Debug, Clone, PartialEq, Eq)]
pub struct StatusSnapshotRevision {
    pub sqlite_data_version: i64,
    pub max_event_id: i64,
    pub run_updated_at: Option<Timestamp>,
    pub captured_at: Option<Timestamp>,
}

#[verifier::ext_equal]
pub struct StatusSnapshotRevisionModel {
    pub sqlite_data_version: i64,
    pub max_event_id: i64,
    pub run_updated_at: Option<Timestamp>,
    pub captured_at: Option<Timestamp>,
}

impl DeepView for StatusSnapshotRevision {
    type V = StatusSnapshotRevisionModel;

    open spec fn deep_view(&self) -> StatusSnapshotRevisionModel {
        StatusSnapshotRevisionModel {
            sqlite_data_version: self.sqlite_data_version.deep_view(),
            max_event_id: self.max_event_id.deep_view(),
            run_updated_at: self.run_updated_at.deep_view(),
            captured_at: self.captured_at.deep_view(),
        }
    }
}

impl View for StatusSnapshotRevision {
    type V = StatusSnapshotRevisionModel;

    open spec fn view(&self) -> StatusSnapshotRevisionModel {
        self.deep_view()
    }
}

impl Row for StatusSnapshotRevision {
    fn dup(&self) -> (r: Self) {
        StatusSnapshotRevision {
            sqlite_data_version: self.sqlite_data_version.dup(),
            max_event_id: self.max_event_id.dup(),
            run_updated_at: self.run_updated_at.dup(),
            captured_at: self.captured_at.dup(),
        }
    }

    fn same(&self, other: &Self) -> (r: bool) {
        self.sqlite_data_version.same(&other.sqlite_data_version)
            && self.max_event_id.same(&other.max_event_id)
            && self.run_updated_at.same(&other.run_updated_at)
            && self.captured_at.same(&other.captured_at)
    }
}

/// Every input of the status projection, from one revision. `events` is the whole history of the run; `event_tail` is its bounded end.
#[derive(Debug, Clone, PartialEq, Eq)]
pub struct RunStateSnapshot {
    pub revision: StatusSnapshotRevision,
    pub run: Run,
    pub slice_runs: Vec<SliceRun>,
    pub worker_attempts: Vec<WorkerAttemptLedger>,
    pub progress: Option<RunProgress>,
    pub questions: Vec<WorkerQuestion>,
    pub replan_proposals: Vec<ReplanProposal>,
    pub mission_envelope: Option<MissionEnvelope>,
    pub frontier_budget: Option<FrontierBudgetState>,
    pub events: Vec<Event>,
    pub event_tail: Vec<Event>,
    pub terminal_transition: Option<TerminalTransition>,
    pub launch_intents: Vec<RunLaunchIntent>,
    pub merge_intents: Vec<IntegrationMergeIntent>,
    pub status_sources: Vec<StatusSourceSnapshot>,
}

#[verifier::ext_equal]
pub struct RunStateSnapshotModel {
    pub revision: StatusSnapshotRevisionModel,
    pub run: RunModel,
    pub slice_runs: Seq<SliceRunModel>,
    pub worker_attempts: Seq<WorkerAttemptLedgerModel>,
    pub progress: Option<RunProgressModel>,
    pub questions: Seq<WorkerQuestionModel>,
    pub replan_proposals: Seq<ReplanProposalModel>,
    pub mission_envelope: Option<MissionEnvelopeModel>,
    pub frontier_budget: Option<FrontierBudgetStateModel>,
    pub events: Seq<EventModel>,
    pub event_tail: Seq<EventModel>,
    pub terminal_transition: Option<TerminalTransitionModel>,
    pub launch_intents: Seq<RunLaunchIntentModel>,
    pub merge_intents: Seq<IntegrationMergeIntentModel>,
    pub status_sources: Seq<StatusSourceSnapshotModel>,
}

impl DeepView for RunStateSnapshot {
    type V = RunStateSnapshotModel;

    open spec fn deep_view(&self) -> RunStateSnapshotModel {
        RunStateSnapshotModel {
            revision: self.revision.deep_view(),
            run: self.run.deep_view(),
            slice_runs: self.slice_runs.deep_view(),
            worker_attempts: self.worker_attempts.deep_view(),
            progress: self.progress.deep_view(),
            questions: self.questions.deep_view(),
            replan_proposals: self.replan_proposals.deep_view(),
            mission_envelope: self.mission_envelope.deep_view(),
            frontier_budget: self.frontier_budget.deep_view(),
            events: self.events.deep_view(),
            event_tail: self.event_tail.deep_view(),
            terminal_transition: self.terminal_transition.deep_view(),
            launch_intents: self.launch_intents.deep_view(),
            merge_intents: self.merge_intents.deep_view(),
            status_sources: self.status_sources.deep_view(),
        }
    }
}

impl View for RunStateSnapshot {
    type V = RunStateSnapshotModel;

    open spec fn view(&self) -> RunStateSnapshotModel {
        self.deep_view()
    }
}

impl Row for RunStateSnapshot {
    fn dup(&self) -> (r: Self) {
        RunStateSnapshot {
            revision: self.revision.dup(),
            run: self.run.dup(),
            slice_runs: self.slice_runs.dup(),
            worker_attempts: self.worker_attempts.dup(),
            progress: self.progress.dup(),
            questions: self.questions.dup(),
            replan_proposals: self.replan_proposals.dup(),
            mission_envelope: self.mission_envelope.dup(),
            frontier_budget: self.frontier_budget.dup(),
            events: self.events.dup(),
            event_tail: self.event_tail.dup(),
            terminal_transition: self.terminal_transition.dup(),
            launch_intents: self.launch_intents.dup(),
            merge_intents: self.merge_intents.dup(),
            status_sources: self.status_sources.dup(),
        }
    }

    fn same(&self, other: &Self) -> (r: bool) {
        self.revision.same(&other.revision)
            && self.run.same(&other.run)
            && self.slice_runs.same(&other.slice_runs)
            && self.worker_attempts.same(&other.worker_attempts)
            && self.progress.same(&other.progress)
            && self.questions.same(&other.questions)
            && self.replan_proposals.same(&other.replan_proposals)
            && self.mission_envelope.same(&other.mission_envelope)
            && self.frontier_budget.same(&other.frontier_budget)
            && self.events.same(&other.events)
            && self.event_tail.same(&other.event_tail)
            && self.terminal_transition.same(&other.terminal_transition)
            && self.launch_intents.same(&other.launch_intents)
            && self.merge_intents.same(&other.merge_intents)
            && self.status_sources.same(&other.status_sources)
    }
}

/// A step is marked by the time at which it was made, and by nothing else: what stores no text was not
/// made, what stores a text of white space alone is neither, and a mark is read back from its text.
pub proof fn law_marks_of_steps(text: Seq<char>, mark: StepMarkModel, at: Timestamp)
    ensures
        StepMarkModel::at(at) == StepMarkModel::Made(at.text()),
        text.len() == 0 ==> StepMarkModel::of_text(text) is NotMade,
        text.len() > 0 && blank(text) ==> StepMarkModel::of_text(text) is Blank,
        !blank(text) ==> StepMarkModel::of_text(text) == StepMarkModel::Made(text),
        StepMarkModel::of_text(text).text() == text,
        mark == StepMarkModel::of_text(text) ==> StepMarkModel::of_text(mark.text()) == mark,
{
    crate::text::lemma_blank(text);
    assert(text.len() == 0 ==> text =~= Seq::empty());
}

} // verus!
