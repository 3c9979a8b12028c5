//! Reading stored columns back into the rows of the tables.
use crate::domain::{
    FrontierBudgetState, FrontierBudgetStateModel, FrontierClassification,
    FrontierClassificationModel, IntegrationMergeCompletion,
    IntegrationMergeCompletionModel, IntegrationMergeIntent, IntegrationMergeIntentModel,
    IntegrationMergeKind, IntegrationMergeState, MissionEnvelope, MissionEnvelopeModel, ReplanDecision, ReplanDecisionModel,
    ReplanEvidenceLink, ReplanEvidenceLinkModel, ReplanProposal, ReplanProposalModel,
    ReplanProposalSource, ReplanProposalSourceModel, ReplanProposalState, ReplanProposedChange,
    ReplanProposedChangeModel, Run, RunLaunchAction, RunLaunchIntent,
    RunLaunchIntentModel, RunLaunchState, RunModel, RunStatus, SliceRun, SliceRunModel,
    SliceStatus, TerminalTransition, TerminalTransitionModel, WorkerAttemptLedger,
    WorkerAttemptLedgerModel, WorkerQuestion, WorkerQuestionAnswerSource, WorkerQuestionModel,
};
use crate::json::{read_text_list, text_list};
use crate::payloads::{Event, EventModel, EventPayload, EventPayloadModel};
use crate::rows::{
    AttemptRow, AttemptRowModel, ProgressRow, ProgressRowModel, RepoRow, RepoRowModel,
    StatusSourceRow, StatusSourceRowModel, StepMark, StepMarkModel, TerminalRow, TerminalRowModel, WorkerObservation,
    WorkerObservationModel, WorkerTokenRow, WorkerTokenRowModel,
};
use crate::store::questions::MAX_TIMEOUT_SECONDS;
use crate::table::Row;
use crate::text::{blank, is_blank};
use crate::time::Timestamp;
use vstd::prelude::*;
use vstd::string::*;

verus! {

/// The column that could not be read.
#[derive(Debug, Clone, Copy, PartialEq, Eq, Structural)]
pub enum RowError {
    Status,
    StartedAt,
    UpdatedAt,
    PriorStatus,
    Action,
    State,
    CreatedAt,
    Kind,
    Completion,
    ConflictedFiles,
    Payload,
    Source,
    FindingIds,
    Evidence,
    Changes,
    Decision,
    Classification,
    DeadlineAt,
    Options,
    AskedAt,
    AnsweredAt,
    ObservedAt,
    LaunchedAt,
    FinishedAt,
    WorkerAttemptStartedAt,
    PhaseStartedAt,
    MissionEnvelope,
    FrontierBudget,
}

impl RowError {
    pub open spec fn text(self) -> Seq<char> {
        match self {
            RowError::Status => "parse status"@,
            RowError::StartedAt => "parse start time"@,
            RowError::UpdatedAt => "parse update time"@,
            RowError::PriorStatus => "parse prior status"@,
            RowError::Action => "parse launch action"@,
            RowError::State => "parse state"@,
            RowError::CreatedAt => "parse creation time"@,
            RowError::Kind => "parse integration merge kind"@,
            RowError::Completion => "parse integration merge completion"@,
            RowError::ConflictedFiles => "parse integration merge conflicted files"@,
            RowError::Payload => "parse event payload"@,
            RowError::Source => "parse replan proposal source"@,
            RowError::FindingIds => "parse replan proposal trigger finding ids"@,
            RowError::Evidence => "parse replan proposal evidence"@,
            RowError::Changes => "parse replan proposal proposed changes"@,
            RowError::Decision => "parse replan proposal operator decision"@,
            RowError::Classification => "parse replan proposal frontier classification"@,
            RowError::DeadlineAt => "parse worker question deadline"@,
            RowError::Options => "parse worker question options"@,
            RowError::AskedAt => "parse worker question time"@,
            RowError::AnsweredAt => "parse worker question answer time"@,
            RowError::ObservedAt => "parse status source observation time"@,
            RowError::LaunchedAt => "parse worker attempt launch time"@,
            RowError::FinishedAt => "parse worker attempt finish time"@,
            RowError::WorkerAttemptStartedAt => "parse worker attempt start time"@,
            RowError::PhaseStartedAt => "parse phase start time"@,
            RowError::MissionEnvelope => "parse mission envelope"@,
            RowError::FrontierBudget => "parse frontier budget"@,
        }
    }

    /// What is wrong, in words.
    pub fn describe(self) -> (r: &'static str)
        ensures
            r@ == self.text(),
    {
        match self {
            RowError::Status => "parse status",
            RowError::StartedAt => "parse start time",
            RowError::UpdatedAt => "parse update time",
            RowError::PriorStatus => "parse prior status",
            RowError::Action => "parse launch action",
            RowError::State => "parse state",
            RowError::CreatedAt => "parse creation time",
            RowError::Kind => "parse integration merge kind",
            RowError::Completion => "parse integration merge completion",
            RowError::ConflictedFiles => "parse integration merge conflicted files",
            RowError::Payload => "parse event payload",
            RowError::Source => "parse replan proposal source",
            RowError::FindingIds => "parse replan proposal trigger finding ids",
            RowError::Evidence => "parse replan proposal evidence",
            RowError::Changes => "parse replan proposal proposed changes",
            RowError::Decision => "parse replan proposal operator decision",
            RowError::Classification => "parse replan proposal frontier classification",
            RowError::DeadlineAt => "parse worker question deadline",
            RowError::Options => "parse worker question options",
            RowError::AskedAt => "parse worker question time",
            RowError::AnsweredAt => "parse worker question answer time",
            RowError::ObservedAt => "parse status source observation time",
            RowError::LaunchedAt => "parse worker attempt launch time",
            RowError::FinishedAt => "parse worker attempt finish time",
            RowError::WorkerAttemptStartedAt => "parse worker attempt start time",
            RowError::PhaseStartedAt => "parse phase start time",
            RowError::MissionEnvelope => "parse mission envelope",
            RowError::FrontierBudget => "parse frontier budget",
        }
    }
}

/// The model of what was read.
pub open spec fn read<T: DeepView>(r: Result<T, RowError>) -> Result<T::V, RowError> {
    match r {
        Ok(value) => Ok(value.deep_view()),
        Err(error) => Err(error),
    }
}

/// A stored number, but at least `low`.
pub open spec fn at_least(low: i64, n: i64) -> usize {
    (if n < low {
        low
    } else {
        n
    }) as usize
}

fn count_from(low: i64, n: i64) -> (r: usize)
    ensures
        r == at_least(low, n),
{
    let m: i64 = if n < low {
        low
    } else {
        n
    };
    #[verifier::truncate]
    (m as usize)
}

/// A stored number of seconds; a negative one counts as none.
pub open spec fn seconds_of(n: i64) -> u64 {
    if n < 0 {
        0
    } else {
        n as u64
    }
}

fn whole_seconds(n: i64) -> (r: u64)
    ensures
        r == seconds_of(n),
{
    if n < 0 {
        0
    } else {
        n as u64
    }
}

/// The time that a column holds, where it is not blank. No result: the text writes no time.
pub open spec fn optional_time(text: Seq<char>) -> Option<Option<Timestamp>> {
    if blank(text) {
        Some(None)
    } else {
        match Timestamp::of_text(text) {
            Some(at) => Some(Some(at)),
            None => None,
        }
    }
}

pub fn parse_optional_time(text: &str) -> (r: Option<Option<Timestamp>>)
    ensures
        r == optional_time(text@),
{
    if is_blank(text) {
        return Some(None);
    }
    match Timestamp::parse(text) {
        Some(at) => Some(Some(at)),
        None => None,
    }
}

/// The time that a column holds, where it is not empty. No result: the text writes no time.
pub open spec fn time_or_empty(text: Seq<char>) -> Option<Option<Timestamp>> {
    if text.len() == 0 {
        Some(None)
    } else {
        match Timestamp::of_text(text) {
            Some(at) => Some(Some(at)),
            None => None,
        }
    }
}

fn parse_time_or_empty(text: &str) -> (r: Option<Option<Timestamp>>)
    ensures
        r == time_or_empty(text@),
{
    if text.is_empty() {
        return Some(None);
    }
    match Timestamp::parse(text) {
        Some(at) => Some(Some(at)),
        None => None,
    }
}

/// A time that is known, whatever else there is.
pub open spec fn known(time: Option<Option<Timestamp>>) -> Option<Timestamp> {
    match time {
        Some(time) => time,
        None => None,
    }
}

fn known_time(time: Option<Option<Timestamp>>) -> (r: Option<Timestamp>)
    ensures
        r == known(time),
{
    match time {
        Some(time) => time,
        None => None,
    }
}

/// Whether a launch began.
pub open spec fn launched(c: AttemptColumnsModel) -> bool {
    c.launched_at.len() > 0
}

/// The columns of a run.
#[derive(Debug, Clone, PartialEq, Eq)]
pub struct RunColumns {
    pub id: String,
    pub repo_id: String,
    pub repo_path: String,
    pub status: String,
    pub base_branch: String,
    pub base_sha: String,
    pub integration_branch: String,
    pub selected_slice_id: String,
    pub error: String,
    pub started_at: String,
    pub updated_at: String,
}

#[verifier::ext_equal]
pub struct RunColumnsModel {
    pub id: Seq<char>,
    pub repo_id: Seq<char>,
    pub repo_path: Seq<char>,
    pub status: Seq<char>,
    pub base_branch: Seq<char>,
    pub base_sha: Seq<char>,
    pub integration_branch: Seq<char>,
    pub selected_slice_id: Seq<char>,
    pub error: Seq<char>,
    pub started_at: Seq<char>,
    pub updated_at: Seq<char>,
}

impl DeepView for RunColumns {
    type V = RunColumnsModel;

    open spec fn deep_view(&self) -> RunColumnsModel {
        RunColumnsModel {
            id: self.id.deep_view(),
            repo_id: self.repo_id.deep_view(),
            repo_path: self.repo_path.deep_view(),
            status: self.status.deep_view(),
            base_branch: self.base_branch.deep_view(),
            base_sha: self.base_sha.deep_view(),
            integration_branch: self.integration_branch.deep_view(),
            selected_slice_id: self.selected_slice_id.deep_view(),
            error: self.error.deep_view(),
            started_at: self.started_at.deep_view(),
            updated_at: self.updated_at.deep_view(),
        }
    }
}

impl View for RunColumns {
    type V = RunColumnsModel;

    open spec fn view(&self) -> RunColumnsModel {
        self.deep_view()
    }
}

impl Row for RunColumns {
    fn dup(&self) -> (r: Self) {
        RunColumns {
            id: self.id.dup(),
            repo_id: self.repo_id.dup(),
            repo_path: self.repo_path.dup(),
            status: self.status.dup(),
            base_branch: self.base_branch.dup(),
            base_sha: self.base_sha.dup(),
            integration_branch: self.integration_branch.dup(),
            selected_slice_id: self.selected_slice_id.dup(),
            error: self.error.dup(),
            started_at: self.started_at.dup(),
            updated_at: self.updated_at.dup(),
        }
    }

    fn same(&self, other: &Self) -> (r: bool) {
        self.id.same(&other.id)
            && self.repo_id.same(&other.repo_id)
            && self.repo_path.same(&other.repo_path)
            && self.status.same(&other.status)
            && self.base_branch.same(&other.base_branch)
            && self.base_sha.same(&other.base_sha)
            && self.integration_branch.same(&other.integration_branch)
            && self.selected_slice_id.same(&other.selected_slice_id)
            && self.error.same(&other.error)
            && self.started_at.same(&other.started_at)
            && self.updated_at.same(&other.updated_at)
    }
}

/// The columns of a launch of a run.
#[derive(Debug, Clone, PartialEq, Eq)]
pub struct LaunchColumns {
    pub run_id: String,
    pub execution_epoch: i64,
    pub action: String,
    pub state: String,
    pub repo_id: String,
    pub integration_branch: String,
    pub integration_worktree: String,
    pub integration_resources_owned: bool,
    pub prior_status: String,
    pub prior_error: String,
    pub primary_cause: String,
    pub compensation_error: String,
    pub created_at: String,
    pub updated_at: String,
}

#[verifier::ext_equal]
pub struct LaunchColumnsModel {
    pub run_id: Seq<char>,
    pub execution_epoch: i64,
    pub action: Seq<char>,
    pub state: Seq<char>,
    pub repo_id: Seq<char>,
    pub integration_branch: Seq<char>,
    pub integration_worktree: Seq<char>,
    pub integration_resources_owned: bool,
    pub prior_status: Seq<char>,
    pub prior_error: Seq<char>,
    pub primary_cause: Seq<char>,
    pub compensation_error: Seq<char>,
    pub created_at: Seq<char>,
    pub updated_at: Seq<char>,
}

impl DeepView for LaunchColumns {
    type V = LaunchColumnsModel;

    open spec fn deep_view(&self) -> LaunchColumnsModel {
        LaunchColumnsModel {
            run_id: self.run_id.deep_view(),
            execution_epoch: self.execution_epoch.deep_view(),
            action: self.action.deep_view(),
            state: self.state.deep_view(),
            repo_id: self.repo_id.deep_view(),
            integration_branch: self.integration_branch.deep_view(),
            integration_worktree: self.integration_worktree.deep_view(),
            integration_resources_owned: self.integration_resources_owned.deep_view(),
            prior_status: self.prior_status.deep_view(),
            prior_error: self.prior_error.deep_view(),
            primary_cause: self.primary_cause.deep_view(),
            compensation_error: self.compensation_error.deep_view(),
            created_at: self.created_at.deep_view(),
            updated_at: self.updated_at.deep_view(),
        }
    }
}

impl View for LaunchColumns {
    type V = LaunchColumnsModel;

    open spec fn view(&self) -> LaunchColumnsModel {
        self.deep_view()
    }
}

impl Row for LaunchColumns {
    fn dup(&self) -> (r: Self) {
        LaunchColumns {
            run_id: self.run_id.dup(),
            execution_epoch: self.execution_epoch.dup(),
            action: self.action.dup(),
            state: self.state.dup(),
            repo_id: self.repo_id.dup(),
            integration_branch: self.integration_branch.dup(),
            integration_worktree: self.integration_worktree.dup(),
            integration_resources_owned: self.integration_resources_owned.dup(),
            prior_status: self.prior_status.dup(),
            prior_error: self.prior_error.dup(),
            primary_cause: self.primary_cause.dup(),
            compensation_error: self.compensation_error.dup(),
            created_at: self.created_at.dup(),
            updated_at: self.updated_at.dup(),
        }
    }

    fn same(&self, other: &Self) -> (r: bool) {
        self.run_id.same(&other.run_id)
            && self.execution_epoch.same(&other.execution_epoch)
            && self.action.same(&other.action)
            && self.state.same(&other.state)
            && self.repo_id.same(&other.repo_id)
            && self.integration_branch.same(&other.integration_branch)
            && self.integration_worktree.same(&other.integration_worktree)
            && self.integration_resources_owned.same(&other.integration_resources_owned)
            && self.prior_status.same(&other.prior_status)
            && self.prior_error.same(&other.prior_error)
            && self.primary_cause.same(&other.primary_cause)
            && self.compensation_error.same(&other.compensation_error)
            && self.created_at.same(&other.created_at)
            && self.updated_at.same(&other.updated_at)
    }
}

/// The columns of the end of a run.
#[derive(Debug, Clone, PartialEq, Eq)]
pub struct TerminalColumns {
    pub status: String,
    pub error: String,
    pub progress_message: String,
    pub question_interruption_reason: String,
    pub summary_written_at: String,
    pub committed_at: String,
}

#[verifier::ext_equal]
pub struct TerminalColumnsModel {
    pub status: Seq<char>,
    pub error: Seq<char>,
    pub progress_message: Seq<char>,
    pub question_interruption_reason: Seq<char>,
    pub summary_written_at: Seq<char>,
    pub committed_at: Seq<char>,
}

impl DeepView for TerminalColumns {
    type V = TerminalColumnsModel;

    open spec fn deep_view(&self) -> TerminalColumnsModel {
        TerminalColumnsModel {
            status: self.status.deep_view(),
            error: self.error.deep_view(),
            progress_message: self.progress_message.deep_view(),
            question_interruption_reason: self.question_interruption_reason.deep_view(),
            summary_written_at: self.summary_written_at.deep_view(),
            committed_at: self.committed_at.deep_view(),
        }
    }
}

impl View for TerminalColumns {
    type V = TerminalColumnsModel;

    open spec fn view(&self) -> TerminalColumnsModel {
        self.deep_view()
    }
}

impl Row for TerminalColumns {
    fn dup(&self) -> (r: Self) {
        TerminalColumns {
            status: self.status.dup(),
            error: self.error.dup(),
            progress_message: self.progress_message.dup(),
            question_interruption_reason: self.question_interruption_reason.dup(),
            summary_written_at: self.summary_written_at.dup(),
            committed_at: self.committed_at.dup(),
        }
    }

    fn same(&self, other: &Self) -> (r: bool) {
        self.status.same(&other.status)
            && self.error.same(&other.error)
            && self.progress_message.same(&other.progress_message)
            && self.question_interruption_reason.same(&other.question_interruption_reason)
            && self.summary_written_at.same(&other.summary_written_at)
            && self.committed_at.same(&other.committed_at)
    }
}

/// All columns of the end of a run.
#[derive(Debug, Clone, PartialEq, Eq)]
pub struct TerminalRowColumns {
    pub run_id: String,
    pub status: String,
    pub error: String,
    pub progress_message: String,
    pub question_interruption_reason: String,
    pub intended_at: String,
    pub summary_written_at: String,
    pub committed_at: String,
    pub notification_bookkept_at: String,
    pub cleanup_started_at: String,
    pub cleanup_completed_at: String,
}

#[verifier::ext_equal]
pub struct TerminalRowColumnsModel {
    pub run_id: Seq<char>,
    pub status: Seq<char>,
    pub error: Seq<char>,
    pub progress_message: Seq<char>,
    pub question_interruption_reason: Seq<char>,
    pub intended_at: Seq<char>,
    pub summary_written_at: Seq<char>,
    pub committed_at: Seq<char>,
    pub notification_bookkept_at: Seq<char>,
    pub cleanup_started_at: Seq<char>,
    pub cleanup_completed_at: Seq<char>,
}

impl DeepView for TerminalRowColumns {
    type V = TerminalRowColumnsModel;

    open spec fn deep_view(&self) -> TerminalRowColumnsModel {
        TerminalRowColumnsModel {
            run_id: self.run_id.deep_view(),
            status: self.status.deep_view(),
            error: self.error.deep_view(),
            progress_message: self.progress_message.deep_view(),
            question_interruption_reason: self.question_interruption_reason.deep_view(),
            intended_at: self.intended_at.deep_view(),
            summary_written_at: self.summary_written_at.deep_view(),
            committed_at: self.committed_at.deep_view(),
            notification_bookkept_at: self.notification_bookkept_at.deep_view(),
            cleanup_started_at: self.cleanup_started_at.deep_view(),
            cleanup_completed_at: self.cleanup_completed_at.deep_view(),
        }
    }
}

impl View for TerminalRowColumns {
    type V = TerminalRowColumnsModel;

    open spec fn view(&self) -> TerminalRowColumnsModel {
        self.deep_view()
    }
}

impl Row for TerminalRowColumns {
    fn dup(&self) -> (r: Self) {
        TerminalRowColumns {
            run_id: self.run_id.dup(),
            status: self.status.dup(),
            error: self.error.dup(),
            progress_message: self.progress_message.dup(),
            question_interruption_reason: self.question_interruption_reason.dup(),
            intended_at: self.intended_at.dup(),
            summary_written_at: self.summary_written_at.dup(),
            committed_at: self.committed_at.dup(),
            notification_bookkept_at: self.notification_bookkept_at.dup(),
            cleanup_started_at: self.cleanup_started_at.dup(),
            cleanup_completed_at: self.cleanup_completed_at.dup(),
        }
    }

    fn same(&self, other: &Self) -> (r: bool) {
        self.run_id.same(&other.run_id)
            && self.status.same(&other.status)
            && self.error.same(&other.error)
            && self.progress_message.same(&other.progress_message)
            && self.question_interruption_reason.same(&other.question_interruption_reason)
            && self.intended_at.same(&other.intended_at)
            && self.summary_written_at.same(&other.summary_written_at)
            && self.committed_at.same(&other.committed_at)
            && self.notification_bookkept_at.same(&other.notification_bookkept_at)
            && self.cleanup_started_at.same(&other.cleanup_started_at)
            && self.cleanup_completed_at.same(&other.cleanup_completed_at)
    }
}

/// The columns of a merge, with its completion as it was decoded.
#[derive(Debug, Clone, PartialEq, Eq)]
pub struct MergeColumns {
    pub operation_id: String,
    pub run_id: String,
    pub kind: String,
    pub slice_id: String,
    pub attempt: i64,
    pub launch_id: Option<i64>,
    pub source_branch: String,
    pub source_commit: String,
    pub source_tree: String,
    pub expected_head: String,
    pub expected_result_tree: String,
    pub resulting_head: String,
    pub state: String,
    pub completion: Option<IntegrationMergeCompletion>,
    pub primary_cause: String,
    pub abort_error: String,
    pub conflicted_files_json: String,
    pub created_at: String,
    pub updated_at: String,
}

#[verifier::ext_equal]
pub struct MergeColumnsModel {
    pub operation_id: Seq<char>,
    pub run_id: Seq<char>,
    pub kind: Seq<char>,
    pub slice_id: Seq<char>,
    pub attempt: i64,
    pub launch_id: Option<i64>,
    pub source_branch: Seq<char>,
    pub source_commit: Seq<char>,
    pub source_tree: Seq<char>,
    pub expected_head: Seq<char>,
    pub expected_result_tree: Seq<char>,
    pub resulting_head: Seq<char>,
    pub state: Seq<char>,
    pub completion: Option<IntegrationMergeCompletionModel>,
    pub primary_cause: Seq<char>,
    pub abort_error: Seq<char>,
    pub conflicted_files_json: Seq<char>,
    pub created_at: Seq<char>,
    pub updated_at: Seq<char>,
}

impl DeepView for MergeColumns {
    type V = MergeColumnsModel;

    open spec fn deep_view(&self) -> MergeColumnsModel {
        MergeColumnsModel {
            operation_id: self.operation_id.deep_view(),
            run_id: self.run_id.deep_view(),
            kind: self.kind.deep_view(),
            slice_id: self.slice_id.deep_view(),
            attempt: self.attempt.deep_view(),
            launch_id: self.launch_id.deep_view(),
            source_branch: self.source_branch.deep_view(),
            source_commit: self.source_commit.deep_view(),
            source_tree: self.source_tree.deep_view(),
            expected_head: self.expected_head.deep_view(),
            expected_result_tree: self.expected_result_tree.deep_view(),
            resulting_head: self.resulting_head.deep_view(),
            state: self.state.deep_view(),
            completion: self.completion.deep_view(),
            primary_cause: self.primary_cause.deep_view(),
            abort_error: self.abort_error.deep_view(),
            conflicted_files_json: self.conflicted_files_json.deep_view(),
            created_at: self.created_at.deep_view(),
            updated_at: self.updated_at.deep_view(),
        }
    }
}

impl View for MergeColumns {
    type V = MergeColumnsModel;

    open spec fn view(&self) -> MergeColumnsModel {
        self.deep_view()
    }
}

impl Row for MergeColumns {
    fn dup(&self) -> (r: Self) {
        MergeColumns {
            operation_id: self.operation_id.dup(),
            run_id: self.run_id.dup(),
            kind: self.kind.dup(),
            slice_id: self.slice_id.dup(),
            attempt: self.attempt.dup(),
            launch_id: self.launch_id.dup(),
            source_branch: self.source_branch.dup(),
            source_commit: self.source_commit.dup(),
            source_tree: self.source_tree.dup(),
            expected_head: self.expected_head.dup(),
            expected_result_tree: self.expected_result_tree.dup(),
            resulting_head: self.resulting_head.dup(),
            state: self.state.dup(),
            completion: self.completion.dup(),
            primary_cause: self.primary_cause.dup(),
            abort_error: self.abort_error.dup(),
            conflicted_files_json: self.conflicted_files_json.dup(),
            created_at: self.created_at.dup(),
            updated_at: self.updated_at.dup(),
        }
    }

    fn same(&self, other: &Self) -> (r: bool) {
        self.operation_id.same(&other.operation_id)
            && self.run_id.same(&other.run_id)
            && self.kind.same(&other.kind)
            && self.slice_id.same(&other.slice_id)
            && self.attempt.same(&other.attempt)
            && self.launch_id.same(&other.launch_id)
            && self.source_branch.same(&other.source_branch)
            && self.source_commit.same(&other.source_commit)
            && self.source_tree.same(&other.source_tree)
            && self.expected_head.same(&other.expected_head)
            && self.expected_result_tree.same(&other.expected_result_tree)
            && self.resulting_head.same(&other.resulting_head)
            && self.state.same(&other.state)
            && self.completion.same(&other.completion)
            && self.primary_cause.same(&other.primary_cause)
            && self.abort_error.same(&other.abort_error)
            && self.conflicted_files_json.same(&other.conflicted_files_json)
            && self.created_at.same(&other.created_at)
            && self.updated_at.same(&other.updated_at)
    }
}

/// The columns of a slice of a run.
#[derive(Debug, Clone, PartialEq, Eq)]
pub struct SliceColumns {
    pub run_id: String,
    pub slice_id: String,
    pub status: String,
    pub branch: String,
    pub commit_sha: String,
    pub attempts: i64,
    pub last_error: String,
}

#[verifier::ext_equal]
pub struct SliceColumnsModel {
    pub run_id: Seq<char>,
    pub slice_id: Seq<char>,
    pub status: Seq<char>,
    pub branch: Seq<char>,
    pub commit_sha: Seq<char>,
    pub attempts: i64,
    pub last_error: Seq<char>,
}

impl DeepView for SliceColumns {
    type V = SliceColumnsModel;

    open spec fn deep_view(&self) -> SliceColumnsModel {
        SliceColumnsModel {
            run_id: self.run_id.deep_view(),
            slice_id: self.slice_id.deep_view(),
            status: self.status.deep_view(),
            branch: self.branch.deep_view(),
            commit_sha: self.commit_sha.deep_view(),
            attempts: self.attempts.deep_view(),
            last_error: self.last_error.deep_view(),
        }
    }
}

impl View for SliceColumns {
    type V = SliceColumnsModel;

    open spec fn view(&self) -> SliceColumnsModel {
        self.deep_view()
    }
}

impl Row for SliceColumns {
    fn dup(&self) -> (r: Self) {
        SliceColumns {
            run_id: self.run_id.dup(),
            slice_id: self.slice_id.dup(),
            status: self.status.dup(),
            branch: self.branch.dup(),
            commit_sha: self.commit_sha.dup(),
            attempts: self.attempts.dup(),
            last_error: self.last_error.dup(),
        }
    }

    fn same(&self, other: &Self) -> (r: bool) {
        self.run_id.same(&other.run_id)
            && self.slice_id.same(&other.slice_id)
            && self.status.same(&other.status)
            && self.branch.same(&other.branch)
            && self.commit_sha.same(&other.commit_sha)
            && self.attempts.same(&other.attempts)
            && self.last_error.same(&other.last_error)
    }
}

/// The columns of an event, with its payload as it was decoded.
#[derive(Debug, Clone, PartialEq, Eq)]
pub struct EventColumns {
    pub id: i64,
    pub run_id: String,
    pub typ: String,
    pub payload: Option<EventPayload>,
    pub created_at: String,
}

#[verifier::ext_equal]
pub struct EventColumnsModel {
    pub id: i64,
    pub run_id: Seq<char>,
    pub typ: Seq<char>,
    pub payload: Option<EventPayloadModel>,
    pub created_at: Seq<char>,
}

impl DeepView for EventColumns {
    type V = EventColumnsModel;

    open spec fn deep_view(&self) -> EventColumnsModel {
        EventColumnsModel {
            id: self.id.deep_view(),
            run_id: self.run_id.deep_view(),
            typ: self.typ.deep_view(),
            payload: self.payload.deep_view(),
            created_at: self.created_at.deep_view(),
        }
    }
}

impl View for EventColumns {
    type V = EventColumnsModel;

    open spec fn view(&self) -> EventColumnsModel {
        self.deep_view()
    }
}

impl Row for EventColumns {
    fn dup(&self) -> (r: Self) {
        EventColumns {
            id: self.id.dup(),
            run_id: self.run_id.dup(),
            typ: self.typ.dup(),
            payload: self.payload.dup(),
            created_at: self.created_at.dup(),
        }
    }

    fn same(&self, other: &Self) -> (r: bool) {
        self.id.same(&other.id)
            && self.run_id.same(&other.run_id)
            && self.typ.same(&other.typ)
            && self.payload.same(&other.payload)
            && self.created_at.same(&other.created_at)
    }
}

/// The columns of a replan proposal, with its documents as they were decoded.
#[derive(Debug, Clone, PartialEq, Eq)]
pub struct ProposalColumns {
    pub id: String,
    pub run_id: String,
    pub state: String,
    pub source: Option<ReplanProposalSource>,
    pub trigger_finding_ids_json: String,
    pub evidence: Option<Vec<ReplanEvidenceLink>>,
    pub proposed_changes: Option<Vec<ReplanProposedChange>>,
    pub risk: String,
    pub decision_json: String,
    pub decision: Option<ReplanDecision>,
    pub classification_json: String,
    pub classification: Option<FrontierClassification>,
    pub created_at: String,
    pub updated_at: String,
}

#[verifier::ext_equal]
pub struct ProposalColumnsModel {
    pub id: Seq<char>,
    pub run_id: Seq<char>,
    pub state: Seq<char>,
    pub source: Option<ReplanProposalSourceModel>,
    pub trigger_finding_ids_json: Seq<char>,
    pub evidence: Option<Seq<ReplanEvidenceLinkModel>>,
    pub proposed_changes: Option<Seq<ReplanProposedChangeModel>>,
    pub risk: Seq<char>,
    pub decision_json: Seq<char>,
    pub decision: Option<ReplanDecisionModel>,
    pub classification_json: Seq<char>,
    pub classification: Option<FrontierClassificationModel>,
    pub created_at: Seq<char>,
    pub updated_at: Seq<char>,
}

impl DeepView for ProposalColumns {
    type V = ProposalColumnsModel;

    open spec fn deep_view(&self) -> ProposalColumnsModel {
        ProposalColumnsModel {
            id: self.id.deep_view(),
            run_id: self.run_id.deep_view(),
            state: self.state.deep_view(),
            source: self.source.deep_view(),
            trigger_finding_ids_json: self.trigger_finding_ids_json.deep_view(),
            evidence: self.evidence.deep_view(),
            proposed_changes: self.proposed_changes.deep_view(),
            risk: self.risk.deep_view(),
            decision_json: self.decision_json.deep_view(),
            decision: self.decision.deep_view(),
            classification_json: self.classification_json.deep_view(),
            classification: self.classification.deep_view(),
            created_at: self.created_at.deep_view(),
            updated_at: self.updated_at.deep_view(),
        }
    }
}

impl View for ProposalColumns {
    type V = ProposalColumnsModel;

    open spec fn view(&self) -> ProposalColumnsModel {
        self.deep_view()
    }
}

impl Row for ProposalColumns {
    fn dup(&self) -> (r: Self) {
        ProposalColumns {
            id: self.id.dup(),
            run_id: self.run_id.dup(),
            state: self.state.dup(),
            source: self.source.dup(),
            trigger_finding_ids_json: self.trigger_finding_ids_json.dup(),
            evidence: self.evidence.dup(),
            proposed_changes: self.proposed_changes.dup(),
            risk: self.risk.dup(),
            decision_json: self.decision_json.dup(),
            decision: self.decision.dup(),
            classification_json: self.classification_json.dup(),
            classification: self.classification.dup(),
            created_at: self.created_at.dup(),
            updated_at: self.updated_at.dup(),
        }
    }

    fn same(&self, other: &Self) -> (r: bool) {
        self.id.same(&other.id)
            && self.run_id.same(&other.run_id)
            && self.state.same(&other.state)
            && self.source.same(&other.source)
            && self.trigger_finding_ids_json.same(&other.trigger_finding_ids_json)
            && self.evidence.same(&other.evidence)
            && self.proposed_changes.same(&other.proposed_changes)
            && self.risk.same(&other.risk)
            && self.decision_json.same(&other.decision_json)
            && self.decision.same(&other.decision)
            && self.classification_json.same(&other.classification_json)
            && self.classification.same(&other.classification)
            && self.created_at.same(&other.created_at)
            && self.updated_at.same(&other.updated_at)
    }
}

/// The columns of a worker question.
#[derive(Debug, Clone, PartialEq, Eq)]
pub struct QuestionColumns {
    pub id: String,
    pub run_id: String,
    pub slice_id: String,
    pub attempt: i64,
    pub launch_id: Option<i64>,
    pub question: String,
    pub options_json: String,
    pub timeout_seconds: i64,
    pub state: String,
    pub asked_at: String,
    pub answered_at: String,
    pub answer: String,
    pub recommended_answer: String,
    pub recommendation_rationale: String,
    pub bounded_within_current_slice_or_mission_authority: bool,
    pub reversible: bool,
    pub fallback_eligible: bool,
    pub deadline_at: String,
    pub answer_source: String,
}

#[verifier::ext_equal]
pub struct QuestionColumnsModel {
    pub id: Seq<char>,
    pub run_id: Seq<char>,
    pub slice_id: Seq<char>,
    pub attempt: i64,
    pub launch_id: Option<i64>,
    pub question: Seq<char>,
    pub options_json: Seq<char>,
    pub timeout_seconds: i64,
    pub state: Seq<char>,
    pub asked_at: Seq<char>,
    pub answered_at: Seq<char>,
    pub answer: Seq<char>,
    pub recommended_answer: Seq<char>,
    pub recommendation_rationale: Seq<char>,
    pub bounded_within_current_slice_or_mission_authority: bool,
    pub reversible: bool,
    pub fallback_eligible: bool,
    pub deadline_at: Seq<char>,
    pub answer_source: Seq<char>,
}

impl DeepView for QuestionColumns {
    type V = QuestionColumnsModel;

    open spec fn deep_view(&self) -> QuestionColumnsModel {
        QuestionColumnsModel {
            id: self.id.deep_view(),
            run_id: self.run_id.deep_view(),
            slice_id: self.slice_id.deep_view(),
            attempt: self.attempt.deep_view(),
            launch_id: self.launch_id.deep_view(),
            question: self.question.deep_view(),
            options_json: self.options_json.deep_view(),
            timeout_seconds: self.timeout_seconds.deep_view(),
            state: self.state.deep_view(),
            asked_at: self.asked_at.deep_view(),
            answered_at: self.answered_at.deep_view(),
            answer: self.answer.deep_view(),
            recommended_answer: self.recommended_answer.deep_view(),
            recommendation_rationale: self.recommendation_rationale.deep_view(),
            bounded_within_current_slice_or_mission_authority: self.bounded_within_current_slice_or_mission_authority.deep_view(),
            reversible: self.reversible.deep_view(),
            fallback_eligible: self.fallback_eligible.deep_view(),
            deadline_at: self.deadline_at.deep_view(),
            answer_source: self.answer_source.deep_view(),
        }
    }
}

impl View for QuestionColumns {
    type V = QuestionColumnsModel;

    open spec fn view(&self) -> QuestionColumnsModel {
        self.deep_view()
    }
}

impl Row for QuestionColumns {
    fn dup(&self) -> (r: Self) {
        QuestionColumns {
            id: self.id.dup(),
            run_id: self.run_id.dup(),
            slice_id: self.slice_id.dup(),
            attempt: self.attempt.dup(),
            launch_id: self.launch_id.dup(),
            question: self.question.dup(),
            options_json: self.options_json.dup(),
            timeout_seconds: self.timeout_seconds.dup(),
            state: self.state.dup(),
            asked_at: self.asked_at.dup(),
            answered_at: self.answered_at.dup(),
            answer: self.answer.dup(),
            recommended_answer: self.recommended_answer.dup(),
            recommendation_rationale: self.recommendation_rationale.dup(),
            bounded_within_current_slice_or_mission_authority: self.bounded_within_current_slice_or_mission_authority.dup(),
            reversible: self.reversible.dup(),
            fallback_eligible: self.fallback_eligible.dup(),
            deadline_at: self.deadline_at.dup(),
            answer_source: self.answer_source.dup(),
        }
    }

    fn same(&self, other: &Self) -> (r: bool) {
        self.id.same(&other.id)
            && self.run_id.same(&other.run_id)
            && self.slice_id.same(&other.slice_id)
            && self.attempt.same(&other.attempt)
            && self.launch_id.same(&other.launch_id)
            && self.question.same(&other.question)
            && self.options_json.same(&other.options_json)
            && self.timeout_seconds.same(&other.timeout_seconds)
            && self.state.same(&other.state)
            && self.asked_at.same(&other.asked_at)
            && self.answered_at.same(&other.answered_at)
            && self.answer.same(&other.answer)
            && self.recommended_answer.same(&other.recommended_answer)
            && self.recommendation_rationale.same(&other.recommendation_rationale)
            && self.bounded_within_current_slice_or_mission_authority.same(&other.bounded_within_current_slice_or_mission_authority)
            && self.reversible.same(&other.reversible)
            && self.fallback_eligible.same(&other.fallback_eligible)
            && self.deadline_at.same(&other.deadline_at)
            && self.answer_source.same(&other.answer_source)
    }
}

/// The columns of a worker launch.
#[derive(Debug, Clone, PartialEq, Eq)]
pub struct AttemptColumns {
    pub run_id: String,
    pub slice_id: String,
    pub launch_id: i64,
    pub launch_ordinal: i64,
    pub execution_epoch: i64,
    pub worker_retry_ordinal: i64,
    pub repair_ordinal: i64,
    pub envelope_retry_ordinal: i64,
    pub kind: String,
    pub state: String,
    pub branch: String,
    pub worktree: String,
    pub output_stem: String,
    pub created_at: String,
    pub launched_at: String,
    pub finished_at: String,
    pub failure_cause: String,
    pub worker_token_hash: String,
    pub pid: Option<i64>,
    pub process_observed_at: String,
    pub last_event_at: String,
    pub last_event_kind: String,
    pub last_semantic_progress_at: String,
    pub last_semantic_progress_summary: String,
    pub attempt_timeout_seconds: i64,
    pub no_output_warning_seconds: i64,
}

#[verifier::ext_equal]
pub struct AttemptColumnsModel {
    pub run_id: Seq<char>,
    pub slice_id: Seq<char>,
    pub launch_id: i64,
    pub launch_ordinal: i64,
    pub execution_epoch: i64,
    pub worker_retry_ordinal: i64,
    pub repair_ordinal: i64,
    pub envelope_retry_ordinal: i64,
    pub kind: Seq<char>,
    pub state: Seq<char>,
    pub branch: Seq<char>,
    pub worktree: Seq<char>,
    pub output_stem: Seq<char>,
    pub created_at: Seq<char>,
    pub launched_at: Seq<char>,
    pub finished_at: Seq<char>,
    pub failure_cause: Seq<char>,
    pub worker_token_hash: Seq<char>,
    pub pid: Option<i64>,
    pub process_observed_at: Seq<char>,
    pub last_event_at: Seq<char>,
    pub last_event_kind: Seq<char>,
    pub last_semantic_progress_at: Seq<char>,
    pub last_semantic_progress_summary: Seq<char>,
    pub attempt_timeout_seconds: i64,
    pub no_output_warning_seconds: i64,
}

impl DeepView for AttemptColumns {
    type V = AttemptColumnsModel;

    open spec fn deep_view(&self) -> AttemptColumnsModel {
        AttemptColumnsModel {
            run_id: self.run_id.deep_view(),
            slice_id: self.slice_id.deep_view(),
            launch_id: self.launch_id.deep_view(),
            launch_ordinal: self.launch_ordinal.deep_view(),
            execution_epoch: self.execution_epoch.deep_view(),
            worker_retry_ordinal: self.worker_retry_ordinal.deep_view(),
            repair_ordinal: self.repair_ordinal.deep_view(),
            envelope_retry_ordinal: self.envelope_retry_ordinal.deep_view(),
            kind: self.kind.deep_view(),
            state: self.state.deep_view(),
            branch: self.branch.deep_view(),
            worktree: self.worktree.deep_view(),
            output_stem: self.output_stem.deep_view(),
            created_at: self.created_at.deep_view(),
            launched_at: self.launched_at.deep_view(),
            finished_at: self.finished_at.deep_view(),
            failure_cause: self.failure_cause.deep_view(),
            worker_token_hash: self.worker_token_hash.deep_view(),
            pid: self.pid.deep_view(),
            process_observed_at: self.process_observed_at.deep_view(),
            last_event_at: self.last_event_at.deep_view(),
            last_event_kind: self.last_event_kind.deep_view(),
            last_semantic_progress_at: self.last_semantic_progress_at.deep_view(),
            last_semantic_progress_summary: self.last_semantic_progress_summary.deep_view(),
            attempt_timeout_seconds: self.attempt_timeout_seconds.deep_view(),
            no_output_warning_seconds: self.no_output_warning_seconds.deep_view(),
        }
    }
}

impl View for AttemptColumns {
    type V = AttemptColumnsModel;

    open spec fn view(&self) -> AttemptColumnsModel {
        self.deep_view()
    }
}

impl Row for AttemptColumns {
    fn dup(&self) -> (r: Self) {
        AttemptColumns {
            run_id: self.run_id.dup(),
            slice_id: self.slice_id.dup(),
            launch_id: self.launch_id.dup(),
            launch_ordinal: self.launch_ordinal.dup(),
            execution_epoch: self.execution_epoch.dup(),
            worker_retry_ordinal: self.worker_retry_ordinal.dup(),
            repair_ordinal: self.repair_ordinal.dup(),
            envelope_retry_ordinal: self.envelope_retry_ordinal.dup(),
            kind: self.kind.dup(),
            state: self.state.dup(),
            branch: self.branch.dup(),
            worktree: self.worktree.dup(),
            output_stem: self.output_stem.dup(),
            created_at: self.created_at.dup(),
            launched_at: self.launched_at.dup(),
            finished_at: self.finished_at.dup(),
            failure_cause: self.failure_cause.dup(),
            worker_token_hash: self.worker_token_hash.dup(),
            pid: self.pid.dup(),
            process_observed_at: self.process_observed_at.dup(),
            last_event_at: self.last_event_at.dup(),
            last_event_kind: self.last_event_kind.dup(),
            last_semantic_progress_at: self.last_semantic_progress_at.dup(),
            last_semantic_progress_summary: self.last_semantic_progress_summary.dup(),
            attempt_timeout_seconds: self.attempt_timeout_seconds.dup(),
            no_output_warning_seconds: self.no_output_warning_seconds.dup(),
        }
    }

    fn same(&self, other: &Self) -> (r: bool) {
        self.run_id.same(&other.run_id)
            && self.slice_id.same(&other.slice_id)
            && self.launch_id.same(&other.launch_id)
            && self.launch_ordinal.same(&other.launch_ordinal)
            && self.execution_epoch.same(&other.execution_epoch)
            && self.worker_retry_ordinal.same(&other.worker_retry_ordinal)
            && self.repair_ordinal.same(&other.repair_ordinal)
            && self.envelope_retry_ordinal.same(&other.envelope_retry_ordinal)
            && self.kind.same(&other.kind)
            && self.state.same(&other.state)
            && self.branch.same(&other.branch)
            && self.worktree.same(&other.worktree)
            && self.output_stem.same(&other.output_stem)
            && self.created_at.same(&other.created_at)
            && self.launched_at.same(&other.launched_at)
            && self.finished_at.same(&other.finished_at)
            && self.failure_cause.same(&other.failure_cause)
            && self.worker_token_hash.same(&other.worker_token_hash)
            && self.pid.same(&other.pid)
            && self.process_observed_at.same(&other.process_observed_at)
            && self.last_event_at.same(&other.last_event_at)
            && self.last_event_kind.same(&other.last_event_kind)
            && self.last_semantic_progress_at.same(&other.last_semantic_progress_at)
            && self.last_semantic_progress_summary.same(&other.last_semantic_progress_summary)
            && self.attempt_timeout_seconds.same(&other.attempt_timeout_seconds)
            && self.no_output_warning_seconds.same(&other.no_output_warning_seconds)
    }
}

/// The columns of the progress of a run.
#[derive(Debug, Clone, PartialEq, Eq)]
pub struct ProgressColumns {
    pub run_id: String,
    pub phase: String,
    pub slice_id: String,
    pub attempt: i64,
    pub command: String,
    pub message: String,
    pub output_tail: String,
    pub phase_started_at: String,
    pub updated_at: String,
    pub worker_attempt_started_at: String,
    pub pid: Option<i64>,
    pub process_observed_at: String,
    pub last_event_at: String,
    pub last_event_kind: String,
    pub last_semantic_progress_at: String,
    pub last_semantic_progress_summary: String,
    pub attempt_timeout_seconds: i64,
    pub no_output_warning_seconds: i64,
}

#[verifier::ext_equal]
pub struct ProgressColumnsModel {
    pub run_id: Seq<char>,
    pub phase: Seq<char>,
    pub slice_id: Seq<char>,
    pub attempt: i64,
    pub command: Seq<char>,
    pub message: Seq<char>,
    pub output_tail: Seq<char>,
    pub phase_started_at: Seq<char>,
    pub updated_at: Seq<char>,
    pub worker_attempt_started_at: Seq<char>,
    pub pid: Option<i64>,
    pub process_observed_at: Seq<char>,
    pub last_event_at: Seq<char>,
    pub last_event_kind: Seq<char>,
    pub last_semantic_progress_at: Seq<char>,
    pub last_semantic_progress_summary: Seq<char>,
    pub attempt_timeout_seconds: i64,
    pub no_output_warning_seconds: i64,
}

impl DeepView for ProgressColumns {
    type V = ProgressColumnsModel;

    open spec fn deep_view(&self) -> ProgressColumnsModel {
        ProgressColumnsModel {
            run_id: self.run_id.deep_view(),
            phase: self.phase.deep_view(),
            slice_id: self.slice_id.deep_view(),
            attempt: self.attempt.deep_view(),
            command: self.command.deep_view(),
            message: self.message.deep_view(),
            output_tail: self.output_tail.deep_view(),
            phase_started_at: self.phase_started_at.deep_view(),
            updated_at: self.updated_at.deep_view(),
            worker_attempt_started_at: self.worker_attempt_started_at.deep_view(),
            pid: self.pid.deep_view(),
            process_observed_at: self.process_observed_at.deep_view(),
            last_event_at: self.last_event_at.deep_view(),
            last_event_kind: self.last_event_kind.deep_view(),
            last_semantic_progress_at: self.last_semantic_progress_at.deep_view(),
            last_semantic_progress_summary: self.last_semantic_progress_summary.deep_view(),
            attempt_timeout_seconds: self.attempt_timeout_seconds.deep_view(),
            no_output_warning_seconds: self.no_output_warning_seconds.deep_view(),
        }
    }
}

impl View for ProgressColumns {
    type V = ProgressColumnsModel;

    open spec fn view(&self) -> ProgressColumnsModel {
        self.deep_view()
    }
}

impl Row for ProgressColumns {
    fn dup(&self) -> (r: Self) {
        ProgressColumns {
            run_id: self.run_id.dup(),
            phase: self.phase.dup(),
            slice_id: self.slice_id.dup(),
            attempt: self.attempt.dup(),
            command: self.command.dup(),
            message: self.message.dup(),
            output_tail: self.output_tail.dup(),
            phase_started_at: self.phase_started_at.dup(),
            updated_at: self.updated_at.dup(),
            worker_attempt_started_at: self.worker_attempt_started_at.dup(),
            pid: self.pid.dup(),
            process_observed_at: self.process_observed_at.dup(),
            last_event_at: self.last_event_at.dup(),
            last_event_kind: self.last_event_kind.dup(),
            last_semantic_progress_at: self.last_semantic_progress_at.dup(),
            last_semantic_progress_summary: self.last_semantic_progress_summary.dup(),
            attempt_timeout_seconds: self.attempt_timeout_seconds.dup(),
            no_output_warning_seconds: self.no_output_warning_seconds.dup(),
        }
    }

    fn same(&self, other: &Self) -> (r: bool) {
        self.run_id.same(&other.run_id)
            && self.phase.same(&other.phase)
            && self.slice_id.same(&other.slice_id)
            && self.attempt.same(&other.attempt)
            && self.command.same(&other.command)
            && self.message.same(&other.message)
            && self.output_tail.same(&other.output_tail)
            && self.phase_started_at.same(&other.phase_started_at)
            && self.updated_at.same(&other.updated_at)
            && self.worker_attempt_started_at.same(&other.worker_attempt_started_at)
            && self.pid.same(&other.pid)
            && self.process_observed_at.same(&other.process_observed_at)
            && self.last_event_at.same(&other.last_event_at)
            && self.last_event_kind.same(&other.last_event_kind)
            && self.last_semantic_progress_at.same(&other.last_semantic_progress_at)
            && self.last_semantic_progress_summary.same(&other.last_semantic_progress_summary)
            && self.attempt_timeout_seconds.same(&other.attempt_timeout_seconds)
            && self.no_output_warning_seconds.same(&other.no_output_warning_seconds)
    }
}

/// The columns of an indexed status source.
#[derive(Debug, Clone, PartialEq, Eq)]
pub struct SourceColumns {
    pub run_id: String,
    pub source: String,
    pub payload_json: String,
    pub indexed_event_id: i64,
    pub content_sha256: String,
    pub observed_at: String,
}

#[verifier::ext_equal]
pub struct SourceColumnsModel {
    pub run_id: Seq<char>,
    pub source: Seq<char>,
    pub payload_json: Seq<char>,
    pub indexed_event_id: i64,
    pub content_sha256: Seq<char>,
    pub observed_at: Seq<char>,
}

impl DeepView for SourceColumns {
    type V = SourceColumnsModel;

    open spec fn deep_view(&self) -> SourceColumnsModel {
        SourceColumnsModel {
            run_id: self.run_id.deep_view(),
            source: self.source.deep_view(),
            payload_json: self.payload_json.deep_view(),
            indexed_event_id: self.indexed_event_id.deep_view(),
            content_sha256: self.content_sha256.deep_view(),
            observed_at: self.observed_at.deep_view(),
        }
    }
}

impl View for SourceColumns {
    type V = SourceColumnsModel;

    open spec fn view(&self) -> SourceColumnsModel {
        self.deep_view()
    }
}

impl Row for SourceColumns {
    fn dup(&self) -> (r: Self) {
        SourceColumns {
            run_id: self.run_id.dup(),
            source: self.source.dup(),
            payload_json: self.payload_json.dup(),
            indexed_event_id: self.indexed_event_id.dup(),
            content_sha256: self.content_sha256.dup(),
            observed_at: self.observed_at.dup(),
        }
    }

    fn same(&self, other: &Self) -> (r: bool) {
        self.run_id.same(&other.run_id)
            && self.source.same(&other.source)
            && self.payload_json.same(&other.payload_json)
            && self.indexed_event_id.same(&other.indexed_event_id)
            && self.content_sha256.same(&other.content_sha256)
            && self.observed_at.same(&other.observed_at)
    }
}

/// The columns of the worker token of a run.
#[derive(Debug, Clone, PartialEq, Eq)]
pub struct TokenColumns {
    pub run_id: String,
    pub token_hash: String,
    pub created_at: String,
}

#[verifier::ext_equal]
pub struct TokenColumnsModel {
    pub run_id: Seq<char>,
    pub token_hash: Seq<char>,
    pub created_at: Seq<char>,
}

impl DeepView for TokenColumns {
    type V = TokenColumnsModel;

    open spec fn deep_view(&self) -> TokenColumnsModel {
        TokenColumnsModel {
            run_id: self.run_id.deep_view(),
            token_hash: self.token_hash.deep_view(),
            created_at: self.created_at.deep_view(),
        }
    }
}

impl View for TokenColumns {
    type V = TokenColumnsModel;

    open spec fn view(&self) -> TokenColumnsModel {
        self.deep_view()
    }
}

impl Row for TokenColumns {
    fn dup(&self) -> (r: Self) {
        TokenColumns {
            run_id: self.run_id.dup(),
            token_hash: self.token_hash.dup(),
            created_at: self.created_at.dup(),
        }
    }

    fn same(&self, other: &Self) -> (r: bool) {
        self.run_id.same(&other.run_id)
            && self.token_hash.same(&other.token_hash)
            && self.created_at.same(&other.created_at)
    }
}

/// The columns of a repository.
#[derive(Debug, Clone, PartialEq, Eq)]
pub struct RepoColumns {
    pub id: String,
    pub path: String,
    pub created_at: String,
}

#[verifier::ext_equal]
pub struct RepoColumnsModel {
    pub id: Seq<char>,
    pub path: Seq<char>,
    pub created_at: Seq<char>,
}

impl DeepView for RepoColumns {
    type V = RepoColumnsModel;

    open spec fn deep_view(&self) -> RepoColumnsModel {
        RepoColumnsModel {
            id: self.id.deep_view(),
            path: self.path.deep_view(),
            created_at: self.created_at.deep_view(),
        }
    }
}

impl View for RepoColumns {
    type V = RepoColumnsModel;

    open spec fn view(&self) -> RepoColumnsModel {
        self.deep_view()
    }
}

impl Row for RepoColumns {
    fn dup(&self) -> (r: Self) {
        RepoColumns {
            id: self.id.dup(),
            path: self.path.dup(),
            created_at: self.created_at.dup(),
        }
    }

    fn same(&self, other: &Self) -> (r: bool) {
        self.id.same(&other.id)
            && self.path.same(&other.path)
            && self.created_at.same(&other.created_at)
    }
}

pub open spec fn run_of(c: RunColumnsModel) -> Result<RunModel, RowError> {
    if RunStatus::of_text(c.status) is None {
        Err(RowError::Status)
    } else if Timestamp::of_text(c.started_at) is None {
        Err(RowError::StartedAt)
    } else if Timestamp::of_text(c.updated_at) is None {
        Err(RowError::UpdatedAt)
    } else {
        Ok(
            RunModel {
                id: c.id,
                repo_id: c.repo_id,
                repo_path: c.repo_path,
                status: RunStatus::of_text(c.status)->0,
                base_branch: c.base_branch,
                base_sha: c.base_sha,
                integration_branch: c.integration_branch,
                selected_slice_id: c.selected_slice_id,
                error: c.error,
                started_at: Timestamp::of_text(c.started_at)->0,
                updated_at: Timestamp::of_text(c.updated_at)->0,
            },
        )
    }
}

/// Reads a run.
pub fn run_from_columns(c: &RunColumns) -> (r: Result<Run, RowError>)
    ensures
        read(r) == run_of(c@),
{
    let status = match RunStatus::parse(c.status.as_str()) {
        Some(status) => status,
        None => {
            return Err(RowError::Status);
        },
    };
    let started_at = match Timestamp::parse(c.started_at.as_str()) {
        Some(started_at) => started_at,
        None => {
            return Err(RowError::StartedAt);
        },
    };
    let updated_at = match Timestamp::parse(c.updated_at.as_str()) {
        Some(updated_at) => updated_at,
        None => {
            return Err(RowError::UpdatedAt);
        },
    };
    let row = Run {
        id: c.id.dup(),
        repo_id: c.repo_id.dup(),
        repo_path: c.repo_path.dup(),
        status,
        base_branch: c.base_branch.dup(),
        base_sha: c.base_sha.dup(),
        integration_branch: c.integration_branch.dup(),
        selected_slice_id: c.selected_slice_id.dup(),
        error: c.error.dup(),
        started_at,
        updated_at,
    };
    assert(row@ =~= run_of(c@)->Ok_0);
    Ok(row)
}

pub open spec fn run_launch_intent_of(c: LaunchColumnsModel) -> Result<RunLaunchIntentModel, RowError> {
    if RunLaunchAction::of_text(c.action) is None {
        Err(RowError::Action)
    } else if RunLaunchState::of_text(c.state) is None {
        Err(RowError::State)
    } else if c.prior_status.len() > 0 && RunStatus::of_text(c.prior_status) is None {
        Err(RowError::PriorStatus)
    } else if Timestamp::of_text(c.created_at) is None {
        Err(RowError::CreatedAt)
    } else if Timestamp::of_text(c.updated_at) is None {
        Err(RowError::UpdatedAt)
    } else {
        Ok(
            RunLaunchIntentModel {
                run_id: c.run_id,
                execution_epoch: at_least(1, c.execution_epoch),
                action: RunLaunchAction::of_text(c.action)->0,
                state: RunLaunchState::of_text(c.state)->0,
                repo_id: c.repo_id,
                integration_branch: c.integration_branch,
                integration_worktree: c.integration_worktree,
                integration_resources_owned: c.integration_resources_owned,
                prior_status: if c.prior_status.len() == 0 {
                    None
                } else {
                    RunStatus::of_text(c.prior_status)
                },
                prior_error: c.prior_error,
                primary_cause: c.primary_cause,
                compensation_error: c.compensation_error,
                created_at: Timestamp::of_text(c.created_at)->0,
                updated_at: Timestamp::of_text(c.updated_at)->0,
            },
        )
    }
}

/// Reads a launch of a run.
pub fn run_launch_intent_from_columns(c: &LaunchColumns) -> (r: Result<RunLaunchIntent, RowError>)
    ensures
        read(r) == run_launch_intent_of(c@),
{
    let action = match RunLaunchAction::parse(c.action.as_str()) {
        Some(action) => action,
        None => {
            return Err(RowError::Action);
        },
    };
    let state = match RunLaunchState::parse(c.state.as_str()) {
        Some(state) => state,
        None => {
            return Err(RowError::State);
        },
    };
    let prior_status = if c.prior_status.as_str().is_empty() {
        None
    } else {
        match RunStatus::parse(c.prior_status.as_str()) {
            Some(status) => Some(status),
            None => {
                return Err(RowError::PriorStatus);
            },
        }
    };
    let created_at = match Timestamp::parse(c.created_at.as_str()) {
        Some(created_at) => created_at,
        None => {
            return Err(RowError::CreatedAt);
        },
    };
    let updated_at = match Timestamp::parse(c.updated_at.as_str()) {
        Some(updated_at) => updated_at,
        None => {
            return Err(RowError::UpdatedAt);
        },
    };
    let row = RunLaunchIntent {
        run_id: c.run_id.dup(),
        execution_epoch: count_from(1, c.execution_epoch),
        action,
        state,
        repo_id: c.repo_id.dup(),
        integration_branch: c.integration_branch.dup(),
        integration_worktree: c.integration_worktree.dup(),
        integration_resources_owned: c.integration_resources_owned.dup(),
        prior_status,
        prior_error: c.prior_error.dup(),
        primary_cause: c.primary_cause.dup(),
        compensation_error: c.compensation_error.dup(),
        created_at,
        updated_at,
    };
    assert(row@ =~= run_launch_intent_of(c@)->Ok_0);
    Ok(row)
}

pub open spec fn terminal_transition_of(c: TerminalColumnsModel) -> Result<TerminalTransitionModel, RowError> {
    if RunStatus::of_text(c.status) is None {
        Err(RowError::Status)
    } else {
        Ok(
            TerminalTransitionModel {
                status: RunStatus::of_text(c.status)->0,
                error: c.error,
                progress_message: c.progress_message,
                question_interruption_reason: c.question_interruption_reason,
                summary_written: !blank(c.summary_written_at),
                committed: !blank(c.committed_at),
            },
        )
    }
}

/// Reads how far the end of a run has come.
pub fn terminal_transition_from_columns(c: &TerminalColumns) -> (r: Result<TerminalTransition, RowError>)
    ensures
        read(r) == terminal_transition_of(c@),
{
    let status = match RunStatus::parse(c.status.as_str()) {
        Some(status) => status,
        None => {
            return Err(RowError::Status);
        },
    };
    let row = TerminalTransition {
        status,
        error: c.error.dup(),
        progress_message: c.progress_message.dup(),
        question_interruption_reason: c.question_interruption_reason.dup(),
        summary_written: !is_blank(c.summary_written_at.as_str()),
        committed: !is_blank(c.committed_at.as_str()),
    };
    assert(row@ =~= terminal_transition_of(c@)->Ok_0);
    Ok(row)
}

pub open spec fn terminal_row_of(c: TerminalRowColumnsModel) -> Result<TerminalRowModel, RowError> {
    if RunStatus::of_text(c.status) is None {
        Err(RowError::Status)
    } else {
        Ok(
            TerminalRowModel {
                run_id: c.run_id,
                status: RunStatus::of_text(c.status)->0,
                error: c.error,
                progress_message: c.progress_message,
                question_interruption_reason: c.question_interruption_reason,
                intended_at: c.intended_at,
                summary_written_at: StepMarkModel::of_text(c.summary_written_at),
                committed_at: StepMarkModel::of_text(c.committed_at),
                notification_bookkept_at: StepMarkModel::of_text(c.notification_bookkept_at),
                cleanup_started_at: StepMarkModel::of_text(c.cleanup_started_at),
                cleanup_completed_at: StepMarkModel::of_text(c.cleanup_completed_at),
            },
        )
    }
}

/// Reads the end of a run with all its steps. Their times are not looked into.
pub fn terminal_row_from_columns(c: &TerminalRowColumns) -> (r: Result<TerminalRow, RowError>)
    ensures
        read(r) == terminal_row_of(c@),
{
    let status = match RunStatus::parse(c.status.as_str()) {
        Some(status) => status,
        None => {
            return Err(RowError::Status);
        },
    };
    let row = TerminalRow {
        run_id: c.run_id.dup(),
        status,
        error: c.error.dup(),
        progress_message: c.progress_message.dup(),
        question_interruption_reason: c.question_interruption_reason.dup(),
        intended_at: c.intended_at.dup(),
        summary_written_at: StepMark::of_text(c.summary_written_at.as_str()),
        committed_at: StepMark::of_text(c.committed_at.as_str()),
        notification_bookkept_at: StepMark::of_text(c.notification_bookkept_at.as_str()),
        cleanup_started_at: StepMark::of_text(c.cleanup_started_at.as_str()),
        cleanup_completed_at: StepMark::of_text(c.cleanup_completed_at.as_str()),
    };
    assert(row@ =~= terminal_row_of(c@)->Ok_0);
    Ok(row)
}

pub open spec fn integration_merge_intent_of(c: MergeColumnsModel) -> Result<IntegrationMergeIntentModel, RowError> {
    if IntegrationMergeKind::of_text(c.kind) is None {
        Err(RowError::Kind)
    } else if IntegrationMergeState::of_text(c.state) is None {
        Err(RowError::State)
    } else if c.completion is None {
        Err(RowError::Completion)
    } else if text_list(c.conflicted_files_json) is None {
        Err(RowError::ConflictedFiles)
    } else if Timestamp::of_text(c.created_at) is None {
        Err(RowError::CreatedAt)
    } else if Timestamp::of_text(c.updated_at) is None {
        Err(RowError::UpdatedAt)
    } else {
        Ok(
            IntegrationMergeIntentModel {
                operation_id: c.operation_id,
                run_id: c.run_id,
                kind: IntegrationMergeKind::of_text(c.kind)->0,
                slice_id: c.slice_id,
                attempt: at_least(0, c.attempt),
                launch_id: c.launch_id,
                source_branch: c.source_branch,
                source_commit: c.source_commit,
                source_tree: c.source_tree,
                expected_head: c.expected_head,
                expected_result_tree: c.expected_result_tree,
                resulting_head: c.resulting_head,
                state: IntegrationMergeState::of_text(c.state)->0,
                completion: c.completion->0,
                primary_cause: c.primary_cause,
                abort_error: c.abort_error,
                conflicted_files: text_list(c.conflicted_files_json)->0,
                created_at: Timestamp::of_text(c.created_at)->0,
                updated_at: Timestamp::of_text(c.updated_at)->0,
            },
        )
    }
}

/// Reads a merge.
pub fn integration_merge_intent_from_columns(c: &MergeColumns) -> (r: Result<IntegrationMergeIntent, RowError>)
    ensures
        read(r) == integration_merge_intent_of(c@),
{
    let kind = match IntegrationMergeKind::parse(c.kind.as_str()) {
        Some(kind) => kind,
        None => {
            return Err(RowError::Kind);
        },
    };
    let state = match IntegrationMergeState::parse(c.state.as_str()) {
        Some(state) => state,
        None => {
            return Err(RowError::State);
        },
    };
    let completion = match &c.completion {
        Some(completion) => completion.dup(),
        None => {
            return Err(RowError::Completion);
        },
    };
    let conflicted_files = match read_text_list(c.conflicted_files_json.as_str()) {
        Some(conflicted_files) => conflicted_files,
        None => {
            return Err(RowError::ConflictedFiles);
        },
    };
    let created_at = match Timestamp::parse(c.created_at.as_str()) {
        Some(created_at) => created_at,
        None => {
            return Err(RowError::CreatedAt);
        },
    };
    let updated_at = match Timestamp::parse(c.updated_at.as_str()) {
        Some(updated_at) => updated_at,
        None => {
            return Err(RowError::UpdatedAt);
        },
    };
    let row = IntegrationMergeIntent {
        operation_id: c.operation_id.dup(),
        run_id: c.run_id.dup(),
        kind,
        slice_id: c.slice_id.dup(),
        attempt: count_from(0, c.attempt),
        launch_id: c.launch_id.dup(),
        source_branch: c.source_branch.dup(),
        source_commit: c.source_commit.dup(),
        source_tree: c.source_tree.dup(),
        expected_head: c.expected_head.dup(),
        expected_result_tree: c.expected_result_tree.dup(),
        resulting_head: c.resulting_head.dup(),
        state,
        completion,
        primary_cause: c.primary_cause.dup(),
        abort_error: c.abort_error.dup(),
        conflicted_files,
        created_at,
        updated_at,
    };
    assert(row@ =~= integration_merge_intent_of(c@)->Ok_0);
    Ok(row)
}

pub open spec fn slice_run_of(c: SliceColumnsModel) -> Result<SliceRunModel, RowError> {
    if SliceStatus::of_text(c.status) is None {
        Err(RowError::Status)
    } else {
        Ok(
            SliceRunModel {
                run_id: c.run_id,
                slice_id: c.slice_id,
                status: SliceStatus::of_text(c.status)->0,
                branch: c.branch,
                commit_sha: c.commit_sha,
                attempts: c.attempts as usize,
                last_error: c.last_error,
            },
        )
    }
}

/// Reads a slice of a run.
pub fn slice_run_from_columns(c: &SliceColumns) -> (r: Result<SliceRun, RowError>)
    ensures
        read(r) == slice_run_of(c@),
{
    let status = match SliceStatus::parse(c.status.as_str()) {
        Some(status) => status,
        None => {
            return Err(RowError::Status);
        },
    };
    let row = SliceRun {
        run_id: c.run_id.dup(),
        slice_id: c.slice_id.dup(),
        status,
        branch: c.branch.dup(),
        commit_sha: c.commit_sha.dup(),
        attempts: #[verifier::truncate]
        (c.attempts as usize),
        last_error: c.last_error.dup(),
    };
    assert(row@ =~= slice_run_of(c@)->Ok_0);
    Ok(row)
}

pub open spec fn event_of(c: EventColumnsModel) -> Result<EventModel, RowError> {
    if c.payload is None {
        Err(RowError::Payload)
    } else if Timestamp::of_text(c.created_at) is None {
        Err(RowError::CreatedAt)
    } else {
        Ok(
            EventModel {
                id: c.id,
                run_id: c.run_id,
                typ: c.typ,
                payload: c.payload->0,
                created_at: Timestamp::of_text(c.created_at)->0,
            },
        )
    }
}

/// Reads an event.
pub fn event_from_columns(c: &EventColumns) -> (r: Result<Event, RowError>)
    ensures
        read(r) == event_of(c@),
{
    let payload = match &c.payload {
        Some(payload) => payload.dup(),
        None => {
            return Err(RowError::Payload);
        },
    };
    let created_at = match Timestamp::parse(c.created_at.as_str()) {
        Some(created_at) => created_at,
        None => {
            return Err(RowError::CreatedAt);
        },
    };
    let row = Event {
        id: c.id.dup(),
        run_id: c.run_id.dup(),
        typ: c.typ.dup(),
        payload,
        created_at,
    };
    assert(row@ =~= event_of(c@)->Ok_0);
    Ok(row)
}

pub open spec fn replan_proposal_of(c: ProposalColumnsModel) -> Result<ReplanProposalModel, RowError> {
    if ReplanProposalState::of_text(c.state) is None {
        Err(RowError::State)
    } else if c.source is None {
        Err(RowError::Source)
    } else if text_list(c.trigger_finding_ids_json) is None {
        Err(RowError::FindingIds)
    } else if c.evidence is None {
        Err(RowError::Evidence)
    } else if c.proposed_changes is None {
        Err(RowError::Changes)
    } else if !blank(c.decision_json) && c.decision is None {
        Err(RowError::Decision)
    } else if !blank(c.classification_json) && c.classification is None {
        Err(RowError::Classification)
    } else if Timestamp::of_text(c.created_at) is None {
        Err(RowError::CreatedAt)
    } else if Timestamp::of_text(c.updated_at) is None {
        Err(RowError::UpdatedAt)
    } else {
        Ok(
            ReplanProposalModel {
                id: c.id,
                run_id: c.run_id,
                state: ReplanProposalState::of_text(c.state)->0,
                source: c.source->0,
                trigger_finding_ids: text_list(c.trigger_finding_ids_json)->0,
                evidence: c.evidence->0,
                proposed_changes: c.proposed_changes->0,
                risk: c.risk,
                operator_decision: if blank(c.decision_json) {
                    None
                } else {
                    c.decision
                },
                frontier_classification: if blank(c.classification_json) {
                    None
                } else {
                    c.classification
                },
                created_at: Timestamp::of_text(c.created_at)->0,
                updated_at: Timestamp::of_text(c.updated_at)->0,
                decision_commands: Seq::empty(),
            },
        )
    }
}

/// Reads a replan proposal.
pub fn replan_proposal_from_columns(c: &ProposalColumns) -> (r: Result<ReplanProposal, RowError>)
    ensures
        read(r) == replan_proposal_of(c@),
{
    let state = match ReplanProposalState::parse(c.state.as_str()) {
        Some(state) => state,
        None => {
            return Err(RowError::State);
        },
    };
    let source = match &c.source {
        Some(source) => source.dup(),
        None => {
            return Err(RowError::Source);
        },
    };
    let trigger_finding_ids = match read_text_list(c.trigger_finding_ids_json.as_str()) {
        Some(trigger_finding_ids) => trigger_finding_ids,
        None => {
            return Err(RowError::FindingIds);
        },
    };
    let evidence = match &c.evidence {
        Some(evidence) => evidence.dup(),
        None => {
            return Err(RowError::Evidence);
        },
    };
    let proposed_changes = match &c.proposed_changes {
        Some(proposed_changes) => proposed_changes.dup(),
        None => {
            return Err(RowError::Changes);
        },
    };
    let operator_decision = if is_blank(c.decision_json.as_str()) {
        None
    } else {
        match &c.decision {
            Some(operator_decision) => Some(operator_decision.dup()),
            None => {
                return Err(RowError::Decision);
            },
        }
    };
    let frontier_classification = if is_blank(c.classification_json.as_str()) {
        None
    } else {
        match &c.classification {
            Some(frontier_classification) => Some(frontier_classification.dup()),
            None => {
                return Err(RowError::Classification);
            },
        }
    };
    let created_at = match Timestamp::parse(c.created_at.as_str()) {
        Some(created_at) => created_at,
        None => {
            return Err(RowError::CreatedAt);
        },
    };
    let updated_at = match Timestamp::parse(c.updated_at.as_str()) {
        Some(updated_at) => updated_at,
        None => {
            return Err(RowError::UpdatedAt);
        },
    };
    let row = ReplanProposal {
        id: c.id.dup(),
        run_id: c.run_id.dup(),
        state,
        source,
        trigger_finding_ids,
        evidence,
        proposed_changes,
        risk: c.risk.dup(),
        operator_decision,
        frontier_classification,
        created_at,
        updated_at,
        decision_commands: Vec::new(),
    };
    assert(row@ =~= replan_proposal_of(c@)->Ok_0);
    Ok(row)
}

pub open spec fn worker_question_of(c: QuestionColumnsModel) -> Result<WorkerQuestionModel, RowError> {
    if text_list(c.options_json) is None {
        Err(RowError::Options)
    } else if Timestamp::of_text(c.asked_at) is None {
        Err(RowError::AskedAt)
    } else if !blank(c.deadline_at) && Timestamp::of_text(c.deadline_at) is None {
        Err(RowError::DeadlineAt)
    } else if optional_time(c.answered_at) is None {
        Err(RowError::AnsweredAt)
    } else {
        Ok(
            WorkerQuestionModel {
                id: c.id,
                run_id: c.run_id,
                slice_id: c.slice_id,
                attempt: at_least(0, c.attempt),
                launch_id: c.launch_id,
                question: c.question,
                options: text_list(c.options_json)->0,
                timeout_seconds: seconds_of(c.timeout_seconds),
                recommended_answer: c.recommended_answer,
                recommendation_rationale: c.recommendation_rationale,
                bounded_within_current_slice_or_mission_authority: c.bounded_within_current_slice_or_mission_authority,
                reversible: c.reversible,
                fallback_eligible: c.fallback_eligible,
                deadline_at: if !blank(c.deadline_at) {
                    Timestamp::of_text(c.deadline_at)
                } else if c.timeout_seconds <= 0 {
                    None
                } else {
                    (Timestamp::of_text(c.asked_at)->0).plus_seconds(c.timeout_seconds as nat)
                },
                state: c.state,
                asked_at: Timestamp::of_text(c.asked_at)->0,
                answered_at: optional_time(c.answered_at)->0,
                answer: c.answer,
                answer_source: WorkerQuestionAnswerSource::of_text(c.answer_source),
            },
        )
    }
}

/// Reads a worker question. A question without a recorded deadline has the one that follows from
/// its timeout.
pub fn worker_question_from_row(c: &QuestionColumns) -> (r: Result<WorkerQuestion, RowError>)
    requires
        blank(c@.deadline_at) ==> c@.timeout_seconds <= MAX_TIMEOUT_SECONDS,
    ensures
        read(r) == worker_question_of(c@),
{
    let options = match read_text_list(c.options_json.as_str()) {
        Some(options) => options,
        None => {
            return Err(RowError::Options);
        },
    };
    let asked_at = match Timestamp::parse(c.asked_at.as_str()) {
        Some(asked_at) => asked_at,
        None => {
            return Err(RowError::AskedAt);
        },
    };
    let timeout_seconds: u64 = if c.timeout_seconds < 0 {
        0
    } else {
        c.timeout_seconds as u64
    };
    let deadline_at = if is_blank(c.deadline_at.as_str()) {
        if timeout_seconds == 0 {
            None
        } else {
            asked_at.checked_add_seconds(timeout_seconds)
        }
    } else {
        match Timestamp::parse(c.deadline_at.as_str()) {
            Some(at) => Some(at),
            None => {
                return Err(RowError::DeadlineAt);
            },
        }
    };
    let answered_at = match parse_optional_time(c.answered_at.as_str()) {
        Some(answered_at) => answered_at,
        None => {
            return Err(RowError::AnsweredAt);
        },
    };
    let row = WorkerQuestion {
        id: c.id.dup(),
        run_id: c.run_id.dup(),
        slice_id: c.slice_id.dup(),
        attempt: count_from(0, c.attempt),
        launch_id: c.launch_id.dup(),
        question: c.question.dup(),
        options,
        timeout_seconds,
        recommended_answer: c.recommended_answer.dup(),
        recommendation_rationale: c.recommendation_rationale.dup(),
        bounded_within_current_slice_or_mission_authority: c.bounded_within_current_slice_or_mission_authority.dup(),
        reversible: c.reversible.dup(),
        fallback_eligible: c.fallback_eligible.dup(),
        deadline_at,
        state: c.state.dup(),
        asked_at,
        answered_at,
        answer: c.answer.dup(),
        answer_source: WorkerQuestionAnswerSource::parse(c.answer_source.as_str()),
    };
    assert(row@ =~= worker_question_of(c@)->Ok_0);
    Ok(row)
}

pub open spec fn worker_attempt_ledger_of(c: AttemptColumnsModel) -> Result<AttemptRowModel, RowError> {
    if time_or_empty(c.launched_at) is None {
        Err(RowError::LaunchedAt)
    } else if launched(c) && (time_or_empty(c.process_observed_at) is None || time_or_empty(c.last_event_at) is None
        || time_or_empty(c.last_semantic_progress_at) is None) {
        Err(RowError::ObservedAt)
    } else if Timestamp::of_text(c.created_at) is None {
        Err(RowError::CreatedAt)
    } else if time_or_empty(c.finished_at) is None {
        Err(RowError::FinishedAt)
    } else {
        Ok(
            AttemptRowModel {
                attempt: WorkerAttemptLedgerModel {
                    run_id: c.run_id,
                    slice_id: c.slice_id,
                    launch_id: c.launch_id,
                    launch_ordinal: at_least(0, c.launch_ordinal),
                    execution_epoch: at_least(0, c.execution_epoch),
                    worker_retry_ordinal: at_least(0, c.worker_retry_ordinal),
                    repair_ordinal: at_least(0, c.repair_ordinal),
                    envelope_retry_ordinal: at_least(0, c.envelope_retry_ordinal),
                    kind: c.kind,
                    state: c.state,
                    branch: c.branch,
                    worktree: c.worktree,
                    output_stem: c.output_stem,
                    created_at: Timestamp::of_text(c.created_at)->0,
                    launched_at: time_or_empty(c.launched_at)->0,
                    finished_at: time_or_empty(c.finished_at)->0,
                    failure_cause: c.failure_cause,
                    activity: None,
                },
                worker_token_hash: c.worker_token_hash,
                observed: WorkerObservationModel {
                    pid: match c.pid {
                        Some(pid) => Some(
                            (if pid < 0 {
                                0
                            } else {
                                pid as int
                            }) as u32,
                        ),
                        None => None,
                    },
                    process_observed_at: known(time_or_empty(c.process_observed_at)),
                    last_event_at: known(time_or_empty(c.last_event_at)),
                    last_event_kind: c.last_event_kind,
                    last_semantic_progress_at: known(
                        time_or_empty(c.last_semantic_progress_at),
                    ),
                    last_semantic_progress_summary: c.last_semantic_progress_summary,
                    attempt_timeout_seconds: seconds_of(c.attempt_timeout_seconds),
                    no_output_warning_seconds: seconds_of(c.no_output_warning_seconds),
                },
            },
        )
    }
}

/// Reads a worker launch. Times that were observed of a launch that never began are not looked at.
pub fn worker_attempt_ledger_from_row(c: &AttemptColumns) -> (r: Result<AttemptRow, RowError>)
    ensures
        read(r) == worker_attempt_ledger_of(c@),
{
    let launched_at = match parse_time_or_empty(c.launched_at.as_str()) {
        Some(launched_at) => launched_at,
        None => {
            return Err(RowError::LaunchedAt);
        },
    };
    let process_observed_at = parse_time_or_empty(c.process_observed_at.as_str());
    let last_event_at = parse_time_or_empty(c.last_event_at.as_str());
    let last_semantic_progress_at = parse_time_or_empty(c.last_semantic_progress_at.as_str());
    if launched_at.is_some() && (process_observed_at.is_none() || last_event_at.is_none()
        || last_semantic_progress_at.is_none()) {
        return Err(RowError::ObservedAt);
    }
    let created_at = match Timestamp::parse(c.created_at.as_str()) {
        Some(created_at) => created_at,
        None => {
            return Err(RowError::CreatedAt);
        },
    };
    let finished_at = match parse_time_or_empty(c.finished_at.as_str()) {
        Some(finished_at) => finished_at,
        None => {
            return Err(RowError::FinishedAt);
        },
    };
    let row = AttemptRow {
        attempt: WorkerAttemptLedger {
            run_id: c.run_id.dup(),
            slice_id: c.slice_id.dup(),
            launch_id: c.launch_id,
            launch_ordinal: count_from(0, c.launch_ordinal),
            execution_epoch: count_from(0, c.execution_epoch),
            worker_retry_ordinal: count_from(0, c.worker_retry_ordinal),
            repair_ordinal: count_from(0, c.repair_ordinal),
            envelope_retry_ordinal: count_from(0, c.envelope_retry_ordinal),
            kind: c.kind.dup(),
            state: c.state.dup(),
            branch: c.branch.dup(),
            worktree: c.worktree.dup(),
            output_stem: c.output_stem.dup(),
            created_at,
            launched_at,
            finished_at,
            failure_cause: c.failure_cause.dup(),
            activity: None,
        },
        worker_token_hash: c.worker_token_hash.dup(),
        observed: WorkerObservation {
            pid: match c.pid {
                Some(pid) => {
                    let pid: i64 = if pid < 0 {
                        0
                    } else {
                        pid
                    };
                    Some(
                        #[verifier::truncate]
                        (pid as u32),
                    )
                },
                None => None,
            },
            process_observed_at: known_time(process_observed_at),
            last_event_at: known_time(last_event_at),
            last_event_kind: c.last_event_kind.dup(),
            last_semantic_progress_at: known_time(last_semantic_progress_at),
            last_semantic_progress_summary: c.last_semantic_progress_summary.dup(),
            attempt_timeout_seconds: whole_seconds(c.attempt_timeout_seconds),
            no_output_warning_seconds: whole_seconds(c.no_output_warning_seconds),
        },
    };
    assert(row@ =~= worker_attempt_ledger_of(c@)->Ok_0);
    Ok(row)
}

pub open spec fn run_progress_of(c: ProgressColumnsModel) -> Result<ProgressRowModel, RowError> {
    if optional_time(c.worker_attempt_started_at) is None {
        Err(RowError::WorkerAttemptStartedAt)
    } else if !blank(c.worker_attempt_started_at) && (optional_time(c.process_observed_at) is None || optional_time(c.last_event_at) is None
        || optional_time(c.last_semantic_progress_at) is None) {
        Err(RowError::ObservedAt)
    } else if Timestamp::of_text(c.phase_started_at) is None {
        Err(RowError::PhaseStartedAt)
    } else if Timestamp::of_text(c.updated_at) is None {
        Err(RowError::UpdatedAt)
    } else {
        Ok(
            ProgressRowModel {
                run_id: c.run_id,
                phase: c.phase,
                slice_id: c.slice_id,
                attempt: c.attempt as usize,
                command: c.command,
                message: c.message,
                output_tail: c.output_tail,
                phase_started_at: Timestamp::of_text(c.phase_started_at)->0,
                updated_at: Timestamp::of_text(c.updated_at)->0,
                worker_attempt_started_at: optional_time(c.worker_attempt_started_at)->0,
                observed: WorkerObservationModel {
                    pid: match c.pid {
                        Some(pid) => if 0 <= pid <= u32::MAX {
                            Some(pid as u32)
                        } else {
                            None
                        },
                        None => None,
                    },
                    process_observed_at: known(optional_time(c.process_observed_at)),
                    last_event_at: known(optional_time(c.last_event_at)),
                    last_event_kind: c.last_event_kind,
                    last_semantic_progress_at: known(
                        optional_time(c.last_semantic_progress_at),
                    ),
                    last_semantic_progress_summary: c.last_semantic_progress_summary,
                    attempt_timeout_seconds: c.attempt_timeout_seconds as u64,
                    no_output_warning_seconds: c.no_output_warning_seconds as u64,
                },
            },
        )
    }
}

/// Reads the progress of a run. Times that were observed of no worker are not looked at.
pub fn run_progress_from_columns(c: &ProgressColumns) -> (r: Result<ProgressRow, RowError>)
    ensures
        read(r) == run_progress_of(c@),
{
    let worker_attempt_started_at = match parse_optional_time(c.worker_attempt_started_at.as_str()) {
        Some(worker_attempt_started_at) => worker_attempt_started_at,
        None => {
            return Err(RowError::WorkerAttemptStartedAt);
        },
    };
    let process_observed_at = parse_optional_time(c.process_observed_at.as_str());
    let last_event_at = parse_optional_time(c.last_event_at.as_str());
    let last_semantic_progress_at = parse_optional_time(c.last_semantic_progress_at.as_str());
    if worker_attempt_started_at.is_some() && (process_observed_at.is_none()
        || last_event_at.is_none() || last_semantic_progress_at.is_none()) {
        return Err(RowError::ObservedAt);
    }
    let phase_started_at = match Timestamp::parse(c.phase_started_at.as_str()) {
        Some(phase_started_at) => phase_started_at,
        None => {
            return Err(RowError::PhaseStartedAt);
        },
    };
    let updated_at = match Timestamp::parse(c.updated_at.as_str()) {
        Some(updated_at) => updated_at,
        None => {
            return Err(RowError::UpdatedAt);
        },
    };
    let row = ProgressRow {
        run_id: c.run_id.dup(),
        phase: c.phase.dup(),
        slice_id: c.slice_id.dup(),
        attempt: #[verifier::truncate]
        (c.attempt as usize),
        command: c.command.dup(),
        message: c.message.dup(),
        output_tail: c.output_tail.dup(),
        phase_started_at,
        updated_at,
        worker_attempt_started_at,
        observed: WorkerObservation {
            pid: match c.pid {
                Some(pid) => if 0 <= pid && pid <= 4294967295 {
                    Some(pid as u32)
                } else {
                    None
                },
                None => None,
            },
            process_observed_at: known_time(process_observed_at),
            last_event_at: known_time(last_event_at),
            last_event_kind: c.last_event_kind.dup(),
            last_semantic_progress_at: known_time(last_semantic_progress_at),
            last_semantic_progress_summary: c.last_semantic_progress_summary.dup(),
            attempt_timeout_seconds:
                #[verifier::truncate]
                (c.attempt_timeout_seconds as u64),
            no_output_warning_seconds:
                #[verifier::truncate]
                (c.no_output_warning_seconds as u64),
        },
    };
    assert(row@ =~= run_progress_of(c@)->Ok_0);
    Ok(row)
}

pub open spec fn status_source_of(c: SourceColumnsModel) -> Result<StatusSourceRowModel, RowError> {
    if Timestamp::of_text(c.observed_at) is None {
        Err(RowError::ObservedAt)
    } else {
        Ok(
            StatusSourceRowModel {
                run_id: c.run_id,
                source: c.source,
                payload_json: c.payload_json,
                indexed_event_id: c.indexed_event_id,
                content_sha256: c.content_sha256,
                observed_at: Timestamp::of_text(c.observed_at)->0,
            },
        )
    }
}

/// Reads an indexed status source.
pub fn status_source_from_columns(c: &SourceColumns) -> (r: Result<StatusSourceRow, RowError>)
    ensures
        read(r) == status_source_of(c@),
{
    let observed_at = match Timestamp::parse(c.observed_at.as_str()) {
        Some(observed_at) => observed_at,
        None => {
            return Err(RowError::ObservedAt);
        },
    };
    let row = StatusSourceRow {
        run_id: c.run_id.dup(),
        source: c.source.dup(),
        payload_json: c.payload_json.dup(),
        indexed_event_id: c.indexed_event_id.dup(),
        content_sha256: c.content_sha256.dup(),
        observed_at,
    };
    assert(row@ =~= status_source_of(c@)->Ok_0);
    Ok(row)
}

pub open spec fn worker_token_of(c: TokenColumnsModel) -> WorkerTokenRowModel {
    WorkerTokenRowModel { run_id: c.run_id, token_hash: c.token_hash, created_at: c.created_at }
}

/// Reads the worker token of a run. Its time is not looked into.
pub fn worker_token_from_columns(c: &TokenColumns) -> (r: WorkerTokenRow)
    ensures
        r@ == worker_token_of(c@),
{
    WorkerTokenRow {
        run_id: c.run_id.dup(),
        token_hash: c.token_hash.dup(),
        created_at: c.created_at.dup(),
    }
}

pub open spec fn repo_of(c: RepoColumnsModel) -> RepoRowModel {
    RepoRowModel { id: c.id, path: c.path, created_at: c.created_at }
}

/// Reads a repository. Its time is not looked into.
pub fn repo_from_columns(c: &RepoColumns) -> (r: RepoRow)
    ensures
        r@ == repo_of(c@),
{
    RepoRow { id: c.id.dup(), path: c.path.dup(), created_at: c.created_at.dup() }
}

/// What the mission envelope and frontier budget columns hold. `envelope` and `budget` are what
/// their texts decode to, where they do.
pub open spec fn frontier_of(
    envelope_json: Seq<char>,
    envelope: Option<MissionEnvelopeModel>,
    budget_json: Seq<char>,
    budget: Option<FrontierBudgetStateModel>,
) -> Result<(Option<MissionEnvelopeModel>, Option<FrontierBudgetStateModel>), RowError> {
    if !blank(envelope_json) && envelope is None {
        Err(RowError::MissionEnvelope)
    } else if !blank(budget_json) && budget is None {
        Err(RowError::FrontierBudget)
    } else {
        Ok(
            (
                if blank(envelope_json) {
                    None
                } else {
                    envelope
                },
                if blank(budget_json) {
                    None
                } else {
                    budget
                },
            ),
        )
    }
}

/// Reads the frontier columns of a run. Blank columns hold nothing.
pub fn frontier_from_columns(
    envelope_json: &str,
    envelope: Option<MissionEnvelope>,
    budget_json: &str,
    budget: Option<FrontierBudgetState>,
) -> (r: Result<(Option<MissionEnvelope>, Option<FrontierBudgetState>), RowError>)
    ensures
        read(r) == frontier_of(
            envelope_json@,
            envelope.deep_view(),
            budget_json@,
            budget.deep_view(),
        ),
{
    let no_envelope = is_blank(envelope_json);
    let no_budget = is_blank(budget_json);
    if !no_envelope && envelope.is_none() {
        return Err(RowError::MissionEnvelope);
    }
    if !no_budget && budget.is_none() {
        return Err(RowError::FrontierBudget);
    }
    let envelope = if no_envelope {
        None
    } else {
        envelope
    };
    let budget = if no_budget {
        None
    } else {
        budget
    };
    Ok((envelope, budget))
}

/// A number that is stored below its least value is read as that value; any other as it is, as far as a
/// count holds it. A time that is not stored is read as none, and one that is has to be readable.
pub proof fn law_stored_numbers_and_times(low: i64, n: i64, text: Seq<char>)
    requires
        0 <= low,
    ensures
        n <= low ==> at_least(low, n) == low as usize,
        low <= n <= usize::MAX ==> at_least(low, n) == n,
        n < 0 ==> seconds_of(n) == 0,
        n >= 0 ==> seconds_of(n) == n,
        optional_time(text) is None <==> !blank(text) && Timestamp::of_text(text) is None,
        optional_time(text) matches Some(time) ==> time == (if blank(text) {
            None
        } else {
            Timestamp::of_text(text)
        }),
        time_or_empty(text) is None <==> text.len() > 0 && Timestamp::of_text(text) is None,
        time_or_empty(text) matches Some(time) ==> time == (if text.len() == 0 {
            None
        } else {
            Timestamp::of_text(text)
        }),
{
}

/// A run is read where its status is known and its times are readable, and a launch where its action,
/// its state, the status before it, if there was one, and its times are; the epoch of a launch is at
/// least the first.
pub proof fn law_runs_and_launches_are_read(run: RunColumnsModel, launch: LaunchColumnsModel)
    ensures
        run_of(run) is Ok <==> RunStatus::of_text(run.status) is Some && Timestamp::of_text(
            run.started_at,
        ) is Some && Timestamp::of_text(run.updated_at) is Some,
        run_of(run) matches Ok(it) ==> it.id == run.id && Some(it.status) == RunStatus::of_text(
            run.status,
        ) && it.error == run.error && Some(it.updated_at) == Timestamp::of_text(run.updated_at),
        run_launch_intent_of(launch) is Ok <==> RunLaunchAction::of_text(launch.action) is Some
            && RunLaunchState::of_text(launch.state) is Some && (launch.prior_status.len() == 0
            || RunStatus::of_text(launch.prior_status) is Some) && Timestamp::of_text(
            launch.created_at,
        ) is Some && Timestamp::of_text(launch.updated_at) is Some,
        run_launch_intent_of(launch) matches Ok(it) ==> it.prior_status == (
        if launch.prior_status.len() == 0 {
            None
        } else {
            RunStatus::of_text(launch.prior_status)
        }) && (launch.execution_epoch < 1 ==> it.execution_epoch == 1),
{
}

/// A step of an end was made where its time is stored.
pub proof fn law_ends_are_read(c: TerminalColumnsModel)
    ensures
        terminal_transition_of(c) is Ok <==> RunStatus::of_text(c.status) is Some,
        terminal_transition_of(c) matches Ok(it) ==> it.summary_written == !blank(
            c.summary_written_at,
        ) && it.committed == !blank(c.committed_at) && it.error == c.error,
{
}

/// A question is read where its options and its times are readable. Its deadline is the stored one; where
/// none is stored, the timeout after the question, and none where there is no timeout. The source of an
/// answer that is not known is none.
pub proof fn law_questions_are_read(c: QuestionColumnsModel)
    ensures
        worker_question_of(c) is Ok <==> text_list(c.options_json) is Some && Timestamp::of_text(
            c.asked_at,
        ) is Some && (blank(c.deadline_at) || Timestamp::of_text(c.deadline_at) is Some) && (blank(
            c.answered_at,
        ) || Timestamp::of_text(c.answered_at) is Some),
        worker_question_of(c) matches Ok(it) ==> {
            &&& Some(it.asked_at) == Timestamp::of_text(c.asked_at)
            &&& Some(it.options) == text_list(c.options_json)
            &&& !blank(c.deadline_at) ==> it.deadline_at == Timestamp::of_text(c.deadline_at)
            &&& blank(c.deadline_at) && c.timeout_seconds <= 0 ==> it.deadline_at is None
            &&& blank(c.deadline_at) && c.timeout_seconds > 0 ==> (it.deadline_at is Some
                <==> it.asked_at.spec_seconds() + c.timeout_seconds <= crate::time::MAX_SECONDS)
            &&& blank(c.deadline_at) && c.timeout_seconds > 0 ==> (it.deadline_at matches Some(
                deadline,
            ) ==> deadline.spec_seconds() == it.asked_at.spec_seconds() + c.timeout_seconds)
            &&& blank(c.answered_at) ==> it.answered_at is None
            &&& it.answer_source == WorkerQuestionAnswerSource::of_text(c.answer_source)
            &&& it.state == c.state
            &&& it.answer == c.answer
        },
{
    if Timestamp::of_text(c.asked_at) is Some && c.timeout_seconds > 0 {
        (Timestamp::of_text(c.asked_at)->0).law_plus_seconds(c.timeout_seconds as nat);
    }
}

/// A launch of a worker is read where its times are readable; what was observed of one that was never
/// started cannot make it unreadable. A stored activity is made anew from what was observed.
pub proof fn law_worker_launches_are_read(c: AttemptColumnsModel)
    ensures
        ({
            let readable = |text: Seq<char>| text.len() == 0 || Timestamp::of_text(text) is Some;
            &&& worker_attempt_ledger_of(c) is Ok <==> readable(c.launched_at) && readable(
                c.finished_at,
            ) && Timestamp::of_text(c.created_at) is Some && (c.launched_at.len() > 0 ==> readable(
                c.process_observed_at,
            ) && readable(c.last_event_at) && readable(c.last_semantic_progress_at))
            &&& worker_attempt_ledger_of(c) matches Ok(it) ==> {
                &&& it.attempt.launch_id == c.launch_id
                &&& it.attempt.state == c.state
                &&& it.attempt.failure_cause == c.failure_cause
                &&& it.attempt.activity is None
                &&& c.launched_at.len() == 0 ==> it.attempt.launched_at is None
                &&& c.finished_at.len() == 0 ==> it.attempt.finished_at is None
                &&& it.worker_token_hash == c.worker_token_hash
                &&& it.observed.pid is Some <==> c.pid is Some
            }
        }),
{
}

/// A merge, a slice and an event are read where their names are known and their lists, payloads and times
/// are readable.
pub proof fn law_merges_slices_and_events_are_read(
    merge: MergeColumnsModel,
    slice: SliceColumnsModel,
    event: EventColumnsModel,
)
    ensures
        integration_merge_intent_of(merge) is Ok <==> IntegrationMergeKind::of_text(merge.kind)
            is Some && IntegrationMergeState::of_text(merge.state) is Some && merge.completion
            is Some && text_list(merge.conflicted_files_json) is Some && Timestamp::of_text(
            merge.created_at,
        ) is Some && Timestamp::of_text(merge.updated_at) is Some,
        integration_merge_intent_of(merge) matches Ok(it) ==> Some(it.conflicted_files)
            == text_list(merge.conflicted_files_json) && Some(it.state)
            == IntegrationMergeState::of_text(merge.state) && it.resulting_head
            == merge.resulting_head,
        slice_run_of(slice) is Ok <==> SliceStatus::of_text(slice.status) is Some,
        slice_run_of(slice) matches Ok(it) ==> Some(it.status) == SliceStatus::of_text(slice.status)
            && it.last_error == slice.last_error,
        event_of(event) is Ok <==> event.payload is Some && Timestamp::of_text(event.created_at)
            is Some,
        event_of(event) matches Ok(it) ==> Some(it.payload) == event.payload && it.typ == event.typ
            && it.id == event.id,
{
}

/// A proposal is read where its state is known and its parts are readable; a decision and a
/// classification are missing where nothing is stored of them, and not where what is stored cannot be
/// read. So it is with a mission and a budget.
pub proof fn law_proposals_and_missions_are_read(
    c: ProposalColumnsModel,
    envelope_json: Seq<char>,
    envelope: Option<MissionEnvelopeModel>,
    budget_json: Seq<char>,
    budget: Option<FrontierBudgetStateModel>,
)
    ensures
        replan_proposal_of(c) is Ok ==> ReplanProposalState::of_text(c.state) is Some && (blank(
            c.decision_json,
        ) || c.decision is Some) && (blank(c.classification_json) || c.classification is Some),
        replan_proposal_of(c) matches Ok(it) ==> {
            &&& Some(it.state) == ReplanProposalState::of_text(c.state)
            &&& it.operator_decision is None <==> blank(c.decision_json)
            &&& it.operator_decision is Some ==> it.operator_decision == c.decision
            &&& it.frontier_classification is None <==> blank(c.classification_json)
            &&& it.frontier_classification is Some ==> it.frontier_classification
                == c.classification
        },
        frontier_of(envelope_json, envelope, budget_json, budget) is Ok <==> (blank(envelope_json)
            || envelope is Some) && (blank(budget_json) || budget is Some),
        frontier_of(envelope_json, envelope, budget_json, budget) matches Ok(it) ==> it.0 == (
        if blank(envelope_json) {
            None
        } else {
            envelope
        }) && it.1 == (if blank(budget_json) {
            None
        } else {
            budget
        }),
{
}

} // verus!
