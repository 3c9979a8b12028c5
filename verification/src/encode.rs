//! Writing the rows of the tables into columns. Columns that can hold a row are read back as that row.
use crate::decode::{
    event_of, integration_merge_intent_of, optional_time, replan_proposal_of, repo_of,
    run_launch_intent_of, run_of, run_progress_of, slice_run_of, status_source_of,
    terminal_row_of, time_or_empty, worker_attempt_ledger_of, worker_question_of,
    worker_token_of, AttemptColumns, AttemptColumnsModel, EventColumns, EventColumnsModel, LaunchColumns, LaunchColumnsModel,
    MergeColumns, MergeColumnsModel, ProgressColumns, ProgressColumnsModel, ProposalColumns,
    ProposalColumnsModel, QuestionColumns, QuestionColumnsModel, RepoColumns, RepoColumnsModel,
    RowError, RunColumns, RunColumnsModel, SliceColumns, SliceColumnsModel, SourceColumns,
    SourceColumnsModel, TerminalRowColumns, TerminalRowColumnsModel, TokenColumns,
    TokenColumnsModel,
};
use crate::domain::{
    IntegrationMergeIntent, IntegrationMergeIntentModel, ReplanProposal, ReplanProposalModel,
    Run, RunLaunchIntent, RunLaunchIntentModel, RunModel, RunStatus, SliceRun,
    SliceRunModel, WorkerQuestion, WorkerQuestionAnswerSource, WorkerQuestionModel,
};
use crate::json::{json_texts, text_list, write_text_list};
use crate::payloads::{Event, EventModel};
use crate::rows::{
    AttemptRow, AttemptRowModel, ProgressRow, ProgressRowModel, RepoRow, StatusSourceRow,
    StatusSourceRowModel, StepMarkModel, TerminalRow, TerminalRowModel, WorkerObservationModel,
    WorkerTokenRow,
};
use crate::table::Row;
use crate::text::{blank, lemma_blank};
use crate::time::{four_digit_year, Timestamp};
use vstd::prelude::*;
use vstd::string::*;

verus! {

/// A time that a column can hold.
pub open spec fn holds_time(at: Timestamp) -> bool {
    four_digit_year(at.spec_seconds())
}

/// A time that there may be, and that a column can hold.
pub open spec fn holds_optional_time(at: Option<Timestamp>) -> bool {
    at matches Some(at) ==> holds_time(at)
}

/// A number that a column can hold.
pub open spec fn holds_count(n: int) -> bool {
    n <= i64::MAX
}

/// How a time that there may be is written: nothing where there is none.
pub open spec fn optional_time_text(at: Option<Timestamp>) -> Seq<char> {
    match at {
        Some(at) => at.text(),
        None => ""@,
    }
}

fn optional_time_column(at: &Option<Timestamp>) -> (r: String)
    ensures
        r@ == optional_time_text(*at),
        holds_optional_time(*at) ==> optional_time(r@) == Some(*at) && time_or_empty(r@) == Some(
            *at,
        ),
{
    proof {
        reveal_strlit("");
    }
    match at {
        Some(at) => {
            let r = at.to_rfc3339();
            proof {
                lemma_blank(r@);
            }
            r
        },
        None => {
            let r = "".to_owned();
            proof {
                lemma_blank(r@);
            }
            r
        },
    }
}

fn count_column(n: usize) -> (r: i64)
    ensures
        r == n as i64,
{
    #[verifier::truncate]
    (n as i64)
}

fn seconds_column(n: u64) -> (r: i64)
    ensures
        r == n as i64,
{
    #[verifier::truncate]
    (n as i64)
}

/// How a status that there may be is written: nothing where there is none.
pub open spec fn optional_status_text(status: Option<RunStatus>) -> Seq<char> {
    match status {
        Some(status) => status.text(),
        None => ""@,
    }
}

proof fn lemma_status_text(status: RunStatus)
    ensures
        status.text().len() > 0,
{
    reveal_strlit("pending");
    reveal_strlit("running");
    reveal_strlit("completed");
    reveal_strlit("blocked");
    reveal_strlit("failed");
    reveal_strlit("cancelled");
    reveal_strlit("interrupted");
}

/// How the source of an answer is written: nothing where there is none.
pub open spec fn answer_source_text(source: Option<WorkerQuestionAnswerSource>) -> Seq<char> {
    match source {
        Some(source) => source.text(),
        None => ""@,
    }
}

proof fn lemma_answer_source_text(source: Option<WorkerQuestionAnswerSource>)
    ensures
        WorkerQuestionAnswerSource::of_text(answer_source_text(source)) == source,
{
    reveal_strlit("");
    reveal_strlit("operator");
    reveal_strlit("llm_recommendation_timeout");
    assert(""@.len() == 0 && "operator"@.len() == 8 && "llm_recommendation_timeout"@.len() == 26);
    if source is Some {
        (source->0).lemma_text_round_trip();
    }
}

/// The process number that a column holds.
pub open spec fn pid_column(pid: Option<u32>) -> Option<i64> {
    match pid {
        Some(pid) => Some(pid as i64),
        None => None,
    }
}

fn write_pid(pid: Option<u32>) -> (r: Option<i64>)
    ensures
        r == pid_column(pid),
{
    match pid {
        Some(pid) => Some(pid as i64),
        None => None,
    }
}

/// Writes a repository, which is read back.
pub fn repo_to_columns(row: &RepoRow) -> (r: RepoColumns)
    ensures
        r@ == (RepoColumnsModel { id: row@.id, path: row@.path, created_at: row@.created_at }),
        repo_of(r@) == row@,
{
    RepoColumns { id: row.id.dup(), path: row.path.dup(), created_at: row.created_at.dup() }
}

/// Whether columns can hold a run.
pub open spec fn run_fits(row: RunModel) -> bool {
    &&& holds_time(row.started_at)
    &&& holds_time(row.updated_at)
}

pub open spec fn run_written(row: RunModel) -> RunColumnsModel {
    RunColumnsModel {
        id: row.id,
        repo_id: row.repo_id,
        repo_path: row.repo_path,
        status: row.status.text(),
        base_branch: row.base_branch,
        base_sha: row.base_sha,
        integration_branch: row.integration_branch,
        selected_slice_id: row.selected_slice_id,
        error: row.error,
        started_at: row.started_at.text(),
        updated_at: row.updated_at.text(),
    }
}

/// Writes a run.
pub fn run_to_columns(row: &Run) -> (r: RunColumns)
    ensures
        r@ == run_written(row@),
        run_fits(row@) ==> run_of(r@) == Ok::<RunModel, RowError>(row@),
{
    let c = RunColumns {
        id: row.id.dup(),
        repo_id: row.repo_id.dup(),
        repo_path: row.repo_path.dup(),
        status: row.status.as_str().to_owned(),
        base_branch: row.base_branch.dup(),
        base_sha: row.base_sha.dup(),
        integration_branch: row.integration_branch.dup(),
        selected_slice_id: row.selected_slice_id.dup(),
        error: row.error.dup(),
        started_at: row.started_at.to_rfc3339(),
        updated_at: row.updated_at.to_rfc3339(),
    };
    assert(c@ =~= run_written(row@));
    proof {
        if run_fits(row@) {
            row.status.lemma_text_round_trip();
            assert(run_of(c@)->Ok_0 =~= row@);
        }
    }
    c
}

/// Whether columns can hold a launch of a run.
pub open spec fn launch_fits(row: RunLaunchIntentModel) -> bool {
    &&& 1 <= row.execution_epoch
    &&& holds_count(row.execution_epoch as int)
    &&& holds_time(row.created_at)
    &&& holds_time(row.updated_at)
}

pub open spec fn launch_written(row: RunLaunchIntentModel) -> LaunchColumnsModel {
    LaunchColumnsModel {
        run_id: row.run_id,
        execution_epoch: row.execution_epoch as i64,
        action: row.action.text(),
        state: row.state.text(),
        repo_id: row.repo_id,
        integration_branch: row.integration_branch,
        integration_worktree: row.integration_worktree,
        integration_resources_owned: row.integration_resources_owned,
        prior_status: optional_status_text(row.prior_status),
        prior_error: row.prior_error,
        primary_cause: row.primary_cause,
        compensation_error: row.compensation_error,
        created_at: row.created_at.text(),
        updated_at: row.updated_at.text(),
    }
}

/// Writes a launch of a run.
pub fn launch_to_columns(row: &RunLaunchIntent) -> (r: LaunchColumns)
    ensures
        r@ == launch_written(row@),
        launch_fits(row@) ==> run_launch_intent_of(r@) == Ok::<RunLaunchIntentModel, RowError>(row@),
{
    proof {
        reveal_strlit("");
    }
    let prior_status = match &row.prior_status {
        Some(status) => status.as_str().to_owned(),
        None => "".to_owned(),
    };
    let c = LaunchColumns {
        run_id: row.run_id.dup(),
        execution_epoch: count_column(row.execution_epoch),
        action: row.action.as_str().to_owned(),
        state: row.state.as_str().to_owned(),
        repo_id: row.repo_id.dup(),
        integration_branch: row.integration_branch.dup(),
        integration_worktree: row.integration_worktree.dup(),
        integration_resources_owned: row.integration_resources_owned.dup(),
        prior_status,
        prior_error: row.prior_error.dup(),
        primary_cause: row.primary_cause.dup(),
        compensation_error: row.compensation_error.dup(),
        created_at: row.created_at.to_rfc3339(),
        updated_at: row.updated_at.to_rfc3339(),
    };
    assert(c@ =~= launch_written(row@));
    proof {
        if launch_fits(row@) {
            row.action.lemma_text_round_trip();
            row.state.lemma_text_round_trip();
            if row.prior_status is Some {
                (row.prior_status->0).lemma_text_round_trip();
                lemma_status_text(row.prior_status->0);
            }
            assert(run_launch_intent_of(c@)->Ok_0 =~= row@);
        }
    }
    c
}

/// Whether a mark is what its text says.
pub open spec fn mark_fits(mark: StepMarkModel) -> bool {
    StepMarkModel::of_text(mark.text()) == mark
}

/// Whether columns can hold the end of a run.
pub open spec fn terminal_fits(row: TerminalRowModel) -> bool {
    &&& mark_fits(row.summary_written_at)
    &&& mark_fits(row.committed_at)
    &&& mark_fits(row.notification_bookkept_at)
    &&& mark_fits(row.cleanup_started_at)
    &&& mark_fits(row.cleanup_completed_at)
}

pub open spec fn terminal_written(row: TerminalRowModel) -> TerminalRowColumnsModel {
    TerminalRowColumnsModel {
        run_id: row.run_id,
        status: row.status.text(),
        error: row.error,
        progress_message: row.progress_message,
        question_interruption_reason: row.question_interruption_reason,
        intended_at: row.intended_at,
        summary_written_at: row.summary_written_at.text(),
        committed_at: row.committed_at.text(),
        notification_bookkept_at: row.notification_bookkept_at.text(),
        cleanup_started_at: row.cleanup_started_at.text(),
        cleanup_completed_at: row.cleanup_completed_at.text(),
    }
}

/// Writes the end of a run.
pub fn terminal_to_columns(row: &TerminalRow) -> (r: TerminalRowColumns)
    ensures
        r@ == terminal_written(row@),
        terminal_fits(row@) ==> terminal_row_of(r@) == Ok::<TerminalRowModel, RowError>(row@),
{
    let c = TerminalRowColumns {
        run_id: row.run_id.dup(),
        status: row.status.as_str().to_owned(),
        error: row.error.dup(),
        progress_message: row.progress_message.dup(),
        question_interruption_reason: row.question_interruption_reason.dup(),
        intended_at: row.intended_at.dup(),
        summary_written_at: row.summary_written_at.text(),
        committed_at: row.committed_at.text(),
        notification_bookkept_at: row.notification_bookkept_at.text(),
        cleanup_started_at: row.cleanup_started_at.text(),
        cleanup_completed_at: row.cleanup_completed_at.text(),
    };
    assert(c@ =~= terminal_written(row@));
    proof {
        if terminal_fits(row@) {
            row.status.lemma_text_round_trip();
            assert(terminal_row_of(c@)->Ok_0 =~= row@);
        }
    }
    c
}

/// Whether columns can hold a merge.
pub open spec fn merge_fits(row: IntegrationMergeIntentModel) -> bool {
    &&& holds_count(row.attempt as int)
    &&& holds_time(row.created_at)
    &&& holds_time(row.updated_at)
}

pub open spec fn merge_written(row: IntegrationMergeIntentModel) -> MergeColumnsModel {
    MergeColumnsModel {
        operation_id: row.operation_id,
        run_id: row.run_id,
        kind: row.kind.text(),
        slice_id: row.slice_id,
        attempt: row.attempt as i64,
        launch_id: row.launch_id,
        source_branch: row.source_branch,
        source_commit: row.source_commit,
        source_tree: row.source_tree,
        expected_head: row.expected_head,
        expected_result_tree: row.expected_result_tree,
        resulting_head: row.resulting_head,
        state: row.state.text(),
        completion: Some(row.completion),
        primary_cause: row.primary_cause,
        abort_error: row.abort_error,
        conflicted_files_json: json_texts(row.conflicted_files),
        created_at: row.created_at.text(),
        updated_at: row.updated_at.text(),
    }
}

/// Writes a merge.
pub fn merge_to_columns(row: &IntegrationMergeIntent) -> (r: MergeColumns)
    ensures
        r@ == merge_written(row@),
        merge_fits(row@) ==> integration_merge_intent_of(r@) == Ok::<IntegrationMergeIntentModel, RowError>(row@),
{
    let c = MergeColumns {
        operation_id: row.operation_id.dup(),
        run_id: row.run_id.dup(),
        kind: row.kind.as_str().to_owned(),
        slice_id: row.slice_id.dup(),
        attempt: count_column(row.attempt),
        launch_id: row.launch_id.dup(),
        source_branch: row.source_branch.dup(),
        source_commit: row.source_commit.dup(),
        source_tree: row.source_tree.dup(),
        expected_head: row.expected_head.dup(),
        expected_result_tree: row.expected_result_tree.dup(),
        resulting_head: row.resulting_head.dup(),
        state: row.state.as_str().to_owned(),
        completion: Some(row.completion.dup()),
        primary_cause: row.primary_cause.dup(),
        abort_error: row.abort_error.dup(),
        conflicted_files_json: write_text_list(&row.conflicted_files),
        created_at: row.created_at.to_rfc3339(),
        updated_at: row.updated_at.to_rfc3339(),
    };
    assert(c@ =~= merge_written(row@));
    proof {
        if merge_fits(row@) {
            row.kind.lemma_text_round_trip();
            row.state.lemma_text_round_trip();
            assert(integration_merge_intent_of(c@)->Ok_0 =~= row@);
        }
    }
    c
}

/// Whether columns can hold a slice of a run.
pub open spec fn slice_run_fits(row: SliceRunModel) -> bool {
    &&& holds_count(row.attempts as int)
}

pub open spec fn slice_run_written(row: SliceRunModel) -> SliceColumnsModel {
    SliceColumnsModel {
        run_id: row.run_id,
        slice_id: row.slice_id,
        status: row.status.text(),
        branch: row.branch,
        commit_sha: row.commit_sha,
        attempts: row.attempts as i64,
        last_error: row.last_error,
    }
}

/// Writes a slice of a run.
pub fn slice_run_to_columns(row: &SliceRun) -> (r: SliceColumns)
    ensures
        r@ == slice_run_written(row@),
        slice_run_fits(row@) ==> slice_run_of(r@) == Ok::<SliceRunModel, RowError>(row@),
{
    let c = SliceColumns {
        run_id: row.run_id.dup(),
        slice_id: row.slice_id.dup(),
        status: row.status.as_str().to_owned(),
        branch: row.branch.dup(),
        commit_sha: row.commit_sha.dup(),
        attempts: count_column(row.attempts),
        last_error: row.last_error.dup(),
    };
    assert(c@ =~= slice_run_written(row@));
    proof {
        if slice_run_fits(row@) {
            row.status.lemma_text_round_trip();
            assert(slice_run_of(c@)->Ok_0 =~= row@);
        }
    }
    c
}

/// Whether columns can hold an event.
pub open spec fn event_fits(row: EventModel) -> bool {
    &&& holds_time(row.created_at)
}

pub open spec fn event_written(row: EventModel) -> EventColumnsModel {
    EventColumnsModel {
        id: row.id,
        run_id: row.run_id,
        typ: row.typ,
        payload: Some(row.payload),
        created_at: row.created_at.text(),
    }
}

/// Writes an event.
pub fn event_to_columns(row: &Event) -> (r: EventColumns)
    ensures
        r@ == event_written(row@),
        event_fits(row@) ==> event_of(r@) == Ok::<EventModel, RowError>(row@),
{
    let c = EventColumns {
        id: row.id.dup(),
        run_id: row.run_id.dup(),
        typ: row.typ.dup(),
        payload: Some(row.payload.dup()),
        created_at: row.created_at.to_rfc3339(),
    };
    assert(c@ =~= event_written(row@));
    proof {
        if event_fits(row@) {
            assert(event_of(c@)->Ok_0 =~= row@);
        }
    }
    c
}

/// Whether columns can hold a replan proposal. The commands that decide it are not kept in columns.
pub open spec fn proposal_fits(row: ReplanProposalModel, decision_json: Seq<char>, classification_json: Seq<char>) -> bool {
    &&& blank(decision_json) <==> row.operator_decision is None
    &&& blank(classification_json) <==> row.frontier_classification is None
    &&& row.decision_commands.len() == 0
    &&& holds_time(row.created_at)
    &&& holds_time(row.updated_at)
}

pub open spec fn proposal_written(row: ReplanProposalModel, decision_json: Seq<char>, classification_json: Seq<char>) -> ProposalColumnsModel {
    ProposalColumnsModel {
        id: row.id,
        run_id: row.run_id,
        state: row.state.text(),
        source: Some(row.source),
        trigger_finding_ids_json: json_texts(row.trigger_finding_ids),
        evidence: Some(row.evidence),
        proposed_changes: Some(row.proposed_changes),
        risk: row.risk,
        decision_json: decision_json,
        decision: row.operator_decision,
        classification_json: classification_json,
        classification: row.frontier_classification,
        created_at: row.created_at.text(),
        updated_at: row.updated_at.text(),
    }
}

/// Writes a replan proposal; `decision_json` and `classification_json` are the texts of its decision
/// and of its classification.
pub fn proposal_to_columns(row: &ReplanProposal, decision_json: &str, classification_json: &str) -> (r: ProposalColumns)
    ensures
        r@ == proposal_written(row@, decision_json@, classification_json@),
        proposal_fits(row@, decision_json@, classification_json@) ==> replan_proposal_of(r@) == Ok::<ReplanProposalModel, RowError>(row@),
{
    let c = ProposalColumns {
        id: row.id.dup(),
        run_id: row.run_id.dup(),
        state: row.state.as_str().to_owned(),
        source: Some(row.source.dup()),
        trigger_finding_ids_json: write_text_list(&row.trigger_finding_ids),
        evidence: Some(row.evidence.dup()),
        proposed_changes: Some(row.proposed_changes.dup()),
        risk: row.risk.dup(),
        decision_json: decision_json.to_owned(),
        decision: row.operator_decision.dup(),
        classification_json: classification_json.to_owned(),
        classification: row.frontier_classification.dup(),
        created_at: row.created_at.to_rfc3339(),
        updated_at: row.updated_at.to_rfc3339(),
    };
    assert(c@ =~= proposal_written(row@, decision_json@, classification_json@));
    proof {
        if proposal_fits(row@, decision_json@, classification_json@) {
            row.state.lemma_text_round_trip();
            assert(replan_proposal_of(c@)->Ok_0 =~= row@);
        }
    }
    c
}

/// Whether columns can hold a worker question. A question with a timeout and no deadline would be
/// read with the deadline that follows from the timeout.
pub open spec fn question_fits(row: WorkerQuestionModel) -> bool {
    &&& holds_count(row.attempt as int)
    &&& holds_count(row.timeout_seconds as int)
    &&& holds_time(row.asked_at)
    &&& holds_optional_time(row.answered_at)
    &&& holds_optional_time(row.deadline_at)
    &&& row.deadline_at is None && row.timeout_seconds > 0 ==> row.asked_at.plus_seconds(
        row.timeout_seconds as nat,
    ) is None
}

pub open spec fn question_written(row: WorkerQuestionModel) -> QuestionColumnsModel {
    QuestionColumnsModel {
        id: row.id,
        run_id: row.run_id,
        slice_id: row.slice_id,
        attempt: row.attempt as i64,
        launch_id: row.launch_id,
        question: row.question,
        options_json: json_texts(row.options),
        timeout_seconds: row.timeout_seconds as i64,
        state: row.state,
        asked_at: row.asked_at.text(),
        answered_at: optional_time_text(row.answered_at),
        answer: row.answer,
        recommended_answer: row.recommended_answer,
        recommendation_rationale: row.recommendation_rationale,
        bounded_within_current_slice_or_mission_authority: row.bounded_within_current_slice_or_mission_authority,
        reversible: row.reversible,
        fallback_eligible: row.fallback_eligible,
        deadline_at: optional_time_text(row.deadline_at),
        answer_source: answer_source_text(row.answer_source),
    }
}

/// Writes a worker question.
pub fn question_to_columns(row: &WorkerQuestion) -> (r: QuestionColumns)
    ensures
        r@ == question_written(row@),
        question_fits(row@) ==> worker_question_of(r@) == Ok::<WorkerQuestionModel, RowError>(row@),
{
    proof {
        reveal_strlit("");
        lemma_blank(""@);
    }
    let answer_source = match &row.answer_source {
        Some(source) => source.as_str().to_owned(),
        None => "".to_owned(),
    };
    let c = QuestionColumns {
        id: row.id.dup(),
        run_id: row.run_id.dup(),
        slice_id: row.slice_id.dup(),
        attempt: count_column(row.attempt),
        launch_id: row.launch_id.dup(),
        question: row.question.dup(),
        options_json: write_text_list(&row.options),
        timeout_seconds: seconds_column(row.timeout_seconds),
        state: row.state.dup(),
        asked_at: row.asked_at.to_rfc3339(),
        answered_at: optional_time_column(&row.answered_at),
        answer: row.answer.dup(),
        recommended_answer: row.recommended_answer.dup(),
        recommendation_rationale: row.recommendation_rationale.dup(),
        bounded_within_current_slice_or_mission_authority: row.bounded_within_current_slice_or_mission_authority.dup(),
        reversible: row.reversible.dup(),
        fallback_eligible: row.fallback_eligible.dup(),
        deadline_at: optional_time_column(&row.deadline_at),
        answer_source,
    };
    assert(c@ =~= question_written(row@));
    proof {
        if question_fits(row@) {
            lemma_answer_source_text(row.answer_source);
            assert(worker_question_of(c@)->Ok_0 =~= row@);
        }
    }
    c
}

/// Whether columns can hold what was observed of a worker.
pub open spec fn observation_fits(observed: WorkerObservationModel) -> bool {
    &&& holds_optional_time(observed.process_observed_at)
    &&& holds_optional_time(observed.last_event_at)
    &&& holds_optional_time(observed.last_semantic_progress_at)
    &&& holds_count(observed.attempt_timeout_seconds as int)
    &&& holds_count(observed.no_output_warning_seconds as int)
}

/// Whether columns can hold a worker launch.
pub open spec fn attempt_fits(row: AttemptRowModel) -> bool {
    &&& holds_count(row.attempt.launch_ordinal as int)
    &&& holds_count(row.attempt.execution_epoch as int)
    &&& holds_count(row.attempt.worker_retry_ordinal as int)
    &&& holds_count(row.attempt.repair_ordinal as int)
    &&& holds_count(row.attempt.envelope_retry_ordinal as int)
    &&& holds_time(row.attempt.created_at)
    &&& holds_optional_time(row.attempt.launched_at)
    &&& holds_optional_time(row.attempt.finished_at)
    &&& row.attempt.activity is None
    &&& observation_fits(row.observed)
}

pub open spec fn attempt_written(row: AttemptRowModel) -> AttemptColumnsModel {
    AttemptColumnsModel {
        run_id: row.attempt.run_id,
        slice_id: row.attempt.slice_id,
        launch_id: row.attempt.launch_id,
        launch_ordinal: row.attempt.launch_ordinal as i64,
        execution_epoch: row.attempt.execution_epoch as i64,
        worker_retry_ordinal: row.attempt.worker_retry_ordinal as i64,
        repair_ordinal: row.attempt.repair_ordinal as i64,
        envelope_retry_ordinal: row.attempt.envelope_retry_ordinal as i64,
        kind: row.attempt.kind,
        state: row.attempt.state,
        branch: row.attempt.branch,
        worktree: row.attempt.worktree,
        output_stem: row.attempt.output_stem,
        created_at: row.attempt.created_at.text(),
        launched_at: optional_time_text(row.attempt.launched_at),
        finished_at: optional_time_text(row.attempt.finished_at),
        failure_cause: row.attempt.failure_cause,
        worker_token_hash: row.worker_token_hash,
        pid: pid_column(row.observed.pid),
        process_observed_at: optional_time_text(row.observed.process_observed_at),
        last_event_at: optional_time_text(row.observed.last_event_at),
        last_event_kind: row.observed.last_event_kind,
        last_semantic_progress_at: optional_time_text(row.observed.last_semantic_progress_at),
        last_semantic_progress_summary: row.observed.last_semantic_progress_summary,
        attempt_timeout_seconds: row.observed.attempt_timeout_seconds as i64,
        no_output_warning_seconds: row.observed.no_output_warning_seconds as i64,
    }
}

/// Writes a worker launch.
pub fn attempt_to_columns(row: &AttemptRow) -> (r: AttemptColumns)
    ensures
        r@ == attempt_written(row@),
        attempt_fits(row@) ==> worker_attempt_ledger_of(r@) == Ok::<AttemptRowModel, RowError>(row@),
{
    let c = AttemptColumns {
        run_id: row.attempt.run_id.dup(),
        slice_id: row.attempt.slice_id.dup(),
        launch_id: row.attempt.launch_id.dup(),
        launch_ordinal: count_column(row.attempt.launch_ordinal),
        execution_epoch: count_column(row.attempt.execution_epoch),
        worker_retry_ordinal: count_column(row.attempt.worker_retry_ordinal),
        repair_ordinal: count_column(row.attempt.repair_ordinal),
        envelope_retry_ordinal: count_column(row.attempt.envelope_retry_ordinal),
        kind: row.attempt.kind.dup(),
        state: row.attempt.state.dup(),
        branch: row.attempt.branch.dup(),
        worktree: row.attempt.worktree.dup(),
        output_stem: row.attempt.output_stem.dup(),
        created_at: row.attempt.created_at.to_rfc3339(),
        launched_at: optional_time_column(&row.attempt.launched_at),
        finished_at: optional_time_column(&row.attempt.finished_at),
        failure_cause: row.attempt.failure_cause.dup(),
        worker_token_hash: row.worker_token_hash.dup(),
        pid: write_pid(row.observed.pid),
        process_observed_at: optional_time_column(&row.observed.process_observed_at),
        last_event_at: optional_time_column(&row.observed.last_event_at),
        last_event_kind: row.observed.last_event_kind.dup(),
        last_semantic_progress_at: optional_time_column(&row.observed.last_semantic_progress_at),
        last_semantic_progress_summary: row.observed.last_semantic_progress_summary.dup(),
        attempt_timeout_seconds: seconds_column(row.observed.attempt_timeout_seconds),
        no_output_warning_seconds: seconds_column(row.observed.no_output_warning_seconds),
    };
    assert(c@ =~= attempt_written(row@));
    proof {
        if attempt_fits(row@) {
            assert(worker_attempt_ledger_of(c@)->Ok_0 =~= row@);
        }
    }
    c
}

/// Whether columns can hold the progress of a run.
pub open spec fn progress_fits(row: ProgressRowModel) -> bool {
    &&& holds_count(row.attempt as int)
    &&& holds_time(row.phase_started_at)
    &&& holds_time(row.updated_at)
    &&& holds_optional_time(row.worker_attempt_started_at)
    &&& observation_fits(row.observed)
}

pub open spec fn progress_written(row: ProgressRowModel) -> ProgressColumnsModel {
    ProgressColumnsModel {
        run_id: row.run_id,
        phase: row.phase,
        slice_id: row.slice_id,
        attempt: row.attempt as i64,
        command: row.command,
        message: row.message,
        output_tail: row.output_tail,
        phase_started_at: row.phase_started_at.text(),
        updated_at: row.updated_at.text(),
        worker_attempt_started_at: optional_time_text(row.worker_attempt_started_at),
        pid: pid_column(row.observed.pid),
        process_observed_at: optional_time_text(row.observed.process_observed_at),
        last_event_at: optional_time_text(row.observed.last_event_at),
        last_event_kind: row.observed.last_event_kind,
        last_semantic_progress_at: optional_time_text(row.observed.last_semantic_progress_at),
        last_semantic_progress_summary: row.observed.last_semantic_progress_summary,
        attempt_timeout_seconds: row.observed.attempt_timeout_seconds as i64,
        no_output_warning_seconds: row.observed.no_output_warning_seconds as i64,
    }
}

/// Writes the progress of a run.
pub fn progress_to_columns(row: &ProgressRow) -> (r: ProgressColumns)
    ensures
        r@ == progress_written(row@),
        progress_fits(row@) ==> run_progress_of(r@) == Ok::<ProgressRowModel, RowError>(row@),
{
    let c = ProgressColumns {
        run_id: row.run_id.dup(),
        phase: row.phase.dup(),
        slice_id: row.slice_id.dup(),
        attempt: count_column(row.attempt),
        command: row.command.dup(),
        message: row.message.dup(),
        output_tail: row.output_tail.dup(),
        phase_started_at: row.phase_started_at.to_rfc3339(),
        updated_at: row.updated_at.to_rfc3339(),
        worker_attempt_started_at: optional_time_column(&row.worker_attempt_started_at),
        pid: write_pid(row.observed.pid),
        process_observed_at: optional_time_column(&row.observed.process_observed_at),
        last_event_at: optional_time_column(&row.observed.last_event_at),
        last_event_kind: row.observed.last_event_kind.dup(),
        last_semantic_progress_at: optional_time_column(&row.observed.last_semantic_progress_at),
        last_semantic_progress_summary: row.observed.last_semantic_progress_summary.dup(),
        attempt_timeout_seconds: seconds_column(row.observed.attempt_timeout_seconds),
        no_output_warning_seconds: seconds_column(row.observed.no_output_warning_seconds),
    };
    assert(c@ =~= progress_written(row@));
    proof {
        if progress_fits(row@) {
            assert(run_progress_of(c@)->Ok_0 =~= row@);
        }
    }
    c
}

/// Whether columns can hold an indexed status source.
pub open spec fn status_source_fits(row: StatusSourceRowModel) -> bool {
    &&& holds_time(row.observed_at)
}

pub open spec fn status_source_written(row: StatusSourceRowModel) -> SourceColumnsModel {
    SourceColumnsModel {
        run_id: row.run_id,
        source: row.source,
        payload_json: row.payload_json,
        indexed_event_id: row.indexed_event_id,
        content_sha256: row.content_sha256,
        observed_at: row.observed_at.text(),
    }
}

/// Writes an indexed status source.
pub fn status_source_to_columns(row: &StatusSourceRow) -> (r: SourceColumns)
    ensures
        r@ == status_source_written(row@),
        status_source_fits(row@) ==> status_source_of(r@) == Ok::<StatusSourceRowModel, RowError>(row@),
{
    let c = SourceColumns {
        run_id: row.run_id.dup(),
        source: row.source.dup(),
        payload_json: row.payload_json.dup(),
        indexed_event_id: row.indexed_event_id.dup(),
        content_sha256: row.content_sha256.dup(),
        observed_at: row.observed_at.to_rfc3339(),
    };
    assert(c@ =~= status_source_written(row@));
    proof {
        if status_source_fits(row@) {
            assert(status_source_of(c@)->Ok_0 =~= row@);
        }
    }
    c
}

/// Writes the worker token of a run, which is read back.
pub fn worker_token_to_columns(row: &WorkerTokenRow) -> (r: TokenColumns)
    ensures
        r@ == (TokenColumnsModel {
            run_id: row@.run_id,
            token_hash: row@.token_hash,
            created_at: row@.created_at,
        }),
        worker_token_of(r@) == row@,
{
    TokenColumns {
        run_id: row.run_id.dup(),
        token_hash: row.token_hash.dup(),
        created_at: row.created_at.dup(),
    }
}

} // verus!
