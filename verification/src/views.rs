//! The models of the values: nothing that a value holds is left out of what is said of it, and nothing is
//! said under another name.
use crate::domain::{
    FollowupSliceDraft, FrontierBudgetState, FrontierClassification, IntegrationMergeIntent,
    MissionEnvelope, ReplanDecision, ReplanEvidenceLink, ReplanProposal, ReplanProposalSource,
    ReplanProposedChange, Repo, Run, RunLaunchIntent, RunProgress, SliceRun, TerminalTransition,
    WorkerAttemptLedger, WorkerAttemptProgress, WorkerQuestion, WorkerQuestionRecommendation,
};
use crate::economics::{
    AgentCallEconomics, CommandCount, CommandExecutionEconomics, DuplicateCommandEconomics,
    EconomicsCheckpointState, PhaseDuration, RunEconomics, RunnerMetadata, Usage,
};
use crate::payloads::{Event, ExtraField, RunIncidentPayload};
use crate::rows::{
    AttemptRow, FrontierAutoAcceptRecord, IntegrationMergePrepareTransition, ProgressRow,
    QuestionRow, ReplanAutoAcceptCommand, ReplanDecisionCommand, ReplanDecisionTransition, RepoRow,
    RunAdmissionTransition, RunRow, RunStateSnapshot, StatusSnapshotRevision, StatusSourceRow,
    StatusSourceSnapshot, Tables, TerminalRow, WorkerObservation, WorkerQuestionDecisionTransition,
    WorkerTokenRow,
};
use vstd::prelude::*;

verus! {

/// What is said of a repo is what it holds, field by field.
pub proof fn law_view_of_repo(value: Repo)
    ensures
        value.deep_view().id == value.id.deep_view(),
        value.deep_view().path == value.path.deep_view(),
        value.deep_view().created_at == value.created_at.deep_view(),
{
}

/// What is said of a run is what it holds, field by field.
pub proof fn law_view_of_run(value: Run)
    ensures
        value.deep_view().id == value.id.deep_view(),
        value.deep_view().repo_id == value.repo_id.deep_view(),
        value.deep_view().repo_path == value.repo_path.deep_view(),
        value.deep_view().status == value.status.deep_view(),
        value.deep_view().base_branch == value.base_branch.deep_view(),
        value.deep_view().base_sha == value.base_sha.deep_view(),
        value.deep_view().integration_branch == value.integration_branch.deep_view(),
        value.deep_view().selected_slice_id == value.selected_slice_id.deep_view(),
        value.deep_view().error == value.error.deep_view(),
        value.deep_view().started_at == value.started_at.deep_view(),
        value.deep_view().updated_at == value.updated_at.deep_view(),
{
}

/// What is said of a slice run is what it holds, field by field.
pub proof fn law_view_of_slice_run(value: SliceRun)
    ensures
        value.deep_view().run_id == value.run_id.deep_view(),
        value.deep_view().slice_id == value.slice_id.deep_view(),
        value.deep_view().status == value.status.deep_view(),
        value.deep_view().branch == value.branch.deep_view(),
        value.deep_view().commit_sha == value.commit_sha.deep_view(),
        value.deep_view().attempts == value.attempts.deep_view(),
        value.deep_view().last_error == value.last_error.deep_view(),
{
}

/// What is said of a run launch intent is what it holds, field by field.
pub proof fn law_view_of_run_launch_intent(value: RunLaunchIntent)
    ensures
        value.deep_view().run_id == value.run_id.deep_view(),
        value.deep_view().execution_epoch == value.execution_epoch.deep_view(),
        value.deep_view().action == value.action.deep_view(),
        value.deep_view().state == value.state.deep_view(),
        value.deep_view().repo_id == value.repo_id.deep_view(),
        value.deep_view().integration_branch == value.integration_branch.deep_view(),
        value.deep_view().integration_worktree == value.integration_worktree.deep_view(),
        value.deep_view().integration_resources_owned
            == value.integration_resources_owned.deep_view(),
        value.deep_view().prior_status == value.prior_status.deep_view(),
        value.deep_view().prior_error == value.prior_error.deep_view(),
        value.deep_view().primary_cause == value.primary_cause.deep_view(),
        value.deep_view().compensation_error == value.compensation_error.deep_view(),
        value.deep_view().created_at == value.created_at.deep_view(),
        value.deep_view().updated_at == value.updated_at.deep_view(),
{
}

/// What is said of an integration merge intent is what it holds, field by field.
pub proof fn law_view_of_integration_merge_intent(value: IntegrationMergeIntent)
    ensures
        value.deep_view().operation_id == value.operation_id.deep_view(),
        value.deep_view().run_id == value.run_id.deep_view(),
        value.deep_view().kind == value.kind.deep_view(),
        value.deep_view().slice_id == value.slice_id.deep_view(),
        value.deep_view().attempt == value.attempt.deep_view(),
        value.deep_view().launch_id == value.launch_id.deep_view(),
        value.deep_view().source_branch == value.source_branch.deep_view(),
        value.deep_view().source_commit == value.source_commit.deep_view(),
        value.deep_view().source_tree == value.source_tree.deep_view(),
        value.deep_view().expected_head == value.expected_head.deep_view(),
        value.deep_view().expected_result_tree == value.expected_result_tree.deep_view(),
        value.deep_view().resulting_head == value.resulting_head.deep_view(),
        value.deep_view().state == value.state.deep_view(),
        value.deep_view().completion == value.completion.deep_view(),
        value.deep_view().primary_cause == value.primary_cause.deep_view(),
        value.deep_view().abort_error == value.abort_error.deep_view(),
        value.deep_view().conflicted_files == value.conflicted_files.deep_view(),
        value.deep_view().created_at == value.created_at.deep_view(),
        value.deep_view().updated_at == value.updated_at.deep_view(),
{
}

/// What is said of a worker attempt progress is what it holds, field by field.
pub proof fn law_view_of_worker_attempt_progress(value: WorkerAttemptProgress)
    ensures
        value.deep_view().launch_id == value.launch_id.deep_view(),
        value.deep_view().attempt_started_at == value.attempt_started_at.deep_view(),
        value.deep_view().pid == value.pid.deep_view(),
        value.deep_view().process_observed_at == value.process_observed_at.deep_view(),
        value.deep_view().last_event_at == value.last_event_at.deep_view(),
        value.deep_view().last_event_kind == value.last_event_kind.deep_view(),
        value.deep_view().last_semantic_progress_at == value.last_semantic_progress_at.deep_view(),
        value.deep_view().last_semantic_progress_summary
            == value.last_semantic_progress_summary.deep_view(),
        value.deep_view().attempt_timeout_seconds == value.attempt_timeout_seconds.deep_view(),
        value.deep_view().no_output_warning_seconds == value.no_output_warning_seconds.deep_view(),
{
}

/// What is said of a worker attempt ledger is what it holds, field by field.
pub proof fn law_view_of_worker_attempt_ledger(value: WorkerAttemptLedger)
    ensures
        value.deep_view().run_id == value.run_id.deep_view(),
        value.deep_view().slice_id == value.slice_id.deep_view(),
        value.deep_view().launch_id == value.launch_id.deep_view(),
        value.deep_view().launch_ordinal == value.launch_ordinal.deep_view(),
        value.deep_view().execution_epoch == value.execution_epoch.deep_view(),
        value.deep_view().worker_retry_ordinal == value.worker_retry_ordinal.deep_view(),
        value.deep_view().repair_ordinal == value.repair_ordinal.deep_view(),
        value.deep_view().envelope_retry_ordinal == value.envelope_retry_ordinal.deep_view(),
        value.deep_view().kind == value.kind.deep_view(),
        value.deep_view().state == value.state.deep_view(),
        value.deep_view().branch == value.branch.deep_view(),
        value.deep_view().worktree == value.worktree.deep_view(),
        value.deep_view().output_stem == value.output_stem.deep_view(),
        value.deep_view().created_at == value.created_at.deep_view(),
        value.deep_view().launched_at == value.launched_at.deep_view(),
        value.deep_view().finished_at == value.finished_at.deep_view(),
        value.deep_view().failure_cause == value.failure_cause.deep_view(),
        value.deep_view().activity == value.activity.deep_view(),
{
}

/// What is said of a run progress is what it holds, field by field.
pub proof fn law_view_of_run_progress(value: RunProgress)
    ensures
        value.deep_view().run_id == value.run_id.deep_view(),
        value.deep_view().phase == value.phase.deep_view(),
        value.deep_view().slice_id == value.slice_id.deep_view(),
        value.deep_view().attempt == value.attempt.deep_view(),
        value.deep_view().command == value.command.deep_view(),
        value.deep_view().message == value.message.deep_view(),
        value.deep_view().output_tail == value.output_tail.deep_view(),
        value.deep_view().phase_started_at == value.phase_started_at.deep_view(),
        value.deep_view().updated_at == value.updated_at.deep_view(),
        value.deep_view().worker == value.worker.deep_view(),
        value.deep_view().parallel_layer == value.parallel_layer.deep_view(),
        value.deep_view().parallel_slices == value.parallel_slices.deep_view(),
{
}

/// What is said of a worker question is what it holds, field by field.
pub proof fn law_view_of_worker_question(value: WorkerQuestion)
    ensures
        value.deep_view().id == value.id.deep_view(),
        value.deep_view().run_id == value.run_id.deep_view(),
        value.deep_view().slice_id == value.slice_id.deep_view(),
        value.deep_view().attempt == value.attempt.deep_view(),
        value.deep_view().launch_id == value.launch_id.deep_view(),
        value.deep_view().question == value.question.deep_view(),
        value.deep_view().options == value.options.deep_view(),
        value.deep_view().timeout_seconds == value.timeout_seconds.deep_view(),
        value.deep_view().recommended_answer == value.recommended_answer.deep_view(),
        value.deep_view().recommendation_rationale == value.recommendation_rationale.deep_view(),
        value.deep_view().bounded_within_current_slice_or_mission_authority
            == value.bounded_within_current_slice_or_mission_authority.deep_view(),
        value.deep_view().reversible == value.reversible.deep_view(),
        value.deep_view().fallback_eligible == value.fallback_eligible.deep_view(),
        value.deep_view().deadline_at == value.deadline_at.deep_view(),
        value.deep_view().state == value.state.deep_view(),
        value.deep_view().asked_at == value.asked_at.deep_view(),
        value.deep_view().answered_at == value.answered_at.deep_view(),
        value.deep_view().answer == value.answer.deep_view(),
        value.deep_view().answer_source == value.answer_source.deep_view(),
{
}

/// What is said of a worker question recommendation is what it holds, field by field.
pub proof fn law_view_of_worker_question_recommendation(value: WorkerQuestionRecommendation)
    ensures
        value.deep_view().recommended_answer == value.recommended_answer.deep_view(),
        value.deep_view().rationale == value.rationale.deep_view(),
        value.deep_view().bounded_within_current_slice_or_mission_authority
            == value.bounded_within_current_slice_or_mission_authority.deep_view(),
        value.deep_view().reversible == value.reversible.deep_view(),
{
}

/// What is said of a replan proposal source is what it holds, field by field.
pub proof fn law_view_of_replan_proposal_source(value: ReplanProposalSource)
    ensures
        value.deep_view().kind == value.kind.deep_view(),
        value.deep_view().slice_id == value.slice_id.deep_view(),
        value.deep_view().phase == value.phase.deep_view(),
        value.deep_view().attempt == value.attempt.deep_view(),
        value.deep_view().summary == value.summary.deep_view(),
{
}

/// What is said of a replan evidence link is what it holds, field by field.
pub proof fn law_view_of_replan_evidence_link(value: ReplanEvidenceLink)
    ensures
        value.deep_view().kind == value.kind.deep_view(),
        value.deep_view().path == value.path.deep_view(),
        value.deep_view().event_id == value.event_id.deep_view(),
        value.deep_view().summary == value.summary.deep_view(),
{
}

/// What is said of a followup slice draft is what it holds, field by field.
pub proof fn law_view_of_followup_slice_draft(value: FollowupSliceDraft)
    ensures
        value.deep_view().id == value.id.deep_view(),
        value.deep_view().title == value.title.deep_view(),
        value.deep_view().goal == value.goal.deep_view(),
        value.deep_view().areas == value.areas.deep_view(),
        value.deep_view().acceptance == value.acceptance.deep_view(),
        value.deep_view().verify == value.verify.deep_view(),
{
}

/// What is said of a replan proposed change is what it holds, field by field.
pub proof fn law_view_of_replan_proposed_change(value: ReplanProposedChange)
    ensures
        value.deep_view().kind == value.kind.deep_view(),
        value.deep_view().target == value.target.deep_view(),
        value.deep_view().summary == value.summary.deep_view(),
        value.deep_view().followup_slice_draft == value.followup_slice_draft.deep_view(),
{
}

/// What is said of a frontier budget state is what it holds, field by field.
pub proof fn law_view_of_frontier_budget_state(value: FrontierBudgetState)
    ensures
        value.deep_view().auto_promotions_used == value.auto_promotions_used.deep_view(),
        value.deep_view().generated_slices == value.generated_slices.deep_view(),
{
}

/// What is said of a frontier classification is what it holds, field by field.
pub proof fn law_view_of_frontier_classification(value: FrontierClassification)
    ensures
        value.deep_view().tier == value.tier.deep_view(),
        value.deep_view().reason_codes == value.reason_codes.deep_view(),
        value.deep_view().classified_at == value.classified_at.deep_view(),
        value.deep_view().envelope_hash == value.envelope_hash.deep_view(),
        value.deep_view().budget_snapshot == value.budget_snapshot.deep_view(),
        value.deep_view().autonomy_level == value.autonomy_level.deep_view(),
{
}

/// What is said of a replan decision is what it holds, field by field.
pub proof fn law_view_of_replan_decision(value: ReplanDecision)
    ensures
        value.deep_view().decision == value.decision.deep_view(),
        value.deep_view().rationale == value.rationale.deep_view(),
        value.deep_view().authorizer == value.authorizer.deep_view(),
        value.deep_view().source == value.source.deep_view(),
        value.deep_view().decided_at == value.decided_at.deep_view(),
        value.deep_view().frontier_tier == value.frontier_tier.deep_view(),
        value.deep_view().frontier_reason_codes == value.frontier_reason_codes.deep_view(),
        value.deep_view().frontier_budget_before == value.frontier_budget_before.deep_view(),
        value.deep_view().frontier_budget_after == value.frontier_budget_after.deep_view(),
        value.deep_view().applied == value.applied.deep_view(),
        value.deep_view().applied_at == value.applied_at.deep_view(),
        value.deep_view().apply_status == value.apply_status.deep_view(),
        value.deep_view().apply_reason == value.apply_reason.deep_view(),
        value.deep_view().generated_slice_id == value.generated_slice_id.deep_view(),
        value.deep_view().generated_slice_generation
            == value.generated_slice_generation.deep_view(),
        value.deep_view().generated_slice_commit == value.generated_slice_commit.deep_view(),
        value.deep_view().apply_before_checkpoint_id
            == value.apply_before_checkpoint_id.deep_view(),
        value.deep_view().apply_after_checkpoint_id == value.apply_after_checkpoint_id.deep_view(),
        value.deep_view().queue_before == value.queue_before.deep_view(),
        value.deep_view().queue_after == value.queue_after.deep_view(),
        value.deep_view().queue_before_hash == value.queue_before_hash.deep_view(),
        value.deep_view().queue_after_hash == value.queue_after_hash.deep_view(),
        value.deep_view().replacement_id == value.replacement_id.deep_view(),
        value.deep_view().revisit_condition == value.revisit_condition.deep_view(),
{
}

/// What is said of a replan proposal is what it holds, field by field.
pub proof fn law_view_of_replan_proposal(value: ReplanProposal)
    ensures
        value.deep_view().id == value.id.deep_view(),
        value.deep_view().run_id == value.run_id.deep_view(),
        value.deep_view().state == value.state.deep_view(),
        value.deep_view().source == value.source.deep_view(),
        value.deep_view().trigger_finding_ids == value.trigger_finding_ids.deep_view(),
        value.deep_view().evidence == value.evidence.deep_view(),
        value.deep_view().proposed_changes == value.proposed_changes.deep_view(),
        value.deep_view().risk == value.risk.deep_view(),
        value.deep_view().operator_decision == value.operator_decision.deep_view(),
        value.deep_view().frontier_classification == value.frontier_classification.deep_view(),
        value.deep_view().created_at == value.created_at.deep_view(),
        value.deep_view().updated_at == value.updated_at.deep_view(),
        value.deep_view().decision_commands == value.decision_commands.deep_view(),
{
}

/// What is said of a mission envelope is what it holds, field by field.
pub proof fn law_view_of_mission_envelope(value: MissionEnvelope)
    ensures
        value.deep_view().document == value.document.deep_view(),
{
}

/// What is said of a terminal transition is what it holds, field by field.
pub proof fn law_view_of_terminal_transition(value: TerminalTransition)
    ensures
        value.deep_view().status == value.status.deep_view(),
        value.deep_view().error == value.error.deep_view(),
        value.deep_view().progress_message == value.progress_message.deep_view(),
        value.deep_view().question_interruption_reason
            == value.question_interruption_reason.deep_view(),
        value.deep_view().summary_written == value.summary_written.deep_view(),
        value.deep_view().committed == value.committed.deep_view(),
{
}

/// What is said of a repo row is what it holds, field by field.
pub proof fn law_view_of_repo_row(value: RepoRow)
    ensures
        value.deep_view().id == value.id.deep_view(),
        value.deep_view().path == value.path.deep_view(),
        value.deep_view().created_at == value.created_at.deep_view(),
{
}

/// What is said of a run row is what it holds, field by field.
pub proof fn law_view_of_run_row(value: RunRow)
    ensures
        value.deep_view().run == value.run.deep_view(),
        value.deep_view().execution_epoch == value.execution_epoch.deep_view(),
        value.deep_view().mission_envelope == value.mission_envelope.deep_view(),
        value.deep_view().frontier_budget == value.frontier_budget.deep_view(),
{
}

/// What is said of a worker observation is what it holds, field by field.
pub proof fn law_view_of_worker_observation(value: WorkerObservation)
    ensures
        value.deep_view().pid == value.pid.deep_view(),
        value.deep_view().process_observed_at == value.process_observed_at.deep_view(),
        value.deep_view().last_event_at == value.last_event_at.deep_view(),
        value.deep_view().last_event_kind == value.last_event_kind.deep_view(),
        value.deep_view().last_semantic_progress_at == value.last_semantic_progress_at.deep_view(),
        value.deep_view().last_semantic_progress_summary
            == value.last_semantic_progress_summary.deep_view(),
        value.deep_view().attempt_timeout_seconds == value.attempt_timeout_seconds.deep_view(),
        value.deep_view().no_output_warning_seconds == value.no_output_warning_seconds.deep_view(),
{
}

/// What is said of an attempt row is what it holds, field by field.
pub proof fn law_view_of_attempt_row(value: AttemptRow)
    ensures
        value.deep_view().attempt == value.attempt.deep_view(),
        value.deep_view().worker_token_hash == value.worker_token_hash.deep_view(),
        value.deep_view().observed == value.observed.deep_view(),
{
}

/// What is said of a progress row is what it holds, field by field.
pub proof fn law_view_of_progress_row(value: ProgressRow)
    ensures
        value.deep_view().run_id == value.run_id.deep_view(),
        value.deep_view().phase == value.phase.deep_view(),
        value.deep_view().slice_id == value.slice_id.deep_view(),
        value.deep_view().attempt == value.attempt.deep_view(),
        value.deep_view().command == value.command.deep_view(),
        value.deep_view().message == value.message.deep_view(),
        value.deep_view().output_tail == value.output_tail.deep_view(),
        value.deep_view().phase_started_at == value.phase_started_at.deep_view(),
        value.deep_view().updated_at == value.updated_at.deep_view(),
        value.deep_view().worker_attempt_started_at == value.worker_attempt_started_at.deep_view(),
        value.deep_view().observed == value.observed.deep_view(),
{
}

/// What is said of a question row is what it holds, field by field.
pub proof fn law_view_of_question_row(value: QuestionRow)
    ensures
        value.deep_view().question == value.question.deep_view(),
        value.deep_view().resolution == value.resolution.deep_view(),
{
}

/// What is said of a terminal row is what it holds, field by field.
pub proof fn law_view_of_terminal_row(value: TerminalRow)
    ensures
        value.deep_view().run_id == value.run_id.deep_view(),
        value.deep_view().status == value.status.deep_view(),
        value.deep_view().error == value.error.deep_view(),
        value.deep_view().progress_message == value.progress_message.deep_view(),
        value.deep_view().question_interruption_reason
            == value.question_interruption_reason.deep_view(),
        value.deep_view().intended_at == value.intended_at.deep_view(),
        value.deep_view().summary_written_at == value.summary_written_at.deep_view(),
        value.deep_view().committed_at == value.committed_at.deep_view(),
        value.deep_view().notification_bookkept_at == value.notification_bookkept_at.deep_view(),
        value.deep_view().cleanup_started_at == value.cleanup_started_at.deep_view(),
        value.deep_view().cleanup_completed_at == value.cleanup_completed_at.deep_view(),
{
}

/// What is said of a status source row is what it holds, field by field.
pub proof fn law_view_of_status_source_row(value: StatusSourceRow)
    ensures
        value.deep_view().run_id == value.run_id.deep_view(),
        value.deep_view().source == value.source.deep_view(),
        value.deep_view().payload_json == value.payload_json.deep_view(),
        value.deep_view().indexed_event_id == value.indexed_event_id.deep_view(),
        value.deep_view().content_sha256 == value.content_sha256.deep_view(),
        value.deep_view().observed_at == value.observed_at.deep_view(),
{
}

/// What is said of a worker token row is what it holds, field by field.
pub proof fn law_view_of_worker_token_row(value: WorkerTokenRow)
    ensures
        value.deep_view().run_id == value.run_id.deep_view(),
        value.deep_view().token_hash == value.token_hash.deep_view(),
        value.deep_view().created_at == value.created_at.deep_view(),
{
}

/// What is said of a tables is what it holds, field by field.
pub proof fn law_view_of_tables(value: Tables)
    ensures
        value.deep_view().repos == value.repos.deep_view(),
        value.deep_view().runs == value.runs.deep_view(),
        value.deep_view().launches == value.launches.deep_view(),
        value.deep_view().slices == value.slices.deep_view(),
        value.deep_view().merges == value.merges.deep_view(),
        value.deep_view().attempts == value.attempts.deep_view(),
        value.deep_view().events == value.events.deep_view(),
        value.deep_view().terminals == value.terminals.deep_view(),
        value.deep_view().sources == value.sources.deep_view(),
        value.deep_view().progress == value.progress.deep_view(),
        value.deep_view().tokens == value.tokens.deep_view(),
        value.deep_view().questions == value.questions.deep_view(),
        value.deep_view().proposals == value.proposals.deep_view(),
        value.deep_view().last_event_id == value.last_event_id.deep_view(),
        value.deep_view().last_launch_id == value.last_launch_id.deep_view(),
{
}

/// What is said of a frontier auto accept record is what it holds, field by field.
pub proof fn law_view_of_frontier_auto_accept_record(value: FrontierAutoAcceptRecord)
    ensures
        value.deep_view().checkpoint == value.checkpoint.deep_view(),
        value.deep_view().apply_mode == value.apply_mode.deep_view(),
{
}

/// What is said of a replan auto accept command is what it holds, field by field.
pub proof fn law_view_of_replan_auto_accept_command(value: ReplanAutoAcceptCommand)
    ensures
        value.deep_view().classification == value.classification.deep_view(),
        value.deep_view().budget_before == value.budget_before.deep_view(),
        value.deep_view().budget_after == value.budget_after.deep_view(),
        value.deep_view().record == value.record.deep_view(),
{
}

/// What is said of a replan decision command is what it holds, field by field.
pub proof fn law_view_of_replan_decision_command(value: ReplanDecisionCommand)
    ensures
        value.deep_view().state == value.state.deep_view(),
        value.deep_view().rationale == value.rationale.deep_view(),
        value.deep_view().authorizer == value.authorizer.deep_view(),
        value.deep_view().source == value.source.deep_view(),
        value.deep_view().replacement_id == value.replacement_id.deep_view(),
        value.deep_view().revisit_condition == value.revisit_condition.deep_view(),
        value.deep_view().auto_accept == value.auto_accept.deep_view(),
{
}

/// What is said of a run admission transition is what it holds, field by field.
pub proof fn law_view_of_run_admission_transition(value: RunAdmissionTransition)
    ensures
        value.deep_view().outcome == value.outcome.deep_view(),
        value.deep_view().intent == value.intent.deep_view(),
        value.deep_view().active_run == value.active_run.deep_view(),
{
}

/// What is said of an integration merge prepare transition is what it holds, field by field.
pub proof fn law_view_of_integration_merge_prepare_transition(value: IntegrationMergePrepareTransition)
    ensures
        value.deep_view().outcome == value.outcome.deep_view(),
        value.deep_view().intent == value.intent.deep_view(),
{
}

/// What is said of a worker question decision transition is what it holds, field by field.
pub proof fn law_view_of_worker_question_decision_transition(value: WorkerQuestionDecisionTransition)
    ensures
        value.deep_view().outcome == value.outcome.deep_view(),
        value.deep_view().question == value.question.deep_view(),
{
}

/// What is said of a replan decision transition is what it holds, field by field.
pub proof fn law_view_of_replan_decision_transition(value: ReplanDecisionTransition)
    ensures
        value.deep_view().outcome == value.outcome.deep_view(),
        value.deep_view().proposal == value.proposal.deep_view(),
{
}

/// What is said of a status source snapshot is what it holds, field by field.
pub proof fn law_view_of_status_source_snapshot(value: StatusSourceSnapshot)
    ensures
        value.deep_view().source == value.source.deep_view(),
        value.deep_view().payload == value.payload.deep_view(),
        value.deep_view().indexed_event_id == value.indexed_event_id.deep_view(),
        value.deep_view().content_sha256 == value.content_sha256.deep_view(),
        value.deep_view().observed_at == value.observed_at.deep_view(),
{
}

/// What is said of a status snapshot revision is what it holds, field by field.
pub proof fn law_view_of_status_snapshot_revision(value: StatusSnapshotRevision)
    ensures
        value.deep_view().sqlite_data_version == value.sqlite_data_version.deep_view(),
        value.deep_view().max_event_id == value.max_event_id.deep_view(),
        value.deep_view().run_updated_at == value.run_updated_at.deep_view(),
        value.deep_view().captured_at == value.captured_at.deep_view(),
{
}

/// What is said of a run state snapshot is what it holds, field by field.
pub proof fn law_view_of_run_state_snapshot(value: RunStateSnapshot)
    ensures
        value.deep_view().revision == value.revision.deep_view(),
        value.deep_view().run == value.run.deep_view(),
        value.deep_view().slice_runs == value.slice_runs.deep_view(),
        value.deep_view().worker_attempts == value.worker_attempts.deep_view(),
        value.deep_view().progress == value.progress.deep_view(),
        value.deep_view().questions == value.questions.deep_view(),
        value.deep_view().replan_proposals == value.replan_proposals.deep_view(),
        value.deep_view().mission_envelope == value.mission_envelope.deep_view(),
        value.deep_view().frontier_budget == value.frontier_budget.deep_view(),
        value.deep_view().events == value.events.deep_view(),
        value.deep_view().event_tail == value.event_tail.deep_view(),
        value.deep_view().terminal_transition == value.terminal_transition.deep_view(),
        value.deep_view().launch_intents == value.launch_intents.deep_view(),
        value.deep_view().merge_intents == value.merge_intents.deep_view(),
        value.deep_view().status_sources == value.status_sources.deep_view(),
{
}

/// What is said of a phase duration is what it holds, field by field.
pub proof fn law_view_of_phase_duration(value: PhaseDuration)
    ensures
        value.deep_view().phase == value.phase.deep_view(),
        value.deep_view().duration_ms == value.duration_ms.deep_view(),
{
}

/// What is said of an agent call economics is what it holds, field by field.
pub proof fn law_view_of_agent_call_economics(value: AgentCallEconomics)
    ensures
        value.deep_view().phase == value.phase.deep_view(),
        value.deep_view().slice_id == value.slice_id.deep_view(),
        value.deep_view().attempt == value.attempt.deep_view(),
        value.deep_view().kind == value.kind.deep_view(),
        value.deep_view().runner == value.runner.deep_view(),
        value.deep_view().agent_profile == value.agent_profile.deep_view(),
        value.deep_view().agent_provider == value.agent_provider.deep_view(),
        value.deep_view().agent_model == value.agent_model.deep_view(),
        value.deep_view().agent_reasoning == value.agent_reasoning.deep_view(),
        value.deep_view().agent_mode == value.agent_mode.deep_view(),
        value.deep_view().profile_summary == value.profile_summary.deep_view(),
        value.deep_view().launch_summary == value.launch_summary.deep_view(),
        value.deep_view().status == value.status.deep_view(),
        value.deep_view().duration_ms == value.duration_ms.deep_view(),
        value.deep_view().operator_pause_ms == value.operator_pause_ms.deep_view(),
        value.deep_view().error == value.error.deep_view(),
        value.deep_view().input_tokens == value.input_tokens.deep_view(),
        value.deep_view().output_tokens == value.output_tokens.deep_view(),
{
}

/// What is said of a runner metadata is what it holds, field by field.
pub proof fn law_view_of_runner_metadata(value: RunnerMetadata)
    ensures
        value.deep_view().profile == value.profile.deep_view(),
        value.deep_view().provider == value.provider.deep_view(),
        value.deep_view().model == value.model.deep_view(),
        value.deep_view().reasoning == value.reasoning.deep_view(),
        value.deep_view().mode == value.mode.deep_view(),
        value.deep_view().profile_summary == value.profile_summary.deep_view(),
        value.deep_view().launch_summary == value.launch_summary.deep_view(),
{
}

/// What is said of an usage is what it holds, field by field.
pub proof fn law_view_of_usage(value: Usage)
    ensures
        value.deep_view().input_tokens == value.input_tokens.deep_view(),
        value.deep_view().output_tokens == value.output_tokens.deep_view(),
{
}

/// What is said of a command execution economics is what it holds, field by field.
pub proof fn law_view_of_command_execution_economics(value: CommandExecutionEconomics)
    ensures
        value.deep_view().command == value.command.deep_view(),
        value.deep_view().status == value.status.deep_view(),
        value.deep_view().dedupe_key == value.dedupe_key.deep_view(),
        value.deep_view().cache_key == value.cache_key.deep_view(),
        value.deep_view().cache_hit == value.cache_hit.deep_view(),
{
}

/// What is said of a duplicate command economics is what it holds, field by field.
pub proof fn law_view_of_duplicate_command_economics(value: DuplicateCommandEconomics)
    ensures
        value.deep_view().dedupe_key == value.dedupe_key.deep_view(),
        value.deep_view().command == value.command.deep_view(),
        value.deep_view().executions == value.executions.deep_view(),
{
}

/// What is said of a run economics is what it holds, field by field.
pub proof fn law_view_of_run_economics(value: RunEconomics)
    ensures
        value.deep_view().repair_policy == value.repair_policy.deep_view(),
        value.deep_view().gate_fail_fast == value.gate_fail_fast.deep_view(),
        value.deep_view().worker_max_attempts == value.worker_max_attempts.deep_view(),
        value.deep_view().repair_max_attempts == value.repair_max_attempts.deep_view(),
        value.deep_view().repair_attempts == value.repair_attempts.deep_view(),
        value.deep_view().phase_durations == value.phase_durations.deep_view(),
        value.deep_view().agent_calls == value.agent_calls.deep_view(),
        value.deep_view().agent_call_count == value.agent_call_count.deep_view(),
        value.deep_view().command_executions == value.command_executions.deep_view(),
        value.deep_view().command_execution_count == value.command_execution_count.deep_view(),
        value.deep_view().cache_hits == value.cache_hits.deep_view(),
        value.deep_view().cache_misses == value.cache_misses.deep_view(),
        value.deep_view().duplicate_commands == value.duplicate_commands.deep_view(),
        value.deep_view().duplicate_command_count == value.duplicate_command_count.deep_view(),
        value.deep_view().sla_violations == value.sla_violations.deep_view(),
        value.deep_view().worker_observation_event_count
            == value.worker_observation_event_count.deep_view(),
        value.deep_view().worker_observation_bytes == value.worker_observation_bytes.deep_view(),
        value.deep_view().worker_observation_state_write_count
            == value.worker_observation_state_write_count.deep_view(),
        value.deep_view().supervisor_poll_count == value.supervisor_poll_count.deep_view(),
        value.deep_view().economics_checkpoint_count
            == value.economics_checkpoint_count.deep_view(),
{
}

/// What is said of a command count is what it holds, field by field.
pub proof fn law_view_of_command_count(value: CommandCount)
    ensures
        value.deep_view().cache_key == value.cache_key.deep_view(),
        value.deep_view().dedupe_key == value.dedupe_key.deep_view(),
        value.deep_view().command == value.command.deep_view(),
        value.deep_view().executions == value.executions.deep_view(),
{
}

/// What is said of an economics checkpoint state is what it holds, field by field.
pub proof fn law_view_of_economics_checkpoint_state(value: EconomicsCheckpointState)
    ensures
        value.deep_view().minimum_interval_ns == value.minimum_interval_ns.deep_view(),
        value.deep_view().last_write_ns == value.last_write_ns.deep_view(),
        value.deep_view().persisted_revision == value.persisted_revision.deep_view(),
{
}

/// What is said of an extra field is what it holds, field by field.
pub proof fn law_view_of_extra_field(value: ExtraField)
    ensures
        value.deep_view().key == value.key.deep_view(),
        value.deep_view().value == value.value.deep_view(),
{
}

/// What is said of a run incident payload is what it holds, field by field.
pub proof fn law_view_of_run_incident_payload(value: RunIncidentPayload)
    ensures
        value.deep_view().severity == value.severity.deep_view(),
        value.deep_view().kind == value.kind.deep_view(),
        value.deep_view().message == value.message.deep_view(),
        value.deep_view().failure_kind == value.failure_kind.deep_view(),
        value.deep_view().resolution_owner == value.resolution_owner.deep_view(),
        value.deep_view().operator_action_required == value.operator_action_required.deep_view(),
        value.deep_view().retryable == value.retryable.deep_view(),
        value.deep_view().fix_commands == value.fix_commands.deep_view(),
        value.deep_view().extra == value.extra.deep_view(),
{
}

/// What is said of an event is what it holds, field by field.
pub proof fn law_view_of_event(value: Event)
    ensures
        value.deep_view().id == value.id.deep_view(),
        value.deep_view().run_id == value.run_id.deep_view(),
        value.deep_view().typ == value.typ.deep_view(),
        value.deep_view().payload == value.payload.deep_view(),
        value.deep_view().created_at == value.created_at.deep_view(),
{
}

} // verus!
