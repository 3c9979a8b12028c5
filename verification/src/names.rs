//! The names under which values are stored and shown. What was written under a name once is read under
//! it for good.
use crate::cockpit::types::CockpitLayoutDirection;
use crate::domain::{
    AutonomyLevel, CockpitMode, DecisionCommandOutcome, IntegrationMergeIntent,
    IntegrationMergeKind, IntegrationMergePrepareOutcome, IntegrationMergeState,
    ReplanProposalState, RunAdmissionOutcome, RunLaunchAction, RunLaunchIntent, RunLaunchState,
    RunStatus, SliceStatus, WorkerQuestionAnswerSource,
};
use crate::event_kind::EventKindModel;
use crate::events::WorkflowEvent;
use crate::rows::TablesModel;
use vstd::prelude::*;

verus! {

/// The names of each run status.
pub proof fn law_names_of_run_status(value: RunStatus)
    ensures
        value.text() == (match value {
            RunStatus::Pending => "pending"@,
            RunStatus::Running => "running"@,
            RunStatus::Completed => "completed"@,
            RunStatus::Blocked => "blocked"@,
            RunStatus::Failed => "failed"@,
            RunStatus::Cancelled => "cancelled"@,
            RunStatus::Interrupted => "interrupted"@,
        }),
        RunStatus::of_text(value.text()) == Some(value),
{
    value.lemma_text_round_trip();
}

/// The names of each slice status.
pub proof fn law_names_of_slice_status(value: SliceStatus)
    ensures
        value.text() == (match value {
            SliceStatus::Pending => "pending"@,
            SliceStatus::Running => "running"@,
            SliceStatus::RepairNeeded => "repair_needed"@,
            SliceStatus::ReadyToMerge => "ready_to_merge"@,
            SliceStatus::Merged => "merged"@,
            SliceStatus::Blocked => "blocked"@,
            SliceStatus::Failed => "failed"@,
            SliceStatus::Cancelled => "cancelled"@,
            SliceStatus::Interrupted => "interrupted"@,
        }),
        SliceStatus::of_text(value.text()) == Some(value),
{
    value.lemma_text_round_trip();
}

/// The names of each run launch action.
pub proof fn law_names_of_run_launch_action(value: RunLaunchAction)
    ensures
        value.text() == (match value {
            RunLaunchAction::Start => "start"@,
            RunLaunchAction::Resume => "resume"@,
        }),
        RunLaunchAction::of_text(value.text()) == Some(value),
{
    value.lemma_text_round_trip();
}

/// The names of each run launch state.
pub proof fn law_names_of_run_launch_state(value: RunLaunchState)
    ensures
        value.text() == (match value {
            RunLaunchState::Prepared => "prepared"@,
            RunLaunchState::Activated => "activated"@,
            RunLaunchState::Completed => "completed"@,
            RunLaunchState::Interrupted => "interrupted"@,
            RunLaunchState::Failed => "failed"@,
            RunLaunchState::RecoveryRequired => "recovery_required"@,
            RunLaunchState::Compensated => "compensated"@,
        }),
        RunLaunchState::of_text(value.text()) == Some(value),
{
    value.lemma_text_round_trip();
}

/// The names of each integration merge kind.
pub proof fn law_names_of_integration_merge_kind(value: IntegrationMergeKind)
    ensures
        value.text() == (match value {
            IntegrationMergeKind::Slice => "slice"@,
            IntegrationMergeKind::IntegrationRepair => "integration_repair"@,
        }),
        IntegrationMergeKind::of_text(value.text()) == Some(value),
{
    value.lemma_text_round_trip();
}

/// The names of each integration merge state.
pub proof fn law_names_of_integration_merge_state(value: IntegrationMergeState)
    ensures
        value.text() == (match value {
            IntegrationMergeState::Prepared => "prepared"@,
            IntegrationMergeState::Applied => "applied"@,
            IntegrationMergeState::NotStarted => "not_started"@,
            IntegrationMergeState::Conflicted => "conflicted"@,
            IntegrationMergeState::Divergent => "divergent"@,
        }),
        IntegrationMergeState::of_text(value.text()) == Some(value),
{
    value.lemma_text_round_trip();
}

/// The names of each replan proposal state.
pub proof fn law_names_of_replan_proposal_state(value: ReplanProposalState)
    ensures
        value.text() == (match value {
            ReplanProposalState::Pending => "pending"@,
            ReplanProposalState::Accepted => "accepted"@,
            ReplanProposalState::Rejected => "rejected"@,
            ReplanProposalState::Deferred => "deferred"@,
            ReplanProposalState::Superseded => "superseded"@,
        }),
        ReplanProposalState::of_text(value.text()) == Some(value),
{
    value.lemma_text_round_trip();
}

/// The names of each worker question answer source.
pub proof fn law_names_of_worker_question_answer_source(value: WorkerQuestionAnswerSource)
    ensures
        value.text() == (match value {
            WorkerQuestionAnswerSource::Operator => "operator"@,
            WorkerQuestionAnswerSource::LlmRecommendationTimeout => "llm_recommendation_timeout"@,
        }),
        WorkerQuestionAnswerSource::of_text(value.text()) == Some(value),
{
    value.lemma_text_round_trip();
}

/// The names of each decision command outcome.
pub proof fn law_names_of_decision_command_outcome(value: DecisionCommandOutcome)
    ensures
        value.text() == (match value {
            DecisionCommandOutcome::Applied => "applied"@,
            DecisionCommandOutcome::AlreadyAppliedIdempotently => "already_applied_idempotently"@,
            DecisionCommandOutcome::Conflict => "conflict"@,
            DecisionCommandOutcome::StaleToken => "stale_token"@,
            DecisionCommandOutcome::NotFound => "not_found"@,
        }),
{
}

/// The names of each autonomy level.
pub proof fn law_names_of_autonomy_level(value: AutonomyLevel)
    ensures
        value.text() == (match value {
            AutonomyLevel::Off => "off"@,
            AutonomyLevel::Run => "run"@,
        }),
        AutonomyLevel::of_text(value.text()) == Some(value),
{
    value.lemma_text_round_trip();
}

/// The names of each cockpit mode.
pub proof fn law_names_of_cockpit_mode(value: CockpitMode)
    ensures
        value.text() == (match value {
            CockpitMode::Auto => "auto"@,
            CockpitMode::Herdr => "herdr"@,
            CockpitMode::Direct => "direct"@,
        }),
        CockpitMode::of_text(value.text()) == Some(value),
{
    value.lemma_text_round_trip();
}

/// The names of each run admission outcome.
pub proof fn law_names_of_run_admission_outcome(value: RunAdmissionOutcome)
    ensures
        value.text() == (match value {
            RunAdmissionOutcome::Prepared => "prepared"@,
            RunAdmissionOutcome::Conflict => "conflict"@,
        }),
{
}

/// The names of each integration merge prepare outcome.
pub proof fn law_names_of_integration_merge_prepare_outcome(value: IntegrationMergePrepareOutcome)
    ensures
        value.text() == (match value {
            IntegrationMergePrepareOutcome::Prepared => "prepared"@,
            IntegrationMergePrepareOutcome::AlreadyPrepared => "already_prepared"@,
            IntegrationMergePrepareOutcome::AlreadyApplied => "already_applied"@,
            IntegrationMergePrepareOutcome::Conflict => "conflict"@,
        }),
{
}

/// The names of each cockpit layout direction.
pub proof fn law_names_of_cockpit_layout_direction(value: CockpitLayoutDirection)
    ensures
        value.text() == (match value {
            CockpitLayoutDirection::Right => "right"@,
            CockpitLayoutDirection::Down => "down"@,
        }),
{
}

/// The names of each kind of event; a kind that is not known has its own.
pub proof fn law_names_of_event_kind(kind: EventKindModel)
    ensures
        kind.text() == (match kind {
            EventKindModel::AttentionFocusSent => "attention_focus_sent"@,
            EventKindModel::AttentionNotificationSent => "attention_notification_sent"@,
            EventKindModel::CheckpointWritten => "checkpoint_written"@,
            EventKindModel::CockpitReady => "cockpit_ready"@,
            EventKindModel::CockpitWorkerReady => "cockpit_worker_ready"@,
            EventKindModel::FrontierAutoAcceptRecorded => "frontier_auto_accept_recorded"@,
            EventKindModel::FrontierClassified => "frontier_classified"@,
            EventKindModel::ImplementationSummary => "implementation_summary"@,
            EventKindModel::IntegrationRepairCompleted => "integration_repair_completed"@,
            EventKindModel::ParallelLayerCompleted => "parallel_layer_completed"@,
            EventKindModel::ParallelLayerFailed => "parallel_layer_failed"@,
            EventKindModel::ParallelLayerStarted => "parallel_layer_started"@,
            EventKindModel::RunCancelRequested => "run_cancel_requested"@,
            EventKindModel::RunCancelled => "run_cancelled"@,
            EventKindModel::RunCompleted => "run_completed"@,
            EventKindModel::RunError => "run_error"@,
            EventKindModel::RunIncident => "run_incident"@,
            EventKindModel::RunStarted => "run_started"@,
            EventKindModel::ReplanProposalDecided => "replan_proposal_decided"@,
            EventKindModel::ReplanCheckpointBlocked => "replan_checkpoint_blocked"@,
            EventKindModel::SliceStarted => "slice_started"@,
            EventKindModel::TerminalNotificationSent => "terminal_notification_sent"@,
            EventKindModel::TerminalNotificationSkipped => "terminal_notification_skipped"@,
            EventKindModel::TerminalSummaryWritten => "terminal_summary_written"@,
            EventKindModel::WorkerAttemptFailure => "worker_attempt_failure"@,
            EventKindModel::WorkerAttemptTimeout => "worker_attempt_timeout"@,
            EventKindModel::WorkerError => "worker_error"@,
            EventKindModel::WorkerEnvelopeRetrySucceeded => "worker_envelope_retry_succeeded"@,
            EventKindModel::WorkerQuestionAnswered => "worker_question_answered"@,
            EventKindModel::WorkerQuestionAsked => "worker_question_asked"@,
            EventKindModel::WorktreesCleaned => "worktrees_cleaned"@,
            EventKindModel::AttentionFocusFailed => "attention_focus_failed"@,
            EventKindModel::AttentionNotificationFailed => "attention_notification_failed"@,
            EventKindModel::AttentionNotificationRecordFailed => "attention_notification_record_failed"@,
            EventKindModel::CandidateFollowupSliceReplanProposalCreated => "candidate_followup_slice_replan_proposal_created"@,
            EventKindModel::CockpitWorkerRenamed => "cockpit_worker_renamed"@,
            EventKindModel::CompletionPublicationCommitted => "completion_publication_committed"@,
            EventKindModel::DaemonRecoveryCleanupError => "daemon_recovery_cleanup_error"@,
            EventKindModel::DaemonRecoveryCompleted => "daemon_recovery_completed"@,
            EventKindModel::DaemonRecoveryStarted => "daemon_recovery_started"@,
            EventKindModel::FindingReplanProposalCreated => "finding_replan_proposal_created"@,
            EventKindModel::FrontierAutoAcceptSkipped => "frontier_auto_accept_skipped"@,
            EventKindModel::FrontierAutoAcceptStopped => "frontier_auto_accept_stopped"@,
            EventKindModel::FrontierSlicePromoted => "frontier_slice_promoted"@,
            EventKindModel::IntegrationGateCancelled => "integration_gate_cancelled"@,
            EventKindModel::IntegrationMergeApplied => "integration_merge_applied"@,
            EventKindModel::IntegrationMergePrepared => "integration_merge_prepared"@,
            EventKindModel::IntegrationMergeReconciled => "integration_merge_reconciled"@,
            EventKindModel::IntegrationMergeReprepared => "integration_merge_reprepared"@,
            EventKindModel::InvalidWorkerOutput => "invalid_worker_output"@,
            EventKindModel::MissionEnvelopeRecorded => "mission_envelope_recorded"@,
            EventKindModel::OriginNotificationTargetRecorded => "origin_notification_target_recorded"@,
            EventKindModel::Progress => "progress"@,
            EventKindModel::ReplanApplyCompleted => "replan_apply_completed"@,
            EventKindModel::ReplanApplyIncomplete => "replan_apply_incomplete"@,
            EventKindModel::ReplanApplyRefused => "replan_apply_refused"@,
            EventKindModel::ReplanApplyStarted => "replan_apply_started"@,
            EventKindModel::ReplanProposalCreated => "replan_proposal_created"@,
            EventKindModel::RepairAuthorityProposalCreated => "repair_authority_proposal_created"@,
            EventKindModel::RunLaunchActivated => "run_launch_activated"@,
            EventKindModel::RunLaunchCompensated => "run_launch_compensated"@,
            EventKindModel::RunLaunchCompensationFailed => "run_launch_compensation_failed"@,
            EventKindModel::RunLaunchCompleted => "run_launch_completed"@,
            EventKindModel::RunLaunchFailed => "run_launch_failed"@,
            EventKindModel::RunLaunchIntegrationResourcesCreated => "run_launch_integration_resources_created"@,
            EventKindModel::RunLaunchInterrupted => "run_launch_interrupted"@,
            EventKindModel::RunLaunchPrepared => "run_launch_prepared"@,
            EventKindModel::RunLaunchTransitioned => "run_launch_transitioned"@,
            EventKindModel::RunResumed => "run_resumed"@,
            EventKindModel::SliceMergeConflict => "slice_merge_conflict"@,
            EventKindModel::SliceMerged => "slice_merged"@,
            EventKindModel::SliceRepairCompleted => "slice_repair_completed"@,
            EventKindModel::TerminalTransitionIntended => "terminal_transition_intended"@,
            EventKindModel::WorkerAttemptAllocated => "worker_attempt_allocated"@,
            EventKindModel::WorkerAttemptFinished => "worker_attempt_finished"@,
            EventKindModel::WorkerAttemptInterrupted => "worker_attempt_interrupted"@,
            EventKindModel::WorkerAttemptLaunched => "worker_attempt_launched"@,
            EventKindModel::WorkerQuestionsInterrupted => "worker_questions_interrupted"@,
            EventKindModel::WorkerQuestionInterrupted => "worker_question_interrupted"@,
            EventKindModel::WorktreeCleanupError => "worktree_cleanup_error"@,
            EventKindModel::WorktreeSetupCompleted => "worktree_setup_completed"@,
            EventKindModel::WorktreeSetupFailed => "worktree_setup_failed"@,
            EventKindModel::Unknown(name) => name,
        }),
{
}

/// The event of a launch has the name under which the store records it: prepared, moved on to a state,
/// failed, or compensated or not.
pub proof fn law_launch_events_have_their_names(
    target: RunLaunchState,
    compensated: bool,
    payload: RunLaunchIntent,
    prepared: WorkflowEvent<RunLaunchIntent>,
    moved: WorkflowEvent<RunLaunchIntent>,
    failed: WorkflowEvent<RunLaunchIntent>,
    undone: WorkflowEvent<RunLaunchIntent>,
)
    requires
        call_ensures(WorkflowEvent::<RunLaunchIntent>::run_launch_prepared, (payload,), prepared),
        call_ensures(
            WorkflowEvent::<RunLaunchIntent>::run_launch_transitioned,
            (target, payload),
            moved,
        ),
        call_ensures(WorkflowEvent::<RunLaunchIntent>::run_launch_failed, (payload,), failed),
        call_ensures(
            WorkflowEvent::<RunLaunchIntent>::run_launch_compensation,
            (compensated, payload),
            undone,
        ),
    ensures
        prepared.spec_kind().text() == "run_launch_prepared"@,
        moved.spec_kind().text() == TablesModel::launch_event(target),
        failed.spec_kind().text() == "run_launch_failed"@,
        undone.spec_kind().text() == if compensated {
            "run_launch_compensated"@
        } else {
            "run_launch_compensation_failed"@
        },
{
}

/// The event of a merge has the name under which the store records it.
pub proof fn law_merge_events_have_their_names(
    payload: IntegrationMergeIntent,
    prepared: WorkflowEvent<IntegrationMergeIntent>,
    reprepared: WorkflowEvent<IntegrationMergeIntent>,
    applied: WorkflowEvent<IntegrationMergeIntent>,
    reconciled: WorkflowEvent<IntegrationMergeIntent>,
)
    requires
        call_ensures(
            WorkflowEvent::<IntegrationMergeIntent>::integration_merge_prepared,
            (payload,),
            prepared,
        ),
        call_ensures(
            WorkflowEvent::<IntegrationMergeIntent>::integration_merge_reprepared,
            (payload,),
            reprepared,
        ),
        call_ensures(
            WorkflowEvent::<IntegrationMergeIntent>::integration_merge_applied,
            (payload,),
            applied,
        ),
        call_ensures(
            WorkflowEvent::<IntegrationMergeIntent>::integration_merge_reconciled,
            (payload,),
            reconciled,
        ),
    ensures
        prepared.spec_kind().text() == "integration_merge_prepared"@,
        reprepared.spec_kind().text() == "integration_merge_reprepared"@,
        applied.spec_kind().text() == "integration_merge_applied"@,
        reconciled.spec_kind().text() == "integration_merge_reconciled"@,
{
}

} // verus!
