//! The vocabulary of event kinds.
use crate::table::Row;
use crate::text::same_text;
use vstd::prelude::*;

verus! {

pub const ATTENTION_FOCUS_SENT: &'static str = "attention_focus_sent";
pub const ATTENTION_NOTIFICATION_SENT: &'static str = "attention_notification_sent";
pub const CHECKPOINT_WRITTEN: &'static str = "checkpoint_written";
pub const COCKPIT_READY: &'static str = "cockpit_ready";
pub const COCKPIT_WORKER_READY: &'static str = "cockpit_worker_ready";
pub const FRONTIER_AUTO_ACCEPT_RECORDED: &'static str = "frontier_auto_accept_recorded";
pub const FRONTIER_CLASSIFIED: &'static str = "frontier_classified";
pub const IMPLEMENTATION_SUMMARY: &'static str = "implementation_summary";
pub const INTEGRATION_REPAIR_COMPLETED: &'static str = "integration_repair_completed";
pub const PARALLEL_LAYER_COMPLETED: &'static str = "parallel_layer_completed";
pub const PARALLEL_LAYER_FAILED: &'static str = "parallel_layer_failed";
pub const PARALLEL_LAYER_STARTED: &'static str = "parallel_layer_started";
pub const RUN_CANCEL_REQUESTED: &'static str = "run_cancel_requested";
pub const RUN_CANCELLED: &'static str = "run_cancelled";
pub const RUN_COMPLETED: &'static str = "run_completed";
pub const RUN_ERROR: &'static str = "run_error";
pub const RUN_INCIDENT: &'static str = "run_incident";
pub const RUN_STARTED: &'static str = "run_started";
pub const REPLAN_PROPOSAL_DECIDED: &'static str = "replan_proposal_decided";
pub const REPLAN_CHECKPOINT_BLOCKED: &'static str = "replan_checkpoint_blocked";
pub const SLICE_STARTED: &'static str = "slice_started";
pub const TERMINAL_NOTIFICATION_SENT: &'static str = "terminal_notification_sent";
pub const TERMINAL_NOTIFICATION_SKIPPED: &'static str = "terminal_notification_skipped";
pub const TERMINAL_SUMMARY_WRITTEN: &'static str = "terminal_summary_written";
pub const WORKER_ATTEMPT_FAILURE: &'static str = "worker_attempt_failure";
pub const WORKER_ATTEMPT_TIMEOUT: &'static str = "worker_attempt_timeout";
pub const WORKER_ERROR: &'static str = "worker_error";
pub const WORKER_ENVELOPE_RETRY_SUCCEEDED: &'static str = "worker_envelope_retry_succeeded";
pub const WORKER_QUESTION_ANSWERED: &'static str = "worker_question_answered";
pub const WORKER_QUESTION_ASKED: &'static str = "worker_question_asked";
pub const WORKTREES_CLEANED: &'static str = "worktrees_cleaned";
pub const ATTENTION_FOCUS_FAILED: &'static str = "attention_focus_failed";
pub const ATTENTION_NOTIFICATION_FAILED: &'static str = "attention_notification_failed";
pub const ATTENTION_NOTIFICATION_RECORD_FAILED: &'static str = "attention_notification_record_failed";
pub const CANDIDATE_FOLLOWUP_SLICE_REPLAN_PROPOSAL_CREATED: &'static str = "candidate_followup_slice_replan_proposal_created";
pub const COCKPIT_WORKER_RENAMED: &'static str = "cockpit_worker_renamed";
pub const COMPLETION_PUBLICATION_COMMITTED: &'static str = "completion_publication_committed";
pub const DAEMON_RECOVERY_CLEANUP_ERROR: &'static str = "daemon_recovery_cleanup_error";
pub const DAEMON_RECOVERY_COMPLETED: &'static str = "daemon_recovery_completed";
pub const DAEMON_RECOVERY_STARTED: &'static str = "daemon_recovery_started";
pub const FINDING_REPLAN_PROPOSAL_CREATED: &'static str = "finding_replan_proposal_created";
pub const FRONTIER_AUTO_ACCEPT_SKIPPED: &'static str = "frontier_auto_accept_skipped";
pub const FRONTIER_AUTO_ACCEPT_STOPPED: &'static str = "frontier_auto_accept_stopped";
pub const FRONTIER_SLICE_PROMOTED: &'static str = "frontier_slice_promoted";
pub const INTEGRATION_GATE_CANCELLED: &'static str = "integration_gate_cancelled";
pub const INTEGRATION_MERGE_APPLIED: &'static str = "integration_merge_applied";
pub const INTEGRATION_MERGE_PREPARED: &'static str = "integration_merge_prepared";
pub const INTEGRATION_MERGE_RECONCILED: &'static str = "integration_merge_reconciled";
pub const INTEGRATION_MERGE_REPREPARED: &'static str = "integration_merge_reprepared";
pub const INVALID_WORKER_OUTPUT: &'static str = "invalid_worker_output";
pub const MISSION_ENVELOPE_RECORDED: &'static str = "mission_envelope_recorded";
pub const ORIGIN_NOTIFICATION_TARGET_RECORDED: &'static str = "origin_notification_target_recorded";
pub const PROGRESS: &'static str = "progress";
pub const REPLAN_APPLY_COMPLETED: &'static str = "replan_apply_completed";
pub const REPLAN_APPLY_INCOMPLETE: &'static str = "replan_apply_incomplete";
pub const REPLAN_APPLY_REFUSED: &'static str = "replan_apply_refused";
pub const REPLAN_APPLY_STARTED: &'static str = "replan_apply_started";
pub const REPLAN_PROPOSAL_CREATED: &'static str = "replan_proposal_created";
pub const REPAIR_AUTHORITY_PROPOSAL_CREATED: &'static str = "repair_authority_proposal_created";
pub const RUN_LAUNCH_ACTIVATED: &'static str = "run_launch_activated";
pub const RUN_LAUNCH_COMPENSATED: &'static str = "run_launch_compensated";
pub const RUN_LAUNCH_COMPENSATION_FAILED: &'static str = "run_launch_compensation_failed";
pub const RUN_LAUNCH_COMPLETED: &'static str = "run_launch_completed";
pub const RUN_LAUNCH_FAILED: &'static str = "run_launch_failed";
pub const RUN_LAUNCH_INTEGRATION_RESOURCES_CREATED: &'static str = "run_launch_integration_resources_created";
pub const RUN_LAUNCH_INTERRUPTED: &'static str = "run_launch_interrupted";
pub const RUN_LAUNCH_PREPARED: &'static str = "run_launch_prepared";
pub const RUN_LAUNCH_TRANSITIONED: &'static str = "run_launch_transitioned";
pub const RUN_RESUMED: &'static str = "run_resumed";
pub const SLICE_MERGE_CONFLICT: &'static str = "slice_merge_conflict";
pub const SLICE_MERGED: &'static str = "slice_merged";
pub const SLICE_REPAIR_COMPLETED: &'static str = "slice_repair_completed";
pub const TERMINAL_TRANSITION_INTENDED: &'static str = "terminal_transition_intended";
pub const WORKER_ATTEMPT_ALLOCATED: &'static str = "worker_attempt_allocated";
pub const WORKER_ATTEMPT_FINISHED: &'static str = "worker_attempt_finished";
pub const WORKER_ATTEMPT_INTERRUPTED: &'static str = "worker_attempt_interrupted";
pub const WORKER_ATTEMPT_LAUNCHED: &'static str = "worker_attempt_launched";
pub const WORKER_QUESTIONS_INTERRUPTED: &'static str = "worker_questions_interrupted";
pub const WORKER_QUESTION_INTERRUPTED: &'static str = "worker_question_interrupted";
pub const WORKTREE_CLEANUP_ERROR: &'static str = "worktree_cleanup_error";
pub const WORKTREE_SETUP_COMPLETED: &'static str = "worktree_setup_completed";
pub const WORKTREE_SETUP_FAILED: &'static str = "worktree_setup_failed";

/// The kind of an event; a kind that is not in the vocabulary keeps its name.
#[derive(Debug, Clone, PartialEq, Eq)]
pub enum EventKind {
    AttentionFocusSent,
    AttentionNotificationSent,
    CheckpointWritten,
    CockpitReady,
    CockpitWorkerReady,
    FrontierAutoAcceptRecorded,
    FrontierClassified,
    ImplementationSummary,
    IntegrationRepairCompleted,
    ParallelLayerCompleted,
    ParallelLayerFailed,
    ParallelLayerStarted,
    RunCancelRequested,
    RunCancelled,
    RunCompleted,
    RunError,
    RunIncident,
    RunStarted,
    ReplanProposalDecided,
    ReplanCheckpointBlocked,
    SliceStarted,
    TerminalNotificationSent,
    TerminalNotificationSkipped,
    TerminalSummaryWritten,
    WorkerAttemptFailure,
    WorkerAttemptTimeout,
    WorkerError,
    WorkerEnvelopeRetrySucceeded,
    WorkerQuestionAnswered,
    WorkerQuestionAsked,
    WorktreesCleaned,
    AttentionFocusFailed,
    AttentionNotificationFailed,
    AttentionNotificationRecordFailed,
    CandidateFollowupSliceReplanProposalCreated,
    CockpitWorkerRenamed,
    CompletionPublicationCommitted,
    DaemonRecoveryCleanupError,
    DaemonRecoveryCompleted,
    DaemonRecoveryStarted,
    FindingReplanProposalCreated,
    FrontierAutoAcceptSkipped,
    FrontierAutoAcceptStopped,
    FrontierSlicePromoted,
    IntegrationGateCancelled,
    IntegrationMergeApplied,
    IntegrationMergePrepared,
    IntegrationMergeReconciled,
    IntegrationMergeReprepared,
    InvalidWorkerOutput,
    MissionEnvelopeRecorded,
    OriginNotificationTargetRecorded,
    Progress,
    ReplanApplyCompleted,
    ReplanApplyIncomplete,
    ReplanApplyRefused,
    ReplanApplyStarted,
    ReplanProposalCreated,
    RepairAuthorityProposalCreated,
    RunLaunchActivated,
    RunLaunchCompensated,
    RunLaunchCompensationFailed,
    RunLaunchCompleted,
    RunLaunchFailed,
    RunLaunchIntegrationResourcesCreated,
    RunLaunchInterrupted,
    RunLaunchPrepared,
    RunLaunchTransitioned,
    RunResumed,
    SliceMergeConflict,
    SliceMerged,
    SliceRepairCompleted,
    TerminalTransitionIntended,
    WorkerAttemptAllocated,
    WorkerAttemptFinished,
    WorkerAttemptInterrupted,
    WorkerAttemptLaunched,
    WorkerQuestionsInterrupted,
    WorkerQuestionInterrupted,
    WorktreeCleanupError,
    WorktreeSetupCompleted,
    WorktreeSetupFailed,
    Unknown(String),
}

#[verifier::ext_equal]
pub enum EventKindModel {
    AttentionFocusSent,
    AttentionNotificationSent,
    CheckpointWritten,
    CockpitReady,
    CockpitWorkerReady,
    FrontierAutoAcceptRecorded,
    FrontierClassified,
    ImplementationSummary,
    IntegrationRepairCompleted,
    ParallelLayerCompleted,
    ParallelLayerFailed,
    ParallelLayerStarted,
    RunCancelRequested,
    RunCancelled,
    RunCompleted,
    RunError,
    RunIncident,
    RunStarted,
    ReplanProposalDecided,
    ReplanCheckpointBlocked,
    SliceStarted,
    TerminalNotificationSent,
    TerminalNotificationSkipped,
    TerminalSummaryWritten,
    WorkerAttemptFailure,
    WorkerAttemptTimeout,
    WorkerError,
    WorkerEnvelopeRetrySucceeded,
    WorkerQuestionAnswered,
    WorkerQuestionAsked,
    WorktreesCleaned,
    AttentionFocusFailed,
    AttentionNotificationFailed,
    AttentionNotificationRecordFailed,
    CandidateFollowupSliceReplanProposalCreated,
    CockpitWorkerRenamed,
    CompletionPublicationCommitted,
    DaemonRecoveryCleanupError,
    DaemonRecoveryCompleted,
    DaemonRecoveryStarted,
    FindingReplanProposalCreated,
    FrontierAutoAcceptSkipped,
    FrontierAutoAcceptStopped,
    FrontierSlicePromoted,
    IntegrationGateCancelled,
    IntegrationMergeApplied,
    IntegrationMergePrepared,
    IntegrationMergeReconciled,
    IntegrationMergeReprepared,
    InvalidWorkerOutput,
    MissionEnvelopeRecorded,
    OriginNotificationTargetRecorded,
    Progress,
    ReplanApplyCompleted,
    ReplanApplyIncomplete,
    ReplanApplyRefused,
    ReplanApplyStarted,
    ReplanProposalCreated,
    RepairAuthorityProposalCreated,
    RunLaunchActivated,
    RunLaunchCompensated,
    RunLaunchCompensationFailed,
    RunLaunchCompleted,
    RunLaunchFailed,
    RunLaunchIntegrationResourcesCreated,
    RunLaunchInterrupted,
    RunLaunchPrepared,
    RunLaunchTransitioned,
    RunResumed,
    SliceMergeConflict,
    SliceMerged,
    SliceRepairCompleted,
    TerminalTransitionIntended,
    WorkerAttemptAllocated,
    WorkerAttemptFinished,
    WorkerAttemptInterrupted,
    WorkerAttemptLaunched,
    WorkerQuestionsInterrupted,
    WorkerQuestionInterrupted,
    WorktreeCleanupError,
    WorktreeSetupCompleted,
    WorktreeSetupFailed,
    Unknown(Seq<char>),
}

impl DeepView for EventKind {
    type V = EventKindModel;

    open spec fn deep_view(&self) -> EventKindModel {
        match self {
            EventKind::AttentionFocusSent => EventKindModel::AttentionFocusSent,
            EventKind::AttentionNotificationSent => EventKindModel::AttentionNotificationSent,
            EventKind::CheckpointWritten => EventKindModel::CheckpointWritten,
            EventKind::CockpitReady => EventKindModel::CockpitReady,
            EventKind::CockpitWorkerReady => EventKindModel::CockpitWorkerReady,
            EventKind::FrontierAutoAcceptRecorded => EventKindModel::FrontierAutoAcceptRecorded,
            EventKind::FrontierClassified => EventKindModel::FrontierClassified,
            EventKind::ImplementationSummary => EventKindModel::ImplementationSummary,
            EventKind::IntegrationRepairCompleted => EventKindModel::IntegrationRepairCompleted,
            EventKind::ParallelLayerCompleted => EventKindModel::ParallelLayerCompleted,
            EventKind::ParallelLayerFailed => EventKindModel::ParallelLayerFailed,
            EventKind::ParallelLayerStarted => EventKindModel::ParallelLayerStarted,
            EventKind::RunCancelRequested => EventKindModel::RunCancelRequested,
            EventKind::RunCancelled => EventKindModel::RunCancelled,
            EventKind::RunCompleted => EventKindModel::RunCompleted,
            EventKind::RunError => EventKindModel::RunError,
            EventKind::RunIncident => EventKindModel::RunIncident,
            EventKind::RunStarted => EventKindModel::RunStarted,
            EventKind::ReplanProposalDecided => EventKindModel::ReplanProposalDecided,
            EventKind::ReplanCheckpointBlocked => EventKindModel::ReplanCheckpointBlocked,
            EventKind::SliceStarted => EventKindModel::SliceStarted,
            EventKind::TerminalNotificationSent => EventKindModel::TerminalNotificationSent,
            EventKind::TerminalNotificationSkipped => EventKindModel::TerminalNotificationSkipped,
            EventKind::TerminalSummaryWritten => EventKindModel::TerminalSummaryWritten,
            EventKind::WorkerAttemptFailure => EventKindModel::WorkerAttemptFailure,
            EventKind::WorkerAttemptTimeout => EventKindModel::WorkerAttemptTimeout,
            EventKind::WorkerError => EventKindModel::WorkerError,
            EventKind::WorkerEnvelopeRetrySucceeded => EventKindModel::WorkerEnvelopeRetrySucceeded,
            EventKind::WorkerQuestionAnswered => EventKindModel::WorkerQuestionAnswered,
            EventKind::WorkerQuestionAsked => EventKindModel::WorkerQuestionAsked,
            EventKind::WorktreesCleaned => EventKindModel::WorktreesCleaned,
            EventKind::AttentionFocusFailed => EventKindModel::AttentionFocusFailed,
            EventKind::AttentionNotificationFailed => EventKindModel::AttentionNotificationFailed,
            EventKind::AttentionNotificationRecordFailed => EventKindModel::AttentionNotificationRecordFailed,
            EventKind::CandidateFollowupSliceReplanProposalCreated => EventKindModel::CandidateFollowupSliceReplanProposalCreated,
            EventKind::CockpitWorkerRenamed => EventKindModel::CockpitWorkerRenamed,
            EventKind::CompletionPublicationCommitted => EventKindModel::CompletionPublicationCommitted,
            EventKind::DaemonRecoveryCleanupError => EventKindModel::DaemonRecoveryCleanupError,
            EventKind::DaemonRecoveryCompleted => EventKindModel::DaemonRecoveryCompleted,
            EventKind::DaemonRecoveryStarted => EventKindModel::DaemonRecoveryStarted,
            EventKind::FindingReplanProposalCreated => EventKindModel::FindingReplanProposalCreated,
            EventKind::FrontierAutoAcceptSkipped => EventKindModel::FrontierAutoAcceptSkipped,
            EventKind::FrontierAutoAcceptStopped => EventKindModel::FrontierAutoAcceptStopped,
            EventKind::FrontierSlicePromoted => EventKindModel::FrontierSlicePromoted,
            EventKind::IntegrationGateCancelled => EventKindModel::IntegrationGateCancelled,
            EventKind::IntegrationMergeApplied => EventKindModel::IntegrationMergeApplied,
            EventKind::IntegrationMergePrepared => EventKindModel::IntegrationMergePrepared,
            EventKind::IntegrationMergeReconciled => EventKindModel::IntegrationMergeReconciled,
            EventKind::IntegrationMergeReprepared => EventKindModel::IntegrationMergeReprepared,
            EventKind::InvalidWorkerOutput => EventKindModel::InvalidWorkerOutput,
            EventKind::MissionEnvelopeRecorded => EventKindModel::MissionEnvelopeRecorded,
            EventKind::OriginNotificationTargetRecorded => EventKindModel::OriginNotificationTargetRecorded,
            EventKind::Progress => EventKindModel::Progress,
            EventKind::ReplanApplyCompleted => EventKindModel::ReplanApplyCompleted,
            EventKind::ReplanApplyIncomplete => EventKindModel::ReplanApplyIncomplete,
            EventKind::ReplanApplyRefused => EventKindModel::ReplanApplyRefused,
            EventKind::ReplanApplyStarted => EventKindModel::ReplanApplyStarted,
            EventKind::ReplanProposalCreated => EventKindModel::ReplanProposalCreated,
            EventKind::RepairAuthorityProposalCreated => EventKindModel::RepairAuthorityProposalCreated,
            EventKind::RunLaunchActivated => EventKindModel::RunLaunchActivated,
            EventKind::RunLaunchCompensated => EventKindModel::RunLaunchCompensated,
            EventKind::RunLaunchCompensationFailed => EventKindModel::RunLaunchCompensationFailed,
            EventKind::RunLaunchCompleted => EventKindModel::RunLaunchCompleted,
            EventKind::RunLaunchFailed => EventKindModel::RunLaunchFailed,
            EventKind::RunLaunchIntegrationResourcesCreated => EventKindModel::RunLaunchIntegrationResourcesCreated,
            EventKind::RunLaunchInterrupted => EventKindModel::RunLaunchInterrupted,
            EventKind::RunLaunchPrepared => EventKindModel::RunLaunchPrepared,
            EventKind::RunLaunchTransitioned => EventKindModel::RunLaunchTransitioned,
            EventKind::RunResumed => EventKindModel::RunResumed,
            EventKind::SliceMergeConflict => EventKindModel::SliceMergeConflict,
            EventKind::SliceMerged => EventKindModel::SliceMerged,
            EventKind::SliceRepairCompleted => EventKindModel::SliceRepairCompleted,
            EventKind::TerminalTransitionIntended => EventKindModel::TerminalTransitionIntended,
            EventKind::WorkerAttemptAllocated => EventKindModel::WorkerAttemptAllocated,
            EventKind::WorkerAttemptFinished => EventKindModel::WorkerAttemptFinished,
            EventKind::WorkerAttemptInterrupted => EventKindModel::WorkerAttemptInterrupted,
            EventKind::WorkerAttemptLaunched => EventKindModel::WorkerAttemptLaunched,
            EventKind::WorkerQuestionsInterrupted => EventKindModel::WorkerQuestionsInterrupted,
            EventKind::WorkerQuestionInterrupted => EventKindModel::WorkerQuestionInterrupted,
            EventKind::WorktreeCleanupError => EventKindModel::WorktreeCleanupError,
            EventKind::WorktreeSetupCompleted => EventKindModel::WorktreeSetupCompleted,
            EventKind::WorktreeSetupFailed => EventKindModel::WorktreeSetupFailed,
            EventKind::Unknown(value) => EventKindModel::Unknown(value.deep_view()),
        }
    }
}

impl View for EventKind {
    type V = EventKindModel;

    open spec fn view(&self) -> EventKindModel {
        self.deep_view()
    }
}

impl Row for EventKind {
    fn dup(&self) -> (r: Self) {
        match self {
            EventKind::AttentionFocusSent => EventKind::AttentionFocusSent,
            EventKind::AttentionNotificationSent => EventKind::AttentionNotificationSent,
            EventKind::CheckpointWritten => EventKind::CheckpointWritten,
            EventKind::CockpitReady => EventKind::CockpitReady,
            EventKind::CockpitWorkerReady => EventKind::CockpitWorkerReady,
            EventKind::FrontierAutoAcceptRecorded => EventKind::FrontierAutoAcceptRecorded,
            EventKind::FrontierClassified => EventKind::FrontierClassified,
            EventKind::ImplementationSummary => EventKind::ImplementationSummary,
            EventKind::IntegrationRepairCompleted => EventKind::IntegrationRepairCompleted,
            EventKind::ParallelLayerCompleted => EventKind::ParallelLayerCompleted,
            EventKind::ParallelLayerFailed => EventKind::ParallelLayerFailed,
            EventKind::ParallelLayerStarted => EventKind::ParallelLayerStarted,
            EventKind::RunCancelRequested => EventKind::RunCancelRequested,
            EventKind::RunCancelled => EventKind::RunCancelled,
            EventKind::RunCompleted => EventKind::RunCompleted,
            EventKind::RunError => EventKind::RunError,
            EventKind::RunIncident => EventKind::RunIncident,
            EventKind::RunStarted => EventKind::RunStarted,
            EventKind::ReplanProposalDecided => EventKind::ReplanProposalDecided,
            EventKind::ReplanCheckpointBlocked => EventKind::ReplanCheckpointBlocked,
            EventKind::SliceStarted => EventKind::SliceStarted,
            EventKind::TerminalNotificationSent => EventKind::TerminalNotificationSent,
            EventKind::TerminalNotificationSkipped => EventKind::TerminalNotificationSkipped,
            EventKind::TerminalSummaryWritten => EventKind::TerminalSummaryWritten,
            EventKind::WorkerAttemptFailure => EventKind::WorkerAttemptFailure,
            EventKind::WorkerAttemptTimeout => EventKind::WorkerAttemptTimeout,
            EventKind::WorkerError => EventKind::WorkerError,
            EventKind::WorkerEnvelopeRetrySucceeded => EventKind::WorkerEnvelopeRetrySucceeded,
            EventKind::WorkerQuestionAnswered => EventKind::WorkerQuestionAnswered,
            EventKind::WorkerQuestionAsked => EventKind::WorkerQuestionAsked,
            EventKind::WorktreesCleaned => EventKind::WorktreesCleaned,
            EventKind::AttentionFocusFailed => EventKind::AttentionFocusFailed,
            EventKind::AttentionNotificationFailed => EventKind::AttentionNotificationFailed,
            EventKind::AttentionNotificationRecordFailed => EventKind::AttentionNotificationRecordFailed,
            EventKind::CandidateFollowupSliceReplanProposalCreated => EventKind::CandidateFollowupSliceReplanProposalCreated,
            EventKind::CockpitWorkerRenamed => EventKind::CockpitWorkerRenamed,
            EventKind::CompletionPublicationCommitted => EventKind::CompletionPublicationCommitted,
            EventKind::DaemonRecoveryCleanupError => EventKind::DaemonRecoveryCleanupError,
            EventKind::DaemonRecoveryCompleted => EventKind::DaemonRecoveryCompleted,
            EventKind::DaemonRecoveryStarted => EventKind::DaemonRecoveryStarted,
            EventKind::FindingReplanProposalCreated => EventKind::FindingReplanProposalCreated,
            EventKind::FrontierAutoAcceptSkipped => EventKind::FrontierAutoAcceptSkipped,
            EventKind::FrontierAutoAcceptStopped => EventKind::FrontierAutoAcceptStopped,
            EventKind::FrontierSlicePromoted => EventKind::FrontierSlicePromoted,
            EventKind::IntegrationGateCancelled => EventKind::IntegrationGateCancelled,
            EventKind::IntegrationMergeApplied => EventKind::IntegrationMergeApplied,
            EventKind::IntegrationMergePrepared => EventKind::IntegrationMergePrepared,
            EventKind::IntegrationMergeReconciled => EventKind::IntegrationMergeReconciled,
            EventKind::IntegrationMergeReprepared => EventKind::IntegrationMergeReprepared,
            EventKind::InvalidWorkerOutput => EventKind::InvalidWorkerOutput,
            EventKind::MissionEnvelopeRecorded => EventKind::MissionEnvelopeRecorded,
            EventKind::OriginNotificationTargetRecorded => EventKind::OriginNotificationTargetRecorded,
            EventKind::Progress => EventKind::Progress,
            EventKind::ReplanApplyCompleted => EventKind::ReplanApplyCompleted,
            EventKind::ReplanApplyIncomplete => EventKind::ReplanApplyIncomplete,
            EventKind::ReplanApplyRefused => EventKind::ReplanApplyRefused,
            EventKind::ReplanApplyStarted => EventKind::ReplanApplyStarted,
            EventKind::ReplanProposalCreated => EventKind::ReplanProposalCreated,
            EventKind::RepairAuthorityProposalCreated => EventKind::RepairAuthorityProposalCreated,
            EventKind::RunLaunchActivated => EventKind::RunLaunchActivated,
            EventKind::RunLaunchCompensated => EventKind::RunLaunchCompensated,
            EventKind::RunLaunchCompensationFailed => EventKind::RunLaunchCompensationFailed,
            EventKind::RunLaunchCompleted => EventKind::RunLaunchCompleted,
            EventKind::RunLaunchFailed => EventKind::RunLaunchFailed,
            EventKind::RunLaunchIntegrationResourcesCreated => EventKind::RunLaunchIntegrationResourcesCreated,
            EventKind::RunLaunchInterrupted => EventKind::RunLaunchInterrupted,
            EventKind::RunLaunchPrepared => EventKind::RunLaunchPrepared,
            EventKind::RunLaunchTransitioned => EventKind::RunLaunchTransitioned,
            EventKind::RunResumed => EventKind::RunResumed,
            EventKind::SliceMergeConflict => EventKind::SliceMergeConflict,
            EventKind::SliceMerged => EventKind::SliceMerged,
            EventKind::SliceRepairCompleted => EventKind::SliceRepairCompleted,
            EventKind::TerminalTransitionIntended => EventKind::TerminalTransitionIntended,
            EventKind::WorkerAttemptAllocated => EventKind::WorkerAttemptAllocated,
            EventKind::WorkerAttemptFinished => EventKind::WorkerAttemptFinished,
            EventKind::WorkerAttemptInterrupted => EventKind::WorkerAttemptInterrupted,
            EventKind::WorkerAttemptLaunched => EventKind::WorkerAttemptLaunched,
            EventKind::WorkerQuestionsInterrupted => EventKind::WorkerQuestionsInterrupted,
            EventKind::WorkerQuestionInterrupted => EventKind::WorkerQuestionInterrupted,
            EventKind::WorktreeCleanupError => EventKind::WorktreeCleanupError,
            EventKind::WorktreeSetupCompleted => EventKind::WorktreeSetupCompleted,
            EventKind::WorktreeSetupFailed => EventKind::WorktreeSetupFailed,
            EventKind::Unknown(value) => EventKind::Unknown(value.dup()),
        }
    }

    fn same(&self, other: &Self) -> (r: bool) {
        match (self, other) {
            (EventKind::AttentionFocusSent, EventKind::AttentionFocusSent) => true,
            (EventKind::AttentionNotificationSent, EventKind::AttentionNotificationSent) => true,
            (EventKind::CheckpointWritten, EventKind::CheckpointWritten) => true,
            (EventKind::CockpitReady, EventKind::CockpitReady) => true,
            (EventKind::CockpitWorkerReady, EventKind::CockpitWorkerReady) => true,
            (EventKind::FrontierAutoAcceptRecorded, EventKind::FrontierAutoAcceptRecorded) => true,
            (EventKind::FrontierClassified, EventKind::FrontierClassified) => true,
            (EventKind::ImplementationSummary, EventKind::ImplementationSummary) => true,
            (EventKind::IntegrationRepairCompleted, EventKind::IntegrationRepairCompleted) => true,
            (EventKind::ParallelLayerCompleted, EventKind::ParallelLayerCompleted) => true,
            (EventKind::ParallelLayerFailed, EventKind::ParallelLayerFailed) => true,
            (EventKind::ParallelLayerStarted, EventKind::ParallelLayerStarted) => true,
            (EventKind::RunCancelRequested, EventKind::RunCancelRequested) => true,
            (EventKind::RunCancelled, EventKind::RunCancelled) => true,
            (EventKind::RunCompleted, EventKind::RunCompleted) => true,
            (EventKind::RunError, EventKind::RunError) => true,
            (EventKind::RunIncident, EventKind::RunIncident) => true,
            (EventKind::RunStarted, EventKind::RunStarted) => true,
            (EventKind::ReplanProposalDecided, EventKind::ReplanProposalDecided) => true,
            (EventKind::ReplanCheckpointBlocked, EventKind::ReplanCheckpointBlocked) => true,
            (EventKind::SliceStarted, EventKind::SliceStarted) => true,
            (EventKind::TerminalNotificationSent, EventKind::TerminalNotificationSent) => true,
            (EventKind::TerminalNotificationSkipped, EventKind::TerminalNotificationSkipped) => true,
            (EventKind::TerminalSummaryWritten, EventKind::TerminalSummaryWritten) => true,
            (EventKind::WorkerAttemptFailure, EventKind::WorkerAttemptFailure) => true,
            (EventKind::WorkerAttemptTimeout, EventKind::WorkerAttemptTimeout) => true,
            (EventKind::WorkerError, EventKind::WorkerError) => true,
            (EventKind::WorkerEnvelopeRetrySucceeded, EventKind::WorkerEnvelopeRetrySucceeded) => true,
            (EventKind::WorkerQuestionAnswered, EventKind::WorkerQuestionAnswered) => true,
            (EventKind::WorkerQuestionAsked, EventKind::WorkerQuestionAsked) => true,
            (EventKind::WorktreesCleaned, EventKind::WorktreesCleaned) => true,
            (EventKind::AttentionFocusFailed, EventKind::AttentionFocusFailed) => true,
            (EventKind::AttentionNotificationFailed, EventKind::AttentionNotificationFailed) => true,
            (EventKind::AttentionNotificationRecordFailed, EventKind::AttentionNotificationRecordFailed) => true,
            (EventKind::CandidateFollowupSliceReplanProposalCreated, EventKind::CandidateFollowupSliceReplanProposalCreated) => true,
            (EventKind::CockpitWorkerRenamed, EventKind::CockpitWorkerRenamed) => true,
            (EventKind::CompletionPublicationCommitted, EventKind::CompletionPublicationCommitted) => true,
            (EventKind::DaemonRecoveryCleanupError, EventKind::DaemonRecoveryCleanupError) => true,
            (EventKind::DaemonRecoveryCompleted, EventKind::DaemonRecoveryCompleted) => true,
            (EventKind::DaemonRecoveryStarted, EventKind::DaemonRecoveryStarted) => true,
            (EventKind::FindingReplanProposalCreated, EventKind::FindingReplanProposalCreated) => true,
            (EventKind::FrontierAutoAcceptSkipped, EventKind::FrontierAutoAcceptSkipped) => true,
            (EventKind::FrontierAutoAcceptStopped, EventKind::FrontierAutoAcceptStopped) => true,
            (EventKind::FrontierSlicePromoted, EventKind::FrontierSlicePromoted) => true,
            (EventKind::IntegrationGateCancelled, EventKind::IntegrationGateCancelled) => true,
            (EventKind::IntegrationMergeApplied, EventKind::IntegrationMergeApplied) => true,
            (EventKind::IntegrationMergePrepared, EventKind::IntegrationMergePrepared) => true,
            (EventKind::IntegrationMergeReconciled, EventKind::IntegrationMergeReconciled) => true,
            (EventKind::IntegrationMergeReprepared, EventKind::IntegrationMergeReprepared) => true,
            (EventKind::InvalidWorkerOutput, EventKind::InvalidWorkerOutput) => true,
            (EventKind::MissionEnvelopeRecorded, EventKind::MissionEnvelopeRecorded) => true,
            (EventKind::OriginNotificationTargetRecorded, EventKind::OriginNotificationTargetRecorded) => true,
            (EventKind::Progress, EventKind::Progress) => true,
            (EventKind::ReplanApplyCompleted, EventKind::ReplanApplyCompleted) => true,
            (EventKind::ReplanApplyIncomplete, EventKind::ReplanApplyIncomplete) => true,
            (EventKind::ReplanApplyRefused, EventKind::ReplanApplyRefused) => true,
            (EventKind::ReplanApplyStarted, EventKind::ReplanApplyStarted) => true,
            (EventKind::ReplanProposalCreated, EventKind::ReplanProposalCreated) => true,
            (EventKind::RepairAuthorityProposalCreated, EventKind::RepairAuthorityProposalCreated) => true,
            (EventKind::RunLaunchActivated, EventKind::RunLaunchActivated) => true,
            (EventKind::RunLaunchCompensated, EventKind::RunLaunchCompensated) => true,
            (EventKind::RunLaunchCompensationFailed, EventKind::RunLaunchCompensationFailed) => true,
            (EventKind::RunLaunchCompleted, EventKind::RunLaunchCompleted) => true,
            (EventKind::RunLaunchFailed, EventKind::RunLaunchFailed) => true,
            (EventKind::RunLaunchIntegrationResourcesCreated, EventKind::RunLaunchIntegrationResourcesCreated) => true,
            (EventKind::RunLaunchInterrupted, EventKind::RunLaunchInterrupted) => true,
            (EventKind::RunLaunchPrepared, EventKind::RunLaunchPrepared) => true,
            (EventKind::RunLaunchTransitioned, EventKind::RunLaunchTransitioned) => true,
            (EventKind::RunResumed, EventKind::RunResumed) => true,
            (EventKind::SliceMergeConflict, EventKind::SliceMergeConflict) => true,
            (EventKind::SliceMerged, EventKind::SliceMerged) => true,
            (EventKind::SliceRepairCompleted, EventKind::SliceRepairCompleted) => true,
            (EventKind::TerminalTransitionIntended, EventKind::TerminalTransitionIntended) => true,
            (EventKind::WorkerAttemptAllocated, EventKind::WorkerAttemptAllocated) => true,
            (EventKind::WorkerAttemptFinished, EventKind::WorkerAttemptFinished) => true,
            (EventKind::WorkerAttemptInterrupted, EventKind::WorkerAttemptInterrupted) => true,
            (EventKind::WorkerAttemptLaunched, EventKind::WorkerAttemptLaunched) => true,
            (EventKind::WorkerQuestionsInterrupted, EventKind::WorkerQuestionsInterrupted) => true,
            (EventKind::WorkerQuestionInterrupted, EventKind::WorkerQuestionInterrupted) => true,
            (EventKind::WorktreeCleanupError, EventKind::WorktreeCleanupError) => true,
            (EventKind::WorktreeSetupCompleted, EventKind::WorktreeSetupCompleted) => true,
            (EventKind::WorktreeSetupFailed, EventKind::WorktreeSetupFailed) => true,
            (EventKind::Unknown(a), EventKind::Unknown(b)) => a.same(b),
            _ => false,
        }
    }
}

impl EventKindModel {
    /// The name of the kind.
    pub open spec fn text(self) -> Seq<char> {
        match self {
            EventKindModel::AttentionFocusSent => "attention_focus_sent"@,
            EventKindModel::AttentionNotificationSent => "attention_notification_sent"@,
            EventKindModel::CheckpointWritten => "checkpoint_written"@,
            EventKindModel::CockpitReady => "cockpit_ready"@,
            EventKindModel::CockpitWorkerReady => "cockpit_worker_ready"@,
            EventKindModel::FrontierAutoAcceptRecorded => "frontier_auto_accept_recorded"@,
            EventKindModel::FrontierClassified => "frontier_classified"@,
            EventKindModel::ImplementationSummary => "implementation_summary"@,
            EventKindModel::IntegrationRepairCompleted => "integration_repair_completed"@,
            EventKindModel::ParallelLayerCompleted => "parallel_layer_completed"@,
            EventKindModel::ParallelLayerFailed => "parallel_layer_failed"@,
            EventKindModel::ParallelLayerStarted => "parallel_layer_started"@,
            EventKindModel::RunCancelRequested => "run_cancel_requested"@,
            EventKindModel::RunCancelled => "run_cancelled"@,
            EventKindModel::RunCompleted => "run_completed"@,
            EventKindModel::RunError => "run_error"@,
            EventKindModel::RunIncident => "run_incident"@,
            EventKindModel::RunStarted => "run_started"@,
            EventKindModel::ReplanProposalDecided => "replan_proposal_decided"@,
            EventKindModel::ReplanCheckpointBlocked => "replan_checkpoint_blocked"@,
            EventKindModel::SliceStarted => "slice_started"@,
            EventKindModel::TerminalNotificationSent => "terminal_notification_sent"@,
            EventKindModel::TerminalNotificationSkipped => "terminal_notification_skipped"@,
            EventKindModel::TerminalSummaryWritten => "terminal_summary_written"@,
            EventKindModel::WorkerAttemptFailure => "worker_attempt_failure"@,
            EventKindModel::WorkerAttemptTimeout => "worker_attempt_timeout"@,
            EventKindModel::WorkerError => "worker_error"@,
            EventKindModel::WorkerEnvelopeRetrySucceeded => "worker_envelope_retry_succeeded"@,
            EventKindModel::WorkerQuestionAnswered => "worker_question_answered"@,
            EventKindModel::WorkerQuestionAsked => "worker_question_asked"@,
            EventKindModel::WorktreesCleaned => "worktrees_cleaned"@,
            EventKindModel::AttentionFocusFailed => "attention_focus_failed"@,
            EventKindModel::AttentionNotificationFailed => "attention_notification_failed"@,
            EventKindModel::AttentionNotificationRecordFailed => "attention_notification_record_failed"@,
            EventKindModel::CandidateFollowupSliceReplanProposalCreated => "candidate_followup_slice_replan_proposal_created"@,
            EventKindModel::CockpitWorkerRenamed => "cockpit_worker_renamed"@,
            EventKindModel::CompletionPublicationCommitted => "completion_publication_committed"@,
            EventKindModel::DaemonRecoveryCleanupError => "daemon_recovery_cleanup_error"@,
            EventKindModel::DaemonRecoveryCompleted => "daemon_recovery_completed"@,
            EventKindModel::DaemonRecoveryStarted => "daemon_recovery_started"@,
            EventKindModel::FindingReplanProposalCreated => "finding_replan_proposal_created"@,
            EventKindModel::FrontierAutoAcceptSkipped => "frontier_auto_accept_skipped"@,
            EventKindModel::FrontierAutoAcceptStopped => "frontier_auto_accept_stopped"@,
            EventKindModel::FrontierSlicePromoted => "frontier_slice_promoted"@,
            EventKindModel::IntegrationGateCancelled => "integration_gate_cancelled"@,
            EventKindModel::IntegrationMergeApplied => "integration_merge_applied"@,
            EventKindModel::IntegrationMergePrepared => "integration_merge_prepared"@,
            EventKindModel::IntegrationMergeReconciled => "integration_merge_reconciled"@,
            EventKindModel::IntegrationMergeReprepared => "integration_merge_reprepared"@,
            EventKindModel::InvalidWorkerOutput => "invalid_worker_output"@,
            EventKindModel::MissionEnvelopeRecorded => "mission_envelope_recorded"@,
            EventKindModel::OriginNotificationTargetRecorded => "origin_notification_target_recorded"@,
            EventKindModel::Progress => "progress"@,
            EventKindModel::ReplanApplyCompleted => "replan_apply_completed"@,
            EventKindModel::ReplanApplyIncomplete => "replan_apply_incomplete"@,
            EventKindModel::ReplanApplyRefused => "replan_apply_refused"@,
            EventKindModel::ReplanApplyStarted => "replan_apply_started"@,
            EventKindModel::ReplanProposalCreated => "replan_proposal_created"@,
            EventKindModel::RepairAuthorityProposalCreated => "repair_authority_proposal_created"@,
            EventKindModel::RunLaunchActivated => "run_launch_activated"@,
            EventKindModel::RunLaunchCompensated => "run_launch_compensated"@,
            EventKindModel::RunLaunchCompensationFailed => "run_launch_compensation_failed"@,
            EventKindModel::RunLaunchCompleted => "run_launch_completed"@,
            EventKindModel::RunLaunchFailed => "run_launch_failed"@,
            EventKindModel::RunLaunchIntegrationResourcesCreated => "run_launch_integration_resources_created"@,
            EventKindModel::RunLaunchInterrupted => "run_launch_interrupted"@,
            EventKindModel::RunLaunchPrepared => "run_launch_prepared"@,
            EventKindModel::RunLaunchTransitioned => "run_launch_transitioned"@,
            EventKindModel::RunResumed => "run_resumed"@,
            EventKindModel::SliceMergeConflict => "slice_merge_conflict"@,
            EventKindModel::SliceMerged => "slice_merged"@,
            EventKindModel::SliceRepairCompleted => "slice_repair_completed"@,
            EventKindModel::TerminalTransitionIntended => "terminal_transition_intended"@,
            EventKindModel::WorkerAttemptAllocated => "worker_attempt_allocated"@,
            EventKindModel::WorkerAttemptFinished => "worker_attempt_finished"@,
            EventKindModel::WorkerAttemptInterrupted => "worker_attempt_interrupted"@,
            EventKindModel::WorkerAttemptLaunched => "worker_attempt_launched"@,
            EventKindModel::WorkerQuestionsInterrupted => "worker_questions_interrupted"@,
            EventKindModel::WorkerQuestionInterrupted => "worker_question_interrupted"@,
            EventKindModel::WorktreeCleanupError => "worktree_cleanup_error"@,
            EventKindModel::WorktreeSetupCompleted => "worktree_setup_completed"@,
            EventKindModel::WorktreeSetupFailed => "worktree_setup_failed"@,
            EventKindModel::Unknown(name) => name,
        }
    }

    /// The kind that a name stands for.
    pub open spec fn of_text(name: Seq<char>) -> EventKindModel {
        if name == "attention_focus_sent"@ {
            EventKindModel::AttentionFocusSent
        } else if name == "attention_notification_sent"@ {
            EventKindModel::AttentionNotificationSent
        } else if name == "checkpoint_written"@ {
            EventKindModel::CheckpointWritten
        } else if name == "cockpit_ready"@ {
            EventKindModel::CockpitReady
        } else if name == "cockpit_worker_ready"@ {
            EventKindModel::CockpitWorkerReady
        } else if name == "frontier_auto_accept_recorded"@ {
            EventKindModel::FrontierAutoAcceptRecorded
        } else if name == "frontier_classified"@ {
            EventKindModel::FrontierClassified
        } else if name == "implementation_summary"@ {
            EventKindModel::ImplementationSummary
        } else if name == "integration_repair_completed"@ {
            EventKindModel::IntegrationRepairCompleted
        } else if name == "parallel_layer_completed"@ {
            EventKindModel::ParallelLayerCompleted
        } else if name == "parallel_layer_failed"@ {
            EventKindModel::ParallelLayerFailed
        } else if name == "parallel_layer_started"@ {
            EventKindModel::ParallelLayerStarted
        } else if name == "run_cancel_requested"@ {
            EventKindModel::RunCancelRequested
        } else if name == "run_cancelled"@ {
            EventKindModel::RunCancelled
        } else if name == "run_completed"@ {
            EventKindModel::RunCompleted
        } else if name == "run_error"@ {
            EventKindModel::RunError
        } else if name == "run_incident"@ {
            EventKindModel::RunIncident
        } else if name == "run_started"@ {
            EventKindModel::RunStarted
        } else if name == "replan_proposal_decided"@ {
            EventKindModel::ReplanProposalDecided
        } else if name == "replan_checkpoint_blocked"@ {
            EventKindModel::ReplanCheckpointBlocked
        } else if name == "slice_started"@ {
            EventKindModel::SliceStarted
        } else if name == "terminal_notification_sent"@ {
            EventKindModel::TerminalNotificationSent
        } else if name == "terminal_notification_skipped"@ {
            EventKindModel::TerminalNotificationSkipped
        } else if name == "terminal_summary_written"@ {
            EventKindModel::TerminalSummaryWritten
        } else if name == "worker_attempt_failure"@ {
            EventKindModel::WorkerAttemptFailure
        } else if name == "worker_attempt_timeout"@ {
            EventKindModel::WorkerAttemptTimeout
        } else if name == "worker_error"@ {
            EventKindModel::WorkerError
        } else if name == "worker_envelope_retry_succeeded"@ {
            EventKindModel::WorkerEnvelopeRetrySucceeded
        } else if name == "worker_question_answered"@ {
            EventKindModel::WorkerQuestionAnswered
        } else if name == "worker_question_asked"@ {
            EventKindModel::WorkerQuestionAsked
        } else if name == "worktrees_cleaned"@ {
            EventKindModel::WorktreesCleaned
        } else if name == "attention_focus_failed"@ {
            EventKindModel::AttentionFocusFailed
        } else if name == "attention_notification_failed"@ {
            EventKindModel::AttentionNotificationFailed
        } else if name == "attention_notification_record_failed"@ {
            EventKindModel::AttentionNotificationRecordFailed
        } else if name == "candidate_followup_slice_replan_proposal_created"@ {
            EventKindModel::CandidateFollowupSliceReplanProposalCreated
        } else if name == "cockpit_worker_renamed"@ {
            EventKindModel::CockpitWorkerRenamed
        } else if name == "completion_publication_committed"@ {
            EventKindModel::CompletionPublicationCommitted
        } else if name == "daemon_recovery_cleanup_error"@ {
            EventKindModel::DaemonRecoveryCleanupError
        } else if name == "daemon_recovery_completed"@ {
            EventKindModel::DaemonRecoveryCompleted
        } else if name == "daemon_recovery_started"@ {
            EventKindModel::DaemonRecoveryStarted
        } else if name == "finding_replan_proposal_created"@ {
            EventKindModel::FindingReplanProposalCreated
        } else if name == "frontier_auto_accept_skipped"@ {
            EventKindModel::FrontierAutoAcceptSkipped
        } else if name == "frontier_auto_accept_stopped"@ {
            EventKindModel::FrontierAutoAcceptStopped
        } else if name == "frontier_slice_promoted"@ {
            EventKindModel::FrontierSlicePromoted
        } else if name == "integration_gate_cancelled"@ {
            EventKindModel::IntegrationGateCancelled
        } else if name == "integration_merge_applied"@ {
            EventKindModel::IntegrationMergeApplied
        } else if name == "integration_merge_prepared"@ {
            EventKindModel::IntegrationMergePrepared
        } else if name == "integration_merge_reconciled"@ {
            EventKindModel::IntegrationMergeReconciled
        } else if name == "integration_merge_reprepared"@ {
            EventKindModel::IntegrationMergeReprepared
        } else if name == "invalid_worker_output"@ {
            EventKindModel::InvalidWorkerOutput
        } else if name == "mission_envelope_recorded"@ {
            EventKindModel::MissionEnvelopeRecorded
        } else if name == "origin_notification_target_recorded"@ {
            EventKindModel::OriginNotificationTargetRecorded
        } else if name == "progress"@ {
            EventKindModel::Progress
        } else if name == "replan_apply_completed"@ {
            EventKindModel::ReplanApplyCompleted
        } else if name == "replan_apply_incomplete"@ {
            EventKindModel::ReplanApplyIncomplete
        } else if name == "replan_apply_refused"@ {
            EventKindModel::ReplanApplyRefused
        } else if name == "replan_apply_started"@ {
            EventKindModel::ReplanApplyStarted
        } else if name == "replan_proposal_created"@ {
            EventKindModel::ReplanProposalCreated
        } else if name == "repair_authority_proposal_created"@ {
            EventKindModel::RepairAuthorityProposalCreated
        } else if name == "run_launch_activated"@ {
            EventKindModel::RunLaunchActivated
        } else if name == "run_launch_compensated"@ {
            EventKindModel::RunLaunchCompensated
        } else if name == "run_launch_compensation_failed"@ {
            EventKindModel::RunLaunchCompensationFailed
        } else if name == "run_launch_completed"@ {
            EventKindModel::RunLaunchCompleted
        } else if name == "run_launch_failed"@ {
            EventKindModel::RunLaunchFailed
        } else if name == "run_launch_integration_resources_created"@ {
            EventKindModel::RunLaunchIntegrationResourcesCreated
        } else if name == "run_launch_interrupted"@ {
            EventKindModel::RunLaunchInterrupted
        } else if name == "run_launch_prepared"@ {
            EventKindModel::RunLaunchPrepared
        } else if name == "run_launch_transitioned"@ {
            EventKindModel::RunLaunchTransitioned
        } else if name == "run_resumed"@ {
            EventKindModel::RunResumed
        } else if name == "slice_merge_conflict"@ {
            EventKindModel::SliceMergeConflict
        } else if name == "slice_merged"@ {
            EventKindModel::SliceMerged
        } else if name == "slice_repair_completed"@ {
            EventKindModel::SliceRepairCompleted
        } else if name == "terminal_transition_intended"@ {
            EventKindModel::TerminalTransitionIntended
        } else if name == "worker_attempt_allocated"@ {
            EventKindModel::WorkerAttemptAllocated
        } else if name == "worker_attempt_finished"@ {
            EventKindModel::WorkerAttemptFinished
        } else if name == "worker_attempt_interrupted"@ {
            EventKindModel::WorkerAttemptInterrupted
        } else if name == "worker_attempt_launched"@ {
            EventKindModel::WorkerAttemptLaunched
        } else if name == "worker_questions_interrupted"@ {
            EventKindModel::WorkerQuestionsInterrupted
        } else if name == "worker_question_interrupted"@ {
            EventKindModel::WorkerQuestionInterrupted
        } else if name == "worktree_cleanup_error"@ {
            EventKindModel::WorktreeCleanupError
        } else if name == "worktree_setup_completed"@ {
            EventKindModel::WorktreeSetupCompleted
        } else if name == "worktree_setup_failed"@ {
            EventKindModel::WorktreeSetupFailed
        } else {
            EventKindModel::Unknown(name)
        }
    }
}

impl EventKind {
    pub fn as_str(&self) -> (r: &str)
        ensures
            r@ == self@.text(),
    {
        match self {
            EventKind::AttentionFocusSent => "attention_focus_sent",
            EventKind::AttentionNotificationSent => "attention_notification_sent",
            EventKind::CheckpointWritten => "checkpoint_written",
            EventKind::CockpitReady => "cockpit_ready",
            EventKind::CockpitWorkerReady => "cockpit_worker_ready",
            EventKind::FrontierAutoAcceptRecorded => "frontier_auto_accept_recorded",
            EventKind::FrontierClassified => "frontier_classified",
            EventKind::ImplementationSummary => "implementation_summary",
            EventKind::IntegrationRepairCompleted => "integration_repair_completed",
            EventKind::ParallelLayerCompleted => "parallel_layer_completed",
            EventKind::ParallelLayerFailed => "parallel_layer_failed",
            EventKind::ParallelLayerStarted => "parallel_layer_started",
            EventKind::RunCancelRequested => "run_cancel_requested",
            EventKind::RunCancelled => "run_cancelled",
            EventKind::RunCompleted => "run_completed",
            EventKind::RunError => "run_error",
            EventKind::RunIncident => "run_incident",
            EventKind::RunStarted => "run_started",
            EventKind::ReplanProposalDecided => "replan_proposal_decided",
            EventKind::ReplanCheckpointBlocked => "replan_checkpoint_blocked",
            EventKind::SliceStarted => "slice_started",
            EventKind::TerminalNotificationSent => "terminal_notification_sent",
            EventKind::TerminalNotificationSkipped => "terminal_notification_skipped",
            EventKind::TerminalSummaryWritten => "terminal_summary_written",
            EventKind::WorkerAttemptFailure => "worker_attempt_failure",
            EventKind::WorkerAttemptTimeout => "worker_attempt_timeout",
            EventKind::WorkerError => "worker_error",
            EventKind::WorkerEnvelopeRetrySucceeded => "worker_envelope_retry_succeeded",
            EventKind::WorkerQuestionAnswered => "worker_question_answered",
            EventKind::WorkerQuestionAsked => "worker_question_asked",
            EventKind::WorktreesCleaned => "worktrees_cleaned",
            EventKind::AttentionFocusFailed => "attention_focus_failed",
            EventKind::AttentionNotificationFailed => "attention_notification_failed",
            EventKind::AttentionNotificationRecordFailed => "attention_notification_record_failed",
            EventKind::CandidateFollowupSliceReplanProposalCreated => "candidate_followup_slice_replan_proposal_created",
            EventKind::CockpitWorkerRenamed => "cockpit_worker_renamed",
            EventKind::CompletionPublicationCommitted => "completion_publication_committed",
            EventKind::DaemonRecoveryCleanupError => "daemon_recovery_cleanup_error",
            EventKind::DaemonRecoveryCompleted => "daemon_recovery_completed",
            EventKind::DaemonRecoveryStarted => "daemon_recovery_started",
            EventKind::FindingReplanProposalCreated => "finding_replan_proposal_created",
            EventKind::FrontierAutoAcceptSkipped => "frontier_auto_accept_skipped",
            EventKind::FrontierAutoAcceptStopped => "frontier_auto_accept_stopped",
            EventKind::FrontierSlicePromoted => "frontier_slice_promoted",
            EventKind::IntegrationGateCancelled => "integration_gate_cancelled",
            EventKind::IntegrationMergeApplied => "integration_merge_applied",
            EventKind::IntegrationMergePrepared => "integration_merge_prepared",
            EventKind::IntegrationMergeReconciled => "integration_merge_reconciled",
            EventKind::IntegrationMergeReprepared => "integration_merge_reprepared",
            EventKind::InvalidWorkerOutput => "invalid_worker_output",
            EventKind::MissionEnvelopeRecorded => "mission_envelope_recorded",
            EventKind::OriginNotificationTargetRecorded => "origin_notification_target_recorded",
            EventKind::Progress => "progress",
            EventKind::ReplanApplyCompleted => "replan_apply_completed",
            EventKind::ReplanApplyIncomplete => "replan_apply_incomplete",
            EventKind::ReplanApplyRefused => "replan_apply_refused",
            EventKind::ReplanApplyStarted => "replan_apply_started",
            EventKind::ReplanProposalCreated => "replan_proposal_created",
            EventKind::RepairAuthorityProposalCreated => "repair_authority_proposal_created",
            EventKind::RunLaunchActivated => "run_launch_activated",
            EventKind::RunLaunchCompensated => "run_launch_compensated",
            EventKind::RunLaunchCompensationFailed => "run_launch_compensation_failed",
            EventKind::RunLaunchCompleted => "run_launch_completed",
            EventKind::RunLaunchFailed => "run_launch_failed",
            EventKind::RunLaunchIntegrationResourcesCreated => "run_launch_integration_resources_created",
            EventKind::RunLaunchInterrupted => "run_launch_interrupted",
            EventKind::RunLaunchPrepared => "run_launch_prepared",
            EventKind::RunLaunchTransitioned => "run_launch_transitioned",
            EventKind::RunResumed => "run_resumed",
            EventKind::SliceMergeConflict => "slice_merge_conflict",
            EventKind::SliceMerged => "slice_merged",
            EventKind::SliceRepairCompleted => "slice_repair_completed",
            EventKind::TerminalTransitionIntended => "terminal_transition_intended",
            EventKind::WorkerAttemptAllocated => "worker_attempt_allocated",
            EventKind::WorkerAttemptFinished => "worker_attempt_finished",
            EventKind::WorkerAttemptInterrupted => "worker_attempt_interrupted",
            EventKind::WorkerAttemptLaunched => "worker_attempt_launched",
            EventKind::WorkerQuestionsInterrupted => "worker_questions_interrupted",
            EventKind::WorkerQuestionInterrupted => "worker_question_interrupted",
            EventKind::WorktreeCleanupError => "worktree_cleanup_error",
            EventKind::WorktreeSetupCompleted => "worktree_setup_completed",
            EventKind::WorktreeSetupFailed => "worktree_setup_failed",
            EventKind::Unknown(name) => name.as_str(),
        }
    }
}

impl vstd::std_specs::convert::FromSpecImpl<&str> for EventKind {
    open spec fn obeys_from_spec() -> bool {
        false
    }

    open spec fn from_spec(v: &str) -> EventKind {
        arbitrary()
    }
}

impl From<&str> for EventKind {
    fn from(value: &str) -> (r: Self)
        ensures
            r@ == EventKindModel::of_text(value@),
    {
        if same_text(value, "attention_focus_sent") {
            EventKind::AttentionFocusSent
        } else if same_text(value, "attention_notification_sent") {
            EventKind::AttentionNotificationSent
        } else if same_text(value, "checkpoint_written") {
            EventKind::CheckpointWritten
        } else if same_text(value, "cockpit_ready") {
            EventKind::CockpitReady
        } else if same_text(value, "cockpit_worker_ready") {
            EventKind::CockpitWorkerReady
        } else if same_text(value, "frontier_auto_accept_recorded") {
            EventKind::FrontierAutoAcceptRecorded
        } else if same_text(value, "frontier_classified") {
            EventKind::FrontierClassified
        } else if same_text(value, "implementation_summary") {
            EventKind::ImplementationSummary
        } else if same_text(value, "integration_repair_completed") {
            EventKind::IntegrationRepairCompleted
        } else if same_text(value, "parallel_layer_completed") {
            EventKind::ParallelLayerCompleted
        } else if same_text(value, "parallel_layer_failed") {
            EventKind::ParallelLayerFailed
        } else if same_text(value, "parallel_layer_started") {
            EventKind::ParallelLayerStarted
        } else if same_text(value, "run_cancel_requested") {
            EventKind::RunCancelRequested
        } else if same_text(value, "run_cancelled") {
            EventKind::RunCancelled
        } else if same_text(value, "run_completed") {
            EventKind::RunCompleted
        } else if same_text(value, "run_error") {
            EventKind::RunError
        } else if same_text(value, "run_incident") {
            EventKind::RunIncident
        } else if same_text(value, "run_started") {
            EventKind::RunStarted
        } else if same_text(value, "replan_proposal_decided") {
            EventKind::ReplanProposalDecided
        } else if same_text(value, "replan_checkpoint_blocked") {
            EventKind::ReplanCheckpointBlocked
        } else if same_text(value, "slice_started") {
            EventKind::SliceStarted
        } else if same_text(value, "terminal_notification_sent") {
            EventKind::TerminalNotificationSent
        } else if same_text(value, "terminal_notification_skipped") {
            EventKind::TerminalNotificationSkipped
        } else if same_text(value, "terminal_summary_written") {
            EventKind::TerminalSummaryWritten
        } else if same_text(value, "worker_attempt_failure") {
            EventKind::WorkerAttemptFailure
        } else if same_text(value, "worker_attempt_timeout") {
            EventKind::WorkerAttemptTimeout
        } else if same_text(value, "worker_error") {
            EventKind::WorkerError
        } else if same_text(value, "worker_envelope_retry_succeeded") {
            EventKind::WorkerEnvelopeRetrySucceeded
        } else if same_text(value, "worker_question_answered") {
            EventKind::WorkerQuestionAnswered
        } else if same_text(value, "worker_question_asked") {
            EventKind::WorkerQuestionAsked
        } else if same_text(value, "worktrees_cleaned") {
            EventKind::WorktreesCleaned
        } else if same_text(value, "attention_focus_failed") {
            EventKind::AttentionFocusFailed
        } else if same_text(value, "attention_notification_failed") {
            EventKind::AttentionNotificationFailed
        } else if same_text(value, "attention_notification_record_failed") {
            EventKind::AttentionNotificationRecordFailed
        } else if same_text(value, "candidate_followup_slice_replan_proposal_created") {
            EventKind::CandidateFollowupSliceReplanProposalCreated
        } else if same_text(value, "cockpit_worker_renamed") {
            EventKind::CockpitWorkerRenamed
        } else if same_text(value, "completion_publication_committed") {
            EventKind::CompletionPublicationCommitted
        } else if same_text(value, "daemon_recovery_cleanup_error") {
            EventKind::DaemonRecoveryCleanupError
        } else if same_text(value, "daemon_recovery_completed") {
            EventKind::DaemonRecoveryCompleted
        } else if same_text(value, "daemon_recovery_started") {
            EventKind::DaemonRecoveryStarted
        } else if same_text(value, "finding_replan_proposal_created") {
            EventKind::FindingReplanProposalCreated
        } else if same_text(value, "frontier_auto_accept_skipped") {
            EventKind::FrontierAutoAcceptSkipped
        } else if same_text(value, "frontier_auto_accept_stopped") {
            EventKind::FrontierAutoAcceptStopped
        } else if same_text(value, "frontier_slice_promoted") {
            EventKind::FrontierSlicePromoted
        } else if same_text(value, "integration_gate_cancelled") {
            EventKind::IntegrationGateCancelled
        } else if same_text(value, "integration_merge_applied") {
            EventKind::IntegrationMergeApplied
        } else if same_text(value, "integration_merge_prepared") {
            EventKind::IntegrationMergePrepared
        } else if same_text(value, "integration_merge_reconciled") {
            EventKind::IntegrationMergeReconciled
        } else if same_text(value, "integration_merge_reprepared") {
            EventKind::IntegrationMergeReprepared
        } else if same_text(value, "invalid_worker_output") {
            EventKind::InvalidWorkerOutput
        } else if same_text(value, "mission_envelope_recorded") {
            EventKind::MissionEnvelopeRecorded
        } else if same_text(value, "origin_notification_target_recorded") {
            EventKind::OriginNotificationTargetRecorded
        } else if same_text(value, "progress") {
            EventKind::Progress
        } else if same_text(value, "replan_apply_completed") {
            EventKind::ReplanApplyCompleted
        } else if same_text(value, "replan_apply_incomplete") {
            EventKind::ReplanApplyIncomplete
        } else if same_text(value, "replan_apply_refused") {
            EventKind::ReplanApplyRefused
        } else if same_text(value, "replan_apply_started") {
            EventKind::ReplanApplyStarted
        } else if same_text(value, "replan_proposal_created") {
            EventKind::ReplanProposalCreated
        } else if same_text(value, "repair_authority_proposal_created") {
            EventKind::RepairAuthorityProposalCreated
        } else if same_text(value, "run_launch_activated") {
            EventKind::RunLaunchActivated
        } else if same_text(value, "run_launch_compensated") {
            EventKind::RunLaunchCompensated
        } else if same_text(value, "run_launch_compensation_failed") {
            EventKind::RunLaunchCompensationFailed
        } else if same_text(value, "run_launch_completed") {
            EventKind::RunLaunchCompleted
        } else if same_text(value, "run_launch_failed") {
            EventKind::RunLaunchFailed
        } else if same_text(value, "run_launch_integration_resources_created") {
            EventKind::RunLaunchIntegrationResourcesCreated
        } else if same_text(value, "run_launch_interrupted") {
            EventKind::RunLaunchInterrupted
        } else if same_text(value, "run_launch_prepared") {
            EventKind::RunLaunchPrepared
        } else if same_text(value, "run_launch_transitioned") {
            EventKind::RunLaunchTransitioned
        } else if same_text(value, "run_resumed") {
            EventKind::RunResumed
        } else if same_text(value, "slice_merge_conflict") {
            EventKind::SliceMergeConflict
        } else if same_text(value, "slice_merged") {
            EventKind::SliceMerged
        } else if same_text(value, "slice_repair_completed") {
            EventKind::SliceRepairCompleted
        } else if same_text(value, "terminal_transition_intended") {
            EventKind::TerminalTransitionIntended
        } else if same_text(value, "worker_attempt_allocated") {
            EventKind::WorkerAttemptAllocated
        } else if same_text(value, "worker_attempt_finished") {
            EventKind::WorkerAttemptFinished
        } else if same_text(value, "worker_attempt_interrupted") {
            EventKind::WorkerAttemptInterrupted
        } else if same_text(value, "worker_attempt_launched") {
            EventKind::WorkerAttemptLaunched
        } else if same_text(value, "worker_questions_interrupted") {
            EventKind::WorkerQuestionsInterrupted
        } else if same_text(value, "worker_question_interrupted") {
            EventKind::WorkerQuestionInterrupted
        } else if same_text(value, "worktree_cleanup_error") {
            EventKind::WorktreeCleanupError
        } else if same_text(value, "worktree_setup_completed") {
            EventKind::WorktreeSetupCompleted
        } else if same_text(value, "worktree_setup_failed") {
            EventKind::WorktreeSetupFailed
        } else {
            EventKind::Unknown(value.to_owned())
        }
    }
}

/// Length, first character and sixth character from the end: no two names of the vocabulary agree
/// in all three.
#[verifier::opaque]
spec fn fingerprint(name: Seq<char>) -> (nat, char, char) {
    (name.len(), name[0], name[name.len() - 6])
}

proof fn lemma_fingerprints()
    ensures
        fingerprint("attention_focus_sent"@) == (20nat, 'a', 's'),
        fingerprint("attention_notification_sent"@) == (27nat, 'a', 'n'),
        fingerprint("checkpoint_written"@) == (18nat, 'c', 'r'),
        fingerprint("cockpit_ready"@) == (13nat, 'c', '_'),
        fingerprint("cockpit_worker_ready"@) == (20nat, 'c', '_'),
        fingerprint("frontier_auto_accept_recorded"@) == (29nat, 'f', 'c'),
        fingerprint("frontier_classified"@) == (19nat, 'f', 's'),
        fingerprint("implementation_summary"@) == (22nat, 'i', 'u'),
        fingerprint("integration_repair_completed"@) == (28nat, 'i', 'p'),
        fingerprint("parallel_layer_completed"@) == (24nat, 'p', 'p'),
        fingerprint("parallel_layer_failed"@) == (21nat, 'p', 'f'),
        fingerprint("parallel_layer_started"@) == (22nat, 'p', 't'),
        fingerprint("run_cancel_requested"@) == (20nat, 'r', 'u'),
        fingerprint("run_cancelled"@) == (13nat, 'r', 'c'),
        fingerprint("run_completed"@) == (13nat, 'r', 'p'),
        fingerprint("run_error"@) == (9nat, 'r', '_'),
        fingerprint("run_incident"@) == (12nat, 'r', 'c'),
        fingerprint("run_started"@) == (11nat, 'r', 't'),
        fingerprint("replan_proposal_decided"@) == (23nat, 'r', 'e'),
        fingerprint("replan_checkpoint_blocked"@) == (25nat, 'r', 'l'),
        fingerprint("slice_started"@) == (13nat, 's', 't'),
        fingerprint("terminal_notification_sent"@) == (26nat, 't', 'n'),
        fingerprint("terminal_notification_skipped"@) == (29nat, 't', 'k'),
        fingerprint("terminal_summary_written"@) == (24nat, 't', 'r'),
        fingerprint("worker_attempt_failure"@) == (22nat, 'w', 'a'),
        fingerprint("worker_attempt_timeout"@) == (22nat, 'w', 'i'),
        fingerprint("worker_error"@) == (12nat, 'w', '_'),
        fingerprint("worker_envelope_retry_succeeded"@) == (31nat, 'w', 'c'),
        fingerprint("worker_question_answered"@) == (24nat, 'w', 's'),
        fingerprint("worker_question_asked"@) == (21nat, 'w', '_'),
        fingerprint("worktrees_cleaned"@) == (17nat, 'w', 'l'),
        fingerprint("attention_focus_failed"@) == (22nat, 'a', 'f'),
        fingerprint("attention_notification_failed"@) == (29nat, 'a', 'f'),
        fingerprint("attention_notification_record_failed"@) == (36nat, 'a', 'f'),
        fingerprint("candidate_followup_slice_replan_proposal_created"@) == (48nat, 'c', 'r'),
        fingerprint("cockpit_worker_renamed"@) == (22nat, 'c', 'e'),
        fingerprint("completion_publication_committed"@) == (32nat, 'c', 'm'),
        fingerprint("daemon_recovery_cleanup_error"@) == (29nat, 'd', '_'),
        fingerprint("daemon_recovery_completed"@) == (25nat, 'd', 'p'),
        fingerprint("daemon_recovery_started"@) == (23nat, 'd', 't'),
        fingerprint("finding_replan_proposal_created"@) == (31nat, 'f', 'r'),
        fingerprint("frontier_auto_accept_skipped"@) == (28nat, 'f', 'k'),
        fingerprint("frontier_auto_accept_stopped"@) == (28nat, 'f', 't'),
        fingerprint("frontier_slice_promoted"@) == (23nat, 'f', 'o'),
        fingerprint("integration_gate_cancelled"@) == (26nat, 'i', 'c'),
        fingerprint("integration_merge_applied"@) == (25nat, 'i', 'p'),
        fingerprint("integration_merge_prepared"@) == (26nat, 'i', 'e'),
        fingerprint("integration_merge_reconciled"@) == (28nat, 'i', 'n'),
        fingerprint("integration_merge_reprepared"@) == (28nat, 'i', 'e'),
        fingerprint("invalid_worker_output"@) == (21nat, 'i', 'o'),
        fingerprint("mission_envelope_recorded"@) == (25nat, 'm', 'c'),
        fingerprint("origin_notification_target_recorded"@) == (35nat, 'o', 'c'),
        fingerprint("progress"@) == (8nat, 'p', 'o'),
        fingerprint("replan_apply_completed"@) == (22nat, 'r', 'p'),
        fingerprint("replan_apply_incomplete"@) == (23nat, 'r', 'm'),
        fingerprint("replan_apply_refused"@) == (20nat, 'r', 'e'),
        fingerprint("replan_apply_started"@) == (20nat, 'r', 't'),
        fingerprint("replan_proposal_created"@) == (23nat, 'r', 'r'),
        fingerprint("repair_authority_proposal_created"@) == (33nat, 'r', 'r'),
        fingerprint("run_launch_activated"@) == (20nat, 'r', 'i'),
        fingerprint("run_launch_compensated"@) == (22nat, 'r', 'n'),
        fingerprint("run_launch_compensation_failed"@) == (30nat, 'r', 'f'),
        fingerprint("run_launch_completed"@) == (20nat, 'r', 'p'),
        fingerprint("run_launch_failed"@) == (17nat, 'r', 'f'),
        fingerprint("run_launch_integration_resources_created"@) == (40nat, 'r', 'r'),
        fingerprint("run_launch_interrupted"@) == (22nat, 'r', 'r'),
        fingerprint("run_launch_prepared"@) == (19nat, 'r', 'e'),
        fingerprint("run_launch_transitioned"@) == (23nat, 'r', 't'),
        fingerprint("run_resumed"@) == (11nat, 'r', 'e'),
        fingerprint("slice_merge_conflict"@) == (20nat, 's', 'n'),
        fingerprint("slice_merged"@) == (12nat, 's', 'm'),
        fingerprint("slice_repair_completed"@) == (22nat, 's', 'p'),
        fingerprint("terminal_transition_intended"@) == (28nat, 't', 't'),
        fingerprint("worker_attempt_allocated"@) == (24nat, 'w', 'o'),
        fingerprint("worker_attempt_finished"@) == (23nat, 'w', 'n'),
        fingerprint("worker_attempt_interrupted"@) == (26nat, 'w', 'r'),
        fingerprint("worker_attempt_launched"@) == (23nat, 'w', 'u'),
        fingerprint("worker_questions_interrupted"@) == (28nat, 'w', 'r'),
        fingerprint("worker_question_interrupted"@) == (27nat, 'w', 'r'),
        fingerprint("worktree_cleanup_error"@) == (22nat, 'w', '_'),
        fingerprint("worktree_setup_completed"@) == (24nat, 'w', 'p'),
        fingerprint("worktree_setup_failed"@) == (21nat, 'w', 'f'),
{
    reveal(fingerprint);
    assert(fingerprint("attention_focus_sent"@) == (20nat, 'a', 's')) by {
        reveal_strlit("attention_focus_sent");
    }
    assert(fingerprint("attention_notification_sent"@) == (27nat, 'a', 'n')) by {
        reveal_strlit("attention_notification_sent");
    }
    assert(fingerprint("checkpoint_written"@) == (18nat, 'c', 'r')) by {
        reveal_strlit("checkpoint_written");
    }
    assert(fingerprint("cockpit_ready"@) == (13nat, 'c', '_')) by {
        reveal_strlit("cockpit_ready");
    }
    assert(fingerprint("cockpit_worker_ready"@) == (20nat, 'c', '_')) by {
        reveal_strlit("cockpit_worker_ready");
    }
    assert(fingerprint("frontier_auto_accept_recorded"@) == (29nat, 'f', 'c')) by {
        reveal_strlit("frontier_auto_accept_recorded");
    }
    assert(fingerprint("frontier_classified"@) == (19nat, 'f', 's')) by {
        reveal_strlit("frontier_classified");
    }
    assert(fingerprint("implementation_summary"@) == (22nat, 'i', 'u')) by {
        reveal_strlit("implementation_summary");
    }
    assert(fingerprint("integration_repair_completed"@) == (28nat, 'i', 'p')) by {
        reveal_strlit("integration_repair_completed");
    }
    assert(fingerprint("parallel_layer_completed"@) == (24nat, 'p', 'p')) by {
        reveal_strlit("parallel_layer_completed");
    }
    assert(fingerprint("parallel_layer_failed"@) == (21nat, 'p', 'f')) by {
        reveal_strlit("parallel_layer_failed");
    }
    assert(fingerprint("parallel_layer_started"@) == (22nat, 'p', 't')) by {
        reveal_strlit("parallel_layer_started");
    }
    assert(fingerprint("run_cancel_requested"@) == (20nat, 'r', 'u')) by {
        reveal_strlit("run_cancel_requested");
    }
    assert(fingerprint("run_cancelled"@) == (13nat, 'r', 'c')) by {
        reveal_strlit("run_cancelled");
    }
    assert(fingerprint("run_completed"@) == (13nat, 'r', 'p')) by {
        reveal_strlit("run_completed");
    }
    assert(fingerprint("run_error"@) == (9nat, 'r', '_')) by {
        reveal_strlit("run_error");
    }
    assert(fingerprint("run_incident"@) == (12nat, 'r', 'c')) by {
        reveal_strlit("run_incident");
    }
    assert(fingerprint("run_started"@) == (11nat, 'r', 't')) by {
        reveal_strlit("run_started");
    }
    assert(fingerprint("replan_proposal_decided"@) == (23nat, 'r', 'e')) by {
        reveal_strlit("replan_proposal_decided");
    }
    assert(fingerprint("replan_checkpoint_blocked"@) == (25nat, 'r', 'l')) by {
        reveal_strlit("replan_checkpoint_blocked");
    }
    assert(fingerprint("slice_started"@) == (13nat, 's', 't')) by {
        reveal_strlit("slice_started");
    }
    assert(fingerprint("terminal_notification_sent"@) == (26nat, 't', 'n')) by {
        reveal_strlit("terminal_notification_sent");
    }
    assert(fingerprint("terminal_notification_skipped"@) == (29nat, 't', 'k')) by {
        reveal_strlit("terminal_notification_skipped");
    }
    assert(fingerprint("terminal_summary_written"@) == (24nat, 't', 'r')) by {
        reveal_strlit("terminal_summary_written");
    }
    assert(fingerprint("worker_attempt_failure"@) == (22nat, 'w', 'a')) by {
        reveal_strlit("worker_attempt_failure");
    }
    assert(fingerprint("worker_attempt_timeout"@) == (22nat, 'w', 'i')) by {
        reveal_strlit("worker_attempt_timeout");
    }
    assert(fingerprint("worker_error"@) == (12nat, 'w', '_')) by {
        reveal_strlit("worker_error");
    }
    assert(fingerprint("worker_envelope_retry_succeeded"@) == (31nat, 'w', 'c')) by {
        reveal_strlit("worker_envelope_retry_succeeded");
    }
    assert(fingerprint("worker_question_answered"@) == (24nat, 'w', 's')) by {
        reveal_strlit("worker_question_answered");
    }
    assert(fingerprint("worker_question_asked"@) == (21nat, 'w', '_')) by {
        reveal_strlit("worker_question_asked");
    }
    assert(fingerprint("worktrees_cleaned"@) == (17nat, 'w', 'l')) by {
        reveal_strlit("worktrees_cleaned");
    }
    assert(fingerprint("attention_focus_failed"@) == (22nat, 'a', 'f')) by {
        reveal_strlit("attention_focus_failed");
    }
    assert(fingerprint("attention_notification_failed"@) == (29nat, 'a', 'f')) by {
        reveal_strlit("attention_notification_failed");
    }
    assert(fingerprint("attention_notification_record_failed"@) == (36nat, 'a', 'f')) by {
        reveal_strlit("attention_notification_record_failed");
    }
    assert(fingerprint("candidate_followup_slice_replan_proposal_created"@) == (48nat, 'c', 'r')) by {
        reveal_strlit("candidate_followup_slice_replan_proposal_created");
    }
    assert(fingerprint("cockpit_worker_renamed"@) == (22nat, 'c', 'e')) by {
        reveal_strlit("cockpit_worker_renamed");
    }
    assert(fingerprint("completion_publication_committed"@) == (32nat, 'c', 'm')) by {
        reveal_strlit("completion_publication_committed");
    }
    assert(fingerprint("daemon_recovery_cleanup_error"@) == (29nat, 'd', '_')) by {
        reveal_strlit("daemon_recovery_cleanup_error");
    }
    assert(fingerprint("daemon_recovery_completed"@) == (25nat, 'd', 'p')) by {
        reveal_strlit("daemon_recovery_completed");
    }
    assert(fingerprint("daemon_recovery_started"@) == (23nat, 'd', 't')) by {
        reveal_strlit("daemon_recovery_started");
    }
    assert(fingerprint("finding_replan_proposal_created"@) == (31nat, 'f', 'r')) by {
        reveal_strlit("finding_replan_proposal_created");
    }
    assert(fingerprint("frontier_auto_accept_skipped"@) == (28nat, 'f', 'k')) by {
        reveal_strlit("frontier_auto_accept_skipped");
    }
    assert(fingerprint("frontier_auto_accept_stopped"@) == (28nat, 'f', 't')) by {
        reveal_strlit("frontier_auto_accept_stopped");
    }
    assert(fingerprint("frontier_slice_promoted"@) == (23nat, 'f', 'o')) by {
        reveal_strlit("frontier_slice_promoted");
    }
    assert(fingerprint("integration_gate_cancelled"@) == (26nat, 'i', 'c')) by {
        reveal_strlit("integration_gate_cancelled");
    }
    assert(fingerprint("integration_merge_applied"@) == (25nat, 'i', 'p')) by {
        reveal_strlit("integration_merge_applied");
    }
    assert(fingerprint("integration_merge_prepared"@) == (26nat, 'i', 'e')) by {
        reveal_strlit("integration_merge_prepared");
    }
    assert(fingerprint("integration_merge_reconciled"@) == (28nat, 'i', 'n')) by {
        reveal_strlit("integration_merge_reconciled");
    }
    assert(fingerprint("integration_merge_reprepared"@) == (28nat, 'i', 'e')) by {
        reveal_strlit("integration_merge_reprepared");
    }
    assert(fingerprint("invalid_worker_output"@) == (21nat, 'i', 'o')) by {
        reveal_strlit("invalid_worker_output");
    }
    assert(fingerprint("mission_envelope_recorded"@) == (25nat, 'm', 'c')) by {
        reveal_strlit("mission_envelope_recorded");
    }
    assert(fingerprint("origin_notification_target_recorded"@) == (35nat, 'o', 'c')) by {
        reveal_strlit("origin_notification_target_recorded");
    }
    assert(fingerprint("progress"@) == (8nat, 'p', 'o')) by {
        reveal_strlit("progress");
    }
    assert(fingerprint("replan_apply_completed"@) == (22nat, 'r', 'p')) by {
        reveal_strlit("replan_apply_completed");
    }
    assert(fingerprint("replan_apply_incomplete"@) == (23nat, 'r', 'm')) by {
        reveal_strlit("replan_apply_incomplete");
    }
    assert(fingerprint("replan_apply_refused"@) == (20nat, 'r', 'e')) by {
        reveal_strlit("replan_apply_refused");
    }
    assert(fingerprint("replan_apply_started"@) == (20nat, 'r', 't')) by {
        reveal_strlit("replan_apply_started");
    }
    assert(fingerprint("replan_proposal_created"@) == (23nat, 'r', 'r')) by {
        reveal_strlit("replan_proposal_created");
    }
    assert(fingerprint("repair_authority_proposal_created"@) == (33nat, 'r', 'r')) by {
        reveal_strlit("repair_authority_proposal_created");
    }
    assert(fingerprint("run_launch_activated"@) == (20nat, 'r', 'i')) by {
        reveal_strlit("run_launch_activated");
    }
    assert(fingerprint("run_launch_compensated"@) == (22nat, 'r', 'n')) by {
        reveal_strlit("run_launch_compensated");
    }
    assert(fingerprint("run_launch_compensation_failed"@) == (30nat, 'r', 'f')) by {
        reveal_strlit("run_launch_compensation_failed");
    }
    assert(fingerprint("run_launch_completed"@) == (20nat, 'r', 'p')) by {
        reveal_strlit("run_launch_completed");
    }
    assert(fingerprint("run_launch_failed"@) == (17nat, 'r', 'f')) by {
        reveal_strlit("run_launch_failed");
    }
    assert(fingerprint("run_launch_integration_resources_created"@) == (40nat, 'r', 'r')) by {
        reveal_strlit("run_launch_integration_resources_created");
    }
    assert(fingerprint("run_launch_interrupted"@) == (22nat, 'r', 'r')) by {
        reveal_strlit("run_launch_interrupted");
    }
    assert(fingerprint("run_launch_prepared"@) == (19nat, 'r', 'e')) by {
        reveal_strlit("run_launch_prepared");
    }
    assert(fingerprint("run_launch_transitioned"@) == (23nat, 'r', 't')) by {
        reveal_strlit("run_launch_transitioned");
    }
    assert(fingerprint("run_resumed"@) == (11nat, 'r', 'e')) by {
        reveal_strlit("run_resumed");
    }
    assert(fingerprint("slice_merge_conflict"@) == (20nat, 's', 'n')) by {
        reveal_strlit("slice_merge_conflict");
    }
    assert(fingerprint("slice_merged"@) == (12nat, 's', 'm')) by {
        reveal_strlit("slice_merged");
    }
    assert(fingerprint("slice_repair_completed"@) == (22nat, 's', 'p')) by {
        reveal_strlit("slice_repair_completed");
    }
    assert(fingerprint("terminal_transition_intended"@) == (28nat, 't', 't')) by {
        reveal_strlit("terminal_transition_intended");
    }
    assert(fingerprint("worker_attempt_allocated"@) == (24nat, 'w', 'o')) by {
        reveal_strlit("worker_attempt_allocated");
    }
    assert(fingerprint("worker_attempt_finished"@) == (23nat, 'w', 'n')) by {
        reveal_strlit("worker_attempt_finished");
    }
    assert(fingerprint("worker_attempt_interrupted"@) == (26nat, 'w', 'r')) by {
        reveal_strlit("worker_attempt_interrupted");
    }
    assert(fingerprint("worker_attempt_launched"@) == (23nat, 'w', 'u')) by {
        reveal_strlit("worker_attempt_launched");
    }
    assert(fingerprint("worker_questions_interrupted"@) == (28nat, 'w', 'r')) by {
        reveal_strlit("worker_questions_interrupted");
    }
    assert(fingerprint("worker_question_interrupted"@) == (27nat, 'w', 'r')) by {
        reveal_strlit("worker_question_interrupted");
    }
    assert(fingerprint("worktree_cleanup_error"@) == (22nat, 'w', '_')) by {
        reveal_strlit("worktree_cleanup_error");
    }
    assert(fingerprint("worktree_setup_completed"@) == (24nat, 'w', 'p')) by {
        reveal_strlit("worktree_setup_completed");
    }
    assert(fingerprint("worktree_setup_failed"@) == (21nat, 'w', 'f')) by {
        reveal_strlit("worktree_setup_failed");
    }
}

/// A name always survives: the kind that stands for it has that name.
pub proof fn law_event_name_is_preserved(name: Seq<char>)
    ensures
        EventKindModel::of_text(name).text() == name,
{
}

/// Every kind of the vocabulary is read back from its own name.
pub proof fn law_event_kind_round_trip(kind: EventKindModel)
    requires
        !(kind is Unknown),
    ensures
        EventKindModel::of_text(kind.text()) == kind,
{
    lemma_fingerprints();
}

} // verus!
