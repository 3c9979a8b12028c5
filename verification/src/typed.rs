//! Payloads that belong to one kind of event.
use crate::domain::RunProgress;
use crate::event_kind::{EventKind, EventKindModel};
use crate::events::RunStartedPayload;
use crate::payloads::{
    CockpitReadyPayload, CockpitWorkerReadyPayload, CockpitWorkerRenamedPayload,
    DaemonRecoveryCompletedPayload, DaemonRecoveryStartedPayload,
    FrontierAutoAcceptRecordedPayload, FrontierClassifiedPayload, FrontierSlicePromotedPayload,
    ImplementationSummaryPayload, IntegrationRepairCompletedPayload, InvalidWorkerOutputPayload,
    MissionEnvelopeRecordedPayload, OriginNotificationTargetRecordedPayload,
    ReplanApplyStartedPayload, ReplanCheckpointBlockedPayload, ReplanProposalCreatedPayload,
    ReplanProposalDecidedPayload, RunCancelRequestedPayload, RunCancelledPayload,
    RunCompletedPayload, RunErrorPayload, RunIncidentPayload, RunLaunchInterruptedPayload,
    RunResumedPayload, SliceMergedPayload, SliceRepairCompletedPayload, SliceStartedPayload,
    TerminalSummaryWrittenPayload, TerminalTransitionIntendedPayload,
    WorkerAttemptAllocatedPayload, WorkerAttemptFailurePayload, WorkerAttemptFinishedPayload,
    WorkerAttemptInterruptedPayload, WorkerAttemptLaunchedPayload, WorkerAttemptTimeoutPayload,
    WorkerEnvelopeRetrySucceededPayload, WorkerErrorPayload, WorkerQuestionAnsweredPayload,
    WorkerQuestionAskedPayload, WorkerQuestionInterruptedPayload,
    WorkerQuestionsInterruptedPayload, WorktreeCleanupErrorPayload, WorktreesCleanedPayload,
};
use vstd::prelude::*;

verus! {

/// A payload whose events are all of one kind.
pub trait TypedEventPayload {
    spec fn kind_of_events() -> EventKindModel;

    fn event_kind() -> (r: EventKind)
        ensures
            r@ == Self::kind_of_events(),
    ;
}

impl TypedEventPayload for OriginNotificationTargetRecordedPayload {
    open spec fn kind_of_events() -> EventKindModel {
        EventKindModel::OriginNotificationTargetRecorded
    }

    fn event_kind() -> (r: EventKind) {
        EventKind::OriginNotificationTargetRecorded
    }
}

impl TypedEventPayload for MissionEnvelopeRecordedPayload {
    open spec fn kind_of_events() -> EventKindModel {
        EventKindModel::MissionEnvelopeRecorded
    }

    fn event_kind() -> (r: EventKind) {
        EventKind::MissionEnvelopeRecorded
    }
}

impl TypedEventPayload for RunStartedPayload {
    open spec fn kind_of_events() -> EventKindModel {
        EventKindModel::RunStarted
    }

    fn event_kind() -> (r: EventKind) {
        EventKind::RunStarted
    }
}

impl TypedEventPayload for RunProgress {
    open spec fn kind_of_events() -> EventKindModel {
        EventKindModel::Progress
    }

    fn event_kind() -> (r: EventKind) {
        EventKind::Progress
    }
}

impl TypedEventPayload for RunIncidentPayload {
    open spec fn kind_of_events() -> EventKindModel {
        EventKindModel::RunIncident
    }

    fn event_kind() -> (r: EventKind) {
        EventKind::RunIncident
    }
}

impl TypedEventPayload for RunLaunchInterruptedPayload {
    open spec fn kind_of_events() -> EventKindModel {
        EventKindModel::RunLaunchInterrupted
    }

    fn event_kind() -> (r: EventKind) {
        EventKind::RunLaunchInterrupted
    }
}

impl TypedEventPayload for SliceMergedPayload {
    open spec fn kind_of_events() -> EventKindModel {
        EventKindModel::SliceMerged
    }

    fn event_kind() -> (r: EventKind) {
        EventKind::SliceMerged
    }
}

impl TypedEventPayload for WorkerAttemptAllocatedPayload {
    open spec fn kind_of_events() -> EventKindModel {
        EventKindModel::WorkerAttemptAllocated
    }

    fn event_kind() -> (r: EventKind) {
        EventKind::WorkerAttemptAllocated
    }
}

impl TypedEventPayload for WorkerAttemptLaunchedPayload {
    open spec fn kind_of_events() -> EventKindModel {
        EventKindModel::WorkerAttemptLaunched
    }

    fn event_kind() -> (r: EventKind) {
        EventKind::WorkerAttemptLaunched
    }
}

impl TypedEventPayload for WorkerAttemptFinishedPayload {
    open spec fn kind_of_events() -> EventKindModel {
        EventKindModel::WorkerAttemptFinished
    }

    fn event_kind() -> (r: EventKind) {
        EventKind::WorkerAttemptFinished
    }
}

impl TypedEventPayload for WorkerAttemptInterruptedPayload {
    open spec fn kind_of_events() -> EventKindModel {
        EventKindModel::WorkerAttemptInterrupted
    }

    fn event_kind() -> (r: EventKind) {
        EventKind::WorkerAttemptInterrupted
    }
}

impl TypedEventPayload for TerminalTransitionIntendedPayload {
    open spec fn kind_of_events() -> EventKindModel {
        EventKindModel::TerminalTransitionIntended
    }

    fn event_kind() -> (r: EventKind) {
        EventKind::TerminalTransitionIntended
    }
}

impl TypedEventPayload for WorkerQuestionInterruptedPayload {
    open spec fn kind_of_events() -> EventKindModel {
        EventKindModel::WorkerQuestionInterrupted
    }

    fn event_kind() -> (r: EventKind) {
        EventKind::WorkerQuestionInterrupted
    }
}

impl TypedEventPayload for WorktreesCleanedPayload {
    open spec fn kind_of_events() -> EventKindModel {
        EventKindModel::WorktreesCleaned
    }

    fn event_kind() -> (r: EventKind) {
        EventKind::WorktreesCleaned
    }
}

impl TypedEventPayload for RunResumedPayload {
    open spec fn kind_of_events() -> EventKindModel {
        EventKindModel::RunResumed
    }

    fn event_kind() -> (r: EventKind) {
        EventKind::RunResumed
    }
}

impl TypedEventPayload for DaemonRecoveryStartedPayload {
    open spec fn kind_of_events() -> EventKindModel {
        EventKindModel::DaemonRecoveryStarted
    }

    fn event_kind() -> (r: EventKind) {
        EventKind::DaemonRecoveryStarted
    }
}

impl TypedEventPayload for DaemonRecoveryCompletedPayload {
    open spec fn kind_of_events() -> EventKindModel {
        EventKindModel::DaemonRecoveryCompleted
    }

    fn event_kind() -> (r: EventKind) {
        EventKind::DaemonRecoveryCompleted
    }
}

impl TypedEventPayload for WorkerQuestionsInterruptedPayload {
    open spec fn kind_of_events() -> EventKindModel {
        EventKindModel::WorkerQuestionsInterrupted
    }

    fn event_kind() -> (r: EventKind) {
        EventKind::WorkerQuestionsInterrupted
    }
}

impl TypedEventPayload for RunCancelRequestedPayload {
    open spec fn kind_of_events() -> EventKindModel {
        EventKindModel::RunCancelRequested
    }

    fn event_kind() -> (r: EventKind) {
        EventKind::RunCancelRequested
    }
}

impl TypedEventPayload for RunCancelledPayload {
    open spec fn kind_of_events() -> EventKindModel {
        EventKindModel::RunCancelled
    }

    fn event_kind() -> (r: EventKind) {
        EventKind::RunCancelled
    }
}

impl TypedEventPayload for RunCompletedPayload {
    open spec fn kind_of_events() -> EventKindModel {
        EventKindModel::RunCompleted
    }

    fn event_kind() -> (r: EventKind) {
        EventKind::RunCompleted
    }
}

impl TypedEventPayload for CockpitReadyPayload {
    open spec fn kind_of_events() -> EventKindModel {
        EventKindModel::CockpitReady
    }

    fn event_kind() -> (r: EventKind) {
        EventKind::CockpitReady
    }
}

impl TypedEventPayload for CockpitWorkerReadyPayload {
    open spec fn kind_of_events() -> EventKindModel {
        EventKindModel::CockpitWorkerReady
    }

    fn event_kind() -> (r: EventKind) {
        EventKind::CockpitWorkerReady
    }
}

impl TypedEventPayload for SliceStartedPayload {
    open spec fn kind_of_events() -> EventKindModel {
        EventKindModel::SliceStarted
    }

    fn event_kind() -> (r: EventKind) {
        EventKind::SliceStarted
    }
}

impl TypedEventPayload for IntegrationRepairCompletedPayload {
    open spec fn kind_of_events() -> EventKindModel {
        EventKindModel::IntegrationRepairCompleted
    }

    fn event_kind() -> (r: EventKind) {
        EventKind::IntegrationRepairCompleted
    }
}

impl TypedEventPayload for TerminalSummaryWrittenPayload {
    open spec fn kind_of_events() -> EventKindModel {
        EventKindModel::TerminalSummaryWritten
    }

    fn event_kind() -> (r: EventKind) {
        EventKind::TerminalSummaryWritten
    }
}

impl TypedEventPayload for WorktreeCleanupErrorPayload {
    open spec fn kind_of_events() -> EventKindModel {
        EventKindModel::WorktreeCleanupError
    }

    fn event_kind() -> (r: EventKind) {
        EventKind::WorktreeCleanupError
    }
}

impl TypedEventPayload for InvalidWorkerOutputPayload {
    open spec fn kind_of_events() -> EventKindModel {
        EventKindModel::InvalidWorkerOutput
    }

    fn event_kind() -> (r: EventKind) {
        EventKind::InvalidWorkerOutput
    }
}

impl TypedEventPayload for SliceRepairCompletedPayload {
    open spec fn kind_of_events() -> EventKindModel {
        EventKindModel::SliceRepairCompleted
    }

    fn event_kind() -> (r: EventKind) {
        EventKind::SliceRepairCompleted
    }
}

impl TypedEventPayload for WorkerEnvelopeRetrySucceededPayload {
    open spec fn kind_of_events() -> EventKindModel {
        EventKindModel::WorkerEnvelopeRetrySucceeded
    }

    fn event_kind() -> (r: EventKind) {
        EventKind::WorkerEnvelopeRetrySucceeded
    }
}

impl TypedEventPayload for WorkerAttemptTimeoutPayload {
    open spec fn kind_of_events() -> EventKindModel {
        EventKindModel::WorkerAttemptTimeout
    }

    fn event_kind() -> (r: EventKind) {
        EventKind::WorkerAttemptTimeout
    }
}

impl TypedEventPayload for WorkerAttemptFailurePayload {
    open spec fn kind_of_events() -> EventKindModel {
        EventKindModel::WorkerAttemptFailure
    }

    fn event_kind() -> (r: EventKind) {
        EventKind::WorkerAttemptFailure
    }
}

impl TypedEventPayload for WorkerErrorPayload {
    open spec fn kind_of_events() -> EventKindModel {
        EventKindModel::WorkerError
    }

    fn event_kind() -> (r: EventKind) {
        EventKind::WorkerError
    }
}

impl TypedEventPayload for WorkerQuestionAskedPayload {
    open spec fn kind_of_events() -> EventKindModel {
        EventKindModel::WorkerQuestionAsked
    }

    fn event_kind() -> (r: EventKind) {
        EventKind::WorkerQuestionAsked
    }
}

impl TypedEventPayload for WorkerQuestionAnsweredPayload {
    open spec fn kind_of_events() -> EventKindModel {
        EventKindModel::WorkerQuestionAnswered
    }

    fn event_kind() -> (r: EventKind) {
        EventKind::WorkerQuestionAnswered
    }
}

impl TypedEventPayload for CockpitWorkerRenamedPayload {
    open spec fn kind_of_events() -> EventKindModel {
        EventKindModel::CockpitWorkerRenamed
    }

    fn event_kind() -> (r: EventKind) {
        EventKind::CockpitWorkerRenamed
    }
}

impl TypedEventPayload for FrontierClassifiedPayload {
    open spec fn kind_of_events() -> EventKindModel {
        EventKindModel::FrontierClassified
    }

    fn event_kind() -> (r: EventKind) {
        EventKind::FrontierClassified
    }
}

impl TypedEventPayload for FrontierAutoAcceptRecordedPayload {
    open spec fn kind_of_events() -> EventKindModel {
        EventKindModel::FrontierAutoAcceptRecorded
    }

    fn event_kind() -> (r: EventKind) {
        EventKind::FrontierAutoAcceptRecorded
    }
}

impl TypedEventPayload for ReplanProposalCreatedPayload {
    open spec fn kind_of_events() -> EventKindModel {
        EventKindModel::ReplanProposalCreated
    }

    fn event_kind() -> (r: EventKind) {
        EventKind::ReplanProposalCreated
    }
}

impl TypedEventPayload for ReplanApplyStartedPayload {
    open spec fn kind_of_events() -> EventKindModel {
        EventKindModel::ReplanApplyStarted
    }

    fn event_kind() -> (r: EventKind) {
        EventKind::ReplanApplyStarted
    }
}

impl TypedEventPayload for FrontierSlicePromotedPayload {
    open spec fn kind_of_events() -> EventKindModel {
        EventKindModel::FrontierSlicePromoted
    }

    fn event_kind() -> (r: EventKind) {
        EventKind::FrontierSlicePromoted
    }
}

impl TypedEventPayload for ReplanProposalDecidedPayload {
    open spec fn kind_of_events() -> EventKindModel {
        EventKindModel::ReplanProposalDecided
    }

    fn event_kind() -> (r: EventKind) {
        EventKind::ReplanProposalDecided
    }
}

impl TypedEventPayload for ReplanCheckpointBlockedPayload {
    open spec fn kind_of_events() -> EventKindModel {
        EventKindModel::ReplanCheckpointBlocked
    }

    fn event_kind() -> (r: EventKind) {
        EventKind::ReplanCheckpointBlocked
    }
}

impl TypedEventPayload for ImplementationSummaryPayload {
    open spec fn kind_of_events() -> EventKindModel {
        EventKindModel::ImplementationSummary
    }

    fn event_kind() -> (r: EventKind) {
        EventKind::ImplementationSummary
    }
}

impl TypedEventPayload for RunErrorPayload {
    open spec fn kind_of_events() -> EventKindModel {
        EventKindModel::RunError
    }

    fn event_kind() -> (r: EventKind) {
        EventKind::RunError
    }
}

/// The events of each payload are of its own kind.
pub proof fn law_payloads_have_their_kinds()
    ensures
        OriginNotificationTargetRecordedPayload::kind_of_events() is OriginNotificationTargetRecorded,
        MissionEnvelopeRecordedPayload::kind_of_events() is MissionEnvelopeRecorded,
        RunStartedPayload::kind_of_events() is RunStarted,
        RunProgress::kind_of_events() is Progress,
        RunIncidentPayload::kind_of_events() is RunIncident,
        RunLaunchInterruptedPayload::kind_of_events() is RunLaunchInterrupted,
        SliceMergedPayload::kind_of_events() is SliceMerged,
        WorkerAttemptAllocatedPayload::kind_of_events() is WorkerAttemptAllocated,
        WorkerAttemptLaunchedPayload::kind_of_events() is WorkerAttemptLaunched,
        WorkerAttemptFinishedPayload::kind_of_events() is WorkerAttemptFinished,
        WorkerAttemptInterruptedPayload::kind_of_events() is WorkerAttemptInterrupted,
        TerminalTransitionIntendedPayload::kind_of_events() is TerminalTransitionIntended,
        WorkerQuestionInterruptedPayload::kind_of_events() is WorkerQuestionInterrupted,
        WorktreesCleanedPayload::kind_of_events() is WorktreesCleaned,
        RunResumedPayload::kind_of_events() is RunResumed,
        DaemonRecoveryStartedPayload::kind_of_events() is DaemonRecoveryStarted,
        DaemonRecoveryCompletedPayload::kind_of_events() is DaemonRecoveryCompleted,
        WorkerQuestionsInterruptedPayload::kind_of_events() is WorkerQuestionsInterrupted,
        RunCancelRequestedPayload::kind_of_events() is RunCancelRequested,
        RunCancelledPayload::kind_of_events() is RunCancelled,
        RunCompletedPayload::kind_of_events() is RunCompleted,
        CockpitReadyPayload::kind_of_events() is CockpitReady,
        CockpitWorkerReadyPayload::kind_of_events() is CockpitWorkerReady,
        SliceStartedPayload::kind_of_events() is SliceStarted,
        IntegrationRepairCompletedPayload::kind_of_events() is IntegrationRepairCompleted,
        TerminalSummaryWrittenPayload::kind_of_events() is TerminalSummaryWritten,
        WorktreeCleanupErrorPayload::kind_of_events() is WorktreeCleanupError,
        InvalidWorkerOutputPayload::kind_of_events() is InvalidWorkerOutput,
        SliceRepairCompletedPayload::kind_of_events() is SliceRepairCompleted,
        WorkerEnvelopeRetrySucceededPayload::kind_of_events() is WorkerEnvelopeRetrySucceeded,
        WorkerAttemptTimeoutPayload::kind_of_events() is WorkerAttemptTimeout,
        WorkerAttemptFailurePayload::kind_of_events() is WorkerAttemptFailure,
        WorkerErrorPayload::kind_of_events() is WorkerError,
        WorkerQuestionAskedPayload::kind_of_events() is WorkerQuestionAsked,
        WorkerQuestionAnsweredPayload::kind_of_events() is WorkerQuestionAnswered,
        CockpitWorkerRenamedPayload::kind_of_events() is CockpitWorkerRenamed,
        FrontierClassifiedPayload::kind_of_events() is FrontierClassified,
        FrontierAutoAcceptRecordedPayload::kind_of_events() is FrontierAutoAcceptRecorded,
        ReplanProposalCreatedPayload::kind_of_events() is ReplanProposalCreated,
        ReplanApplyStartedPayload::kind_of_events() is ReplanApplyStarted,
        FrontierSlicePromotedPayload::kind_of_events() is FrontierSlicePromoted,
        ReplanProposalDecidedPayload::kind_of_events() is ReplanProposalDecided,
        ReplanCheckpointBlockedPayload::kind_of_events() is ReplanCheckpointBlocked,
        ImplementationSummaryPayload::kind_of_events() is ImplementationSummary,
        RunErrorPayload::kind_of_events() is RunError,
{
}

} // verus!
