//! Events with their kinds, the payloads that they are made with, and the reading of payloads that
//! were recorded in an older form.
use crate::attention::origin::answer_command;
use crate::domain::{
    IntegrationMergeIntent, ReplanProposal, Run, RunLaunchIntent, RunLaunchState, RunModel,
    WorkerQuestion,
};
use crate::event_kind::{EventKind, EventKindModel};
use crate::json::{
    get, integer_in, is_whole, items_in, json_decimal, json_level, member, read_decimal,
    read_integer, read_items, read_level, text_in, whole, written_integer, JsonLevel,
    JsonLevelModel,
};
use crate::payloads::{
    AttentionDeliveryPayload, CockpitWorkerReadyPayload, CockpitWorkerReadyPayloadModel,
    EventPayload, EventPayloadModel, ExtraField, ExtraFieldModel, ExtraValue, ExtraValueModel,
    FrontierAutoAcceptDispositionPayload, FrontierAutoAcceptDispositionPayloadModel,
    ImplementationSummaryPayload, ImplementationSummaryPayloadModel,
    IntegrationRepairCompletedPayload, IntegrationRepairCompletedPayloadModel,
    ParallelLayerPayload, ParallelLayerPayloadModel, ReplanApplyFailurePayload,
    ReplanCheckpointBlockedPayload, ReplanCheckpointBlockedPayloadModel,
    ReplanProposalCreatedPayload, ReplanProposalCreatedPayloadModel,
    ReplanProposalEvidencePayload, RunCancelRequestedPayload, RunCancelRequestedPayloadModel,
    RunCancelledPayload, RunCancelledPayloadModel, RunCompletedPayload, RunCompletedPayloadModel,
    RunErrorPayload, RunErrorPayloadModel, SliceStartedPayload, SliceStartedPayloadModel,
    TerminalNotificationPayload, TerminalSummaryWrittenPayload,
    TerminalSummaryWrittenPayloadModel, WorkerAttemptTimeoutPayload,
    WorkerAttemptTimeoutPayloadModel, WorkerQuestionAskedPayload, WorkerQuestionAskedPayloadModel,
    WorktreeSetupPayload,
};
use crate::table::{find_row, first, Row};
use crate::text::{
    all_digits, append_int, blank, chars_of, decimal_int, digits_from, digits_value, is_blank,
    same_text, trim, trimmed,
};
use vstd::prelude::*;
use vstd::string::*;

verus! {

/// An event whose kind fits its payload: it is made by one of the functions below only.
#[derive(Debug, Clone)]
pub struct WorkflowEvent<T> {
    kind: EventKind,
    payload: T,
}

impl<T> WorkflowEvent<T> {
    pub closed spec fn spec_kind(&self) -> EventKindModel {
        self.kind@
    }

    pub closed spec fn spec_payload(&self) -> T {
        self.payload
    }

    pub fn kind(&self) -> (r: &EventKind)
        ensures
            r@ == self.spec_kind(),
    {
        &self.kind
    }

    pub fn payload(&self) -> (r: &T)
        ensures
            *r == self.spec_payload(),
    {
        &self.payload
    }
}

impl WorkflowEvent<RunLaunchIntent> {
    pub fn run_launch_prepared(payload: RunLaunchIntent) -> (r: Self)
        ensures
            r.spec_kind() == EventKindModel::RunLaunchPrepared,
            r.spec_payload() == payload,
    {
        WorkflowEvent { kind: EventKind::RunLaunchPrepared, payload }
    }

    pub fn run_launch_integration_resources_created(payload: RunLaunchIntent) -> (r: Self)
        ensures
            r.spec_kind() == EventKindModel::RunLaunchIntegrationResourcesCreated,
            r.spec_payload() == payload,
    {
        WorkflowEvent { kind: EventKind::RunLaunchIntegrationResourcesCreated, payload }
    }

    pub fn run_launch_failed(payload: RunLaunchIntent) -> (r: Self)
        ensures
            r.spec_kind() == EventKindModel::RunLaunchFailed,
            r.spec_payload() == payload,
    {
        WorkflowEvent { kind: EventKind::RunLaunchFailed, payload }
    }

    /// The event of a launch that has come to a new state.
    pub fn run_launch_transitioned(target: RunLaunchState, payload: RunLaunchIntent) -> (r: Self)
        ensures
            r.spec_kind() == match target {
                RunLaunchState::Activated => EventKindModel::RunLaunchActivated,
                RunLaunchState::Completed => EventKindModel::RunLaunchCompleted,
                _ => EventKindModel::RunLaunchTransitioned,
            },
            r.spec_payload() == payload,
    {
        let kind = match target {
            RunLaunchState::Activated => EventKind::RunLaunchActivated,
            RunLaunchState::Completed => EventKind::RunLaunchCompleted,
            _ => EventKind::RunLaunchTransitioned,
        };
        WorkflowEvent { kind, payload }
    }

    /// The event of an attempt to undo a launch.
    pub fn run_launch_compensation(compensated: bool, payload: RunLaunchIntent) -> (r: Self)
        ensures
            r.spec_kind() == if compensated {
                EventKindModel::RunLaunchCompensated
            } else {
                EventKindModel::RunLaunchCompensationFailed
            },
            r.spec_payload() == payload,
    {
        let kind = if compensated {
            EventKind::RunLaunchCompensated
        } else {
            EventKind::RunLaunchCompensationFailed
        };
        WorkflowEvent { kind, payload }
    }
}

impl WorkflowEvent<IntegrationMergeIntent> {
    pub fn integration_merge_reprepared(payload: IntegrationMergeIntent) -> (r: Self)
        ensures
            r.spec_kind() == EventKindModel::IntegrationMergeReprepared,
            r.spec_payload() == payload,
    {
        WorkflowEvent { kind: EventKind::IntegrationMergeReprepared, payload }
    }

    pub fn integration_merge_prepared(payload: IntegrationMergeIntent) -> (r: Self)
        ensures
            r.spec_kind() == EventKindModel::IntegrationMergePrepared,
            r.spec_payload() == payload,
    {
        WorkflowEvent { kind: EventKind::IntegrationMergePrepared, payload }
    }

    pub fn integration_merge_applied(payload: IntegrationMergeIntent) -> (r: Self)
        ensures
            r.spec_kind() == EventKindModel::IntegrationMergeApplied,
            r.spec_payload() == payload,
    {
        WorkflowEvent { kind: EventKind::IntegrationMergeApplied, payload }
    }

    pub fn integration_merge_reconciled(payload: IntegrationMergeIntent) -> (r: Self)
        ensures
            r.spec_kind() == EventKindModel::IntegrationMergeReconciled,
            r.spec_payload() == payload,
    {
        WorkflowEvent { kind: EventKind::IntegrationMergeReconciled, payload }
    }
}

impl WorkflowEvent<FrontierAutoAcceptDispositionPayload> {
    pub fn frontier_auto_accept_skipped(payload: FrontierAutoAcceptDispositionPayload) -> (r: Self)
        ensures
            r.spec_kind() == EventKindModel::FrontierAutoAcceptSkipped,
            r.spec_payload() == payload,
    {
        WorkflowEvent { kind: EventKind::FrontierAutoAcceptSkipped, payload }
    }

    pub fn frontier_auto_accept_stopped(payload: FrontierAutoAcceptDispositionPayload) -> (r: Self)
        ensures
            r.spec_kind() == EventKindModel::FrontierAutoAcceptStopped,
            r.spec_payload() == payload,
    {
        WorkflowEvent { kind: EventKind::FrontierAutoAcceptStopped, payload }
    }
}

impl WorkflowEvent<ReplanApplyFailurePayload> {
    pub fn replan_apply_refused(payload: ReplanApplyFailurePayload) -> (r: Self)
        ensures
            r.spec_kind() == EventKindModel::ReplanApplyRefused,
            r.spec_payload() == payload,
    {
        WorkflowEvent { kind: EventKind::ReplanApplyRefused, payload }
    }

    pub fn replan_apply_incomplete(payload: ReplanApplyFailurePayload) -> (r: Self)
        ensures
            r.spec_kind() == EventKindModel::ReplanApplyIncomplete,
            r.spec_payload() == payload,
    {
        WorkflowEvent { kind: EventKind::ReplanApplyIncomplete, payload }
    }
}

impl WorkflowEvent<ReplanProposalEvidencePayload> {
    pub fn candidate_followup_created(payload: ReplanProposalEvidencePayload) -> (r: Self)
        ensures
            r.spec_kind() == EventKindModel::CandidateFollowupSliceReplanProposalCreated,
            r.spec_payload() == payload,
    {
        WorkflowEvent { kind: EventKind::CandidateFollowupSliceReplanProposalCreated, payload }
    }

    pub fn finding_replan_created(payload: ReplanProposalEvidencePayload) -> (r: Self)
        ensures
            r.spec_kind() == EventKindModel::FindingReplanProposalCreated,
            r.spec_payload() == payload,
    {
        WorkflowEvent { kind: EventKind::FindingReplanProposalCreated, payload }
    }

    pub fn repair_authority_created(payload: ReplanProposalEvidencePayload) -> (r: Self)
        ensures
            r.spec_kind() == EventKindModel::RepairAuthorityProposalCreated,
            r.spec_payload() == payload,
    {
        WorkflowEvent { kind: EventKind::RepairAuthorityProposalCreated, payload }
    }
}

impl WorkflowEvent<TerminalNotificationPayload> {
    pub fn terminal_notification_sent(payload: TerminalNotificationPayload) -> (r: Self)
        ensures
            r.spec_kind() == EventKindModel::TerminalNotificationSent,
            r.spec_payload() == payload,
    {
        WorkflowEvent { kind: EventKind::TerminalNotificationSent, payload }
    }

    pub fn terminal_notification_skipped(payload: TerminalNotificationPayload) -> (r: Self)
        ensures
            r.spec_kind() == EventKindModel::TerminalNotificationSkipped,
            r.spec_payload() == payload,
    {
        WorkflowEvent { kind: EventKind::TerminalNotificationSkipped, payload }
    }
}

impl WorkflowEvent<WorktreeSetupPayload> {
    pub fn worktree_setup_completed(payload: WorktreeSetupPayload) -> (r: Self)
        ensures
            r.spec_kind() == EventKindModel::WorktreeSetupCompleted,
            r.spec_payload() == payload,
    {
        WorkflowEvent { kind: EventKind::WorktreeSetupCompleted, payload }
    }

    pub fn worktree_setup_failed(payload: WorktreeSetupPayload) -> (r: Self)
        ensures
            r.spec_kind() == EventKindModel::WorktreeSetupFailed,
            r.spec_payload() == payload,
    {
        WorkflowEvent { kind: EventKind::WorktreeSetupFailed, payload }
    }
}

impl WorkflowEvent<ParallelLayerPayload> {
    pub fn parallel_layer_started(payload: ParallelLayerPayload) -> (r: Self)
        ensures
            r.spec_kind() == EventKindModel::ParallelLayerStarted,
            r.spec_payload() == payload,
    {
        WorkflowEvent { kind: EventKind::ParallelLayerStarted, payload }
    }

    pub fn parallel_layer_failed(payload: ParallelLayerPayload) -> (r: Self)
        ensures
            r.spec_kind() == EventKindModel::ParallelLayerFailed,
            r.spec_payload() == payload,
    {
        WorkflowEvent { kind: EventKind::ParallelLayerFailed, payload }
    }

    pub fn parallel_layer_completed(payload: ParallelLayerPayload) -> (r: Self)
        ensures
            r.spec_kind() == EventKindModel::ParallelLayerCompleted,
            r.spec_payload() == payload,
    {
        WorkflowEvent { kind: EventKind::ParallelLayerCompleted, payload }
    }
}

impl WorkflowEvent<AttentionDeliveryPayload> {
    pub fn attention_notification_sent(payload: AttentionDeliveryPayload) -> (r: Self)
        ensures
            r.spec_kind() == EventKindModel::AttentionNotificationSent,
            r.spec_payload() == payload,
    {
        WorkflowEvent { kind: EventKind::AttentionNotificationSent, payload }
    }

    pub fn attention_focus_sent(payload: AttentionDeliveryPayload) -> (r: Self)
        ensures
            r.spec_kind() == EventKindModel::AttentionFocusSent,
            r.spec_payload() == payload,
    {
        WorkflowEvent { kind: EventKind::AttentionFocusSent, payload }
    }
}

/// What is known of the profile of a worker. Its document is kept as its text.
#[derive(Debug, Clone, PartialEq, Eq)]
pub struct WorkerProfileEvidence {
    pub worker_evidence_kind: String,
    pub worker_evidence_label: String,
    pub document: String,
}

#[verifier::ext_equal]
pub struct WorkerProfileEvidenceModel {
    pub worker_evidence_kind: Seq<char>,
    pub worker_evidence_label: Seq<char>,
    pub document: Seq<char>,
}

impl DeepView for WorkerProfileEvidence {
    type V = WorkerProfileEvidenceModel;

    open spec fn deep_view(&self) -> WorkerProfileEvidenceModel {
        WorkerProfileEvidenceModel {
            worker_evidence_kind: self.worker_evidence_kind.deep_view(),
            worker_evidence_label: self.worker_evidence_label.deep_view(),
            document: self.document.deep_view(),
        }
    }
}

impl View for WorkerProfileEvidence {
    type V = WorkerProfileEvidenceModel;

    open spec fn view(&self) -> WorkerProfileEvidenceModel {
        self.deep_view()
    }
}

impl Row for WorkerProfileEvidence {
    fn dup(&self) -> (r: Self) {
        WorkerProfileEvidence {
            worker_evidence_kind: self.worker_evidence_kind.dup(),
            worker_evidence_label: self.worker_evidence_label.dup(),
            document: self.document.dup(),
        }
    }

    fn same(&self, other: &Self) -> (r: bool) {
        self.worker_evidence_kind.same(&other.worker_evidence_kind)
            && self.worker_evidence_label.same(&other.worker_evidence_label)
            && self.document.same(&other.document)
    }
}

impl Default for WorkerProfileEvidence {
    fn default() -> (r: Self)
        ensures
            r@ == WorkerProfileEvidenceModel::empty(),
    {
        let r = WorkerProfileEvidence {
            worker_evidence_kind: String::new(),
            worker_evidence_label: String::new(),
            document: String::new(),
        };
        assert(r@ =~= WorkerProfileEvidenceModel::empty());
        r
    }
}

impl WorkerProfileEvidenceModel {
    /// All texts and lists empty, all numbers zero, all flags off.
    pub open spec fn empty() -> WorkerProfileEvidenceModel {
        WorkerProfileEvidenceModel {
            worker_evidence_kind: Seq::<char>::empty(),
            worker_evidence_label: Seq::<char>::empty(),
            document: Seq::<char>::empty(),
        }
    }
}

/// Where a value of a profile comes from.
#[derive(Debug, Clone, PartialEq, Eq)]
pub struct ProfileSource {
    pub field: String,
    pub source: String,
}

#[verifier::ext_equal]
pub struct ProfileSourceModel {
    pub field: Seq<char>,
    pub source: Seq<char>,
}

impl DeepView for ProfileSource {
    type V = ProfileSourceModel;

    open spec fn deep_view(&self) -> ProfileSourceModel {
        ProfileSourceModel {
            field: self.field.deep_view(),
            source: self.source.deep_view(),
        }
    }
}

impl View for ProfileSource {
    type V = ProfileSourceModel;

    open spec fn view(&self) -> ProfileSourceModel {
        self.deep_view()
    }
}

impl Row for ProfileSource {
    fn dup(&self) -> (r: Self) {
        ProfileSource {
            field: self.field.dup(),
            source: self.source.dup(),
        }
    }

    fn same(&self, other: &Self) -> (r: bool) {
        self.field.same(&other.field)
            && self.source.same(&other.source)
    }
}

/// The payload of the event of a run that has started.
#[derive(Debug, Clone, PartialEq, Eq)]
pub struct RunStartedPayload {
    pub run: Option<Run>,
    pub selected_slices: Vec<String>,
    pub skipped_closed_slices: Vec<String>,
    pub verify_profile: String,
    pub verify_profiles: Vec<String>,
    pub agent: String,
    pub agent_profile: String,
    pub agent_provider: String,
    pub agent_model: String,
    pub agent_reasoning: String,
    pub agent_mode: String,
    pub worker_profile: WorkerProfileEvidence,
    pub worker_evidence_kind: String,
    pub worker_evidence_label: String,
    pub profile_summary: String,
    pub launch_summary: String,
    pub profile_source_attribution: Vec<ProfileSource>,
}

#[verifier::ext_equal]
pub struct RunStartedPayloadModel {
    pub run: Option<RunModel>,
    pub selected_slices: Seq<Seq<char>>,
    pub skipped_closed_slices: Seq<Seq<char>>,
    pub verify_profile: Seq<char>,
    pub verify_profiles: Seq<Seq<char>>,
    pub agent: Seq<char>,
    pub agent_profile: Seq<char>,
    pub agent_provider: Seq<char>,
    pub agent_model: Seq<char>,
    pub agent_reasoning: Seq<char>,
    pub agent_mode: Seq<char>,
    pub worker_profile: WorkerProfileEvidenceModel,
    pub worker_evidence_kind: Seq<char>,
    pub worker_evidence_label: Seq<char>,
    pub profile_summary: Seq<char>,
    pub launch_summary: Seq<char>,
    pub profile_source_attribution: Seq<ProfileSourceModel>,
}

impl DeepView for RunStartedPayload {
    type V = RunStartedPayloadModel;

    open spec fn deep_view(&self) -> RunStartedPayloadModel {
        RunStartedPayloadModel {
            run: self.run.deep_view(),
            selected_slices: self.selected_slices.deep_view(),
            skipped_closed_slices: self.skipped_closed_slices.deep_view(),
            verify_profile: self.verify_profile.deep_view(),
            verify_profiles: self.verify_profiles.deep_view(),
            agent: self.agent.deep_view(),
            agent_profile: self.agent_profile.deep_view(),
            agent_provider: self.agent_provider.deep_view(),
            agent_model: self.agent_model.deep_view(),
            agent_reasoning: self.agent_reasoning.deep_view(),
            agent_mode: self.agent_mode.deep_view(),
            worker_profile: self.worker_profile.deep_view(),
            worker_evidence_kind: self.worker_evidence_kind.deep_view(),
            worker_evidence_label: self.worker_evidence_label.deep_view(),
            profile_summary: self.profile_summary.deep_view(),
            launch_summary: self.launch_summary.deep_view(),
            profile_source_attribution: self.profile_source_attribution.deep_view(),
        }
    }
}

impl View for RunStartedPayload {
    type V = RunStartedPayloadModel;

    open spec fn view(&self) -> RunStartedPayloadModel {
        self.deep_view()
    }
}

impl Row for RunStartedPayload {
    fn dup(&self) -> (r: Self) {
        RunStartedPayload {
            run: self.run.dup(),
            selected_slices: self.selected_slices.dup(),
            skipped_closed_slices: self.skipped_closed_slices.dup(),
            verify_profile: self.verify_profile.dup(),
            verify_profiles: self.verify_profiles.dup(),
            agent: self.agent.dup(),
            agent_profile: self.agent_profile.dup(),
            agent_provider: self.agent_provider.dup(),
            agent_model: self.agent_model.dup(),
            agent_reasoning: self.agent_reasoning.dup(),
            agent_mode: self.agent_mode.dup(),
            worker_profile: self.worker_profile.dup(),
            worker_evidence_kind: self.worker_evidence_kind.dup(),
            worker_evidence_label: self.worker_evidence_label.dup(),
            profile_summary: self.profile_summary.dup(),
            launch_summary: self.launch_summary.dup(),
            profile_source_attribution: self.profile_source_attribution.dup(),
        }
    }

    fn same(&self, other: &Self) -> (r: bool) {
        self.run.same(&other.run)
            && self.selected_slices.same(&other.selected_slices)
            && self.skipped_closed_slices.same(&other.skipped_closed_slices)
            && self.verify_profile.same(&other.verify_profile)
            && self.verify_profiles.same(&other.verify_profiles)
            && self.agent.same(&other.agent)
            && self.agent_profile.same(&other.agent_profile)
            && self.agent_provider.same(&other.agent_provider)
            && self.agent_model.same(&other.agent_model)
            && self.agent_reasoning.same(&other.agent_reasoning)
            && self.agent_mode.same(&other.agent_mode)
            && self.worker_profile.same(&other.worker_profile)
            && self.worker_evidence_kind.same(&other.worker_evidence_kind)
            && self.worker_evidence_label.same(&other.worker_evidence_label)
            && self.profile_summary.same(&other.profile_summary)
            && self.launch_summary.same(&other.launch_summary)
            && self.profile_source_attribution.same(&other.profile_source_attribution)
    }
}

impl Default for RunStartedPayload {
    fn default() -> (r: Self)
        ensures
            r@ == RunStartedPayloadModel::empty(),
    {
        let r = RunStartedPayload {
            run: None,
            selected_slices: Vec::new(),
            skipped_closed_slices: Vec::new(),
            verify_profile: String::new(),
            verify_profiles: Vec::new(),
            agent: String::new(),
            agent_profile: String::new(),
            agent_provider: String::new(),
            agent_model: String::new(),
            agent_reasoning: String::new(),
            agent_mode: String::new(),
            worker_profile: WorkerProfileEvidence::default(),
            worker_evidence_kind: String::new(),
            worker_evidence_label: String::new(),
            profile_summary: String::new(),
            launch_summary: String::new(),
            profile_source_attribution: Vec::new(),
        };
        assert(r@ =~= RunStartedPayloadModel::empty());
        r
    }
}

impl RunStartedPayloadModel {
    /// All texts and lists empty, all numbers zero, all flags off.
    pub open spec fn empty() -> RunStartedPayloadModel {
        RunStartedPayloadModel {
            run: None,
            selected_slices: Seq::empty(),
            skipped_closed_slices: Seq::empty(),
            verify_profile: Seq::<char>::empty(),
            verify_profiles: Seq::empty(),
            agent: Seq::<char>::empty(),
            agent_profile: Seq::<char>::empty(),
            agent_provider: Seq::<char>::empty(),
            agent_model: Seq::<char>::empty(),
            agent_reasoning: Seq::<char>::empty(),
            agent_mode: Seq::<char>::empty(),
            worker_profile: WorkerProfileEvidenceModel::empty(),
            worker_evidence_kind: Seq::<char>::empty(),
            worker_evidence_label: Seq::<char>::empty(),
            profile_summary: Seq::<char>::empty(),
            launch_summary: Seq::<char>::empty(),
            profile_source_attribution: Seq::empty(),
        }
    }
}

impl RunStartedPayload {
    /// The payload for a run; the evidence of its worker is repeated beside the profile.
    pub fn new(
        run: &Run,
        selected_slices: Vec<String>,
        skipped_closed_slices: Vec<String>,
        verify_profile: String,
        verify_profiles: Vec<String>,
        agent: &str,
        agent_profile: &str,
        agent_provider: &str,
        agent_model: &str,
        agent_reasoning: &str,
        agent_mode: &str,
        worker_profile: WorkerProfileEvidence,
        profile_summary: &str,
        launch_summary: &str,
        profile_source_attribution: Vec<ProfileSource>,
    ) -> (r: RunStartedPayload)
        ensures
            r@ == (RunStartedPayloadModel {
                run: Some(run@),
                selected_slices: selected_slices.deep_view(),
                skipped_closed_slices: skipped_closed_slices.deep_view(),
                verify_profile: verify_profile@,
                verify_profiles: verify_profiles.deep_view(),
                agent: agent@,
                agent_profile: agent_profile@,
                agent_provider: agent_provider@,
                agent_model: agent_model@,
                agent_reasoning: agent_reasoning@,
                agent_mode: agent_mode@,
                worker_profile: worker_profile@,
                worker_evidence_kind: worker_profile@.worker_evidence_kind,
                worker_evidence_label: worker_profile@.worker_evidence_label,
                profile_summary: profile_summary@,
                launch_summary: launch_summary@,
                profile_source_attribution: profile_source_attribution.deep_view(),
            }),
    {
        let worker_evidence_kind = worker_profile.worker_evidence_kind.dup();
        let worker_evidence_label = worker_profile.worker_evidence_label.dup();
        RunStartedPayload {
            run: Some(run.dup()),
            selected_slices,
            skipped_closed_slices,
            verify_profile,
            verify_profiles,
            agent: agent.to_owned(),
            agent_profile: agent_profile.to_owned(),
            agent_provider: agent_provider.to_owned(),
            agent_model: agent_model.to_owned(),
            agent_reasoning: agent_reasoning.to_owned(),
            agent_mode: agent_mode.to_owned(),
            worker_profile,
            worker_evidence_kind,
            worker_evidence_label,
            profile_summary: profile_summary.to_owned(),
            launch_summary: launch_summary.to_owned(),
            profile_source_attribution,
        }
    }

    /// The payload as it was decoded, or an empty one where it could not be.
    pub fn from_value(decoded: Option<RunStartedPayload>) -> (r: RunStartedPayload)
        ensures
            r@ == match decoded {
                Some(payload) => payload@,
                None => RunStartedPayloadModel::empty(),
            },
    {
        match decoded {
            Some(payload) => payload,
            None => RunStartedPayload::default(),
        }
    }
}

impl RunCancelledPayload {
    pub fn new(reason: &str) -> (r: RunCancelledPayload)
        ensures
            r@ == (RunCancelledPayloadModel {
                reason: reason@,
            }),
    {
        RunCancelledPayload {
            reason: reason.to_owned(),
        }
    }
}

impl RunCompletedPayload {
    pub fn new(run_id: &str) -> (r: RunCompletedPayload)
        ensures
            r@ == (RunCompletedPayloadModel {
                run_id: run_id@,
            }),
    {
        RunCompletedPayload {
            run_id: run_id.to_owned(),
        }
    }
}

impl SliceStartedPayload {
    pub fn new(slice_id: &str) -> (r: SliceStartedPayload)
        ensures
            r@ == (SliceStartedPayloadModel {
                slice_id: slice_id@,
            }),
    {
        SliceStartedPayload {
            slice_id: slice_id.to_owned(),
        }
    }
}

impl IntegrationRepairCompletedPayload {
    pub fn new(status: &str, summary: &str, launch_id: i64) -> (r: IntegrationRepairCompletedPayload)
        ensures
            r@ == (IntegrationRepairCompletedPayloadModel {
                status: status@,
                summary: summary@,
                launch_id: Some(launch_id),
            }),
    {
        IntegrationRepairCompletedPayload {
            status: status.to_owned(),
            summary: summary.to_owned(),
            launch_id: Some(launch_id),
        }
    }
}

impl TerminalSummaryWrittenPayload {
    pub fn new(path: &str) -> (r: TerminalSummaryWrittenPayload)
        ensures
            r@ == (TerminalSummaryWrittenPayloadModel {
                path: path@,
            }),
    {
        TerminalSummaryWrittenPayload {
            path: path.to_owned(),
        }
    }
}

impl WorkerAttemptTimeoutPayload {
    pub fn new(phase: &str, slice_id: &str, attempt: usize, launch_id: Option<i64>, timeout_seconds: u64, message: &str) -> (r: WorkerAttemptTimeoutPayload)
        ensures
            r@ == (WorkerAttemptTimeoutPayloadModel {
                phase: phase@,
                slice_id: slice_id@,
                attempt,
                launch_id,
                timeout_seconds,
                message: message@,
            }),
    {
        WorkerAttemptTimeoutPayload {
            phase: phase.to_owned(),
            slice_id: slice_id.to_owned(),
            attempt,
            launch_id,
            timeout_seconds,
            message: message.to_owned(),
        }
    }
}

impl ReplanCheckpointBlockedPayload {
    pub fn new(proposal_ids: Vec<String>, checkpoint: &str, message: &str, decision_commands: Vec<String>) -> (r: ReplanCheckpointBlockedPayload)
        ensures
            r@ == (ReplanCheckpointBlockedPayloadModel {
                proposal_ids: proposal_ids.deep_view(),
                checkpoint: checkpoint@,
                message: message@,
                decision_commands: decision_commands.deep_view(),
            }),
    {
        ReplanCheckpointBlockedPayload {
            proposal_ids,
            checkpoint: checkpoint.to_owned(),
            message: message.to_owned(),
            decision_commands,
        }
    }
}

impl ReplanProposalCreatedPayload {
    pub fn from_proposal(proposal: &ReplanProposal) -> (r: ReplanProposalCreatedPayload)
        ensures
            r@ == (ReplanProposalCreatedPayloadModel {
                proposal_id: proposal@.id,
                state: proposal@.state,
                risk: proposal@.risk,
                source: proposal@.source,
                proposed_changes: proposal@.proposed_changes,
                decision_commands: proposal@.decision_commands,
            }),
    {
        ReplanProposalCreatedPayload {
            proposal_id: proposal.id.dup(),
            state: proposal.state.dup(),
            risk: proposal.risk.dup(),
            source: proposal.source.dup(),
            proposed_changes: proposal.proposed_changes.dup(),
            decision_commands: proposal.decision_commands.dup(),
        }
    }
}

impl FrontierAutoAcceptDispositionPayload {
    pub fn new(proposal: &ReplanProposal, checkpoint: &str, reason: &str, tier: &str, reason_codes: Vec<String>) -> (r: FrontierAutoAcceptDispositionPayload)
        ensures
            r@ == (FrontierAutoAcceptDispositionPayloadModel {
                proposal_id: proposal@.id,
                checkpoint: checkpoint@,
                reason: reason@,
                tier: tier@,
                reason_codes: reason_codes.deep_view(),
                state: proposal@.state,
            }),
    {
        FrontierAutoAcceptDispositionPayload {
            proposal_id: proposal.id.dup(),
            checkpoint: checkpoint.to_owned(),
            reason: reason.to_owned(),
            tier: tier.to_owned(),
            reason_codes,
            state: proposal.state,
        }
    }
}

impl WorkerQuestionAskedPayload {
    pub fn from_question(question: &WorkerQuestion, deadline_at: Option<String>) -> (r:
        WorkerQuestionAskedPayload)
        ensures
            r@ == (WorkerQuestionAskedPayloadModel {
                question_id: question@.id,
                slice_id: question@.slice_id,
                attempt: question@.attempt,
                launch_id: question@.launch_id,
                question: question@.question,
                options: question@.options,
                timeout_seconds: question@.timeout_seconds,
                deadline_at: deadline_at.deep_view(),
                recommended_answer: question@.recommended_answer,
                recommendation_rationale: question@.recommendation_rationale,
                bounded_within_current_slice_or_mission_authority: question@.bounded_within_current_slice_or_mission_authority,
                reversible: question@.reversible,
                fallback_eligible: question@.fallback_eligible,
                answer_command: answer_command(question@),
            }),
    {
        let mut command = "khazad-doom answer ".to_owned();
        command.append(question.run_id.as_str());
        command.append(" ");
        command.append(question.id.as_str());
        command.append(" <answer>");
        WorkerQuestionAskedPayload {
            question_id: question.id.dup(),
            slice_id: question.slice_id.dup(),
            attempt: question.attempt,
            launch_id: question.launch_id,
            question: question.question.dup(),
            options: question.options.dup(),
            timeout_seconds: question.timeout_seconds,
            deadline_at,
            recommended_answer: question.recommended_answer.dup(),
            recommendation_rationale: question.recommendation_rationale.dup(),
            bounded_within_current_slice_or_mission_authority: question.bounded_within_current_slice_or_mission_authority,
            reversible: question.reversible,
            fallback_eligible: question.fallback_eligible,
            answer_command: command,
        }
    }
}

impl ParallelLayerPayload {
    pub fn started(slices: Vec<String>) -> (r: ParallelLayerPayload)
        ensures
            r@ == (ParallelLayerPayloadModel {
                slices: slices.deep_view(),
                outcomes: Seq::empty(),
                summary: ""@,
            }),
    {
        let outcomes: Vec<String> = Vec::new();
        assert(outcomes.deep_view() =~= Seq::empty());
        ParallelLayerPayload { slices, outcomes, summary: "".to_owned() }
    }

    /// The payload of a layer that has ended; each outcome is the text of a JSON document.
    pub fn completed(slices: Vec<String>, outcomes: Vec<String>) -> (r: ParallelLayerPayload)
        ensures
            r@ == (ParallelLayerPayloadModel {
                slices: slices.deep_view(),
                outcomes: outcomes.deep_view(),
                summary: ""@,
            }),
    {
        ParallelLayerPayload { slices, outcomes, summary: "".to_owned() }
    }

    pub fn failed(slices: Vec<String>, outcomes: Vec<String>, summary: &str) -> (r:
        ParallelLayerPayload)
        ensures
            r@ == (ParallelLayerPayloadModel {
                slices: slices.deep_view(),
                outcomes: outcomes.deep_view(),
                summary: summary@,
            }),
    {
        ParallelLayerPayload { slices, outcomes, summary: summary.to_owned() }
    }
}

/// A document as plain text: a text without the space around it, an integer or a flag as it is
/// written, any other number as a decimal, and nothing for what is none of these.
pub open spec fn plain_text(document: Seq<char>) -> Option<Seq<char>> {
    match json_level(document) {
        Some(JsonLevelModel::Text(text)) => Some(trim(text)),
        Some(JsonLevelModel::Number(text)) => if whole(text) {
            Some(text)
        } else {
            json_decimal(document)
        },
        Some(JsonLevelModel::Flag(flag)) => Some(
            if flag {
                "true"@
            } else {
                "false"@
            },
        ),
        _ => None,
    }
}

/// The text of a plain value.
pub fn value_to_text(document: &str) -> (r: Option<String>)
    ensures
        r.deep_view() == plain_text(document@),
{
    match read_level(document) {
        Some(JsonLevel::Text(text)) => Some(trimmed(text.as_str())),
        Some(JsonLevel::Number(text)) => if is_whole(text.as_str()) {
            Some(text)
        } else {
            read_decimal(document)
        },
        Some(JsonLevel::Flag(flag)) => if flag {
            Some("true".to_owned())
        } else {
            Some("false".to_owned())
        },
        _ => None,
    }
}

/// The plain text under a name, where it is not blank.
pub open spec fn named_text(document: Seq<char>, name: Seq<char>) -> Option<Seq<char>> {
    match member(document, name) {
        Some(value) => match plain_text(value) {
            Some(text) => if blank(text) {
                None
            } else {
                Some(text)
            },
            None => None,
        },
        None => None,
    }
}

fn text_named(document: &str, name: &str) -> (r: Option<String>)
    ensures
        r.deep_view() == named_text(document@, name@),
{
    match get(document, name) {
        Some(value) => match value_to_text(value.as_str()) {
            Some(text) => if is_blank(text.as_str()) {
                None
            } else {
                Some(text)
            },
            None => None,
        },
        None => None,
    }
}

/// The first text of two that there is, or another one.
pub open spec fn text_or(text: Option<Seq<char>>, other: Seq<char>) -> Seq<char> {
    match text {
        Some(text) => text,
        None => other,
    }
}

fn or_else_text(text: Option<String>, other: &str) -> (r: String)
    ensures
        r@ == text_or(text.deep_view(), other@),
{
    match text {
        Some(text) => text,
        None => other.to_owned(),
    }
}

/// The flag under a name, off where there is none.
pub open spec fn flag_under(document: Seq<char>, name: Seq<char>) -> bool {
    match member(document, name) {
        Some(value) => json_level(value) == Some(JsonLevelModel::Flag(true)),
        None => false,
    }
}

fn flag_named(document: &str, name: &str) -> (r: bool)
    ensures
        r == flag_under(document@, name@),
{
    match get(document, name) {
        Some(value) => match read_level(value.as_str()) {
            Some(JsonLevel::Flag(flag)) => flag,
            _ => false,
        },
        None => false,
    }
}

impl RunCancelRequestedPayload {
    pub fn new(reason: &str, active: bool) -> (r: RunCancelRequestedPayload)
        ensures
            r@ == (RunCancelRequestedPayloadModel { reason: reason@, active }),
    {
        RunCancelRequestedPayload { reason: reason.to_owned(), active }
    }

    /// The payload as it was decoded, or what can be made out of its document.
    pub fn from_value(decoded: Option<RunCancelRequestedPayload>, document: &str) -> (r:
        RunCancelRequestedPayload)
        ensures
            r@ == match decoded {
                Some(payload) => payload@,
                None => RunCancelRequestedPayloadModel {
                    reason: text_or(named_text(document@, "reason"@), ""@),
                    active: flag_under(document@, "active"@),
                },
            },
    {
        match decoded {
            Some(payload) => payload,
            None => RunCancelRequestedPayload {
                reason: or_else_text(text_named(document, "reason"), ""),
                active: flag_named(document, "active"),
            },
        }
    }
}

/// The document under a name, where it is not null.
pub open spec fn present_under(document: Seq<char>, name: Seq<char>) -> Option<Seq<char>> {
    match member(document, name) {
        Some(value) => if json_level(value) == Some(JsonLevelModel::Null) {
            None
        } else {
            Some(value)
        },
        None => None,
    }
}

fn present_named(document: &str, name: &str) -> (r: Option<String>)
    ensures
        r.deep_view() == present_under(document@, name@),
{
    match get(document, name) {
        Some(value) => match read_level(value.as_str()) {
            Some(JsonLevel::Null) => None,
            _ => Some(value),
        },
        None => None,
    }
}

/// What can be made out of the document of an implementation summary.
pub open spec fn implementation_summary_of(document: Seq<char>) -> ImplementationSummaryPayloadModel {
    ImplementationSummaryPayloadModel {
        completed_slices: match items_in(member(document, "completed_slices"@)) {
            Some(slices) => slices,
            None => Seq::empty(),
        },
        integration_gate: present_under(document, "integration_gate"@),
        pre_repair_integration_gate: present_under(document, "pre_repair_integration_gate"@),
        integration_repair: present_under(document, "integration_repair"@),
        exit_states: present_under(document, "exit_states"@),
        verify_profile: text_or(named_text(document, "verify_profile"@), ""@),
        final_sha: text_or(named_text(document, "final_sha"@), ""@),
    }
}

impl ImplementationSummaryPayload {
    /// The payload as it was decoded, or what can be made out of its document.
    pub fn from_value(decoded: Option<ImplementationSummaryPayload>, document: &str) -> (r:
        ImplementationSummaryPayload)
        ensures
            r@ == match decoded {
                Some(payload) => payload@,
                None => implementation_summary_of(document@),
            },
    {
        match decoded {
            Some(payload) => payload,
            None => {
                let listed = get(document, "completed_slices");
                let completed_slices: Vec<String> = match read_items(&listed) {
                    Some(slices) => slices,
                    None => Vec::new(),
                };
                assert(completed_slices.deep_view() =~= implementation_summary_of(
                    document@,
                ).completed_slices);
                ImplementationSummaryPayload {
                    completed_slices,
                    integration_gate: present_named(document, "integration_gate"),
                    pre_repair_integration_gate: present_named(
                        document,
                        "pre_repair_integration_gate",
                    ),
                    integration_repair: present_named(document, "integration_repair"),
                    exit_states: present_named(document, "exit_states"),
                    verify_profile: or_else_text(text_named(document, "verify_profile"), ""),
                    final_sha: or_else_text(text_named(document, "final_sha"), ""),
                }
            },
        }
    }
}

/// The fields of a document as additional fields.
pub open spec fn extra_fields(document: Seq<char>) -> Seq<ExtraFieldModel> {
    match json_level(document) {
        Some(JsonLevelModel::Object(fields)) => fields.map_values(
            |field: crate::json::JsonFieldModel|
                ExtraFieldModel { key: field.name, value: ExtraValueModel::Document(field.value) },
        ),
        _ => Seq::empty(),
    }
}

fn object_extra(document: &str) -> (r: Vec<ExtraField>)
    ensures
        r.deep_view() == extra_fields(document@),
{
    let mut r: Vec<ExtraField> = Vec::new();
    match read_level(document) {
        Some(JsonLevel::Object(fields)) => {
            let ghost all = extra_fields(document@);
            let mut i: usize = 0;
            while i < fields.len()
                invariant
                    i <= fields.len(),
                    json_level(document@) == Some(JsonLevelModel::Object(fields.deep_view())),
                    all == extra_fields(document@),
                    r.deep_view() == all.take(i as int),
                decreases fields.len() - i,
            {
                let ghost before = r.deep_view();
                let field = ExtraField {
                    key: fields[i].name.dup(),
                    value: ExtraValue::Document(fields[i].value.dup()),
                };
                assert(all[i as int] == field@) by {
                    assert(fields.deep_view()[i as int] == fields@[i as int]@);
                }
                r.push(field);
                assert(r.deep_view() =~= before.push(field@));
                assert(all.take(i + 1) =~= all.take(i as int).push(all[i as int]));
                i = i + 1;
            }
            assert(all.take(i as int) =~= all);
        },
        _ => {
            assert(r.deep_view() =~= Seq::empty());
        },
    }
    r
}

pub open spec fn extra_named(key: Seq<char>) -> spec_fn(ExtraFieldModel) -> bool {
    |field: ExtraFieldModel| field.key == key
}

/// The plain text of an additional field.
pub open spec fn extra_text(fields: Seq<ExtraFieldModel>, key: Seq<char>) -> Option<Seq<char>> {
    match first(fields, extra_named(key)) {
        Some(field) => match field.value {
            ExtraValueModel::Null => None,
            ExtraValueModel::Text(text) => Some(trim(text)),
            ExtraValueModel::Number(n) => Some(decimal_int(n as int)),
            ExtraValueModel::Document(document) => plain_text(document),
        },
        None => None,
    }
}

fn read_extra_text(fields: &Vec<ExtraField>, key: &str) -> (r: Option<String>)
    ensures
        r.deep_view() == extra_text(fields.deep_view(), key@),
{
    let named = |field: &ExtraField| -> (b: bool)
        ensures
            b == extra_named(key@)(field@),
        { same_text(field.key.as_str(), key) };
    match find_row(fields, named, Ghost(extra_named(key@))) {
        Some(i) => match &fields[i].value {
            ExtraValue::Null => None,
            ExtraValue::Text(text) => Some(trimmed(text.as_str())),
            ExtraValue::Number(n) => {
                let mut r = String::new();
                append_int(&mut r, *n);
                assert(r@ =~= decimal_int(*n as int));
                Some(r)
            },
            ExtraValue::Document(document) => value_to_text(document.as_str()),
        },
        None => None,
    }
}

/// The additional field of this name.
pub open spec fn value_of(fields: Seq<ExtraFieldModel>, key: Seq<char>) -> Option<ExtraValueModel> {
    match first(fields, extra_named(key)) {
        Some(field) => Some(field.value),
        None => None,
    }
}

/// The value at a position, where there is one.
pub open spec fn value_at(fields: Seq<ExtraFieldModel>, at: Option<usize>) -> Option<ExtraValueModel> {
    match at {
        Some(i) => Some(fields[i as int].value),
        None => None,
    }
}

fn find_extra(fields: &Vec<ExtraField>, key: &str) -> (r: Option<usize>)
    ensures
        r matches Some(i) ==> i < fields.len(),
        value_at(fields.deep_view(), r) == value_of(fields.deep_view(), key@),
{
    let named = |field: &ExtraField| -> (b: bool)
        ensures
            b == extra_named(key@)(field@),
        { same_text(field.key.as_str(), key) };
    let r = find_row(fields, named, Ghost(extra_named(key@)));
    proof {
        if r is Some {
            assert(fields.deep_view()[r->0 as int] == fields@[r->0 as int]@);
        }
    }
    r
}

/// The text that a field of a text is decoded to: an empty one where the field is missing, none where
/// it is no text.
pub open spec fn strict_text(value: Option<ExtraValueModel>) -> Option<Seq<char>> {
    match value {
        None => Some(Seq::empty()),
        Some(ExtraValueModel::Text(text)) => Some(text),
        Some(ExtraValueModel::Document(document)) => text_in(Some(document)),
        _ => None,
    }
}

/// The number that a field of a count is decoded to: zero where the field is missing, none where it
/// is no such number.
pub open spec fn strict_count(value: Option<ExtraValueModel>) -> Option<usize> {
    match value {
        None => Some(0),
        Some(ExtraValueModel::Number(n)) => if 0 <= n <= usize::MAX {
            Some(n as usize)
        } else {
            None
        },
        Some(ExtraValueModel::Document(document)) => match json_level(document) {
            Some(JsonLevelModel::Number(text)) => if all_digits(text) && digits_value(text)
                <= u64::MAX && digits_value(text) <= usize::MAX {
                Some(digits_value(text) as usize)
            } else {
                None
            },
            _ => None,
        },
        _ => None,
    }
}

/// The number that a field of a number that there may be is decoded to: no number where the field is
/// missing or null, none where it holds anything else.
pub open spec fn strict_integer(value: Option<ExtraValueModel>) -> Option<Option<i64>> {
    match value {
        None => Some(None),
        Some(ExtraValueModel::Null) => Some(None),
        Some(ExtraValueModel::Number(n)) => Some(Some(n)),
        Some(ExtraValueModel::Document(document)) => match json_level(document) {
            Some(JsonLevelModel::Null) => Some(None),
            Some(JsonLevelModel::Number(text)) => match written_integer(text) {
                Some(n) => Some(Some(n)),
                None => None,
            },
            _ => None,
        },
        Some(ExtraValueModel::Text(_)) => None,
    }
}

fn read_strict_text(fields: &Vec<ExtraField>, at: Option<usize>) -> (r: Option<String>)
    requires
        at matches Some(i) ==> i < fields.len(),
    ensures
        r.deep_view() == strict_text(value_at(fields.deep_view(), at)),
{
    match at {
        None => {
            let none = String::new();
            assert(none@ =~= Seq::empty());
            Some(none)
        },
        Some(i) => {
            assert(fields.deep_view()[i as int] == fields@[i as int]@);
            match &fields[i].value {
                ExtraValue::Text(text) => Some(text.dup()),
                ExtraValue::Document(document) => match read_level(document.as_str()) {
                    Some(JsonLevel::Text(text)) => Some(text),
                    _ => None,
                },
                _ => None,
            }
        },
    }
}

fn read_strict_count(fields: &Vec<ExtraField>, at: Option<usize>) -> (r: Option<usize>)
    requires
        at matches Some(i) ==> i < fields.len(),
    ensures
        r == strict_count(value_at(fields.deep_view(), at)),
{
    match at {
        None => Some(0),
        Some(i) => {
            assert(fields.deep_view()[i as int] == fields@[i as int]@);
            match &fields[i].value {
                ExtraValue::Number(n) => if *n >= 0 && *n as u64 <= usize::MAX as u64 {
                    Some(*n as usize)
                } else {
                    None
                },
                ExtraValue::Document(document) => match read_level(document.as_str()) {
                    Some(JsonLevel::Number(text)) => {
                        let chars = chars_of(text.as_str());
                        assert(chars@.skip(0) =~= text@);
                        match digits_from(&chars, 0, usize::MAX as u64) {
                            Some(n) => Some(n as usize),
                            None => None,
                        }
                    },
                    _ => None,
                },
                _ => None,
            }
        },
    }
}

fn read_strict_integer(fields: &Vec<ExtraField>, at: Option<usize>) -> (r: Option<Option<i64>>)
    requires
        at matches Some(i) ==> i < fields.len(),
    ensures
        r == strict_integer(value_at(fields.deep_view(), at)),
{
    match at {
        None => Some(None),
        Some(i) => {
            assert(fields.deep_view()[i as int] == fields@[i as int]@);
            match &fields[i].value {
                ExtraValue::Null => Some(None),
                ExtraValue::Number(n) => Some(Some(*n)),
                ExtraValue::Text(_) => None,
                ExtraValue::Document(document) => match read_level(document.as_str()) {
                    Some(JsonLevel::Null) => Some(None),
                    Some(JsonLevel::Number(_)) => {
                        let held = Some(document.dup());
                        match read_integer(&held) {
                            Some(n) => Some(Some(n)),
                            None => None,
                        }
                    },
                    _ => None,
                },
            }
        },
    }
}

/// The plain text of an additional field, where it is not blank.
pub open spec fn loose_text(fields: Seq<ExtraFieldModel>, key: Seq<char>) -> Option<Seq<char>> {
    match extra_text(fields, key) {
        Some(text) => if blank(text) {
            None
        } else {
            Some(text)
        },
        None => None,
    }
}

fn read_loose_text(fields: &Vec<ExtraField>, key: &str) -> (r: Option<String>)
    ensures
        r.deep_view() == loose_text(fields.deep_view(), key@),
{
    match read_extra_text(fields, key) {
        Some(text) => if is_blank(text.as_str()) {
            None
        } else {
            Some(text)
        },
        None => None,
    }
}

/// The count in an additional field, zero where there is none.
pub open spec fn loose_count(fields: Seq<ExtraFieldModel>, key: Seq<char>) -> usize {
    match value_of(fields, key) {
        Some(ExtraValueModel::Number(n)) => if n >= 0 {
            (n as u64) as usize
        } else {
            0
        },
        Some(ExtraValueModel::Document(document)) => match json_level(document) {
            Some(JsonLevelModel::Number(text)) => if all_digits(text) && digits_value(text)
                <= u64::MAX {
                (digits_value(text) as u64) as usize
            } else {
                0
            },
            _ => 0,
        },
        _ => 0,
    }
}

fn read_loose_count(fields: &Vec<ExtraField>, key: &str) -> (r: usize)
    ensures
        r == loose_count(fields.deep_view(), key@),
{
    match find_extra(fields, key) {
        Some(i) => {
            assert(fields.deep_view()[i as int] == fields@[i as int]@);
            match &fields[i].value {
                ExtraValue::Number(n) => if *n >= 0 {
                    #[verifier::truncate]
                    (*n as u64 as usize)
                } else {
                    0
                },
                ExtraValue::Document(document) => match read_level(document.as_str()) {
                    Some(JsonLevel::Number(text)) => {
                        let chars = chars_of(text.as_str());
                        assert(chars@.skip(0) =~= text@);
                        match digits_from(&chars, 0, u64::MAX) {
                            Some(n) =>
                            #[verifier::truncate]
                            (n as usize),
                            None => 0,
                        }
                    },
                    _ => 0,
                },
                _ => 0,
            }
        },
        None => 0,
    }
}

/// The integer in an additional field, where there is one.
pub open spec fn loose_integer(fields: Seq<ExtraFieldModel>, key: Seq<char>) -> Option<i64> {
    match value_of(fields, key) {
        Some(ExtraValueModel::Number(n)) => Some(n),
        Some(ExtraValueModel::Document(document)) => integer_in(Some(document)),
        _ => None,
    }
}

fn read_loose_integer(fields: &Vec<ExtraField>, key: &str) -> (r: Option<i64>)
    ensures
        r == loose_integer(fields.deep_view(), key@),
{
    match find_extra(fields, key) {
        Some(i) => {
            assert(fields.deep_view()[i as int] == fields@[i as int]@);
            match &fields[i].value {
                ExtraValue::Number(n) => Some(*n),
                ExtraValue::Document(document) => {
                    let held = Some(document.dup());
                    read_integer(&held)
                },
                _ => None,
            }
        },
        None => None,
    }
}

/// The workspace of a worker that was ready, under either of its names.
pub open spec fn workspace_value(fields: Seq<ExtraFieldModel>) -> Option<ExtraValueModel> {
    match value_of(fields, "workspace"@) {
        Some(value) => Some(value),
        None => value_of(fields, "workspace_label"@),
    }
}

/// Whether the fields are those of a worker that was ready: what is there has the right type, and the
/// workspace has one name.
pub open spec fn fields_of_ready(fields: Seq<ExtraFieldModel>) -> bool {
    &&& value_of(fields, "workspace"@) is None || value_of(fields, "workspace_label"@) is None
    &&& strict_text(value_of(fields, "adapter"@)) is Some
    &&& strict_text(value_of(fields, "mode"@)) is Some
    &&& strict_text(workspace_value(fields)) is Some
    &&& strict_text(value_of(fields, "pane"@)) is Some
    &&& strict_text(value_of(fields, "pane_id"@)) is Some
    &&& strict_text(value_of(fields, "slice_id"@)) is Some
    &&& strict_count(value_of(fields, "attempt"@)) is Some
    &&& strict_integer(value_of(fields, "launch_id"@)) is Some
    &&& strict_text(value_of(fields, "launch_stem"@)) is Some
    &&& strict_count(value_of(fields, "launch_identity"@)) is Some
    &&& strict_text(value_of(fields, "terminal_id"@)) is Some
    &&& strict_text(value_of(fields, "agent_name"@)) is Some
    &&& strict_text(value_of(fields, "layout_planner"@)) is Some
    &&& strict_text(value_of(fields, "worker_slot_name"@)) is Some
    &&& strict_count(value_of(fields, "worker_slot_index"@)) is Some
    &&& strict_text(value_of(fields, "worker_region"@)) is Some
    &&& strict_text(value_of(fields, "source_of_truth"@)) is Some
}

/// What the fields of a worker that was ready are decoded to.
pub open spec fn strict_ready(fields: Seq<ExtraFieldModel>) -> Option<CockpitWorkerReadyPayloadModel> {
    if fields_of_ready(fields) {
        Some(
            CockpitWorkerReadyPayloadModel {
                adapter: strict_text(value_of(fields, "adapter"@))->0,
                mode: strict_text(value_of(fields, "mode"@))->0,
                workspace: strict_text(workspace_value(fields))->0,
                pane: strict_text(value_of(fields, "pane"@))->0,
                pane_id: strict_text(value_of(fields, "pane_id"@))->0,
                slice_id: strict_text(value_of(fields, "slice_id"@))->0,
                attempt: strict_count(value_of(fields, "attempt"@))->0,
                launch_id: strict_integer(value_of(fields, "launch_id"@))->0,
                launch_stem: strict_text(value_of(fields, "launch_stem"@))->0,
                launch_identity: strict_count(value_of(fields, "launch_identity"@))->0,
                terminal_id: strict_text(value_of(fields, "terminal_id"@))->0,
                agent_name: strict_text(value_of(fields, "agent_name"@))->0,
                layout_planner: strict_text(value_of(fields, "layout_planner"@))->0,
                worker_slot_name: strict_text(value_of(fields, "worker_slot_name"@))->0,
                worker_slot_index: strict_count(value_of(fields, "worker_slot_index"@))->0,
                worker_region: strict_text(value_of(fields, "worker_region"@))->0,
                source_of_truth: strict_text(value_of(fields, "source_of_truth"@))->0,
            },
        )
    } else {
        None
    }
}

fn read_strict_ready(fields: &Vec<ExtraField>) -> (r: Option<CockpitWorkerReadyPayload>)
    ensures
        r.deep_view() == strict_ready(fields.deep_view()),
{
    let named = find_extra(fields, "workspace");
    let labelled = find_extra(fields, "workspace_label");
    if named.is_some() && labelled.is_some() {
        return None;
    }
    let workspace = match named {
        Some(i) => Some(i),
        None => labelled,
    };
    assert(value_at(fields.deep_view(), workspace) == workspace_value(fields.deep_view()));
    let adapter = match read_strict_text(fields, find_extra(fields, "adapter")) {
        Some(value) => value,
        None => {
            return None;
        },
    };
    let mode = match read_strict_text(fields, find_extra(fields, "mode")) {
        Some(value) => value,
        None => {
            return None;
        },
    };
    let workspace = match read_strict_text(fields, workspace) {
        Some(value) => value,
        None => {
            return None;
        },
    };
    let pane = match read_strict_text(fields, find_extra(fields, "pane")) {
        Some(value) => value,
        None => {
            return None;
        },
    };
    let pane_id = match read_strict_text(fields, find_extra(fields, "pane_id")) {
        Some(value) => value,
        None => {
            return None;
        },
    };
    let slice_id = match read_strict_text(fields, find_extra(fields, "slice_id")) {
        Some(value) => value,
        None => {
            return None;
        },
    };
    let attempt = match read_strict_count(fields, find_extra(fields, "attempt")) {
        Some(value) => value,
        None => {
            return None;
        },
    };
    let launch_id = match read_strict_integer(fields, find_extra(fields, "launch_id")) {
        Some(value) => value,
        None => {
            return None;
        },
    };
    let launch_stem = match read_strict_text(fields, find_extra(fields, "launch_stem")) {
        Some(value) => value,
        None => {
            return None;
        },
    };
    let launch_identity = match read_strict_count(fields, find_extra(fields, "launch_identity")) {
        Some(value) => value,
        None => {
            return None;
        },
    };
    let terminal_id = match read_strict_text(fields, find_extra(fields, "terminal_id")) {
        Some(value) => value,
        None => {
            return None;
        },
    };
    let agent_name = match read_strict_text(fields, find_extra(fields, "agent_name")) {
        Some(value) => value,
        None => {
            return None;
        },
    };
    let layout_planner = match read_strict_text(fields, find_extra(fields, "layout_planner")) {
        Some(value) => value,
        None => {
            return None;
        },
    };
    let worker_slot_name = match read_strict_text(fields, find_extra(fields, "worker_slot_name")) {
        Some(value) => value,
        None => {
            return None;
        },
    };
    let worker_slot_index = match read_strict_count(fields, find_extra(fields, "worker_slot_index")) {
        Some(value) => value,
        None => {
            return None;
        },
    };
    let worker_region = match read_strict_text(fields, find_extra(fields, "worker_region")) {
        Some(value) => value,
        None => {
            return None;
        },
    };
    let source_of_truth = match read_strict_text(fields, find_extra(fields, "source_of_truth")) {
        Some(value) => value,
        None => {
            return None;
        },
    };
    Some(
        CockpitWorkerReadyPayload {
            adapter,
            mode,
            workspace,
            pane,
            pane_id,
            slice_id,
            attempt,
            launch_id,
            launch_stem,
            launch_identity,
            terminal_id,
            agent_name,
            layout_planner,
            worker_slot_name,
            worker_slot_index,
            worker_region,
            source_of_truth,
        },
    )
}

/// What can be made out of any fields.
pub open spec fn loose_ready(fields: Seq<ExtraFieldModel>) -> CockpitWorkerReadyPayloadModel {
    CockpitWorkerReadyPayloadModel {
        adapter: text_or(loose_text(fields, "adapter"@), "cockpit"@),
        mode: text_or(loose_text(fields, "mode"@), ""@),
        workspace: text_or(
            loose_text(fields, "workspace"@),
            text_or(loose_text(fields, "workspace_label"@), ""@),
        ),
        pane: text_or(loose_text(fields, "pane"@), ""@),
        pane_id: text_or(loose_text(fields, "pane_id"@), ""@),
        slice_id: text_or(loose_text(fields, "slice_id"@), "slice"@),
        attempt: loose_count(fields, "attempt"@),
        launch_id: loose_integer(fields, "launch_id"@),
        launch_stem: text_or(loose_text(fields, "launch_stem"@), ""@),
        launch_identity: loose_count(fields, "launch_identity"@),
        terminal_id: text_or(loose_text(fields, "terminal_id"@), ""@),
        agent_name: text_or(loose_text(fields, "agent_name"@), ""@),
        layout_planner: text_or(loose_text(fields, "layout_planner"@), ""@),
        worker_slot_name: text_or(loose_text(fields, "worker_slot_name"@), ""@),
        worker_slot_index: loose_count(fields, "worker_slot_index"@),
        worker_region: text_or(loose_text(fields, "worker_region"@), ""@),
        source_of_truth: text_or(loose_text(fields, "source_of_truth"@), ""@),
    }
}

fn read_loose_ready(fields: &Vec<ExtraField>) -> (r: CockpitWorkerReadyPayload)
    ensures
        r@ == loose_ready(fields.deep_view()),
{
    let label = or_else_text(read_loose_text(fields, "workspace_label"), "");
    CockpitWorkerReadyPayload {
        adapter: or_else_text(read_loose_text(fields, "adapter"), "cockpit"),
        mode: or_else_text(read_loose_text(fields, "mode"), ""),
        workspace: or_else_text(read_loose_text(fields, "workspace"), label.as_str()),
        pane: or_else_text(read_loose_text(fields, "pane"), ""),
        pane_id: or_else_text(read_loose_text(fields, "pane_id"), ""),
        slice_id: or_else_text(read_loose_text(fields, "slice_id"), "slice"),
        attempt: read_loose_count(fields, "attempt"),
        launch_id: read_loose_integer(fields, "launch_id"),
        launch_stem: or_else_text(read_loose_text(fields, "launch_stem"), ""),
        launch_identity: read_loose_count(fields, "launch_identity"),
        terminal_id: or_else_text(read_loose_text(fields, "terminal_id"), ""),
        agent_name: or_else_text(read_loose_text(fields, "agent_name"), ""),
        layout_planner: or_else_text(read_loose_text(fields, "layout_planner"), ""),
        worker_slot_name: or_else_text(read_loose_text(fields, "worker_slot_name"), ""),
        worker_slot_index: read_loose_count(fields, "worker_slot_index"),
        worker_region: or_else_text(read_loose_text(fields, "worker_region"), ""),
        source_of_truth: or_else_text(read_loose_text(fields, "source_of_truth"), ""),
    }
}

/// What can be made out of the document of a worker that was ready.
pub open spec fn worker_ready_of(document: Seq<char>) -> CockpitWorkerReadyPayloadModel {
    loose_ready(extra_fields(document))
}

/// The payload, with a general name for an adapter and a slice without one.
pub open spec fn named_ready(payload: CockpitWorkerReadyPayloadModel) -> CockpitWorkerReadyPayloadModel {
    CockpitWorkerReadyPayloadModel {
        adapter: if blank(payload.adapter) {
            "cockpit"@
        } else {
            payload.adapter
        },
        slice_id: if blank(payload.slice_id) {
            "slice"@
        } else {
            payload.slice_id
        },
        ..payload
    }
}

/// The fields of a worker that was ready, in the order in which a list holds them.
pub open spec fn ready_names() -> Seq<Seq<char>> {
    seq![
        "adapter"@,
        "mode"@,
        "workspace"@,
        "pane"@,
        "pane_id"@,
        "slice_id"@,
        "attempt"@,
        "launch_id"@,
        "launch_stem"@,
        "launch_identity"@,
        "terminal_id"@,
        "agent_name"@,
        "layout_planner"@,
        "worker_slot_name"@,
        "worker_slot_index"@,
        "worker_region"@,
        "source_of_truth"@,
    ]
}

/// The items of a list as the fields of a worker that was ready.
pub open spec fn listed_fields(items: Seq<Seq<char>>) -> Seq<ExtraFieldModel> {
    Seq::new(
        items.len(),
        |i: int|
            ExtraFieldModel { key: ready_names()[i], value: ExtraValueModel::Document(items[i]) },
    )
}

/// What fields are decoded to, or else what can be made out of them.
pub open spec fn ready_of_fields(fields: Seq<ExtraFieldModel>) -> CockpitWorkerReadyPayloadModel {
    match strict_ready(fields) {
        Some(payload) => payload,
        None => loose_ready(fields),
    }
}

/// What a document is decoded to, or else what can be made out of it. A list holds the fields in
/// their order.
pub open spec fn ready_of_document(document: Seq<char>) -> CockpitWorkerReadyPayloadModel {
    match json_level(document) {
        Some(JsonLevelModel::List(items)) => if items.len() <= ready_names().len()
            && strict_ready(listed_fields(items)) is Some {
            strict_ready(listed_fields(items))->0
        } else {
            loose_ready(Seq::empty())
        },
        Some(JsonLevelModel::Object(_)) => ready_of_fields(extra_fields(document)),
        _ => loose_ready(Seq::empty()),
    }
}

/// What the payload of an event tells of a worker that was ready, whatever it was recorded as.
pub open spec fn ready_of(payload: EventPayloadModel) -> CockpitWorkerReadyPayloadModel {
    named_ready(
        match payload {
            EventPayloadModel::CockpitWorkerReady(ready) => ready,
            EventPayloadModel::CockpitWorkerRenamed(renamed) => CockpitWorkerReadyPayloadModel {
                adapter: renamed.adapter,
                pane_id: renamed.pane_id,
                slice_id: renamed.slice_id,
                launch_id: renamed.launch_id,
                launch_stem: renamed.launch_stem,
                ..CockpitWorkerReadyPayloadModel::empty()
            },
            EventPayloadModel::RunIncident(incident) => ready_of_fields(incident.extra),
            EventPayloadModel::RunError(error) => ready_of_fields(error.extra),
            EventPayloadModel::Document(document) => ready_of_document(document),
            _ => CockpitWorkerReadyPayloadModel::empty(),
        },
    )
}

fn read_ready_fields(fields: &Vec<ExtraField>) -> (r: CockpitWorkerReadyPayload)
    ensures
        r@ == ready_of_fields(fields.deep_view()),
{
    match read_strict_ready(fields) {
        Some(payload) => payload,
        None => read_loose_ready(fields),
    }
}

fn ready_name(i: usize) -> (r: &'static str)
    requires
        i < 17,
    ensures
        r@ == ready_names()[i as int],
{
    match i {
        0 => "adapter",
        1 => "mode",
        2 => "workspace",
        3 => "pane",
        4 => "pane_id",
        5 => "slice_id",
        6 => "attempt",
        7 => "launch_id",
        8 => "launch_stem",
        9 => "launch_identity",
        10 => "terminal_id",
        11 => "agent_name",
        12 => "layout_planner",
        13 => "worker_slot_name",
        14 => "worker_slot_index",
        15 => "worker_region",
        _ => "source_of_truth",
    }
}

fn listed(items: &Vec<String>) -> (r: Vec<ExtraField>)
    requires
        items.len() <= 17,
    ensures
        r.deep_view() == listed_fields(items.deep_view()),
{
    let mut r: Vec<ExtraField> = Vec::new();
    let ghost all = listed_fields(items.deep_view());
    assert(r.deep_view() =~= all.take(0));
    let mut i: usize = 0;
    while i < items.len()
        invariant
            i <= items.len() <= 17,
            all == listed_fields(items.deep_view()),
            r.deep_view() == all.take(i as int),
        decreases items.len() - i,
    {
        let ghost before = r.deep_view();
        let field = ExtraField {
            key: ready_name(i).to_owned(),
            value: ExtraValue::Document(items[i].dup()),
        };
        assert(all[i as int] == field@);
        r.push(field);
        assert(r.deep_view() =~= before.push(field@));
        assert(all.take(i + 1) =~= all.take(i as int).push(all[i as int]));
        i = i + 1;
    }
    assert(all.take(i as int) =~= all);
    r
}

fn read_ready_document(document: &str) -> (r: CockpitWorkerReadyPayload)
    ensures
        r@ == ready_of_document(document@),
{
    let none: Vec<ExtraField> = Vec::new();
    assert(none.deep_view() =~= Seq::empty());
    match read_level(document) {
        Some(JsonLevel::List(items)) => {
            if items.len() <= 17 {
                let fields = listed(&items);
                match read_strict_ready(&fields) {
                    Some(payload) => payload,
                    None => read_loose_ready(&none),
                }
            } else {
                read_loose_ready(&none)
            }
        },
        Some(JsonLevel::Object(_)) => {
            let fields = object_extra(document);
            read_ready_fields(&fields)
        },
        _ => read_loose_ready(&none),
    }
}

fn with_names(payload: CockpitWorkerReadyPayload) -> (r: CockpitWorkerReadyPayload)
    ensures
        r@ == named_ready(payload@),
{
    let mut r = payload;
    if is_blank(r.adapter.as_str()) {
        r.adapter = "cockpit".to_owned();
    }
    if is_blank(r.slice_id.as_str()) {
        r.slice_id = "slice".to_owned();
    }
    r
}

impl CockpitWorkerReadyPayload {
    /// The payload as it was decoded, or what can be made out of its document. An adapter and a
    /// slice without a name get a general one.
    pub fn from_value(decoded: Option<CockpitWorkerReadyPayload>, document: &str) -> (r:
        CockpitWorkerReadyPayload)
        ensures
            r@ == named_ready(
                match decoded {
                    Some(payload) => payload@,
                    None => worker_ready_of(document@),
                },
            ),
    {
        match decoded {
            Some(payload) => with_names(payload),
            None => {
                let fields = object_extra(document);
                with_names(read_loose_ready(&fields))
            },
        }
    }

    /// What the payload of an event tells of a worker that was ready. A payload that was recorded as
    /// a document is decoded, and read as far as it goes where it cannot be.
    pub fn from_payload(payload: &EventPayload) -> (r: CockpitWorkerReadyPayload)
        ensures
            r@ == ready_of(payload@),
    {
        with_names(
            match payload {
                EventPayload::CockpitWorkerReady(ready) => ready.dup(),
                EventPayload::CockpitWorkerRenamed(renamed) => {
                    let mut ready = CockpitWorkerReadyPayload::default();
                    ready.adapter = renamed.adapter.dup();
                    ready.pane_id = renamed.pane_id.dup();
                    ready.slice_id = renamed.slice_id.dup();
                    ready.launch_id = renamed.launch_id;
                    ready.launch_stem = renamed.launch_stem.dup();
                    ready
                },
                EventPayload::RunIncident(incident) => read_ready_fields(&incident.extra),
                EventPayload::RunError(error) => read_ready_fields(&error.extra),
                EventPayload::Document(document) => read_ready_document(document.as_str()),
                _ => CockpitWorkerReadyPayload::default(),
            },
        )
    }
}

/// An error as it was decoded, or what can be made out of its document.
pub open spec fn run_error_of(
    decoded: Option<RunErrorPayloadModel>,
    document: Seq<char>,
) -> RunErrorPayloadModel {
    let payload = match decoded {
        Some(payload) => payload,
        None => RunErrorPayloadModel {
            error: text_or(
                named_text(document, "error"@),
                text_or(
                    named_text(document, "message"@),
                    text_or(named_text(document, "summary"@), ""@),
                ),
            ),
            extra: extra_fields(document),
        },
    };
    if blank(payload.error) {
        RunErrorPayloadModel {
            error: text_or(
                extra_text(payload.extra, "message"@),
                text_or(extra_text(payload.extra, "summary"@), ""@),
            ),
            ..payload
        }
    } else {
        payload
    }
}

impl RunErrorPayload {
    pub fn new(error: &str) -> (r: RunErrorPayload)
        ensures
            r@ == (RunErrorPayloadModel { error: error@, extra: Seq::empty() }),
    {
        let extra: Vec<ExtraField> = Vec::new();
        assert(extra.deep_view() =~= Seq::empty());
        RunErrorPayload { error: error.to_owned(), extra }
    }

    /// The payload as it was decoded, or what can be made out of its document. A blank error is
    /// taken from the message or the summary.
    pub fn from_value(decoded: Option<RunErrorPayload>, document: &str) -> (r: RunErrorPayload)
        ensures
            r@ == run_error_of(decoded.deep_view(), document@),
    {
        let mut payload = match decoded {
            Some(payload) => payload,
            None => RunErrorPayload::legacy(document),
        };
        if is_blank(payload.error.as_str()) {
            let summary = or_else_text(read_extra_text(&payload.extra, "summary"), "");
            payload.error = or_else_text(
                read_extra_text(&payload.extra, "message"),
                summary.as_str(),
            );
        }
        payload
    }

    fn legacy(document: &str) -> (r: RunErrorPayload)
        ensures
            r@ == (RunErrorPayloadModel {
                error: text_or(
                    named_text(document@, "error"@),
                    text_or(
                        named_text(document@, "message"@),
                        text_or(named_text(document@, "summary"@), ""@),
                    ),
                ),
                extra: extra_fields(document@),
            }),
    {
        let summary = or_else_text(text_named(document, "summary"), "");
        let message = or_else_text(text_named(document, "message"), summary.as_str());
        RunErrorPayload {
            error: or_else_text(text_named(document, "error"), message.as_str()),
            extra: object_extra(document),
        }
    }
}

/// What a value says in words: a text without the white space round it, a whole number as it is written, a
/// flag by its name; nothing where the value is null, a list or an object, or no JSON at all.
pub proof fn law_words_of_a_value(document: Seq<char>)
    ensures
        match json_level(document) {
            Some(JsonLevelModel::Text(text)) => plain_text(document) == Some(trim(text)),
            Some(JsonLevelModel::Number(text)) => whole(text) ==> plain_text(document) == Some(text),
            Some(JsonLevelModel::Flag(true)) => plain_text(document) == Some("true"@),
            Some(JsonLevelModel::Flag(false)) => plain_text(document) == Some("false"@),
            _ => plain_text(document) is None,
        },
{
}

/// What a document says under a name is never blank: a member that is missing, says nothing or says only
/// white space counts as none.
pub proof fn law_words_under_a_name(document: Seq<char>, name: Seq<char>)
    ensures
        named_text(document, name) matches Some(text) ==> !blank(text) && (member(document, name)
            matches Some(value) && plain_text(value) == Some(text)),
        named_text(document, name) is None <==> (member(document, name) is None || plain_text(
            member(document, name)->0,
        ) is None || blank(plain_text(member(document, name)->0)->0)),
        flag_under(document, name) <==> (member(document, name) matches Some(value) && json_level(
            value,
        ) == Some(JsonLevelModel::Flag(true))),
        present_under(document, name) is Some <==> (member(document, name) matches Some(value)
            && json_level(value) != Some(JsonLevelModel::Null)),
        present_under(document, name) is Some ==> present_under(document, name) == member(
            document,
            name,
        ),
{
}

/// A summary in an older form is read member by member: lists that are missing are empty, a part that is
/// missing or null is none, and words that are missing are empty.
pub proof fn law_older_summary_is_read(document: Seq<char>)
    ensures
        ({
            let it = implementation_summary_of(document);
            let words = |name: Seq<char>|
                match named_text(document, name) {
                    Some(text) => text,
                    None => ""@,
                };
            let items = items_in(member(document, "completed_slices"@));
            &&& items is Some ==> it.completed_slices == items->0
            &&& items is None ==> it.completed_slices.len() == 0
            &&& it.integration_gate == present_under(document, "integration_gate"@)
            &&& it.pre_repair_integration_gate == present_under(
                document,
                "pre_repair_integration_gate"@,
            )
            &&& it.integration_repair == present_under(document, "integration_repair"@)
            &&& it.exit_states == present_under(document, "exit_states"@)
            &&& it.verify_profile == words("verify_profile"@)
            &&& it.final_sha == words("final_sha"@)
        }),
{
}

/// The words of an error: those that it was recorded with where they are not blank, else its message, else
/// its summary. An error in an older form is read by its error, its message or its summary, and keeps all
/// that it says.
pub proof fn law_words_of_an_error(decoded: Option<RunErrorPayloadModel>, document: Seq<char>)
    ensures
        ({
            let it = run_error_of(decoded, document);
            let older = |name: Seq<char>| named_text(document, name);
            &&& decoded matches Some(payload) ==> it.extra == payload.extra
            &&& decoded matches Some(payload) ==> !blank(payload.error) ==> it == payload
            &&& decoded matches Some(payload) ==> blank(payload.error) ==> it.error == (
            match extra_text(payload.extra, "message"@) {
                Some(text) => text,
                None => match extra_text(payload.extra, "summary"@) {
                    Some(text) => text,
                    None => ""@,
                },
            })
            &&& decoded is None ==> it.extra == extra_fields(document)
            &&& decoded is None && older("error"@) is Some ==> it.error == older("error"@)->0
            &&& decoded is None && older("error"@) is None && older("message"@) is Some ==> it.error
                == older("message"@)->0
            &&& decoded is None && older("error"@) is None && older("message"@) is None && older(
                "summary"@,
            ) is Some ==> it.error == older("summary"@)->0
        }),
{
    law_words_under_a_name(document, "error"@);
    law_words_under_a_name(document, "message"@);
    law_words_under_a_name(document, "summary"@);
}

/// A worker that is ready has an adapter and a slice by name, whatever was recorded: names that are blank
/// stand for the cockpit and for a slice. What was recorded in full is kept as it is.
pub proof fn law_ready_worker_is_named(payload: EventPayloadModel)
    ensures
        ({
            let it = ready_of(payload);
            &&& !blank(it.adapter)
            &&& !blank(it.slice_id)
            &&& payload matches EventPayloadModel::CockpitWorkerReady(ready) ==> it
                == CockpitWorkerReadyPayloadModel {
                adapter: if blank(ready.adapter) {
                    "cockpit"@
                } else {
                    ready.adapter
                },
                slice_id: if blank(ready.slice_id) {
                    "slice"@
                } else {
                    ready.slice_id
                },
                ..ready
            }
            &&& payload matches EventPayloadModel::CockpitWorkerRenamed(renamed) ==> it.pane_id
                == renamed.pane_id && it.launch_id == renamed.launch_id && it.launch_stem
                == renamed.launch_stem && (!blank(renamed.adapter) ==> it.adapter
                == renamed.adapter) && (!blank(renamed.slice_id) ==> it.slice_id
                == renamed.slice_id)
        }),
{
    reveal_strlit("cockpit");
    reveal_strlit("slice");
    crate::text::lemma_blank("cockpit"@);
    crate::text::lemma_blank("slice"@);
    assert("cockpit"@[0] == 'c' && "slice"@[0] == 's');
}

/// A ready worker in an older form is read name by name: a count that is no whole number is none, words
/// that are missing are empty, and an older name of the workspace stands in for it.
pub proof fn law_older_ready_worker_is_read(fields: Seq<ExtraFieldModel>)
    ensures
        ({
            let it = loose_ready(fields);
            let words = |key: Seq<char>|
                match loose_text(fields, key) {
                    Some(text) => text,
                    None => ""@,
                };
            &&& it.mode == words("mode"@)
            &&& it.pane == words("pane"@)
            &&& it.pane_id == words("pane_id"@)
            &&& it.launch_stem == words("launch_stem"@)
            &&& it.terminal_id == words("terminal_id"@)
            &&& it.agent_name == words("agent_name"@)
            &&& it.layout_planner == words("layout_planner"@)
            &&& it.worker_slot_name == words("worker_slot_name"@)
            &&& it.worker_region == words("worker_region"@)
            &&& it.source_of_truth == words("source_of_truth"@)
            &&& it.workspace == if loose_text(fields, "workspace"@) is Some {
                words("workspace"@)
            } else {
                words("workspace_label"@)
            }
            &&& it.adapter == if loose_text(fields, "adapter"@) is Some {
                words("adapter"@)
            } else {
                "cockpit"@
            }
            &&& it.slice_id == if loose_text(fields, "slice_id"@) is Some {
                words("slice_id"@)
            } else {
                "slice"@
            }
            &&& it.attempt == loose_count(fields, "attempt"@)
            &&& it.launch_identity == loose_count(fields, "launch_identity"@)
            &&& it.worker_slot_index == loose_count(fields, "worker_slot_index"@)
            &&& it.launch_id == loose_integer(fields, "launch_id"@)
        }),
{
}

/// What a field says: words are never blank, a missing field says nothing, and the first field of a name
/// is the one that counts.
pub proof fn law_words_of_a_field(fields: Seq<ExtraFieldModel>, key: Seq<char>, i: int)
    requires
        0 <= i < fields.len(),
        fields[i].key == key,
        forall|j: int| 0 <= j < i ==> (#[trigger] fields[j]).key != key,
    ensures
        value_of(fields, key) == Some(fields[i].value),
        loose_text(fields, key) matches Some(text) ==> !blank(text),
        match fields[i].value {
            ExtraValueModel::Null => extra_text(fields, key) is None,
            ExtraValueModel::Text(text) => extra_text(fields, key) == Some(trim(text)),
            ExtraValueModel::Number(n) => extra_text(fields, key) == Some(decimal_int(n as int))
                && loose_integer(fields, key) == Some(n) && (n < 0 ==> loose_count(fields, key)
                == 0),
            ExtraValueModel::Document(document) => extra_text(fields, key) == plain_text(document),
        },
{
    lemma_first_field(fields, key, i);
}

proof fn lemma_first_field(fields: Seq<ExtraFieldModel>, key: Seq<char>, i: int)
    requires
        0 <= i < fields.len(),
        fields[i].key == key,
        forall|j: int| 0 <= j < i ==> (#[trigger] fields[j]).key != key,
    ensures
        first(fields, extra_named(key)) == Some(fields[i]),
    decreases i,
{
    if i > 0 {
        let rest = fields.drop_first();
        assert(fields[0].key != key);
        assert forall|j: int| 0 <= j < i - 1 implies (#[trigger] rest[j]).key != key by {
            assert(rest[j] == fields[j + 1]);
        }
        lemma_first_field(rest, key, i - 1);
    }
}

/// Fields that are read to the letter: a missing text is empty and a missing count is none at all, and a
/// value of another kind is not taken for one.
pub proof fn law_fields_to_the_letter(text: Seq<char>, n: i64)
    ensures
        strict_text(None) == Some(Seq::<char>::empty()),
        strict_text(Some(ExtraValueModel::Text(text))) == Some(text),
        strict_text(Some(ExtraValueModel::Null)) is None,
        strict_text(Some(ExtraValueModel::Number(n))) is None,
        strict_count(None) == Some(0usize),
        strict_count(Some(ExtraValueModel::Text(text))) is None,
        0 <= n <= usize::MAX ==> strict_count(Some(ExtraValueModel::Number(n))) == Some(n as usize),
        n < 0 ==> strict_count(Some(ExtraValueModel::Number(n))) is None,
        strict_integer(None) == Some(None::<i64>),
        strict_integer(Some(ExtraValueModel::Null)) == Some(None::<i64>),
        strict_integer(Some(ExtraValueModel::Number(n))) == Some(Some(n)),
        strict_integer(Some(ExtraValueModel::Text(text))) is None,
{
}

} // verus!
