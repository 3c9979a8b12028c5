//! What events carry.
//!
//! Each event kind that the library writes or reads has its payload type here; a payload of any
//! other kind is kept as the document it came in.
use crate::domain::{
    AutonomyLevel, FrontierBudgetState, FrontierBudgetStateModel, IntegrationMergeIntent,
    IntegrationMergeIntentModel, MissionEnvelope, MissionEnvelopeModel, ReplanDecision,
    ReplanDecisionModel, ReplanProposalSource, ReplanProposalSourceModel, ReplanProposalState,
    ReplanProposedChange, ReplanProposedChangeModel, RunLaunchIntent, RunLaunchIntentModel,
    RunLaunchState, RunProgress, RunProgressModel, RunStatus,
};
use crate::table::Row;
use crate::time::Timestamp;
use vstd::prelude::*;

verus! {

/// A value of an additional field. What is neither text nor a whole number stands as the text of a JSON document.
#[derive(Debug, Clone, PartialEq, Eq)]
pub enum ExtraValue {
    Null,
    Text(String),
    Number(i64),
    Document(String),
}

#[verifier::ext_equal]
pub enum ExtraValueModel {
    Null,
    Text(Seq<char>),
    Number(i64),
    Document(Seq<char>),
}

impl DeepView for ExtraValue {
    type V = ExtraValueModel;

    open spec fn deep_view(&self) -> ExtraValueModel {
        match self {
            ExtraValue::Null => ExtraValueModel::Null,
            ExtraValue::Text(value) => ExtraValueModel::Text(value.deep_view()),
            ExtraValue::Number(value) => ExtraValueModel::Number(value.deep_view()),
            ExtraValue::Document(value) => ExtraValueModel::Document(value.deep_view()),
        }
    }
}

impl View for ExtraValue {
    type V = ExtraValueModel;

    open spec fn view(&self) -> ExtraValueModel {
        self.deep_view()
    }
}

impl Row for ExtraValue {
    fn dup(&self) -> (r: Self) {
        match self {
            ExtraValue::Null => ExtraValue::Null,
            ExtraValue::Text(value) => ExtraValue::Text(value.dup()),
            ExtraValue::Number(value) => ExtraValue::Number(value.dup()),
            ExtraValue::Document(value) => ExtraValue::Document(value.dup()),
        }
    }

    fn same(&self, other: &Self) -> (r: bool) {
        match (self, other) {
            (ExtraValue::Null, ExtraValue::Null) => true,
            (ExtraValue::Text(a), ExtraValue::Text(b)) => a.same(b),
            (ExtraValue::Number(a), ExtraValue::Number(b)) => a.same(b),
            (ExtraValue::Document(a), ExtraValue::Document(b)) => a.same(b),
            _ => false,
        }
    }
}

/// An additional field of a payload.
#[derive(Debug, Clone, PartialEq, Eq)]
pub struct ExtraField {
    pub key: String,
    pub value: ExtraValue,
}

#[verifier::ext_equal]
pub struct ExtraFieldModel {
    pub key: Seq<char>,
    pub value: ExtraValueModel,
}

impl DeepView for ExtraField {
    type V = ExtraFieldModel;

    open spec fn deep_view(&self) -> ExtraFieldModel {
        ExtraFieldModel {
            key: self.key.deep_view(),
            value: self.value.deep_view(),
        }
    }
}

impl View for ExtraField {
    type V = ExtraFieldModel;

    open spec fn view(&self) -> ExtraFieldModel {
        self.deep_view()
    }
}

impl Row for ExtraField {
    fn dup(&self) -> (r: Self) {
        ExtraField {
            key: self.key.dup(),
            value: self.value.dup(),
        }
    }

    fn same(&self, other: &Self) -> (r: bool) {
        self.key.same(&other.key)
            && self.value.same(&other.value)
    }
}

/// Where notifications of a run go.
#[derive(Debug, Clone, PartialEq, Eq)]
pub struct OriginNotificationTargetRecordedPayload {
    pub path: String,
    pub target_kind: String,
    pub delivery_adapter: String,
    pub delivery_surface: String,
}

#[verifier::ext_equal]
pub struct OriginNotificationTargetRecordedPayloadModel {
    pub path: Seq<char>,
    pub target_kind: Seq<char>,
    pub delivery_adapter: Seq<char>,
    pub delivery_surface: Seq<char>,
}

impl DeepView for OriginNotificationTargetRecordedPayload {
    type V = OriginNotificationTargetRecordedPayloadModel;

    open spec fn deep_view(&self) -> OriginNotificationTargetRecordedPayloadModel {
        OriginNotificationTargetRecordedPayloadModel {
            path: self.path.deep_view(),
            target_kind: self.target_kind.deep_view(),
            delivery_adapter: self.delivery_adapter.deep_view(),
            delivery_surface: self.delivery_surface.deep_view(),
        }
    }
}

impl View for OriginNotificationTargetRecordedPayload {
    type V = OriginNotificationTargetRecordedPayloadModel;

    open spec fn view(&self) -> OriginNotificationTargetRecordedPayloadModel {
        self.deep_view()
    }
}

impl Row for OriginNotificationTargetRecordedPayload {
    fn dup(&self) -> (r: Self) {
        OriginNotificationTargetRecordedPayload {
            path: self.path.dup(),
            target_kind: self.target_kind.dup(),
            delivery_adapter: self.delivery_adapter.dup(),
            delivery_surface: self.delivery_surface.dup(),
        }
    }

    fn same(&self, other: &Self) -> (r: bool) {
        self.path.same(&other.path)
            && self.target_kind.same(&other.target_kind)
            && self.delivery_adapter.same(&other.delivery_adapter)
            && self.delivery_surface.same(&other.delivery_surface)
    }
}

impl Default for OriginNotificationTargetRecordedPayload {
    fn default() -> (r: Self)
        ensures
            r@ == OriginNotificationTargetRecordedPayloadModel::empty(),
    {
        let r = OriginNotificationTargetRecordedPayload {
            path: String::new(),
            target_kind: String::new(),
            delivery_adapter: String::new(),
            delivery_surface: String::new(),
        };
        assert(r@ =~= OriginNotificationTargetRecordedPayloadModel::empty());
        r
    }
}

impl OriginNotificationTargetRecordedPayloadModel {
    /// All texts and lists empty, all numbers zero, all flags off.
    pub open spec fn empty() -> OriginNotificationTargetRecordedPayloadModel {
        OriginNotificationTargetRecordedPayloadModel {
            path: Seq::<char>::empty(),
            target_kind: Seq::<char>::empty(),
            delivery_adapter: Seq::<char>::empty(),
            delivery_surface: Seq::<char>::empty(),
        }
    }
}

/// The authority that a run was given.
#[derive(Debug, Clone, PartialEq, Eq)]
pub struct MissionEnvelopeRecordedPayload {
    pub mission_envelope: MissionEnvelope,
    pub frontier_budget: Option<FrontierBudgetState>,
    pub autonomy_effective: String,
    pub authority: String,
}

#[verifier::ext_equal]
pub struct MissionEnvelopeRecordedPayloadModel {
    pub mission_envelope: MissionEnvelopeModel,
    pub frontier_budget: Option<FrontierBudgetStateModel>,
    pub autonomy_effective: Seq<char>,
    pub authority: Seq<char>,
}

impl DeepView for MissionEnvelopeRecordedPayload {
    type V = MissionEnvelopeRecordedPayloadModel;

    open spec fn deep_view(&self) -> MissionEnvelopeRecordedPayloadModel {
        MissionEnvelopeRecordedPayloadModel {
            mission_envelope: self.mission_envelope.deep_view(),
            frontier_budget: self.frontier_budget.deep_view(),
            autonomy_effective: self.autonomy_effective.deep_view(),
            authority: self.authority.deep_view(),
        }
    }
}

impl View for MissionEnvelopeRecordedPayload {
    type V = MissionEnvelopeRecordedPayloadModel;

    open spec fn view(&self) -> MissionEnvelopeRecordedPayloadModel {
        self.deep_view()
    }
}

impl Row for MissionEnvelopeRecordedPayload {
    fn dup(&self) -> (r: Self) {
        MissionEnvelopeRecordedPayload {
            mission_envelope: self.mission_envelope.dup(),
            frontier_budget: self.frontier_budget.dup(),
            autonomy_effective: self.autonomy_effective.dup(),
            authority: self.authority.dup(),
        }
    }

    fn same(&self, other: &Self) -> (r: bool) {
        self.mission_envelope.same(&other.mission_envelope)
            && self.frontier_budget.same(&other.frontier_budget)
            && self.autonomy_effective.same(&other.autonomy_effective)
            && self.authority.same(&other.authority)
    }
}

/// Something that the operator should know of.
#[derive(Debug, Clone, PartialEq, Eq)]
pub struct RunIncidentPayload {
    pub severity: String,
    pub kind: String,
    pub message: String,
    pub failure_kind: String,
    pub resolution_owner: String,
    pub operator_action_required: Option<bool>,
    pub retryable: Option<bool>,
    pub fix_commands: Vec<String>,
    pub extra: Vec<ExtraField>,
}

#[verifier::ext_equal]
pub struct RunIncidentPayloadModel {
    pub severity: Seq<char>,
    pub kind: Seq<char>,
    pub message: Seq<char>,
    pub failure_kind: Seq<char>,
    pub resolution_owner: Seq<char>,
    pub operator_action_required: Option<bool>,
    pub retryable: Option<bool>,
    pub fix_commands: Seq<Seq<char>>,
    pub extra: Seq<ExtraFieldModel>,
}

impl DeepView for RunIncidentPayload {
    type V = RunIncidentPayloadModel;

    open spec fn deep_view(&self) -> RunIncidentPayloadModel {
        RunIncidentPayloadModel {
            severity: self.severity.deep_view(),
            kind: self.kind.deep_view(),
            message: self.message.deep_view(),
            failure_kind: self.failure_kind.deep_view(),
            resolution_owner: self.resolution_owner.deep_view(),
            operator_action_required: self.operator_action_required.deep_view(),
            retryable: self.retryable.deep_view(),
            fix_commands: self.fix_commands.deep_view(),
            extra: self.extra.deep_view(),
        }
    }
}

impl View for RunIncidentPayload {
    type V = RunIncidentPayloadModel;

    open spec fn view(&self) -> RunIncidentPayloadModel {
        self.deep_view()
    }
}

impl Row for RunIncidentPayload {
    fn dup(&self) -> (r: Self) {
        RunIncidentPayload {
            severity: self.severity.dup(),
            kind: self.kind.dup(),
            message: self.message.dup(),
            failure_kind: self.failure_kind.dup(),
            resolution_owner: self.resolution_owner.dup(),
            operator_action_required: self.operator_action_required.dup(),
            retryable: self.retryable.dup(),
            fix_commands: self.fix_commands.dup(),
            extra: self.extra.dup(),
        }
    }

    fn same(&self, other: &Self) -> (r: bool) {
        self.severity.same(&other.severity)
            && self.kind.same(&other.kind)
            && self.message.same(&other.message)
            && self.failure_kind.same(&other.failure_kind)
            && self.resolution_owner.same(&other.resolution_owner)
            && self.operator_action_required.same(&other.operator_action_required)
            && self.retryable.same(&other.retryable)
            && self.fix_commands.same(&other.fix_commands)
            && self.extra.same(&other.extra)
    }
}

impl Default for RunIncidentPayload {
    fn default() -> (r: Self)
        ensures
            r@ == RunIncidentPayloadModel::empty(),
    {
        let r = RunIncidentPayload {
            severity: String::new(),
            kind: String::new(),
            message: String::new(),
            failure_kind: String::new(),
            resolution_owner: String::new(),
            operator_action_required: None,
            retryable: None,
            fix_commands: Vec::new(),
            extra: Vec::new(),
        };
        assert(r@ =~= RunIncidentPayloadModel::empty());
        r
    }
}

impl RunIncidentPayloadModel {
    /// All texts and lists empty, all numbers zero, all flags off.
    pub open spec fn empty() -> RunIncidentPayloadModel {
        RunIncidentPayloadModel {
            severity: Seq::<char>::empty(),
            kind: Seq::<char>::empty(),
            message: Seq::<char>::empty(),
            failure_kind: Seq::<char>::empty(),
            resolution_owner: Seq::<char>::empty(),
            operator_action_required: None,
            retryable: None,
            fix_commands: Seq::empty(),
            extra: Seq::empty(),
        }
    }
}

/// Why a run failed.
#[derive(Debug, Clone, PartialEq, Eq)]
pub struct RunErrorPayload {
    pub error: String,
    pub extra: Vec<ExtraField>,
}

#[verifier::ext_equal]
pub struct RunErrorPayloadModel {
    pub error: Seq<char>,
    pub extra: Seq<ExtraFieldModel>,
}

impl DeepView for RunErrorPayload {
    type V = RunErrorPayloadModel;

    open spec fn deep_view(&self) -> RunErrorPayloadModel {
        RunErrorPayloadModel {
            error: self.error.deep_view(),
            extra: self.extra.deep_view(),
        }
    }
}

impl View for RunErrorPayload {
    type V = RunErrorPayloadModel;

    open spec fn view(&self) -> RunErrorPayloadModel {
        self.deep_view()
    }
}

impl Row for RunErrorPayload {
    fn dup(&self) -> (r: Self) {
        RunErrorPayload {
            error: self.error.dup(),
            extra: self.extra.dup(),
        }
    }

    fn same(&self, other: &Self) -> (r: bool) {
        self.error.same(&other.error)
            && self.extra.same(&other.extra)
    }
}

impl Default for RunErrorPayload {
    fn default() -> (r: Self)
        ensures
            r@ == RunErrorPayloadModel::empty(),
    {
        let r = RunErrorPayload {
            error: String::new(),
            extra: Vec::new(),
        };
        assert(r@ =~= RunErrorPayloadModel::empty());
        r
    }
}

impl RunErrorPayloadModel {
    /// All texts and lists empty, all numbers zero, all flags off.
    pub open spec fn empty() -> RunErrorPayloadModel {
        RunErrorPayloadModel {
            error: Seq::<char>::empty(),
            extra: Seq::empty(),
        }
    }
}

/// A launch that ended with its run.
#[derive(Debug, Clone, PartialEq, Eq)]
pub struct RunLaunchInterruptedPayload {
    pub state: RunLaunchState,
    pub terminal_status: RunStatus,
    pub primary_cause: String,
}

#[verifier::ext_equal]
pub struct RunLaunchInterruptedPayloadModel {
    pub state: RunLaunchState,
    pub terminal_status: RunStatus,
    pub primary_cause: Seq<char>,
}

impl DeepView for RunLaunchInterruptedPayload {
    type V = RunLaunchInterruptedPayloadModel;

    open spec fn deep_view(&self) -> RunLaunchInterruptedPayloadModel {
        RunLaunchInterruptedPayloadModel {
            state: self.state.deep_view(),
            terminal_status: self.terminal_status.deep_view(),
            primary_cause: self.primary_cause.deep_view(),
        }
    }
}

impl View for RunLaunchInterruptedPayload {
    type V = RunLaunchInterruptedPayloadModel;

    open spec fn view(&self) -> RunLaunchInterruptedPayloadModel {
        self.deep_view()
    }
}

impl Row for RunLaunchInterruptedPayload {
    fn dup(&self) -> (r: Self) {
        RunLaunchInterruptedPayload {
            state: self.state.dup(),
            terminal_status: self.terminal_status.dup(),
            primary_cause: self.primary_cause.dup(),
        }
    }

    fn same(&self, other: &Self) -> (r: bool) {
        self.state.same(&other.state)
            && self.terminal_status.same(&other.terminal_status)
            && self.primary_cause.same(&other.primary_cause)
    }
}

/// A slice that reached the integration branch.
#[derive(Debug, Clone, PartialEq, Eq)]
pub struct SliceMergedPayload {
    pub slice_id: String,
    pub commit_sha: String,
}

#[verifier::ext_equal]
pub struct SliceMergedPayloadModel {
    pub slice_id: Seq<char>,
    pub commit_sha: Seq<char>,
}

impl DeepView for SliceMergedPayload {
    type V = SliceMergedPayloadModel;

    open spec fn deep_view(&self) -> SliceMergedPayloadModel {
        SliceMergedPayloadModel {
            slice_id: self.slice_id.deep_view(),
            commit_sha: self.commit_sha.deep_view(),
        }
    }
}

impl View for SliceMergedPayload {
    type V = SliceMergedPayloadModel;

    open spec fn view(&self) -> SliceMergedPayloadModel {
        self.deep_view()
    }
}

impl Row for SliceMergedPayload {
    fn dup(&self) -> (r: Self) {
        SliceMergedPayload {
            slice_id: self.slice_id.dup(),
            commit_sha: self.commit_sha.dup(),
        }
    }

    fn same(&self, other: &Self) -> (r: bool) {
        self.slice_id.same(&other.slice_id)
            && self.commit_sha.same(&other.commit_sha)
    }
}

impl Default for SliceMergedPayload {
    fn default() -> (r: Self)
        ensures
            r@ == SliceMergedPayloadModel::empty(),
    {
        let r = SliceMergedPayload {
            slice_id: String::new(),
            commit_sha: String::new(),
        };
        assert(r@ =~= SliceMergedPayloadModel::empty());
        r
    }
}

impl SliceMergedPayloadModel {
    /// All texts and lists empty, all numbers zero, all flags off.
    pub open spec fn empty() -> SliceMergedPayloadModel {
        SliceMergedPayloadModel {
            slice_id: Seq::<char>::empty(),
            commit_sha: Seq::<char>::empty(),
        }
    }
}

/// A launch that got its identity.
#[derive(Debug, Clone, PartialEq, Eq)]
pub struct WorkerAttemptAllocatedPayload {
    pub launch_id: i64,
    pub slice_id: String,
    pub launch_ordinal: usize,
    pub execution_epoch: usize,
    pub worker_retry_ordinal: usize,
    pub repair_ordinal: usize,
    pub envelope_retry_ordinal: usize,
    pub kind: String,
    pub state: String,
    pub output_stem: String,
}

#[verifier::ext_equal]
pub struct WorkerAttemptAllocatedPayloadModel {
    pub launch_id: i64,
    pub slice_id: Seq<char>,
    pub launch_ordinal: usize,
    pub execution_epoch: usize,
    pub worker_retry_ordinal: usize,
    pub repair_ordinal: usize,
    pub envelope_retry_ordinal: usize,
    pub kind: Seq<char>,
    pub state: Seq<char>,
    pub output_stem: Seq<char>,
}

impl DeepView for WorkerAttemptAllocatedPayload {
    type V = WorkerAttemptAllocatedPayloadModel;

    open spec fn deep_view(&self) -> WorkerAttemptAllocatedPayloadModel {
        WorkerAttemptAllocatedPayloadModel {
            launch_id: self.launch_id.deep_view(),
            slice_id: self.slice_id.deep_view(),
            launch_ordinal: self.launch_ordinal.deep_view(),
            execution_epoch: self.execution_epoch.deep_view(),
            worker_retry_ordinal: self.worker_retry_ordinal.deep_view(),
            repair_ordinal: self.repair_ordinal.deep_view(),
            envelope_retry_ordinal: self.envelope_retry_ordinal.deep_view(),
            kind: self.kind.deep_view(),
            state: self.state.deep_view(),
            output_stem: self.output_stem.deep_view(),
        }
    }
}

impl View for WorkerAttemptAllocatedPayload {
    type V = WorkerAttemptAllocatedPayloadModel;

    open spec fn view(&self) -> WorkerAttemptAllocatedPayloadModel {
        self.deep_view()
    }
}

impl Row for WorkerAttemptAllocatedPayload {
    fn dup(&self) -> (r: Self) {
        WorkerAttemptAllocatedPayload {
            launch_id: self.launch_id.dup(),
            slice_id: self.slice_id.dup(),
            launch_ordinal: self.launch_ordinal.dup(),
            execution_epoch: self.execution_epoch.dup(),
            worker_retry_ordinal: self.worker_retry_ordinal.dup(),
            repair_ordinal: self.repair_ordinal.dup(),
            envelope_retry_ordinal: self.envelope_retry_ordinal.dup(),
            kind: self.kind.dup(),
            state: self.state.dup(),
            output_stem: self.output_stem.dup(),
        }
    }

    fn same(&self, other: &Self) -> (r: bool) {
        self.launch_id.same(&other.launch_id)
            && self.slice_id.same(&other.slice_id)
            && self.launch_ordinal.same(&other.launch_ordinal)
            && self.execution_epoch.same(&other.execution_epoch)
            && self.worker_retry_ordinal.same(&other.worker_retry_ordinal)
            && self.repair_ordinal.same(&other.repair_ordinal)
            && self.envelope_retry_ordinal.same(&other.envelope_retry_ordinal)
            && self.kind.same(&other.kind)
            && self.state.same(&other.state)
            && self.output_stem.same(&other.output_stem)
    }
}

impl Default for WorkerAttemptAllocatedPayload {
    fn default() -> (r: Self)
        ensures
            r@ == WorkerAttemptAllocatedPayloadModel::empty(),
    {
        let r = WorkerAttemptAllocatedPayload {
            launch_id: 0,
            slice_id: String::new(),
            launch_ordinal: 0,
            execution_epoch: 0,
            worker_retry_ordinal: 0,
            repair_ordinal: 0,
            envelope_retry_ordinal: 0,
            kind: String::new(),
            state: String::new(),
            output_stem: String::new(),
        };
        assert(r@ =~= WorkerAttemptAllocatedPayloadModel::empty());
        r
    }
}

impl WorkerAttemptAllocatedPayloadModel {
    /// All texts and lists empty, all numbers zero, all flags off.
    pub open spec fn empty() -> WorkerAttemptAllocatedPayloadModel {
        WorkerAttemptAllocatedPayloadModel {
            launch_id: 0,
            slice_id: Seq::<char>::empty(),
            launch_ordinal: 0,
            execution_epoch: 0,
            worker_retry_ordinal: 0,
            repair_ordinal: 0,
            envelope_retry_ordinal: 0,
            kind: Seq::<char>::empty(),
            state: Seq::<char>::empty(),
            output_stem: Seq::<char>::empty(),
        }
    }
}

/// A worker that started.
#[derive(Debug, Clone, PartialEq, Eq)]
pub struct WorkerAttemptLaunchedPayload {
    pub launch_id: i64,
    pub slice_id: String,
}

#[verifier::ext_equal]
pub struct WorkerAttemptLaunchedPayloadModel {
    pub launch_id: i64,
    pub slice_id: Seq<char>,
}

impl DeepView for WorkerAttemptLaunchedPayload {
    type V = WorkerAttemptLaunchedPayloadModel;

    open spec fn deep_view(&self) -> WorkerAttemptLaunchedPayloadModel {
        WorkerAttemptLaunchedPayloadModel {
            launch_id: self.launch_id.deep_view(),
            slice_id: self.slice_id.deep_view(),
        }
    }
}

impl View for WorkerAttemptLaunchedPayload {
    type V = WorkerAttemptLaunchedPayloadModel;

    open spec fn view(&self) -> WorkerAttemptLaunchedPayloadModel {
        self.deep_view()
    }
}

impl Row for WorkerAttemptLaunchedPayload {
    fn dup(&self) -> (r: Self) {
        WorkerAttemptLaunchedPayload {
            launch_id: self.launch_id.dup(),
            slice_id: self.slice_id.dup(),
        }
    }

    fn same(&self, other: &Self) -> (r: bool) {
        self.launch_id.same(&other.launch_id)
            && self.slice_id.same(&other.slice_id)
    }
}

impl Default for WorkerAttemptLaunchedPayload {
    fn default() -> (r: Self)
        ensures
            r@ == WorkerAttemptLaunchedPayloadModel::empty(),
    {
        let r = WorkerAttemptLaunchedPayload {
            launch_id: 0,
            slice_id: String::new(),
        };
        assert(r@ =~= WorkerAttemptLaunchedPayloadModel::empty());
        r
    }
}

impl WorkerAttemptLaunchedPayloadModel {
    /// All texts and lists empty, all numbers zero, all flags off.
    pub open spec fn empty() -> WorkerAttemptLaunchedPayloadModel {
        WorkerAttemptLaunchedPayloadModel {
            launch_id: 0,
            slice_id: Seq::<char>::empty(),
        }
    }
}

/// A worker that ended.
#[derive(Debug, Clone, PartialEq, Eq)]
pub struct WorkerAttemptFinishedPayload {
    pub launch_id: i64,
    pub slice_id: String,
    pub state: String,
    pub failure_cause: String,
}

#[verifier::ext_equal]
pub struct WorkerAttemptFinishedPayloadModel {
    pub launch_id: i64,
    pub slice_id: Seq<char>,
    pub state: Seq<char>,
    pub failure_cause: Seq<char>,
}

impl DeepView for WorkerAttemptFinishedPayload {
    type V = WorkerAttemptFinishedPayloadModel;

    open spec fn deep_view(&self) -> WorkerAttemptFinishedPayloadModel {
        WorkerAttemptFinishedPayloadModel {
            launch_id: self.launch_id.deep_view(),
            slice_id: self.slice_id.deep_view(),
            state: self.state.deep_view(),
            failure_cause: self.failure_cause.deep_view(),
        }
    }
}

impl View for WorkerAttemptFinishedPayload {
    type V = WorkerAttemptFinishedPayloadModel;

    open spec fn view(&self) -> WorkerAttemptFinishedPayloadModel {
        self.deep_view()
    }
}

impl Row for WorkerAttemptFinishedPayload {
    fn dup(&self) -> (r: Self) {
        WorkerAttemptFinishedPayload {
            launch_id: self.launch_id.dup(),
            slice_id: self.slice_id.dup(),
            state: self.state.dup(),
            failure_cause: self.failure_cause.dup(),
        }
    }

    fn same(&self, other: &Self) -> (r: bool) {
        self.launch_id.same(&other.launch_id)
            && self.slice_id.same(&other.slice_id)
            && self.state.same(&other.state)
            && self.failure_cause.same(&other.failure_cause)
    }
}

impl Default for WorkerAttemptFinishedPayload {
    fn default() -> (r: Self)
        ensures
            r@ == WorkerAttemptFinishedPayloadModel::empty(),
    {
        let r = WorkerAttemptFinishedPayload {
            launch_id: 0,
            slice_id: String::new(),
            state: String::new(),
            failure_cause: String::new(),
        };
        assert(r@ =~= WorkerAttemptFinishedPayloadModel::empty());
        r
    }
}

impl WorkerAttemptFinishedPayloadModel {
    /// All texts and lists empty, all numbers zero, all flags off.
    pub open spec fn empty() -> WorkerAttemptFinishedPayloadModel {
        WorkerAttemptFinishedPayloadModel {
            launch_id: 0,
            slice_id: Seq::<char>::empty(),
            state: Seq::<char>::empty(),
            failure_cause: Seq::<char>::empty(),
        }
    }
}

/// A worker whose run ended first.
#[derive(Debug, Clone, PartialEq, Eq)]
pub struct WorkerAttemptInterruptedPayload {
    pub launch_id: i64,
    pub slice_id: String,
    pub reason: String,
    pub prior_state: String,
    pub terminal_status: RunStatus,
}

#[verifier::ext_equal]
pub struct WorkerAttemptInterruptedPayloadModel {
    pub launch_id: i64,
    pub slice_id: Seq<char>,
    pub reason: Seq<char>,
    pub prior_state: Seq<char>,
    pub terminal_status: RunStatus,
}

impl DeepView for WorkerAttemptInterruptedPayload {
    type V = WorkerAttemptInterruptedPayloadModel;

    open spec fn deep_view(&self) -> WorkerAttemptInterruptedPayloadModel {
        WorkerAttemptInterruptedPayloadModel {
            launch_id: self.launch_id.deep_view(),
            slice_id: self.slice_id.deep_view(),
            reason: self.reason.deep_view(),
            prior_state: self.prior_state.deep_view(),
            terminal_status: self.terminal_status.deep_view(),
        }
    }
}

impl View for WorkerAttemptInterruptedPayload {
    type V = WorkerAttemptInterruptedPayloadModel;

    open spec fn view(&self) -> WorkerAttemptInterruptedPayloadModel {
        self.deep_view()
    }
}

impl Row for WorkerAttemptInterruptedPayload {
    fn dup(&self) -> (r: Self) {
        WorkerAttemptInterruptedPayload {
            launch_id: self.launch_id.dup(),
            slice_id: self.slice_id.dup(),
            reason: self.reason.dup(),
            prior_state: self.prior_state.dup(),
            terminal_status: self.terminal_status.dup(),
        }
    }

    fn same(&self, other: &Self) -> (r: bool) {
        self.launch_id.same(&other.launch_id)
            && self.slice_id.same(&other.slice_id)
            && self.reason.same(&other.reason)
            && self.prior_state.same(&other.prior_state)
            && self.terminal_status.same(&other.terminal_status)
    }
}

/// The intent to end a run.
#[derive(Debug, Clone, PartialEq, Eq)]
pub struct TerminalTransitionIntendedPayload {
    pub status: RunStatus,
    pub error: String,
    pub progress_message: String,
    pub question_interruption_reason: String,
}

#[verifier::ext_equal]
pub struct TerminalTransitionIntendedPayloadModel {
    pub status: RunStatus,
    pub error: Seq<char>,
    pub progress_message: Seq<char>,
    pub question_interruption_reason: Seq<char>,
}

impl DeepView for TerminalTransitionIntendedPayload {
    type V = TerminalTransitionIntendedPayloadModel;

    open spec fn deep_view(&self) -> TerminalTransitionIntendedPayloadModel {
        TerminalTransitionIntendedPayloadModel {
            status: self.status.deep_view(),
            error: self.error.deep_view(),
            progress_message: self.progress_message.deep_view(),
            question_interruption_reason: self.question_interruption_reason.deep_view(),
        }
    }
}

impl View for TerminalTransitionIntendedPayload {
    type V = TerminalTransitionIntendedPayloadModel;

    open spec fn view(&self) -> TerminalTransitionIntendedPayloadModel {
        self.deep_view()
    }
}

impl Row for TerminalTransitionIntendedPayload {
    fn dup(&self) -> (r: Self) {
        TerminalTransitionIntendedPayload {
            status: self.status.dup(),
            error: self.error.dup(),
            progress_message: self.progress_message.dup(),
            question_interruption_reason: self.question_interruption_reason.dup(),
        }
    }

    fn same(&self, other: &Self) -> (r: bool) {
        self.status.same(&other.status)
            && self.error.same(&other.error)
            && self.progress_message.same(&other.progress_message)
            && self.question_interruption_reason.same(&other.question_interruption_reason)
    }
}

/// A question that will not be answered any more.
#[derive(Debug, Clone, PartialEq, Eq)]
pub struct WorkerQuestionInterruptedPayload {
    pub question_id: String,
    pub slice_id: String,
    pub attempt: usize,
    pub launch_id: Option<i64>,
    pub active_attempt: Option<usize>,
    pub reason: String,
    pub terminal_status: Option<RunStatus>,
}

#[verifier::ext_equal]
pub struct WorkerQuestionInterruptedPayloadModel {
    pub question_id: Seq<char>,
    pub slice_id: Seq<char>,
    pub attempt: usize,
    pub launch_id: Option<i64>,
    pub active_attempt: Option<usize>,
    pub reason: Seq<char>,
    pub terminal_status: Option<RunStatus>,
}

impl DeepView for WorkerQuestionInterruptedPayload {
    type V = WorkerQuestionInterruptedPayloadModel;

    open spec fn deep_view(&self) -> WorkerQuestionInterruptedPayloadModel {
        WorkerQuestionInterruptedPayloadModel {
            question_id: self.question_id.deep_view(),
            slice_id: self.slice_id.deep_view(),
            attempt: self.attempt.deep_view(),
            launch_id: self.launch_id.deep_view(),
            active_attempt: self.active_attempt.deep_view(),
            reason: self.reason.deep_view(),
            terminal_status: self.terminal_status.deep_view(),
        }
    }
}

impl View for WorkerQuestionInterruptedPayload {
    type V = WorkerQuestionInterruptedPayloadModel;

    open spec fn view(&self) -> WorkerQuestionInterruptedPayloadModel {
        self.deep_view()
    }
}

impl Row for WorkerQuestionInterruptedPayload {
    fn dup(&self) -> (r: Self) {
        WorkerQuestionInterruptedPayload {
            question_id: self.question_id.dup(),
            slice_id: self.slice_id.dup(),
            attempt: self.attempt.dup(),
            launch_id: self.launch_id.dup(),
            active_attempt: self.active_attempt.dup(),
            reason: self.reason.dup(),
            terminal_status: self.terminal_status.dup(),
        }
    }

    fn same(&self, other: &Self) -> (r: bool) {
        self.question_id.same(&other.question_id)
            && self.slice_id.same(&other.slice_id)
            && self.attempt.same(&other.attempt)
            && self.launch_id.same(&other.launch_id)
            && self.active_attempt.same(&other.active_attempt)
            && self.reason.same(&other.reason)
            && self.terminal_status.same(&other.terminal_status)
    }
}

impl Default for WorkerQuestionInterruptedPayload {
    fn default() -> (r: Self)
        ensures
            r@ == WorkerQuestionInterruptedPayloadModel::empty(),
    {
        let r = WorkerQuestionInterruptedPayload {
            question_id: String::new(),
            slice_id: String::new(),
            attempt: 0,
            launch_id: None,
            active_attempt: None,
            reason: String::new(),
            terminal_status: None,
        };
        assert(r@ =~= WorkerQuestionInterruptedPayloadModel::empty());
        r
    }
}

impl WorkerQuestionInterruptedPayloadModel {
    /// All texts and lists empty, all numbers zero, all flags off.
    pub open spec fn empty() -> WorkerQuestionInterruptedPayloadModel {
        WorkerQuestionInterruptedPayloadModel {
            question_id: Seq::<char>::empty(),
            slice_id: Seq::<char>::empty(),
            attempt: 0,
            launch_id: None,
            active_attempt: None,
            reason: Seq::<char>::empty(),
            terminal_status: None,
        }
    }
}

/// A run whose worktrees are gone.
#[derive(Debug, Clone, PartialEq, Eq)]
pub struct WorktreesCleanedPayload {
    pub run_id: String,
}

#[verifier::ext_equal]
pub struct WorktreesCleanedPayloadModel {
    pub run_id: Seq<char>,
}

impl DeepView for WorktreesCleanedPayload {
    type V = WorktreesCleanedPayloadModel;

    open spec fn deep_view(&self) -> WorktreesCleanedPayloadModel {
        WorktreesCleanedPayloadModel {
            run_id: self.run_id.deep_view(),
        }
    }
}

impl View for WorktreesCleanedPayload {
    type V = WorktreesCleanedPayloadModel;

    open spec fn view(&self) -> WorktreesCleanedPayloadModel {
        self.deep_view()
    }
}

impl Row for WorktreesCleanedPayload {
    fn dup(&self) -> (r: Self) {
        WorktreesCleanedPayload {
            run_id: self.run_id.dup(),
        }
    }

    fn same(&self, other: &Self) -> (r: bool) {
        self.run_id.same(&other.run_id)
    }
}

impl Default for WorktreesCleanedPayload {
    fn default() -> (r: Self)
        ensures
            r@ == WorktreesCleanedPayloadModel::empty(),
    {
        let r = WorktreesCleanedPayload {
            run_id: String::new(),
        };
        assert(r@ =~= WorktreesCleanedPayloadModel::empty());
        r
    }
}

impl WorktreesCleanedPayloadModel {
    /// All texts and lists empty, all numbers zero, all flags off.
    pub open spec fn empty() -> WorktreesCleanedPayloadModel {
        WorktreesCleanedPayloadModel {
            run_id: Seq::<char>::empty(),
        }
    }
}

/// A run that goes on.
#[derive(Debug, Clone, PartialEq, Eq)]
pub struct RunResumedPayload {
    pub execution_epoch: usize,
    pub remaining_slices: Vec<String>,
    pub native_pi_tui_worker: bool,
    pub experimental_pi_tui_worker: bool,
}

#[verifier::ext_equal]
pub struct RunResumedPayloadModel {
    pub execution_epoch: usize,
    pub remaining_slices: Seq<Seq<char>>,
    pub native_pi_tui_worker: bool,
    pub experimental_pi_tui_worker: bool,
}

impl DeepView for RunResumedPayload {
    type V = RunResumedPayloadModel;

    open spec fn deep_view(&self) -> RunResumedPayloadModel {
        RunResumedPayloadModel {
            execution_epoch: self.execution_epoch.deep_view(),
            remaining_slices: self.remaining_slices.deep_view(),
            native_pi_tui_worker: self.native_pi_tui_worker.deep_view(),
            experimental_pi_tui_worker: self.experimental_pi_tui_worker.deep_view(),
        }
    }
}

impl View for RunResumedPayload {
    type V = RunResumedPayloadModel;

    open spec fn view(&self) -> RunResumedPayloadModel {
        self.deep_view()
    }
}

impl Row for RunResumedPayload {
    fn dup(&self) -> (r: Self) {
        RunResumedPayload {
            execution_epoch: self.execution_epoch.dup(),
            remaining_slices: self.remaining_slices.dup(),
            native_pi_tui_worker: self.native_pi_tui_worker.dup(),
            experimental_pi_tui_worker: self.experimental_pi_tui_worker.dup(),
        }
    }

    fn same(&self, other: &Self) -> (r: bool) {
        self.execution_epoch.same(&other.execution_epoch)
            && self.remaining_slices.same(&other.remaining_slices)
            && self.native_pi_tui_worker.same(&other.native_pi_tui_worker)
            && self.experimental_pi_tui_worker.same(&other.experimental_pi_tui_worker)
    }
}

impl Default for RunResumedPayload {
    fn default() -> (r: Self)
        ensures
            r@ == RunResumedPayloadModel::empty(),
    {
        let r = RunResumedPayload {
            execution_epoch: 0,
            remaining_slices: Vec::new(),
            native_pi_tui_worker: false,
            experimental_pi_tui_worker: false,
        };
        assert(r@ =~= RunResumedPayloadModel::empty());
        r
    }
}

impl RunResumedPayloadModel {
    /// All texts and lists empty, all numbers zero, all flags off.
    pub open spec fn empty() -> RunResumedPayloadModel {
        RunResumedPayloadModel {
            execution_epoch: 0,
            remaining_slices: Seq::empty(),
            native_pi_tui_worker: false,
            experimental_pi_tui_worker: false,
        }
    }
}

/// The start of a recovery.
#[derive(Debug, Clone, PartialEq, Eq)]
pub struct DaemonRecoveryStartedPayload {
    pub reason: String,
    pub launch_intent: Option<RunLaunchIntent>,
}

#[verifier::ext_equal]
pub struct DaemonRecoveryStartedPayloadModel {
    pub reason: Seq<char>,
    pub launch_intent: Option<RunLaunchIntentModel>,
}

impl DeepView for DaemonRecoveryStartedPayload {
    type V = DaemonRecoveryStartedPayloadModel;

    open spec fn deep_view(&self) -> DaemonRecoveryStartedPayloadModel {
        DaemonRecoveryStartedPayloadModel {
            reason: self.reason.deep_view(),
            launch_intent: self.launch_intent.deep_view(),
        }
    }
}

impl View for DaemonRecoveryStartedPayload {
    type V = DaemonRecoveryStartedPayloadModel;

    open spec fn view(&self) -> DaemonRecoveryStartedPayloadModel {
        self.deep_view()
    }
}

impl Row for DaemonRecoveryStartedPayload {
    fn dup(&self) -> (r: Self) {
        DaemonRecoveryStartedPayload {
            reason: self.reason.dup(),
            launch_intent: self.launch_intent.dup(),
        }
    }

    fn same(&self, other: &Self) -> (r: bool) {
        self.reason.same(&other.reason)
            && self.launch_intent.same(&other.launch_intent)
    }
}

/// How many questions ended with their run.
#[derive(Debug, Clone, PartialEq, Eq)]
pub struct WorkerQuestionsInterruptedPayload {
    pub count: usize,
    pub reason: String,
}

#[verifier::ext_equal]
pub struct WorkerQuestionsInterruptedPayloadModel {
    pub count: usize,
    pub reason: Seq<char>,
}

impl DeepView for WorkerQuestionsInterruptedPayload {
    type V = WorkerQuestionsInterruptedPayloadModel;

    open spec fn deep_view(&self) -> WorkerQuestionsInterruptedPayloadModel {
        WorkerQuestionsInterruptedPayloadModel {
            count: self.count.deep_view(),
            reason: self.reason.deep_view(),
        }
    }
}

impl View for WorkerQuestionsInterruptedPayload {
    type V = WorkerQuestionsInterruptedPayloadModel;

    open spec fn view(&self) -> WorkerQuestionsInterruptedPayloadModel {
        self.deep_view()
    }
}

impl Row for WorkerQuestionsInterruptedPayload {
    fn dup(&self) -> (r: Self) {
        WorkerQuestionsInterruptedPayload {
            count: self.count.dup(),
            reason: self.reason.dup(),
        }
    }

    fn same(&self, other: &Self) -> (r: bool) {
        self.count.same(&other.count)
            && self.reason.same(&other.reason)
    }
}

impl Default for WorkerQuestionsInterruptedPayload {
    fn default() -> (r: Self)
        ensures
            r@ == WorkerQuestionsInterruptedPayloadModel::empty(),
    {
        let r = WorkerQuestionsInterruptedPayload {
            count: 0,
            reason: String::new(),
        };
        assert(r@ =~= WorkerQuestionsInterruptedPayloadModel::empty());
        r
    }
}

impl WorkerQuestionsInterruptedPayloadModel {
    /// All texts and lists empty, all numbers zero, all flags off.
    pub open spec fn empty() -> WorkerQuestionsInterruptedPayloadModel {
        WorkerQuestionsInterruptedPayloadModel {
            count: 0,
            reason: Seq::<char>::empty(),
        }
    }
}

/// The end of a recovery.
#[derive(Debug, Clone, PartialEq, Eq)]
pub struct DaemonRecoveryCompletedPayload {
    pub status: RunStatus,
    pub reason: String,
}

#[verifier::ext_equal]
pub struct DaemonRecoveryCompletedPayloadModel {
    pub status: RunStatus,
    pub reason: Seq<char>,
}

impl DeepView for DaemonRecoveryCompletedPayload {
    type V = DaemonRecoveryCompletedPayloadModel;

    open spec fn deep_view(&self) -> DaemonRecoveryCompletedPayloadModel {
        DaemonRecoveryCompletedPayloadModel {
            status: self.status.deep_view(),
            reason: self.reason.deep_view(),
        }
    }
}

impl View for DaemonRecoveryCompletedPayload {
    type V = DaemonRecoveryCompletedPayloadModel;

    open spec fn view(&self) -> DaemonRecoveryCompletedPayloadModel {
        self.deep_view()
    }
}

impl Row for DaemonRecoveryCompletedPayload {
    fn dup(&self) -> (r: Self) {
        DaemonRecoveryCompletedPayload {
            status: self.status.dup(),
            reason: self.reason.dup(),
        }
    }

    fn same(&self, other: &Self) -> (r: bool) {
        self.status.same(&other.status)
            && self.reason.same(&other.reason)
    }
}

/// A request to cancel a run.
#[derive(Debug, Clone, PartialEq, Eq)]
pub struct RunCancelRequestedPayload {
    pub reason: String,
    pub active: bool,
}

#[verifier::ext_equal]
pub struct RunCancelRequestedPayloadModel {
    pub reason: Seq<char>,
    pub active: bool,
}

impl DeepView for RunCancelRequestedPayload {
    type V = RunCancelRequestedPayloadModel;

    open spec fn deep_view(&self) -> RunCancelRequestedPayloadModel {
        RunCancelRequestedPayloadModel {
            reason: self.reason.deep_view(),
            active: self.active.deep_view(),
        }
    }
}

impl View for RunCancelRequestedPayload {
    type V = RunCancelRequestedPayloadModel;

    open spec fn view(&self) -> RunCancelRequestedPayloadModel {
        self.deep_view()
    }
}

impl Row for RunCancelRequestedPayload {
    fn dup(&self) -> (r: Self) {
        RunCancelRequestedPayload {
            reason: self.reason.dup(),
            active: self.active.dup(),
        }
    }

    fn same(&self, other: &Self) -> (r: bool) {
        self.reason.same(&other.reason)
            && self.active.same(&other.active)
    }
}

impl Default for RunCancelRequestedPayload {
    fn default() -> (r: Self)
        ensures
            r@ == RunCancelRequestedPayloadModel::empty(),
    {
        let r = RunCancelRequestedPayload {
            reason: String::new(),
            active: false,
        };
        assert(r@ =~= RunCancelRequestedPayloadModel::empty());
        r
    }
}

impl RunCancelRequestedPayloadModel {
    /// All texts and lists empty, all numbers zero, all flags off.
    pub open spec fn empty() -> RunCancelRequestedPayloadModel {
        RunCancelRequestedPayloadModel {
            reason: Seq::<char>::empty(),
            active: false,
        }
    }
}

/// A run that was cancelled.
#[derive(Debug, Clone, PartialEq, Eq)]
pub struct RunCancelledPayload {
    pub reason: String,
}

#[verifier::ext_equal]
pub struct RunCancelledPayloadModel {
    pub reason: Seq<char>,
}

impl DeepView for RunCancelledPayload {
    type V = RunCancelledPayloadModel;

    open spec fn deep_view(&self) -> RunCancelledPayloadModel {
        RunCancelledPayloadModel {
            reason: self.reason.deep_view(),
        }
    }
}

impl View for RunCancelledPayload {
    type V = RunCancelledPayloadModel;

    open spec fn view(&self) -> RunCancelledPayloadModel {
        self.deep_view()
    }
}

impl Row for RunCancelledPayload {
    fn dup(&self) -> (r: Self) {
        RunCancelledPayload {
            reason: self.reason.dup(),
        }
    }

    fn same(&self, other: &Self) -> (r: bool) {
        self.reason.same(&other.reason)
    }
}

impl Default for RunCancelledPayload {
    fn default() -> (r: Self)
        ensures
            r@ == RunCancelledPayloadModel::empty(),
    {
        let r = RunCancelledPayload {
            reason: String::new(),
        };
        assert(r@ =~= RunCancelledPayloadModel::empty());
        r
    }
}

impl RunCancelledPayloadModel {
    /// All texts and lists empty, all numbers zero, all flags off.
    pub open spec fn empty() -> RunCancelledPayloadModel {
        RunCancelledPayloadModel {
            reason: Seq::<char>::empty(),
        }
    }
}

/// A run that completed.
#[derive(Debug, Clone, PartialEq, Eq)]
pub struct RunCompletedPayload {
    pub run_id: String,
}

#[verifier::ext_equal]
pub struct RunCompletedPayloadModel {
    pub run_id: Seq<char>,
}

impl DeepView for RunCompletedPayload {
    type V = RunCompletedPayloadModel;

    open spec fn deep_view(&self) -> RunCompletedPayloadModel {
        RunCompletedPayloadModel {
            run_id: self.run_id.deep_view(),
        }
    }
}

impl View for RunCompletedPayload {
    type V = RunCompletedPayloadModel;

    open spec fn view(&self) -> RunCompletedPayloadModel {
        self.deep_view()
    }
}

impl Row for RunCompletedPayload {
    fn dup(&self) -> (r: Self) {
        RunCompletedPayload {
            run_id: self.run_id.dup(),
        }
    }

    fn same(&self, other: &Self) -> (r: bool) {
        self.run_id.same(&other.run_id)
    }
}

impl Default for RunCompletedPayload {
    fn default() -> (r: Self)
        ensures
            r@ == RunCompletedPayloadModel::empty(),
    {
        let r = RunCompletedPayload {
            run_id: String::new(),
        };
        assert(r@ =~= RunCompletedPayloadModel::empty());
        r
    }
}

impl RunCompletedPayloadModel {
    /// All texts and lists empty, all numbers zero, all flags off.
    pub open spec fn empty() -> RunCompletedPayloadModel {
        RunCompletedPayloadModel {
            run_id: Seq::<char>::empty(),
        }
    }
}

/// A workspace that shows a run.
#[derive(Debug, Clone, PartialEq, Eq)]
pub struct CockpitReadyPayload {
    pub adapter: String,
    pub mode: String,
    pub workspace: String,
    pub panes: Vec<String>,
    pub source_of_truth: String,
    pub planner: String,
}

#[verifier::ext_equal]
pub struct CockpitReadyPayloadModel {
    pub adapter: Seq<char>,
    pub mode: Seq<char>,
    pub workspace: Seq<char>,
    pub panes: Seq<Seq<char>>,
    pub source_of_truth: Seq<char>,
    pub planner: Seq<char>,
}

impl DeepView for CockpitReadyPayload {
    type V = CockpitReadyPayloadModel;

    open spec fn deep_view(&self) -> CockpitReadyPayloadModel {
        CockpitReadyPayloadModel {
            adapter: self.adapter.deep_view(),
            mode: self.mode.deep_view(),
            workspace: self.workspace.deep_view(),
            panes: self.panes.deep_view(),
            source_of_truth: self.source_of_truth.deep_view(),
            planner: self.planner.deep_view(),
        }
    }
}

impl View for CockpitReadyPayload {
    type V = CockpitReadyPayloadModel;

    open spec fn view(&self) -> CockpitReadyPayloadModel {
        self.deep_view()
    }
}

impl Row for CockpitReadyPayload {
    fn dup(&self) -> (r: Self) {
        CockpitReadyPayload {
            adapter: self.adapter.dup(),
            mode: self.mode.dup(),
            workspace: self.workspace.dup(),
            panes: self.panes.dup(),
            source_of_truth: self.source_of_truth.dup(),
            planner: self.planner.dup(),
        }
    }

    fn same(&self, other: &Self) -> (r: bool) {
        self.adapter.same(&other.adapter)
            && self.mode.same(&other.mode)
            && self.workspace.same(&other.workspace)
            && self.panes.same(&other.panes)
            && self.source_of_truth.same(&other.source_of_truth)
            && self.planner.same(&other.planner)
    }
}

impl Default for CockpitReadyPayload {
    fn default() -> (r: Self)
        ensures
            r@ == CockpitReadyPayloadModel::empty(),
    {
        let r = CockpitReadyPayload {
            adapter: String::new(),
            mode: String::new(),
            workspace: String::new(),
            panes: Vec::new(),
            source_of_truth: String::new(),
            planner: String::new(),
        };
        assert(r@ =~= CockpitReadyPayloadModel::empty());
        r
    }
}

impl CockpitReadyPayloadModel {
    /// All texts and lists empty, all numbers zero, all flags off.
    pub open spec fn empty() -> CockpitReadyPayloadModel {
        CockpitReadyPayloadModel {
            adapter: Seq::<char>::empty(),
            mode: Seq::<char>::empty(),
            workspace: Seq::<char>::empty(),
            panes: Seq::empty(),
            source_of_truth: Seq::<char>::empty(),
            planner: Seq::<char>::empty(),
        }
    }
}

/// A pane that shows a worker.
#[derive(Debug, Clone, PartialEq, Eq)]
pub struct CockpitWorkerReadyPayload {
    pub adapter: String,
    pub mode: String,
    pub workspace: String,
    pub pane: String,
    pub pane_id: String,
    pub slice_id: String,
    pub attempt: usize,
    pub launch_id: Option<i64>,
    pub launch_stem: String,
    pub launch_identity: usize,
    pub terminal_id: String,
    pub agent_name: String,
    pub layout_planner: String,
    pub worker_slot_name: String,
    pub worker_slot_index: usize,
    pub worker_region: String,
    pub source_of_truth: String,
}

#[verifier::ext_equal]
pub struct CockpitWorkerReadyPayloadModel {
    pub adapter: Seq<char>,
    pub mode: Seq<char>,
    pub workspace: Seq<char>,
    pub pane: Seq<char>,
    pub pane_id: Seq<char>,
    pub slice_id: Seq<char>,
    pub attempt: usize,
    pub launch_id: Option<i64>,
    pub launch_stem: Seq<char>,
    pub launch_identity: usize,
    pub terminal_id: Seq<char>,
    pub agent_name: Seq<char>,
    pub layout_planner: Seq<char>,
    pub worker_slot_name: Seq<char>,
    pub worker_slot_index: usize,
    pub worker_region: Seq<char>,
    pub source_of_truth: Seq<char>,
}

impl DeepView for CockpitWorkerReadyPayload {
    type V = CockpitWorkerReadyPayloadModel;

    open spec fn deep_view(&self) -> CockpitWorkerReadyPayloadModel {
        CockpitWorkerReadyPayloadModel {
            adapter: self.adapter.deep_view(),
            mode: self.mode.deep_view(),
            workspace: self.workspace.deep_view(),
            pane: self.pane.deep_view(),
            pane_id: self.pane_id.deep_view(),
            slice_id: self.slice_id.deep_view(),
            attempt: self.attempt.deep_view(),
            launch_id: self.launch_id.deep_view(),
            launch_stem: self.launch_stem.deep_view(),
            launch_identity: self.launch_identity.deep_view(),
            terminal_id: self.terminal_id.deep_view(),
            agent_name: self.agent_name.deep_view(),
            layout_planner: self.layout_planner.deep_view(),
            worker_slot_name: self.worker_slot_name.deep_view(),
            worker_slot_index: self.worker_slot_index.deep_view(),
            worker_region: self.worker_region.deep_view(),
            source_of_truth: self.source_of_truth.deep_view(),
        }
    }
}

impl View for CockpitWorkerReadyPayload {
    type V = CockpitWorkerReadyPayloadModel;

    open spec fn view(&self) -> CockpitWorkerReadyPayloadModel {
        self.deep_view()
    }
}

impl Row for CockpitWorkerReadyPayload {
    fn dup(&self) -> (r: Self) {
        CockpitWorkerReadyPayload {
            adapter: self.adapter.dup(),
            mode: self.mode.dup(),
            workspace: self.workspace.dup(),
            pane: self.pane.dup(),
            pane_id: self.pane_id.dup(),
            slice_id: self.slice_id.dup(),
            attempt: self.attempt.dup(),
            launch_id: self.launch_id.dup(),
            launch_stem: self.launch_stem.dup(),
            launch_identity: self.launch_identity.dup(),
            terminal_id: self.terminal_id.dup(),
            agent_name: self.agent_name.dup(),
            layout_planner: self.layout_planner.dup(),
            worker_slot_name: self.worker_slot_name.dup(),
            worker_slot_index: self.worker_slot_index.dup(),
            worker_region: self.worker_region.dup(),
            source_of_truth: self.source_of_truth.dup(),
        }
    }

    fn same(&self, other: &Self) -> (r: bool) {
        self.adapter.same(&other.adapter)
            && self.mode.same(&other.mode)
            && self.workspace.same(&other.workspace)
            && self.pane.same(&other.pane)
            && self.pane_id.same(&other.pane_id)
            && self.slice_id.same(&other.slice_id)
            && self.attempt.same(&other.attempt)
            && self.launch_id.same(&other.launch_id)
            && self.launch_stem.same(&other.launch_stem)
            && self.launch_identity.same(&other.launch_identity)
            && self.terminal_id.same(&other.terminal_id)
            && self.agent_name.same(&other.agent_name)
            && self.layout_planner.same(&other.layout_planner)
            && self.worker_slot_name.same(&other.worker_slot_name)
            && self.worker_slot_index.same(&other.worker_slot_index)
            && self.worker_region.same(&other.worker_region)
            && self.source_of_truth.same(&other.source_of_truth)
    }
}

impl Default for CockpitWorkerReadyPayload {
    fn default() -> (r: Self)
        ensures
            r@ == CockpitWorkerReadyPayloadModel::empty(),
    {
        let r = CockpitWorkerReadyPayload {
            adapter: String::new(),
            mode: String::new(),
            workspace: String::new(),
            pane: String::new(),
            pane_id: String::new(),
            slice_id: String::new(),
            attempt: 0,
            launch_id: None,
            launch_stem: String::new(),
            launch_identity: 0,
            terminal_id: String::new(),
            agent_name: String::new(),
            layout_planner: String::new(),
            worker_slot_name: String::new(),
            worker_slot_index: 0,
            worker_region: String::new(),
            source_of_truth: String::new(),
        };
        assert(r@ =~= CockpitWorkerReadyPayloadModel::empty());
        r
    }
}

impl CockpitWorkerReadyPayloadModel {
    /// All texts and lists empty, all numbers zero, all flags off.
    pub open spec fn empty() -> CockpitWorkerReadyPayloadModel {
        CockpitWorkerReadyPayloadModel {
            adapter: Seq::<char>::empty(),
            mode: Seq::<char>::empty(),
            workspace: Seq::<char>::empty(),
            pane: Seq::<char>::empty(),
            pane_id: Seq::<char>::empty(),
            slice_id: Seq::<char>::empty(),
            attempt: 0,
            launch_id: None,
            launch_stem: Seq::<char>::empty(),
            launch_identity: 0,
            terminal_id: Seq::<char>::empty(),
            agent_name: Seq::<char>::empty(),
            layout_planner: Seq::<char>::empty(),
            worker_slot_name: Seq::<char>::empty(),
            worker_slot_index: 0,
            worker_region: Seq::<char>::empty(),
            source_of_truth: Seq::<char>::empty(),
        }
    }
}

/// A slice that was started.
#[derive(Debug, Clone, PartialEq, Eq)]
pub struct SliceStartedPayload {
    pub slice_id: String,
}

#[verifier::ext_equal]
pub struct SliceStartedPayloadModel {
    pub slice_id: Seq<char>,
}

impl DeepView for SliceStartedPayload {
    type V = SliceStartedPayloadModel;

    open spec fn deep_view(&self) -> SliceStartedPayloadModel {
        SliceStartedPayloadModel {
            slice_id: self.slice_id.deep_view(),
        }
    }
}

impl View for SliceStartedPayload {
    type V = SliceStartedPayloadModel;

    open spec fn view(&self) -> SliceStartedPayloadModel {
        self.deep_view()
    }
}

impl Row for SliceStartedPayload {
    fn dup(&self) -> (r: Self) {
        SliceStartedPayload {
            slice_id: self.slice_id.dup(),
        }
    }

    fn same(&self, other: &Self) -> (r: bool) {
        self.slice_id.same(&other.slice_id)
    }
}

impl Default for SliceStartedPayload {
    fn default() -> (r: Self)
        ensures
            r@ == SliceStartedPayloadModel::empty(),
    {
        let r = SliceStartedPayload {
            slice_id: String::new(),
        };
        assert(r@ =~= SliceStartedPayloadModel::empty());
        r
    }
}

impl SliceStartedPayloadModel {
    /// All texts and lists empty, all numbers zero, all flags off.
    pub open spec fn empty() -> SliceStartedPayloadModel {
        SliceStartedPayloadModel {
            slice_id: Seq::<char>::empty(),
        }
    }
}

/// A repair of the integration branch.
#[derive(Debug, Clone, PartialEq, Eq)]
pub struct IntegrationRepairCompletedPayload {
    pub status: String,
    pub summary: String,
    pub launch_id: Option<i64>,
}

#[verifier::ext_equal]
pub struct IntegrationRepairCompletedPayloadModel {
    pub status: Seq<char>,
    pub summary: Seq<char>,
    pub launch_id: Option<i64>,
}

impl DeepView for IntegrationRepairCompletedPayload {
    type V = IntegrationRepairCompletedPayloadModel;

    open spec fn deep_view(&self) -> IntegrationRepairCompletedPayloadModel {
        IntegrationRepairCompletedPayloadModel {
            status: self.status.deep_view(),
            summary: self.summary.deep_view(),
            launch_id: self.launch_id.deep_view(),
        }
    }
}

impl View for IntegrationRepairCompletedPayload {
    type V = IntegrationRepairCompletedPayloadModel;

    open spec fn view(&self) -> IntegrationRepairCompletedPayloadModel {
        self.deep_view()
    }
}

impl Row for IntegrationRepairCompletedPayload {
    fn dup(&self) -> (r: Self) {
        IntegrationRepairCompletedPayload {
            status: self.status.dup(),
            summary: self.summary.dup(),
            launch_id: self.launch_id.dup(),
        }
    }

    fn same(&self, other: &Self) -> (r: bool) {
        self.status.same(&other.status)
            && self.summary.same(&other.summary)
            && self.launch_id.same(&other.launch_id)
    }
}

impl Default for IntegrationRepairCompletedPayload {
    fn default() -> (r: Self)
        ensures
            r@ == IntegrationRepairCompletedPayloadModel::empty(),
    {
        let r = IntegrationRepairCompletedPayload {
            status: String::new(),
            summary: String::new(),
            launch_id: None,
        };
        assert(r@ =~= IntegrationRepairCompletedPayloadModel::empty());
        r
    }
}

impl IntegrationRepairCompletedPayloadModel {
    /// All texts and lists empty, all numbers zero, all flags off.
    pub open spec fn empty() -> IntegrationRepairCompletedPayloadModel {
        IntegrationRepairCompletedPayloadModel {
            status: Seq::<char>::empty(),
            summary: Seq::<char>::empty(),
            launch_id: None,
        }
    }
}

/// Where the summary of a run stands.
#[derive(Debug, Clone, PartialEq, Eq)]
pub struct TerminalSummaryWrittenPayload {
    pub path: String,
}

#[verifier::ext_equal]
pub struct TerminalSummaryWrittenPayloadModel {
    pub path: Seq<char>,
}

impl DeepView for TerminalSummaryWrittenPayload {
    type V = TerminalSummaryWrittenPayloadModel;

    open spec fn deep_view(&self) -> TerminalSummaryWrittenPayloadModel {
        TerminalSummaryWrittenPayloadModel {
            path: self.path.deep_view(),
        }
    }
}

impl View for TerminalSummaryWrittenPayload {
    type V = TerminalSummaryWrittenPayloadModel;

    open spec fn view(&self) -> TerminalSummaryWrittenPayloadModel {
        self.deep_view()
    }
}

impl Row for TerminalSummaryWrittenPayload {
    fn dup(&self) -> (r: Self) {
        TerminalSummaryWrittenPayload {
            path: self.path.dup(),
        }
    }

    fn same(&self, other: &Self) -> (r: bool) {
        self.path.same(&other.path)
    }
}

impl Default for TerminalSummaryWrittenPayload {
    fn default() -> (r: Self)
        ensures
            r@ == TerminalSummaryWrittenPayloadModel::empty(),
    {
        let r = TerminalSummaryWrittenPayload {
            path: String::new(),
        };
        assert(r@ =~= TerminalSummaryWrittenPayloadModel::empty());
        r
    }
}

impl TerminalSummaryWrittenPayloadModel {
    /// All texts and lists empty, all numbers zero, all flags off.
    pub open spec fn empty() -> TerminalSummaryWrittenPayloadModel {
        TerminalSummaryWrittenPayloadModel {
            path: Seq::<char>::empty(),
        }
    }
}

/// A notification that a run ended.
#[derive(Debug, Clone, PartialEq, Eq)]
pub struct TerminalNotificationPayload {
    pub status: String,
    pub terminal_status: String,
    pub transition_key: String,
    pub reason: String,
    pub adapter: String,
    pub surface: String,
    pub target_kind: String,
}

#[verifier::ext_equal]
pub struct TerminalNotificationPayloadModel {
    pub status: Seq<char>,
    pub terminal_status: Seq<char>,
    pub transition_key: Seq<char>,
    pub reason: Seq<char>,
    pub adapter: Seq<char>,
    pub surface: Seq<char>,
    pub target_kind: Seq<char>,
}

impl DeepView for TerminalNotificationPayload {
    type V = TerminalNotificationPayloadModel;

    open spec fn deep_view(&self) -> TerminalNotificationPayloadModel {
        TerminalNotificationPayloadModel {
            status: self.status.deep_view(),
            terminal_status: self.terminal_status.deep_view(),
            transition_key: self.transition_key.deep_view(),
            reason: self.reason.deep_view(),
            adapter: self.adapter.deep_view(),
            surface: self.surface.deep_view(),
            target_kind: self.target_kind.deep_view(),
        }
    }
}

impl View for TerminalNotificationPayload {
    type V = TerminalNotificationPayloadModel;

    open spec fn view(&self) -> TerminalNotificationPayloadModel {
        self.deep_view()
    }
}

impl Row for TerminalNotificationPayload {
    fn dup(&self) -> (r: Self) {
        TerminalNotificationPayload {
            status: self.status.dup(),
            terminal_status: self.terminal_status.dup(),
            transition_key: self.transition_key.dup(),
            reason: self.reason.dup(),
            adapter: self.adapter.dup(),
            surface: self.surface.dup(),
            target_kind: self.target_kind.dup(),
        }
    }

    fn same(&self, other: &Self) -> (r: bool) {
        self.status.same(&other.status)
            && self.terminal_status.same(&other.terminal_status)
            && self.transition_key.same(&other.transition_key)
            && self.reason.same(&other.reason)
            && self.adapter.same(&other.adapter)
            && self.surface.same(&other.surface)
            && self.target_kind.same(&other.target_kind)
    }
}

impl Default for TerminalNotificationPayload {
    fn default() -> (r: Self)
        ensures
            r@ == TerminalNotificationPayloadModel::empty(),
    {
        let r = TerminalNotificationPayload {
            status: String::new(),
            terminal_status: String::new(),
            transition_key: String::new(),
            reason: String::new(),
            adapter: String::new(),
            surface: String::new(),
            target_kind: String::new(),
        };
        assert(r@ =~= TerminalNotificationPayloadModel::empty());
        r
    }
}

impl TerminalNotificationPayloadModel {
    /// All texts and lists empty, all numbers zero, all flags off.
    pub open spec fn empty() -> TerminalNotificationPayloadModel {
        TerminalNotificationPayloadModel {
            status: Seq::<char>::empty(),
            terminal_status: Seq::<char>::empty(),
            transition_key: Seq::<char>::empty(),
            reason: Seq::<char>::empty(),
            adapter: Seq::<char>::empty(),
            surface: Seq::<char>::empty(),
            target_kind: Seq::<char>::empty(),
        }
    }
}

/// The preparation of a worktree. The result of its gate is the text of a JSON document.
#[derive(Debug, Clone, PartialEq, Eq)]
pub struct WorktreeSetupPayload {
    pub slice_id: String,
    pub attempt: usize,
    pub worktree: String,
    pub summary: String,
    pub artifact: String,
    pub setup: Option<String>,
}

#[verifier::ext_equal]
pub struct WorktreeSetupPayloadModel {
    pub slice_id: Seq<char>,
    pub attempt: usize,
    pub worktree: Seq<char>,
    pub summary: Seq<char>,
    pub artifact: Seq<char>,
    pub setup: Option<Seq<char>>,
}

impl DeepView for WorktreeSetupPayload {
    type V = WorktreeSetupPayloadModel;

    open spec fn deep_view(&self) -> WorktreeSetupPayloadModel {
        WorktreeSetupPayloadModel {
            slice_id: self.slice_id.deep_view(),
            attempt: self.attempt.deep_view(),
            worktree: self.worktree.deep_view(),
            summary: self.summary.deep_view(),
            artifact: self.artifact.deep_view(),
            setup: self.setup.deep_view(),
        }
    }
}

impl View for WorktreeSetupPayload {
    type V = WorktreeSetupPayloadModel;

    open spec fn view(&self) -> WorktreeSetupPayloadModel {
        self.deep_view()
    }
}

impl Row for WorktreeSetupPayload {
    fn dup(&self) -> (r: Self) {
        WorktreeSetupPayload {
            slice_id: self.slice_id.dup(),
            attempt: self.attempt.dup(),
            worktree: self.worktree.dup(),
            summary: self.summary.dup(),
            artifact: self.artifact.dup(),
            setup: self.setup.dup(),
        }
    }

    fn same(&self, other: &Self) -> (r: bool) {
        self.slice_id.same(&other.slice_id)
            && self.attempt.same(&other.attempt)
            && self.worktree.same(&other.worktree)
            && self.summary.same(&other.summary)
            && self.artifact.same(&other.artifact)
            && self.setup.same(&other.setup)
    }
}

impl Default for WorktreeSetupPayload {
    fn default() -> (r: Self)
        ensures
            r@ == WorktreeSetupPayloadModel::empty(),
    {
        let r = WorktreeSetupPayload {
            slice_id: String::new(),
            attempt: 0,
            worktree: String::new(),
            summary: String::new(),
            artifact: String::new(),
            setup: None,
        };
        assert(r@ =~= WorktreeSetupPayloadModel::empty());
        r
    }
}

impl WorktreeSetupPayloadModel {
    /// All texts and lists empty, all numbers zero, all flags off.
    pub open spec fn empty() -> WorktreeSetupPayloadModel {
        WorktreeSetupPayloadModel {
            slice_id: Seq::<char>::empty(),
            attempt: 0,
            worktree: Seq::<char>::empty(),
            summary: Seq::<char>::empty(),
            artifact: Seq::<char>::empty(),
            setup: None,
        }
    }
}

/// A clean-up that failed.
#[derive(Debug, Clone, PartialEq, Eq)]
pub struct WorktreeCleanupErrorPayload {
    pub error: String,
}

#[verifier::ext_equal]
pub struct WorktreeCleanupErrorPayloadModel {
    pub error: Seq<char>,
}

impl DeepView for WorktreeCleanupErrorPayload {
    type V = WorktreeCleanupErrorPayloadModel;

    open spec fn deep_view(&self) -> WorktreeCleanupErrorPayloadModel {
        WorktreeCleanupErrorPayloadModel {
            error: self.error.deep_view(),
        }
    }
}

impl View for WorktreeCleanupErrorPayload {
    type V = WorktreeCleanupErrorPayloadModel;

    open spec fn view(&self) -> WorktreeCleanupErrorPayloadModel {
        self.deep_view()
    }
}

impl Row for WorktreeCleanupErrorPayload {
    fn dup(&self) -> (r: Self) {
        WorktreeCleanupErrorPayload {
            error: self.error.dup(),
        }
    }

    fn same(&self, other: &Self) -> (r: bool) {
        self.error.same(&other.error)
    }
}

impl Default for WorktreeCleanupErrorPayload {
    fn default() -> (r: Self)
        ensures
            r@ == WorktreeCleanupErrorPayloadModel::empty(),
    {
        let r = WorktreeCleanupErrorPayload {
            error: String::new(),
        };
        assert(r@ =~= WorktreeCleanupErrorPayloadModel::empty());
        r
    }
}

impl WorktreeCleanupErrorPayloadModel {
    /// All texts and lists empty, all numbers zero, all flags off.
    pub open spec fn empty() -> WorktreeCleanupErrorPayloadModel {
        WorktreeCleanupErrorPayloadModel {
            error: Seq::<char>::empty(),
        }
    }
}

/// An output that could not be read.
#[derive(Debug, Clone, PartialEq, Eq)]
pub struct InvalidWorkerOutputPayload {
    pub slice_id: String,
    pub attempt: usize,
    pub envelope_retry: usize,
    pub parse_error: String,
    pub artifact_path: String,
    pub expected_output_path: String,
    pub raw_invalid_payload: String,
    pub stdout_tail: String,
    pub stderr_tail: String,
    pub assistant_tail: String,
}

#[verifier::ext_equal]
pub struct InvalidWorkerOutputPayloadModel {
    pub slice_id: Seq<char>,
    pub attempt: usize,
    pub envelope_retry: usize,
    pub parse_error: Seq<char>,
    pub artifact_path: Seq<char>,
    pub expected_output_path: Seq<char>,
    pub raw_invalid_payload: Seq<char>,
    pub stdout_tail: Seq<char>,
    pub stderr_tail: Seq<char>,
    pub assistant_tail: Seq<char>,
}

impl DeepView for InvalidWorkerOutputPayload {
    type V = InvalidWorkerOutputPayloadModel;

    open spec fn deep_view(&self) -> InvalidWorkerOutputPayloadModel {
        InvalidWorkerOutputPayloadModel {
            slice_id: self.slice_id.deep_view(),
            attempt: self.attempt.deep_view(),
            envelope_retry: self.envelope_retry.deep_view(),
            parse_error: self.parse_error.deep_view(),
            artifact_path: self.artifact_path.deep_view(),
            expected_output_path: self.expected_output_path.deep_view(),
            raw_invalid_payload: self.raw_invalid_payload.deep_view(),
            stdout_tail: self.stdout_tail.deep_view(),
            stderr_tail: self.stderr_tail.deep_view(),
            assistant_tail: self.assistant_tail.deep_view(),
        }
    }
}

impl View for InvalidWorkerOutputPayload {
    type V = InvalidWorkerOutputPayloadModel;

    open spec fn view(&self) -> InvalidWorkerOutputPayloadModel {
        self.deep_view()
    }
}

impl Row for InvalidWorkerOutputPayload {
    fn dup(&self) -> (r: Self) {
        InvalidWorkerOutputPayload {
            slice_id: self.slice_id.dup(),
            attempt: self.attempt.dup(),
            envelope_retry: self.envelope_retry.dup(),
            parse_error: self.parse_error.dup(),
            artifact_path: self.artifact_path.dup(),
            expected_output_path: self.expected_output_path.dup(),
            raw_invalid_payload: self.raw_invalid_payload.dup(),
            stdout_tail: self.stdout_tail.dup(),
            stderr_tail: self.stderr_tail.dup(),
            assistant_tail: self.assistant_tail.dup(),
        }
    }

    fn same(&self, other: &Self) -> (r: bool) {
        self.slice_id.same(&other.slice_id)
            && self.attempt.same(&other.attempt)
            && self.envelope_retry.same(&other.envelope_retry)
            && self.parse_error.same(&other.parse_error)
            && self.artifact_path.same(&other.artifact_path)
            && self.expected_output_path.same(&other.expected_output_path)
            && self.raw_invalid_payload.same(&other.raw_invalid_payload)
            && self.stdout_tail.same(&other.stdout_tail)
            && self.stderr_tail.same(&other.stderr_tail)
            && self.assistant_tail.same(&other.assistant_tail)
    }
}

impl Default for InvalidWorkerOutputPayload {
    fn default() -> (r: Self)
        ensures
            r@ == InvalidWorkerOutputPayloadModel::empty(),
    {
        let r = InvalidWorkerOutputPayload {
            slice_id: String::new(),
            attempt: 0,
            envelope_retry: 0,
            parse_error: String::new(),
            artifact_path: String::new(),
            expected_output_path: String::new(),
            raw_invalid_payload: String::new(),
            stdout_tail: String::new(),
            stderr_tail: String::new(),
            assistant_tail: String::new(),
        };
        assert(r@ =~= InvalidWorkerOutputPayloadModel::empty());
        r
    }
}

impl InvalidWorkerOutputPayloadModel {
    /// All texts and lists empty, all numbers zero, all flags off.
    pub open spec fn empty() -> InvalidWorkerOutputPayloadModel {
        InvalidWorkerOutputPayloadModel {
            slice_id: Seq::<char>::empty(),
            attempt: 0,
            envelope_retry: 0,
            parse_error: Seq::<char>::empty(),
            artifact_path: Seq::<char>::empty(),
            expected_output_path: Seq::<char>::empty(),
            raw_invalid_payload: Seq::<char>::empty(),
            stdout_tail: Seq::<char>::empty(),
            stderr_tail: Seq::<char>::empty(),
            assistant_tail: Seq::<char>::empty(),
        }
    }
}

/// A repair of a slice.
#[derive(Debug, Clone, PartialEq, Eq)]
pub struct SliceRepairCompletedPayload {
    pub slice_id: String,
    pub attempt: usize,
    pub repair_attempt: usize,
    pub status: String,
    pub trigger_failure_kind: String,
    pub launch_id: i64,
    pub check_path: String,
    pub output_path: String,
}

#[verifier::ext_equal]
pub struct SliceRepairCompletedPayloadModel {
    pub slice_id: Seq<char>,
    pub attempt: usize,
    pub repair_attempt: usize,
    pub status: Seq<char>,
    pub trigger_failure_kind: Seq<char>,
    pub launch_id: i64,
    pub check_path: Seq<char>,
    pub output_path: Seq<char>,
}

impl DeepView for SliceRepairCompletedPayload {
    type V = SliceRepairCompletedPayloadModel;

    open spec fn deep_view(&self) -> SliceRepairCompletedPayloadModel {
        SliceRepairCompletedPayloadModel {
            slice_id: self.slice_id.deep_view(),
            attempt: self.attempt.deep_view(),
            repair_attempt: self.repair_attempt.deep_view(),
            status: self.status.deep_view(),
            trigger_failure_kind: self.trigger_failure_kind.deep_view(),
            launch_id: self.launch_id.deep_view(),
            check_path: self.check_path.deep_view(),
            output_path: self.output_path.deep_view(),
        }
    }
}

impl View for SliceRepairCompletedPayload {
    type V = SliceRepairCompletedPayloadModel;

    open spec fn view(&self) -> SliceRepairCompletedPayloadModel {
        self.deep_view()
    }
}

impl Row for SliceRepairCompletedPayload {
    fn dup(&self) -> (r: Self) {
        SliceRepairCompletedPayload {
            slice_id: self.slice_id.dup(),
            attempt: self.attempt.dup(),
            repair_attempt: self.repair_attempt.dup(),
            status: self.status.dup(),
            trigger_failure_kind: self.trigger_failure_kind.dup(),
            launch_id: self.launch_id.dup(),
            check_path: self.check_path.dup(),
            output_path: self.output_path.dup(),
        }
    }

    fn same(&self, other: &Self) -> (r: bool) {
        self.slice_id.same(&other.slice_id)
            && self.attempt.same(&other.attempt)
            && self.repair_attempt.same(&other.repair_attempt)
            && self.status.same(&other.status)
            && self.trigger_failure_kind.same(&other.trigger_failure_kind)
            && self.launch_id.same(&other.launch_id)
            && self.check_path.same(&other.check_path)
            && self.output_path.same(&other.output_path)
    }
}

impl Default for SliceRepairCompletedPayload {
    fn default() -> (r: Self)
        ensures
            r@ == SliceRepairCompletedPayloadModel::empty(),
    {
        let r = SliceRepairCompletedPayload {
            slice_id: String::new(),
            attempt: 0,
            repair_attempt: 0,
            status: String::new(),
            trigger_failure_kind: String::new(),
            launch_id: 0,
            check_path: String::new(),
            output_path: String::new(),
        };
        assert(r@ =~= SliceRepairCompletedPayloadModel::empty());
        r
    }
}

impl SliceRepairCompletedPayloadModel {
    /// All texts and lists empty, all numbers zero, all flags off.
    pub open spec fn empty() -> SliceRepairCompletedPayloadModel {
        SliceRepairCompletedPayloadModel {
            slice_id: Seq::<char>::empty(),
            attempt: 0,
            repair_attempt: 0,
            status: Seq::<char>::empty(),
            trigger_failure_kind: Seq::<char>::empty(),
            launch_id: 0,
            check_path: Seq::<char>::empty(),
            output_path: Seq::<char>::empty(),
        }
    }
}

/// An output that was valid at the next try.
#[derive(Debug, Clone, PartialEq, Eq)]
pub struct WorkerEnvelopeRetrySucceededPayload {
    pub slice_id: String,
    pub attempt: usize,
    pub launch_id: i64,
    pub envelope_retry: usize,
    pub output_path: String,
    pub previous_invalid_output: String,
    pub disposition: String,
}

#[verifier::ext_equal]
pub struct WorkerEnvelopeRetrySucceededPayloadModel {
    pub slice_id: Seq<char>,
    pub attempt: usize,
    pub launch_id: i64,
    pub envelope_retry: usize,
    pub output_path: Seq<char>,
    pub previous_invalid_output: Seq<char>,
    pub disposition: Seq<char>,
}

impl DeepView for WorkerEnvelopeRetrySucceededPayload {
    type V = WorkerEnvelopeRetrySucceededPayloadModel;

    open spec fn deep_view(&self) -> WorkerEnvelopeRetrySucceededPayloadModel {
        WorkerEnvelopeRetrySucceededPayloadModel {
            slice_id: self.slice_id.deep_view(),
            attempt: self.attempt.deep_view(),
            launch_id: self.launch_id.deep_view(),
            envelope_retry: self.envelope_retry.deep_view(),
            output_path: self.output_path.deep_view(),
            previous_invalid_output: self.previous_invalid_output.deep_view(),
            disposition: self.disposition.deep_view(),
        }
    }
}

impl View for WorkerEnvelopeRetrySucceededPayload {
    type V = WorkerEnvelopeRetrySucceededPayloadModel;

    open spec fn view(&self) -> WorkerEnvelopeRetrySucceededPayloadModel {
        self.deep_view()
    }
}

impl Row for WorkerEnvelopeRetrySucceededPayload {
    fn dup(&self) -> (r: Self) {
        WorkerEnvelopeRetrySucceededPayload {
            slice_id: self.slice_id.dup(),
            attempt: self.attempt.dup(),
            launch_id: self.launch_id.dup(),
            envelope_retry: self.envelope_retry.dup(),
            output_path: self.output_path.dup(),
            previous_invalid_output: self.previous_invalid_output.dup(),
            disposition: self.disposition.dup(),
        }
    }

    fn same(&self, other: &Self) -> (r: bool) {
        self.slice_id.same(&other.slice_id)
            && self.attempt.same(&other.attempt)
            && self.launch_id.same(&other.launch_id)
            && self.envelope_retry.same(&other.envelope_retry)
            && self.output_path.same(&other.output_path)
            && self.previous_invalid_output.same(&other.previous_invalid_output)
            && self.disposition.same(&other.disposition)
    }
}

impl Default for WorkerEnvelopeRetrySucceededPayload {
    fn default() -> (r: Self)
        ensures
            r@ == WorkerEnvelopeRetrySucceededPayloadModel::empty(),
    {
        let r = WorkerEnvelopeRetrySucceededPayload {
            slice_id: String::new(),
            attempt: 0,
            launch_id: 0,
            envelope_retry: 0,
            output_path: String::new(),
            previous_invalid_output: String::new(),
            disposition: String::new(),
        };
        assert(r@ =~= WorkerEnvelopeRetrySucceededPayloadModel::empty());
        r
    }
}

impl WorkerEnvelopeRetrySucceededPayloadModel {
    /// All texts and lists empty, all numbers zero, all flags off.
    pub open spec fn empty() -> WorkerEnvelopeRetrySucceededPayloadModel {
        WorkerEnvelopeRetrySucceededPayloadModel {
            slice_id: Seq::<char>::empty(),
            attempt: 0,
            launch_id: 0,
            envelope_retry: 0,
            output_path: Seq::<char>::empty(),
            previous_invalid_output: Seq::<char>::empty(),
            disposition: Seq::<char>::empty(),
        }
    }
}

/// A worker that took too long.
#[derive(Debug, Clone, PartialEq, Eq)]
pub struct WorkerAttemptTimeoutPayload {
    pub phase: String,
    pub slice_id: String,
    pub attempt: usize,
    pub launch_id: Option<i64>,
    pub timeout_seconds: u64,
    pub message: String,
}

#[verifier::ext_equal]
pub struct WorkerAttemptTimeoutPayloadModel {
    pub phase: Seq<char>,
    pub slice_id: Seq<char>,
    pub attempt: usize,
    pub launch_id: Option<i64>,
    pub timeout_seconds: u64,
    pub message: Seq<char>,
}

impl DeepView for WorkerAttemptTimeoutPayload {
    type V = WorkerAttemptTimeoutPayloadModel;

    open spec fn deep_view(&self) -> WorkerAttemptTimeoutPayloadModel {
        WorkerAttemptTimeoutPayloadModel {
            phase: self.phase.deep_view(),
            slice_id: self.slice_id.deep_view(),
            attempt: self.attempt.deep_view(),
            launch_id: self.launch_id.deep_view(),
            timeout_seconds: self.timeout_seconds.deep_view(),
            message: self.message.deep_view(),
        }
    }
}

impl View for WorkerAttemptTimeoutPayload {
    type V = WorkerAttemptTimeoutPayloadModel;

    open spec fn view(&self) -> WorkerAttemptTimeoutPayloadModel {
        self.deep_view()
    }
}

impl Row for WorkerAttemptTimeoutPayload {
    fn dup(&self) -> (r: Self) {
        WorkerAttemptTimeoutPayload {
            phase: self.phase.dup(),
            slice_id: self.slice_id.dup(),
            attempt: self.attempt.dup(),
            launch_id: self.launch_id.dup(),
            timeout_seconds: self.timeout_seconds.dup(),
            message: self.message.dup(),
        }
    }

    fn same(&self, other: &Self) -> (r: bool) {
        self.phase.same(&other.phase)
            && self.slice_id.same(&other.slice_id)
            && self.attempt.same(&other.attempt)
            && self.launch_id.same(&other.launch_id)
            && self.timeout_seconds.same(&other.timeout_seconds)
            && self.message.same(&other.message)
    }
}

impl Default for WorkerAttemptTimeoutPayload {
    fn default() -> (r: Self)
        ensures
            r@ == WorkerAttemptTimeoutPayloadModel::empty(),
    {
        let r = WorkerAttemptTimeoutPayload {
            phase: String::new(),
            slice_id: String::new(),
            attempt: 0,
            launch_id: None,
            timeout_seconds: 0,
            message: String::new(),
        };
        assert(r@ =~= WorkerAttemptTimeoutPayloadModel::empty());
        r
    }
}

impl WorkerAttemptTimeoutPayloadModel {
    /// All texts and lists empty, all numbers zero, all flags off.
    pub open spec fn empty() -> WorkerAttemptTimeoutPayloadModel {
        WorkerAttemptTimeoutPayloadModel {
            phase: Seq::<char>::empty(),
            slice_id: Seq::<char>::empty(),
            attempt: 0,
            launch_id: None,
            timeout_seconds: 0,
            message: Seq::<char>::empty(),
        }
    }
}

/// A worker that failed.
#[derive(Debug, Clone, PartialEq, Eq)]
pub struct WorkerAttemptFailurePayload {
    pub slice_id: String,
    pub attempt: usize,
    pub envelope_retry: usize,
    pub phase: String,
    pub failure_kind: String,
    pub summary: String,
    pub evidence_path: String,
    pub retry_disposition: String,
    pub repair_disposition: String,
    pub primary_failure: Option<String>,
    pub secondary_failures: Vec<String>,
}

#[verifier::ext_equal]
pub struct WorkerAttemptFailurePayloadModel {
    pub slice_id: Seq<char>,
    pub attempt: usize,
    pub envelope_retry: usize,
    pub phase: Seq<char>,
    pub failure_kind: Seq<char>,
    pub summary: Seq<char>,
    pub evidence_path: Seq<char>,
    pub retry_disposition: Seq<char>,
    pub repair_disposition: Seq<char>,
    pub primary_failure: Option<Seq<char>>,
    pub secondary_failures: Seq<Seq<char>>,
}

impl DeepView for WorkerAttemptFailurePayload {
    type V = WorkerAttemptFailurePayloadModel;

    open spec fn deep_view(&self) -> WorkerAttemptFailurePayloadModel {
        WorkerAttemptFailurePayloadModel {
            slice_id: self.slice_id.deep_view(),
            attempt: self.attempt.deep_view(),
            envelope_retry: self.envelope_retry.deep_view(),
            phase: self.phase.deep_view(),
            failure_kind: self.failure_kind.deep_view(),
            summary: self.summary.deep_view(),
            evidence_path: self.evidence_path.deep_view(),
            retry_disposition: self.retry_disposition.deep_view(),
            repair_disposition: self.repair_disposition.deep_view(),
            primary_failure: self.primary_failure.deep_view(),
            secondary_failures: self.secondary_failures.deep_view(),
        }
    }
}

impl View for WorkerAttemptFailurePayload {
    type V = WorkerAttemptFailurePayloadModel;

    open spec fn view(&self) -> WorkerAttemptFailurePayloadModel {
        self.deep_view()
    }
}

impl Row for WorkerAttemptFailurePayload {
    fn dup(&self) -> (r: Self) {
        WorkerAttemptFailurePayload {
            slice_id: self.slice_id.dup(),
            attempt: self.attempt.dup(),
            envelope_retry: self.envelope_retry.dup(),
            phase: self.phase.dup(),
            failure_kind: self.failure_kind.dup(),
            summary: self.summary.dup(),
            evidence_path: self.evidence_path.dup(),
            retry_disposition: self.retry_disposition.dup(),
            repair_disposition: self.repair_disposition.dup(),
            primary_failure: self.primary_failure.dup(),
            secondary_failures: self.secondary_failures.dup(),
        }
    }

    fn same(&self, other: &Self) -> (r: bool) {
        self.slice_id.same(&other.slice_id)
            && self.attempt.same(&other.attempt)
            && self.envelope_retry.same(&other.envelope_retry)
            && self.phase.same(&other.phase)
            && self.failure_kind.same(&other.failure_kind)
            && self.summary.same(&other.summary)
            && self.evidence_path.same(&other.evidence_path)
            && self.retry_disposition.same(&other.retry_disposition)
            && self.repair_disposition.same(&other.repair_disposition)
            && self.primary_failure.same(&other.primary_failure)
            && self.secondary_failures.same(&other.secondary_failures)
    }
}

impl Default for WorkerAttemptFailurePayload {
    fn default() -> (r: Self)
        ensures
            r@ == WorkerAttemptFailurePayloadModel::empty(),
    {
        let r = WorkerAttemptFailurePayload {
            slice_id: String::new(),
            attempt: 0,
            envelope_retry: 0,
            phase: String::new(),
            failure_kind: String::new(),
            summary: String::new(),
            evidence_path: String::new(),
            retry_disposition: String::new(),
            repair_disposition: String::new(),
            primary_failure: None,
            secondary_failures: Vec::new(),
        };
        assert(r@ =~= WorkerAttemptFailurePayloadModel::empty());
        r
    }
}

impl WorkerAttemptFailurePayloadModel {
    /// All texts and lists empty, all numbers zero, all flags off.
    pub open spec fn empty() -> WorkerAttemptFailurePayloadModel {
        WorkerAttemptFailurePayloadModel {
            slice_id: Seq::<char>::empty(),
            attempt: 0,
            envelope_retry: 0,
            phase: Seq::<char>::empty(),
            failure_kind: Seq::<char>::empty(),
            summary: Seq::<char>::empty(),
            evidence_path: Seq::<char>::empty(),
            retry_disposition: Seq::<char>::empty(),
            repair_disposition: Seq::<char>::empty(),
            primary_failure: None,
            secondary_failures: Seq::empty(),
        }
    }
}

/// An error of a worker.
#[derive(Debug, Clone, PartialEq, Eq)]
pub struct WorkerErrorPayload {
    pub slice_id: String,
    pub attempt: usize,
    pub error: String,
    pub primary_failure: Option<String>,
    pub secondary_failures: Vec<String>,
    pub failure_kind: String,
    pub retryable: Option<bool>,
    pub operator_action_required: Option<bool>,
}

#[verifier::ext_equal]
pub struct WorkerErrorPayloadModel {
    pub slice_id: Seq<char>,
    pub attempt: usize,
    pub error: Seq<char>,
    pub primary_failure: Option<Seq<char>>,
    pub secondary_failures: Seq<Seq<char>>,
    pub failure_kind: Seq<char>,
    pub retryable: Option<bool>,
    pub operator_action_required: Option<bool>,
}

impl DeepView for WorkerErrorPayload {
    type V = WorkerErrorPayloadModel;

    open spec fn deep_view(&self) -> WorkerErrorPayloadModel {
        WorkerErrorPayloadModel {
            slice_id: self.slice_id.deep_view(),
            attempt: self.attempt.deep_view(),
            error: self.error.deep_view(),
            primary_failure: self.primary_failure.deep_view(),
            secondary_failures: self.secondary_failures.deep_view(),
            failure_kind: self.failure_kind.deep_view(),
            retryable: self.retryable.deep_view(),
            operator_action_required: self.operator_action_required.deep_view(),
        }
    }
}

impl View for WorkerErrorPayload {
    type V = WorkerErrorPayloadModel;

    open spec fn view(&self) -> WorkerErrorPayloadModel {
        self.deep_view()
    }
}

impl Row for WorkerErrorPayload {
    fn dup(&self) -> (r: Self) {
        WorkerErrorPayload {
            slice_id: self.slice_id.dup(),
            attempt: self.attempt.dup(),
            error: self.error.dup(),
            primary_failure: self.primary_failure.dup(),
            secondary_failures: self.secondary_failures.dup(),
            failure_kind: self.failure_kind.dup(),
            retryable: self.retryable.dup(),
            operator_action_required: self.operator_action_required.dup(),
        }
    }

    fn same(&self, other: &Self) -> (r: bool) {
        self.slice_id.same(&other.slice_id)
            && self.attempt.same(&other.attempt)
            && self.error.same(&other.error)
            && self.primary_failure.same(&other.primary_failure)
            && self.secondary_failures.same(&other.secondary_failures)
            && self.failure_kind.same(&other.failure_kind)
            && self.retryable.same(&other.retryable)
            && self.operator_action_required.same(&other.operator_action_required)
    }
}

impl Default for WorkerErrorPayload {
    fn default() -> (r: Self)
        ensures
            r@ == WorkerErrorPayloadModel::empty(),
    {
        let r = WorkerErrorPayload {
            slice_id: String::new(),
            attempt: 0,
            error: String::new(),
            primary_failure: None,
            secondary_failures: Vec::new(),
            failure_kind: String::new(),
            retryable: None,
            operator_action_required: None,
        };
        assert(r@ =~= WorkerErrorPayloadModel::empty());
        r
    }
}

impl WorkerErrorPayloadModel {
    /// All texts and lists empty, all numbers zero, all flags off.
    pub open spec fn empty() -> WorkerErrorPayloadModel {
        WorkerErrorPayloadModel {
            slice_id: Seq::<char>::empty(),
            attempt: 0,
            error: Seq::<char>::empty(),
            primary_failure: None,
            secondary_failures: Seq::empty(),
            failure_kind: Seq::<char>::empty(),
            retryable: None,
            operator_action_required: None,
        }
    }
}

/// A question that was asked.
#[derive(Debug, Clone, PartialEq, Eq)]
pub struct WorkerQuestionAskedPayload {
    pub question_id: String,
    pub slice_id: String,
    pub attempt: usize,
    pub launch_id: Option<i64>,
    pub question: String,
    pub options: Vec<String>,
    pub timeout_seconds: u64,
    pub deadline_at: Option<String>,
    pub recommended_answer: String,
    pub recommendation_rationale: String,
    pub bounded_within_current_slice_or_mission_authority: bool,
    pub reversible: bool,
    pub fallback_eligible: bool,
    pub answer_command: String,
}

#[verifier::ext_equal]
pub struct WorkerQuestionAskedPayloadModel {
    pub question_id: Seq<char>,
    pub slice_id: Seq<char>,
    pub attempt: usize,
    pub launch_id: Option<i64>,
    pub question: Seq<char>,
    pub options: Seq<Seq<char>>,
    pub timeout_seconds: u64,
    pub deadline_at: Option<Seq<char>>,
    pub recommended_answer: Seq<char>,
    pub recommendation_rationale: Seq<char>,
    pub bounded_within_current_slice_or_mission_authority: bool,
    pub reversible: bool,
    pub fallback_eligible: bool,
    pub answer_command: Seq<char>,
}

impl DeepView for WorkerQuestionAskedPayload {
    type V = WorkerQuestionAskedPayloadModel;

    open spec fn deep_view(&self) -> WorkerQuestionAskedPayloadModel {
        WorkerQuestionAskedPayloadModel {
            question_id: self.question_id.deep_view(),
            slice_id: self.slice_id.deep_view(),
            attempt: self.attempt.deep_view(),
            launch_id: self.launch_id.deep_view(),
            question: self.question.deep_view(),
            options: self.options.deep_view(),
            timeout_seconds: self.timeout_seconds.deep_view(),
            deadline_at: self.deadline_at.deep_view(),
            recommended_answer: self.recommended_answer.deep_view(),
            recommendation_rationale: self.recommendation_rationale.deep_view(),
            bounded_within_current_slice_or_mission_authority: self.bounded_within_current_slice_or_mission_authority.deep_view(),
            reversible: self.reversible.deep_view(),
            fallback_eligible: self.fallback_eligible.deep_view(),
            answer_command: self.answer_command.deep_view(),
        }
    }
}

impl View for WorkerQuestionAskedPayload {
    type V = WorkerQuestionAskedPayloadModel;

    open spec fn view(&self) -> WorkerQuestionAskedPayloadModel {
        self.deep_view()
    }
}

impl Row for WorkerQuestionAskedPayload {
    fn dup(&self) -> (r: Self) {
        WorkerQuestionAskedPayload {
            question_id: self.question_id.dup(),
            slice_id: self.slice_id.dup(),
            attempt: self.attempt.dup(),
            launch_id: self.launch_id.dup(),
            question: self.question.dup(),
            options: self.options.dup(),
            timeout_seconds: self.timeout_seconds.dup(),
            deadline_at: self.deadline_at.dup(),
            recommended_answer: self.recommended_answer.dup(),
            recommendation_rationale: self.recommendation_rationale.dup(),
            bounded_within_current_slice_or_mission_authority: self.bounded_within_current_slice_or_mission_authority.dup(),
            reversible: self.reversible.dup(),
            fallback_eligible: self.fallback_eligible.dup(),
            answer_command: self.answer_command.dup(),
        }
    }

    fn same(&self, other: &Self) -> (r: bool) {
        self.question_id.same(&other.question_id)
            && self.slice_id.same(&other.slice_id)
            && self.attempt.same(&other.attempt)
            && self.launch_id.same(&other.launch_id)
            && self.question.same(&other.question)
            && self.options.same(&other.options)
            && self.timeout_seconds.same(&other.timeout_seconds)
            && self.deadline_at.same(&other.deadline_at)
            && self.recommended_answer.same(&other.recommended_answer)
            && self.recommendation_rationale.same(&other.recommendation_rationale)
            && self.bounded_within_current_slice_or_mission_authority.same(&other.bounded_within_current_slice_or_mission_authority)
            && self.reversible.same(&other.reversible)
            && self.fallback_eligible.same(&other.fallback_eligible)
            && self.answer_command.same(&other.answer_command)
    }
}

impl Default for WorkerQuestionAskedPayload {
    fn default() -> (r: Self)
        ensures
            r@ == WorkerQuestionAskedPayloadModel::empty(),
    {
        let r = WorkerQuestionAskedPayload {
            question_id: String::new(),
            slice_id: String::new(),
            attempt: 0,
            launch_id: None,
            question: String::new(),
            options: Vec::new(),
            timeout_seconds: 0,
            deadline_at: None,
            recommended_answer: String::new(),
            recommendation_rationale: String::new(),
            bounded_within_current_slice_or_mission_authority: false,
            reversible: false,
            fallback_eligible: false,
            answer_command: String::new(),
        };
        assert(r@ =~= WorkerQuestionAskedPayloadModel::empty());
        r
    }
}

impl WorkerQuestionAskedPayloadModel {
    /// All texts and lists empty, all numbers zero, all flags off.
    pub open spec fn empty() -> WorkerQuestionAskedPayloadModel {
        WorkerQuestionAskedPayloadModel {
            question_id: Seq::<char>::empty(),
            slice_id: Seq::<char>::empty(),
            attempt: 0,
            launch_id: None,
            question: Seq::<char>::empty(),
            options: Seq::empty(),
            timeout_seconds: 0,
            deadline_at: None,
            recommended_answer: Seq::<char>::empty(),
            recommendation_rationale: Seq::<char>::empty(),
            bounded_within_current_slice_or_mission_authority: false,
            reversible: false,
            fallback_eligible: false,
            answer_command: Seq::<char>::empty(),
        }
    }
}

/// A question that was answered.
#[derive(Debug, Clone, PartialEq, Eq)]
pub struct WorkerQuestionAnsweredPayload {
    pub question_id: String,
    pub slice_id: String,
    pub launch_id: Option<i64>,
    pub answer: String,
    pub answer_source: String,
    pub recommended_answer: String,
    pub recommendation_rationale: String,
}

#[verifier::ext_equal]
pub struct WorkerQuestionAnsweredPayloadModel {
    pub question_id: Seq<char>,
    pub slice_id: Seq<char>,
    pub launch_id: Option<i64>,
    pub answer: Seq<char>,
    pub answer_source: Seq<char>,
    pub recommended_answer: Seq<char>,
    pub recommendation_rationale: Seq<char>,
}

impl DeepView for WorkerQuestionAnsweredPayload {
    type V = WorkerQuestionAnsweredPayloadModel;

    open spec fn deep_view(&self) -> WorkerQuestionAnsweredPayloadModel {
        WorkerQuestionAnsweredPayloadModel {
            question_id: self.question_id.deep_view(),
            slice_id: self.slice_id.deep_view(),
            launch_id: self.launch_id.deep_view(),
            answer: self.answer.deep_view(),
            answer_source: self.answer_source.deep_view(),
            recommended_answer: self.recommended_answer.deep_view(),
            recommendation_rationale: self.recommendation_rationale.deep_view(),
        }
    }
}

impl View for WorkerQuestionAnsweredPayload {
    type V = WorkerQuestionAnsweredPayloadModel;

    open spec fn view(&self) -> WorkerQuestionAnsweredPayloadModel {
        self.deep_view()
    }
}

impl Row for WorkerQuestionAnsweredPayload {
    fn dup(&self) -> (r: Self) {
        WorkerQuestionAnsweredPayload {
            question_id: self.question_id.dup(),
            slice_id: self.slice_id.dup(),
            launch_id: self.launch_id.dup(),
            answer: self.answer.dup(),
            answer_source: self.answer_source.dup(),
            recommended_answer: self.recommended_answer.dup(),
            recommendation_rationale: self.recommendation_rationale.dup(),
        }
    }

    fn same(&self, other: &Self) -> (r: bool) {
        self.question_id.same(&other.question_id)
            && self.slice_id.same(&other.slice_id)
            && self.launch_id.same(&other.launch_id)
            && self.answer.same(&other.answer)
            && self.answer_source.same(&other.answer_source)
            && self.recommended_answer.same(&other.recommended_answer)
            && self.recommendation_rationale.same(&other.recommendation_rationale)
    }
}

impl Default for WorkerQuestionAnsweredPayload {
    fn default() -> (r: Self)
        ensures
            r@ == WorkerQuestionAnsweredPayloadModel::empty(),
    {
        let r = WorkerQuestionAnsweredPayload {
            question_id: String::new(),
            slice_id: String::new(),
            launch_id: None,
            answer: String::new(),
            answer_source: String::new(),
            recommended_answer: String::new(),
            recommendation_rationale: String::new(),
        };
        assert(r@ =~= WorkerQuestionAnsweredPayloadModel::empty());
        r
    }
}

impl WorkerQuestionAnsweredPayloadModel {
    /// All texts and lists empty, all numbers zero, all flags off.
    pub open spec fn empty() -> WorkerQuestionAnsweredPayloadModel {
        WorkerQuestionAnsweredPayloadModel {
            question_id: Seq::<char>::empty(),
            slice_id: Seq::<char>::empty(),
            launch_id: None,
            answer: Seq::<char>::empty(),
            answer_source: Seq::<char>::empty(),
            recommended_answer: Seq::<char>::empty(),
            recommendation_rationale: Seq::<char>::empty(),
        }
    }
}

/// A pane that got a new label.
#[derive(Debug, Clone, PartialEq, Eq)]
pub struct CockpitWorkerRenamedPayload {
    pub pane_id: String,
    pub slice_id: String,
    pub launch_id: Option<i64>,
    pub launch_stem: String,
    pub status: String,
    pub label: String,
    pub adapter: String,
    pub surface: String,
}

#[verifier::ext_equal]
pub struct CockpitWorkerRenamedPayloadModel {
    pub pane_id: Seq<char>,
    pub slice_id: Seq<char>,
    pub launch_id: Option<i64>,
    pub launch_stem: Seq<char>,
    pub status: Seq<char>,
    pub label: Seq<char>,
    pub adapter: Seq<char>,
    pub surface: Seq<char>,
}

impl DeepView for CockpitWorkerRenamedPayload {
    type V = CockpitWorkerRenamedPayloadModel;

    open spec fn deep_view(&self) -> CockpitWorkerRenamedPayloadModel {
        CockpitWorkerRenamedPayloadModel {
            pane_id: self.pane_id.deep_view(),
            slice_id: self.slice_id.deep_view(),
            launch_id: self.launch_id.deep_view(),
            launch_stem: self.launch_stem.deep_view(),
            status: self.status.deep_view(),
            label: self.label.deep_view(),
            adapter: self.adapter.deep_view(),
            surface: self.surface.deep_view(),
        }
    }
}

impl View for CockpitWorkerRenamedPayload {
    type V = CockpitWorkerRenamedPayloadModel;

    open spec fn view(&self) -> CockpitWorkerRenamedPayloadModel {
        self.deep_view()
    }
}

impl Row for CockpitWorkerRenamedPayload {
    fn dup(&self) -> (r: Self) {
        CockpitWorkerRenamedPayload {
            pane_id: self.pane_id.dup(),
            slice_id: self.slice_id.dup(),
            launch_id: self.launch_id.dup(),
            launch_stem: self.launch_stem.dup(),
            status: self.status.dup(),
            label: self.label.dup(),
            adapter: self.adapter.dup(),
            surface: self.surface.dup(),
        }
    }

    fn same(&self, other: &Self) -> (r: bool) {
        self.pane_id.same(&other.pane_id)
            && self.slice_id.same(&other.slice_id)
            && self.launch_id.same(&other.launch_id)
            && self.launch_stem.same(&other.launch_stem)
            && self.status.same(&other.status)
            && self.label.same(&other.label)
            && self.adapter.same(&other.adapter)
            && self.surface.same(&other.surface)
    }
}

impl Default for CockpitWorkerRenamedPayload {
    fn default() -> (r: Self)
        ensures
            r@ == CockpitWorkerRenamedPayloadModel::empty(),
    {
        let r = CockpitWorkerRenamedPayload {
            pane_id: String::new(),
            slice_id: String::new(),
            launch_id: None,
            launch_stem: String::new(),
            status: String::new(),
            label: String::new(),
            adapter: String::new(),
            surface: String::new(),
        };
        assert(r@ =~= CockpitWorkerRenamedPayloadModel::empty());
        r
    }
}

impl CockpitWorkerRenamedPayloadModel {
    /// All texts and lists empty, all numbers zero, all flags off.
    pub open spec fn empty() -> CockpitWorkerRenamedPayloadModel {
        CockpitWorkerRenamedPayloadModel {
            pane_id: Seq::<char>::empty(),
            slice_id: Seq::<char>::empty(),
            launch_id: None,
            launch_stem: Seq::<char>::empty(),
            status: Seq::<char>::empty(),
            label: Seq::<char>::empty(),
            adapter: Seq::<char>::empty(),
            surface: Seq::<char>::empty(),
        }
    }
}

/// A notification that reached the operator.
#[derive(Debug, Clone, PartialEq, Eq)]
pub struct AttentionDeliveryPayload {
    pub kind: String,
    pub question_id: String,
    pub slice_id: String,
    pub proposal_id: String,
    pub adapter: String,
    pub surface: String,
    pub target_kind: String,
}

#[verifier::ext_equal]
pub struct AttentionDeliveryPayloadModel {
    pub kind: Seq<char>,
    pub question_id: Seq<char>,
    pub slice_id: Seq<char>,
    pub proposal_id: Seq<char>,
    pub adapter: Seq<char>,
    pub surface: Seq<char>,
    pub target_kind: Seq<char>,
}

impl DeepView for AttentionDeliveryPayload {
    type V = AttentionDeliveryPayloadModel;

    open spec fn deep_view(&self) -> AttentionDeliveryPayloadModel {
        AttentionDeliveryPayloadModel {
            kind: self.kind.deep_view(),
            question_id: self.question_id.deep_view(),
            slice_id: self.slice_id.deep_view(),
            proposal_id: self.proposal_id.deep_view(),
            adapter: self.adapter.deep_view(),
            surface: self.surface.deep_view(),
            target_kind: self.target_kind.deep_view(),
        }
    }
}

impl View for AttentionDeliveryPayload {
    type V = AttentionDeliveryPayloadModel;

    open spec fn view(&self) -> AttentionDeliveryPayloadModel {
        self.deep_view()
    }
}

impl Row for AttentionDeliveryPayload {
    fn dup(&self) -> (r: Self) {
        AttentionDeliveryPayload {
            kind: self.kind.dup(),
            question_id: self.question_id.dup(),
            slice_id: self.slice_id.dup(),
            proposal_id: self.proposal_id.dup(),
            adapter: self.adapter.dup(),
            surface: self.surface.dup(),
            target_kind: self.target_kind.dup(),
        }
    }

    fn same(&self, other: &Self) -> (r: bool) {
        self.kind.same(&other.kind)
            && self.question_id.same(&other.question_id)
            && self.slice_id.same(&other.slice_id)
            && self.proposal_id.same(&other.proposal_id)
            && self.adapter.same(&other.adapter)
            && self.surface.same(&other.surface)
            && self.target_kind.same(&other.target_kind)
    }
}

impl Default for AttentionDeliveryPayload {
    fn default() -> (r: Self)
        ensures
            r@ == AttentionDeliveryPayloadModel::empty(),
    {
        let r = AttentionDeliveryPayload {
            kind: String::new(),
            question_id: String::new(),
            slice_id: String::new(),
            proposal_id: String::new(),
            adapter: String::new(),
            surface: String::new(),
            target_kind: String::new(),
        };
        assert(r@ =~= AttentionDeliveryPayloadModel::empty());
        r
    }
}

impl AttentionDeliveryPayloadModel {
    /// All texts and lists empty, all numbers zero, all flags off.
    pub open spec fn empty() -> AttentionDeliveryPayloadModel {
        AttentionDeliveryPayloadModel {
            kind: Seq::<char>::empty(),
            question_id: Seq::<char>::empty(),
            slice_id: Seq::<char>::empty(),
            proposal_id: Seq::<char>::empty(),
            adapter: Seq::<char>::empty(),
            surface: Seq::<char>::empty(),
            target_kind: Seq::<char>::empty(),
        }
    }
}

/// Slices that ran side by side; an outcome is kept as its document.
#[derive(Debug, Clone, PartialEq, Eq)]
pub struct ParallelLayerPayload {
    pub slices: Vec<String>,
    pub outcomes: Vec<String>,
    pub summary: String,
}

#[verifier::ext_equal]
pub struct ParallelLayerPayloadModel {
    pub slices: Seq<Seq<char>>,
    pub outcomes: Seq<Seq<char>>,
    pub summary: Seq<char>,
}

impl DeepView for ParallelLayerPayload {
    type V = ParallelLayerPayloadModel;

    open spec fn deep_view(&self) -> ParallelLayerPayloadModel {
        ParallelLayerPayloadModel {
            slices: self.slices.deep_view(),
            outcomes: self.outcomes.deep_view(),
            summary: self.summary.deep_view(),
        }
    }
}

impl View for ParallelLayerPayload {
    type V = ParallelLayerPayloadModel;

    open spec fn view(&self) -> ParallelLayerPayloadModel {
        self.deep_view()
    }
}

impl Row for ParallelLayerPayload {
    fn dup(&self) -> (r: Self) {
        ParallelLayerPayload {
            slices: self.slices.dup(),
            outcomes: self.outcomes.dup(),
            summary: self.summary.dup(),
        }
    }

    fn same(&self, other: &Self) -> (r: bool) {
        self.slices.same(&other.slices)
            && self.outcomes.same(&other.outcomes)
            && self.summary.same(&other.summary)
    }
}

impl Default for ParallelLayerPayload {
    fn default() -> (r: Self)
        ensures
            r@ == ParallelLayerPayloadModel::empty(),
    {
        let r = ParallelLayerPayload {
            slices: Vec::new(),
            outcomes: Vec::new(),
            summary: String::new(),
        };
        assert(r@ =~= ParallelLayerPayloadModel::empty());
        r
    }
}

impl ParallelLayerPayloadModel {
    /// All texts and lists empty, all numbers zero, all flags off.
    pub open spec fn empty() -> ParallelLayerPayloadModel {
        ParallelLayerPayloadModel {
            slices: Seq::empty(),
            outcomes: Seq::empty(),
            summary: Seq::<char>::empty(),
        }
    }
}

/// What an implementation came to; its slices, its gates, its repair and its exit states are kept as
/// documents.
#[derive(Debug, Clone, PartialEq, Eq)]
pub struct ImplementationSummaryPayload {
    pub completed_slices: Vec<String>,
    pub integration_gate: Option<String>,
    pub pre_repair_integration_gate: Option<String>,
    pub integration_repair: Option<String>,
    pub exit_states: Option<String>,
    pub verify_profile: String,
    pub final_sha: String,
}

#[verifier::ext_equal]
pub struct ImplementationSummaryPayloadModel {
    pub completed_slices: Seq<Seq<char>>,
    pub integration_gate: Option<Seq<char>>,
    pub pre_repair_integration_gate: Option<Seq<char>>,
    pub integration_repair: Option<Seq<char>>,
    pub exit_states: Option<Seq<char>>,
    pub verify_profile: Seq<char>,
    pub final_sha: Seq<char>,
}

impl DeepView for ImplementationSummaryPayload {
    type V = ImplementationSummaryPayloadModel;

    open spec fn deep_view(&self) -> ImplementationSummaryPayloadModel {
        ImplementationSummaryPayloadModel {
            completed_slices: self.completed_slices.deep_view(),
            integration_gate: self.integration_gate.deep_view(),
            pre_repair_integration_gate: self.pre_repair_integration_gate.deep_view(),
            integration_repair: self.integration_repair.deep_view(),
            exit_states: self.exit_states.deep_view(),
            verify_profile: self.verify_profile.deep_view(),
            final_sha: self.final_sha.deep_view(),
        }
    }
}

impl View for ImplementationSummaryPayload {
    type V = ImplementationSummaryPayloadModel;

    open spec fn view(&self) -> ImplementationSummaryPayloadModel {
        self.deep_view()
    }
}

/// How the frontier policy classified a proposal.
#[derive(Debug, Clone, PartialEq, Eq)]
pub struct FrontierClassifiedPayload {
    pub proposal_id: String,
    pub checkpoint: String,
    pub tier: String,
    pub reason_codes: Vec<String>,
    pub classified_at: Timestamp,
    pub envelope_hash: String,
    pub budget_snapshot: FrontierBudgetState,
    pub autonomy_level: AutonomyLevel,
    pub record_only: bool,
    pub queue_mutated: bool,
    pub slice_mutated: bool,
    pub decision_recorded: bool,
}

#[verifier::ext_equal]
pub struct FrontierClassifiedPayloadModel {
    pub proposal_id: Seq<char>,
    pub checkpoint: Seq<char>,
    pub tier: Seq<char>,
    pub reason_codes: Seq<Seq<char>>,
    pub classified_at: Timestamp,
    pub envelope_hash: Seq<char>,
    pub budget_snapshot: FrontierBudgetStateModel,
    pub autonomy_level: AutonomyLevel,
    pub record_only: bool,
    pub queue_mutated: bool,
    pub slice_mutated: bool,
    pub decision_recorded: bool,
}

impl DeepView for FrontierClassifiedPayload {
    type V = FrontierClassifiedPayloadModel;

    open spec fn deep_view(&self) -> FrontierClassifiedPayloadModel {
        FrontierClassifiedPayloadModel {
            proposal_id: self.proposal_id.deep_view(),
            checkpoint: self.checkpoint.deep_view(),
            tier: self.tier.deep_view(),
            reason_codes: self.reason_codes.deep_view(),
            classified_at: self.classified_at.deep_view(),
            envelope_hash: self.envelope_hash.deep_view(),
            budget_snapshot: self.budget_snapshot.deep_view(),
            autonomy_level: self.autonomy_level.deep_view(),
            record_only: self.record_only.deep_view(),
            queue_mutated: self.queue_mutated.deep_view(),
            slice_mutated: self.slice_mutated.deep_view(),
            decision_recorded: self.decision_recorded.deep_view(),
        }
    }
}

impl View for FrontierClassifiedPayload {
    type V = FrontierClassifiedPayloadModel;

    open spec fn view(&self) -> FrontierClassifiedPayloadModel {
        self.deep_view()
    }
}

impl Row for FrontierClassifiedPayload {
    fn dup(&self) -> (r: Self) {
        FrontierClassifiedPayload {
            proposal_id: self.proposal_id.dup(),
            checkpoint: self.checkpoint.dup(),
            tier: self.tier.dup(),
            reason_codes: self.reason_codes.dup(),
            classified_at: self.classified_at.dup(),
            envelope_hash: self.envelope_hash.dup(),
            budget_snapshot: self.budget_snapshot.dup(),
            autonomy_level: self.autonomy_level.dup(),
            record_only: self.record_only.dup(),
            queue_mutated: self.queue_mutated.dup(),
            slice_mutated: self.slice_mutated.dup(),
            decision_recorded: self.decision_recorded.dup(),
        }
    }

    fn same(&self, other: &Self) -> (r: bool) {
        self.proposal_id.same(&other.proposal_id)
            && self.checkpoint.same(&other.checkpoint)
            && self.tier.same(&other.tier)
            && self.reason_codes.same(&other.reason_codes)
            && self.classified_at.same(&other.classified_at)
            && self.envelope_hash.same(&other.envelope_hash)
            && self.budget_snapshot.same(&other.budget_snapshot)
            && self.autonomy_level.same(&other.autonomy_level)
            && self.record_only.same(&other.record_only)
            && self.queue_mutated.same(&other.queue_mutated)
            && self.slice_mutated.same(&other.slice_mutated)
            && self.decision_recorded.same(&other.decision_recorded)
    }
}

/// A proposal that the frontier policy accepted.
#[derive(Debug, Clone, PartialEq, Eq)]
pub struct FrontierAutoAcceptRecordedPayload {
    pub proposal_id: String,
    pub checkpoint: String,
    pub authorizer: String,
    pub source: String,
    pub rationale: String,
    pub tier: String,
    pub reason_codes: Vec<String>,
    pub budget_before: FrontierBudgetState,
    pub budget_after: FrontierBudgetState,
    pub af00_evidence_gate: String,
    pub apply_mode: String,
}

#[verifier::ext_equal]
pub struct FrontierAutoAcceptRecordedPayloadModel {
    pub proposal_id: Seq<char>,
    pub checkpoint: Seq<char>,
    pub authorizer: Seq<char>,
    pub source: Seq<char>,
    pub rationale: Seq<char>,
    pub tier: Seq<char>,
    pub reason_codes: Seq<Seq<char>>,
    pub budget_before: FrontierBudgetStateModel,
    pub budget_after: FrontierBudgetStateModel,
    pub af00_evidence_gate: Seq<char>,
    pub apply_mode: Seq<char>,
}

impl DeepView for FrontierAutoAcceptRecordedPayload {
    type V = FrontierAutoAcceptRecordedPayloadModel;

    open spec fn deep_view(&self) -> FrontierAutoAcceptRecordedPayloadModel {
        FrontierAutoAcceptRecordedPayloadModel {
            proposal_id: self.proposal_id.deep_view(),
            checkpoint: self.checkpoint.deep_view(),
            authorizer: self.authorizer.deep_view(),
            source: self.source.deep_view(),
            rationale: self.rationale.deep_view(),
            tier: self.tier.deep_view(),
            reason_codes: self.reason_codes.deep_view(),
            budget_before: self.budget_before.deep_view(),
            budget_after: self.budget_after.deep_view(),
            af00_evidence_gate: self.af00_evidence_gate.deep_view(),
            apply_mode: self.apply_mode.deep_view(),
        }
    }
}

impl View for FrontierAutoAcceptRecordedPayload {
    type V = FrontierAutoAcceptRecordedPayloadModel;

    open spec fn view(&self) -> FrontierAutoAcceptRecordedPayloadModel {
        self.deep_view()
    }
}

impl Row for FrontierAutoAcceptRecordedPayload {
    fn dup(&self) -> (r: Self) {
        FrontierAutoAcceptRecordedPayload {
            proposal_id: self.proposal_id.dup(),
            checkpoint: self.checkpoint.dup(),
            authorizer: self.authorizer.dup(),
            source: self.source.dup(),
            rationale: self.rationale.dup(),
            tier: self.tier.dup(),
            reason_codes: self.reason_codes.dup(),
            budget_before: self.budget_before.dup(),
            budget_after: self.budget_after.dup(),
            af00_evidence_gate: self.af00_evidence_gate.dup(),
            apply_mode: self.apply_mode.dup(),
        }
    }

    fn same(&self, other: &Self) -> (r: bool) {
        self.proposal_id.same(&other.proposal_id)
            && self.checkpoint.same(&other.checkpoint)
            && self.authorizer.same(&other.authorizer)
            && self.source.same(&other.source)
            && self.rationale.same(&other.rationale)
            && self.tier.same(&other.tier)
            && self.reason_codes.same(&other.reason_codes)
            && self.budget_before.same(&other.budget_before)
            && self.budget_after.same(&other.budget_after)
            && self.af00_evidence_gate.same(&other.af00_evidence_gate)
            && self.apply_mode.same(&other.apply_mode)
    }
}

/// A proposal that was made.
#[derive(Debug, Clone, PartialEq, Eq)]
pub struct ReplanProposalCreatedPayload {
    pub proposal_id: String,
    pub state: ReplanProposalState,
    pub risk: String,
    pub source: ReplanProposalSource,
    pub proposed_changes: Vec<ReplanProposedChange>,
    pub decision_commands: Vec<String>,
}

#[verifier::ext_equal]
pub struct ReplanProposalCreatedPayloadModel {
    pub proposal_id: Seq<char>,
    pub state: ReplanProposalState,
    pub risk: Seq<char>,
    pub source: ReplanProposalSourceModel,
    pub proposed_changes: Seq<ReplanProposedChangeModel>,
    pub decision_commands: Seq<Seq<char>>,
}

impl DeepView for ReplanProposalCreatedPayload {
    type V = ReplanProposalCreatedPayloadModel;

    open spec fn deep_view(&self) -> ReplanProposalCreatedPayloadModel {
        ReplanProposalCreatedPayloadModel {
            proposal_id: self.proposal_id.deep_view(),
            state: self.state.deep_view(),
            risk: self.risk.deep_view(),
            source: self.source.deep_view(),
            proposed_changes: self.proposed_changes.deep_view(),
            decision_commands: self.decision_commands.deep_view(),
        }
    }
}

impl View for ReplanProposalCreatedPayload {
    type V = ReplanProposalCreatedPayloadModel;

    open spec fn view(&self) -> ReplanProposalCreatedPayloadModel {
        self.deep_view()
    }
}

impl Row for ReplanProposalCreatedPayload {
    fn dup(&self) -> (r: Self) {
        ReplanProposalCreatedPayload {
            proposal_id: self.proposal_id.dup(),
            state: self.state.dup(),
            risk: self.risk.dup(),
            source: self.source.dup(),
            proposed_changes: self.proposed_changes.dup(),
            decision_commands: self.decision_commands.dup(),
        }
    }

    fn same(&self, other: &Self) -> (r: bool) {
        self.proposal_id.same(&other.proposal_id)
            && self.state.same(&other.state)
            && self.risk.same(&other.risk)
            && self.source.same(&other.source)
            && self.proposed_changes.same(&other.proposed_changes)
            && self.decision_commands.same(&other.decision_commands)
    }
}

/// A proposal that the frontier policy left alone.
#[derive(Debug, Clone, PartialEq, Eq)]
pub struct FrontierAutoAcceptDispositionPayload {
    pub proposal_id: String,
    pub checkpoint: String,
    pub reason: String,
    pub tier: String,
    pub reason_codes: Vec<String>,
    pub state: ReplanProposalState,
}

#[verifier::ext_equal]
pub struct FrontierAutoAcceptDispositionPayloadModel {
    pub proposal_id: Seq<char>,
    pub checkpoint: Seq<char>,
    pub reason: Seq<char>,
    pub tier: Seq<char>,
    pub reason_codes: Seq<Seq<char>>,
    pub state: ReplanProposalState,
}

impl DeepView for FrontierAutoAcceptDispositionPayload {
    type V = FrontierAutoAcceptDispositionPayloadModel;

    open spec fn deep_view(&self) -> FrontierAutoAcceptDispositionPayloadModel {
        FrontierAutoAcceptDispositionPayloadModel {
            proposal_id: self.proposal_id.deep_view(),
            checkpoint: self.checkpoint.deep_view(),
            reason: self.reason.deep_view(),
            tier: self.tier.deep_view(),
            reason_codes: self.reason_codes.deep_view(),
            state: self.state.deep_view(),
        }
    }
}

impl View for FrontierAutoAcceptDispositionPayload {
    type V = FrontierAutoAcceptDispositionPayloadModel;

    open spec fn view(&self) -> FrontierAutoAcceptDispositionPayloadModel {
        self.deep_view()
    }
}

impl Row for FrontierAutoAcceptDispositionPayload {
    fn dup(&self) -> (r: Self) {
        FrontierAutoAcceptDispositionPayload {
            proposal_id: self.proposal_id.dup(),
            checkpoint: self.checkpoint.dup(),
            reason: self.reason.dup(),
            tier: self.tier.dup(),
            reason_codes: self.reason_codes.dup(),
            state: self.state.dup(),
        }
    }

    fn same(&self, other: &Self) -> (r: bool) {
        self.proposal_id.same(&other.proposal_id)
            && self.checkpoint.same(&other.checkpoint)
            && self.reason.same(&other.reason)
            && self.tier.same(&other.tier)
            && self.reason_codes.same(&other.reason_codes)
            && self.state.same(&other.state)
    }
}

/// What led to a proposal.
#[derive(Debug, Clone, PartialEq, Eq)]
pub struct ReplanProposalEvidencePayload {
    pub source: String,
    pub slice_id: String,
    pub attempt: usize,
    pub draft_index: Option<usize>,
    pub draft_id: String,
    pub finding_id: String,
    pub proposal_id: String,
    pub output_path: String,
    pub repair_output_path: String,
    pub summary: String,
    pub repair_base: String,
    pub repair_head: String,
    pub unauthorized_paths: Vec<String>,
    pub policy: String,
}

#[verifier::ext_equal]
pub struct ReplanProposalEvidencePayloadModel {
    pub source: Seq<char>,
    pub slice_id: Seq<char>,
    pub attempt: usize,
    pub draft_index: Option<usize>,
    pub draft_id: Seq<char>,
    pub finding_id: Seq<char>,
    pub proposal_id: Seq<char>,
    pub output_path: Seq<char>,
    pub repair_output_path: Seq<char>,
    pub summary: Seq<char>,
    pub repair_base: Seq<char>,
    pub repair_head: Seq<char>,
    pub unauthorized_paths: Seq<Seq<char>>,
    pub policy: Seq<char>,
}

impl DeepView for ReplanProposalEvidencePayload {
    type V = ReplanProposalEvidencePayloadModel;

    open spec fn deep_view(&self) -> ReplanProposalEvidencePayloadModel {
        ReplanProposalEvidencePayloadModel {
            source: self.source.deep_view(),
            slice_id: self.slice_id.deep_view(),
            attempt: self.attempt.deep_view(),
            draft_index: self.draft_index.deep_view(),
            draft_id: self.draft_id.deep_view(),
            finding_id: self.finding_id.deep_view(),
            proposal_id: self.proposal_id.deep_view(),
            output_path: self.output_path.deep_view(),
            repair_output_path: self.repair_output_path.deep_view(),
            summary: self.summary.deep_view(),
            repair_base: self.repair_base.deep_view(),
            repair_head: self.repair_head.deep_view(),
            unauthorized_paths: self.unauthorized_paths.deep_view(),
            policy: self.policy.deep_view(),
        }
    }
}

impl View for ReplanProposalEvidencePayload {
    type V = ReplanProposalEvidencePayloadModel;

    open spec fn view(&self) -> ReplanProposalEvidencePayloadModel {
        self.deep_view()
    }
}

impl Row for ReplanProposalEvidencePayload {
    fn dup(&self) -> (r: Self) {
        ReplanProposalEvidencePayload {
            source: self.source.dup(),
            slice_id: self.slice_id.dup(),
            attempt: self.attempt.dup(),
            draft_index: self.draft_index.dup(),
            draft_id: self.draft_id.dup(),
            finding_id: self.finding_id.dup(),
            proposal_id: self.proposal_id.dup(),
            output_path: self.output_path.dup(),
            repair_output_path: self.repair_output_path.dup(),
            summary: self.summary.dup(),
            repair_base: self.repair_base.dup(),
            repair_head: self.repair_head.dup(),
            unauthorized_paths: self.unauthorized_paths.dup(),
            policy: self.policy.dup(),
        }
    }

    fn same(&self, other: &Self) -> (r: bool) {
        self.source.same(&other.source)
            && self.slice_id.same(&other.slice_id)
            && self.attempt.same(&other.attempt)
            && self.draft_index.same(&other.draft_index)
            && self.draft_id.same(&other.draft_id)
            && self.finding_id.same(&other.finding_id)
            && self.proposal_id.same(&other.proposal_id)
            && self.output_path.same(&other.output_path)
            && self.repair_output_path.same(&other.repair_output_path)
            && self.summary.same(&other.summary)
            && self.repair_base.same(&other.repair_base)
            && self.repair_head.same(&other.repair_head)
            && self.unauthorized_paths.same(&other.unauthorized_paths)
            && self.policy.same(&other.policy)
    }
}

impl Default for ReplanProposalEvidencePayload {
    fn default() -> (r: Self)
        ensures
            r@ == ReplanProposalEvidencePayloadModel::empty(),
    {
        let r = ReplanProposalEvidencePayload {
            source: String::new(),
            slice_id: String::new(),
            attempt: 0,
            draft_index: None,
            draft_id: String::new(),
            finding_id: String::new(),
            proposal_id: String::new(),
            output_path: String::new(),
            repair_output_path: String::new(),
            summary: String::new(),
            repair_base: String::new(),
            repair_head: String::new(),
            unauthorized_paths: Vec::new(),
            policy: String::new(),
        };
        assert(r@ =~= ReplanProposalEvidencePayloadModel::empty());
        r
    }
}

impl ReplanProposalEvidencePayloadModel {
    /// All texts and lists empty, all numbers zero, all flags off.
    pub open spec fn empty() -> ReplanProposalEvidencePayloadModel {
        ReplanProposalEvidencePayloadModel {
            source: Seq::<char>::empty(),
            slice_id: Seq::<char>::empty(),
            attempt: 0,
            draft_index: None,
            draft_id: Seq::<char>::empty(),
            finding_id: Seq::<char>::empty(),
            proposal_id: Seq::<char>::empty(),
            output_path: Seq::<char>::empty(),
            repair_output_path: Seq::<char>::empty(),
            summary: Seq::<char>::empty(),
            repair_base: Seq::<char>::empty(),
            repair_head: Seq::<char>::empty(),
            unauthorized_paths: Seq::empty(),
            policy: Seq::<char>::empty(),
        }
    }
}

/// A proposal that is being applied.
#[derive(Debug, Clone, PartialEq, Eq)]
pub struct ReplanApplyStartedPayload {
    pub proposal_id: String,
    pub slice_id: String,
    pub checkpoint: String,
    pub queue_before: Vec<String>,
    pub queue_before_hash: String,
    pub integration_head: String,
    pub apply_mode: String,
}

#[verifier::ext_equal]
pub struct ReplanApplyStartedPayloadModel {
    pub proposal_id: Seq<char>,
    pub slice_id: Seq<char>,
    pub checkpoint: Seq<char>,
    pub queue_before: Seq<Seq<char>>,
    pub queue_before_hash: Seq<char>,
    pub integration_head: Seq<char>,
    pub apply_mode: Seq<char>,
}

impl DeepView for ReplanApplyStartedPayload {
    type V = ReplanApplyStartedPayloadModel;

    open spec fn deep_view(&self) -> ReplanApplyStartedPayloadModel {
        ReplanApplyStartedPayloadModel {
            proposal_id: self.proposal_id.deep_view(),
            slice_id: self.slice_id.deep_view(),
            checkpoint: self.checkpoint.deep_view(),
            queue_before: self.queue_before.deep_view(),
            queue_before_hash: self.queue_before_hash.deep_view(),
            integration_head: self.integration_head.deep_view(),
            apply_mode: self.apply_mode.deep_view(),
        }
    }
}

impl View for ReplanApplyStartedPayload {
    type V = ReplanApplyStartedPayloadModel;

    open spec fn view(&self) -> ReplanApplyStartedPayloadModel {
        self.deep_view()
    }
}

impl Row for ReplanApplyStartedPayload {
    fn dup(&self) -> (r: Self) {
        ReplanApplyStartedPayload {
            proposal_id: self.proposal_id.dup(),
            slice_id: self.slice_id.dup(),
            checkpoint: self.checkpoint.dup(),
            queue_before: self.queue_before.dup(),
            queue_before_hash: self.queue_before_hash.dup(),
            integration_head: self.integration_head.dup(),
            apply_mode: self.apply_mode.dup(),
        }
    }

    fn same(&self, other: &Self) -> (r: bool) {
        self.proposal_id.same(&other.proposal_id)
            && self.slice_id.same(&other.slice_id)
            && self.checkpoint.same(&other.checkpoint)
            && self.queue_before.same(&other.queue_before)
            && self.queue_before_hash.same(&other.queue_before_hash)
            && self.integration_head.same(&other.integration_head)
            && self.apply_mode.same(&other.apply_mode)
    }
}

impl Default for ReplanApplyStartedPayload {
    fn default() -> (r: Self)
        ensures
            r@ == ReplanApplyStartedPayloadModel::empty(),
    {
        let r = ReplanApplyStartedPayload {
            proposal_id: String::new(),
            slice_id: String::new(),
            checkpoint: String::new(),
            queue_before: Vec::new(),
            queue_before_hash: String::new(),
            integration_head: String::new(),
            apply_mode: String::new(),
        };
        assert(r@ =~= ReplanApplyStartedPayloadModel::empty());
        r
    }
}

impl ReplanApplyStartedPayloadModel {
    /// All texts and lists empty, all numbers zero, all flags off.
    pub open spec fn empty() -> ReplanApplyStartedPayloadModel {
        ReplanApplyStartedPayloadModel {
            proposal_id: Seq::<char>::empty(),
            slice_id: Seq::<char>::empty(),
            checkpoint: Seq::<char>::empty(),
            queue_before: Seq::empty(),
            queue_before_hash: Seq::<char>::empty(),
            integration_head: Seq::<char>::empty(),
            apply_mode: Seq::<char>::empty(),
        }
    }
}

/// A proposal that could not be applied.
#[derive(Debug, Clone, PartialEq, Eq)]
pub struct ReplanApplyFailurePayload {
    pub proposal_id: String,
    pub slice_id: String,
    pub checkpoint: String,
    pub reason: String,
    pub remediation: String,
}

#[verifier::ext_equal]
pub struct ReplanApplyFailurePayloadModel {
    pub proposal_id: Seq<char>,
    pub slice_id: Seq<char>,
    pub checkpoint: Seq<char>,
    pub reason: Seq<char>,
    pub remediation: Seq<char>,
}

impl DeepView for ReplanApplyFailurePayload {
    type V = ReplanApplyFailurePayloadModel;

    open spec fn deep_view(&self) -> ReplanApplyFailurePayloadModel {
        ReplanApplyFailurePayloadModel {
            proposal_id: self.proposal_id.deep_view(),
            slice_id: self.slice_id.deep_view(),
            checkpoint: self.checkpoint.deep_view(),
            reason: self.reason.deep_view(),
            remediation: self.remediation.deep_view(),
        }
    }
}

impl View for ReplanApplyFailurePayload {
    type V = ReplanApplyFailurePayloadModel;

    open spec fn view(&self) -> ReplanApplyFailurePayloadModel {
        self.deep_view()
    }
}

impl Row for ReplanApplyFailurePayload {
    fn dup(&self) -> (r: Self) {
        ReplanApplyFailurePayload {
            proposal_id: self.proposal_id.dup(),
            slice_id: self.slice_id.dup(),
            checkpoint: self.checkpoint.dup(),
            reason: self.reason.dup(),
            remediation: self.remediation.dup(),
        }
    }

    fn same(&self, other: &Self) -> (r: bool) {
        self.proposal_id.same(&other.proposal_id)
            && self.slice_id.same(&other.slice_id)
            && self.checkpoint.same(&other.checkpoint)
            && self.reason.same(&other.reason)
            && self.remediation.same(&other.remediation)
    }
}

impl Default for ReplanApplyFailurePayload {
    fn default() -> (r: Self)
        ensures
            r@ == ReplanApplyFailurePayloadModel::empty(),
    {
        let r = ReplanApplyFailurePayload {
            proposal_id: String::new(),
            slice_id: String::new(),
            checkpoint: String::new(),
            reason: String::new(),
            remediation: String::new(),
        };
        assert(r@ =~= ReplanApplyFailurePayloadModel::empty());
        r
    }
}

impl ReplanApplyFailurePayloadModel {
    /// All texts and lists empty, all numbers zero, all flags off.
    pub open spec fn empty() -> ReplanApplyFailurePayloadModel {
        ReplanApplyFailurePayloadModel {
            proposal_id: Seq::<char>::empty(),
            slice_id: Seq::<char>::empty(),
            checkpoint: Seq::<char>::empty(),
            reason: Seq::<char>::empty(),
            remediation: Seq::<char>::empty(),
        }
    }
}

/// A slice that joined the queue.
#[derive(Debug, Clone, PartialEq, Eq)]
pub struct FrontierSlicePromotedPayload {
    pub proposal_id: String,
    pub slice_id: String,
    pub parent_slice_id: String,
    pub generation: u64,
    pub checkpoint: String,
    pub commit_sha: String,
    pub queue_before: Vec<String>,
    pub queue_before_hash: String,
    pub queue_after: Vec<String>,
    pub queue_after_hash: String,
    pub appended: bool,
    pub serial_append: bool,
    pub worker_enqueued: bool,
    pub apply_mode: String,
}

#[verifier::ext_equal]
pub struct FrontierSlicePromotedPayloadModel {
    pub proposal_id: Seq<char>,
    pub slice_id: Seq<char>,
    pub parent_slice_id: Seq<char>,
    pub generation: u64,
    pub checkpoint: Seq<char>,
    pub commit_sha: Seq<char>,
    pub queue_before: Seq<Seq<char>>,
    pub queue_before_hash: Seq<char>,
    pub queue_after: Seq<Seq<char>>,
    pub queue_after_hash: Seq<char>,
    pub appended: bool,
    pub serial_append: bool,
    pub worker_enqueued: bool,
    pub apply_mode: Seq<char>,
}

impl DeepView for FrontierSlicePromotedPayload {
    type V = FrontierSlicePromotedPayloadModel;

    open spec fn deep_view(&self) -> FrontierSlicePromotedPayloadModel {
        FrontierSlicePromotedPayloadModel {
            proposal_id: self.proposal_id.deep_view(),
            slice_id: self.slice_id.deep_view(),
            parent_slice_id: self.parent_slice_id.deep_view(),
            generation: self.generation.deep_view(),
            checkpoint: self.checkpoint.deep_view(),
            commit_sha: self.commit_sha.deep_view(),
            queue_before: self.queue_before.deep_view(),
            queue_before_hash: self.queue_before_hash.deep_view(),
            queue_after: self.queue_after.deep_view(),
            queue_after_hash: self.queue_after_hash.deep_view(),
            appended: self.appended.deep_view(),
            serial_append: self.serial_append.deep_view(),
            worker_enqueued: self.worker_enqueued.deep_view(),
            apply_mode: self.apply_mode.deep_view(),
        }
    }
}

impl View for FrontierSlicePromotedPayload {
    type V = FrontierSlicePromotedPayloadModel;

    open spec fn view(&self) -> FrontierSlicePromotedPayloadModel {
        self.deep_view()
    }
}

impl Row for FrontierSlicePromotedPayload {
    fn dup(&self) -> (r: Self) {
        FrontierSlicePromotedPayload {
            proposal_id: self.proposal_id.dup(),
            slice_id: self.slice_id.dup(),
            parent_slice_id: self.parent_slice_id.dup(),
            generation: self.generation.dup(),
            checkpoint: self.checkpoint.dup(),
            commit_sha: self.commit_sha.dup(),
            queue_before: self.queue_before.dup(),
            queue_before_hash: self.queue_before_hash.dup(),
            queue_after: self.queue_after.dup(),
            queue_after_hash: self.queue_after_hash.dup(),
            appended: self.appended.dup(),
            serial_append: self.serial_append.dup(),
            worker_enqueued: self.worker_enqueued.dup(),
            apply_mode: self.apply_mode.dup(),
        }
    }

    fn same(&self, other: &Self) -> (r: bool) {
        self.proposal_id.same(&other.proposal_id)
            && self.slice_id.same(&other.slice_id)
            && self.parent_slice_id.same(&other.parent_slice_id)
            && self.generation.same(&other.generation)
            && self.checkpoint.same(&other.checkpoint)
            && self.commit_sha.same(&other.commit_sha)
            && self.queue_before.same(&other.queue_before)
            && self.queue_before_hash.same(&other.queue_before_hash)
            && self.queue_after.same(&other.queue_after)
            && self.queue_after_hash.same(&other.queue_after_hash)
            && self.appended.same(&other.appended)
            && self.serial_append.same(&other.serial_append)
            && self.worker_enqueued.same(&other.worker_enqueued)
            && self.apply_mode.same(&other.apply_mode)
    }
}

impl Default for FrontierSlicePromotedPayload {
    fn default() -> (r: Self)
        ensures
            r@ == FrontierSlicePromotedPayloadModel::empty(),
    {
        let r = FrontierSlicePromotedPayload {
            proposal_id: String::new(),
            slice_id: String::new(),
            parent_slice_id: String::new(),
            generation: 0,
            checkpoint: String::new(),
            commit_sha: String::new(),
            queue_before: Vec::new(),
            queue_before_hash: String::new(),
            queue_after: Vec::new(),
            queue_after_hash: String::new(),
            appended: false,
            serial_append: false,
            worker_enqueued: false,
            apply_mode: String::new(),
        };
        assert(r@ =~= FrontierSlicePromotedPayloadModel::empty());
        r
    }
}

impl FrontierSlicePromotedPayloadModel {
    /// All texts and lists empty, all numbers zero, all flags off.
    pub open spec fn empty() -> FrontierSlicePromotedPayloadModel {
        FrontierSlicePromotedPayloadModel {
            proposal_id: Seq::<char>::empty(),
            slice_id: Seq::<char>::empty(),
            parent_slice_id: Seq::<char>::empty(),
            generation: 0,
            checkpoint: Seq::<char>::empty(),
            commit_sha: Seq::<char>::empty(),
            queue_before: Seq::empty(),
            queue_before_hash: Seq::<char>::empty(),
            queue_after: Seq::empty(),
            queue_after_hash: Seq::<char>::empty(),
            appended: false,
            serial_append: false,
            worker_enqueued: false,
            apply_mode: Seq::<char>::empty(),
        }
    }
}

/// A proposal that was decided.
#[derive(Debug, Clone, PartialEq, Eq)]
pub struct ReplanProposalDecidedPayload {
    pub proposal_id: String,
    pub state: ReplanProposalState,
    pub decision: ReplanDecision,
}

#[verifier::ext_equal]
pub struct ReplanProposalDecidedPayloadModel {
    pub proposal_id: Seq<char>,
    pub state: ReplanProposalState,
    pub decision: ReplanDecisionModel,
}

impl DeepView for ReplanProposalDecidedPayload {
    type V = ReplanProposalDecidedPayloadModel;

    open spec fn deep_view(&self) -> ReplanProposalDecidedPayloadModel {
        ReplanProposalDecidedPayloadModel {
            proposal_id: self.proposal_id.deep_view(),
            state: self.state.deep_view(),
            decision: self.decision.deep_view(),
        }
    }
}

impl View for ReplanProposalDecidedPayload {
    type V = ReplanProposalDecidedPayloadModel;

    open spec fn view(&self) -> ReplanProposalDecidedPayloadModel {
        self.deep_view()
    }
}

impl Row for ReplanProposalDecidedPayload {
    fn dup(&self) -> (r: Self) {
        ReplanProposalDecidedPayload {
            proposal_id: self.proposal_id.dup(),
            state: self.state.dup(),
            decision: self.decision.dup(),
        }
    }

    fn same(&self, other: &Self) -> (r: bool) {
        self.proposal_id.same(&other.proposal_id)
            && self.state.same(&other.state)
            && self.decision.same(&other.decision)
    }
}

/// A checkpoint that waits for decisions.
#[derive(Debug, Clone, PartialEq, Eq)]
pub struct ReplanCheckpointBlockedPayload {
    pub proposal_ids: Vec<String>,
    pub checkpoint: String,
    pub message: String,
    pub decision_commands: Vec<String>,
}

#[verifier::ext_equal]
pub struct ReplanCheckpointBlockedPayloadModel {
    pub proposal_ids: Seq<Seq<char>>,
    pub checkpoint: Seq<char>,
    pub message: Seq<char>,
    pub decision_commands: Seq<Seq<char>>,
}

impl DeepView for ReplanCheckpointBlockedPayload {
    type V = ReplanCheckpointBlockedPayloadModel;

    open spec fn deep_view(&self) -> ReplanCheckpointBlockedPayloadModel {
        ReplanCheckpointBlockedPayloadModel {
            proposal_ids: self.proposal_ids.deep_view(),
            checkpoint: self.checkpoint.deep_view(),
            message: self.message.deep_view(),
            decision_commands: self.decision_commands.deep_view(),
        }
    }
}

impl View for ReplanCheckpointBlockedPayload {
    type V = ReplanCheckpointBlockedPayloadModel;

    open spec fn view(&self) -> ReplanCheckpointBlockedPayloadModel {
        self.deep_view()
    }
}

impl Row for ReplanCheckpointBlockedPayload {
    fn dup(&self) -> (r: Self) {
        ReplanCheckpointBlockedPayload {
            proposal_ids: self.proposal_ids.dup(),
            checkpoint: self.checkpoint.dup(),
            message: self.message.dup(),
            decision_commands: self.decision_commands.dup(),
        }
    }

    fn same(&self, other: &Self) -> (r: bool) {
        self.proposal_ids.same(&other.proposal_ids)
            && self.checkpoint.same(&other.checkpoint)
            && self.message.same(&other.message)
            && self.decision_commands.same(&other.decision_commands)
    }
}

impl Default for ReplanCheckpointBlockedPayload {
    fn default() -> (r: Self)
        ensures
            r@ == ReplanCheckpointBlockedPayloadModel::empty(),
    {
        let r = ReplanCheckpointBlockedPayload {
            proposal_ids: Vec::new(),
            checkpoint: String::new(),
            message: String::new(),
            decision_commands: Vec::new(),
        };
        assert(r@ =~= ReplanCheckpointBlockedPayloadModel::empty());
        r
    }
}

impl ReplanCheckpointBlockedPayloadModel {
    /// All texts and lists empty, all numbers zero, all flags off.
    pub open spec fn empty() -> ReplanCheckpointBlockedPayloadModel {
        ReplanCheckpointBlockedPayloadModel {
            proposal_ids: Seq::empty(),
            checkpoint: Seq::<char>::empty(),
            message: Seq::<char>::empty(),
            decision_commands: Seq::empty(),
        }
    }
}

/// A proposal that waits for the operator.
#[derive(Debug, Clone, PartialEq, Eq)]
pub struct ReplanNotificationPayload {
    pub schema_version: u64,
    pub kind: String,
    pub run_id: String,
    pub proposal_id: String,
    pub source: ReplanProposalSource,
    pub risk: String,
    pub proposed_changes: Vec<ReplanProposedChange>,
    pub decision_commands: Vec<String>,
    pub source_of_truth: String,
}

#[verifier::ext_equal]
pub struct ReplanNotificationPayloadModel {
    pub schema_version: u64,
    pub kind: Seq<char>,
    pub run_id: Seq<char>,
    pub proposal_id: Seq<char>,
    pub source: ReplanProposalSourceModel,
    pub risk: Seq<char>,
    pub proposed_changes: Seq<ReplanProposedChangeModel>,
    pub decision_commands: Seq<Seq<char>>,
    pub source_of_truth: Seq<char>,
}

impl DeepView for ReplanNotificationPayload {
    type V = ReplanNotificationPayloadModel;

    open spec fn deep_view(&self) -> ReplanNotificationPayloadModel {
        ReplanNotificationPayloadModel {
            schema_version: self.schema_version.deep_view(),
            kind: self.kind.deep_view(),
            run_id: self.run_id.deep_view(),
            proposal_id: self.proposal_id.deep_view(),
            source: self.source.deep_view(),
            risk: self.risk.deep_view(),
            proposed_changes: self.proposed_changes.deep_view(),
            decision_commands: self.decision_commands.deep_view(),
            source_of_truth: self.source_of_truth.deep_view(),
        }
    }
}

impl View for ReplanNotificationPayload {
    type V = ReplanNotificationPayloadModel;

    open spec fn view(&self) -> ReplanNotificationPayloadModel {
        self.deep_view()
    }
}

impl Row for ReplanNotificationPayload {
    fn dup(&self) -> (r: Self) {
        ReplanNotificationPayload {
            schema_version: self.schema_version.dup(),
            kind: self.kind.dup(),
            run_id: self.run_id.dup(),
            proposal_id: self.proposal_id.dup(),
            source: self.source.dup(),
            risk: self.risk.dup(),
            proposed_changes: self.proposed_changes.dup(),
            decision_commands: self.decision_commands.dup(),
            source_of_truth: self.source_of_truth.dup(),
        }
    }

    fn same(&self, other: &Self) -> (r: bool) {
        self.schema_version.same(&other.schema_version)
            && self.kind.same(&other.kind)
            && self.run_id.same(&other.run_id)
            && self.proposal_id.same(&other.proposal_id)
            && self.source.same(&other.source)
            && self.risk.same(&other.risk)
            && self.proposed_changes.same(&other.proposed_changes)
            && self.decision_commands.same(&other.decision_commands)
            && self.source_of_truth.same(&other.source_of_truth)
    }
}

impl Default for ReplanNotificationPayload {
    fn default() -> (r: Self)
        ensures
            r@ == ReplanNotificationPayloadModel::empty(),
    {
        let r = ReplanNotificationPayload {
            schema_version: 0,
            kind: String::new(),
            run_id: String::new(),
            proposal_id: String::new(),
            source: ReplanProposalSource::default(),
            risk: String::new(),
            proposed_changes: Vec::new(),
            decision_commands: Vec::new(),
            source_of_truth: String::new(),
        };
        assert(r@ =~= ReplanNotificationPayloadModel::empty());
        r
    }
}

impl ReplanNotificationPayloadModel {
    /// All texts and lists empty, all numbers zero, all flags off.
    pub open spec fn empty() -> ReplanNotificationPayloadModel {
        ReplanNotificationPayloadModel {
            schema_version: 0,
            kind: Seq::<char>::empty(),
            run_id: Seq::<char>::empty(),
            proposal_id: Seq::<char>::empty(),
            source: ReplanProposalSourceModel::empty(),
            risk: Seq::<char>::empty(),
            proposed_changes: Seq::empty(),
            decision_commands: Seq::empty(),
            source_of_truth: Seq::<char>::empty(),
        }
    }
}

/// The payload of an event.
#[derive(Debug, Clone, PartialEq, Eq)]
pub enum EventPayload {
    Document(String),
    RunLaunch(RunLaunchIntent),
    IntegrationMerge(IntegrationMergeIntent),
    Progress(RunProgress),
    OriginNotificationTargetRecorded(OriginNotificationTargetRecordedPayload),
    MissionEnvelopeRecorded(MissionEnvelopeRecordedPayload),
    RunIncident(RunIncidentPayload),
    RunError(RunErrorPayload),
    RunLaunchInterrupted(RunLaunchInterruptedPayload),
    SliceMerged(SliceMergedPayload),
    WorkerAttemptAllocated(WorkerAttemptAllocatedPayload),
    WorkerAttemptLaunched(WorkerAttemptLaunchedPayload),
    WorkerAttemptFinished(WorkerAttemptFinishedPayload),
    WorkerAttemptInterrupted(WorkerAttemptInterruptedPayload),
    TerminalTransitionIntended(TerminalTransitionIntendedPayload),
    WorkerQuestionInterrupted(WorkerQuestionInterruptedPayload),
    WorktreesCleaned(WorktreesCleanedPayload),
    RunResumed(RunResumedPayload),
    DaemonRecoveryStarted(DaemonRecoveryStartedPayload),
    WorkerQuestionsInterrupted(WorkerQuestionsInterruptedPayload),
    DaemonRecoveryCompleted(DaemonRecoveryCompletedPayload),
    RunCancelRequested(RunCancelRequestedPayload),
    RunCancelled(RunCancelledPayload),
    RunCompleted(RunCompletedPayload),
    CockpitReady(CockpitReadyPayload),
    CockpitWorkerReady(CockpitWorkerReadyPayload),
    SliceStarted(SliceStartedPayload),
    IntegrationRepairCompleted(IntegrationRepairCompletedPayload),
    TerminalSummaryWritten(TerminalSummaryWrittenPayload),
    TerminalNotification(TerminalNotificationPayload),
    WorktreeSetup(WorktreeSetupPayload),
    WorktreeCleanupError(WorktreeCleanupErrorPayload),
    InvalidWorkerOutput(InvalidWorkerOutputPayload),
    SliceRepairCompleted(SliceRepairCompletedPayload),
    WorkerEnvelopeRetrySucceeded(WorkerEnvelopeRetrySucceededPayload),
    WorkerAttemptTimeout(WorkerAttemptTimeoutPayload),
    WorkerAttemptFailure(WorkerAttemptFailurePayload),
    WorkerError(WorkerErrorPayload),
    WorkerQuestionAsked(WorkerQuestionAskedPayload),
    WorkerQuestionAnswered(WorkerQuestionAnsweredPayload),
    CockpitWorkerRenamed(CockpitWorkerRenamedPayload),
    AttentionDelivery(AttentionDeliveryPayload),
    ParallelLayer(ParallelLayerPayload),
    FrontierClassified(FrontierClassifiedPayload),
    FrontierAutoAcceptRecorded(FrontierAutoAcceptRecordedPayload),
    ReplanProposalCreated(ReplanProposalCreatedPayload),
    FrontierAutoAcceptDisposition(FrontierAutoAcceptDispositionPayload),
    ReplanProposalEvidence(ReplanProposalEvidencePayload),
    ReplanApplyStarted(ReplanApplyStartedPayload),
    ReplanApplyFailure(ReplanApplyFailurePayload),
    FrontierSlicePromoted(FrontierSlicePromotedPayload),
    ReplanProposalDecided(ReplanProposalDecidedPayload),
    ReplanCheckpointBlocked(ReplanCheckpointBlockedPayload),
}

#[verifier::ext_equal]
pub enum EventPayloadModel {
    Document(Seq<char>),
    RunLaunch(RunLaunchIntentModel),
    IntegrationMerge(IntegrationMergeIntentModel),
    Progress(RunProgressModel),
    OriginNotificationTargetRecorded(OriginNotificationTargetRecordedPayloadModel),
    MissionEnvelopeRecorded(MissionEnvelopeRecordedPayloadModel),
    RunIncident(RunIncidentPayloadModel),
    RunError(RunErrorPayloadModel),
    RunLaunchInterrupted(RunLaunchInterruptedPayloadModel),
    SliceMerged(SliceMergedPayloadModel),
    WorkerAttemptAllocated(WorkerAttemptAllocatedPayloadModel),
    WorkerAttemptLaunched(WorkerAttemptLaunchedPayloadModel),
    WorkerAttemptFinished(WorkerAttemptFinishedPayloadModel),
    WorkerAttemptInterrupted(WorkerAttemptInterruptedPayloadModel),
    TerminalTransitionIntended(TerminalTransitionIntendedPayloadModel),
    WorkerQuestionInterrupted(WorkerQuestionInterruptedPayloadModel),
    WorktreesCleaned(WorktreesCleanedPayloadModel),
    RunResumed(RunResumedPayloadModel),
    DaemonRecoveryStarted(DaemonRecoveryStartedPayloadModel),
    WorkerQuestionsInterrupted(WorkerQuestionsInterruptedPayloadModel),
    DaemonRecoveryCompleted(DaemonRecoveryCompletedPayloadModel),
    RunCancelRequested(RunCancelRequestedPayloadModel),
    RunCancelled(RunCancelledPayloadModel),
    RunCompleted(RunCompletedPayloadModel),
    CockpitReady(CockpitReadyPayloadModel),
    CockpitWorkerReady(CockpitWorkerReadyPayloadModel),
    SliceStarted(SliceStartedPayloadModel),
    IntegrationRepairCompleted(IntegrationRepairCompletedPayloadModel),
    TerminalSummaryWritten(TerminalSummaryWrittenPayloadModel),
    TerminalNotification(TerminalNotificationPayloadModel),
    WorktreeSetup(WorktreeSetupPayloadModel),
    WorktreeCleanupError(WorktreeCleanupErrorPayloadModel),
    InvalidWorkerOutput(InvalidWorkerOutputPayloadModel),
    SliceRepairCompleted(SliceRepairCompletedPayloadModel),
    WorkerEnvelopeRetrySucceeded(WorkerEnvelopeRetrySucceededPayloadModel),
    WorkerAttemptTimeout(WorkerAttemptTimeoutPayloadModel),
    WorkerAttemptFailure(WorkerAttemptFailurePayloadModel),
    WorkerError(WorkerErrorPayloadModel),
    WorkerQuestionAsked(WorkerQuestionAskedPayloadModel),
    WorkerQuestionAnswered(WorkerQuestionAnsweredPayloadModel),
    CockpitWorkerRenamed(CockpitWorkerRenamedPayloadModel),
    AttentionDelivery(AttentionDeliveryPayloadModel),
    ParallelLayer(ParallelLayerPayloadModel),
    FrontierClassified(FrontierClassifiedPayloadModel),
    FrontierAutoAcceptRecorded(FrontierAutoAcceptRecordedPayloadModel),
    ReplanProposalCreated(ReplanProposalCreatedPayloadModel),
    FrontierAutoAcceptDisposition(FrontierAutoAcceptDispositionPayloadModel),
    ReplanProposalEvidence(ReplanProposalEvidencePayloadModel),
    ReplanApplyStarted(ReplanApplyStartedPayloadModel),
    ReplanApplyFailure(ReplanApplyFailurePayloadModel),
    FrontierSlicePromoted(FrontierSlicePromotedPayloadModel),
    ReplanProposalDecided(ReplanProposalDecidedPayloadModel),
    ReplanCheckpointBlocked(ReplanCheckpointBlockedPayloadModel),
}

impl DeepView for EventPayload {
    type V = EventPayloadModel;

    open spec fn deep_view(&self) -> EventPayloadModel {
        match self {
            EventPayload::Document(value) => EventPayloadModel::Document(value.deep_view()),
            EventPayload::RunLaunch(value) => EventPayloadModel::RunLaunch(value.deep_view()),
            EventPayload::IntegrationMerge(value) => EventPayloadModel::IntegrationMerge(value.deep_view()),
            EventPayload::Progress(value) => EventPayloadModel::Progress(value.deep_view()),
            EventPayload::OriginNotificationTargetRecorded(value) => EventPayloadModel::OriginNotificationTargetRecorded(value.deep_view()),
            EventPayload::MissionEnvelopeRecorded(value) => EventPayloadModel::MissionEnvelopeRecorded(value.deep_view()),
            EventPayload::RunIncident(value) => EventPayloadModel::RunIncident(value.deep_view()),
            EventPayload::RunError(value) => EventPayloadModel::RunError(value.deep_view()),
            EventPayload::RunLaunchInterrupted(value) => EventPayloadModel::RunLaunchInterrupted(value.deep_view()),
            EventPayload::SliceMerged(value) => EventPayloadModel::SliceMerged(value.deep_view()),
            EventPayload::WorkerAttemptAllocated(value) => EventPayloadModel::WorkerAttemptAllocated(value.deep_view()),
            EventPayload::WorkerAttemptLaunched(value) => EventPayloadModel::WorkerAttemptLaunched(value.deep_view()),
            EventPayload::WorkerAttemptFinished(value) => EventPayloadModel::WorkerAttemptFinished(value.deep_view()),
            EventPayload::WorkerAttemptInterrupted(value) => EventPayloadModel::WorkerAttemptInterrupted(value.deep_view()),
            EventPayload::TerminalTransitionIntended(value) => EventPayloadModel::TerminalTransitionIntended(value.deep_view()),
            EventPayload::WorkerQuestionInterrupted(value) => EventPayloadModel::WorkerQuestionInterrupted(value.deep_view()),
            EventPayload::WorktreesCleaned(value) => EventPayloadModel::WorktreesCleaned(value.deep_view()),
            EventPayload::RunResumed(value) => EventPayloadModel::RunResumed(value.deep_view()),
            EventPayload::DaemonRecoveryStarted(value) => EventPayloadModel::DaemonRecoveryStarted(value.deep_view()),
            EventPayload::WorkerQuestionsInterrupted(value) => EventPayloadModel::WorkerQuestionsInterrupted(value.deep_view()),
            EventPayload::DaemonRecoveryCompleted(value) => EventPayloadModel::DaemonRecoveryCompleted(value.deep_view()),
            EventPayload::RunCancelRequested(value) => EventPayloadModel::RunCancelRequested(value.deep_view()),
            EventPayload::RunCancelled(value) => EventPayloadModel::RunCancelled(value.deep_view()),
            EventPayload::RunCompleted(value) => EventPayloadModel::RunCompleted(value.deep_view()),
            EventPayload::CockpitReady(value) => EventPayloadModel::CockpitReady(value.deep_view()),
            EventPayload::CockpitWorkerReady(value) => EventPayloadModel::CockpitWorkerReady(value.deep_view()),
            EventPayload::SliceStarted(value) => EventPayloadModel::SliceStarted(value.deep_view()),
            EventPayload::IntegrationRepairCompleted(value) => EventPayloadModel::IntegrationRepairCompleted(value.deep_view()),
            EventPayload::TerminalSummaryWritten(value) => EventPayloadModel::TerminalSummaryWritten(value.deep_view()),
            EventPayload::TerminalNotification(value) => EventPayloadModel::TerminalNotification(value.deep_view()),
            EventPayload::WorktreeSetup(value) => EventPayloadModel::WorktreeSetup(value.deep_view()),
            EventPayload::WorktreeCleanupError(value) => EventPayloadModel::WorktreeCleanupError(value.deep_view()),
            EventPayload::InvalidWorkerOutput(value) => EventPayloadModel::InvalidWorkerOutput(value.deep_view()),
            EventPayload::SliceRepairCompleted(value) => EventPayloadModel::SliceRepairCompleted(value.deep_view()),
            EventPayload::WorkerEnvelopeRetrySucceeded(value) => EventPayloadModel::WorkerEnvelopeRetrySucceeded(value.deep_view()),
            EventPayload::WorkerAttemptTimeout(value) => EventPayloadModel::WorkerAttemptTimeout(value.deep_view()),
            EventPayload::WorkerAttemptFailure(value) => EventPayloadModel::WorkerAttemptFailure(value.deep_view()),
            EventPayload::WorkerError(value) => EventPayloadModel::WorkerError(value.deep_view()),
            EventPayload::WorkerQuestionAsked(value) => EventPayloadModel::WorkerQuestionAsked(value.deep_view()),
            EventPayload::WorkerQuestionAnswered(value) => EventPayloadModel::WorkerQuestionAnswered(value.deep_view()),
            EventPayload::CockpitWorkerRenamed(value) => EventPayloadModel::CockpitWorkerRenamed(value.deep_view()),
            EventPayload::AttentionDelivery(value) => EventPayloadModel::AttentionDelivery(value.deep_view()),
            EventPayload::ParallelLayer(value) => EventPayloadModel::ParallelLayer(value.deep_view()),
            EventPayload::FrontierClassified(value) => EventPayloadModel::FrontierClassified(value.deep_view()),
            EventPayload::FrontierAutoAcceptRecorded(value) => EventPayloadModel::FrontierAutoAcceptRecorded(value.deep_view()),
            EventPayload::ReplanProposalCreated(value) => EventPayloadModel::ReplanProposalCreated(value.deep_view()),
            EventPayload::FrontierAutoAcceptDisposition(value) => EventPayloadModel::FrontierAutoAcceptDisposition(value.deep_view()),
            EventPayload::ReplanProposalEvidence(value) => EventPayloadModel::ReplanProposalEvidence(value.deep_view()),
            EventPayload::ReplanApplyStarted(value) => EventPayloadModel::ReplanApplyStarted(value.deep_view()),
            EventPayload::ReplanApplyFailure(value) => EventPayloadModel::ReplanApplyFailure(value.deep_view()),
            EventPayload::FrontierSlicePromoted(value) => EventPayloadModel::FrontierSlicePromoted(value.deep_view()),
            EventPayload::ReplanProposalDecided(value) => EventPayloadModel::ReplanProposalDecided(value.deep_view()),
            EventPayload::ReplanCheckpointBlocked(value) => EventPayloadModel::ReplanCheckpointBlocked(value.deep_view()),
        }
    }
}

impl View for EventPayload {
    type V = EventPayloadModel;

    open spec fn view(&self) -> EventPayloadModel {
        self.deep_view()
    }
}

impl Row for EventPayload {
    fn dup(&self) -> (r: Self) {
        match self {
            EventPayload::Document(value) => EventPayload::Document(value.dup()),
            EventPayload::RunLaunch(value) => EventPayload::RunLaunch(value.dup()),
            EventPayload::IntegrationMerge(value) => EventPayload::IntegrationMerge(value.dup()),
            EventPayload::Progress(value) => EventPayload::Progress(value.dup()),
            EventPayload::OriginNotificationTargetRecorded(value) => EventPayload::OriginNotificationTargetRecorded(value.dup()),
            EventPayload::MissionEnvelopeRecorded(value) => EventPayload::MissionEnvelopeRecorded(value.dup()),
            EventPayload::RunIncident(value) => EventPayload::RunIncident(value.dup()),
            EventPayload::RunError(value) => EventPayload::RunError(value.dup()),
            EventPayload::RunLaunchInterrupted(value) => EventPayload::RunLaunchInterrupted(value.dup()),
            EventPayload::SliceMerged(value) => EventPayload::SliceMerged(value.dup()),
            EventPayload::WorkerAttemptAllocated(value) => EventPayload::WorkerAttemptAllocated(value.dup()),
            EventPayload::WorkerAttemptLaunched(value) => EventPayload::WorkerAttemptLaunched(value.dup()),
            EventPayload::WorkerAttemptFinished(value) => EventPayload::WorkerAttemptFinished(value.dup()),
            EventPayload::WorkerAttemptInterrupted(value) => EventPayload::WorkerAttemptInterrupted(value.dup()),
            EventPayload::TerminalTransitionIntended(value) => EventPayload::TerminalTransitionIntended(value.dup()),
            EventPayload::WorkerQuestionInterrupted(value) => EventPayload::WorkerQuestionInterrupted(value.dup()),
            EventPayload::WorktreesCleaned(value) => EventPayload::WorktreesCleaned(value.dup()),
            EventPayload::RunResumed(value) => EventPayload::RunResumed(value.dup()),
            EventPayload::DaemonRecoveryStarted(value) => EventPayload::DaemonRecoveryStarted(value.dup()),
            EventPayload::WorkerQuestionsInterrupted(value) => EventPayload::WorkerQuestionsInterrupted(value.dup()),
            EventPayload::DaemonRecoveryCompleted(value) => EventPayload::DaemonRecoveryCompleted(value.dup()),
            EventPayload::RunCancelRequested(value) => EventPayload::RunCancelRequested(value.dup()),
            EventPayload::RunCancelled(value) => EventPayload::RunCancelled(value.dup()),
            EventPayload::RunCompleted(value) => EventPayload::RunCompleted(value.dup()),
            EventPayload::CockpitReady(value) => EventPayload::CockpitReady(value.dup()),
            EventPayload::CockpitWorkerReady(value) => EventPayload::CockpitWorkerReady(value.dup()),
            EventPayload::SliceStarted(value) => EventPayload::SliceStarted(value.dup()),
            EventPayload::IntegrationRepairCompleted(value) => EventPayload::IntegrationRepairCompleted(value.dup()),
            EventPayload::TerminalSummaryWritten(value) => EventPayload::TerminalSummaryWritten(value.dup()),
            EventPayload::TerminalNotification(value) => EventPayload::TerminalNotification(value.dup()),
            EventPayload::WorktreeSetup(value) => EventPayload::WorktreeSetup(value.dup()),
            EventPayload::WorktreeCleanupError(value) => EventPayload::WorktreeCleanupError(value.dup()),
            EventPayload::InvalidWorkerOutput(value) => EventPayload::InvalidWorkerOutput(value.dup()),
            EventPayload::SliceRepairCompleted(value) => EventPayload::SliceRepairCompleted(value.dup()),
            EventPayload::WorkerEnvelopeRetrySucceeded(value) => EventPayload::WorkerEnvelopeRetrySucceeded(value.dup()),
            EventPayload::WorkerAttemptTimeout(value) => EventPayload::WorkerAttemptTimeout(value.dup()),
            EventPayload::WorkerAttemptFailure(value) => EventPayload::WorkerAttemptFailure(value.dup()),
            EventPayload::WorkerError(value) => EventPayload::WorkerError(value.dup()),
            EventPayload::WorkerQuestionAsked(value) => EventPayload::WorkerQuestionAsked(value.dup()),
            EventPayload::WorkerQuestionAnswered(value) => EventPayload::WorkerQuestionAnswered(value.dup()),
            EventPayload::CockpitWorkerRenamed(value) => EventPayload::CockpitWorkerRenamed(value.dup()),
            EventPayload::AttentionDelivery(value) => EventPayload::AttentionDelivery(value.dup()),
            EventPayload::ParallelLayer(value) => EventPayload::ParallelLayer(value.dup()),
            EventPayload::FrontierClassified(value) => EventPayload::FrontierClassified(value.dup()),
            EventPayload::FrontierAutoAcceptRecorded(value) => EventPayload::FrontierAutoAcceptRecorded(value.dup()),
            EventPayload::ReplanProposalCreated(value) => EventPayload::ReplanProposalCreated(value.dup()),
            EventPayload::FrontierAutoAcceptDisposition(value) => EventPayload::FrontierAutoAcceptDisposition(value.dup()),
            EventPayload::ReplanProposalEvidence(value) => EventPayload::ReplanProposalEvidence(value.dup()),
            EventPayload::ReplanApplyStarted(value) => EventPayload::ReplanApplyStarted(value.dup()),
            EventPayload::ReplanApplyFailure(value) => EventPayload::ReplanApplyFailure(value.dup()),
            EventPayload::FrontierSlicePromoted(value) => EventPayload::FrontierSlicePromoted(value.dup()),
            EventPayload::ReplanProposalDecided(value) => EventPayload::ReplanProposalDecided(value.dup()),
            EventPayload::ReplanCheckpointBlocked(value) => EventPayload::ReplanCheckpointBlocked(value.dup()),
        }
    }

    fn same(&self, other: &Self) -> (r: bool) {
        match (self, other) {
            (EventPayload::Document(a), EventPayload::Document(b)) => a.same(b),
            (EventPayload::RunLaunch(a), EventPayload::RunLaunch(b)) => a.same(b),
            (EventPayload::IntegrationMerge(a), EventPayload::IntegrationMerge(b)) => a.same(b),
            (EventPayload::Progress(a), EventPayload::Progress(b)) => a.same(b),
            (EventPayload::OriginNotificationTargetRecorded(a), EventPayload::OriginNotificationTargetRecorded(b)) => a.same(b),
            (EventPayload::MissionEnvelopeRecorded(a), EventPayload::MissionEnvelopeRecorded(b)) => a.same(b),
            (EventPayload::RunIncident(a), EventPayload::RunIncident(b)) => a.same(b),
            (EventPayload::RunError(a), EventPayload::RunError(b)) => a.same(b),
            (EventPayload::RunLaunchInterrupted(a), EventPayload::RunLaunchInterrupted(b)) => a.same(b),
            (EventPayload::SliceMerged(a), EventPayload::SliceMerged(b)) => a.same(b),
            (EventPayload::WorkerAttemptAllocated(a), EventPayload::WorkerAttemptAllocated(b)) => a.same(b),
            (EventPayload::WorkerAttemptLaunched(a), EventPayload::WorkerAttemptLaunched(b)) => a.same(b),
            (EventPayload::WorkerAttemptFinished(a), EventPayload::WorkerAttemptFinished(b)) => a.same(b),
            (EventPayload::WorkerAttemptInterrupted(a), EventPayload::WorkerAttemptInterrupted(b)) => a.same(b),
            (EventPayload::TerminalTransitionIntended(a), EventPayload::TerminalTransitionIntended(b)) => a.same(b),
            (EventPayload::WorkerQuestionInterrupted(a), EventPayload::WorkerQuestionInterrupted(b)) => a.same(b),
            (EventPayload::WorktreesCleaned(a), EventPayload::WorktreesCleaned(b)) => a.same(b),
            (EventPayload::RunResumed(a), EventPayload::RunResumed(b)) => a.same(b),
            (EventPayload::DaemonRecoveryStarted(a), EventPayload::DaemonRecoveryStarted(b)) => a.same(b),
            (EventPayload::WorkerQuestionsInterrupted(a), EventPayload::WorkerQuestionsInterrupted(b)) => a.same(b),
            (EventPayload::DaemonRecoveryCompleted(a), EventPayload::DaemonRecoveryCompleted(b)) => a.same(b),
            (EventPayload::RunCancelRequested(a), EventPayload::RunCancelRequested(b)) => a.same(b),
            (EventPayload::RunCancelled(a), EventPayload::RunCancelled(b)) => a.same(b),
            (EventPayload::RunCompleted(a), EventPayload::RunCompleted(b)) => a.same(b),
            (EventPayload::CockpitReady(a), EventPayload::CockpitReady(b)) => a.same(b),
            (EventPayload::CockpitWorkerReady(a), EventPayload::CockpitWorkerReady(b)) => a.same(b),
            (EventPayload::SliceStarted(a), EventPayload::SliceStarted(b)) => a.same(b),
            (EventPayload::IntegrationRepairCompleted(a), EventPayload::IntegrationRepairCompleted(b)) => a.same(b),
            (EventPayload::TerminalSummaryWritten(a), EventPayload::TerminalSummaryWritten(b)) => a.same(b),
            (EventPayload::TerminalNotification(a), EventPayload::TerminalNotification(b)) => a.same(b),
            (EventPayload::WorktreeSetup(a), EventPayload::WorktreeSetup(b)) => a.same(b),
            (EventPayload::WorktreeCleanupError(a), EventPayload::WorktreeCleanupError(b)) => a.same(b),
            (EventPayload::InvalidWorkerOutput(a), EventPayload::InvalidWorkerOutput(b)) => a.same(b),
            (EventPayload::SliceRepairCompleted(a), EventPayload::SliceRepairCompleted(b)) => a.same(b),
            (EventPayload::WorkerEnvelopeRetrySucceeded(a), EventPayload::WorkerEnvelopeRetrySucceeded(b)) => a.same(b),
            (EventPayload::WorkerAttemptTimeout(a), EventPayload::WorkerAttemptTimeout(b)) => a.same(b),
            (EventPayload::WorkerAttemptFailure(a), EventPayload::WorkerAttemptFailure(b)) => a.same(b),
            (EventPayload::WorkerError(a), EventPayload::WorkerError(b)) => a.same(b),
            (EventPayload::WorkerQuestionAsked(a), EventPayload::WorkerQuestionAsked(b)) => a.same(b),
            (EventPayload::WorkerQuestionAnswered(a), EventPayload::WorkerQuestionAnswered(b)) => a.same(b),
            (EventPayload::CockpitWorkerRenamed(a), EventPayload::CockpitWorkerRenamed(b)) => a.same(b),
            (EventPayload::AttentionDelivery(a), EventPayload::AttentionDelivery(b)) => a.same(b),
            (EventPayload::ParallelLayer(a), EventPayload::ParallelLayer(b)) => a.same(b),
            (EventPayload::FrontierClassified(a), EventPayload::FrontierClassified(b)) => a.same(b),
            (EventPayload::FrontierAutoAcceptRecorded(a), EventPayload::FrontierAutoAcceptRecorded(b)) => a.same(b),
            (EventPayload::ReplanProposalCreated(a), EventPayload::ReplanProposalCreated(b)) => a.same(b),
            (EventPayload::FrontierAutoAcceptDisposition(a), EventPayload::FrontierAutoAcceptDisposition(b)) => a.same(b),
            (EventPayload::ReplanProposalEvidence(a), EventPayload::ReplanProposalEvidence(b)) => a.same(b),
            (EventPayload::ReplanApplyStarted(a), EventPayload::ReplanApplyStarted(b)) => a.same(b),
            (EventPayload::ReplanApplyFailure(a), EventPayload::ReplanApplyFailure(b)) => a.same(b),
            (EventPayload::FrontierSlicePromoted(a), EventPayload::FrontierSlicePromoted(b)) => a.same(b),
            (EventPayload::ReplanProposalDecided(a), EventPayload::ReplanProposalDecided(b)) => a.same(b),
            (EventPayload::ReplanCheckpointBlocked(a), EventPayload::ReplanCheckpointBlocked(b)) => a.same(b),
            _ => false,
        }
    }
}

/// One entry of the event log.
#[derive(Debug, Clone, PartialEq, Eq)]
pub struct Event {
    pub id: i64,
    pub run_id: String,
    pub typ: String,
    pub payload: EventPayload,
    pub created_at: Timestamp,
}

#[verifier::ext_equal]
pub struct EventModel {
    pub id: i64,
    pub run_id: Seq<char>,
    pub typ: Seq<char>,
    pub payload: EventPayloadModel,
    pub created_at: Timestamp,
}

impl DeepView for Event {
    type V = EventModel;

    open spec fn deep_view(&self) -> EventModel {
        EventModel {
            id: self.id.deep_view(),
            run_id: self.run_id.deep_view(),
            typ: self.typ.deep_view(),
            payload: self.payload.deep_view(),
            created_at: self.created_at.deep_view(),
        }
    }
}

impl View for Event {
    type V = EventModel;

    open spec fn view(&self) -> EventModel {
        self.deep_view()
    }
}

impl Row for Event {
    fn dup(&self) -> (r: Self) {
        Event {
            id: self.id.dup(),
            run_id: self.run_id.dup(),
            typ: self.typ.dup(),
            payload: self.payload.dup(),
            created_at: self.created_at.dup(),
        }
    }

    fn same(&self, other: &Self) -> (r: bool) {
        self.id.same(&other.id)
            && self.run_id.same(&other.run_id)
            && self.typ.same(&other.typ)
            && self.payload.same(&other.payload)
            && self.created_at.same(&other.created_at)
    }
}

} // verus!
