//! What is told to the operator, what comes back of it, and what is kept of it.
use crate::domain::SliceStatus;
use crate::payloads::{
    EventPayload, EventPayloadModel, ReplanNotificationPayload, ReplanNotificationPayloadModel,
};
use crate::table::Row;
use vstd::prelude::*;

verus! {

/// An event that is to be recorded.
#[derive(Debug, Clone, PartialEq, Eq)]
pub struct EventNote {
    pub typ: String,
    pub payload: EventPayload,
}

#[verifier::ext_equal]
pub struct EventNoteModel {
    pub typ: Seq<char>,
    pub payload: EventPayloadModel,
}

impl DeepView for EventNote {
    type V = EventNoteModel;

    open spec fn deep_view(&self) -> EventNoteModel {
        EventNoteModel {
            typ: self.typ.deep_view(),
            payload: self.payload.deep_view(),
        }
    }
}

impl View for EventNote {
    type V = EventNoteModel;

    open spec fn view(&self) -> EventNoteModel {
        self.deep_view()
    }
}

impl Row for EventNote {
    fn dup(&self) -> (r: Self) {
        EventNote {
            typ: self.typ.dup(),
            payload: self.payload.dup(),
        }
    }

    fn same(&self, other: &Self) -> (r: bool) {
        self.typ.same(&other.typ)
            && self.payload.same(&other.payload)
    }
}

/// Where the operator who started a run can be reached.
#[derive(Debug, Clone, PartialEq, Eq)]
pub struct OriginTarget {
    pub target: String,
    pub target_kind: String,
}

#[verifier::ext_equal]
pub struct OriginTargetModel {
    pub target: Seq<char>,
    pub target_kind: Seq<char>,
}

impl DeepView for OriginTarget {
    type V = OriginTargetModel;

    open spec fn deep_view(&self) -> OriginTargetModel {
        OriginTargetModel {
            target: self.target.deep_view(),
            target_kind: self.target_kind.deep_view(),
        }
    }
}

impl View for OriginTarget {
    type V = OriginTargetModel;

    open spec fn view(&self) -> OriginTargetModel {
        self.deep_view()
    }
}

impl Row for OriginTarget {
    fn dup(&self) -> (r: Self) {
        OriginTarget {
            target: self.target.dup(),
            target_kind: self.target_kind.dup(),
        }
    }

    fn same(&self, other: &Self) -> (r: bool) {
        self.target.same(&other.target)
            && self.target_kind.same(&other.target_kind)
    }
}

/// What the search for the origin of a run gave.
#[derive(Debug, Clone, PartialEq, Eq)]
pub enum OriginAnswer {
    Found(OriginTarget),
    Missing,
    Failed(String),
}

#[verifier::ext_equal]
pub enum OriginAnswerModel {
    Found(OriginTargetModel),
    Missing,
    Failed(Seq<char>),
}

impl DeepView for OriginAnswer {
    type V = OriginAnswerModel;

    open spec fn deep_view(&self) -> OriginAnswerModel {
        match self {
            OriginAnswer::Found(value) => OriginAnswerModel::Found(value.deep_view()),
            OriginAnswer::Missing => OriginAnswerModel::Missing,
            OriginAnswer::Failed(value) => OriginAnswerModel::Failed(value.deep_view()),
        }
    }
}

impl View for OriginAnswer {
    type V = OriginAnswerModel;

    open spec fn view(&self) -> OriginAnswerModel {
        self.deep_view()
    }
}

impl Row for OriginAnswer {
    fn dup(&self) -> (r: Self) {
        match self {
            OriginAnswer::Found(value) => OriginAnswer::Found(value.dup()),
            OriginAnswer::Missing => OriginAnswer::Missing,
            OriginAnswer::Failed(value) => OriginAnswer::Failed(value.dup()),
        }
    }

    fn same(&self, other: &Self) -> (r: bool) {
        match (self, other) {
            (OriginAnswer::Found(a), OriginAnswer::Found(b)) => a.same(b),
            (OriginAnswer::Missing, OriginAnswer::Missing) => true,
            (OriginAnswer::Failed(a), OriginAnswer::Failed(b)) => a.same(b),
            _ => false,
        }
    }
}

/// What the attempt to keep a record gave.
#[derive(Debug, Clone, PartialEq, Eq)]
pub enum WriteAnswer {
    Written,
    Failed(String),
}

#[verifier::ext_equal]
pub enum WriteAnswerModel {
    Written,
    Failed(Seq<char>),
}

impl DeepView for WriteAnswer {
    type V = WriteAnswerModel;

    open spec fn deep_view(&self) -> WriteAnswerModel {
        match self {
            WriteAnswer::Written => WriteAnswerModel::Written,
            WriteAnswer::Failed(value) => WriteAnswerModel::Failed(value.deep_view()),
        }
    }
}

impl View for WriteAnswer {
    type V = WriteAnswerModel;

    open spec fn view(&self) -> WriteAnswerModel {
        self.deep_view()
    }
}

impl Row for WriteAnswer {
    fn dup(&self) -> (r: Self) {
        match self {
            WriteAnswer::Written => WriteAnswer::Written,
            WriteAnswer::Failed(value) => WriteAnswer::Failed(value.dup()),
        }
    }

    fn same(&self, other: &Self) -> (r: bool) {
        match (self, other) {
            (WriteAnswer::Written, WriteAnswer::Written) => true,
            (WriteAnswer::Failed(a), WriteAnswer::Failed(b)) => a.same(b),
            _ => false,
        }
    }
}

/// What the attempt to reach the operator gave.
#[derive(Debug, Clone, PartialEq, Eq)]
pub enum DeliveryAnswer {
    Delivered { adapter: String, surface: String },
    Failed(String),
}

#[verifier::ext_equal]
pub enum DeliveryAnswerModel {
    Delivered { adapter: Seq<char>, surface: Seq<char> },
    Failed(Seq<char>),
}

impl DeepView for DeliveryAnswer {
    type V = DeliveryAnswerModel;

    open spec fn deep_view(&self) -> DeliveryAnswerModel {
        match self {
            DeliveryAnswer::Delivered { adapter, surface } => DeliveryAnswerModel::Delivered {
                adapter: adapter.deep_view(),
                surface: surface.deep_view(),
            },
            DeliveryAnswer::Failed(value) => DeliveryAnswerModel::Failed(value.deep_view()),
        }
    }
}

impl View for DeliveryAnswer {
    type V = DeliveryAnswerModel;

    open spec fn view(&self) -> DeliveryAnswerModel {
        self.deep_view()
    }
}

impl Row for DeliveryAnswer {
    fn dup(&self) -> (r: Self) {
        match self {
            DeliveryAnswer::Delivered { adapter, surface } => DeliveryAnswer::Delivered {
                adapter: adapter.dup(),
                surface: surface.dup(),
            },
            DeliveryAnswer::Failed(value) => DeliveryAnswer::Failed(value.dup()),
        }
    }

    fn same(&self, other: &Self) -> (r: bool) {
        match (self, other) {
            (
                DeliveryAnswer::Delivered { adapter, surface },
                DeliveryAnswer::Delivered { adapter: other_adapter, surface: other_surface },
            ) => adapter.same(other_adapter) && surface.same(other_surface),
            (DeliveryAnswer::Failed(a), DeliveryAnswer::Failed(b)) => a.same(b),
            _ => false,
        }
    }
}

/// What the operator is told of a pending question.
#[derive(Debug, Clone, PartialEq, Eq)]
pub struct QuestionAttention {
    pub schema_version: u64,
    pub kind: String,
    pub attention_key: String,
    pub run_id: String,
    pub slice_id: String,
    pub attempt: usize,
    pub question_id: String,
    pub reason: String,
    pub question: String,
    pub options: Vec<String>,
    pub timeout_seconds: u64,
    pub deadline_at: Option<String>,
    pub recommended_answer: String,
    pub recommendation_rationale: String,
    pub bounded_within_current_slice_or_mission_authority: bool,
    pub reversible: bool,
    pub fallback_eligible: bool,
    pub answer_command: String,
    pub answer_commands: Vec<String>,
    pub status_commands: Vec<String>,
    pub operator_commands: Vec<String>,
    pub source_of_truth: String,
    pub delivery_semantics: String,
}

#[verifier::ext_equal]
pub struct QuestionAttentionModel {
    pub schema_version: u64,
    pub kind: Seq<char>,
    pub attention_key: Seq<char>,
    pub run_id: Seq<char>,
    pub slice_id: Seq<char>,
    pub attempt: usize,
    pub question_id: Seq<char>,
    pub reason: Seq<char>,
    pub question: Seq<char>,
    pub options: Seq<Seq<char>>,
    pub timeout_seconds: u64,
    pub deadline_at: Option<Seq<char>>,
    pub recommended_answer: Seq<char>,
    pub recommendation_rationale: Seq<char>,
    pub bounded_within_current_slice_or_mission_authority: bool,
    pub reversible: bool,
    pub fallback_eligible: bool,
    pub answer_command: Seq<char>,
    pub answer_commands: Seq<Seq<char>>,
    pub status_commands: Seq<Seq<char>>,
    pub operator_commands: Seq<Seq<char>>,
    pub source_of_truth: Seq<char>,
    pub delivery_semantics: Seq<char>,
}

impl DeepView for QuestionAttention {
    type V = QuestionAttentionModel;

    open spec fn deep_view(&self) -> QuestionAttentionModel {
        QuestionAttentionModel {
            schema_version: self.schema_version.deep_view(),
            kind: self.kind.deep_view(),
            attention_key: self.attention_key.deep_view(),
            run_id: self.run_id.deep_view(),
            slice_id: self.slice_id.deep_view(),
            attempt: self.attempt.deep_view(),
            question_id: self.question_id.deep_view(),
            reason: self.reason.deep_view(),
            question: self.question.deep_view(),
            options: self.options.deep_view(),
            timeout_seconds: self.timeout_seconds.deep_view(),
            deadline_at: self.deadline_at.deep_view(),
            recommended_answer: self.recommended_answer.deep_view(),
            recommendation_rationale: self.recommendation_rationale.deep_view(),
            bounded_within_current_slice_or_mission_authority: self.bounded_within_current_slice_or_mission_authority.deep_view(),
            reversible: self.reversible.deep_view(),
            fallback_eligible: self.fallback_eligible.deep_view(),
            answer_command: self.answer_command.deep_view(),
            answer_commands: self.answer_commands.deep_view(),
            status_commands: self.status_commands.deep_view(),
            operator_commands: self.operator_commands.deep_view(),
            source_of_truth: self.source_of_truth.deep_view(),
            delivery_semantics: self.delivery_semantics.deep_view(),
        }
    }
}

impl View for QuestionAttention {
    type V = QuestionAttentionModel;

    open spec fn view(&self) -> QuestionAttentionModel {
        self.deep_view()
    }
}

impl Row for QuestionAttention {
    fn dup(&self) -> (r: Self) {
        QuestionAttention {
            schema_version: self.schema_version.dup(),
            kind: self.kind.dup(),
            attention_key: self.attention_key.dup(),
            run_id: self.run_id.dup(),
            slice_id: self.slice_id.dup(),
            attempt: self.attempt.dup(),
            question_id: self.question_id.dup(),
            reason: self.reason.dup(),
            question: self.question.dup(),
            options: self.options.dup(),
            timeout_seconds: self.timeout_seconds.dup(),
            deadline_at: self.deadline_at.dup(),
            recommended_answer: self.recommended_answer.dup(),
            recommendation_rationale: self.recommendation_rationale.dup(),
            bounded_within_current_slice_or_mission_authority: self.bounded_within_current_slice_or_mission_authority.dup(),
            reversible: self.reversible.dup(),
            fallback_eligible: self.fallback_eligible.dup(),
            answer_command: self.answer_command.dup(),
            answer_commands: self.answer_commands.dup(),
            status_commands: self.status_commands.dup(),
            operator_commands: self.operator_commands.dup(),
            source_of_truth: self.source_of_truth.dup(),
            delivery_semantics: self.delivery_semantics.dup(),
        }
    }

    fn same(&self, other: &Self) -> (r: bool) {
        self.schema_version.same(&other.schema_version)
            && self.kind.same(&other.kind)
            && self.attention_key.same(&other.attention_key)
            && self.run_id.same(&other.run_id)
            && self.slice_id.same(&other.slice_id)
            && self.attempt.same(&other.attempt)
            && self.question_id.same(&other.question_id)
            && self.reason.same(&other.reason)
            && self.question.same(&other.question)
            && self.options.same(&other.options)
            && self.timeout_seconds.same(&other.timeout_seconds)
            && self.deadline_at.same(&other.deadline_at)
            && self.recommended_answer.same(&other.recommended_answer)
            && self.recommendation_rationale.same(&other.recommendation_rationale)
            && self.bounded_within_current_slice_or_mission_authority.same(&other.bounded_within_current_slice_or_mission_authority)
            && self.reversible.same(&other.reversible)
            && self.fallback_eligible.same(&other.fallback_eligible)
            && self.answer_command.same(&other.answer_command)
            && self.answer_commands.same(&other.answer_commands)
            && self.status_commands.same(&other.status_commands)
            && self.operator_commands.same(&other.operator_commands)
            && self.source_of_truth.same(&other.source_of_truth)
            && self.delivery_semantics.same(&other.delivery_semantics)
    }
}

/// What the operator is told of a pending proposal.
#[derive(Debug, Clone, PartialEq, Eq)]
pub struct ReplanAttention {
    pub notification: ReplanNotificationPayload,
    pub attention_key: String,
    pub reason: String,
    pub status_commands: Vec<String>,
    pub operator_commands: Vec<String>,
    pub delivery_semantics: String,
}

#[verifier::ext_equal]
pub struct ReplanAttentionModel {
    pub notification: ReplanNotificationPayloadModel,
    pub attention_key: Seq<char>,
    pub reason: Seq<char>,
    pub status_commands: Seq<Seq<char>>,
    pub operator_commands: Seq<Seq<char>>,
    pub delivery_semantics: Seq<char>,
}

impl DeepView for ReplanAttention {
    type V = ReplanAttentionModel;

    open spec fn deep_view(&self) -> ReplanAttentionModel {
        ReplanAttentionModel {
            notification: self.notification.deep_view(),
            attention_key: self.attention_key.deep_view(),
            reason: self.reason.deep_view(),
            status_commands: self.status_commands.deep_view(),
            operator_commands: self.operator_commands.deep_view(),
            delivery_semantics: self.delivery_semantics.deep_view(),
        }
    }
}

impl View for ReplanAttention {
    type V = ReplanAttentionModel;

    open spec fn view(&self) -> ReplanAttentionModel {
        self.deep_view()
    }
}

impl Row for ReplanAttention {
    fn dup(&self) -> (r: Self) {
        ReplanAttention {
            notification: self.notification.dup(),
            attention_key: self.attention_key.dup(),
            reason: self.reason.dup(),
            status_commands: self.status_commands.dup(),
            operator_commands: self.operator_commands.dup(),
            delivery_semantics: self.delivery_semantics.dup(),
        }
    }

    fn same(&self, other: &Self) -> (r: bool) {
        self.notification.same(&other.notification)
            && self.attention_key.same(&other.attention_key)
            && self.reason.same(&other.reason)
            && self.status_commands.same(&other.status_commands)
            && self.operator_commands.same(&other.operator_commands)
            && self.delivery_semantics.same(&other.delivery_semantics)
    }
}

/// What the operator is told.
#[derive(Debug, Clone, PartialEq, Eq)]
pub enum AttentionPayload {
    Question(QuestionAttention),
    Replan(ReplanAttention),
}

#[verifier::ext_equal]
pub enum AttentionPayloadModel {
    Question(QuestionAttentionModel),
    Replan(ReplanAttentionModel),
}

impl DeepView for AttentionPayload {
    type V = AttentionPayloadModel;

    open spec fn deep_view(&self) -> AttentionPayloadModel {
        match self {
            AttentionPayload::Question(value) => AttentionPayloadModel::Question(value.deep_view()),
            AttentionPayload::Replan(value) => AttentionPayloadModel::Replan(value.deep_view()),
        }
    }
}

impl View for AttentionPayload {
    type V = AttentionPayloadModel;

    open spec fn view(&self) -> AttentionPayloadModel {
        self.deep_view()
    }
}

impl Row for AttentionPayload {
    fn dup(&self) -> (r: Self) {
        match self {
            AttentionPayload::Question(value) => AttentionPayload::Question(value.dup()),
            AttentionPayload::Replan(value) => AttentionPayload::Replan(value.dup()),
        }
    }

    fn same(&self, other: &Self) -> (r: bool) {
        match (self, other) {
            (AttentionPayload::Question(a), AttentionPayload::Question(b)) => a.same(b),
            (AttentionPayload::Replan(a), AttentionPayload::Replan(b)) => a.same(b),
            _ => false,
        }
    }
}

/// A call for attention.
#[derive(Debug, Clone, PartialEq, Eq)]
pub struct AttentionRequest {
    pub run_id: String,
    pub attention_key: String,
    pub attention_kind: String,
    pub payload: AttentionPayload,
    pub source_of_truth: String,
    pub question_id: String,
    pub slice_id: String,
    pub proposal_id: String,
    pub delivery_message: String,
    pub focus_message: String,
}

#[verifier::ext_equal]
pub struct AttentionRequestModel {
    pub run_id: Seq<char>,
    pub attention_key: Seq<char>,
    pub attention_kind: Seq<char>,
    pub payload: AttentionPayloadModel,
    pub source_of_truth: Seq<char>,
    pub question_id: Seq<char>,
    pub slice_id: Seq<char>,
    pub proposal_id: Seq<char>,
    pub delivery_message: Seq<char>,
    pub focus_message: Seq<char>,
}

impl DeepView for AttentionRequest {
    type V = AttentionRequestModel;

    open spec fn deep_view(&self) -> AttentionRequestModel {
        AttentionRequestModel {
            run_id: self.run_id.deep_view(),
            attention_key: self.attention_key.deep_view(),
            attention_kind: self.attention_kind.deep_view(),
            payload: self.payload.deep_view(),
            source_of_truth: self.source_of_truth.deep_view(),
            question_id: self.question_id.deep_view(),
            slice_id: self.slice_id.deep_view(),
            proposal_id: self.proposal_id.deep_view(),
            delivery_message: self.delivery_message.deep_view(),
            focus_message: self.focus_message.deep_view(),
        }
    }
}

impl View for AttentionRequest {
    type V = AttentionRequestModel;

    open spec fn view(&self) -> AttentionRequestModel {
        self.deep_view()
    }
}

impl Row for AttentionRequest {
    fn dup(&self) -> (r: Self) {
        AttentionRequest {
            run_id: self.run_id.dup(),
            attention_key: self.attention_key.dup(),
            attention_kind: self.attention_kind.dup(),
            payload: self.payload.dup(),
            source_of_truth: self.source_of_truth.dup(),
            question_id: self.question_id.dup(),
            slice_id: self.slice_id.dup(),
            proposal_id: self.proposal_id.dup(),
            delivery_message: self.delivery_message.dup(),
            focus_message: self.focus_message.dup(),
        }
    }

    fn same(&self, other: &Self) -> (r: bool) {
        self.run_id.same(&other.run_id)
            && self.attention_key.same(&other.attention_key)
            && self.attention_kind.same(&other.attention_kind)
            && self.payload.same(&other.payload)
            && self.source_of_truth.same(&other.source_of_truth)
            && self.question_id.same(&other.question_id)
            && self.slice_id.same(&other.slice_id)
            && self.proposal_id.same(&other.proposal_id)
            && self.delivery_message.same(&other.delivery_message)
            && self.focus_message.same(&other.focus_message)
    }
}

/// What is kept of a call for attention.
#[derive(Debug, Clone, PartialEq, Eq)]
pub struct AttentionNotificationRecord {
    pub schema_version: u64,
    pub run_id: String,
    pub attention_key: String,
    pub attention_kind: String,
    pub delivery_status: String,
    pub send_status: String,
    pub focus_status: String,
    pub question_id: String,
    pub slice_id: String,
    pub proposal_id: String,
    pub origin_target: String,
    pub delivery_adapter: String,
    pub delivery_surface: String,
    pub error: String,
    pub payload: AttentionPayload,
    pub created_at: String,
}

#[verifier::ext_equal]
pub struct AttentionNotificationRecordModel {
    pub schema_version: u64,
    pub run_id: Seq<char>,
    pub attention_key: Seq<char>,
    pub attention_kind: Seq<char>,
    pub delivery_status: Seq<char>,
    pub send_status: Seq<char>,
    pub focus_status: Seq<char>,
    pub question_id: Seq<char>,
    pub slice_id: Seq<char>,
    pub proposal_id: Seq<char>,
    pub origin_target: Seq<char>,
    pub delivery_adapter: Seq<char>,
    pub delivery_surface: Seq<char>,
    pub error: Seq<char>,
    pub payload: AttentionPayloadModel,
    pub created_at: Seq<char>,
}

impl DeepView for AttentionNotificationRecord {
    type V = AttentionNotificationRecordModel;

    open spec fn deep_view(&self) -> AttentionNotificationRecordModel {
        AttentionNotificationRecordModel {
            schema_version: self.schema_version.deep_view(),
            run_id: self.run_id.deep_view(),
            attention_key: self.attention_key.deep_view(),
            attention_kind: self.attention_kind.deep_view(),
            delivery_status: self.delivery_status.deep_view(),
            send_status: self.send_status.deep_view(),
            focus_status: self.focus_status.deep_view(),
            question_id: self.question_id.deep_view(),
            slice_id: self.slice_id.deep_view(),
            proposal_id: self.proposal_id.deep_view(),
            origin_target: self.origin_target.deep_view(),
            delivery_adapter: self.delivery_adapter.deep_view(),
            delivery_surface: self.delivery_surface.deep_view(),
            error: self.error.deep_view(),
            payload: self.payload.deep_view(),
            created_at: self.created_at.deep_view(),
        }
    }
}

impl View for AttentionNotificationRecord {
    type V = AttentionNotificationRecordModel;

    open spec fn view(&self) -> AttentionNotificationRecordModel {
        self.deep_view()
    }
}

impl Row for AttentionNotificationRecord {
    fn dup(&self) -> (r: Self) {
        AttentionNotificationRecord {
            schema_version: self.schema_version.dup(),
            run_id: self.run_id.dup(),
            attention_key: self.attention_key.dup(),
            attention_kind: self.attention_kind.dup(),
            delivery_status: self.delivery_status.dup(),
            send_status: self.send_status.dup(),
            focus_status: self.focus_status.dup(),
            question_id: self.question_id.dup(),
            slice_id: self.slice_id.dup(),
            proposal_id: self.proposal_id.dup(),
            origin_target: self.origin_target.dup(),
            delivery_adapter: self.delivery_adapter.dup(),
            delivery_surface: self.delivery_surface.dup(),
            error: self.error.dup(),
            payload: self.payload.dup(),
            created_at: self.created_at.dup(),
        }
    }

    fn same(&self, other: &Self) -> (r: bool) {
        self.schema_version.same(&other.schema_version)
            && self.run_id.same(&other.run_id)
            && self.attention_key.same(&other.attention_key)
            && self.attention_kind.same(&other.attention_kind)
            && self.delivery_status.same(&other.delivery_status)
            && self.send_status.same(&other.send_status)
            && self.focus_status.same(&other.focus_status)
            && self.question_id.same(&other.question_id)
            && self.slice_id.same(&other.slice_id)
            && self.proposal_id.same(&other.proposal_id)
            && self.origin_target.same(&other.origin_target)
            && self.delivery_adapter.same(&other.delivery_adapter)
            && self.delivery_surface.same(&other.delivery_surface)
            && self.error.same(&other.error)
            && self.payload.same(&other.payload)
            && self.created_at.same(&other.created_at)
    }
}

/// How far a call for attention has come.
#[derive(Debug, Clone, PartialEq, Eq)]
pub enum AttentionStage {
    LookingForRecord,
    ReadingOrigin,
    WritingPending { origin: OriginTarget, created_at: String },
    Sending { origin: OriginTarget, created_at: String },
    Focusing { origin: OriginTarget, created_at: String, send_error: Option<String> },
    WritingOutcome,
    Finished,
}

#[verifier::ext_equal]
pub enum AttentionStageModel {
    LookingForRecord,
    ReadingOrigin,
    WritingPending { origin: OriginTargetModel, created_at: Seq<char> },
    Sending { origin: OriginTargetModel, created_at: Seq<char> },
    Focusing { origin: OriginTargetModel, created_at: Seq<char>, send_error: Option<Seq<char>> },
    WritingOutcome,
    Finished,
}

impl DeepView for AttentionStage {
    type V = AttentionStageModel;

    open spec fn deep_view(&self) -> AttentionStageModel {
        match self {
            AttentionStage::LookingForRecord => AttentionStageModel::LookingForRecord,
            AttentionStage::ReadingOrigin => AttentionStageModel::ReadingOrigin,
            AttentionStage::WritingPending { origin, created_at } => AttentionStageModel::WritingPending {
                origin: origin.deep_view(),
                created_at: created_at.deep_view(),
            },
            AttentionStage::Sending { origin, created_at } => AttentionStageModel::Sending {
                origin: origin.deep_view(),
                created_at: created_at.deep_view(),
            },
            AttentionStage::Focusing { origin, created_at, send_error } => AttentionStageModel::Focusing {
                origin: origin.deep_view(),
                created_at: created_at.deep_view(),
                send_error: send_error.deep_view(),
            },
            AttentionStage::WritingOutcome => AttentionStageModel::WritingOutcome,
            AttentionStage::Finished => AttentionStageModel::Finished,
        }
    }
}

impl View for AttentionStage {
    type V = AttentionStageModel;

    open spec fn view(&self) -> AttentionStageModel {
        self.deep_view()
    }
}

impl Row for AttentionStage {
    fn dup(&self) -> (r: Self) {
        match self {
            AttentionStage::LookingForRecord => AttentionStage::LookingForRecord,
            AttentionStage::ReadingOrigin => AttentionStage::ReadingOrigin,
            AttentionStage::WritingPending { origin, created_at } => AttentionStage::WritingPending {
                origin: origin.dup(),
                created_at: created_at.dup(),
            },
            AttentionStage::Sending { origin, created_at } => AttentionStage::Sending {
                origin: origin.dup(),
                created_at: created_at.dup(),
            },
            AttentionStage::Focusing { origin, created_at, send_error } => AttentionStage::Focusing {
                origin: origin.dup(),
                created_at: created_at.dup(),
                send_error: send_error.dup(),
            },
            AttentionStage::WritingOutcome => AttentionStage::WritingOutcome,
            AttentionStage::Finished => AttentionStage::Finished,
        }
    }

    fn same(&self, other: &Self) -> (r: bool) {
        match (self, other) {
            (AttentionStage::LookingForRecord, AttentionStage::LookingForRecord) => true,
            (AttentionStage::ReadingOrigin, AttentionStage::ReadingOrigin) => true,
            (
                AttentionStage::WritingPending { origin, created_at },
                AttentionStage::WritingPending { origin: other_origin, created_at: other_created_at },
            ) => origin.same(other_origin) && created_at.same(other_created_at),
            (
                AttentionStage::Sending { origin, created_at },
                AttentionStage::Sending { origin: other_origin, created_at: other_created_at },
            ) => origin.same(other_origin) && created_at.same(other_created_at),
            (
                AttentionStage::Focusing { origin, created_at, send_error },
                AttentionStage::Focusing { origin: other_origin, created_at: other_created_at, send_error: other_send_error },
            ) => origin.same(other_origin) && created_at.same(other_created_at) && send_error.same(other_send_error),
            (AttentionStage::WritingOutcome, AttentionStage::WritingOutcome) => true,
            (AttentionStage::Finished, AttentionStage::Finished) => true,
            _ => false,
        }
    }
}

/// What an action gave.
#[derive(Debug, Clone, PartialEq, Eq)]
pub enum AttentionAnswer {
    RecordExists(bool),
    Origin(OriginAnswer),
    Record(WriteAnswer),
    Delivery(DeliveryAnswer),
}

#[verifier::ext_equal]
pub enum AttentionAnswerModel {
    RecordExists(bool),
    Origin(OriginAnswerModel),
    Record(WriteAnswerModel),
    Delivery(DeliveryAnswerModel),
}

impl DeepView for AttentionAnswer {
    type V = AttentionAnswerModel;

    open spec fn deep_view(&self) -> AttentionAnswerModel {
        match self {
            AttentionAnswer::RecordExists(value) => AttentionAnswerModel::RecordExists(value.deep_view()),
            AttentionAnswer::Origin(value) => AttentionAnswerModel::Origin(value.deep_view()),
            AttentionAnswer::Record(value) => AttentionAnswerModel::Record(value.deep_view()),
            AttentionAnswer::Delivery(value) => AttentionAnswerModel::Delivery(value.deep_view()),
        }
    }
}

impl View for AttentionAnswer {
    type V = AttentionAnswerModel;

    open spec fn view(&self) -> AttentionAnswerModel {
        self.deep_view()
    }
}

impl Row for AttentionAnswer {
    fn dup(&self) -> (r: Self) {
        match self {
            AttentionAnswer::RecordExists(value) => AttentionAnswer::RecordExists(value.dup()),
            AttentionAnswer::Origin(value) => AttentionAnswer::Origin(value.dup()),
            AttentionAnswer::Record(value) => AttentionAnswer::Record(value.dup()),
            AttentionAnswer::Delivery(value) => AttentionAnswer::Delivery(value.dup()),
        }
    }

    fn same(&self, other: &Self) -> (r: bool) {
        match (self, other) {
            (AttentionAnswer::RecordExists(a), AttentionAnswer::RecordExists(b)) => a.same(b),
            (AttentionAnswer::Origin(a), AttentionAnswer::Origin(b)) => a.same(b),
            (AttentionAnswer::Record(a), AttentionAnswer::Record(b)) => a.same(b),
            (AttentionAnswer::Delivery(a), AttentionAnswer::Delivery(b)) => a.same(b),
            _ => false,
        }
    }
}

/// What is to be done next.
#[derive(Debug, Clone, PartialEq, Eq)]
pub enum AttentionAction {
    LookForRecord(String),
    ReadOrigin,
    WriteRecord { file: String, record: AttentionNotificationRecord },
    Send { target: String, payload: AttentionPayload },
    Focus(String),
    Stop,
}

#[verifier::ext_equal]
pub enum AttentionActionModel {
    LookForRecord(Seq<char>),
    ReadOrigin,
    WriteRecord { file: Seq<char>, record: AttentionNotificationRecordModel },
    Send { target: Seq<char>, payload: AttentionPayloadModel },
    Focus(Seq<char>),
    Stop,
}

impl DeepView for AttentionAction {
    type V = AttentionActionModel;

    open spec fn deep_view(&self) -> AttentionActionModel {
        match self {
            AttentionAction::LookForRecord(value) => AttentionActionModel::LookForRecord(value.deep_view()),
            AttentionAction::ReadOrigin => AttentionActionModel::ReadOrigin,
            AttentionAction::WriteRecord { file, record } => AttentionActionModel::WriteRecord {
                file: file.deep_view(),
                record: record.deep_view(),
            },
            AttentionAction::Send { target, payload } => AttentionActionModel::Send {
                target: target.deep_view(),
                payload: payload.deep_view(),
            },
            AttentionAction::Focus(value) => AttentionActionModel::Focus(value.deep_view()),
            AttentionAction::Stop => AttentionActionModel::Stop,
        }
    }
}

impl View for AttentionAction {
    type V = AttentionActionModel;

    open spec fn view(&self) -> AttentionActionModel {
        self.deep_view()
    }
}

impl Row for AttentionAction {
    fn dup(&self) -> (r: Self) {
        match self {
            AttentionAction::LookForRecord(value) => AttentionAction::LookForRecord(value.dup()),
            AttentionAction::ReadOrigin => AttentionAction::ReadOrigin,
            AttentionAction::WriteRecord { file, record } => AttentionAction::WriteRecord {
                file: file.dup(),
                record: record.dup(),
            },
            AttentionAction::Send { target, payload } => AttentionAction::Send {
                target: target.dup(),
                payload: payload.dup(),
            },
            AttentionAction::Focus(value) => AttentionAction::Focus(value.dup()),
            AttentionAction::Stop => AttentionAction::Stop,
        }
    }

    fn same(&self, other: &Self) -> (r: bool) {
        match (self, other) {
            (AttentionAction::LookForRecord(a), AttentionAction::LookForRecord(b)) => a.same(b),
            (AttentionAction::ReadOrigin, AttentionAction::ReadOrigin) => true,
            (
                AttentionAction::WriteRecord { file, record },
                AttentionAction::WriteRecord { file: other_file, record: other_record },
            ) => file.same(other_file) && record.same(other_record),
            (
                AttentionAction::Send { target, payload },
                AttentionAction::Send { target: other_target, payload: other_payload },
            ) => target.same(other_target) && payload.same(other_payload),
            (AttentionAction::Focus(a), AttentionAction::Focus(b)) => a.same(b),
            (AttentionAction::Stop, AttentionAction::Stop) => true,
            _ => false,
        }
    }
}

/// What an answer leads to.
#[derive(Debug, Clone, PartialEq, Eq)]
pub struct AttentionStep {
    pub stage: AttentionStage,
    pub notes: Vec<EventNote>,
    pub action: AttentionAction,
}

#[verifier::ext_equal]
pub struct AttentionStepModel {
    pub stage: AttentionStageModel,
    pub notes: Seq<EventNoteModel>,
    pub action: AttentionActionModel,
}

impl DeepView for AttentionStep {
    type V = AttentionStepModel;

    open spec fn deep_view(&self) -> AttentionStepModel {
        AttentionStepModel {
            stage: self.stage.deep_view(),
            notes: self.notes.deep_view(),
            action: self.action.deep_view(),
        }
    }
}

impl View for AttentionStep {
    type V = AttentionStepModel;

    open spec fn view(&self) -> AttentionStepModel {
        self.deep_view()
    }
}

impl Row for AttentionStep {
    fn dup(&self) -> (r: Self) {
        AttentionStep {
            stage: self.stage.dup(),
            notes: self.notes.dup(),
            action: self.action.dup(),
        }
    }

    fn same(&self, other: &Self) -> (r: bool) {
        self.stage.same(&other.stage)
            && self.notes.same(&other.notes)
            && self.action.same(&other.action)
    }
}

/// What the operator is told of the end of a run. The documents of the summary that are passed on stand here as their texts.
#[derive(Debug, Clone, PartialEq, Eq)]
pub struct TerminalFeedback {
    pub kind: String,
    pub run_id: String,
    pub terminal_status: String,
    pub repo_path: String,
    pub integration_branch: String,
    pub selected_slice_id: String,
    pub message: String,
    pub feed_summary_line: String,
    pub feed: String,
    pub primary_failure: String,
    pub cancel_reason: String,
    pub final_sha: String,
    pub handoff_readiness: String,
    pub evidence_artifacts: Vec<String>,
    pub snapshot: String,
    pub next_commands: String,
}

#[verifier::ext_equal]
pub struct TerminalFeedbackModel {
    pub kind: Seq<char>,
    pub run_id: Seq<char>,
    pub terminal_status: Seq<char>,
    pub repo_path: Seq<char>,
    pub integration_branch: Seq<char>,
    pub selected_slice_id: Seq<char>,
    pub message: Seq<char>,
    pub feed_summary_line: Seq<char>,
    pub feed: Seq<char>,
    pub primary_failure: Seq<char>,
    pub cancel_reason: Seq<char>,
    pub final_sha: Seq<char>,
    pub handoff_readiness: Seq<char>,
    pub evidence_artifacts: Seq<Seq<char>>,
    pub snapshot: Seq<char>,
    pub next_commands: Seq<char>,
}

impl DeepView for TerminalFeedback {
    type V = TerminalFeedbackModel;

    open spec fn deep_view(&self) -> TerminalFeedbackModel {
        TerminalFeedbackModel {
            kind: self.kind.deep_view(),
            run_id: self.run_id.deep_view(),
            terminal_status: self.terminal_status.deep_view(),
            repo_path: self.repo_path.deep_view(),
            integration_branch: self.integration_branch.deep_view(),
            selected_slice_id: self.selected_slice_id.deep_view(),
            message: self.message.deep_view(),
            feed_summary_line: self.feed_summary_line.deep_view(),
            feed: self.feed.deep_view(),
            primary_failure: self.primary_failure.deep_view(),
            cancel_reason: self.cancel_reason.deep_view(),
            final_sha: self.final_sha.deep_view(),
            handoff_readiness: self.handoff_readiness.deep_view(),
            evidence_artifacts: self.evidence_artifacts.deep_view(),
            snapshot: self.snapshot.deep_view(),
            next_commands: self.next_commands.deep_view(),
        }
    }
}

impl View for TerminalFeedback {
    type V = TerminalFeedbackModel;

    open spec fn view(&self) -> TerminalFeedbackModel {
        self.deep_view()
    }
}

impl Row for TerminalFeedback {
    fn dup(&self) -> (r: Self) {
        TerminalFeedback {
            kind: self.kind.dup(),
            run_id: self.run_id.dup(),
            terminal_status: self.terminal_status.dup(),
            repo_path: self.repo_path.dup(),
            integration_branch: self.integration_branch.dup(),
            selected_slice_id: self.selected_slice_id.dup(),
            message: self.message.dup(),
            feed_summary_line: self.feed_summary_line.dup(),
            feed: self.feed.dup(),
            primary_failure: self.primary_failure.dup(),
            cancel_reason: self.cancel_reason.dup(),
            final_sha: self.final_sha.dup(),
            handoff_readiness: self.handoff_readiness.dup(),
            evidence_artifacts: self.evidence_artifacts.dup(),
            snapshot: self.snapshot.dup(),
            next_commands: self.next_commands.dup(),
        }
    }

    fn same(&self, other: &Self) -> (r: bool) {
        self.kind.same(&other.kind)
            && self.run_id.same(&other.run_id)
            && self.terminal_status.same(&other.terminal_status)
            && self.repo_path.same(&other.repo_path)
            && self.integration_branch.same(&other.integration_branch)
            && self.selected_slice_id.same(&other.selected_slice_id)
            && self.message.same(&other.message)
            && self.feed_summary_line.same(&other.feed_summary_line)
            && self.feed.same(&other.feed)
            && self.primary_failure.same(&other.primary_failure)
            && self.cancel_reason.same(&other.cancel_reason)
            && self.final_sha.same(&other.final_sha)
            && self.handoff_readiness.same(&other.handoff_readiness)
            && self.evidence_artifacts.same(&other.evidence_artifacts)
            && self.snapshot.same(&other.snapshot)
            && self.next_commands.same(&other.next_commands)
    }
}

/// What is kept of the notification of an end.
#[derive(Debug, Clone, PartialEq, Eq)]
pub struct TerminalNotificationRecord {
    pub schema_version: u64,
    pub run_id: String,
    pub terminal_status: String,
    pub transition_key: String,
    pub delivery_status: String,
    pub origin_target: String,
    pub delivery_adapter: String,
    pub delivery_surface: String,
    pub error: String,
    pub payload: TerminalFeedback,
    pub created_at: String,
}

#[verifier::ext_equal]
pub struct TerminalNotificationRecordModel {
    pub schema_version: u64,
    pub run_id: Seq<char>,
    pub terminal_status: Seq<char>,
    pub transition_key: Seq<char>,
    pub delivery_status: Seq<char>,
    pub origin_target: Seq<char>,
    pub delivery_adapter: Seq<char>,
    pub delivery_surface: Seq<char>,
    pub error: Seq<char>,
    pub payload: TerminalFeedbackModel,
    pub created_at: Seq<char>,
}

impl DeepView for TerminalNotificationRecord {
    type V = TerminalNotificationRecordModel;

    open spec fn deep_view(&self) -> TerminalNotificationRecordModel {
        TerminalNotificationRecordModel {
            schema_version: self.schema_version.deep_view(),
            run_id: self.run_id.deep_view(),
            terminal_status: self.terminal_status.deep_view(),
            transition_key: self.transition_key.deep_view(),
            delivery_status: self.delivery_status.deep_view(),
            origin_target: self.origin_target.deep_view(),
            delivery_adapter: self.delivery_adapter.deep_view(),
            delivery_surface: self.delivery_surface.deep_view(),
            error: self.error.deep_view(),
            payload: self.payload.deep_view(),
            created_at: self.created_at.deep_view(),
        }
    }
}

impl View for TerminalNotificationRecord {
    type V = TerminalNotificationRecordModel;

    open spec fn view(&self) -> TerminalNotificationRecordModel {
        self.deep_view()
    }
}

impl Row for TerminalNotificationRecord {
    fn dup(&self) -> (r: Self) {
        TerminalNotificationRecord {
            schema_version: self.schema_version.dup(),
            run_id: self.run_id.dup(),
            terminal_status: self.terminal_status.dup(),
            transition_key: self.transition_key.dup(),
            delivery_status: self.delivery_status.dup(),
            origin_target: self.origin_target.dup(),
            delivery_adapter: self.delivery_adapter.dup(),
            delivery_surface: self.delivery_surface.dup(),
            error: self.error.dup(),
            payload: self.payload.dup(),
            created_at: self.created_at.dup(),
        }
    }

    fn same(&self, other: &Self) -> (r: bool) {
        self.schema_version.same(&other.schema_version)
            && self.run_id.same(&other.run_id)
            && self.terminal_status.same(&other.terminal_status)
            && self.transition_key.same(&other.transition_key)
            && self.delivery_status.same(&other.delivery_status)
            && self.origin_target.same(&other.origin_target)
            && self.delivery_adapter.same(&other.delivery_adapter)
            && self.delivery_surface.same(&other.delivery_surface)
            && self.error.same(&other.error)
            && self.payload.same(&other.payload)
            && self.created_at.same(&other.created_at)
    }
}

/// The notification of the end of a run.
#[derive(Debug, Clone, PartialEq, Eq)]
pub struct TerminalNotice {
    pub run_id: String,
    pub terminal_status: String,
    pub transition_key: String,
    pub feedback: TerminalFeedback,
}

#[verifier::ext_equal]
pub struct TerminalNoticeModel {
    pub run_id: Seq<char>,
    pub terminal_status: Seq<char>,
    pub transition_key: Seq<char>,
    pub feedback: TerminalFeedbackModel,
}

impl DeepView for TerminalNotice {
    type V = TerminalNoticeModel;

    open spec fn deep_view(&self) -> TerminalNoticeModel {
        TerminalNoticeModel {
            run_id: self.run_id.deep_view(),
            terminal_status: self.terminal_status.deep_view(),
            transition_key: self.transition_key.deep_view(),
            feedback: self.feedback.deep_view(),
        }
    }
}

impl View for TerminalNotice {
    type V = TerminalNoticeModel;

    open spec fn view(&self) -> TerminalNoticeModel {
        self.deep_view()
    }
}

impl Row for TerminalNotice {
    fn dup(&self) -> (r: Self) {
        TerminalNotice {
            run_id: self.run_id.dup(),
            terminal_status: self.terminal_status.dup(),
            transition_key: self.transition_key.dup(),
            feedback: self.feedback.dup(),
        }
    }

    fn same(&self, other: &Self) -> (r: bool) {
        self.run_id.same(&other.run_id)
            && self.terminal_status.same(&other.terminal_status)
            && self.transition_key.same(&other.transition_key)
            && self.feedback.same(&other.feedback)
    }
}

/// How far the notification of an end has come.
#[derive(Debug, Clone, PartialEq, Eq)]
pub enum TerminalNoticeStage {
    LookingForRecord,
    ReadingOrigin { created_at: String },
    WritingSkipped,
    WritingUnreadable { error: String },
    WritingPending { origin: OriginTarget, created_at: String },
    Sending { origin: OriginTarget, created_at: String },
    WritingSent { adapter: String, surface: String, target_kind: String },
    WritingFailed { error: String },
    Finished,
}

#[verifier::ext_equal]
pub enum TerminalNoticeStageModel {
    LookingForRecord,
    ReadingOrigin { created_at: Seq<char> },
    WritingSkipped,
    WritingUnreadable { error: Seq<char> },
    WritingPending { origin: OriginTargetModel, created_at: Seq<char> },
    Sending { origin: OriginTargetModel, created_at: Seq<char> },
    WritingSent { adapter: Seq<char>, surface: Seq<char>, target_kind: Seq<char> },
    WritingFailed { error: Seq<char> },
    Finished,
}

impl DeepView for TerminalNoticeStage {
    type V = TerminalNoticeStageModel;

    open spec fn deep_view(&self) -> TerminalNoticeStageModel {
        match self {
            TerminalNoticeStage::LookingForRecord => TerminalNoticeStageModel::LookingForRecord,
            TerminalNoticeStage::ReadingOrigin { created_at } => TerminalNoticeStageModel::ReadingOrigin {
                created_at: created_at.deep_view(),
            },
            TerminalNoticeStage::WritingSkipped => TerminalNoticeStageModel::WritingSkipped,
            TerminalNoticeStage::WritingUnreadable { error } => TerminalNoticeStageModel::WritingUnreadable {
                error: error.deep_view(),
            },
            TerminalNoticeStage::WritingPending { origin, created_at } => TerminalNoticeStageModel::WritingPending {
                origin: origin.deep_view(),
                created_at: created_at.deep_view(),
            },
            TerminalNoticeStage::Sending { origin, created_at } => TerminalNoticeStageModel::Sending {
                origin: origin.deep_view(),
                created_at: created_at.deep_view(),
            },
            TerminalNoticeStage::WritingSent { adapter, surface, target_kind } => TerminalNoticeStageModel::WritingSent {
                adapter: adapter.deep_view(),
                surface: surface.deep_view(),
                target_kind: target_kind.deep_view(),
            },
            TerminalNoticeStage::WritingFailed { error } => TerminalNoticeStageModel::WritingFailed {
                error: error.deep_view(),
            },
            TerminalNoticeStage::Finished => TerminalNoticeStageModel::Finished,
        }
    }
}

impl View for TerminalNoticeStage {
    type V = TerminalNoticeStageModel;

    open spec fn view(&self) -> TerminalNoticeStageModel {
        self.deep_view()
    }
}

impl Row for TerminalNoticeStage {
    fn dup(&self) -> (r: Self) {
        match self {
            TerminalNoticeStage::LookingForRecord => TerminalNoticeStage::LookingForRecord,
            TerminalNoticeStage::ReadingOrigin { created_at } => TerminalNoticeStage::ReadingOrigin {
                created_at: created_at.dup(),
            },
            TerminalNoticeStage::WritingSkipped => TerminalNoticeStage::WritingSkipped,
            TerminalNoticeStage::WritingUnreadable { error } => TerminalNoticeStage::WritingUnreadable {
                error: error.dup(),
            },
            TerminalNoticeStage::WritingPending { origin, created_at } => TerminalNoticeStage::WritingPending {
                origin: origin.dup(),
                created_at: created_at.dup(),
            },
            TerminalNoticeStage::Sending { origin, created_at } => TerminalNoticeStage::Sending {
                origin: origin.dup(),
                created_at: created_at.dup(),
            },
            TerminalNoticeStage::WritingSent { adapter, surface, target_kind } => TerminalNoticeStage::WritingSent {
                adapter: adapter.dup(),
                surface: surface.dup(),
                target_kind: target_kind.dup(),
            },
            TerminalNoticeStage::WritingFailed { error } => TerminalNoticeStage::WritingFailed {
                error: error.dup(),
            },
            TerminalNoticeStage::Finished => TerminalNoticeStage::Finished,
        }
    }

    fn same(&self, other: &Self) -> (r: bool) {
        match (self, other) {
            (TerminalNoticeStage::LookingForRecord, TerminalNoticeStage::LookingForRecord) => true,
            (
                TerminalNoticeStage::ReadingOrigin { created_at },
                TerminalNoticeStage::ReadingOrigin { created_at: other_created_at },
            ) => created_at.same(other_created_at),
            (TerminalNoticeStage::WritingSkipped, TerminalNoticeStage::WritingSkipped) => true,
            (
                TerminalNoticeStage::WritingUnreadable { error },
                TerminalNoticeStage::WritingUnreadable { error: other_error },
            ) => error.same(other_error),
            (
                TerminalNoticeStage::WritingPending { origin, created_at },
                TerminalNoticeStage::WritingPending { origin: other_origin, created_at: other_created_at },
            ) => origin.same(other_origin) && created_at.same(other_created_at),
            (
                TerminalNoticeStage::Sending { origin, created_at },
                TerminalNoticeStage::Sending { origin: other_origin, created_at: other_created_at },
            ) => origin.same(other_origin) && created_at.same(other_created_at),
            (
                TerminalNoticeStage::WritingSent { adapter, surface, target_kind },
                TerminalNoticeStage::WritingSent { adapter: other_adapter, surface: other_surface, target_kind: other_target_kind },
            ) => adapter.same(other_adapter) && surface.same(other_surface) && target_kind.same(other_target_kind),
            (
                TerminalNoticeStage::WritingFailed { error },
                TerminalNoticeStage::WritingFailed { error: other_error },
            ) => error.same(other_error),
            (TerminalNoticeStage::Finished, TerminalNoticeStage::Finished) => true,
            _ => false,
        }
    }
}

/// What is to be done next.
#[derive(Debug, Clone, PartialEq, Eq)]
pub enum TerminalNoticeAction {
    LookForRecord(String),
    ReadOrigin,
    WriteRecord(TerminalNotificationRecord),
    Send { target: String, payload: TerminalFeedback },
    Stop,
}

#[verifier::ext_equal]
pub enum TerminalNoticeActionModel {
    LookForRecord(Seq<char>),
    ReadOrigin,
    WriteRecord(TerminalNotificationRecordModel),
    Send { target: Seq<char>, payload: TerminalFeedbackModel },
    Stop,
}

impl DeepView for TerminalNoticeAction {
    type V = TerminalNoticeActionModel;

    open spec fn deep_view(&self) -> TerminalNoticeActionModel {
        match self {
            TerminalNoticeAction::LookForRecord(value) => TerminalNoticeActionModel::LookForRecord(value.deep_view()),
            TerminalNoticeAction::ReadOrigin => TerminalNoticeActionModel::ReadOrigin,
            TerminalNoticeAction::WriteRecord(value) => TerminalNoticeActionModel::WriteRecord(value.deep_view()),
            TerminalNoticeAction::Send { target, payload } => TerminalNoticeActionModel::Send {
                target: target.deep_view(),
                payload: payload.deep_view(),
            },
            TerminalNoticeAction::Stop => TerminalNoticeActionModel::Stop,
        }
    }
}

impl View for TerminalNoticeAction {
    type V = TerminalNoticeActionModel;

    open spec fn view(&self) -> TerminalNoticeActionModel {
        self.deep_view()
    }
}

impl Row for TerminalNoticeAction {
    fn dup(&self) -> (r: Self) {
        match self {
            TerminalNoticeAction::LookForRecord(value) => TerminalNoticeAction::LookForRecord(value.dup()),
            TerminalNoticeAction::ReadOrigin => TerminalNoticeAction::ReadOrigin,
            TerminalNoticeAction::WriteRecord(value) => TerminalNoticeAction::WriteRecord(value.dup()),
            TerminalNoticeAction::Send { target, payload } => TerminalNoticeAction::Send {
                target: target.dup(),
                payload: payload.dup(),
            },
            TerminalNoticeAction::Stop => TerminalNoticeAction::Stop,
        }
    }

    fn same(&self, other: &Self) -> (r: bool) {
        match (self, other) {
            (TerminalNoticeAction::LookForRecord(a), TerminalNoticeAction::LookForRecord(b)) => a.same(b),
            (TerminalNoticeAction::ReadOrigin, TerminalNoticeAction::ReadOrigin) => true,
            (TerminalNoticeAction::WriteRecord(a), TerminalNoticeAction::WriteRecord(b)) => a.same(b),
            (
                TerminalNoticeAction::Send { target, payload },
                TerminalNoticeAction::Send { target: other_target, payload: other_payload },
            ) => target.same(other_target) && payload.same(other_payload),
            (TerminalNoticeAction::Stop, TerminalNoticeAction::Stop) => true,
            _ => false,
        }
    }
}

/// What an answer leads to.
#[derive(Debug, Clone, PartialEq, Eq)]
pub struct TerminalNoticeStep {
    pub stage: TerminalNoticeStage,
    pub notes: Vec<EventNote>,
    pub action: TerminalNoticeAction,
}

#[verifier::ext_equal]
pub struct TerminalNoticeStepModel {
    pub stage: TerminalNoticeStageModel,
    pub notes: Seq<EventNoteModel>,
    pub action: TerminalNoticeActionModel,
}

impl DeepView for TerminalNoticeStep {
    type V = TerminalNoticeStepModel;

    open spec fn deep_view(&self) -> TerminalNoticeStepModel {
        TerminalNoticeStepModel {
            stage: self.stage.deep_view(),
            notes: self.notes.deep_view(),
            action: self.action.deep_view(),
        }
    }
}

impl View for TerminalNoticeStep {
    type V = TerminalNoticeStepModel;

    open spec fn view(&self) -> TerminalNoticeStepModel {
        self.deep_view()
    }
}

impl Row for TerminalNoticeStep {
    fn dup(&self) -> (r: Self) {
        TerminalNoticeStep {
            stage: self.stage.dup(),
            notes: self.notes.dup(),
            action: self.action.dup(),
        }
    }

    fn same(&self, other: &Self) -> (r: bool) {
        self.stage.same(&other.stage)
            && self.notes.same(&other.notes)
            && self.action.same(&other.action)
    }
}

/// A worker pane that is to show how its slice ended.
#[derive(Debug, Clone, PartialEq, Eq)]
pub struct PaneRename {
    pub pane_id: String,
    pub slice_id: String,
    pub launch_id: Option<i64>,
    pub launch_stem: String,
    pub status: SliceStatus,
    pub label: String,
}

#[verifier::ext_equal]
pub struct PaneRenameModel {
    pub pane_id: Seq<char>,
    pub slice_id: Seq<char>,
    pub launch_id: Option<i64>,
    pub launch_stem: Seq<char>,
    pub status: SliceStatus,
    pub label: Seq<char>,
}

impl DeepView for PaneRename {
    type V = PaneRenameModel;

    open spec fn deep_view(&self) -> PaneRenameModel {
        PaneRenameModel {
            pane_id: self.pane_id.deep_view(),
            slice_id: self.slice_id.deep_view(),
            launch_id: self.launch_id.deep_view(),
            launch_stem: self.launch_stem.deep_view(),
            status: self.status.deep_view(),
            label: self.label.deep_view(),
        }
    }
}

impl View for PaneRename {
    type V = PaneRenameModel;

    open spec fn view(&self) -> PaneRenameModel {
        self.deep_view()
    }
}

impl Row for PaneRename {
    fn dup(&self) -> (r: Self) {
        PaneRename {
            pane_id: self.pane_id.dup(),
            slice_id: self.slice_id.dup(),
            launch_id: self.launch_id.dup(),
            launch_stem: self.launch_stem.dup(),
            status: self.status.dup(),
            label: self.label.dup(),
        }
    }

    fn same(&self, other: &Self) -> (r: bool) {
        self.pane_id.same(&other.pane_id)
            && self.slice_id.same(&other.slice_id)
            && self.launch_id.same(&other.launch_id)
            && self.launch_stem.same(&other.launch_stem)
            && self.status.same(&other.status)
            && self.label.same(&other.label)
    }
}

} // verus!
