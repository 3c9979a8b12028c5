//! Questions and proposals that wait for the operator. Each is told once: a record of it is kept
//! before anything is sent.
use super::types::{
    AttentionAction, AttentionActionModel, AttentionAnswer, AttentionAnswerModel,
    AttentionNotificationRecord, AttentionNotificationRecordModel, AttentionPayload,
    AttentionPayloadModel, AttentionRequest, AttentionRequestModel, AttentionStage,
    AttentionStageModel, AttentionStep, AttentionStepModel, DeliveryAnswer, DeliveryAnswerModel,
    EventNote, EventNoteModel, OriginAnswer, OriginAnswerModel, OriginTarget, OriginTargetModel,
    QuestionAttention, QuestionAttentionModel, ReplanAttention, ReplanAttentionModel, WriteAnswer,
    WriteAnswerModel,
};
use super::{noted, record_notes, ATTENTION_PAYLOAD_SCHEMA_VERSION};
use crate::domain::{ReplanProposal, ReplanProposalModel, WorkerQuestion, WorkerQuestionModel};
use crate::payloads::{
    AttentionDeliveryPayload, AttentionDeliveryPayloadModel, EventPayload, EventPayloadModel,
    ExtraValueModel, ReplanNotificationPayload, ReplanNotificationPayloadModel,
    RunIncidentPayload, RunIncidentPayloadModel,
};
use crate::store::replans::alphanumeric;
use crate::store::Store;
use crate::table::Row;
use crate::text::{blank, chars_of, is_blank};
use crate::time::Timestamp;
use vstd::prelude::*;
use vstd::string::*;

verus! {

pub open spec fn safe_char(c: char) -> char {
    if alphanumeric(c) || c == '-' || c == '_' || c == '.' {
        c
    } else {
        '_'
    }
}

/// A text as part of a file name: letters, digits and `-`, `_`, `.` stay, everything else becomes
/// an underscore.
pub open spec fn safe_segment(s: Seq<char>) -> Seq<char> {
    let safe = s.map_values(|c: char| safe_char(c));
    if forall|i: int| 0 <= i < safe.len() ==> #[trigger] safe[i] == '_' {
        "unknown"@
    } else {
        safe
    }
}

/// A text as a part of a file name.
pub fn origin_attention_safe_segment(value: &str) -> (r: String)
    ensures
        r@ == safe_segment(value@),
{
    let chars = chars_of(value);
    let ghost safe = value@.map_values(|c: char| safe_char(c));
    let mut r = String::new();
    let mut only_underscores = true;
    let mut i: usize = 0;
    while i < chars.len()
        invariant
            i <= chars.len(),
            chars@ == value@,
            safe == value@.map_values(|c: char| safe_char(c)),
            r@ == safe.take(i as int),
            only_underscores == forall|k: int| 0 <= k < i ==> #[trigger] safe[k] == '_',
        decreases chars.len() - i,
    {
        let c = chars[i];
        let kept = (c >= '0' && c <= '9') || (c >= 'A' && c <= 'Z') || (c >= 'a' && c <= 'z') || c
            == '-' || c == '_' || c == '.';
        let d = if kept {
            c
        } else {
            '_'
        };
        assert(safe[i as int] == d);
        r.push(d);
        assert(safe.take(i + 1) =~= safe.take(i as int).push(d));
        if d != '_' {
            only_underscores = false;
        }
        i = i + 1;
    }
    assert(safe.take(i as int) =~= safe);
    if only_underscores {
        "unknown".to_owned()
    } else {
        r
    }
}

/// The file that keeps the record of a call for attention.
pub open spec fn record_file(attention_key: Seq<char>) -> Seq<char> {
    "attention-"@ + safe_segment(attention_key) + ".json"@
}

/// The file that a call for attention is recorded in.
pub fn origin_attention_record_file(attention_key: &str) -> (r: String)
    ensures
        r@ == record_file(attention_key@),
{
    let mut r = "attention-".to_owned();
    let segment = origin_attention_safe_segment(attention_key);
    r.append(segment.as_str());
    r.append(".json");
    r
}

/// The commands that show what a run does.
pub open spec fn status_commands(run_id: Seq<char>) -> Seq<Seq<char>> {
    seq![
        "khazad-doom status --run "@ + run_id,
        "khazad-doom monitor --run "@ + run_id,
        "khazad-doom watch --run "@ + run_id,
    ]
}

/// The commands that show a run.
pub fn origin_attention_status_commands(run_id: &str) -> (r: Vec<String>)
    ensures
        r.deep_view() == status_commands(run_id@),
{
    let mut status = "khazad-doom status --run ".to_owned();
    status.append(run_id);
    let mut monitor = "khazad-doom monitor --run ".to_owned();
    monitor.append(run_id);
    let mut watch = "khazad-doom watch --run ".to_owned();
    watch.append(run_id);
    let mut r: Vec<String> = Vec::new();
    r.push(status);
    r.push(monitor);
    r.push(watch);
    assert(r.deep_view() =~= status_commands(run_id@));
    r
}

/// One list after the other.
fn chained(a: &Vec<String>, b: &Vec<String>) -> (r: Vec<String>)
    ensures
        r.deep_view() == a.deep_view() + b.deep_view(),
{
    let mut r = a.dup();
    let mut i: usize = 0;
    assert(a.deep_view() + b.deep_view().take(0) =~= a.deep_view());
    while i < b.len()
        invariant
            i <= b.len(),
            r.deep_view() == a.deep_view() + b.deep_view().take(i as int),
        decreases b.len() - i,
    {
        let ghost before = r.deep_view();
        let item = b[i].dup();
        r.push(item);
        assert(r.deep_view() =~= before.push(item@));
        assert(b.deep_view().take(i + 1) =~= b.deep_view().take(i as int).push(b@[i as int]@));
        i = i + 1;
        assert(r.deep_view() =~= a.deep_view() + b.deep_view().take(i as int));
    }
    assert(b.deep_view().take(i as int) =~= b.deep_view());
    r
}

/// The deadline of a question, as it is written.
pub open spec fn deadline_text(question: WorkerQuestionModel) -> Option<Seq<char>> {
    match question.deadline_at {
        Some(at) => Some(at.text()),
        None => None,
    }
}

/// The deadline of a question, as it is shown to the operator.
pub fn worker_question_deadline(question: &WorkerQuestion) -> (r: Option<String>)
    ensures
        r.deep_view() == deadline_text(question@),
{
    match question.deadline_at {
        Some(at) => Some(at.to_rfc3339()),
        None => None,
    }
}

pub open spec fn question_key(id: Seq<char>) -> Seq<char> {
    "worker-question:"@ + id
}

pub open spec fn proposal_key(id: Seq<char>) -> Seq<char> {
    "replan-proposal:"@ + id
}

pub open spec fn answer_command(question: WorkerQuestionModel) -> Seq<char> {
    "khazad-doom answer "@ + question.run_id + " "@ + question.id + " <answer>"@
}

/// What the operator is told of a question: how to answer it, and that nothing is decided for them.
pub open spec fn question_payload(question: WorkerQuestionModel) -> QuestionAttentionModel {
    QuestionAttentionModel {
        schema_version: ATTENTION_PAYLOAD_SCHEMA_VERSION,
        kind: "worker_question_pending"@,
        attention_key: question_key(question.id),
        run_id: question.run_id,
        slice_id: question.slice_id,
        attempt: question.attempt,
        question_id: question.id,
        reason: "Worker question "@ + question.id + " is awaiting an operator answer for slice "@
            + question.slice_id + "."@,
        question: question.question,
        options: question.options,
        timeout_seconds: question.timeout_seconds,
        deadline_at: deadline_text(question),
        recommended_answer: question.recommended_answer,
        recommendation_rationale: question.recommendation_rationale,
        bounded_within_current_slice_or_mission_authority: question.bounded_within_current_slice_or_mission_authority,
        reversible: question.reversible,
        fallback_eligible: question.fallback_eligible,
        answer_command: answer_command(question),
        answer_commands: seq![answer_command(question)],
        status_commands: status_commands(question.run_id),
        operator_commands: seq![answer_command(question)] + status_commands(question.run_id),
        source_of_truth: "daemon_worker_questions"@,
        delivery_semantics: "visibility_only_no_auto_decision"@,
    }
}

pub open spec fn question_request(question: WorkerQuestionModel) -> AttentionRequestModel {
    AttentionRequestModel {
        run_id: question.run_id,
        attention_key: question_key(question.id),
        attention_kind: "worker_question_pending"@,
        payload: AttentionPayloadModel::Question(question_payload(question)),
        source_of_truth: "daemon_worker_questions"@,
        question_id: question.id,
        slice_id: question.slice_id,
        proposal_id: ""@,
        delivery_message: "worker question notification was not delivered"@,
        focus_message: "worker question focus was not delivered"@,
    }
}

fn question_attention(question: &WorkerQuestion) -> (r: AttentionRequest)
    ensures
        r@ == question_request(question@),
{
    let mut attention_key = "worker-question:".to_owned();
    attention_key.append(question.id.as_str());
    let mut command = "khazad-doom answer ".to_owned();
    command.append(question.run_id.as_str());
    command.append(" ");
    command.append(question.id.as_str());
    command.append(" <answer>");
    let mut reason = "Worker question ".to_owned();
    reason.append(question.id.as_str());
    reason.append(" is awaiting an operator answer for slice ");
    reason.append(question.slice_id.as_str());
    reason.append(".");
    let mut answer_commands: Vec<String> = Vec::new();
    answer_commands.push(command.dup());
    assert(answer_commands.deep_view() =~= seq![answer_command(question@)]);
    let status_commands = origin_attention_status_commands(question.run_id.as_str());
    let operator_commands = chained(&answer_commands, &status_commands);
    let payload = QuestionAttention {
        schema_version: ATTENTION_PAYLOAD_SCHEMA_VERSION,
        kind: "worker_question_pending".to_owned(),
        attention_key: attention_key.dup(),
        run_id: question.run_id.dup(),
        slice_id: question.slice_id.dup(),
        attempt: question.attempt,
        question_id: question.id.dup(),
        reason,
        question: question.question.dup(),
        options: question.options.dup(),
        timeout_seconds: question.timeout_seconds,
        deadline_at: worker_question_deadline(question),
        recommended_answer: question.recommended_answer.dup(),
        recommendation_rationale: question.recommendation_rationale.dup(),
        bounded_within_current_slice_or_mission_authority: question.bounded_within_current_slice_or_mission_authority,
        reversible: question.reversible,
        fallback_eligible: question.fallback_eligible,
        answer_command: command,
        answer_commands,
        status_commands,
        operator_commands,
        source_of_truth: "daemon_worker_questions".to_owned(),
        delivery_semantics: "visibility_only_no_auto_decision".to_owned(),
    };
    AttentionRequest {
        run_id: question.run_id.dup(),
        attention_key,
        attention_kind: "worker_question_pending".to_owned(),
        payload: AttentionPayload::Question(payload),
        source_of_truth: "daemon_worker_questions".to_owned(),
        question_id: question.id.dup(),
        slice_id: question.slice_id.dup(),
        proposal_id: "".to_owned(),
        delivery_message: "worker question notification was not delivered".to_owned(),
        focus_message: "worker question focus was not delivered".to_owned(),
    }
}

impl ReplanNotificationPayload {
    pub fn new(
        run_id: &str,
        proposal_id: &str,
        source: &crate::domain::ReplanProposalSource,
        risk: &str,
        proposed_changes: &Vec<crate::domain::ReplanProposedChange>,
        decision_commands: &Vec<String>,
    ) -> (r: ReplanNotificationPayload)
        ensures
            r@ == (ReplanNotificationPayloadModel {
                schema_version: 1,
                kind: "replan_decision_pending"@,
                run_id: run_id@,
                proposal_id: proposal_id@,
                source: source@,
                risk: risk@,
                proposed_changes: proposed_changes.deep_view(),
                decision_commands: decision_commands.deep_view(),
                source_of_truth: "daemon_replan_proposals"@,
            }),
    {
        ReplanNotificationPayload {
            schema_version: 1,
            kind: "replan_decision_pending".to_owned(),
            run_id: run_id.to_owned(),
            proposal_id: proposal_id.to_owned(),
            source: source.dup(),
            risk: risk.to_owned(),
            proposed_changes: proposed_changes.dup(),
            decision_commands: decision_commands.dup(),
            source_of_truth: "daemon_replan_proposals".to_owned(),
        }
    }
}

/// What the operator is told of a proposal: how to decide it, and that nothing is decided for them.
pub open spec fn replan_payload(
    run_id: Seq<char>,
    proposal: ReplanProposalModel,
    decision_commands: Seq<Seq<char>>,
) -> ReplanAttentionModel {
    ReplanAttentionModel {
        notification: ReplanNotificationPayloadModel {
            schema_version: 1,
            kind: "replan_decision_pending"@,
            run_id,
            proposal_id: proposal.id,
            source: proposal.source,
            risk: proposal.risk,
            proposed_changes: proposal.proposed_changes,
            decision_commands,
            source_of_truth: "daemon_replan_proposals"@,
        },
        attention_key: proposal_key(proposal.id),
        reason: "Replan proposal "@ + proposal.id + " is pending an operator decision."@,
        status_commands: status_commands(run_id),
        operator_commands: decision_commands + status_commands(run_id),
        delivery_semantics: "visibility_only_no_auto_decision"@,
    }
}

pub open spec fn replan_request(
    run_id: Seq<char>,
    proposal: ReplanProposalModel,
    decision_commands: Seq<Seq<char>>,
) -> AttentionRequestModel {
    AttentionRequestModel {
        run_id,
        attention_key: proposal_key(proposal.id),
        attention_kind: "replan_decision_pending"@,
        payload: AttentionPayloadModel::Replan(replan_payload(run_id, proposal, decision_commands)),
        source_of_truth: "daemon_replan_proposals"@,
        question_id: ""@,
        slice_id: ""@,
        proposal_id: proposal.id,
        delivery_message: "replan proposal notification was not delivered"@,
        focus_message: "replan proposal focus was not delivered"@,
    }
}

fn replan_attention(run_id: &str, proposal: &ReplanProposal, decision_commands: &Vec<String>) -> (r:
    AttentionRequest)
    ensures
        r@ == replan_request(run_id@, proposal@, decision_commands.deep_view()),
{
    let mut attention_key = "replan-proposal:".to_owned();
    attention_key.append(proposal.id.as_str());
    let mut reason = "Replan proposal ".to_owned();
    reason.append(proposal.id.as_str());
    reason.append(" is pending an operator decision.");
    let status_commands = origin_attention_status_commands(run_id);
    let operator_commands = chained(decision_commands, &status_commands);
    let payload = ReplanAttention {
        notification: ReplanNotificationPayload::new(
            run_id,
            proposal.id.as_str(),
            &proposal.source,
            proposal.risk.as_str(),
            &proposal.proposed_changes,
            decision_commands,
        ),
        attention_key: attention_key.dup(),
        reason,
        status_commands,
        operator_commands,
        delivery_semantics: "visibility_only_no_auto_decision".to_owned(),
    };
    AttentionRequest {
        run_id: run_id.to_owned(),
        attention_key,
        attention_kind: "replan_decision_pending".to_owned(),
        payload: AttentionPayload::Replan(payload),
        source_of_truth: "daemon_replan_proposals".to_owned(),
        question_id: "".to_owned(),
        slice_id: "".to_owned(),
        proposal_id: proposal.id.dup(),
        delivery_message: "replan proposal notification was not delivered".to_owned(),
        focus_message: "replan proposal focus was not delivered".to_owned(),
    }
}

impl AttentionRequestModel {
    /// The incident that is left when the operator could not be told.
    pub open spec fn failure(
        self,
        kind: Seq<char>,
        visibility_kind: Seq<char>,
        message: Seq<char>,
    ) -> RunIncidentPayloadModel {
        let basic = RunIncidentPayloadModel::warning(kind, message).with_extra(
            "visibility_kind"@,
            ExtraValueModel::Text(visibility_kind),
        ).with_extra("attention_key"@, ExtraValueModel::Text(self.attention_key)).with_extra(
            "attention_kind"@,
            ExtraValueModel::Text(self.attention_kind),
        ).with_extra("source_of_truth"@, ExtraValueModel::Text(self.source_of_truth));
        let asked = if blank(self.question_id) {
            basic
        } else {
            basic.with_extra("question_id"@, ExtraValueModel::Text(self.question_id))
        };
        let sliced = if blank(self.slice_id) {
            asked
        } else {
            asked.with_extra("slice_id"@, ExtraValueModel::Text(self.slice_id))
        };
        if blank(self.proposal_id) {
            sliced
        } else {
            sliced.with_extra("proposal_id"@, ExtraValueModel::Text(self.proposal_id))
        }
    }

    pub open spec fn failure_note(
        self,
        kind: Seq<char>,
        visibility_kind: Seq<char>,
        message: Seq<char>,
    ) -> EventNoteModel {
        EventNoteModel {
            typ: "run_incident"@,
            payload: EventPayloadModel::RunIncident(self.failure(kind, visibility_kind, message)),
        }
    }

    pub open spec fn delivery_note(
        self,
        typ: Seq<char>,
        adapter: Seq<char>,
        surface: Seq<char>,
        target_kind: Seq<char>,
    ) -> EventNoteModel {
        EventNoteModel {
            typ,
            payload: EventPayloadModel::AttentionDelivery(
                AttentionDeliveryPayloadModel {
                    kind: self.attention_kind,
                    question_id: self.question_id,
                    slice_id: self.slice_id,
                    proposal_id: self.proposal_id,
                    adapter,
                    surface,
                    target_kind,
                },
            ),
        }
    }

    pub open spec fn record(
        self,
        origin: OriginTargetModel,
        delivery_status: Seq<char>,
        send_status: Seq<char>,
        focus_status: Seq<char>,
        error: Seq<char>,
        created_at: Seq<char>,
    ) -> AttentionActionModel {
        AttentionActionModel::WriteRecord {
            file: record_file(self.attention_key),
            record: AttentionNotificationRecordModel {
                schema_version: ATTENTION_PAYLOAD_SCHEMA_VERSION,
                run_id: self.run_id,
                attention_key: self.attention_key,
                attention_kind: self.attention_kind,
                delivery_status,
                send_status,
                focus_status,
                question_id: self.question_id,
                slice_id: self.slice_id,
                proposal_id: self.proposal_id,
                origin_target: origin.target,
                delivery_adapter: "herdr"@,
                delivery_surface: "agent_send"@,
                error,
                payload: self.payload,
                created_at,
            },
        }
    }

    pub open spec fn record_failure(self, error: Seq<char>) -> EventNoteModel {
        self.failure_note(
            "attention_notification_record_failed"@,
            "record_write_failed"@,
            "attention notification record for "@ + self.attention_key + " was not written: "@
                + error,
        )
    }

    /// How an answer moves a call for attention on. An answer that was not asked for ends it.
    pub open spec fn next(
        self,
        stage: AttentionStageModel,
        answer: AttentionAnswerModel,
        now: Timestamp,
    ) -> AttentionStepModel {
        let stop = AttentionStepModel {
            stage: AttentionStageModel::Finished,
            notes: Seq::empty(),
            action: AttentionActionModel::Stop,
        };
        match (stage, answer) {
            (
                AttentionStageModel::LookingForRecord,
                AttentionAnswerModel::RecordExists(known),
            ) => if known {
                stop
            } else {
                AttentionStepModel {
                    stage: AttentionStageModel::ReadingOrigin,
                    notes: Seq::empty(),
                    action: AttentionActionModel::ReadOrigin,
                }
            },
            (
                AttentionStageModel::ReadingOrigin,
                AttentionAnswerModel::Origin(found),
            ) => match found {
                OriginAnswerModel::Found(origin) => if blank(origin.target) {
                    stop
                } else {
                    AttentionStepModel {
                        stage: AttentionStageModel::WritingPending {
                            origin,
                            created_at: now.text(),
                        },
                        notes: Seq::empty(),
                        action: self.record(
                            origin,
                            "pending"@,
                            "pending"@,
                            "pending"@,
                            ""@,
                            now.text(),
                        ),
                    }
                },
                OriginAnswerModel::Missing => stop,
                OriginAnswerModel::Failed(error) => AttentionStepModel {
                    notes: seq![
                        self.failure_note(
                            "attention_notification_failed"@,
                            "origin_target_read_failed"@,
                            self.delivery_message + ": origin target read failed: "@ + error,
                        ),
                    ],
                    ..stop
                },
            },
            (
                AttentionStageModel::WritingPending { origin, created_at },
                AttentionAnswerModel::Record(written),
            ) => match written {
                WriteAnswerModel::Written => AttentionStepModel {
                    stage: AttentionStageModel::Sending { origin, created_at },
                    notes: Seq::empty(),
                    action: AttentionActionModel::Send {
                        target: origin.target,
                        payload: self.payload,
                    },
                },
                WriteAnswerModel::Failed(error) => AttentionStepModel {
                    notes: seq![self.record_failure(error)],
                    ..stop
                },
            },
            (
                AttentionStageModel::Sending { origin, created_at },
                AttentionAnswerModel::Delivery(sent),
            ) => match sent {
                DeliveryAnswerModel::Delivered { adapter, surface } => AttentionStepModel {
                    stage: AttentionStageModel::Focusing { origin, created_at, send_error: None },
                    notes: seq![
                        self.delivery_note(
                            "attention_notification_sent"@,
                            adapter,
                            surface,
                            origin.target_kind,
                        ),
                    ],
                    action: AttentionActionModel::Focus(origin.target),
                },
                DeliveryAnswerModel::Failed(error) => AttentionStepModel {
                    stage: AttentionStageModel::Focusing {
                        origin,
                        created_at,
                        send_error: Some(error),
                    },
                    notes: seq![
                        self.failure_note(
                            "attention_notification_failed"@,
                            "delivery_failed"@,
                            self.delivery_message + ": "@ + error,
                        ),
                    ],
                    action: AttentionActionModel::Focus(origin.target),
                },
            },
            (
                AttentionStageModel::Focusing { origin, created_at, send_error },
                AttentionAnswerModel::Delivery(focused),
            ) => match focused {
                DeliveryAnswerModel::Delivered { adapter, surface } => AttentionStepModel {
                    stage: AttentionStageModel::WritingOutcome,
                    notes: seq![
                        self.delivery_note(
                            "attention_focus_sent"@,
                            adapter,
                            surface,
                            origin.target_kind,
                        ),
                    ],
                    action: self.outcome(origin, send_error, None, created_at),
                },
                DeliveryAnswerModel::Failed(error) => AttentionStepModel {
                    stage: AttentionStageModel::WritingOutcome,
                    notes: seq![
                        self.failure_note(
                            "attention_focus_failed"@,
                            "focus_failed"@,
                            self.focus_message + ": "@ + error,
                        ),
                    ],
                    action: self.outcome(origin, send_error, Some(error), created_at),
                },
            },
            (
                AttentionStageModel::WritingOutcome,
                AttentionAnswerModel::Record(written),
            ) => match written {
                WriteAnswerModel::Written => stop,
                WriteAnswerModel::Failed(error) => AttentionStepModel {
                    notes: seq![self.record_failure(error)],
                    ..stop
                },
            },
            _ => stop,
        }
    }

    /// The record of how the message and the focus went.
    pub open spec fn outcome(
        self,
        origin: OriginTargetModel,
        send_error: Option<Seq<char>>,
        focus_error: Option<Seq<char>>,
        created_at: Seq<char>,
    ) -> AttentionActionModel {
        let delivery_status = match (send_error, focus_error) {
            (None, None) => "sent"@,
            (Some(_), Some(_)) => "failed"@,
            _ => "partial"@,
        };
        let error = match (send_error, focus_error) {
            (None, None) => ""@,
            (Some(send), None) => "send: "@ + send,
            (None, Some(focus)) => "focus: "@ + focus,
            (Some(send), Some(focus)) => "send: "@ + send + "; "@ + "focus: "@ + focus,
        };
        self.record(
            origin,
            delivery_status,
            if send_error is None {
                "sent"@
            } else {
                "failed"@
            },
            if focus_error is None {
                "sent"@
            } else {
                "failed"@
            },
            error,
            created_at,
        )
    }
}

/// A call for attention under way.
#[derive(Debug)]
pub struct AttentionDelivery {
    request: AttentionRequest,
    stage: AttentionStage,
}

impl AttentionDelivery {
    pub closed spec fn request(&self) -> AttentionRequestModel {
        self.request@
    }

    pub closed spec fn stage(&self) -> AttentionStageModel {
        self.stage@
    }

    /// Begins to tell the operator of a question. A question of an unknown run is not told.
    pub fn for_question(store: &Store, question: &WorkerQuestion) -> (r: Option<
        (AttentionDelivery, AttentionAction),
    >)
        ensures
            match r {
                Some((delivery, action)) => store@.run_row(question@.run_id) is Some
                    && delivery.request() == question_request(question@) && delivery.stage()
                    == AttentionStageModel::LookingForRecord && action@
                    == AttentionActionModel::LookForRecord(record_file(question_key(question@.id))),
                None => store@.run_row(question@.run_id) is None,
            },
    {
        match store.get_run(question.run_id.as_str()) {
            Ok(Some(_)) => {
                let request = question_attention(question);
                let action = AttentionAction::LookForRecord(
                    origin_attention_record_file(request.attention_key.as_str()),
                );
                Some((AttentionDelivery { request, stage: AttentionStage::LookingForRecord }, action))
            },
            _ => None,
        }
    }

    /// Begins to tell the operator of a proposal.
    pub fn for_proposal(
        run_id: &str,
        proposal: &ReplanProposal,
        decision_commands: &Vec<String>,
    ) -> (r: (AttentionDelivery, AttentionAction))
        ensures
            r.0.request() == replan_request(run_id@, proposal@, decision_commands.deep_view()),
            r.0.stage() == AttentionStageModel::LookingForRecord,
            r.1@ == AttentionActionModel::LookForRecord(record_file(proposal_key(proposal@.id))),
    {
        let request = replan_attention(run_id, proposal, decision_commands);
        let action = AttentionAction::LookForRecord(
            origin_attention_record_file(request.attention_key.as_str()),
        );
        (AttentionDelivery { request, stage: AttentionStage::LookingForRecord }, action)
    }

    /// Moves on by the answer to the last action, and records the events that it leads to.
    pub fn answer(&mut self, store: &mut Store, answer: &AttentionAnswer, now: Timestamp) -> (r:
        AttentionAction)
        requires
            old(store)@.valid(),
            now.writable(),
        ensures
            final(store)@.valid(),
            old(store)@.one_active_run() ==> final(store)@.one_active_run(),
            final(self).request() == old(self).request(),
            ({
                let step = old(self).request().next(old(self).stage(), answer@, now);
                &&& final(self).stage() == step.stage
                &&& r@ == step.action
                &&& final(store)@ == noted(
                    old(store)@,
                    old(self).request().run_id,
                    step.notes,
                    now,
                )
            }),
    {
        let step = attention_step(&self.request, &self.stage, answer, now);
        record_notes(store, self.request.run_id.as_str(), &step.notes, now);
        self.stage = step.stage;
        step.action
    }
}

fn failure_payload(
    request: &AttentionRequest,
    kind: &str,
    visibility_kind: &str,
    message: &str,
) -> (r: RunIncidentPayload)
    ensures
        r@ == request@.failure(kind@, visibility_kind@, message@),
{
    let mut payload = RunIncidentPayload::warning(kind, message).with_text(
        "visibility_kind",
        visibility_kind,
    ).with_text("attention_key", request.attention_key.as_str()).with_text(
        "attention_kind",
        request.attention_kind.as_str(),
    ).with_text("source_of_truth", request.source_of_truth.as_str());
    if !is_blank(request.question_id.as_str()) {
        payload = payload.with_text("question_id", request.question_id.as_str());
    }
    if !is_blank(request.slice_id.as_str()) {
        payload = payload.with_text("slice_id", request.slice_id.as_str());
    }
    if !is_blank(request.proposal_id.as_str()) {
        payload = payload.with_text("proposal_id", request.proposal_id.as_str());
    }
    payload
}

fn failure_notes(request: &AttentionRequest, kind: &str, visibility_kind: &str, message: &str) -> (r:
    Vec<EventNote>)
    ensures
        r.deep_view() == seq![request@.failure_note(kind@, visibility_kind@, message@)],
{
    let mut notes: Vec<EventNote> = Vec::new();
    let note = EventNote {
        typ: "run_incident".to_owned(),
        payload: EventPayload::RunIncident(
            failure_payload(request, kind, visibility_kind, message),
        ),
    };
    notes.push(note);
    assert(notes.deep_view() =~= seq![note@]);
    notes
}

fn record_failure_notes(request: &AttentionRequest, error: &str) -> (r: Vec<EventNote>)
    ensures
        r.deep_view() == seq![request@.record_failure(error@)],
{
    let mut message = "attention notification record for ".to_owned();
    message.append(request.attention_key.as_str());
    message.append(" was not written: ");
    message.append(error);
    failure_notes(
        request,
        "attention_notification_record_failed",
        "record_write_failed",
        message.as_str(),
    )
}

fn delivery_payload(
    request: &AttentionRequest,
    adapter: &str,
    surface: &str,
    target_kind: &str,
) -> (r: AttentionDeliveryPayload)
    ensures
        r@ == (AttentionDeliveryPayloadModel {
            kind: request@.attention_kind,
            question_id: request@.question_id,
            slice_id: request@.slice_id,
            proposal_id: request@.proposal_id,
            adapter: adapter@,
            surface: surface@,
            target_kind: target_kind@,
        }),
{
    AttentionDeliveryPayload {
        kind: request.attention_kind.dup(),
        question_id: request.question_id.dup(),
        slice_id: request.slice_id.dup(),
        proposal_id: request.proposal_id.dup(),
        adapter: adapter.to_owned(),
        surface: surface.to_owned(),
        target_kind: target_kind.to_owned(),
    }
}

fn write_record(
    request: &AttentionRequest,
    origin: &OriginTarget,
    delivery_status: &str,
    send_status: &str,
    focus_status: &str,
    error: &str,
    created_at: &str,
) -> (r: AttentionAction)
    ensures
        r@ == request@.record(
            origin@,
            delivery_status@,
            send_status@,
            focus_status@,
            error@,
            created_at@,
        ),
{
    AttentionAction::WriteRecord {
        file: origin_attention_record_file(request.attention_key.as_str()),
        record: AttentionNotificationRecord {
            schema_version: ATTENTION_PAYLOAD_SCHEMA_VERSION,
            run_id: request.run_id.dup(),
            attention_key: request.attention_key.dup(),
            attention_kind: request.attention_kind.dup(),
            delivery_status: delivery_status.to_owned(),
            send_status: send_status.to_owned(),
            focus_status: focus_status.to_owned(),
            question_id: request.question_id.dup(),
            slice_id: request.slice_id.dup(),
            proposal_id: request.proposal_id.dup(),
            origin_target: origin.target.dup(),
            delivery_adapter: "herdr".to_owned(),
            delivery_surface: "agent_send".to_owned(),
            error: error.to_owned(),
            payload: request.payload.dup(),
            created_at: created_at.to_owned(),
        },
    }
}

fn write_outcome(
    request: &AttentionRequest,
    origin: &OriginTarget,
    send_error: &Option<String>,
    focus_error: &Option<String>,
    created_at: &str,
) -> (r: AttentionAction)
    ensures
        r@ == request@.outcome(
            origin@,
            send_error.deep_view(),
            focus_error.deep_view(),
            created_at@,
        ),
{
    let delivery_status = match (send_error, focus_error) {
        (None, None) => "sent",
        (Some(_), Some(_)) => "failed",
        _ => "partial",
    };
    let send_status = if send_error.is_none() {
        "sent"
    } else {
        "failed"
    };
    let focus_status = if focus_error.is_none() {
        "sent"
    } else {
        "failed"
    };
    let error = match (send_error, focus_error) {
        (None, None) => "".to_owned(),
        (Some(send), None) => {
            let mut text = "send: ".to_owned();
            text.append(send.as_str());
            text
        },
        (None, Some(focus)) => {
            let mut text = "focus: ".to_owned();
            text.append(focus.as_str());
            text
        },
        (Some(send), Some(focus)) => {
            let mut text = "send: ".to_owned();
            text.append(send.as_str());
            text.append("; ");
            text.append("focus: ");
            text.append(focus.as_str());
            text
        },
    };
    write_record(
        request,
        origin,
        delivery_status,
        send_status,
        focus_status,
        error.as_str(),
        created_at,
    )
}

fn attention_step(
    request: &AttentionRequest,
    stage: &AttentionStage,
    answer: &AttentionAnswer,
    now: Timestamp,
) -> (r: AttentionStep)
    ensures
        r@ == request@.next(stage@, answer@, now),
{
    let none: Vec<EventNote> = Vec::new();
    assert(none.deep_view() =~= Seq::empty());
    match (stage, answer) {
        (AttentionStage::LookingForRecord, AttentionAnswer::RecordExists(known)) => {
            if *known {
                AttentionStep {
                    stage: AttentionStage::Finished,
                    notes: none,
                    action: AttentionAction::Stop,
                }
            } else {
                AttentionStep {
                    stage: AttentionStage::ReadingOrigin,
                    notes: none,
                    action: AttentionAction::ReadOrigin,
                }
            }
        },
        (AttentionStage::ReadingOrigin, AttentionAnswer::Origin(found)) => match found {
            OriginAnswer::Found(origin) => {
                if is_blank(origin.target.as_str()) {
                    AttentionStep {
                        stage: AttentionStage::Finished,
                        notes: none,
                        action: AttentionAction::Stop,
                    }
                } else {
                    let created_at = now.to_rfc3339();
                    let action = write_record(
                        request,
                        origin,
                        "pending",
                        "pending",
                        "pending",
                        "",
                        created_at.as_str(),
                    );
                    AttentionStep {
                        stage: AttentionStage::WritingPending { origin: origin.dup(), created_at },
                        notes: none,
                        action,
                    }
                }
            },
            OriginAnswer::Missing => AttentionStep {
                stage: AttentionStage::Finished,
                notes: none,
                action: AttentionAction::Stop,
            },
            OriginAnswer::Failed(error) => {
                let mut message = request.delivery_message.dup();
                message.append(": origin target read failed: ");
                message.append(error.as_str());
                AttentionStep {
                    stage: AttentionStage::Finished,
                    notes: failure_notes(
                        request,
                        "attention_notification_failed",
                        "origin_target_read_failed",
                        message.as_str(),
                    ),
                    action: AttentionAction::Stop,
                }
            },
        },
        (
            AttentionStage::WritingPending { origin, created_at },
            AttentionAnswer::Record(written),
        ) => match written {
            WriteAnswer::Written => AttentionStep {
                stage: AttentionStage::Sending {
                    origin: origin.dup(),
                    created_at: created_at.dup(),
                },
                notes: none,
                action: AttentionAction::Send {
                    target: origin.target.dup(),
                    payload: request.payload.dup(),
                },
            },
            WriteAnswer::Failed(error) => AttentionStep {
                stage: AttentionStage::Finished,
                notes: record_failure_notes(request, error.as_str()),
                action: AttentionAction::Stop,
            },
        },
        (AttentionStage::Sending { origin, created_at }, AttentionAnswer::Delivery(sent)) => {
            match sent {
                DeliveryAnswer::Delivered { adapter, surface } => {
                    let note = EventNote {
                        typ: "attention_notification_sent".to_owned(),
                        payload: EventPayload::AttentionDelivery(
                            delivery_payload(
                                request,
                                adapter.as_str(),
                                surface.as_str(),
                                origin.target_kind.as_str(),
                            ),
                        ),
                    };
                    let mut notes: Vec<EventNote> = Vec::new();
                    notes.push(note);
                    assert(notes.deep_view() =~= seq![note@]);
                    AttentionStep {
                        stage: AttentionStage::Focusing {
                            origin: origin.dup(),
                            created_at: created_at.dup(),
                            send_error: None,
                        },
                        notes,
                        action: AttentionAction::Focus(origin.target.dup()),
                    }
                },
                DeliveryAnswer::Failed(error) => {
                    let mut message = request.delivery_message.dup();
                    message.append(": ");
                    message.append(error.as_str());
                    AttentionStep {
                        stage: AttentionStage::Focusing {
                            origin: origin.dup(),
                            created_at: created_at.dup(),
                            send_error: Some(error.dup()),
                        },
                        notes: failure_notes(
                            request,
                            "attention_notification_failed",
                            "delivery_failed",
                            message.as_str(),
                        ),
                        action: AttentionAction::Focus(origin.target.dup()),
                    }
                },
            }
        },
        (
            AttentionStage::Focusing { origin, created_at, send_error },
            AttentionAnswer::Delivery(focused),
        ) => match focused {
            DeliveryAnswer::Delivered { adapter, surface } => {
                let note = EventNote {
                    typ: "attention_focus_sent".to_owned(),
                    payload: EventPayload::AttentionDelivery(
                        delivery_payload(
                            request,
                            adapter.as_str(),
                            surface.as_str(),
                            origin.target_kind.as_str(),
                        ),
                    ),
                };
                let mut notes: Vec<EventNote> = Vec::new();
                notes.push(note);
                assert(notes.deep_view() =~= seq![note@]);
                let focus_error: Option<String> = None;
                AttentionStep {
                    stage: AttentionStage::WritingOutcome,
                    notes,
                    action: write_outcome(
                        request,
                        origin,
                        send_error,
                        &focus_error,
                        created_at.as_str(),
                    ),
                }
            },
            DeliveryAnswer::Failed(error) => {
                let mut message = request.focus_message.dup();
                message.append(": ");
                message.append(error.as_str());
                let focus_error = Some(error.dup());
                AttentionStep {
                    stage: AttentionStage::WritingOutcome,
                    notes: failure_notes(
                        request,
                        "attention_focus_failed",
                        "focus_failed",
                        message.as_str(),
                    ),
                    action: write_outcome(
                        request,
                        origin,
                        send_error,
                        &focus_error,
                        created_at.as_str(),
                    ),
                }
            },
        },
        (AttentionStage::WritingOutcome, AttentionAnswer::Record(written)) => match written {
            WriteAnswer::Written => AttentionStep {
                stage: AttentionStage::Finished,
                notes: none,
                action: AttentionAction::Stop,
            },
            WriteAnswer::Failed(error) => AttentionStep {
                stage: AttentionStage::Finished,
                notes: record_failure_notes(request, error.as_str()),
                action: AttentionAction::Stop,
            },
        },
        _ => AttentionStep {
            stage: AttentionStage::Finished,
            notes: none,
            action: AttentionAction::Stop,
        },
    }
}

/// The operator is called once: a call that is on record stops at once and notes nothing, and nothing
/// is sent before the call is on record.
pub proof fn law_attention_is_called_once(
    request: AttentionRequestModel,
    stage: AttentionStageModel,
    answer: AttentionAnswerModel,
    now: Timestamp,
)
    ensures
        stage is LookingForRecord && answer == AttentionAnswerModel::RecordExists(true) ==> {
            let step = request.next(stage, answer, now);
            step.action is Stop && step.notes.len() == 0 && step.stage is Finished
        },
        request.next(stage, answer, now).action is Send ==> stage is WritingPending && answer
            == AttentionAnswerModel::Record(WriteAnswerModel::Written),
        stage is Finished ==> request.next(stage, answer, now).action is Stop,
{
}

} // verus!
