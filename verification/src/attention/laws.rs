//! What an operator is told and when, whatever the world answers on the way.
use super::noted;
use super::origin::{
    answer_command, question_request, record_file, replan_request, safe_segment, status_commands,
};
use super::terminal::{
    feedback, feedback_supported, pane_label, pane_renames, rename_note, renames_pane, slice_marker,
    slice_status, transition_key,
};
use super::types::{
    AttentionActionModel, AttentionAnswerModel, AttentionNotificationRecordModel,
    AttentionPayloadModel, AttentionRequestModel, AttentionStageModel, DeliveryAnswerModel,
    EventNoteModel, OriginAnswerModel, OriginTargetModel, PaneRenameModel,
    TerminalNoticeActionModel, TerminalNoticeModel, TerminalNoticeStageModel,
    TerminalNotificationRecordModel, WriteAnswerModel,
};
use crate::domain::{
    ReplanProposalModel, RunModel, RunProgressModel, RunStatus, SliceRunModel, SliceStatus,
    WorkerQuestionModel,
};
use crate::events::ready_of;
use crate::incidents::{law_field_is_set, with_field};
use crate::json::{member, text_in};
use crate::payloads::{
    AttentionDeliveryPayloadModel, CockpitWorkerRenamedPayloadModel, EventModel, EventPayloadModel,
    ExtraFieldModel, ExtraValueModel, RunIncidentPayloadModel, TerminalNotificationPayloadModel,
};
use crate::rows::TablesModel;
use crate::text::{blank, decimal_int};
use crate::time::Timestamp;
use vstd::prelude::*;

verus! {

/// Events that are noted are recorded one by one, in their order and under the next numbers, where
/// the log has room for them, and nothing else changes.
pub proof fn law_notes_are_recorded(
    tables: TablesModel,
    run_id: Seq<char>,
    notes: Seq<EventNoteModel>,
    now: Timestamp,
)
    requires
        tables.last_event_id + notes.len() <= i64::MAX,
    ensures
        ({
            let after = noted(tables, run_id, notes, now);
            let n = tables.events.len() as int;
            &&& after.events.len() == n + notes.len()
            &&& after.last_event_id == tables.last_event_id + notes.len()
            &&& forall|i: int| 0 <= i < n ==> #[trigger] after.events[i] == tables.events[i]
            &&& forall|i: int|
                n <= i < n + notes.len() ==> #[trigger] after.events[i] == (EventModel {
                    id: (tables.last_event_id + 1 + (i - n)) as i64,
                    run_id,
                    typ: notes[i - n].typ,
                    payload: notes[i - n].payload,
                    created_at: now,
                })
            &&& after == TablesModel {
                events: after.events,
                last_event_id: after.last_event_id,
                ..tables
            }
        }),
    decreases notes.len(),
{
    if notes.len() > 0 {
        law_notes_are_recorded(tables, run_id, notes.drop_last(), now);
    }
}

/// The record of a call.
pub open spec fn call_record(
    request: AttentionRequestModel,
    origin: OriginTargetModel,
    delivery_status: Seq<char>,
    send_status: Seq<char>,
    focus_status: Seq<char>,
    error: Seq<char>,
    created_at: Seq<char>,
) -> AttentionActionModel {
    AttentionActionModel::WriteRecord {
        file: "attention-"@ + safe_segment(request.attention_key) + ".json"@,
        record: AttentionNotificationRecordModel {
            schema_version: 1,
            run_id: request.run_id,
            attention_key: request.attention_key,
            attention_kind: request.attention_kind,
            delivery_status,
            send_status,
            focus_status,
            question_id: request.question_id,
            slice_id: request.slice_id,
            proposal_id: request.proposal_id,
            origin_target: origin.target,
            delivery_adapter: "herdr"@,
            delivery_surface: "agent_send"@,
            error,
            payload: request.payload,
            created_at,
        },
    }
}

/// The event of a call that was delivered.
pub open spec fn delivered_note(
    request: AttentionRequestModel,
    typ: Seq<char>,
    adapter: Seq<char>,
    surface: Seq<char>,
    origin: OriginTargetModel,
) -> EventNoteModel {
    EventNoteModel {
        typ,
        payload: EventPayloadModel::AttentionDelivery(
            AttentionDeliveryPayloadModel {
                kind: request.attention_kind,
                question_id: request.question_id,
                slice_id: request.slice_id,
                proposal_id: request.proposal_id,
                adapter,
                surface,
                target_kind: origin.target_kind,
            },
        ),
    }
}

/// Whether an event warns of a call that failed, in these words.
pub open spec fn warns(note: EventNoteModel, kind: Seq<char>, message: Seq<char>) -> bool {
    note.typ == "run_incident"@ && (note.payload matches EventPayloadModel::RunIncident(incident)
        && incident == (RunIncidentPayloadModel {
        severity: "warning"@,
        kind,
        message,
        failure_kind: Seq::empty(),
        resolution_owner: Seq::empty(),
        operator_action_required: None,
        retryable: None,
        fix_commands: Seq::empty(),
        extra: incident.extra,
    }))
}

/// A call that is not on record goes its way: the origin is read; where it names a target, the call is
/// put on record as pending and only then sent; then the target is focused, whether the call arrived
/// or not; and last the outcome is put on record, by the time at which the call was first recorded.
pub proof fn law_call_goes_its_way(
    request: AttentionRequestModel,
    origin: OriginTargetModel,
    sent: DeliveryAnswerModel,
    focused: DeliveryAnswerModel,
    now: Timestamp,
    later: Timestamp,
)
    requires
        !blank(origin.target),
    ensures
        ({
            let asked = request.next(
                AttentionStageModel::LookingForRecord,
                AttentionAnswerModel::RecordExists(false),
                later,
            );
            let read = request.next(
                asked.stage,
                AttentionAnswerModel::Origin(OriginAnswerModel::Found(origin)),
                now,
            );
            let kept = request.next(
                read.stage,
                AttentionAnswerModel::Record(WriteAnswerModel::Written),
                later,
            );
            let told = request.next(kept.stage, AttentionAnswerModel::Delivery(sent), later);
            let shown = request.next(told.stage, AttentionAnswerModel::Delivery(focused), later);
            let done = request.next(
                shown.stage,
                AttentionAnswerModel::Record(WriteAnswerModel::Written),
                later,
            );
            let delivery_status = if sent is Delivered && focused is Delivered {
                "sent"@
            } else if sent is Failed && focused is Failed {
                "failed"@
            } else {
                "partial"@
            };
            let status = |answer: DeliveryAnswerModel|
                if answer is Delivered {
                    "sent"@
                } else {
                    "failed"@
                };
            let error = match (sent, focused) {
                (DeliveryAnswerModel::Failed(a), DeliveryAnswerModel::Failed(b)) => "send: "@ + a
                    + "; "@ + "focus: "@ + b,
                (DeliveryAnswerModel::Failed(a), _) => "send: "@ + a,
                (_, DeliveryAnswerModel::Failed(b)) => "focus: "@ + b,
                _ => ""@,
            };
            &&& asked.action is ReadOrigin && asked.notes.len() == 0
            &&& read.action == call_record(
                request,
                origin,
                "pending"@,
                "pending"@,
                "pending"@,
                ""@,
                now.text(),
            ) && read.notes.len() == 0
            &&& kept.action == AttentionActionModel::Send {
                target: origin.target,
                payload: request.payload,
            } && kept.notes.len() == 0
            &&& told.action == AttentionActionModel::Focus(origin.target) && told.notes.len() == 1
            &&& match sent {
                DeliveryAnswerModel::Delivered { adapter, surface } => told.notes[0]
                    == delivered_note(
                    request,
                    "attention_notification_sent"@,
                    adapter,
                    surface,
                    origin,
                ),
                DeliveryAnswerModel::Failed(error) => warns(
                    told.notes[0],
                    "attention_notification_failed"@,
                    request.delivery_message + ": "@ + error,
                ) && told.notes[0].payload == EventPayloadModel::RunIncident(
                    request.failure(
                        "attention_notification_failed"@,
                        "delivery_failed"@,
                        request.delivery_message + ": "@ + error,
                    ),
                ),
            }
            &&& shown.action == call_record(
                request,
                origin,
                delivery_status,
                status(sent),
                status(focused),
                error,
                now.text(),
            ) && shown.notes.len() == 1
            &&& match focused {
                DeliveryAnswerModel::Delivered { adapter, surface } => shown.notes[0]
                    == delivered_note(
                    request,
                    "attention_focus_sent"@,
                    adapter,
                    surface,
                    origin,
                ),
                DeliveryAnswerModel::Failed(error) => warns(
                    shown.notes[0],
                    "attention_focus_failed"@,
                    request.focus_message + ": "@ + error,
                ) && shown.notes[0].payload == EventPayloadModel::RunIncident(
                    request.failure(
                        "attention_focus_failed"@,
                        "focus_failed"@,
                        request.focus_message + ": "@ + error,
                    ),
                ),
            }
            &&& done.action is Stop && done.notes.len() == 0 && done.stage is Finished
        }),
{
}

/// A call ends before it is sent where nobody can be called or the call cannot be put on record:
/// without an origin, or one without a target, in silence; with an origin that cannot be read, or a
/// record that cannot be written, by a warning. A final record that cannot be written is warned of too.
pub proof fn law_call_that_cannot_be_made(
    request: AttentionRequestModel,
    origin: OriginTargetModel,
    created_at: Seq<char>,
    error: Seq<char>,
    now: Timestamp,
)
    ensures
        ({
            let reading = AttentionStageModel::ReadingOrigin;
            let missing = request.next(
                reading,
                AttentionAnswerModel::Origin(OriginAnswerModel::Missing),
                now,
            );
            let nobody = request.next(
                reading,
                AttentionAnswerModel::Origin(OriginAnswerModel::Found(origin)),
                now,
            );
            let unread = request.next(
                reading,
                AttentionAnswerModel::Origin(OriginAnswerModel::Failed(error)),
                now,
            );
            let unwritten = request.next(
                AttentionStageModel::WritingPending { origin, created_at },
                AttentionAnswerModel::Record(WriteAnswerModel::Failed(error)),
                now,
            );
            let lost = request.next(
                AttentionStageModel::WritingOutcome,
                AttentionAnswerModel::Record(WriteAnswerModel::Failed(error)),
                now,
            );
            let words = "attention notification record for "@ + request.attention_key
                + " was not written: "@ + error;
            &&& missing.action is Stop && missing.notes.len() == 0
            &&& blank(origin.target) ==> nobody.action is Stop && nobody.notes.len() == 0
            &&& unread.action is Stop && unread.notes.len() == 1 && warns(
                unread.notes[0],
                "attention_notification_failed"@,
                request.delivery_message + ": origin target read failed: "@ + error,
            )
            &&& unwritten.action is Stop && unwritten.notes.len() == 1 && warns(
                unwritten.notes[0],
                "attention_notification_record_failed"@,
                words,
            )
            &&& lost.action is Stop && lost.notes.len() == 1 && warns(
                lost.notes[0],
                "attention_notification_record_failed"@,
                words,
            )
            &&& unread.notes[0].payload == EventPayloadModel::RunIncident(
                request.failure(
                    "attention_notification_failed"@,
                    "origin_target_read_failed"@,
                    request.delivery_message + ": origin target read failed: "@ + error,
                ),
            )
            &&& unwritten.notes[0].payload == EventPayloadModel::RunIncident(
                request.failure(
                    "attention_notification_record_failed"@,
                    "record_write_failed"@,
                    words,
                ),
            )
            &&& lost.notes[0].payload == unwritten.notes[0].payload
        }),
{
}

/// The field of a text.
pub open spec fn text_field(key: Seq<char>, value: Seq<char>) -> ExtraFieldModel {
    ExtraFieldModel { key, value: ExtraValueModel::Text(value) }
}

/// A warning of a failed call names the kind of failure, the call, its kind and where the truth about it
/// is kept, and the question, the slice and the proposal that it is about, where there is one.
pub proof fn law_warning_names_the_call(
    request: AttentionRequestModel,
    kind: Seq<char>,
    visibility_kind: Seq<char>,
    message: Seq<char>,
)
    ensures
        ({
            let extra = request.failure(kind, visibility_kind, message).extra;
            &&& extra.contains(text_field("visibility_kind"@, visibility_kind))
            &&& extra.contains(text_field("attention_key"@, request.attention_key))
            &&& extra.contains(text_field("attention_kind"@, request.attention_kind))
            &&& extra.contains(text_field("source_of_truth"@, request.source_of_truth))
            &&& !blank(request.question_id) ==> extra.contains(
                text_field("question_id"@, request.question_id),
            )
            &&& !blank(request.slice_id) ==> extra.contains(
                text_field("slice_id"@, request.slice_id),
            )
            &&& !blank(request.proposal_id) ==> extra.contains(
                text_field("proposal_id"@, request.proposal_id),
            )
        }),
{
    reveal_strlit("visibility_kind");
    reveal_strlit("attention_key");
    reveal_strlit("attention_kind");
    reveal_strlit("source_of_truth");
    reveal_strlit("question_id");
    reveal_strlit("slice_id");
    reveal_strlit("proposal_id");
    assert("visibility_kind"@.len() == 15 && "attention_key"@.len() == 13
        && "attention_kind"@.len() == 14 && "source_of_truth"@.len() == 15 && "question_id"@.len()
        == 11 && "slice_id"@.len() == 8 && "proposal_id"@.len() == 11);
    assert("visibility_kind"@[0] == 'v' && "source_of_truth"@[0] == 's' && "question_id"@[0] == 'q'
        && "proposal_id"@[0] == 'p');
    let none = Seq::<ExtraFieldModel>::empty();
    let a = with_field(none, "visibility_kind"@, ExtraValueModel::Text(visibility_kind));
    let b = with_field(a, "attention_key"@, ExtraValueModel::Text(request.attention_key));
    let c = with_field(b, "attention_kind"@, ExtraValueModel::Text(request.attention_kind));
    let d = with_field(c, "source_of_truth"@, ExtraValueModel::Text(request.source_of_truth));
    let e = if blank(request.question_id) {
        d
    } else {
        with_field(d, "question_id"@, ExtraValueModel::Text(request.question_id))
    };
    let f = if blank(request.slice_id) {
        e
    } else {
        with_field(e, "slice_id"@, ExtraValueModel::Text(request.slice_id))
    };
    law_field_is_set(none, "visibility_kind"@, ExtraValueModel::Text(visibility_kind));
    law_field_is_set(a, "attention_key"@, ExtraValueModel::Text(request.attention_key));
    law_field_is_set(b, "attention_kind"@, ExtraValueModel::Text(request.attention_kind));
    law_field_is_set(c, "source_of_truth"@, ExtraValueModel::Text(request.source_of_truth));
    law_field_is_set(d, "question_id"@, ExtraValueModel::Text(request.question_id));
    law_field_is_set(e, "slice_id"@, ExtraValueModel::Text(request.slice_id));
    law_field_is_set(f, "proposal_id"@, ExtraValueModel::Text(request.proposal_id));
}

/// A warning of a notice that was not delivered names the kind of failure, the end and its key, and where
/// the truth about it is kept.
pub proof fn law_warning_names_the_end(
    notice: TerminalNoticeModel,
    failure_kind: Seq<char>,
    message: Seq<char>,
)
    ensures
        notice.incident(failure_kind, message).payload matches EventPayloadModel::RunIncident(
            incident,
        ) && incident.extra.contains(text_field("visibility_kind"@, failure_kind))
            && incident.extra.contains(text_field("terminal_status"@, notice.terminal_status))
            && incident.extra.contains(text_field("transition_key"@, notice.transition_key))
            && incident.extra.contains(
            text_field("source_of_truth"@, "daemon_terminal_summary"@),
        ),
{
    reveal_strlit("visibility_kind");
    reveal_strlit("terminal_status");
    reveal_strlit("transition_key");
    reveal_strlit("source_of_truth");
    assert("visibility_kind"@.len() == 15 && "terminal_status"@.len() == 15
        && "transition_key"@.len() == 14 && "source_of_truth"@.len() == 15);
    assert("visibility_kind"@[0] == 'v' && "terminal_status"@[0] == 't' && "source_of_truth"@[0]
        == 's');
    let none = Seq::<ExtraFieldModel>::empty();
    let a = with_field(none, "visibility_kind"@, ExtraValueModel::Text(failure_kind));
    let b = with_field(a, "terminal_status"@, ExtraValueModel::Text(notice.terminal_status));
    let c = with_field(b, "transition_key"@, ExtraValueModel::Text(notice.transition_key));
    law_field_is_set(none, "visibility_kind"@, ExtraValueModel::Text(failure_kind));
    law_field_is_set(a, "terminal_status"@, ExtraValueModel::Text(notice.terminal_status));
    law_field_is_set(b, "transition_key"@, ExtraValueModel::Text(notice.transition_key));
    law_field_is_set(
        c,
        "source_of_truth"@,
        ExtraValueModel::Text("daemon_terminal_summary"@),
    );
}

/// A warning of a pane that was not renamed names the pane, its slice, its launch and the label that it
/// was to have.
pub proof fn law_warning_names_the_pane(rename: PaneRenameModel, error: Seq<char>)
    ensures
        rename_note(rename, DeliveryAnswerModel::Failed(error)).payload
            matches EventPayloadModel::RunIncident(incident) && incident.extra.contains(
            text_field("pane_id"@, rename.pane_id),
        ) && incident.extra.contains(text_field("slice_id"@, rename.slice_id))
            && incident.extra.contains(text_field("launch_stem"@, rename.launch_stem))
            && incident.extra.contains(text_field("label"@, rename.label))
            && incident.extra.contains(
            text_field("source_of_truth"@, "daemon_terminal_summary"@),
        ) && incident.extra.contains(
            ExtraFieldModel {
                key: "launch_id"@,
                value: match rename.launch_id {
                    Some(id) => ExtraValueModel::Number(id),
                    None => ExtraValueModel::Null,
                },
            },
        ),
{
    reveal_strlit("pane_id");
    reveal_strlit("slice_id");
    reveal_strlit("launch_id");
    reveal_strlit("launch_stem");
    reveal_strlit("label");
    reveal_strlit("source_of_truth");
    assert("pane_id"@.len() == 7 && "slice_id"@.len() == 8 && "launch_id"@.len() == 9
        && "launch_stem"@.len() == 11 && "label"@.len() == 5 && "source_of_truth"@.len() == 15);
    let none = Seq::<ExtraFieldModel>::empty();
    let launch = super::terminal::launch_field(rename.launch_id);
    let a = with_field(none, "pane_id"@, ExtraValueModel::Text(rename.pane_id));
    let b = with_field(a, "slice_id"@, ExtraValueModel::Text(rename.slice_id));
    let c = with_field(b, "launch_id"@, launch);
    let d = with_field(c, "launch_stem"@, ExtraValueModel::Text(rename.launch_stem));
    let e = with_field(d, "label"@, ExtraValueModel::Text(rename.label));
    law_field_is_set(none, "pane_id"@, ExtraValueModel::Text(rename.pane_id));
    law_field_is_set(a, "slice_id"@, ExtraValueModel::Text(rename.slice_id));
    law_field_is_set(b, "launch_id"@, launch);
    law_field_is_set(c, "launch_stem"@, ExtraValueModel::Text(rename.launch_stem));
    law_field_is_set(d, "label"@, ExtraValueModel::Text(rename.label));
    law_field_is_set(
        e,
        "source_of_truth"@,
        ExtraValueModel::Text("daemon_terminal_summary"@),
    );
}

/// A call for a question carries the question as it is on record and how to answer it, under the name
/// of the question, and leaves the decision to the operator.
pub proof fn law_call_for_a_question(question: WorkerQuestionModel)
    ensures
        ({
            let request = question_request(question);
            let command = "khazad-doom answer "@ + question.run_id + " "@ + question.id
                + " <answer>"@;
            &&& request.run_id == question.run_id
            &&& request.attention_key == "worker-question:"@ + question.id
            &&& request.attention_kind == "worker_question_pending"@
            &&& request.source_of_truth == "daemon_worker_questions"@
            &&& request.question_id == question.id
            &&& request.slice_id == question.slice_id
            &&& request.proposal_id == ""@
            &&& request.payload matches AttentionPayloadModel::Question(it) && {
                &&& it.schema_version == 1
                &&& it.kind == "worker_question_pending"@
                &&& it.attention_key == request.attention_key
                &&& it.run_id == question.run_id
                &&& it.slice_id == question.slice_id
                &&& it.attempt == question.attempt
                &&& it.question_id == question.id
                &&& it.question == question.question
                &&& it.options == question.options
                &&& it.timeout_seconds == question.timeout_seconds
                &&& it.deadline_at == (match question.deadline_at {
                    Some(at) => Some(at.text()),
                    None => None,
                })
                &&& it.recommended_answer == question.recommended_answer
                &&& it.recommendation_rationale == question.recommendation_rationale
                &&& it.bounded_within_current_slice_or_mission_authority
                    == question.bounded_within_current_slice_or_mission_authority
                &&& it.reversible == question.reversible
                &&& it.fallback_eligible == question.fallback_eligible
                &&& it.answer_command == command
                &&& it.answer_commands == seq![command]
                &&& it.operator_commands == seq![command] + it.status_commands
                &&& it.source_of_truth == "daemon_worker_questions"@
                &&& it.delivery_semantics == "visibility_only_no_auto_decision"@
                &&& it.status_commands == seq![
                    "khazad-doom status --run "@ + question.run_id,
                    "khazad-doom monitor --run "@ + question.run_id,
                    "khazad-doom watch --run "@ + question.run_id,
                ]
            }
        }),
{
}

/// A call for a proposal carries the proposal as it is on record and how to decide it, under the name
/// of the proposal, and leaves the decision to the operator.
pub proof fn law_call_for_a_proposal(
    run_id: Seq<char>,
    proposal: ReplanProposalModel,
    decision_commands: Seq<Seq<char>>,
)
    ensures
        ({
            let request = replan_request(run_id, proposal, decision_commands);
            &&& request.run_id == run_id
            &&& request.attention_key == "replan-proposal:"@ + proposal.id
            &&& request.attention_kind == "replan_decision_pending"@
            &&& request.source_of_truth == "daemon_replan_proposals"@
            &&& request.question_id == ""@
            &&& request.slice_id == ""@
            &&& request.proposal_id == proposal.id
            &&& request.payload matches AttentionPayloadModel::Replan(it) && {
                &&& it.notification.schema_version == 1
                &&& it.notification.kind == "replan_decision_pending"@
                &&& it.notification.run_id == run_id
                &&& it.notification.proposal_id == proposal.id
                &&& it.notification.source == proposal.source
                &&& it.notification.risk == proposal.risk
                &&& it.notification.proposed_changes == proposal.proposed_changes
                &&& it.notification.decision_commands == decision_commands
                &&& it.notification.source_of_truth == "daemon_replan_proposals"@
                &&& it.attention_key == request.attention_key
                &&& it.status_commands == seq![
                    "khazad-doom status --run "@ + run_id,
                    "khazad-doom monitor --run "@ + run_id,
                    "khazad-doom watch --run "@ + run_id,
                ]
                &&& it.operator_commands == decision_commands + it.status_commands
                &&& it.delivery_semantics == "visibility_only_no_auto_decision"@
            }
        }),
{
}

/// A name that is safe in a file: letters, digits, dashes, underscores and dots stay, anything else is
/// an underscore, character by character; where nothing but underscores is left the name is unknown.
pub proof fn law_safe_name(name: Seq<char>)
    ensures
        ({
            let kept = |c: char|
                ('0' <= c && c <= '9') || ('A' <= c && c <= 'Z') || ('a' <= c && c <= 'z') || c
                    == '-' || c == '_' || c == '.';
            let safe = safe_segment(name);
            &&& forall|i: int| 0 <= i < safe.len() ==> kept(#[trigger] safe[i])
            &&& safe == "unknown"@ || (safe.len() == name.len() && forall|i: int|
                0 <= i < name.len() ==> #[trigger] safe[i] == if kept(name[i]) {
                    name[i]
                } else {
                    '_'
                })
            &&& (exists|i: int|
                0 <= i < name.len() && kept(#[trigger] name[i]) && name[i] != '_') ==> safe.len()
                == name.len() && forall|i: int|
                0 <= i < name.len() ==> #[trigger] safe[i] == if kept(name[i]) {
                    name[i]
                } else {
                    '_'
                }
            &&& record_file(name) == "attention-"@ + safe + ".json"@
        }),
{
    reveal_strlit("unknown");
    let mapped = name.map_values(|c: char| super::origin::safe_char(c));
    let kept = |c: char|
        ('0' <= c && c <= '9') || ('A' <= c && c <= 'Z') || ('a' <= c && c <= 'z') || c == '-' || c
            == '_' || c == '.';
    if exists|i: int| 0 <= i < name.len() && kept(#[trigger] name[i]) && name[i] != '_' {
        let i = choose|i: int| 0 <= i < name.len() && kept(#[trigger] name[i]) && name[i] != '_';
        assert(mapped[i] == name[i]);
    }
}

/// The record of a notice of an end.
pub open spec fn notice_record(
    notice: TerminalNoticeModel,
    delivery_status: Seq<char>,
    origin_target: Seq<char>,
    error: Seq<char>,
    created_at: Seq<char>,
) -> TerminalNoticeActionModel {
    TerminalNoticeActionModel::WriteRecord(
        TerminalNotificationRecordModel {
            schema_version: 1,
            run_id: notice.run_id,
            terminal_status: notice.terminal_status,
            transition_key: notice.transition_key,
            delivery_status,
            origin_target,
            delivery_adapter: "herdr"@,
            delivery_surface: "agent_send"@,
            error,
            payload: notice.feedback,
            created_at,
        },
    )
}

/// The words in which a failed notice is warned of.
pub open spec fn notice_words(notice: TerminalNoticeModel, error: Seq<char>) -> Seq<char> {
    "terminal notification for "@ + notice.terminal_status + " was not delivered: "@ + error
}

/// A notice of an end that is not on record goes its way: the origin is read; where it names a target,
/// the notice is put on record as pending and only then sent; then the outcome is put on record and
/// told by an event, all by the time at which the notice began.
pub proof fn law_notice_goes_its_way(
    notice: TerminalNoticeModel,
    origin: OriginTargetModel,
    sent: DeliveryAnswerModel,
    now: Timestamp,
    later: Timestamp,
)
    requires
        !blank(origin.target),
    ensures
        ({
            let asked = notice.next(
                TerminalNoticeStageModel::LookingForRecord,
                AttentionAnswerModel::RecordExists(false),
                now,
            );
            let read = notice.next(
                asked.stage,
                AttentionAnswerModel::Origin(OriginAnswerModel::Found(origin)),
                later,
            );
            let kept = notice.next(
                read.stage,
                AttentionAnswerModel::Record(WriteAnswerModel::Written),
                later,
            );
            let told = notice.next(kept.stage, AttentionAnswerModel::Delivery(sent), later);
            let done = notice.next(
                told.stage,
                AttentionAnswerModel::Record(WriteAnswerModel::Written),
                later,
            );
            &&& asked.action is ReadOrigin && asked.notes.len() == 0
            &&& read.action == notice_record(
                notice,
                "pending"@,
                origin.target,
                ""@,
                now.text(),
            ) && read.notes.len() == 0
            &&& kept.action == TerminalNoticeActionModel::Send {
                target: origin.target,
                payload: notice.feedback,
            } && kept.notes.len() == 0
            &&& told.notes.len() == 0
            &&& done.action is Stop && done.stage is Finished && done.notes.len() == 1
            &&& match sent {
                DeliveryAnswerModel::Delivered { adapter, surface } => {
                    &&& told.action == notice_record(
                        notice,
                        "sent"@,
                        origin.target,
                        ""@,
                        now.text(),
                    )
                    &&& done.notes[0] == EventNoteModel {
                        typ: "terminal_notification_sent"@,
                        payload: EventPayloadModel::TerminalNotification(
                            TerminalNotificationPayloadModel {
                                status: notice.terminal_status,
                                terminal_status: ""@,
                                transition_key: notice.transition_key,
                                reason: ""@,
                                adapter,
                                surface,
                                target_kind: origin.target_kind,
                            },
                        ),
                    }
                },
                DeliveryAnswerModel::Failed(error) => {
                    &&& told.action == notice_record(
                        notice,
                        "failed"@,
                        origin.target,
                        error,
                        now.text(),
                    )
                    &&& warns(
                        done.notes[0],
                        "terminal_notification_failed"@,
                        notice_words(notice, error),
                    )
                    &&& done.notes[0] == notice.incident("delivery_failed"@, error)
                },
            }
        }),
{
}

/// A notice that cannot be sent: without an origin it ends in silence; with an origin that names no
/// target it is put on record as skipped and an event says so; with one that cannot be read it is put
/// on record as failed and warned of; a record that cannot be written is warned of, and a notice whose
/// pending record cannot be written is not sent.
pub proof fn law_notice_that_cannot_be_sent(
    notice: TerminalNoticeModel,
    origin: OriginTargetModel,
    created_at: Seq<char>,
    error: Seq<char>,
    now: Timestamp,
)
    ensures
        ({
            let reading = TerminalNoticeStageModel::ReadingOrigin { created_at };
            let written = AttentionAnswerModel::Record(WriteAnswerModel::Written);
            let missing = notice.next(
                reading,
                AttentionAnswerModel::Origin(OriginAnswerModel::Missing),
                now,
            );
            let nobody = notice.next(
                reading,
                AttentionAnswerModel::Origin(OriginAnswerModel::Found(origin)),
                now,
            );
            let skipped = notice.next(nobody.stage, written, now);
            let unread = notice.next(
                reading,
                AttentionAnswerModel::Origin(OriginAnswerModel::Failed(error)),
                now,
            );
            let failed = notice.next(unread.stage, written, now);
            let unwritten = notice.next(
                TerminalNoticeStageModel::WritingPending { origin, created_at },
                AttentionAnswerModel::Record(WriteAnswerModel::Failed(error)),
                now,
            );
            &&& missing.action is Stop && missing.notes.len() == 0
            &&& blank(origin.target) ==> {
                &&& nobody.notes.len() == 0
                &&& nobody.action == notice_record(
                    notice,
                    "skipped"@,
                    ""@,
                    "missing origin notification target"@,
                    created_at,
                )
                &&& skipped.action is Stop && skipped.notes.len() == 1
                &&& skipped.notes[0] == EventNoteModel {
                    typ: "terminal_notification_skipped"@,
                    payload: EventPayloadModel::TerminalNotification(
                        TerminalNotificationPayloadModel {
                            status: notice.terminal_status,
                            terminal_status: ""@,
                            transition_key: notice.transition_key,
                            reason: "missing_origin_target"@,
                            adapter: ""@,
                            surface: ""@,
                            target_kind: ""@,
                        },
                    ),
                }
            }
            &&& unread.notes.len() == 0 && unread.action == notice_record(
                notice,
                "failed"@,
                ""@,
                "origin target read failed: "@ + error,
                created_at,
            )
            &&& failed.action is Stop && failed.notes.len() == 1 && warns(
                failed.notes[0],
                "terminal_notification_failed"@,
                notice_words(notice, error),
            )
            &&& unwritten.action is Stop && unwritten.notes.len() == 1 && warns(
                unwritten.notes[0],
                "terminal_notification_failed"@,
                notice_words(notice, error),
            )
            &&& failed.notes[0] == notice.incident("origin_target_read_failed"@, error)
            &&& unwritten.notes[0] == notice.incident("record_write_failed"@, error)
        }),
{
}

/// The ends that an operator is told of: a run that completed, is blocked, failed or was cancelled.
pub proof fn law_ends_that_are_told(status: RunStatus)
    ensures
        feedback_supported(status) <==> status == RunStatus::Completed || status
            == RunStatus::Blocked || status == RunStatus::Failed || status == RunStatus::Cancelled,
{
}

/// The key of an end names the status and its revision: the time at which the progress shows that end,
/// else the newest event of the summary, else the time of the run.
pub proof fn law_key_of_an_end(
    status: RunStatus,
    progress: Option<RunProgressModel>,
    run: RunModel,
    summary: Seq<char>,
)
    ensures
        ({
            let key = transition_key(status, progress, run, summary);
            let prefix = "terminal:"@ + status.text() + ":"@;
            let shown = progress is Some && (progress->0).phase == status.text();
            &&& shown ==> key == prefix + (progress->0).phase_started_at.text()
            &&& !shown && super::terminal::summary_event(summary) is None ==> key == prefix
                + run.updated_at.text()
            &&& !shown ==> (super::terminal::summary_event(summary) matches Some(id) ==> key
                == prefix + ("event-"@ + decimal_int(id as int)))
        }),
{
}

/// What an operator is told of an end: what the summary says of the run, its message by the line of
/// the feed or else by its own words, and where the summary is.
pub proof fn law_feedback_of_an_end(summary: Seq<char>, summary_path: Seq<char>)
    ensures
        ({
            let told = feedback(summary, summary_path);
            let said = |name: Seq<char>|
                match member(summary, name) {
                    Some(document) => document,
                    None => "null"@,
                };
            let words = |name: Seq<char>|
                match text_in(member(summary, name)) {
                    Some(text) => text,
                    None => ""@,
                };
            let line = text_in(member(said("feed"@), "summary_line"@));
            &&& told.kind == "khazad_terminal_feedback"@
            &&& told.run_id == said("run_id"@)
            &&& told.terminal_status == said("status"@)
            &&& told.repo_path == said("repo_path"@)
            &&& told.integration_branch == said("integration_branch"@)
            &&& told.selected_slice_id == said("selected_slice_id"@)
            &&& told.feed == said("feed"@)
            &&& told.snapshot == said("snapshot"@)
            &&& told.primary_failure == words("primary_failure"@)
            &&& told.cancel_reason == words("cancel_reason"@)
            &&& told.evidence_artifacts == seq![summary_path]
            &&& told.handoff_readiness == "unavailable"@
            &&& told.message == told.feed_summary_line
            &&& line is Some && !blank(line->0) ==> told.message == line->0
            &&& line is None || blank(line->0) ==> told.message == words("message"@)
            &&& told.next_commands == match member(summary, "next_commands"@) {
                Some(document) => document,
                None => "[]"@,
            }
        }),
{
}

/// The mark of a slice says how it ended: merged, or blocked, failed and cancelled alike, or
/// interrupted, or not yet.
pub proof fn law_mark_of_a_slice(slice_id: Seq<char>, launch_id: Option<i64>, status: SliceStatus)
    ensures
        ({
            let mark = if status == SliceStatus::Merged {
                "✓"@
            } else if status == SliceStatus::Blocked || status == SliceStatus::Failed || status
                == SliceStatus::Cancelled {
                "✗"@
            } else if status == SliceStatus::Interrupted {
                "!"@
            } else {
                "◐"@
            };
            &&& slice_marker(status) == mark
            &&& pane_label(slice_id, launch_id, status) == (if launch_id is Some && launch_id->0
                > 0 {
                mark + " "@ + slice_id + " launch "@ + decimal_int(launch_id->0 as int) + " "@
                    + status.text()
            } else {
                mark + " "@ + slice_id + " "@ + status.text()
            })
        }),
{
}

/// The status of a slice is that of the last row with its name, and pending where there is none.
pub proof fn law_status_of_a_slice(slices: Seq<SliceRunModel>, slice_id: Seq<char>, k: int)
    requires
        -1 <= k < slices.len(),
        k >= 0 ==> slices[k].slice_id == slice_id,
        forall|j: int| k < j < slices.len() ==> (#[trigger] slices[j]).slice_id != slice_id,
    ensures
        slice_status(slices, slice_id) == if k >= 0 {
            slices[k].status
        } else {
            SliceStatus::Pending
        },
    decreases slices.len(),
{
    if slices.len() > 0 && k < slices.len() - 1 {
        let rest = slices.drop_last();
        assert(slices[slices.len() - 1].slice_id != slice_id);
        assert forall|j: int| k < j < rest.len() implies (#[trigger] rest[j]).slice_id
            != slice_id by {
            assert(rest[j] == slices[j]);
        }
        law_status_of_a_slice(rest, slice_id, k);
    }
}

/// The event tells of a worker of a slice in a pane.
#[verifier::opaque]
pub open spec fn tells_of_a_pane(event: EventModel) -> bool {
    event.typ == "cockpit_worker_ready"@ && ready_of(event.payload).pane_id.len() > 0 && ready_of(
        event.payload,
    ).slice_id.len() > 0
}

/// The pane of which an event tells, with its slice, the launch and the status that the slice has.
#[verifier::opaque]
pub open spec fn pane_of(event: EventModel, slices: Seq<SliceRunModel>) -> PaneRenameModel {
    let ready = ready_of(event.payload);
    let status = slice_status(slices, ready.slice_id);
    PaneRenameModel {
        pane_id: ready.pane_id,
        slice_id: ready.slice_id,
        launch_id: ready.launch_id,
        launch_stem: ready.launch_stem,
        status,
        label: pane_label(ready.slice_id, ready.launch_id, status),
    }
}

proof fn lemma_last_rename(events: Seq<EventModel>, slices: Seq<SliceRunModel>)
    requires
        events.len() > 0,
    ensures
        ({
            let before = pane_renames(events.drop_last(), slices);
            let last = events.last();
            pane_renames(events, slices) == if !tells_of_a_pane(last) || renames_pane(
                before,
                pane_of(last, slices).pane_id,
            ) {
                before
            } else {
                before.push(pane_of(last, slices))
            }
        }),
{
    reveal(tells_of_a_pane);
    reveal(pane_of);
}

/// Some event tells of the pane that is renamed, in just that way.
pub open spec fn rename_is_told(
    events: Seq<EventModel>,
    slices: Seq<SliceRunModel>,
    rename: PaneRenameModel,
) -> bool {
    exists|k: int|
        0 <= k < events.len() && tells_of_a_pane(#[trigger] events[k]) && rename == pane_of(
            events[k],
            slices,
        )
}

/// Every pane of which an event tells is renamed once, and no other.
pub open spec fn each_pane_once(
    events: Seq<EventModel>,
    slices: Seq<SliceRunModel>,
    renames: Seq<PaneRenameModel>,
) -> bool {
    &&& forall|i: int, j: int|
        0 <= i < j < renames.len() ==> (#[trigger] renames[i]).pane_id != (
        #[trigger] renames[j]).pane_id
    &&& forall|k: int|
        0 <= k < events.len() && #[trigger] tells_of_a_pane(events[k]) ==> renames_pane(
            renames,
            pane_of(events[k], slices).pane_id,
        )
    &&& forall|i: int|
        0 <= i < renames.len() ==> #[trigger] rename_is_told(events, slices, renames[i])
}

proof fn lemma_one_more_event(
    rest: Seq<EventModel>,
    last: EventModel,
    slices: Seq<SliceRunModel>,
    before: Seq<PaneRenameModel>,
    renames: Seq<PaneRenameModel>,
)
    requires
        each_pane_once(rest, slices, before),
        renames == if !tells_of_a_pane(last) || renames_pane(
            before,
            pane_of(last, slices).pane_id,
        ) {
            before
        } else {
            before.push(pane_of(last, slices))
        },
    ensures
        each_pane_once(rest.push(last), slices, renames),
{
    let events = rest.push(last);
    assert forall|k: int| 0 <= k < events.len() && #[trigger] tells_of_a_pane(events[k]) implies
        renames_pane(renames, pane_of(events[k], slices).pane_id) by {
        let id = pane_of(events[k], slices).pane_id;
        if k < rest.len() {
            assert(tells_of_a_pane(rest[k]));
            let i = choose|i: int| 0 <= i < before.len() && (#[trigger] before[i]).pane_id == id;
            assert(renames[i].pane_id == id);
        } else if renames.len() > before.len() {
            assert(renames[before.len() as int].pane_id == id);
        }
    }
    assert forall|i: int| 0 <= i < renames.len() implies #[trigger] rename_is_told(
        events,
        slices,
        renames[i],
    ) by {
        if i < before.len() {
            assert(rename_is_told(rest, slices, before[i]));
            let k = choose|k: int|
                0 <= k < rest.len() && tells_of_a_pane(#[trigger] rest[k]) && before[i] == pane_of(
                    rest[k],
                    slices,
                );
            assert(tells_of_a_pane(events[k]));
        } else {
            assert(tells_of_a_pane(events[rest.len() as int]));
        }
    }
    assert forall|i: int, j: int| 0 <= i < j < renames.len() implies (
    #[trigger] renames[i]).pane_id != (#[trigger] renames[j]).pane_id by {
        if j == before.len() {
            assert(before[i].pane_id != pane_of(last, slices).pane_id);
        } else {
            assert(before[i].pane_id != before[j].pane_id);
        }
    }
}

/// A pane is renamed once, after the first event that tells of it, by the slice of that event and the
/// status that the slice has; every pane of which an event tells is renamed, and no other.
pub proof fn law_panes_are_renamed_once(events: Seq<EventModel>, slices: Seq<SliceRunModel>)
    ensures
        each_pane_once(events, slices, pane_renames(events, slices)),
    decreases events.len(),
{
    if events.len() > 0 {
        let rest = events.drop_last();
        law_panes_are_renamed_once(rest, slices);
        lemma_last_rename(events, slices);
        lemma_one_more_event(
            rest,
            events.last(),
            slices,
            pane_renames(rest, slices),
            pane_renames(events, slices),
        );
        assert(rest.push(events.last()) =~= events);
    }
}

/// A pane that was renamed is told with its label and its slice; one that was not is warned of.
pub proof fn law_rename_is_told(rename: PaneRenameModel, answer: DeliveryAnswerModel)
    ensures
        match answer {
            DeliveryAnswerModel::Delivered { adapter, surface } => rename_note(rename, answer) == (
            EventNoteModel {
                typ: "cockpit_worker_renamed"@,
                payload: EventPayloadModel::CockpitWorkerRenamed(
                    CockpitWorkerRenamedPayloadModel {
                        pane_id: rename.pane_id,
                        slice_id: rename.slice_id,
                        launch_id: rename.launch_id,
                        launch_stem: rename.launch_stem,
                        status: rename.status.text(),
                        label: rename.label,
                        adapter,
                        surface,
                    },
                ),
            }),
            DeliveryAnswerModel::Failed(error) => warns(
                rename_note(rename, answer),
                "cockpit_worker_rename_failed"@,
                "worker pane rename failed for "@ + rename.slice_id + ": "@ + error,
            ),
        },
{
}

} // verus!
