//! The notification of the end of a run, and the labels of its worker panes.
use super::types::{
    DeliveryAnswer, DeliveryAnswerModel, EventNote, EventNoteModel, OriginAnswer,
    OriginAnswerModel, PaneRename, PaneRenameModel, TerminalFeedback, TerminalFeedbackModel,
    TerminalNotice, TerminalNoticeAction, TerminalNoticeActionModel, TerminalNoticeModel,
    TerminalNoticeStage, TerminalNoticeStageModel, TerminalNoticeStep, TerminalNoticeStepModel,
    TerminalNotificationRecord, TerminalNotificationRecordModel, AttentionAnswer,
    AttentionAnswerModel, WriteAnswer, WriteAnswerModel,
};
use super::{noted, record_notes, ATTENTION_PAYLOAD_SCHEMA_VERSION};
use crate::domain::{
    Run, RunModel, RunProgress, RunProgressModel, RunStatus, SliceRun, SliceRunModel, SliceStatus,
};
use crate::events::ready_of;
use crate::json::{get, get_in, integer_in, member, member_of, read_integer, read_text, text_in};
use crate::payloads::{
    CockpitWorkerReadyPayload, CockpitWorkerRenamedPayload, CockpitWorkerRenamedPayloadModel,
    Event, EventModel, EventPayload, EventPayloadModel, ExtraValue, ExtraValueModel, RunIncidentPayload,
    RunIncidentPayloadModel, TerminalNotificationPayload, TerminalNotificationPayloadModel,
};
use crate::store::Store;
use crate::table::Row;
use crate::text::{append_int, blank, decimal_int, is_blank, same_text};
use crate::time::Timestamp;
use vstd::prelude::*;
use vstd::string::*;

verus! {

/// The ends that the operator is told of.
pub open spec fn feedback_supported(status: RunStatus) -> bool {
    status == RunStatus::Completed || status == RunStatus::Blocked || status == RunStatus::Failed
        || status == RunStatus::Cancelled
}

/// Whether the end of a run with this status is announced.
pub fn terminal_feedback_status_supported(status: RunStatus) -> (r: bool)
    ensures
        r == feedback_supported(status),
{
    matches!(
        status,
        RunStatus::Completed | RunStatus::Blocked | RunStatus::Failed | RunStatus::Cancelled
    )
}

/// The last event that a summary was made from.
pub open spec fn summary_event(summary: Seq<char>) -> Option<i64> {
    integer_in(
        member_of(member_of(member(summary, "snapshot"@), "revision"@), "max_event_id"@),
    )
}

/// What tells one end of a run from another: when its phase began, or else the last event of the
/// summary, or else when the run was last touched.
pub open spec fn transition_key(
    status: RunStatus,
    progress: Option<RunProgressModel>,
    run: RunModel,
    summary: Seq<char>,
) -> Seq<char> {
    let revision = if progress is Some && (progress->0).phase == status.text() {
        (progress->0).phase_started_at.text()
    } else {
        match summary_event(summary) {
            Some(event_id) => "event-"@ + decimal_int(event_id as int),
            None => run.updated_at.text(),
        }
    };
    "terminal:"@ + status.text() + ":"@ + revision
}

/// What tells one end of a run from another.
pub fn terminal_transition_key(
    status: RunStatus,
    progress: Option<&RunProgress>,
    run: &Run,
    summary: &str,
) -> (r: String)
    ensures
        r@ == transition_key(
            status,
            match progress {
                Some(progress) => Some(progress@),
                None => None,
            },
            run@,
            summary@,
        ),
{
    let begun: Option<String> = match progress {
        Some(progress) => if same_text(progress.phase.as_str(), status.as_str()) {
            Some(progress.phase_started_at.to_rfc3339())
        } else {
            None
        },
        None => None,
    };
    let mut r = "terminal:".to_owned();
    r.append(status.as_str());
    r.append(":");
    match begun {
        Some(at) => {
            r.append(at.as_str());
        },
        None => {
            let snapshot = get(summary, "snapshot");
            let revision = get_in(&snapshot, "revision");
            let event = get_in(&revision, "max_event_id");
            match read_integer(&event) {
                Some(event_id) => {
                    let ghost front = r@;
                    r.append("event-");
                    append_int(&mut r, event_id);
                    assert(r@ =~= front + ("event-"@ + decimal_int(event_id as int)));
                },
                None => {
                    let at = run.updated_at.to_rfc3339();
                    r.append(at.as_str());
                },
            }
        },
    }
    r
}

/// The document under a name of a summary, null where there is none.
pub open spec fn passed_on(summary: Seq<char>, name: Seq<char>) -> Seq<char> {
    match member(summary, name) {
        Some(document) => document,
        None => "null"@,
    }
}

/// The text under a name of a summary, empty where there is none.
pub open spec fn summary_text(summary: Seq<char>, name: Seq<char>) -> Seq<char> {
    match text_in(member(summary, name)) {
        Some(text) => text,
        None => ""@,
    }
}

/// The line that a summary is told in: that of its feed, or its message.
pub open spec fn feed_line(summary: Seq<char>) -> Seq<char> {
    match text_in(member(passed_on(summary, "feed"@), "summary_line"@)) {
        Some(line) => if blank(line) {
            summary_text(summary, "message"@)
        } else {
            line
        },
        None => summary_text(summary, "message"@),
    }
}

/// What the operator is told of the end of a run.
pub open spec fn feedback(summary: Seq<char>, summary_path: Seq<char>) -> TerminalFeedbackModel {
    TerminalFeedbackModel {
        kind: "khazad_terminal_feedback"@,
        run_id: passed_on(summary, "run_id"@),
        terminal_status: passed_on(summary, "status"@),
        repo_path: passed_on(summary, "repo_path"@),
        integration_branch: passed_on(summary, "integration_branch"@),
        selected_slice_id: passed_on(summary, "selected_slice_id"@),
        message: feed_line(summary),
        feed_summary_line: feed_line(summary),
        feed: passed_on(summary, "feed"@),
        primary_failure: summary_text(summary, "primary_failure"@),
        cancel_reason: summary_text(summary, "cancel_reason"@),
        final_sha: ""@,
        handoff_readiness: "unavailable"@,
        evidence_artifacts: seq![summary_path],
        snapshot: passed_on(summary, "snapshot"@),
        next_commands: match member(summary, "next_commands"@) {
            Some(document) => document,
            None => "[]"@,
        },
    }
}

fn pass_on(summary: &str, name: &str) -> (r: String)
    ensures
        r@ == passed_on(summary@, name@),
{
    match get(summary, name) {
        Some(document) => document,
        None => "null".to_owned(),
    }
}

fn text_under(summary: &str, name: &str) -> (r: String)
    ensures
        r@ == summary_text(summary@, name@),
{
    let document = get(summary, name);
    match read_text(&document) {
        Some(text) => text,
        None => "".to_owned(),
    }
}

/// What the operator is told of the end of a run.
pub fn terminal_feedback_payload(summary: &str, summary_path: &str) -> (r: TerminalFeedback)
    ensures
        r@ == feedback(summary@, summary_path@),
{
    let feed = pass_on(summary, "feed");
    let line_document = get(feed.as_str(), "summary_line");
    let line = match read_text(&line_document) {
        Some(line) => if is_blank(line.as_str()) {
            text_under(summary, "message")
        } else {
            line
        },
        None => text_under(summary, "message"),
    };
    let mut evidence_artifacts: Vec<String> = Vec::new();
    evidence_artifacts.push(summary_path.to_owned());
    assert(evidence_artifacts.deep_view() =~= seq![summary_path@]);
    let next_commands = match get(summary, "next_commands") {
        Some(document) => document,
        None => "[]".to_owned(),
    };
    TerminalFeedback {
        kind: "khazad_terminal_feedback".to_owned(),
        run_id: pass_on(summary, "run_id"),
        terminal_status: pass_on(summary, "status"),
        repo_path: pass_on(summary, "repo_path"),
        integration_branch: pass_on(summary, "integration_branch"),
        selected_slice_id: pass_on(summary, "selected_slice_id"),
        message: line.dup(),
        feed_summary_line: line,
        feed,
        primary_failure: text_under(summary, "primary_failure"),
        cancel_reason: text_under(summary, "cancel_reason"),
        final_sha: "".to_owned(),
        handoff_readiness: "unavailable".to_owned(),
        evidence_artifacts,
        snapshot: pass_on(summary, "snapshot"),
        next_commands,
    }
}

impl TerminalNotificationPayload {
    pub fn sent(
        terminal_status: &str,
        transition_key: &str,
        adapter: &str,
        surface: &str,
        target_kind: &str,
    ) -> (r: TerminalNotificationPayload)
        ensures
            r@ == (TerminalNotificationPayloadModel {
                status: terminal_status@,
                terminal_status: ""@,
                transition_key: transition_key@,
                reason: ""@,
                adapter: adapter@,
                surface: surface@,
                target_kind: target_kind@,
            }),
    {
        TerminalNotificationPayload {
            status: terminal_status.to_owned(),
            terminal_status: "".to_owned(),
            transition_key: transition_key.to_owned(),
            reason: "".to_owned(),
            adapter: adapter.to_owned(),
            surface: surface.to_owned(),
            target_kind: target_kind.to_owned(),
        }
    }

    pub fn skipped(terminal_status: &str, transition_key: &str, reason: &str) -> (r:
        TerminalNotificationPayload)
        ensures
            r@ == (TerminalNotificationPayloadModel {
                status: terminal_status@,
                terminal_status: ""@,
                transition_key: transition_key@,
                reason: reason@,
                adapter: ""@,
                surface: ""@,
                target_kind: ""@,
            }),
    {
        TerminalNotificationPayload {
            status: terminal_status.to_owned(),
            terminal_status: "".to_owned(),
            transition_key: transition_key.to_owned(),
            reason: reason.to_owned(),
            adapter: "".to_owned(),
            surface: "".to_owned(),
            target_kind: "".to_owned(),
        }
    }
}

impl TerminalNoticeModel {
    pub open spec fn record(
        self,
        delivery_status: Seq<char>,
        origin_target: Seq<char>,
        error: Seq<char>,
        created_at: Seq<char>,
    ) -> TerminalNoticeActionModel {
        TerminalNoticeActionModel::WriteRecord(
            TerminalNotificationRecordModel {
                schema_version: ATTENTION_PAYLOAD_SCHEMA_VERSION,
                run_id: self.run_id,
                terminal_status: self.terminal_status,
                transition_key: self.transition_key,
                delivery_status,
                origin_target,
                delivery_adapter: "herdr"@,
                delivery_surface: "agent_send"@,
                error,
                payload: self.feedback,
                created_at,
            },
        )
    }

    pub open spec fn incident(self, failure_kind: Seq<char>, message: Seq<char>) -> EventNoteModel {
        EventNoteModel {
            typ: "run_incident"@,
            payload: EventPayloadModel::RunIncident(
                RunIncidentPayloadModel::warning(
                    "terminal_notification_failed"@,
                    "terminal notification for "@ + self.terminal_status + " was not delivered: "@
                        + message,
                ).with_extra("visibility_kind"@, ExtraValueModel::Text(failure_kind)).with_extra(
                    "terminal_status"@,
                    ExtraValueModel::Text(self.terminal_status),
                ).with_extra("transition_key"@, ExtraValueModel::Text(self.transition_key)).with_extra(
                    "source_of_truth"@,
                    ExtraValueModel::Text("daemon_terminal_summary"@),
                ),
            ),
        }
    }

    /// What is noted of an attempt to keep a record.
    pub open spec fn write_notes(self, written: WriteAnswerModel) -> Seq<EventNoteModel> {
        match written {
            WriteAnswerModel::Written => Seq::empty(),
            WriteAnswerModel::Failed(error) => seq![self.incident("record_write_failed"@, error)],
        }
    }

    /// How an answer moves the notification on. An answer that was not asked for ends it.
    pub open spec fn next(
        self,
        stage: TerminalNoticeStageModel,
        answer: AttentionAnswerModel,
        now: Timestamp,
    ) -> TerminalNoticeStepModel {
        let stop = TerminalNoticeStepModel {
            stage: TerminalNoticeStageModel::Finished,
            notes: Seq::empty(),
            action: TerminalNoticeActionModel::Stop,
        };
        match (stage, answer) {
            (
                TerminalNoticeStageModel::LookingForRecord,
                AttentionAnswerModel::RecordExists(known),
            ) => if known {
                stop
            } else {
                TerminalNoticeStepModel {
                    stage: TerminalNoticeStageModel::ReadingOrigin { created_at: now.text() },
                    notes: Seq::empty(),
                    action: TerminalNoticeActionModel::ReadOrigin,
                }
            },
            (
                TerminalNoticeStageModel::ReadingOrigin { created_at },
                AttentionAnswerModel::Origin(found),
            ) => match found {
                OriginAnswerModel::Found(origin) => if blank(origin.target) {
                    TerminalNoticeStepModel {
                        stage: TerminalNoticeStageModel::WritingSkipped,
                        notes: Seq::empty(),
                        action: self.record(
                            "skipped"@,
                            ""@,
                            "missing origin notification target"@,
                            created_at,
                        ),
                    }
                } else {
                    TerminalNoticeStepModel {
                        stage: TerminalNoticeStageModel::WritingPending { origin, created_at },
                        notes: Seq::empty(),
                        action: self.record("pending"@, origin.target, ""@, created_at),
                    }
                },
                OriginAnswerModel::Missing => stop,
                OriginAnswerModel::Failed(error) => TerminalNoticeStepModel {
                    stage: TerminalNoticeStageModel::WritingUnreadable { error },
                    notes: Seq::empty(),
                    action: self.record(
                        "failed"@,
                        ""@,
                        "origin target read failed: "@ + error,
                        created_at,
                    ),
                },
            },
            (
                TerminalNoticeStageModel::WritingSkipped,
                AttentionAnswerModel::Record(written),
            ) => TerminalNoticeStepModel {
                notes: self.write_notes(written).push(
                    EventNoteModel {
                        typ: "terminal_notification_skipped"@,
                        payload: EventPayloadModel::TerminalNotification(
                            TerminalNotificationPayloadModel {
                                status: self.terminal_status,
                                terminal_status: ""@,
                                transition_key: self.transition_key,
                                reason: "missing_origin_target"@,
                                adapter: ""@,
                                surface: ""@,
                                target_kind: ""@,
                            },
                        ),
                    },
                ),
                ..stop
            },
            (
                TerminalNoticeStageModel::WritingUnreadable { error },
                AttentionAnswerModel::Record(written),
            ) => TerminalNoticeStepModel {
                notes: self.write_notes(written).push(
                    self.incident("origin_target_read_failed"@, error),
                ),
                ..stop
            },
            (
                TerminalNoticeStageModel::WritingPending { origin, created_at },
                AttentionAnswerModel::Record(written),
            ) => if written is Written {
                TerminalNoticeStepModel {
                    stage: TerminalNoticeStageModel::Sending { origin, created_at },
                    notes: Seq::empty(),
                    action: TerminalNoticeActionModel::Send {
                        target: origin.target,
                        payload: self.feedback,
                    },
                }
            } else {
                TerminalNoticeStepModel { notes: self.write_notes(written), ..stop }
            },
            (
                TerminalNoticeStageModel::Sending { origin, created_at },
                AttentionAnswerModel::Delivery(sent),
            ) => match sent {
                DeliveryAnswerModel::Delivered { adapter, surface } => TerminalNoticeStepModel {
                    stage: TerminalNoticeStageModel::WritingSent {
                        adapter,
                        surface,
                        target_kind: origin.target_kind,
                    },
                    notes: Seq::empty(),
                    action: self.record("sent"@, origin.target, ""@, created_at),
                },
                DeliveryAnswerModel::Failed(error) => TerminalNoticeStepModel {
                    stage: TerminalNoticeStageModel::WritingFailed { error },
                    notes: Seq::empty(),
                    action: self.record("failed"@, origin.target, error, created_at),
                },
            },
            (
                TerminalNoticeStageModel::WritingSent { adapter, surface, target_kind },
                AttentionAnswerModel::Record(written),
            ) => TerminalNoticeStepModel {
                notes: self.write_notes(written).push(
                    EventNoteModel {
                        typ: "terminal_notification_sent"@,
                        payload: EventPayloadModel::TerminalNotification(
                            TerminalNotificationPayloadModel {
                                status: self.terminal_status,
                                terminal_status: ""@,
                                transition_key: self.transition_key,
                                reason: ""@,
                                adapter,
                                surface,
                                target_kind,
                            },
                        ),
                    },
                ),
                ..stop
            },
            (
                TerminalNoticeStageModel::WritingFailed { error },
                AttentionAnswerModel::Record(written),
            ) => TerminalNoticeStepModel {
                notes: self.write_notes(written).push(self.incident("delivery_failed"@, error)),
                ..stop
            },
            _ => stop,
        }
    }
}

/// The notification of the end of a run under way.
#[derive(Debug)]
pub struct TerminalNotification {
    notice: TerminalNotice,
    stage: TerminalNoticeStage,
}

impl TerminalNotification {
    pub closed spec fn notice(&self) -> TerminalNoticeModel {
        self.notice@
    }

    pub closed spec fn stage(&self) -> TerminalNoticeStageModel {
        self.stage@
    }

    /// Begins to tell the operator how a run ended, where they are told of such an end. The summary
    /// is a JSON document.
    pub fn begin(
        run: &Run,
        status: RunStatus,
        progress: Option<&RunProgress>,
        summary: &str,
        summary_path: &str,
    ) -> (r: Option<(TerminalNotification, TerminalNoticeAction)>)
        ensures
            match r {
                Some((notification, action)) => {
                    let key = transition_key(
                        status,
                        match progress {
                            Some(progress) => Some(progress@),
                            None => None,
                        },
                        run@,
                        summary@,
                    );
                    &&& feedback_supported(status)
                    &&& notification.notice() == (TerminalNoticeModel {
                        run_id: run@.id,
                        terminal_status: status.text(),
                        transition_key: key,
                        feedback: feedback(summary@, summary_path@),
                    })
                    &&& notification.stage() == TerminalNoticeStageModel::LookingForRecord
                    &&& action@ == TerminalNoticeActionModel::LookForRecord(key)
                },
                None => !feedback_supported(status),
            },
    {
        if !terminal_feedback_status_supported(status) {
            return None;
        }
        let key = terminal_transition_key(status, progress, run, summary);
        let action = TerminalNoticeAction::LookForRecord(key.dup());
        let notice = TerminalNotice {
            run_id: run.id.dup(),
            terminal_status: status.as_str().to_owned(),
            transition_key: key,
            feedback: terminal_feedback_payload(summary, summary_path),
        };
        Some(
            (
                TerminalNotification { notice, stage: TerminalNoticeStage::LookingForRecord },
                action,
            ),
        )
    }

    /// Moves on by the answer to the last action, and records the events that it leads to.
    pub fn answer(&mut self, store: &mut Store, answer: &AttentionAnswer, now: Timestamp) -> (r:
        TerminalNoticeAction)
        requires
            old(store)@.valid(),
            now.writable(),
        ensures
            final(store)@.valid(),
            old(store)@.one_active_run() ==> final(store)@.one_active_run(),
            final(self).notice() == old(self).notice(),
            ({
                let step = old(self).notice().next(old(self).stage(), answer@, now);
                &&& final(self).stage() == step.stage
                &&& r@ == step.action
                &&& final(store)@ == noted(old(store)@, old(self).notice().run_id, step.notes, now)
            }),
    {
        let step = notice_step(&self.notice, &self.stage, answer, now);
        record_notes(store, self.notice.run_id.as_str(), &step.notes, now);
        self.stage = step.stage;
        step.action
    }
}

fn incident_note(notice: &TerminalNotice, failure_kind: &str, message: &str) -> (r: EventNote)
    ensures
        r@ == notice@.incident(failure_kind@, message@),
{
    let mut text = "terminal notification for ".to_owned();
    text.append(notice.terminal_status.as_str());
    text.append(" was not delivered: ");
    text.append(message);
    EventNote {
        typ: "run_incident".to_owned(),
        payload: EventPayload::RunIncident(
            RunIncidentPayload::warning("terminal_notification_failed", text.as_str()).with_text(
                "visibility_kind",
                failure_kind,
            ).with_text("terminal_status", notice.terminal_status.as_str()).with_text(
                "transition_key",
                notice.transition_key.as_str(),
            ).with_text("source_of_truth", "daemon_terminal_summary"),
        ),
    }
}

fn notes_of_write(notice: &TerminalNotice, written: &WriteAnswer) -> (r: Vec<EventNote>)
    ensures
        r.deep_view() == notice@.write_notes(written@),
{
    let mut notes: Vec<EventNote> = Vec::new();
    match written {
        WriteAnswer::Written => {
            assert(notes.deep_view() =~= Seq::empty());
        },
        WriteAnswer::Failed(error) => {
            let note = incident_note(notice, "record_write_failed", error.as_str());
            notes.push(note);
            assert(notes.deep_view() =~= seq![note@]);
        },
    }
    notes
}

fn with_note(notes: Vec<EventNote>, note: EventNote) -> (r: Vec<EventNote>)
    ensures
        r.deep_view() == notes.deep_view().push(note@),
{
    let mut r = notes;
    r.push(note);
    assert(r.deep_view() =~= notes.deep_view().push(note@));
    r
}

fn notice_record(
    notice: &TerminalNotice,
    delivery_status: &str,
    origin_target: &str,
    error: &str,
    created_at: &str,
) -> (r: TerminalNoticeAction)
    ensures
        r@ == notice@.record(delivery_status@, origin_target@, error@, created_at@),
{
    TerminalNoticeAction::WriteRecord(
        TerminalNotificationRecord {
            schema_version: ATTENTION_PAYLOAD_SCHEMA_VERSION,
            run_id: notice.run_id.dup(),
            terminal_status: notice.terminal_status.dup(),
            transition_key: notice.transition_key.dup(),
            delivery_status: delivery_status.to_owned(),
            origin_target: origin_target.to_owned(),
            delivery_adapter: "herdr".to_owned(),
            delivery_surface: "agent_send".to_owned(),
            error: error.to_owned(),
            payload: notice.feedback.dup(),
            created_at: created_at.to_owned(),
        },
    )
}

fn notice_step(
    notice: &TerminalNotice,
    stage: &TerminalNoticeStage,
    answer: &AttentionAnswer,
    now: Timestamp,
) -> (r: TerminalNoticeStep)
    ensures
        r@ == notice@.next(stage@, answer@, now),
{
    let none: Vec<EventNote> = Vec::new();
    assert(none.deep_view() =~= Seq::empty());
    match (stage, answer) {
        (TerminalNoticeStage::LookingForRecord, AttentionAnswer::RecordExists(known)) => {
            if *known {
                TerminalNoticeStep {
                    stage: TerminalNoticeStage::Finished,
                    notes: none,
                    action: TerminalNoticeAction::Stop,
                }
            } else {
                TerminalNoticeStep {
                    stage: TerminalNoticeStage::ReadingOrigin { created_at: now.to_rfc3339() },
                    notes: none,
                    action: TerminalNoticeAction::ReadOrigin,
                }
            }
        },
        (TerminalNoticeStage::ReadingOrigin { created_at }, AttentionAnswer::Origin(found)) => {
            match found {
                OriginAnswer::Found(origin) => {
                    if is_blank(origin.target.as_str()) {
                        TerminalNoticeStep {
                            stage: TerminalNoticeStage::WritingSkipped,
                            notes: none,
                            action: notice_record(
                                notice,
                                "skipped",
                                "",
                                "missing origin notification target",
                                created_at.as_str(),
                            ),
                        }
                    } else {
                        TerminalNoticeStep {
                            stage: TerminalNoticeStage::WritingPending {
                                origin: origin.dup(),
                                created_at: created_at.dup(),
                            },
                            notes: none,
                            action: notice_record(
                                notice,
                                "pending",
                                origin.target.as_str(),
                                "",
                                created_at.as_str(),
                            ),
                        }
                    }
                },
                OriginAnswer::Missing => TerminalNoticeStep {
                    stage: TerminalNoticeStage::Finished,
                    notes: none,
                    action: TerminalNoticeAction::Stop,
                },
                OriginAnswer::Failed(error) => {
                    let mut text = "origin target read failed: ".to_owned();
                    text.append(error.as_str());
                    TerminalNoticeStep {
                        stage: TerminalNoticeStage::WritingUnreadable { error: error.dup() },
                        notes: none,
                        action: notice_record(
                            notice,
                            "failed",
                            "",
                            text.as_str(),
                            created_at.as_str(),
                        ),
                    }
                },
            }
        },
        (TerminalNoticeStage::WritingSkipped, AttentionAnswer::Record(written)) => {
            let note = EventNote {
                typ: "terminal_notification_skipped".to_owned(),
                payload: EventPayload::TerminalNotification(
                    TerminalNotificationPayload::skipped(
                        notice.terminal_status.as_str(),
                        notice.transition_key.as_str(),
                        "missing_origin_target",
                    ),
                ),
            };
            TerminalNoticeStep {
                stage: TerminalNoticeStage::Finished,
                notes: with_note(notes_of_write(notice, written), note),
                action: TerminalNoticeAction::Stop,
            }
        },
        (TerminalNoticeStage::WritingUnreadable { error }, AttentionAnswer::Record(written)) => {
            let note = incident_note(notice, "origin_target_read_failed", error.as_str());
            TerminalNoticeStep {
                stage: TerminalNoticeStage::Finished,
                notes: with_note(notes_of_write(notice, written), note),
                action: TerminalNoticeAction::Stop,
            }
        },
        (
            TerminalNoticeStage::WritingPending { origin, created_at },
            AttentionAnswer::Record(written),
        ) => {
            let failed = notes_of_write(notice, written);
            match written {
                WriteAnswer::Written => TerminalNoticeStep {
                    stage: TerminalNoticeStage::Sending {
                        origin: origin.dup(),
                        created_at: created_at.dup(),
                    },
                    notes: none,
                    action: TerminalNoticeAction::Send {
                        target: origin.target.dup(),
                        payload: notice.feedback.dup(),
                    },
                },
                WriteAnswer::Failed(_) => TerminalNoticeStep {
                    stage: TerminalNoticeStage::Finished,
                    notes: failed,
                    action: TerminalNoticeAction::Stop,
                },
            }
        },
        (TerminalNoticeStage::Sending { origin, created_at }, AttentionAnswer::Delivery(sent)) => {
            match sent {
                DeliveryAnswer::Delivered { adapter, surface } => TerminalNoticeStep {
                    stage: TerminalNoticeStage::WritingSent {
                        adapter: adapter.dup(),
                        surface: surface.dup(),
                        target_kind: origin.target_kind.dup(),
                    },
                    notes: none,
                    action: notice_record(
                        notice,
                        "sent",
                        origin.target.as_str(),
                        "",
                        created_at.as_str(),
                    ),
                },
                DeliveryAnswer::Failed(error) => TerminalNoticeStep {
                    stage: TerminalNoticeStage::WritingFailed { error: error.dup() },
                    notes: none,
                    action: notice_record(
                        notice,
                        "failed",
                        origin.target.as_str(),
                        error.as_str(),
                        created_at.as_str(),
                    ),
                },
            }
        },
        (
            TerminalNoticeStage::WritingSent { adapter, surface, target_kind },
            AttentionAnswer::Record(written),
        ) => {
            let note = EventNote {
                typ: "terminal_notification_sent".to_owned(),
                payload: EventPayload::TerminalNotification(
                    TerminalNotificationPayload::sent(
                        notice.terminal_status.as_str(),
                        notice.transition_key.as_str(),
                        adapter.as_str(),
                        surface.as_str(),
                        target_kind.as_str(),
                    ),
                ),
            };
            TerminalNoticeStep {
                stage: TerminalNoticeStage::Finished,
                notes: with_note(notes_of_write(notice, written), note),
                action: TerminalNoticeAction::Stop,
            }
        },
        (TerminalNoticeStage::WritingFailed { error }, AttentionAnswer::Record(written)) => {
            let note = incident_note(notice, "delivery_failed", error.as_str());
            TerminalNoticeStep {
                stage: TerminalNoticeStage::Finished,
                notes: with_note(notes_of_write(notice, written), note),
                action: TerminalNoticeAction::Stop,
            }
        },
        _ => TerminalNoticeStep {
            stage: TerminalNoticeStage::Finished,
            notes: none,
            action: TerminalNoticeAction::Stop,
        },
    }
}

/// The mark of a slice that has ended, or has not.
pub open spec fn slice_marker(status: SliceStatus) -> Seq<char> {
    match status {
        SliceStatus::Merged => "✓"@,
        SliceStatus::Blocked | SliceStatus::Failed | SliceStatus::Cancelled => "✗"@,
        SliceStatus::Interrupted => "!"@,
        _ => "◐"@,
    }
}

/// The status of a slice among those of its run; the last one counts.
pub open spec fn slice_status(slices: Seq<SliceRunModel>, slice_id: Seq<char>) -> SliceStatus
    decreases slices.len(),
{
    if slices.len() == 0 {
        SliceStatus::Pending
    } else if slices.last().slice_id == slice_id {
        slices.last().status
    } else {
        slice_status(slices.drop_last(), slice_id)
    }
}

pub open spec fn pane_label(
    slice_id: Seq<char>,
    launch_id: Option<i64>,
    status: SliceStatus,
) -> Seq<char> {
    let marked = slice_marker(status) + " "@ + slice_id;
    if launch_id is Some && launch_id->0 > 0 {
        marked + " launch "@ + decimal_int(launch_id->0 as int) + " "@ + status.text()
    } else {
        marked + " "@ + status.text()
    }
}

/// The panes that events announce, each once, with the label that its slice has earned. Events
/// that name no pane announce none; a slice without a name goes by a general one.
pub open spec fn pane_renames(events: Seq<EventModel>, slices: Seq<SliceRunModel>) -> Seq<
    PaneRenameModel,
>
    decreases events.len(),
{
    if events.len() == 0 {
        Seq::empty()
    } else {
        let before = pane_renames(events.drop_last(), slices);
        let ready = ready_of(events.last().payload);
        if events.last().typ != "cockpit_worker_ready"@ || ready.pane_id.len() == 0
            || ready.slice_id.len() == 0 || renames_pane(before, ready.pane_id) {
            before
        } else {
            let status = slice_status(slices, ready.slice_id);
            before.push(
                PaneRenameModel {
                    pane_id: ready.pane_id,
                    slice_id: ready.slice_id,
                    launch_id: ready.launch_id,
                    launch_stem: ready.launch_stem,
                    status,
                    label: pane_label(ready.slice_id, ready.launch_id, status),
                },
            )
        }
    }
}

pub open spec fn renames_pane(renames: Seq<PaneRenameModel>, pane_id: Seq<char>) -> bool {
    exists|i: int| 0 <= i < renames.len() && (#[trigger] renames[i]).pane_id == pane_id
}

fn marker_of(status: SliceStatus) -> (r: &'static str)
    ensures
        r@ == slice_marker(status),
{
    match status {
        SliceStatus::Merged => "✓",
        SliceStatus::Blocked | SliceStatus::Failed | SliceStatus::Cancelled => "✗",
        SliceStatus::Interrupted => "!",
        _ => "◐",
    }
}

fn status_of(slices: &Vec<SliceRun>, slice_id: &str) -> (r: SliceStatus)
    ensures
        r == slice_status(slices.deep_view(), slice_id@),
{
    let mut n: usize = slices.len();
    assert(slices.deep_view().take(n as int) =~= slices.deep_view());
    while n > 0
        invariant
            n <= slices.len(),
            slice_status(slices.deep_view(), slice_id@) == slice_status(
                slices.deep_view().take(n as int),
                slice_id@,
            ),
        decreases n,
    {
        let ghost part = slices.deep_view().take(n as int);
        assert(part.last() == slices@[n - 1]@);
        assert(part.drop_last() =~= slices.deep_view().take(n - 1));
        if same_text(slices[n - 1].slice_id.as_str(), slice_id) {
            return slices[n - 1].status;
        }
        n = n - 1;
    }
    SliceStatus::Pending
}

fn label_of(slice_id: &str, launch_id: Option<i64>, status: SliceStatus) -> (r: String)
    ensures
        r@ == pane_label(slice_id@, launch_id, status),
{
    let mut r = marker_of(status).to_owned();
    r.append(" ");
    r.append(slice_id);
    match launch_id {
        Some(id) => if id > 0 {
            r.append(" launch ");
            append_int(&mut r, id);
        },
        None => {},
    }
    r.append(" ");
    r.append(status.as_str());
    r
}

/// The worker panes that are to be renamed when a run has ended.
pub fn worker_pane_terminal_renames(events: &Vec<Event>, slice_runs: &Vec<SliceRun>) -> (r: Vec<
    PaneRename,
>)
    ensures
        r.deep_view() == pane_renames(events.deep_view(), slice_runs.deep_view()),
{
    let mut r: Vec<PaneRename> = Vec::new();
    let mut i: usize = 0;
    assert(events.deep_view().take(0) =~= Seq::empty());
    assert(r.deep_view() =~= Seq::empty());
    while i < events.len()
        invariant
            i <= events.len(),
            r.deep_view() == pane_renames(
                events.deep_view().take(i as int),
                slice_runs.deep_view(),
            ),
        decreases events.len() - i,
    {
        proof {
            let part = events.deep_view().take(i + 1);
            assert(part.drop_last() =~= events.deep_view().take(i as int));
            assert(part.last() == events@[i as int]@);
        }
        if same_text(events[i].typ.as_str(), "cockpit_worker_ready") {
            let ready = CockpitWorkerReadyPayload::from_payload(&events[i].payload);
            if !ready.pane_id.as_str().is_empty() && !ready.slice_id.as_str().is_empty()
                && !is_renamed(&r, ready.pane_id.as_str()) {
                let status = status_of(slice_runs, ready.slice_id.as_str());
                let label = label_of(ready.slice_id.as_str(), ready.launch_id, status);
                let rename = PaneRename {
                    pane_id: ready.pane_id,
                    slice_id: ready.slice_id,
                    launch_id: ready.launch_id,
                    launch_stem: ready.launch_stem,
                    status,
                    label,
                };
                let ghost before = r.deep_view();
                r.push(rename);
                assert(r.deep_view() =~= before.push(rename@));
            }
        }
        i = i + 1;
    }
    assert(events.deep_view().take(i as int) =~= events.deep_view());
    r
}

fn is_renamed(renames: &Vec<PaneRename>, pane_id: &str) -> (r: bool)
    ensures
        r == renames_pane(renames.deep_view(), pane_id@),
{
    let mut i: usize = 0;
    while i < renames.len()
        invariant
            i <= renames.len(),
            forall|k: int| 0 <= k < i ==> (#[trigger] renames.deep_view()[k]).pane_id != pane_id@,
        decreases renames.len() - i,
    {
        assert(renames.deep_view()[i as int] == renames@[i as int]@);
        if same_text(renames[i].pane_id.as_str(), pane_id) {
            return true;
        }
        i = i + 1;
    }
    false
}

/// A number that there may be, as an additional field.
pub open spec fn launch_field(launch_id: Option<i64>) -> ExtraValueModel {
    match launch_id {
        Some(id) => ExtraValueModel::Number(id),
        None => ExtraValueModel::Null,
    }
}

/// What is noted of the attempt to rename a pane.
pub open spec fn rename_note(rename: PaneRenameModel, answer: DeliveryAnswerModel) -> EventNoteModel {
    match answer {
        DeliveryAnswerModel::Delivered { adapter, surface } => EventNoteModel {
            typ: "cockpit_worker_renamed"@,
            payload: EventPayloadModel::CockpitWorkerRenamed(
                CockpitWorkerRenamedPayloadModel {
                    pane_id: rename.pane_id,
                    slice_id: rename.slice_id,
                    launch_id: rename.launch_id,
                    launch_stem: rename.launch_stem,
                    status: rename.status.text(),
                    label: rename.label,
                    adapter,
                    surface,
                },
            ),
        },
        DeliveryAnswerModel::Failed(error) => EventNoteModel {
            typ: "run_incident"@,
            payload: EventPayloadModel::RunIncident(
                RunIncidentPayloadModel::warning(
                    "cockpit_worker_rename_failed"@,
                    "worker pane rename failed for "@ + rename.slice_id + ": "@ + error,
                ).with_extra("pane_id"@, ExtraValueModel::Text(rename.pane_id)).with_extra(
                    "slice_id"@,
                    ExtraValueModel::Text(rename.slice_id),
                ).with_extra("launch_id"@, launch_field(rename.launch_id)).with_extra(
                    "launch_stem"@,
                    ExtraValueModel::Text(rename.launch_stem),
                ).with_extra("label"@, ExtraValueModel::Text(rename.label)).with_extra(
                    "source_of_truth"@,
                    ExtraValueModel::Text("daemon_terminal_summary"@),
                ),
            ),
        },
    }
}

fn note_of_rename(rename: &PaneRename, answer: &DeliveryAnswer) -> (r: EventNote)
    ensures
        r@ == rename_note(rename@, answer@),
{
    match answer {
        DeliveryAnswer::Delivered { adapter, surface } => EventNote {
            typ: "cockpit_worker_renamed".to_owned(),
            payload: EventPayload::CockpitWorkerRenamed(
                CockpitWorkerRenamedPayload {
                    pane_id: rename.pane_id.dup(),
                    slice_id: rename.slice_id.dup(),
                    launch_id: rename.launch_id,
                    launch_stem: rename.launch_stem.dup(),
                    status: rename.status.as_str().to_owned(),
                    label: rename.label.dup(),
                    adapter: adapter.dup(),
                    surface: surface.dup(),
                },
            ),
        },
        DeliveryAnswer::Failed(error) => {
            let mut message = "worker pane rename failed for ".to_owned();
            message.append(rename.slice_id.as_str());
            message.append(": ");
            message.append(error.as_str());
            let launch = match rename.launch_id {
                Some(id) => ExtraValue::Number(id),
                None => ExtraValue::Null,
            };
            EventNote {
                typ: "run_incident".to_owned(),
                payload: EventPayload::RunIncident(
                    RunIncidentPayload::warning(
                        "cockpit_worker_rename_failed",
                        message.as_str(),
                    ).with_text("pane_id", rename.pane_id.as_str()).with_text(
                        "slice_id",
                        rename.slice_id.as_str(),
                    ).with_extra("launch_id", launch).with_text(
                        "launch_stem",
                        rename.launch_stem.as_str(),
                    ).with_text("label", rename.label.as_str()).with_text(
                        "source_of_truth",
                        "daemon_terminal_summary",
                    ),
                ),
            }
        },
    }
}

/// Records how the attempt to rename a pane went.
pub fn record_pane_rename(
    store: &mut Store,
    run_id: &str,
    rename: &PaneRename,
    answer: &DeliveryAnswer,
    now: Timestamp,
)
    requires
        old(store)@.valid(),
        now.writable(),
    ensures
        final(store)@.valid(),
        old(store)@.one_active_run() ==> final(store)@.one_active_run(),
        final(store)@ == noted(old(store)@, run_id@, seq![rename_note(rename@, answer@)], now),
{
    let note = note_of_rename(rename, answer);
    let mut notes: Vec<EventNote> = Vec::new();
    notes.push(note);
    assert(notes.deep_view() =~= seq![note@]);
    record_notes(store, run_id, &notes, now);
}

/// The end of a run is told once: a notification that is on record stops at once and notes nothing,
/// and nothing is sent before the notification is on record.
pub proof fn law_terminal_notice_is_sent_once(
    notice: TerminalNoticeModel,
    stage: TerminalNoticeStageModel,
    answer: AttentionAnswerModel,
    now: Timestamp,
)
    ensures
        stage is LookingForRecord && answer == AttentionAnswerModel::RecordExists(true) ==> {
            let step = notice.next(stage, answer, now);
            step.action is Stop && step.notes.len() == 0 && step.stage is Finished
        },
        notice.next(stage, answer, now).action is Send ==> stage is WritingPending && answer
            == AttentionAnswerModel::Record(WriteAnswerModel::Written),
        stage is Finished ==> notice.next(stage, answer, now).action is Stop,
{
}

} // verus!
