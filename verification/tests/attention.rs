use khazad_doom::attention::origin::{
    AttentionDelivery, origin_attention_record_file, origin_attention_safe_segment, worker_question_deadline,
};
use khazad_doom::attention::terminal::{
    record_pane_rename, terminal_feedback_status_supported, terminal_transition_key,
    worker_pane_terminal_renames, TerminalNotification,
};
use khazad_doom::attention::types::{
    AttentionAction, AttentionAnswer, AttentionNotificationRecord,
    AttentionPayload, DeliveryAnswer, OriginAnswer, OriginTarget, TerminalNoticeAction,
    TerminalNotificationRecord, WriteAnswer,
};
use khazad_doom::domain::{
    ReplanEvidenceLink, ReplanProposal, ReplanProposalSource, ReplanProposedChange, Run, RunStatus,
    SliceRun, SliceStatus, WorkerQuestion, WorkerQuestionRecommendation,
};
use khazad_doom::payloads::{
    CockpitWorkerReadyPayload, Event, EventPayload, ExtraValue, RunIncidentPayload,
};
use khazad_doom::store::Store;
use khazad_doom::time::Timestamp;

fn t(seconds: i64) -> Timestamp {
    Timestamp::new(1_783_000_000 + seconds, 0).unwrap()
}

fn store_with_run(id: &str) -> (Store, Run) {
    let run = Run {
        id: id.to_string(),
        repo_id: "repo-fixture".to_string(),
        repo_path: "/tmp/repo".to_string(),
        status: RunStatus::Running,
        base_branch: "main".to_string(),
        base_sha: "base-sha".to_string(),
        integration_branch: format!("khazad/{id}/integration"),
        selected_slice_id: "slice-001".to_string(),
        error: String::new(),
        started_at: t(0),
        updated_at: t(0),
    };
    let mut store = Store::new();
    store.insert_run(&run).unwrap();
    (store, run)
}

/// What lies outside of the store: the recorded notifications, the origin of the run, and a
/// delivery that works or does not.
struct World {
    records: Vec<(String, AttentionNotificationRecord)>,
    terminal_records: Vec<TerminalNotificationRecord>,
    origin: Option<OriginTarget>,
    delivers: bool,
    sent: usize,
}

impl World {
    fn without_origin() -> Self {
        World {
            records: Vec::new(),
            terminal_records: Vec::new(),
            origin: None,
            delivers: false,
            sent: 0,
        }
    }

    fn with_origin(delivers: bool) -> Self {
        World {
            origin: Some(OriginTarget {
                target: "agent-1".to_string(),
                target_kind: "opaque".to_string(),
            }),
            delivers,
            ..World::without_origin()
        }
    }

    fn read_origin(&self) -> AttentionAnswer {
        AttentionAnswer::Origin(match &self.origin {
            Some(origin) => OriginAnswer::Found(origin.clone()),
            None => OriginAnswer::Missing,
        })
    }

    fn deliver(&mut self) -> AttentionAnswer {
        self.sent += 1;
        AttentionAnswer::Delivery(if self.delivers {
            DeliveryAnswer::Delivered {
                adapter: "herdr".to_string(),
                surface: "herdr agent send".to_string(),
            }
        } else {
            DeliveryAnswer::Failed("spawn herdr".to_string())
        })
    }

    fn attend(
        &mut self,
        store: &mut Store,
        mut delivery: AttentionDelivery,
        mut action: AttentionAction,
    ) {
        loop {
            let answer = match action {
                AttentionAction::LookForRecord(file) => AttentionAnswer::RecordExists(
                    self.records.iter().any(|(name, _)| *name == file),
                ),
                AttentionAction::ReadOrigin => self.read_origin(),
                AttentionAction::WriteRecord { file, record } => {
                    self.records.retain(|(name, _)| *name != file);
                    self.records.push((file, record));
                    AttentionAnswer::Record(WriteAnswer::Written)
                }
                AttentionAction::Send { .. } => self.deliver(),
                AttentionAction::Focus(_) => self.deliver(),
                AttentionAction::Stop => return,
            };
            action = delivery.answer(store, &answer, t(5));
        }
    }

    fn attend_question(&mut self, store: &mut Store, question: &WorkerQuestion) {
        if let Some((delivery, action)) = AttentionDelivery::for_question(store, question) {
            self.attend(store, delivery, action);
        }
    }

    fn attend_proposal(&mut self, store: &mut Store, proposal: &ReplanProposal) {
        let commands = vec![format!(
            "khazad-doom replan accept {} {} --reason <reason>",
            proposal.run_id, proposal.id
        )];
        let (delivery, action) =
            AttentionDelivery::for_proposal(&proposal.run_id, proposal, &commands);
        self.attend(store, delivery, action);
    }

    fn attend_end(
        &mut self,
        store: &mut Store,
        mut notification: TerminalNotification,
        mut action: TerminalNoticeAction,
    ) {
        loop {
            let answer = match action {
                TerminalNoticeAction::LookForRecord(key) => AttentionAnswer::RecordExists(
                    self.terminal_records
                        .iter()
                        .any(|record| record.transition_key == key),
                ),
                TerminalNoticeAction::ReadOrigin => self.read_origin(),
                TerminalNoticeAction::WriteRecord(record) => {
                    self.terminal_records
                        .retain(|kept| kept.transition_key != record.transition_key);
                    self.terminal_records.push(record);
                    AttentionAnswer::Record(WriteAnswer::Written)
                }
                TerminalNoticeAction::Send { .. } => self.deliver(),
                TerminalNoticeAction::Stop => return,
            };
            action = notification.answer(store, &answer, t(5));
        }
    }
}

fn incidents(store: &Store, run_id: &str, kind: &str) -> Vec<Event> {
    store
        .get_events(run_id, 100)
        .unwrap()
        .into_iter()
        .filter(|event| match &event.payload {
            EventPayload::RunIncident(payload) => {
                event.typ == "run_incident" && payload.kind == kind
            }
            _ => false,
        })
        .collect()
}

#[test]
fn attention_notification_no_origin_noops_for_worker_question() {
    let (mut store, run) = store_with_run("kd-attention-no-origin");
    let question = store
        .insert_worker_question(
            "q-no-origin",
            &run.id,
            "slice-001",
            1,
            "choose?",
            &vec!["a".to_string(), "b".to_string()],
            0,
            t(1),
        )
        .unwrap();

    let mut world = World::without_origin();
    world.attend_question(&mut store, &question);

    assert!(world.records.is_empty());
    assert!(store.get_events(&run.id, 100).unwrap().is_empty());
}

#[test]
fn attention_notification_worker_question_dedupes_and_notifies_new_question() {
    let (mut store, run) = store_with_run("kd-attention-worker-question");
    let first = store
        .insert_worker_question_with_recommendation(
            "q-1",
            &run.id,
            "slice-001",
            1,
            "choose?",
            &vec!["a".to_string()],
            30,
            &WorkerQuestionRecommendation {
                recommended_answer: "a".to_string(),
                rationale: "a is bounded and reversible".to_string(),
                bounded_within_current_slice_or_mission_authority: true,
                reversible: true,
            },
            t(1),
        )
        .unwrap();
    let second = store
        .insert_worker_question(
            "q-2",
            &run.id,
            "slice-001",
            1,
            "choose again?",
            &vec!["b".to_string()],
            30,
            t(1),
        )
        .unwrap();

    for delivers in [false, true] {
        let mut store = Store::from_tables(store.tables().clone()).unwrap();
        let mut world = World::with_origin(delivers);
        world.attend_question(&mut store, &first);
        let event_count_after_first = store.get_events(&run.id, 100).unwrap().len();
        let sent_after_first = world.sent;
        assert!(sent_after_first > 0);
        world.attend_question(&mut store, &first);
        assert_eq!(
            store.get_events(&run.id, 100).unwrap().len(),
            event_count_after_first
        );
        assert_eq!(world.sent, sent_after_first);
        world.attend_question(&mut store, &second);

        let mut records = world
            .records
            .iter()
            .map(|(_, record)| record.clone())
            .collect::<Vec<_>>();
        records.sort_by(|left, right| left.attention_key.cmp(&right.attention_key));
        assert_eq!(records.len(), 2);
        assert_eq!(records[0].attention_key, "worker-question:q-1");
        assert_eq!(records[1].attention_key, "worker-question:q-2");
        assert_eq!(records[0].origin_target, "agent-1");
        match &records[0].payload {
            AttentionPayload::Question(payload) => {
                assert_eq!(
                    payload.answer_commands[0],
                    "khazad-doom answer kd-attention-worker-question q-1 <answer>"
                );
                assert_eq!(
                    payload.status_commands[0],
                    "khazad-doom status --run kd-attention-worker-question"
                );
                assert_eq!(
                    payload.delivery_semantics,
                    "visibility_only_no_auto_decision"
                );
                assert_eq!(payload.recommended_answer, "a");
                assert_eq!(
                    payload.recommendation_rationale,
                    "a is bounded and reversible"
                );
                assert!(payload.fallback_eligible);
                assert_eq!(
                    payload.deadline_at,
                    Some(first.deadline_at.expect("durable deadline").to_rfc3339())
                );
            }
            other => panic!("unexpected payload {other:?}"),
        }
        assert_eq!(
            store
                .get_events(&run.id, 100)
                .unwrap()
                .iter()
                .any(|event| event.typ == "attention_notification_sent"),
            delivers
        );
    }
}

#[test]
fn attention_notification_replan_dedupes_and_notifies_new_proposal() {
    let (mut store, run) = store_with_run("kd-attention-replan");
    let mut propose = |id: &str| {
        store
            .create_replan_proposal(
                &run.id,
                id,
                &ReplanProposalSource {
                    kind: "worker_finding".to_string(),
                    slice_id: "slice-001".to_string(),
                    phase: "slice_worker".to_string(),
                    attempt: 1,
                    summary: "needs operator review".to_string(),
                },
                &vec![format!("finding-{id}")],
                &vec![ReplanEvidenceLink {
                    kind: "worker_output".to_string(),
                    path: "worker-output.json".to_string(),
                    event_id: 0,
                    summary: "evidence".to_string(),
                }],
                &vec![ReplanProposedChange {
                    kind: "follow_up_or_revision".to_string(),
                    target: "slice-001".to_string(),
                    summary: "revise scope".to_string(),
                    followup_slice_draft: None,
                }],
                "operator_review_required",
                t(1),
            )
            .unwrap()
    };
    let first = propose("rp-1");
    let second = propose("rp-2");

    let mut world = World::with_origin(false);
    world.attend_proposal(&mut store, &first);
    let event_count_after_first = store.get_events(&run.id, 100).unwrap().len();
    world.attend_proposal(&mut store, &first);
    assert_eq!(
        store.get_events(&run.id, 100).unwrap().len(),
        event_count_after_first
    );
    world.attend_proposal(&mut store, &second);

    assert_eq!(world.records.len(), 2);
    assert_eq!(world.records[0].1.attention_key, "replan-proposal:rp-1");
    assert_eq!(world.records[1].1.attention_key, "replan-proposal:rp-2");
    match &world.records[0].1.payload {
        AttentionPayload::Replan(payload) => {
            assert_eq!(
                payload.notification.decision_commands[0],
                "khazad-doom replan accept kd-attention-replan rp-1 --reason <reason>"
            );
            assert_eq!(
                payload.status_commands[1],
                "khazad-doom monitor --run kd-attention-replan"
            );
            assert_eq!(
                payload.delivery_semantics,
                "visibility_only_no_auto_decision"
            );
        }
        other => panic!("unexpected payload {other:?}"),
    }
}

#[test]
fn attention_terminal_transition_dedupes_by_transition_key() {
    let (mut store, run) = store_with_run("kd-attention-terminal-dedupe");
    let progress = store
        .update_progress(
            &run.id,
            "blocked",
            "slice-001",
            1,
            "gate",
            "blocked once",
            "",
            t(1),
        )
        .unwrap();
    let summary = "{\"message\": \"blocked once\", \"feed\": {\"summary_line\": \"run blocked\"}, \
        \"next_commands\": [\"khazad-doom inspect --run kd-attention-terminal-dedupe\"]}";
    let mut world = World::with_origin(false);

    for _ in 0..2 {
        let (notification, action) = TerminalNotification::begin(
            &run,
            RunStatus::Blocked,
            Some(&progress),
            summary,
            "/tmp/repo/run-summary.json",
        )
        .expect("a blocked run is announced");
        world.attend_end(&mut store, notification, action);
    }

    assert_eq!(world.terminal_records.len(), 1);
    let record = &world.terminal_records[0];
    assert_eq!(record.terminal_status, "blocked");
    assert!(record.transition_key.starts_with("terminal:blocked:"));
    assert_eq!(record.delivery_status, "failed");
    assert_eq!(record.payload.message, "run blocked");
    assert_eq!(record.payload.feed_summary_line, "run blocked");
    assert_eq!(
        incidents(&store, &run.id, "terminal_notification_failed").len(),
        1
    );
    assert_eq!(world.sent, 1);
}

#[test]
fn a_delivered_end_is_recorded_as_sent() {
    let (mut store, run) = store_with_run("kd-sent");
    let mut world = World::with_origin(true);
    let (notification, action) = TerminalNotification::begin(
        &run,
        RunStatus::Completed,
        None,
        "{}",
        "/tmp/repo/run-summary.json",
    )
    .unwrap();
    world.attend_end(&mut store, notification, action);
    assert_eq!(world.terminal_records[0].delivery_status, "sent");
    assert!(store
        .get_events(&run.id, 100)
        .unwrap()
        .iter()
        .any(|event| event.typ == "terminal_notification_sent"));
}

#[test]
fn a_running_run_is_not_announced() {
    let (_, run) = store_with_run("kd-running");
    assert!(!terminal_feedback_status_supported(RunStatus::Running));
    assert!(TerminalNotification::begin(&run, RunStatus::Running, None, "{}", "/s").is_none());
}

#[test]
fn transition_keys_tell_ends_apart() {
    let (_, run) = store_with_run("kd-key");
    let blocked = terminal_transition_key(RunStatus::Blocked, None, &run, "{}");
    assert!(blocked.starts_with("terminal:blocked:"));
    assert_ne!(
        blocked,
        terminal_transition_key(RunStatus::Failed, None, &run, "{}")
    );
    assert_eq!(
        blocked,
        terminal_transition_key(RunStatus::Blocked, None, &run, "{}")
    );
}

#[test]
fn attention_worker_pane_terminal_rename_dedupes_pane_ids() {
    let (mut store, run) = store_with_run("kd-attention-pane-rename");
    let ready = |id: i64| Event {
        id,
        run_id: run.id.clone(),
        typ: "cockpit_worker_ready".to_string(),
        payload: EventPayload::CockpitWorkerReady(CockpitWorkerReadyPayload {
            pane_id: "pane-1".to_string(),
            slice_id: "slice-001".to_string(),
            launch_id: Some(41),
            launch_stem: "slice-001.launch-41".to_string(),
            ..CockpitWorkerReadyPayload::default()
        }),
        created_at: t(1),
    };
    let events = vec![ready(1), ready(2)];
    let slice_runs = vec![SliceRun {
        run_id: run.id.clone(),
        slice_id: "slice-001".to_string(),
        status: SliceStatus::Merged,
        branch: String::new(),
        commit_sha: String::new(),
        attempts: 1,
        last_error: String::new(),
    }];

    for rename in worker_pane_terminal_renames(&events, &slice_runs) {
        record_pane_rename(
            &mut store,
            &run.id,
            &rename,
            &DeliveryAnswer::Failed("spawn herdr".to_string()),
            t(2),
        );
    }

    let rename_incidents = incidents(&store, &run.id, "cockpit_worker_rename_failed");
    assert_eq!(rename_incidents.len(), 1);
    match &rename_incidents[0].payload {
        EventPayload::RunIncident(payload) => {
            let extra = |key: &str| {
                payload
                    .extra
                    .iter()
                    .find(|field| field.key == key)
                    .map(|field| field.value.clone())
            };
            assert_eq!(extra("launch_id"), Some(ExtraValue::Number(41)));
            assert_eq!(
                extra("launch_stem"),
                Some(ExtraValue::Text("slice-001.launch-41".to_string()))
            );
            assert_eq!(
                extra("label"),
                Some(ExtraValue::Text("✓ slice-001 launch 41 merged".to_string()))
            );
        }
        other => panic!("unexpected payload {other:?}"),
    }
}

#[test]
fn worker_question_deadline_uses_the_durable_absolute_deadline() {
    let now = t(0);
    let deadline = t(5);
    let question = WorkerQuestion {
        id: "q-deadline".to_string(),
        run_id: "run".to_string(),
        slice_id: "slice".to_string(),
        attempt: 1,
        launch_id: None,
        question: "choose".to_string(),
        options: Vec::new(),
        timeout_seconds: 5,
        recommended_answer: String::new(),
        recommendation_rationale: String::new(),
        bounded_within_current_slice_or_mission_authority: false,
        reversible: false,
        fallback_eligible: false,
        deadline_at: Some(deadline),
        state: "pending".to_string(),
        asked_at: now,
        answered_at: None,
        answer: String::new(),
        answer_source: None,
    };

    assert_eq!(
        worker_question_deadline(&question),
        Some(deadline.to_rfc3339())
    );
}

#[test]
fn record_files_hold_safe_names() {
    assert_eq!(
        origin_attention_safe_segment("worker-question:q/1"),
        "worker-question_q_1"
    );
    let file = origin_attention_record_file("worker-question:q/1");
    assert!(file.starts_with("attention-"));
    assert!(file.ends_with(".json"));
    assert!(!file.contains('/'));
}

fn announced(payload: EventPayload) -> Event {
    Event {
        id: 1,
        run_id: "run-a".to_string(),
        typ: "cockpit_worker_ready".to_string(),
        payload,
        created_at: t(1),
    }
}

fn document(text: &str) -> EventPayload {
    EventPayload::Document(text.to_string())
}

#[test]
fn panes_are_renamed_whatever_their_event_was_recorded_as() {
    let rename = |payload: EventPayload| {
        worker_pane_terminal_renames(&vec![announced(payload)], &Vec::new())
            .into_iter()
            .map(|rename| (rename.pane_id, rename.slice_id, rename.launch_id, rename.label))
            .next()
    };
    let renamed = |pane: &str, slice: &str, launch: Option<i64>, label: &str| {
        Some((pane.to_string(), slice.to_string(), launch, label.to_string()))
    };
    assert_eq!(
        rename(document(
            "{\"pane_id\": \"p-1\", \"slice_id\": \" s \", \"launch_id\": 7, \"other\": 1}"
        )),
        renamed("p-1", " s ", Some(7), "◐  s  launch 7 pending")
    );
    assert_eq!(
        rename(document("{\"pane_id\": \" p-1 \", \"slice_id\": \"s\", \"attempt\": \"2\"}")),
        renamed("p-1", "s", None, "◐ s pending")
    );
    assert_eq!(
        rename(document("{\"pane_id\": \"p-1\", \"slice_id\": \"  \"}")),
        renamed("p-1", "slice", None, "◐ slice pending")
    );
    assert_eq!(
        rename(document(
            "{\"pane_id\": \" p \", \"workspace\": \"a\", \"workspace_label\": \"b\"}"
        )),
        renamed("p", "slice", None, "◐ slice pending")
    );
    assert_eq!(
        rename(document("[\"a\", \"m\", \"w\", \"x\", \"p-2\", \"s\", 1, null]")),
        renamed("p-2", "s", None, "◐ s pending")
    );
    assert_eq!(rename(document("[\"a\", \"m\", \"w\", \"x\", 5]")), None);
    assert_eq!(rename(document("\"p-1\"")), None);
    assert_eq!(rename(document("{\"slice_id\": \"s\"}")), None);
    assert_eq!(
        rename(EventPayload::CockpitWorkerReady(CockpitWorkerReadyPayload {
            pane_id: "p-3".to_string(),
            ..CockpitWorkerReadyPayload::default()
        })),
        renamed("p-3", "slice", None, "◐ slice pending")
    );
    let incident = RunIncidentPayload::warning("k", "m").with_text("pane_id", "p-4");
    assert_eq!(
        rename(EventPayload::RunIncident(incident)),
        renamed("p-4", "slice", None, "◐ slice pending")
    );
}
