use khazad_doom::decode::{worker_question_from_row, QuestionColumns, RowError};
use khazad_doom::domain::{
    DecisionCommandOutcome, Run, RunStatus, SliceRun, SliceStatus, WorkerQuestion,
    WorkerQuestionAnswerSource, WorkerQuestionRecommendation,
};
use khazad_doom::error::StoreError;
use khazad_doom::payloads::{EventPayload, ExtraValue};
use khazad_doom::rows::WorkerQuestionDecisionCommand;
use khazad_doom::store::Store;
use khazad_doom::time::Timestamp;

fn t(seconds: i64) -> Timestamp {
    Timestamp::new(1_783_000_000 + seconds, 0).unwrap()
}

fn run(id: &str, repo_path: &str, status: RunStatus, started_at: Timestamp) -> Run {
    Run {
        id: id.to_string(),
        repo_id: format!("repo-{repo_path}"),
        repo_path: repo_path.to_string(),
        status,
        base_branch: "main".to_string(),
        base_sha: "base".to_string(),
        integration_branch: format!("khazad/{id}/integration"),
        selected_slice_id: "slice-001".to_string(),
        error: String::new(),
        started_at,
        updated_at: started_at,
    }
}

fn store_with_run(id: &str) -> Store {
    let mut store = Store::new();
    store
        .insert_run(&run(id, "/tmp/repo", RunStatus::Running, t(0)))
        .unwrap();
    store
}

fn with_room(store: &Store, events: i64) -> Store {
    let mut tables = store.tables().clone();
    tables.last_event_id = i64::MAX - events;
    Store::from_tables(tables).unwrap()
}

fn count(store: &Store, run_id: &str, typ: &str) -> usize {
    store
        .get_events(run_id, 100)
        .unwrap()
        .iter()
        .filter(|event| event.typ == typ)
        .count()
}

fn slice(run_id: &str, slice_id: &str, status: SliceStatus, attempts: usize) -> SliceRun {
    SliceRun {
        run_id: run_id.to_string(),
        slice_id: slice_id.to_string(),
        status,
        branch: String::new(),
        commit_sha: String::new(),
        attempts,
        last_error: String::new(),
    }
}

fn options(texts: &[&str]) -> Vec<String> {
    texts.iter().map(|text| text.to_string()).collect()
}

fn reversible_a() -> WorkerQuestionRecommendation {
    WorkerQuestionRecommendation {
        recommended_answer: "A".to_string(),
        rationale: "A is reversible".to_string(),
        bounded_within_current_slice_or_mission_authority: true,
        reversible: true,
    }
}

fn asked(question: &WorkerQuestion) -> Result<EventPayload, StoreError> {
    Ok(EventPayload::Document(format!(
        "{{\"question_id\":\"{}\"}}",
        question.id
    )))
}

fn open_active_test_question(
    store: &mut Store,
    id: &str,
    run_id: &str,
    slice_id: &str,
    attempt: usize,
    question: &str,
    recommendation: &WorkerQuestionRecommendation,
) -> Result<WorkerQuestion, StoreError> {
    store.open_active_worker_question_with_recommendation(
        id,
        run_id,
        slice_id,
        attempt,
        question,
        &options(&["A", "B"]),
        60,
        recommendation,
        "worker_question_asked",
        asked,
        "awaiting operator answer",
        t(1),
    )
}

/// The store with another deadline on a question.
fn with_deadline(store: &Store, id: &str, deadline: Timestamp) -> Store {
    let mut tables = store.tables().clone();
    for row in tables.questions.iter_mut() {
        if row.question.id == id {
            row.question.deadline_at = Some(deadline);
        }
    }
    Store::from_tables(tables).unwrap()
}

fn state_of(store: &Store, id: &str) -> String {
    store
        .get_worker_question(id)
        .unwrap()
        .expect("question")
        .state
}

fn answer(text: &str, source: WorkerQuestionAnswerSource) -> WorkerQuestionDecisionCommand {
    WorkerQuestionDecisionCommand::answer(text, source, "operator answered; worker resuming")
}

#[test]
fn worker_question_recommendation_eligibility_is_exact_and_bounded() {
    let mut store = store_with_run("run-eligibility");
    let eligible = reversible_a();
    let cases = [
        ("eligible", eligible.clone(), vec!["A", "B"], true),
        (
            "empty",
            WorkerQuestionRecommendation {
                recommended_answer: String::new(),
                ..eligible.clone()
            },
            vec!["A", "B"],
            false,
        ),
        (
            "non-option",
            WorkerQuestionRecommendation {
                recommended_answer: "C".to_string(),
                ..eligible.clone()
            },
            vec!["A", "B"],
            false,
        ),
        (
            "no-rationale",
            WorkerQuestionRecommendation {
                rationale: String::new(),
                ..eligible.clone()
            },
            vec!["A", "B"],
            false,
        ),
        (
            "unbounded",
            WorkerQuestionRecommendation {
                bounded_within_current_slice_or_mission_authority: false,
                ..eligible.clone()
            },
            vec!["A", "B"],
            false,
        ),
        (
            "irreversible",
            WorkerQuestionRecommendation {
                reversible: false,
                ..eligible.clone()
            },
            vec!["A", "B"],
            false,
        ),
        ("duplicate-option", eligible.clone(), vec!["A", "A"], false),
        (
            "empty-option",
            WorkerQuestionRecommendation {
                recommended_answer: String::new(),
                ..eligible.clone()
            },
            vec!["", "B"],
            false,
        ),
    ];

    for (id, recommendation, texts, expected) in cases {
        let question = store
            .insert_worker_question_with_recommendation(
                id,
                "run-eligibility",
                "slice-001",
                1,
                "Which path?",
                &options(&texts),
                60,
                &recommendation,
                t(1),
            )
            .unwrap();
        assert_eq!(question.fallback_eligible, expected, "case {id}");
        assert!(question.deadline_at.is_some());
        assert_eq!(
            store
                .get_worker_question(id)
                .unwrap()
                .expect("durable question")
                .fallback_eligible,
            expected,
            "durable case {id}"
        );
    }
}

fn legacy_columns() -> QuestionColumns {
    QuestionColumns {
        id: "q-legacy".to_string(),
        run_id: "run-legacy".to_string(),
        slice_id: "slice-001".to_string(),
        attempt: 1,
        launch_id: None,
        question: "Choose?".to_string(),
        options_json: "[\"A\",\"B\"]".to_string(),
        timeout_seconds: 60,
        state: "answered".to_string(),
        asked_at: "2026-07-10T00:00:00+00:00".to_string(),
        answered_at: "2026-07-10T00:00:10+00:00".to_string(),
        answer: "A".to_string(),
        recommended_answer: String::new(),
        recommendation_rationale: String::new(),
        bounded_within_current_slice_or_mission_authority: false,
        reversible: false,
        fallback_eligible: false,
        deadline_at: String::new(),
        answer_source: String::new(),
    }
}

#[test]
fn legacy_worker_question_rows_gain_readable_fallback_defaults() {
    let question =
        worker_question_from_row(&legacy_columns()).expect("legacy row remains readable");
    assert_eq!(question.answer, "A");
    assert_eq!(question.recommended_answer, "");
    assert!(!question.fallback_eligible);
    assert_eq!(question.answer_source, None);
    assert_eq!(
        question
            .deadline_at
            .expect("derived legacy deadline")
            .to_rfc3339(),
        "2026-07-10T00:01:00+00:00"
    );
}

#[test]
fn legacy_worker_questions_migrate_without_fallback_authority() {
    let question = worker_question_from_row(&QuestionColumns {
        attempt: 0,
        timeout_seconds: 0,
        state: "pending".to_string(),
        asked_at: "2026-07-01T00:00:00Z".to_string(),
        answered_at: String::new(),
        answer: String::new(),
        ..legacy_columns()
    })
    .expect("migrated legacy question");
    assert_eq!(question.attempt, 0);
    assert_eq!(question.timeout_seconds, 0);
    assert_eq!(question.recommended_answer, "");
    assert_eq!(question.recommendation_rationale, "");
    assert!(!question.bounded_within_current_slice_or_mission_authority);
    assert!(!question.reversible);
    assert!(!question.fallback_eligible);
    assert_eq!(question.deadline_at, None);
    assert_eq!(question.answer_source, None);
    assert_eq!(question.state, "pending");
}

#[test]
fn a_question_row_that_cannot_be_read_names_its_column() {
    let read = |columns: QuestionColumns| worker_question_from_row(&columns).unwrap_err();
    assert_eq!(
        read(QuestionColumns {
            options_json: "[1]".to_string(),
            ..legacy_columns()
        }),
        RowError::Options
    );
    assert_eq!(
        read(QuestionColumns {
            asked_at: "yesterday".to_string(),
            ..legacy_columns()
        }),
        RowError::AskedAt
    );
    assert_eq!(
        read(QuestionColumns {
            answered_at: "yesterday".to_string(),
            ..legacy_columns()
        }),
        RowError::AnsweredAt
    );
    assert_eq!(
        read(QuestionColumns {
            deadline_at: "tomorrow".to_string(),
            ..legacy_columns()
        }),
        RowError::DeadlineAt
    );
}

#[test]
fn worker_question_cas_rejects_terminal_and_stale_attempts() {
    let mut store = store_with_run("run-guard");
    store
        .upsert_slice_run(&slice("run-guard", "slice-001", SliceStatus::Running, 1))
        .unwrap();
    store
        .update_progress(
            "run-guard",
            "awaiting_operator",
            "slice-001",
            1,
            "ask_operator",
            "awaiting answer",
            "",
            t(1),
        )
        .unwrap();
    store
        .insert_worker_question_with_recommendation(
            "q-terminal",
            "run-guard",
            "slice-001",
            1,
            "Which path?",
            &options(&["A", "B"]),
            60,
            &reversible_a(),
            t(1),
        )
        .unwrap();
    store
        .update_run("run-guard", RunStatus::Completed, "", t(2))
        .unwrap();
    let recommend = WorkerQuestionDecisionCommand::answer(
        "A",
        WorkerQuestionAnswerSource::LlmRecommendationTimeout,
        "recommendation applied",
    );
    let terminal = store
        .decide_worker_question_command("run-guard", "q-terminal", &recommend, t(3))
        .unwrap();
    assert_eq!(terminal.outcome, DecisionCommandOutcome::StaleToken);
    assert_eq!(state_of(&store, "q-terminal"), "pending");

    store
        .update_run("run-guard", RunStatus::Running, "", t(4))
        .unwrap();
    store
        .activate_slice_attempt("run-guard", "slice-001", 2, t(5))
        .unwrap();
    store
        .update_progress(
            "run-guard",
            "awaiting_operator",
            "slice-001",
            2,
            "ask_operator",
            "new attempt awaiting answer",
            "",
            t(5),
        )
        .unwrap();
    let stale = store
        .decide_worker_question_command("run-guard", "q-terminal", &recommend, t(6))
        .unwrap();
    assert_eq!(stale.outcome, DecisionCommandOutcome::Conflict);
    assert_eq!(
        stale.question.expect("interrupted question").state,
        "interrupted"
    );
    assert_eq!(count(&store, "run-guard", "worker_question_interrupted"), 1);
}

#[test]
fn stale_launch_interruption_rolls_back_when_event_append_fails() {
    let mut store = store_with_run("run-stale-launch");
    let launch = store
        .allocate_worker_attempt(
            "run-stale-launch",
            "slice-001",
            1,
            1,
            0,
            0,
            "worker",
            "/tmp/worktrees",
            t(1),
        )
        .unwrap();
    store
        .mark_worker_attempt_launched(launch.launch_id, t(1))
        .unwrap();
    store
        .open_active_worker_question_with_launch_id_and_recommendation(
            "q-stale-launch",
            "run-stale-launch",
            "slice-001",
            1,
            Some(launch.launch_id),
            "Choose?",
            &options(&["A", "B"]),
            60,
            &WorkerQuestionRecommendation::default(),
            "worker_question_asked",
            asked,
            "awaiting operator answer",
            t(2),
        )
        .unwrap();
    store
        .finish_worker_attempt(launch.launch_id, "interrupted", "worker exited", t(3))
        .unwrap();

    let resolve = WorkerQuestionDecisionCommand::resolve_timeout(
        Some(launch.launch_id),
        "worker_question_cancelled",
        "operator question closed",
        "worker remains blocked",
    );
    let mut full = with_room(&store, 0);
    assert!(full
        .decide_worker_question_command("run-stale-launch", "q-stale-launch", &resolve, t(4))
        .is_err());
    assert_eq!(state_of(&full, "q-stale-launch"), "pending");
    assert_eq!(
        count(&full, "run-stale-launch", "worker_question_interrupted"),
        0
    );

    let applied = store
        .decide_worker_question_command("run-stale-launch", "q-stale-launch", &resolve, t(4))
        .unwrap();
    assert_eq!(applied.outcome, DecisionCommandOutcome::StaleToken);
    assert_eq!(
        applied.question.expect("stale question").state,
        "interrupted"
    );
    assert_eq!(
        count(&store, "run-stale-launch", "worker_question_interrupted"),
        1
    );
}

#[test]
fn worker_question_command_returns_typed_answer_outcomes() {
    let mut store = store_with_run("run-question-command");
    store
        .upsert_slice_run(&slice(
            "run-question-command",
            "slice-001",
            SliceStatus::Running,
            1,
        ))
        .unwrap();
    store
        .update_progress(
            "run-question-command",
            "awaiting_operator",
            "slice-001",
            1,
            "ask_operator",
            "awaiting answer",
            "",
            t(1),
        )
        .unwrap();
    store
        .insert_worker_question_with_recommendation(
            "q-command",
            "run-question-command",
            "slice-001",
            1,
            "Which path?",
            &options(&["A", "B"]),
            60,
            &reversible_a(),
            t(1),
        )
        .unwrap();

    let mut decide = |command: WorkerQuestionDecisionCommand| {
        store
            .decide_worker_question_command("run-question-command", "q-command", &command, t(2))
            .unwrap()
    };
    let applied = decide(answer("B", WorkerQuestionAnswerSource::Operator));
    assert_eq!(applied.outcome, DecisionCommandOutcome::Applied);
    assert_eq!(applied.question.as_ref().expect("answer").answer, "B");

    let duplicate = decide(answer("B", WorkerQuestionAnswerSource::Operator));
    assert_eq!(
        duplicate.outcome,
        DecisionCommandOutcome::AlreadyAppliedIdempotently
    );
    let changed_progress = decide(WorkerQuestionDecisionCommand::answer(
        "B",
        WorkerQuestionAnswerSource::Operator,
        "different durable progress evidence",
    ));
    assert_eq!(changed_progress.outcome, DecisionCommandOutcome::Conflict);

    let conflict = decide(WorkerQuestionDecisionCommand::answer(
        "A",
        WorkerQuestionAnswerSource::LlmRecommendationTimeout,
        "recommendation applied; worker resuming",
    ));
    assert_eq!(conflict.outcome, DecisionCommandOutcome::Conflict);
    let events = store.get_events("run-question-command", 100).unwrap();
    let answered = events
        .iter()
        .filter(|event| event.typ == "worker_question_answered")
        .collect::<Vec<_>>();
    assert_eq!(answered.len(), 1);
    match &answered[0].payload {
        EventPayload::WorkerQuestionAnswered(payload) => {
            assert_eq!(payload.answer, "B");
            assert_eq!(payload.answer_source, "operator");
        }
        other => panic!("unexpected payload {other:?}"),
    }

    store
        .update_progress(
            "run-question-command",
            "awaiting_operator",
            "slice-001",
            1,
            "ask_operator",
            "awaiting rollback answer",
            "",
            t(3),
        )
        .unwrap();
    store
        .insert_worker_question_with_recommendation(
            "q-command-rollback",
            "run-question-command",
            "slice-001",
            1,
            "Rollback this answer?",
            &options(&["A", "B"]),
            60,
            &reversible_a(),
            t(3),
        )
        .unwrap();
    let mut store = with_room(&store, 0);
    assert!(store
        .decide_worker_question_command(
            "run-question-command",
            "q-command-rollback",
            &answer("B", WorkerQuestionAnswerSource::Operator),
            t(4)
        )
        .is_err());
    assert_eq!(state_of(&store, "q-command-rollback"), "pending");
    assert_eq!(
        count(&store, "run-question-command", "worker_question_answered"),
        1,
        "a failed event append must roll back the answer"
    );
    assert_eq!(
        store
            .get_progress("run-question-command")
            .unwrap()
            .expect("rolled back progress")
            .phase,
        "awaiting_operator"
    );
}

#[test]
fn simultaneous_operator_fallback_and_legacy_timeout_commands_each_commit_one_outcome() {
    let race = "run-question-race";
    let timeout = WorkerQuestionDecisionCommand::resolve_timeout(
        None,
        "worker_question_timed_out",
        "operator question timed out",
        "worker applying blocked contract",
    );
    for operator_first in [true, false] {
        let mut store = store_with_run(race);
        store
            .upsert_slice_run(&slice(race, "slice-001", SliceStatus::Running, 1))
            .unwrap();
        store
            .update_progress(
                race,
                "awaiting_operator",
                "slice-001",
                1,
                "ask_operator",
                "awaiting answer",
                "",
                t(1),
            )
            .unwrap();
        store
            .insert_worker_question_with_recommendation(
                "q-race-command",
                race,
                "slice-001",
                1,
                "Which path?",
                &options(&["A", "B"]),
                60,
                &reversible_a(),
                t(1),
            )
            .unwrap();
        let mut store = with_deadline(&store, "q-race-command", t(4));
        let operator = answer("B", WorkerQuestionAnswerSource::Operator);
        let commands = if operator_first {
            [&operator, &timeout]
        } else {
            [&timeout, &operator]
        };
        let outcomes = commands.map(|command| {
            store
                .decide_worker_question_command(race, "q-race-command", command, t(5))
                .unwrap()
                .outcome
        });
        assert_eq!(
            outcomes
                .iter()
                .filter(|outcome| **outcome == DecisionCommandOutcome::Applied)
                .count(),
            1
        );
        assert_eq!(
            outcomes
                .iter()
                .filter(|outcome| **outcome == DecisionCommandOutcome::Conflict)
                .count(),
            1
        );

        let question = store
            .get_worker_question("q-race-command")
            .unwrap()
            .expect("durable winner");
        assert_eq!(question.answer, if operator_first { "B" } else { "A" });
        let answered_events = store
            .get_events(race, 100)
            .unwrap()
            .into_iter()
            .filter(|event| event.typ == "worker_question_answered")
            .collect::<Vec<_>>();
        assert_eq!(answered_events.len(), 1);
        match &answered_events[0].payload {
            EventPayload::WorkerQuestionAnswered(payload) => {
                assert_eq!(payload.answer, question.answer);
                assert_eq!(
                    payload.answer_source,
                    question.answer_source.expect("winner source").as_str()
                );
            }
            other => panic!("unexpected payload {other:?}"),
        }

        store
            .update_progress(
                race,
                "awaiting_operator",
                "slice-001",
                1,
                "ask_operator",
                "awaiting legacy answer",
                "",
                t(6),
            )
            .unwrap();
        store
            .insert_worker_question(
                "q-race-legacy-timeout",
                race,
                "slice-001",
                1,
                "Legacy question?",
                &Vec::new(),
                60,
                t(6),
            )
            .unwrap();
        let operator = answer("legacy answer", WorkerQuestionAnswerSource::Operator);
        let commands = if operator_first {
            [&operator, &timeout]
        } else {
            [&timeout, &operator]
        };
        let outcomes = commands.map(|command| {
            store
                .decide_worker_question_command(race, "q-race-legacy-timeout", command, t(7))
                .unwrap()
                .outcome
        });
        assert_eq!(
            outcomes
                .iter()
                .filter(|outcome| **outcome == DecisionCommandOutcome::Applied)
                .count(),
            1
        );
        assert_eq!(
            outcomes
                .iter()
                .filter(|outcome| **outcome == DecisionCommandOutcome::Conflict)
                .count(),
            1
        );
        let question = store
            .get_worker_question("q-race-legacy-timeout")
            .unwrap()
            .expect("legacy timeout winner");
        assert!(matches!(question.state.as_str(), "answered" | "timed_out"));
        let authoritative_events = store
            .get_events(race, 100)
            .unwrap()
            .into_iter()
            .filter(|event| match &event.payload {
                EventPayload::WorkerQuestionAnswered(payload) => {
                    payload.question_id == "q-race-legacy-timeout"
                }
                EventPayload::RunIncident(payload) => payload.extra.iter().any(|field| {
                    field.key == "question_id"
                        && field.value == ExtraValue::Text("q-race-legacy-timeout".to_string())
                }),
                _ => false,
            })
            .collect::<Vec<_>>();
        assert_eq!(authoritative_events.len(), 1);
        assert_eq!(
            authoritative_events[0].typ,
            if question.state == "answered" {
                "worker_question_answered"
            } else {
                "run_incident"
            }
        );
        assert_eq!(
            store
                .get_progress(race)
                .unwrap()
                .expect("legacy resolution progress")
                .phase,
            "worker_running"
        );
    }
}

#[test]
fn activating_next_attempt_interrupts_stale_pending_question() {
    let mut store = store_with_run("run-stale");
    store
        .upsert_slice_run(&slice("run-stale", "slice-001", SliceStatus::Running, 1))
        .unwrap();
    open_active_test_question(
        &mut store,
        "q-stale",
        "run-stale",
        "slice-001",
        1,
        "Choose?",
        &WorkerQuestionRecommendation::default(),
    )
    .unwrap();

    store
        .update_slice_status(
            "run-stale",
            "slice-001",
            SliceStatus::RepairNeeded,
            "retrying",
        )
        .unwrap();
    store
        .activate_slice_attempt("run-stale", "slice-001", 2, t(2))
        .unwrap();

    let stale = store
        .get_worker_question("q-stale")
        .unwrap()
        .expect("stale question");
    assert_eq!(stale.state, "interrupted");
    assert!(stale.answer.contains("superseded by worker attempt 2"));
    assert!(!store
        .has_pending_worker_question("run-stale", "slice-001", 1)
        .unwrap());
    let interrupted_events = store
        .get_events("run-stale", 100)
        .unwrap()
        .into_iter()
        .filter(|event| event.typ == "worker_question_interrupted")
        .collect::<Vec<_>>();
    assert_eq!(interrupted_events.len(), 1);
    match &interrupted_events[0].payload {
        EventPayload::WorkerQuestionInterrupted(payload) => {
            assert_eq!(payload.question_id, "q-stale");
            assert_eq!(payload.active_attempt, Some(2));
        }
        other => panic!("unexpected payload {other:?}"),
    }
    let current = open_active_test_question(
        &mut store,
        "q-current",
        "run-stale",
        "slice-001",
        2,
        "Current retry choice?",
        &WorkerQuestionRecommendation::default(),
    )
    .unwrap();
    assert_eq!(current.state, "pending");
    assert!(store
        .worker_attempt_is_active("run-stale", "slice-001", 2)
        .unwrap());
    assert_eq!(
        store.activate_slice_attempt("run-stale", "slice-001", 1, t(3)),
        Err(StoreError::StaleSliceAttempt)
    );
}

#[test]
fn worker_question_open_is_atomic_with_event_and_progress() {
    let mut store = store_with_run("run-open");
    store
        .upsert_slice_run(&slice("run-open", "slice-001", SliceStatus::Running, 1))
        .unwrap();
    store
        .update_progress(
            "run-open",
            "worker_running",
            "slice-001",
            1,
            "pi",
            "worker running",
            "",
            t(1),
        )
        .unwrap();

    let failed = store.open_active_worker_question_with_recommendation(
        "q-failed",
        "run-open",
        "slice-001",
        1,
        "Choose?",
        &options(&["A", "B"]),
        60,
        &reversible_a(),
        "worker_question_asked",
        |_: &WorkerQuestion| Err(StoreError::EventLogFull),
        "awaiting operator answer",
        t(2),
    );
    assert!(failed.is_err());
    assert!(store.get_worker_question("q-failed").unwrap().is_none());
    assert!(store.get_events("run-open", 100).unwrap().is_empty());
    assert_eq!(
        store
            .get_progress("run-open")
            .unwrap()
            .expect("progress")
            .phase,
        "worker_running"
    );

    let opened = open_active_test_question(
        &mut store,
        "q-opened",
        "run-open",
        "slice-001",
        1,
        "Choose?",
        &reversible_a(),
    )
    .unwrap();
    assert_eq!(opened.state, "pending");
    let events = store.get_events("run-open", 100).unwrap();
    assert_eq!(events.len(), 1);
    assert_eq!(events[0].typ, "worker_question_asked");
    assert_eq!(
        events[0].payload,
        EventPayload::Document("{\"question_id\":\"q-opened\"}".to_string())
    );
    let progress = store.get_progress("run-open").unwrap().expect("progress");
    assert_eq!(progress.phase, "awaiting_operator");
    assert_eq!(progress.slice_id, "slice-001");
    assert_eq!(progress.attempt, 1);
    assert_eq!(
        open_active_test_question(
            &mut store,
            "q-second",
            "run-open",
            "slice-001",
            1,
            "Choose?",
            &reversible_a(),
        ),
        Err(StoreError::PendingQuestionExists)
    );
    assert_eq!(
        open_active_test_question(
            &mut store,
            "q-second",
            "run-open",
            "slice-001",
            2,
            "Choose?",
            &reversible_a(),
        ),
        Err(StoreError::QuestionFromInactiveAttempt)
    );
}

#[test]
fn worker_question_timeout_cas_is_idempotent_and_parallel_attempts_stay_independent() {
    let mut store = store_with_run("run-parallel");
    for slice_id in ["slice-a", "slice-b"] {
        store
            .upsert_slice_run(&slice("run-parallel", slice_id, SliceStatus::Running, 1))
            .unwrap();
    }
    let legacy = WorkerQuestionRecommendation::default();
    let mut open = |id: &str, slice_id: &str, text: &str| {
        store
            .open_active_worker_question_with_recommendation(
                id,
                "run-parallel",
                slice_id,
                1,
                text,
                &options(&["yes", "no"]),
                60,
                &legacy,
                "worker_question_asked",
                asked,
                "awaiting operator answer",
                t(1),
            )
            .unwrap()
    };
    let question_a = open("q-a", "slice-a", "Choose A?");
    let question_b = open("q-b", "slice-b", "Choose B?");
    assert_eq!(question_a.state, "pending");
    assert_eq!(question_b.state, "pending");

    let timeout = WorkerQuestionDecisionCommand::timeout(
        "worker_question_timed_out",
        "operator question timed out",
        "worker applying blocked contract",
    );
    let first = store
        .decide_worker_question_command("run-parallel", "q-b", &timeout, t(2))
        .unwrap();
    let duplicate = store
        .decide_worker_question_command("run-parallel", "q-b", &timeout, t(3))
        .unwrap();
    assert_eq!(first.outcome, DecisionCommandOutcome::Applied);
    assert_eq!(
        duplicate.outcome,
        DecisionCommandOutcome::AlreadyAppliedIdempotently
    );
    assert_eq!(
        duplicate.question.expect("timed out question").state,
        "timed_out"
    );
    let conflicting_timeout = store
        .decide_worker_question_command(
            "run-parallel",
            "q-b",
            &WorkerQuestionDecisionCommand::timeout(
                "different_incident_code",
                "different timeout attribution",
                "different progress evidence",
            ),
            t(4),
        )
        .unwrap();
    assert_eq!(
        conflicting_timeout.outcome,
        DecisionCommandOutcome::Conflict
    );
    assert_eq!(count(&store, "run-parallel", "run_incident"), 1);
    assert_eq!(state_of(&store, "q-a"), "pending");
    let progress = store
        .get_progress("run-parallel")
        .unwrap()
        .expect("progress");
    assert_eq!(progress.phase, "awaiting_operator");
    assert_eq!(progress.slice_id, "slice-a");
    assert_eq!(progress.attempt, 1);
}

#[test]
fn parallel_worker_lifecycle_progress_cannot_hide_pending_question() {
    let race = "run-progress-race";
    let mut store = store_with_run(race);
    for slice_id in ["slice-a", "slice-b"] {
        store
            .upsert_slice_run(&slice(race, slice_id, SliceStatus::Running, 1))
            .unwrap();
    }
    open_active_test_question(
        &mut store,
        "q-a",
        race,
        "slice-a",
        1,
        "Choose A?",
        &WorkerQuestionRecommendation::default(),
    )
    .unwrap();

    store
        .update_progress(
            race,
            "ready_to_merge",
            "slice-b",
            1,
            "",
            "slice B is ready to merge",
            "",
            t(2),
        )
        .unwrap();

    let awaiting = store.get_progress(race).unwrap().expect("progress");
    assert_eq!(awaiting.phase, "awaiting_operator");
    assert_eq!(awaiting.slice_id, "slice-a");
    assert_eq!(awaiting.attempt, 1);

    let transition = store
        .decide_worker_question_command(
            race,
            "q-a",
            &WorkerQuestionDecisionCommand::timeout(
                "worker_question_timed_out",
                "operator question timed out",
                "worker resuming after blocked contract",
            ),
            t(3),
        )
        .unwrap();
    assert_eq!(transition.outcome, DecisionCommandOutcome::Applied);
    let resumed = store.get_progress(race).unwrap().expect("progress");
    assert_eq!(resumed.phase, "worker_running");
    assert_eq!(resumed.slice_id, "slice-a");
    assert_eq!(resumed.attempt, 1);
}

#[test]
fn fallback_timeout_duplicates_require_exact_command_evidence() {
    let exact = "run-fallback-exact";
    let mut store = store_with_run(exact);
    store
        .upsert_slice_run(&slice(exact, "slice-001", SliceStatus::Running, 1))
        .unwrap();
    open_active_test_question(
        &mut store,
        "q-fallback-exact",
        exact,
        "slice-001",
        1,
        "Choose?",
        &reversible_a(),
    )
    .unwrap();
    let deadline = Timestamp::parse("2020-01-01T00:00:00Z").unwrap();
    let mut store = with_deadline(&store, "q-fallback-exact", deadline);

    let mut decide = |incident: &str| {
        store
            .decide_worker_question_command(
                exact,
                "q-fallback-exact",
                &WorkerQuestionDecisionCommand::resolve_timeout(
                    None,
                    incident,
                    "operator question timed out",
                    "worker applying durable fallback",
                ),
                t(2),
            )
            .unwrap()
            .outcome
    };
    assert_eq!(
        decide("worker_question_timed_out"),
        DecisionCommandOutcome::Applied
    );
    assert_eq!(
        decide("worker_question_timed_out"),
        DecisionCommandOutcome::AlreadyAppliedIdempotently
    );
    assert_eq!(
        decide("different_incident_attribution"),
        DecisionCommandOutcome::Conflict
    );
    assert_eq!(count(&store, exact, "worker_question_answered"), 1);
}

#[test]
fn worker_question_fallback_cannot_commit_before_durable_deadline() {
    let mut store = store_with_run("run-early");
    store
        .upsert_slice_run(&slice("run-early", "slice-001", SliceStatus::Running, 1))
        .unwrap();
    open_active_test_question(
        &mut store,
        "q-early",
        "run-early",
        "slice-001",
        1,
        "Choose?",
        &reversible_a(),
    )
    .unwrap();
    let recommend = |text: &str| {
        WorkerQuestionDecisionCommand::answer(
            text,
            WorkerQuestionAnswerSource::LlmRecommendationTimeout,
            "worker resuming",
        )
    };
    assert_eq!(
        store
            .decide_worker_question_command("run-early", "q-early", &recommend("A"), t(2))
            .unwrap_err(),
        StoreError::BeforeDeadline
    );
    assert_eq!(state_of(&store, "q-early"), "pending");
    assert_eq!(count(&store, "run-early", "worker_question_answered"), 0);

    assert_eq!(
        store
            .decide_worker_question_command("run-early", "q-early", &recommend("B"), t(61))
            .unwrap_err(),
        StoreError::AnswerNotRecommended
    );
    assert_eq!(
        store
            .decide_worker_question_command("run-early", "q-early", &recommend("A"), t(61))
            .unwrap()
            .outcome,
        DecisionCommandOutcome::Applied
    );
}

#[test]
fn a_question_without_recommendation_or_deadline_has_no_fallback() {
    let mut store = store_with_run("run-a");
    store
        .upsert_slice_run(&slice("run-a", "slice-001", SliceStatus::Running, 1))
        .unwrap();
    store
        .insert_worker_question(
            "q-plain",
            "run-a",
            "slice-001",
            1,
            "Choose?",
            &options(&["A"]),
            0,
            t(1),
        )
        .unwrap();
    let recommend = WorkerQuestionDecisionCommand::answer(
        "A",
        WorkerQuestionAnswerSource::LlmRecommendationTimeout,
        "m",
    );
    assert_eq!(
        store
            .decide_worker_question_command("run-a", "q-plain", &recommend, t(2))
            .unwrap_err(),
        StoreError::NoEligibleRecommendation
    );
    store
        .insert_worker_question_with_recommendation(
            "q-open-ended",
            "run-a",
            "slice-001",
            1,
            "Choose?",
            &options(&["A"]),
            0,
            &reversible_a(),
            t(1),
        )
        .unwrap();
    assert_eq!(
        store
            .decide_worker_question_command("run-a", "q-open-ended", &recommend, t(2))
            .unwrap_err(),
        StoreError::NoFallbackDeadline
    );
    assert_eq!(
        store
            .decide_worker_question_command("run-a", "q-x", &recommend, t(2))
            .unwrap()
            .outcome,
        DecisionCommandOutcome::NotFound
    );
    assert_eq!(
        store.insert_worker_question(
            "q-plain",
            "run-a",
            "slice-001",
            1,
            "Choose?",
            &Vec::new(),
            0,
            t(1)
        ),
        Err(StoreError::QuestionExists)
    );
}

#[test]
fn an_inactive_worker_loses_its_question() {
    let mut store = store_with_run("run-a");
    store
        .upsert_slice_run(&slice("run-a", "slice-001", SliceStatus::Running, 1))
        .unwrap();
    open_active_test_question(
        &mut store,
        "q-1",
        "run-a",
        "slice-001",
        1,
        "Choose?",
        &reversible_a(),
    )
    .unwrap();
    let kept = store
        .interrupt_worker_question_if_inactive_cas("run-a", "q-1", "gone", t(2))
        .unwrap();
    assert_eq!(kept.state, "pending");
    store
        .update_slice_status("run-a", "slice-001", SliceStatus::Failed, "")
        .unwrap();
    let lost = store
        .interrupt_worker_question_if_inactive_cas("run-a", "q-1", "gone", t(3))
        .unwrap();
    assert_eq!(lost.state, "interrupted");
    assert_eq!(lost.answer, "gone");
    assert_eq!(
        store
            .interrupt_worker_question_if_inactive_cas("run-a", "q-x", "gone", t(3))
            .unwrap_err(),
        StoreError::QuestionNotFound
    );
}

#[test]
fn worker_questions_are_token_scoped_and_single_answered() {
    let mut store = store_with_run("run-1");
    store
        .store_worker_token("run-1", "secret-token", t(1))
        .unwrap();
    store
        .upsert_slice_run(&slice("run-1", "slice-001", SliceStatus::Running, 2))
        .unwrap();
    store
        .update_progress(
            "run-1",
            "awaiting_operator",
            "slice-001",
            2,
            "ask_operator",
            "awaiting answer",
            "",
            t(1),
        )
        .unwrap();

    assert!(store
        .validate_worker_token("run-1", "secret-token")
        .unwrap());
    assert!(!store.validate_worker_token("run-1", "wrong-token").unwrap());
    let question = store
        .insert_worker_question(
            "q-1",
            "run-1",
            "slice-001",
            2,
            "Which path?",
            &options(&["A", "B"]),
            3600,
            t(1),
        )
        .unwrap();
    assert_eq!(question.attempt, 2);
    assert_eq!(question.timeout_seconds, 3600);
    assert_eq!(question.state, "pending");
    assert_eq!(store.list_worker_questions("run-1").unwrap().len(), 1);
    assert_eq!(
        store
            .list_worker_questions_for_repo("/tmp/repo")
            .unwrap()
            .len(),
        1
    );
    assert!(store
        .list_worker_questions_for_repo("/tmp/other")
        .unwrap()
        .is_empty());

    let answered = store
        .decide_worker_question_command(
            "run-1",
            "q-1",
            &answer("A", WorkerQuestionAnswerSource::Operator),
            t(2),
        )
        .unwrap();
    assert_eq!(answered.outcome, DecisionCommandOutcome::Applied);
    let answered = answered.question.expect("answered question");
    assert_eq!(answered.state, "answered");
    assert_eq!(answered.answer, "A");
    let conflict = store
        .decide_worker_question_command(
            "run-1",
            "q-1",
            &answer("B", WorkerQuestionAnswerSource::Operator),
            t(3),
        )
        .unwrap();
    assert_eq!(conflict.outcome, DecisionCommandOutcome::Conflict);
}

#[test]
fn a_stored_token_is_a_digest() {
    let mut store = store_with_run("run-1");
    store.store_worker_token("run-1", "abc", t(1)).unwrap();
    assert_eq!(
        store.tables().tokens[0].token_hash,
        "ba7816bf8f01cfea414140de5dae2223b00361a396177a9cb410ff61f20015ad"
    );
}
