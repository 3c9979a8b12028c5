use khazad_doom::decode::{
    event_from_columns, frontier_from_columns, run_from_columns, run_progress_from_columns,
    slice_run_from_columns, status_source_from_columns, terminal_row_from_columns,
    worker_attempt_ledger_from_row, worker_question_from_row, worker_token_from_columns,
    EventColumns, QuestionColumns, RowError, RunColumns,
};
use khazad_doom::domain::{FrontierBudgetState, MissionEnvelope, Run, RunStatus, SliceRun, SliceStatus};
use khazad_doom::encode::{
    attempt_to_columns, event_to_columns, progress_to_columns, question_to_columns,
    run_to_columns, slice_run_to_columns, status_source_to_columns, terminal_to_columns,
    worker_token_to_columns,
};
use khazad_doom::error::StoreError;
use khazad_doom::payloads::EventPayload;
use khazad_doom::store::Store;
use khazad_doom::time::Timestamp;

fn t(seconds: i64) -> Timestamp {
    Timestamp::new(1_783_000_000 + seconds, 0).unwrap()
}

fn run(id: &str, repo_path: &str, status: RunStatus, started_at: Timestamp) -> Run {
    Run {
        id: id.to_string(),
        repo_id: format!("repo-{repo_path}"),
        repo_path: repo_path.to_string(),
        status,
        base_branch: "main".to_string(),
        base_sha: "base".to_string(),
        integration_branch: format!("khazad/{id}/integration"),
        selected_slice_id: "slice-001".to_string(),
        error: String::new(),
        started_at,
        updated_at: started_at,
    }
}

fn store_with_run(id: &str) -> Store {
    let mut store = Store::new();
    store
        .insert_run(&run(id, "/tmp/repo", RunStatus::Running, t(0)))
        .unwrap();
    store
}

fn slice(run_id: &str, slice_id: &str, status: SliceStatus, attempts: usize) -> SliceRun {
    SliceRun {
        run_id: run_id.to_string(),
        slice_id: slice_id.to_string(),
        status,
        branch: String::new(),
        commit_sha: String::new(),
        attempts,
        last_error: String::new(),
    }
}

fn document(text: &str) -> EventPayload {
    EventPayload::Document(text.to_string())
}

#[test]
fn latest_status_snapshot_lookup_is_deterministic_active_scoped_and_transactional() {
    let mut store = Store::new();
    let repo_a = "/tmp/repo-a";
    let repo_b = "/tmp/repo-b";
    let repo_tie = "/tmp/repo-tie";
    for (id, repo, status, at) in [
        ("run-active-a", repo_a, RunStatus::Interrupted, 0),
        ("run-active-b", repo_a, RunStatus::Pending, 1),
        ("run-completed-newer", repo_a, RunStatus::Completed, 2),
        ("run-other-repo", repo_b, RunStatus::Running, 3),
        ("run-tie-a", repo_tie, RunStatus::Completed, 0),
        ("run-tie-b", repo_tie, RunStatus::Completed, 0),
    ] {
        store.insert_run(&run(id, repo, status, t(at))).unwrap();
    }
    let latest = |repo: &str, active_only: bool| {
        store
            .latest_status_snapshot(repo, active_only, 50, 1, t(9))
            .unwrap()
            .map(|snapshot| snapshot.run.id)
    };
    assert_eq!(latest(repo_a, true), Some("run-active-b".to_string()));
    assert_eq!(
        latest(repo_a, false),
        Some("run-completed-newer".to_string())
    );
    assert_eq!(latest(repo_b, true), Some("run-other-repo".to_string()));
    assert_eq!(latest(repo_tie, false), Some("run-tie-b".to_string()));
    assert_eq!(latest("/tmp/missing", true), None);
}

#[test]
fn status_snapshot_reads_one_sqlite_revision() {
    let one = "run-status-snapshot";
    let mut store = store_with_run(one);
    store
        .upsert_slice_run(&slice(one, "slice-001", SliceStatus::Running, 1))
        .unwrap();

    let reader = Store::from_tables(store.tables().clone()).unwrap();
    store
        .update_run(one, RunStatus::Completed, "", t(1))
        .unwrap();
    let mut merged = slice(one, "slice-001", SliceStatus::Merged, 1);
    merged.branch = "worker/slice-001".to_string();
    merged.commit_sha = "commit".to_string();
    store.upsert_slice_run(&merged).unwrap();
    store
        .record_status_source_snapshot(
            one,
            "economics",
            || "{\"repair_policy\":\"after-hook\"}".to_string(),
            t(2),
        )
        .unwrap();
    let snapshot = reader
        .status_snapshot(one, 20, 7, t(3))
        .unwrap()
        .expect("status snapshot");

    assert_eq!(snapshot.run.status, RunStatus::Running);
    assert_eq!(snapshot.slice_runs[0].status, SliceStatus::Running);
    assert!(snapshot.status_sources.is_empty());
    assert!(snapshot.revision.max_event_id >= 0);
    assert_eq!(snapshot.revision.sqlite_data_version, 7);
    assert_eq!(snapshot.revision.captured_at, Some(t(3)));
    assert_eq!(
        store.get_run(one).unwrap().expect("updated run").status,
        RunStatus::Completed
    );
    assert_eq!(
        store.get_slice_runs(one).unwrap()[0].status,
        SliceStatus::Merged
    );
}

#[test]
fn latest_status_lookup_and_components_share_one_sqlite_revision() {
    let repo_path = "/tmp/latest-status-revision";
    let mut store = Store::new();
    store
        .insert_run(&run(
            "run-selected-before-hook",
            repo_path,
            RunStatus::Completed,
            t(0),
        ))
        .unwrap();

    let reader = Store::from_tables(store.tables().clone()).unwrap();
    store
        .insert_run(&run(
            "run-inserted-during-hook",
            repo_path,
            RunStatus::Completed,
            t(1),
        ))
        .unwrap();
    let latest = |store: &Store| {
        store
            .latest_status_snapshot(repo_path, false, 20, 1, t(2))
            .unwrap()
            .expect("latest snapshot")
            .run
            .id
    };
    assert_eq!(latest(&reader), "run-selected-before-hook");
    assert_eq!(latest(&store), "run-inserted-during-hook");
}

#[test]
fn status_source_payload_and_event_frontier_are_captured_atomically() {
    let race = "run-source-race";
    let mut store = store_with_run(race);
    store
        .record_event(race, "before_capture", document("{}"), t(1))
        .unwrap();
    store
        .record_status_source_snapshot(
            race,
            "economics",
            || "{\"repair_policy\":\"captured\"}".to_string(),
            t(2),
        )
        .unwrap();
    store
        .record_event(race, "after_capture", document("{}"), t(3))
        .unwrap();

    let snapshot = store
        .status_snapshot(race, 20, 1, t(4))
        .unwrap()
        .expect("status snapshot");
    let source = snapshot
        .status_sources
        .iter()
        .find(|source| source.source == "economics")
        .expect("economics source");
    assert_eq!(source.indexed_event_id, 1);
    assert_eq!(snapshot.revision.max_event_id, 2);
    assert_eq!(source.payload, "{\"repair_policy\":\"captured\"}");
}

#[test]
fn malformed_required_status_rows_fail_instead_of_becoming_empty_state() {
    let error = worker_question_from_row(&QuestionColumns {
        id: "q-malformed".to_string(),
        run_id: "run-malformed-status".to_string(),
        slice_id: "slice-001".to_string(),
        attempt: 1,
        launch_id: None,
        question: "Choose?".to_string(),
        options_json: "{not-json".to_string(),
        timeout_seconds: 60,
        state: "pending".to_string(),
        asked_at: "2026-07-10T00:00:00+00:00".to_string(),
        answered_at: String::new(),
        answer: String::new(),
        recommended_answer: String::new(),
        recommendation_rationale: String::new(),
        bounded_within_current_slice_or_mission_authority: false,
        reversible: false,
        fallback_eligible: false,
        deadline_at: "2026-07-10T00:01:00+00:00".to_string(),
        answer_source: String::new(),
    })
    .expect_err("required question decode must fail");
    assert!(error.describe().contains("worker question options"));
}

#[test]
fn status_snapshot_keeps_complete_semantic_history_and_bounds_only_the_wire_tail() {
    let bounded = "run-bounded-tail";
    let mut store = store_with_run(bounded);
    for index in 0..5 {
        store
            .record_event(
                bounded,
                if index == 0 { "run_error" } else { "noise" },
                document(&format!(
                    "{{\"index\": {index}, \"error\": \"first failure\"}}"
                )),
                t(index),
            )
            .unwrap();
    }

    let snapshot = store
        .status_snapshot(bounded, 2, 1, t(9))
        .unwrap()
        .expect("status snapshot");
    assert_eq!(snapshot.events.len(), 5);
    assert_eq!(snapshot.event_tail.len(), 2);
    assert_eq!(
        snapshot.event_tail[0].payload,
        document("{\"index\": 3, \"error\": \"first failure\"}")
    );
    assert_eq!(
        snapshot.event_tail[1].payload,
        document("{\"index\": 4, \"error\": \"first failure\"}")
    );
    assert_eq!(snapshot.revision.max_event_id, snapshot.events[4].id);
}

#[test]
fn malformed_indexed_status_source_fails_the_snapshot() {
    let malformed = "run-malformed-source";
    let mut store = store_with_run(malformed);
    store
        .record_status_source_snapshot(
            malformed,
            "economics",
            || "{not-json".to_string(),
            t(1),
        )
        .unwrap();

    let error = store
        .status_snapshot(malformed, 20, 1, t(2))
        .expect_err("malformed indexed source must fail");
    assert!(error.describe().contains("status source payload"));
}

#[test]
fn indexed_status_source_checksum_mismatch_fails_the_snapshot() {
    let checked = "run-source-checksum";
    let mut store = store_with_run(checked);
    store
        .record_status_source_snapshot(
            checked,
            "economics",
            || "{\"repair_policy\":\"never\"}".to_string(),
            t(1),
        )
        .unwrap();
    let mut tables = store.tables().clone();
    tables.sources[0].payload_json = "{\"repair_policy\":\"always\"}".to_string();
    let store = Store::from_tables(tables).unwrap();

    let error = store
        .status_snapshot(checked, 20, 1, t(2))
        .expect_err("checksum mismatch must fail");
    assert_eq!(error, StoreError::StatusSourceChecksum);
    assert!(error.describe().contains("checksum mismatch"));
}

#[test]
fn a_full_log_takes_no_event() {
    let mut tables = store_with_run("run-a").tables().clone();
    tables.last_event_id = i64::MAX;
    let mut store = Store::from_tables(tables).unwrap();
    assert_eq!(
        store.record_event("run-a", "noise", document("{}"), t(1)),
        Err(StoreError::EventLogFull)
    );
}

#[test]
fn columns_are_read_or_their_fault_is_named() {
    let columns = RunColumns {
        id: "run-a".to_string(),
        repo_id: "repo".to_string(),
        repo_path: "/repo".to_string(),
        status: "running".to_string(),
        base_branch: "main".to_string(),
        base_sha: "base".to_string(),
        integration_branch: "branch".to_string(),
        selected_slice_id: "slice-001".to_string(),
        error: String::new(),
        started_at: "2026-07-10T02:00:00+02:00".to_string(),
        updated_at: "2026-07-10T00:00:01.5Z".to_string(),
    };
    let read = run_from_columns(&columns).unwrap();
    assert_eq!(read.status, RunStatus::Running);
    assert_eq!(read.started_at.to_rfc3339(), "2026-07-10T00:00:00+00:00");
    assert_eq!(
        read.updated_at.to_rfc3339(),
        "2026-07-10T00:00:01.500+00:00"
    );
    let mut unknown = columns.clone();
    unknown.status = "resting".to_string();
    assert_eq!(run_from_columns(&unknown), Err(RowError::Status));
    let mut undated = columns;
    undated.updated_at = "today".to_string();
    assert_eq!(run_from_columns(&undated), Err(RowError::UpdatedAt));
    assert_eq!(
        event_from_columns(&EventColumns {
            id: 1,
            run_id: "run-a".to_string(),
            typ: "noise".to_string(),
            payload: None,
            created_at: "2026-07-10T00:00:00Z".to_string(),
        }),
        Err(RowError::Payload)
    );
}

#[test]
fn blank_frontier_columns_hold_nothing() {
    let envelope = MissionEnvelope {
        document: "{}".to_string(),
    };
    assert_eq!(
        frontier_from_columns(" ", Some(envelope.clone()), "", None),
        Ok((None, None))
    );
    assert_eq!(
        frontier_from_columns("{}", Some(envelope.clone()), "{}", None),
        Err(RowError::FrontierBudget)
    );
    assert_eq!(
        frontier_from_columns("{", None, "", None),
        Err(RowError::MissionEnvelope)
    );
    assert_eq!(
        frontier_from_columns(
            "{}",
            Some(envelope.clone()),
            "{}",
            Some(FrontierBudgetState::default())
        ),
        Ok((Some(envelope), Some(FrontierBudgetState::default())))
    );
}

#[test]
fn written_columns_are_read_back() {
    let mut store = store_with_run("run-a");
    store
        .upsert_slice_run(&slice("run-a", "slice-001", SliceStatus::Running, 1))
        .unwrap();
    store
        .insert_worker_question(
            "q-1",
            "run-a",
            "slice-001",
            1,
            "Choose?",
            &vec!["a \"quoted\" one".to_string(), "\u{e9}\n".to_string()],
            60,
            t(1),
        )
        .unwrap();
    store
        .allocate_worker_attempt("run-a", "slice-001", 1, 1, 0, 0, "worker", "/w", t(2))
        .unwrap();
    store
        .update_progress("run-a", "worker_running", "slice-001", 1, "pi", "m", "", t(3))
        .unwrap();
    store
        .record_status_source_snapshot("run-a", "economics", || "{}".to_string(), t(3))
        .unwrap();
    store.store_worker_token("run-a", "token", t(3)).unwrap();
    store
        .prepare_run_terminal_transition("run-a", RunStatus::Failed, "e", "m", "r", t(4))
        .unwrap();
    let tables = store.tables();
    let run = &tables.runs[0].run;
    assert_eq!(run_from_columns(&run_to_columns(run)).as_ref(), Ok(run));
    let slice = &tables.slices[0];
    assert_eq!(
        slice_run_from_columns(&slice_run_to_columns(slice)).as_ref(),
        Ok(slice)
    );
    let question = &tables.questions[0].question;
    let columns = question_to_columns(question);
    assert_eq!(columns.options_json, "[\"a \\\"quoted\\\" one\",\"\u{e9}\\n\"]");
    assert_eq!(worker_question_from_row(&columns).as_ref(), Ok(question));
    let attempt = &tables.attempts[0];
    assert_eq!(
        worker_attempt_ledger_from_row(&attempt_to_columns(attempt)).as_ref(),
        Ok(attempt)
    );
    let progress = &tables.progress[0];
    assert_eq!(
        run_progress_from_columns(&progress_to_columns(progress)).as_ref(),
        Ok(progress)
    );
    let source = &tables.sources[0];
    assert_eq!(
        status_source_from_columns(&status_source_to_columns(source)).as_ref(),
        Ok(source)
    );
    let token = &tables.tokens[0];
    assert_eq!(
        &worker_token_from_columns(&worker_token_to_columns(token)),
        token
    );
    let terminal = &tables.terminals[0];
    assert_eq!(
        terminal_row_from_columns(&terminal_to_columns(terminal)).as_ref(),
        Ok(terminal)
    );
    for event in &tables.events {
        assert_eq!(
            event_from_columns(&event_to_columns(event)).as_ref(),
            Ok(event)
        );
    }
}

#[test]
fn nothing_is_captured_of_a_run_that_there_is_not() {
    let mut store = store_with_run("run-a");
    let refused = store.record_status_source_snapshot(
        "run-x",
        "source",
        || panic!("captured"),
        t(1),
    );
    assert_eq!(refused, Err(StoreError::RunNotFound));
    assert!(store.tables().sources.is_empty());
}
