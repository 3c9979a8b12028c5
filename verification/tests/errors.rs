use khazad_doom::decode::{
    event_from_columns, integration_merge_intent_from_columns, replan_proposal_from_columns,
    repo_from_columns, run_from_columns, run_launch_intent_from_columns,
    run_progress_from_columns, slice_run_from_columns, status_source_from_columns,
    terminal_row_from_columns, terminal_transition_from_columns, worker_attempt_ledger_from_row,
    worker_token_from_columns,
    AttemptColumns, EventColumns, LaunchColumns, MergeColumns, ProgressColumns, ProposalColumns,
    RepoColumns, RowError, RunColumns, SliceColumns, SourceColumns, TerminalColumns,
    TerminalRowColumns, TokenColumns,
};
use khazad_doom::domain::{
    IntegrationMergeCompletion, IntegrationMergeIntent, IntegrationMergeKind,
    IntegrationMergeState, ReplanDecision, ReplanEvidenceLink, ReplanProposalSource,
    ReplanProposalState, ReplanProposedChange, Run, RunLaunchAction, RunLaunchIntent,
    RunLaunchState, RunStatus, SliceStatus,
};
use khazad_doom::encode::{
    launch_to_columns, merge_to_columns, proposal_to_columns, repo_to_columns,
    terminal_to_columns, worker_token_to_columns,
};
use khazad_doom::error::StoreError;
use khazad_doom::payloads::EventPayload;
use khazad_doom::rows::{StepMark, TerminalRow};
use khazad_doom::store::Store;
use khazad_doom::time::Timestamp;

const AT: &str = "2026-07-10T00:00:00+00:00";

fn t(seconds: i64) -> Timestamp {
    Timestamp::new(1_783_000_000 + seconds, 0).unwrap()
}

fn s(text: &str) -> String {
    text.to_string()
}

fn run(id: &str, status: RunStatus) -> Run {
    Run {
        id: s(id),
        repo_id: s("repo"),
        repo_path: s("/tmp/repo"),
        status,
        base_branch: s("main"),
        base_sha: s("base"),
        integration_branch: s("branch"),
        selected_slice_id: s("slice-001"),
        error: String::new(),
        started_at: t(0),
        updated_at: t(0),
    }
}

fn store_with(status: RunStatus) -> Store {
    let mut store = Store::new();
    store.insert_run(&run("run-a", status)).unwrap();
    store
}

fn launch(epoch: usize, action: RunLaunchAction) -> RunLaunchIntent {
    RunLaunchIntent {
        run_id: s("run-a"),
        execution_epoch: epoch,
        action,
        state: RunLaunchState::Prepared,
        repo_id: s("repo"),
        integration_branch: s("branch"),
        integration_worktree: s("/w"),
        integration_resources_owned: false,
        prior_status: None,
        prior_error: String::new(),
        primary_cause: String::new(),
        compensation_error: String::new(),
        created_at: t(0),
        updated_at: t(0),
    }
}

fn merge(operation_id: &str) -> IntegrationMergeIntent {
    IntegrationMergeIntent {
        operation_id: s(operation_id),
        run_id: s("run-a"),
        kind: IntegrationMergeKind::Slice,
        slice_id: s("S-1"),
        attempt: 1,
        launch_id: Some(4),
        source_branch: s("b"),
        source_commit: s("c"),
        source_tree: s("t"),
        expected_head: s("h"),
        expected_result_tree: s("r"),
        resulting_head: String::new(),
        state: IntegrationMergeState::Prepared,
        completion: IntegrationMergeCompletion::Slice {
            branch: s("b"),
            commit_sha: s("c"),
            attempts: 1,
        },
        primary_cause: String::new(),
        abort_error: String::new(),
        conflicted_files: vec![s("a.rs")],
        created_at: t(0),
        updated_at: t(0),
    }
}

fn terminal() -> TerminalRow {
    TerminalRow {
        run_id: s("run-a"),
        status: RunStatus::Failed,
        error: s("e"),
        progress_message: s("m"),
        question_interruption_reason: s("r"),
        intended_at: t(1).to_rfc3339(),
        summary_written_at: StepMark::NotMade,
        committed_at: StepMark::at(t(2)),
        notification_bookkept_at: StepMark::NotMade,
        cleanup_started_at: StepMark::NotMade,
        cleanup_completed_at: StepMark::NotMade,
    }
}

fn document() -> EventPayload {
    EventPayload::Document(s("{}"))
}

#[test]
fn a_launch_on_record_blocks_an_admission() {
    let mut tables = Store::new().tables().clone();
    tables.launches.push(launch(1, RunLaunchAction::Start));
    let mut store = Store::from_tables(tables).unwrap();
    assert_eq!(
        store
            .admit_run(
                &run("run-a", RunStatus::Pending),
                &Vec::new(),
                None,
                None,
                "/w"
            )
            .unwrap_err(),
        StoreError::LaunchExists
    );
}

#[test]
fn the_last_epoch_cannot_be_resumed() {
    let mut tables = store_with(RunStatus::Failed).tables().clone();
    tables.runs[0].execution_epoch = i64::MAX;
    let mut store = Store::from_tables(tables).unwrap();
    assert_eq!(
        store.begin_resume_run_launch("run-a", "/w", t(1)).unwrap_err(),
        StoreError::CounterExhausted
    );
}

#[test]
fn a_run_that_left_pending_is_not_activated() {
    let mut store = Store::new();
    store
        .admit_run(
            &run("run-a", RunStatus::Pending),
            &Vec::new(),
            None,
            None,
            "/w",
        )
        .unwrap();
    store
        .update_run("run-a", RunStatus::Cancelled, "", t(1))
        .unwrap();
    assert_eq!(
        store.activate_run_launch("run-a", 1, t(2)),
        Err(StoreError::RunNotPending)
    );
}

#[test]
fn a_resume_without_its_prior_status_cannot_fail_back() {
    let mut tables = store_with(RunStatus::Running).tables().clone();
    tables.launches.push(launch(1, RunLaunchAction::Resume));
    let mut store = Store::from_tables(tables).unwrap();
    assert_eq!(
        store.fail_run_launch("run-a", 1, "cause", "", t(1)),
        Err(StoreError::PriorStatusLost)
    );
}

#[test]
fn a_launch_that_did_not_run_cannot_succeed() {
    let mut store = store_with(RunStatus::Running);
    let attempt = store
        .allocate_worker_attempt("run-a", "S-1", 1, 1, 0, 0, "worker", "/w", t(1))
        .unwrap();
    assert_eq!(
        store.finish_worker_attempt(attempt.launch_id, "succeeded", "", t(2)),
        Err(StoreError::IllegalAttemptTransition)
    );
}

#[test]
fn an_ended_run_without_progress_shows_none() {
    let mut store = store_with(RunStatus::Completed);
    assert_eq!(
        store
            .update_progress("run-a", "worker_running", "S-1", 1, "", "", "", t(1))
            .unwrap_err(),
        StoreError::ProgressMissing
    );
}

#[test]
fn a_merge_waits_for_the_one_that_is_prepared() {
    let mut store = store_with(RunStatus::Running);
    store.prepare_integration_merge(&merge("op-1"), t(1)).unwrap();
    store
        .resolve_integration_merge(
            "op-1",
            IntegrationMergeState::NotStarted,
            "",
            "",
            "",
            &Vec::new(),
            t(2),
        )
        .unwrap();
    store.prepare_integration_merge(&merge("op-2"), t(3)).unwrap();
    assert_eq!(
        store
            .prepare_integration_merge(&merge("op-1"), t(4))
            .unwrap_err(),
        StoreError::AnotherMergePrepared
    );
}

#[test]
fn a_repair_completes_the_launch_of_its_merge() {
    let mut store = store_with(RunStatus::Running);
    let launch = store
        .allocate_run_worker_attempt(
            "run-a",
            "integration-repair",
            1,
            0,
            1,
            0,
            "integration-repair",
            "/w",
            t(1),
        )
        .unwrap();
    let repair = |operation_id: &str, launch_id: i64| {
        let mut intent = merge(operation_id);
        intent.kind = IntegrationMergeKind::IntegrationRepair;
        intent.launch_id = Some(launch.launch_id);
        intent.completion = IntegrationMergeCompletion::IntegrationRepair {
            launch_id,
            status: s("repaired"),
            summary: s("done"),
        };
        intent
    };
    store
        .prepare_integration_merge(&repair("op-1", launch.launch_id + 1), t(2))
        .unwrap();
    assert_eq!(
        store.commit_integration_merge("op-1", "head", t(3)),
        Err(StoreError::InconsistentLaunch)
    );
    store
        .resolve_integration_merge(
            "op-1",
            IntegrationMergeState::Divergent,
            "",
            "",
            "",
            &Vec::new(),
            t(3),
        )
        .unwrap();
    store
        .prepare_integration_merge(&repair("op-2", launch.launch_id), t(4))
        .unwrap();
    assert_eq!(
        store.commit_integration_merge("op-2", "head", t(5)),
        Err(StoreError::IllegalAttemptTransition)
    );
    store
        .mark_worker_attempt_launched(launch.launch_id, t(6))
        .unwrap();
    assert_eq!(
        store.commit_integration_merge("op-2", "head", t(7)),
        Ok(true)
    );
    let ledger = store
        .list_worker_attempt_ledger("run-a", "integration-repair")
        .unwrap();
    assert_eq!(ledger[0].state, "succeeded");
}

#[test]
fn ends_on_record_are_held_to_their_steps() {
    let mut ended = store_with(RunStatus::Failed);
    assert_eq!(
        ended.prepare_run_terminal_transition("run-a", RunStatus::Failed, "", "", "", t(1)),
        Err(StoreError::RunAlreadyTerminal)
    );
    let mut tables = store_with(RunStatus::Running).tables().clone();
    tables.terminals.push(terminal());
    let mut store = Store::from_tables(tables.clone()).unwrap();
    assert_eq!(
        store.mark_terminal_summary_written("run-a", "s", document(), t(3)),
        Err(StoreError::SummaryMarkerMissing)
    );
    tables.terminals[0].summary_written_at = StepMark::at(t(2));
    let mut store = Store::from_tables(tables).unwrap();
    assert_eq!(
        store.commit_terminal_transition("run-a", "run_error", document(), t(3)),
        Err(StoreError::InconsistentTerminalState)
    );
}

#[test]
fn decisions_are_replaced_where_there_is_one_and_conflicts_are_named() {
    let mut store = store_with(RunStatus::Running);
    store
        .create_replan_proposal(
            "run-a",
            "rp-1",
            &ReplanProposalSource {
                kind: s("worker"),
                ..ReplanProposalSource::default()
            },
            &Vec::new(),
            &Vec::new(),
            &vec![ReplanProposedChange {
                kind: s("note"),
                target: String::new(),
                summary: String::new(),
                followup_slice_draft: None,
            }],
            "",
            t(1),
        )
        .unwrap();
    let mut decide = |store: &mut Store, rationale: &str| {
        store.decide_replan_proposal(
            "run-a",
            "rp-1",
            ReplanProposalState::Rejected,
            rationale,
            "",
            "",
            "",
            "",
            t(2),
        )
    };
    let mut other = Store::from_tables(store.tables().clone()).unwrap();
    let decided: ReplanDecision = decide(&mut other, "one")
        .unwrap()
        .operator_decision
        .unwrap();
    assert_eq!(
        store
            .replace_replan_decision("run-a", "rp-1", &decided, t(3))
            .unwrap_err(),
        StoreError::ProposalUndecided
    );
    decide(&mut store, "one").unwrap();
    assert_eq!(
        decide(&mut store, "another").unwrap_err(),
        StoreError::DecisionConflict
    );
}

#[test]
fn a_source_that_is_no_json_is_refused() {
    let mut store = store_with(RunStatus::Running);
    store
        .record_status_source_snapshot("run-a", "economics", || s("{"), t(1))
        .unwrap();
    assert_eq!(
        store.status_snapshot("run-a", 1, 1, t(2)).unwrap_err(),
        StoreError::StatusSourcePayload
    );
}

#[test]
fn unreadable_columns_of_runs_and_launches_are_named() {
    let run_columns = RunColumns {
        id: s("run-a"),
        repo_id: s("repo"),
        repo_path: s("/repo"),
        status: s("running"),
        base_branch: s("main"),
        base_sha: s("base"),
        integration_branch: s("branch"),
        selected_slice_id: String::new(),
        error: String::new(),
        started_at: s("soon"),
        updated_at: s(AT),
    };
    assert_eq!(run_from_columns(&run_columns), Err(RowError::StartedAt));
    let good = launch_to_columns(&launch(1, RunLaunchAction::Start));
    assert_eq!(
        run_launch_intent_from_columns(&good),
        Ok(launch(1, RunLaunchAction::Start))
    );
    let read = |columns: LaunchColumns| run_launch_intent_from_columns(&columns).unwrap_err();
    let mut bad = good.clone();
    bad.action = s("pause");
    assert_eq!(read(bad), RowError::Action);
    let mut bad = good.clone();
    bad.state = s("paused");
    assert_eq!(read(bad), RowError::State);
    let mut bad = good.clone();
    bad.prior_status = s("paused");
    assert_eq!(read(bad), RowError::PriorStatus);
    let mut bad = good.clone();
    bad.created_at = s("soon");
    assert_eq!(read(bad), RowError::CreatedAt);
    let mut early = good;
    early.execution_epoch = -3;
    assert_eq!(
        run_launch_intent_from_columns(&early).unwrap().execution_epoch,
        1
    );
    let repo = RepoColumns {
        id: s("r"),
        path: s("/r"),
        created_at: s("some day"),
    };
    assert_eq!(repo_to_columns(&repo_from_columns(&repo)), repo);
    let token = TokenColumns {
        run_id: s("run-a"),
        token_hash: s("h"),
        created_at: s("some day"),
    };
    assert_eq!(
        worker_token_to_columns(&worker_token_from_columns(&token)),
        token
    );
}

#[test]
fn unreadable_columns_of_ends_are_named() {
    let good = TerminalRowColumns {
        run_id: s("run-a"),
        status: s("failed"),
        error: String::new(),
        progress_message: String::new(),
        question_interruption_reason: String::new(),
        intended_at: s(AT),
        summary_written_at: s(AT),
        committed_at: String::new(),
        notification_bookkept_at: String::new(),
        cleanup_started_at: String::new(),
        cleanup_completed_at: String::new(),
    };
    assert!(terminal_row_from_columns(&good).is_ok());
    let mut bad = good.clone();
    bad.status = s("over");
    assert_eq!(terminal_row_from_columns(&bad), Err(RowError::Status));
    let mut odd = good;
    odd.intended_at = s("some day");
    odd.committed_at = s("soon");
    odd.notification_bookkept_at = s(" ");
    let row = terminal_row_from_columns(&odd).unwrap();
    assert_eq!(row.intended_at, "some day");
    assert_eq!(row.summary_written_at, StepMark::Made(s(AT)));
    assert_eq!(row.committed_at, StepMark::Made(s("soon")));
    assert_eq!(row.notification_bookkept_at, StepMark::Blank(s(" ")));
    assert_eq!(row.cleanup_started_at, StepMark::NotMade);
    assert_eq!(terminal_to_columns(&row), odd);
    let transition = terminal_transition_from_columns(&TerminalColumns {
        status: s("failed"),
        error: String::new(),
        progress_message: String::new(),
        question_interruption_reason: String::new(),
        summary_written_at: s("once"),
        committed_at: s(" "),
    })
    .unwrap();
    assert!(transition.summary_written);
    assert!(!transition.committed);
}

#[test]
fn unreadable_columns_of_merges_and_slices_are_named() {
    let good = merge_to_columns(&merge("op-1"));
    assert_eq!(
        integration_merge_intent_from_columns(&good),
        Ok(merge("op-1"))
    );
    let read = |columns: MergeColumns| integration_merge_intent_from_columns(&columns).unwrap_err();
    let mut bad = good.clone();
    bad.kind = s("rebase");
    assert_eq!(read(bad), RowError::Kind);
    let mut bad = good.clone();
    bad.completion = None;
    assert_eq!(read(bad), RowError::Completion);
    let mut bad = good;
    bad.conflicted_files_json = s("a.rs");
    assert_eq!(read(bad), RowError::ConflictedFiles);
    let slice = SliceColumns {
        run_id: s("run-a"),
        slice_id: s("S-1"),
        status: s("ready_to_merge"),
        branch: String::new(),
        commit_sha: String::new(),
        attempts: 3,
        last_error: String::new(),
    };
    let read_back = slice_run_from_columns(&slice).unwrap();
    assert_eq!(read_back.status, SliceStatus::ReadyToMerge);
    assert_eq!(read_back.attempts, 3);
    assert_eq!(
        event_from_columns(&EventColumns {
            id: 1,
            run_id: s("run-a"),
            typ: s("noise"),
            payload: Some(document()),
            created_at: s("soon"),
        }),
        Err(RowError::CreatedAt)
    );
    assert_eq!(
        status_source_from_columns(&SourceColumns {
            run_id: s("run-a"),
            source: s("economics"),
            payload_json: s("{}"),
            indexed_event_id: 1,
            content_sha256: String::new(),
            observed_at: s("soon"),
        }),
        Err(RowError::ObservedAt)
    );
}

#[test]
fn unreadable_columns_of_proposals_are_named() {
    let good = ProposalColumns {
        id: s("rp-1"),
        run_id: s("run-a"),
        state: s("pending"),
        source: Some(ReplanProposalSource::default()),
        trigger_finding_ids_json: s("[\"f\"]"),
        evidence: Some(Vec::<ReplanEvidenceLink>::new()),
        proposed_changes: Some(Vec::new()),
        risk: s("operator_review"),
        decision_json: String::new(),
        decision: None,
        classification_json: String::new(),
        classification: None,
        created_at: s(AT),
        updated_at: s(AT),
    };
    let proposal = replan_proposal_from_columns(&good).unwrap();
    assert_eq!(proposal.trigger_finding_ids, vec![s("f")]);
    assert_eq!(proposal_to_columns(&proposal, "", ""), good);
    let read = |columns: ProposalColumns| replan_proposal_from_columns(&columns).unwrap_err();
    let mut bad = good.clone();
    bad.source = None;
    assert_eq!(read(bad), RowError::Source);
    let mut bad = good.clone();
    bad.trigger_finding_ids_json = s("{}");
    assert_eq!(read(bad), RowError::FindingIds);
    let mut bad = good.clone();
    bad.evidence = None;
    assert_eq!(read(bad), RowError::Evidence);
    let mut bad = good.clone();
    bad.proposed_changes = None;
    assert_eq!(read(bad), RowError::Changes);
    let mut bad = good.clone();
    bad.decision_json = s("{");
    assert_eq!(read(bad), RowError::Decision);
    let mut bad = good;
    bad.classification_json = s("{");
    assert_eq!(read(bad), RowError::Classification);
}

#[test]
fn unreadable_columns_of_workers_are_named() {
    let good = AttemptColumns {
        run_id: s("run-a"),
        slice_id: s("S-1"),
        launch_id: 1,
        launch_ordinal: 1,
        execution_epoch: 1,
        worker_retry_ordinal: 1,
        repair_ordinal: -1,
        envelope_retry_ordinal: 0,
        kind: s("worker"),
        state: s("running"),
        branch: String::new(),
        worktree: String::new(),
        output_stem: String::new(),
        created_at: s(AT),
        launched_at: s(AT),
        finished_at: String::new(),
        failure_cause: String::new(),
        worker_token_hash: String::new(),
        pid: Some(7),
        process_observed_at: s(AT),
        last_event_at: String::new(),
        last_event_kind: String::new(),
        last_semantic_progress_at: String::new(),
        last_semantic_progress_summary: String::new(),
        attempt_timeout_seconds: 30,
        no_output_warning_seconds: -1,
    };
    let row = worker_attempt_ledger_from_row(&good).unwrap();
    assert_eq!(row.attempt.repair_ordinal, 0);
    assert_eq!(row.observed.pid, Some(7));
    assert_eq!(row.observed.no_output_warning_seconds, 0);
    let read = |columns: AttemptColumns| worker_attempt_ledger_from_row(&columns).unwrap_err();
    let mut bad = good.clone();
    bad.launched_at = s("soon");
    assert_eq!(read(bad), RowError::LaunchedAt);
    let mut bad = good.clone();
    bad.finished_at = s("soon");
    assert_eq!(read(bad), RowError::FinishedAt);
    let mut bad = good.clone();
    bad.last_event_at = s("soon");
    assert_eq!(read(bad), RowError::ObservedAt);
    let mut unlaunched = good;
    unlaunched.launched_at = String::new();
    unlaunched.last_event_at = s("soon");
    assert!(worker_attempt_ledger_from_row(&unlaunched).is_ok());

    let progress = ProgressColumns {
        run_id: s("run-a"),
        phase: s("worker_running"),
        slice_id: s("S-1"),
        attempt: 1,
        command: String::new(),
        message: String::new(),
        output_tail: String::new(),
        phase_started_at: s(AT),
        updated_at: s(AT),
        worker_attempt_started_at: s(AT),
        pid: Some(-1),
        process_observed_at: String::new(),
        last_event_at: String::new(),
        last_event_kind: String::new(),
        last_semantic_progress_at: String::new(),
        last_semantic_progress_summary: String::new(),
        attempt_timeout_seconds: 0,
        no_output_warning_seconds: 0,
    };
    assert_eq!(
        run_progress_from_columns(&progress).unwrap().observed.pid,
        None
    );
    let mut bad = progress.clone();
    bad.worker_attempt_started_at = s("soon");
    assert_eq!(
        run_progress_from_columns(&bad),
        Err(RowError::WorkerAttemptStartedAt)
    );
    let mut bad = progress;
    bad.phase_started_at = s("soon");
    assert_eq!(
        run_progress_from_columns(&bad),
        Err(RowError::PhaseStartedAt)
    );
}

#[test]
fn an_instant_is_moved_on_within_the_range() {
    let last = Timestamp::new(8_210_266_876_799, 0).unwrap();
    assert_eq!(t(1).checked_add_seconds(59), Some(t(60)));
    assert_eq!(last.checked_add_seconds(0), Some(last));
    assert_eq!(last.checked_add_seconds(1), None);
    let leap = Timestamp::new(59, 1_500_000_000).unwrap();
    assert_eq!(
        leap.checked_add_seconds(1),
        Timestamp::new(60, 500_000_000)
    );
}

#[test]
fn years_of_four_digits_are_read_back() {
    let first = Timestamp::new(-62_167_219_200, 0).unwrap();
    let last = Timestamp::new(253_402_300_799, 0).unwrap();
    for at in [first, t(0), last] {
        assert!(at.is_writable());
        assert_eq!(Timestamp::parse(&at.to_rfc3339()), Some(at));
    }
    let before = Timestamp::new(-62_167_219_201, 0).unwrap();
    let after = Timestamp::new(253_402_300_800, 0).unwrap();
    for at in [before, after] {
        assert!(!at.is_writable());
        assert_eq!(Timestamp::parse(&at.to_rfc3339()), None);
    }
}

#[test]
fn a_blank_mark_is_no_step_and_no_gap() {
    let mut tables = store_with(RunStatus::Failed).tables().clone();
    tables.terminals.push(TerminalRow {
        committed_at: StepMark::Blank(s(" ")),
        notification_bookkept_at: StepMark::at(t(3)),
        cleanup_started_at: StepMark::at(t(4)),
        ..terminal()
    });
    let store = Store::from_tables(tables).unwrap();
    assert!(store
        .terminal_transition_needs_reconciliation("run-a")
        .unwrap());
    assert!(store
        .terminal_transition_run_ids_needing_reconciliation()
        .unwrap()
        .is_empty());
    assert!(!store.terminal_transition("run-a").unwrap().unwrap().committed);
}
