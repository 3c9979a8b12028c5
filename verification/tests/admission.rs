use khazad_doom::domain::{
    FrontierBudgetState, IntegrationMergeCompletion, IntegrationMergeIntent, IntegrationMergeKind,
    IntegrationMergePrepareOutcome, IntegrationMergeState, MissionEnvelope, Repo, Run,
    RunAdmissionOutcome, RunLaunchState, RunStatus, SliceRun, SliceStatus,
};
use khazad_doom::error::StoreError;
use khazad_doom::store::Store;
use khazad_doom::time::Timestamp;

fn t(seconds: i64) -> Timestamp {
    Timestamp::new(1_783_000_000 + seconds, 0).unwrap()
}

fn run(id: &str, repo_path: &str, status: RunStatus, started_at: Timestamp) -> Run {
    Run {
        id: id.to_string(),
        repo_id: format!("repo-{repo_path}"),
        repo_path: repo_path.to_string(),
        status,
        base_branch: "main".to_string(),
        base_sha: "base".to_string(),
        integration_branch: format!("khazad/{id}/integration"),
        selected_slice_id: "slice-001".to_string(),
        error: String::new(),
        started_at,
        updated_at: started_at,
    }
}

/// The same store with room for so many more events.
fn with_room(store: &Store, events: i64) -> Store {
    let mut tables = store.tables().clone();
    tables.last_event_id = i64::MAX - events;
    Store::from_tables(tables).unwrap()
}

fn slice(run_id: &str, status: SliceStatus) -> SliceRun {
    SliceRun {
        run_id: run_id.to_string(),
        slice_id: "S-1".to_string(),
        status,
        branch: "worker/S-1".to_string(),
        commit_sha: "source".to_string(),
        attempts: 2,
        last_error: String::new(),
    }
}

fn merge_intent(run_id: &str, operation_id: &str, now: Timestamp) -> IntegrationMergeIntent {
    IntegrationMergeIntent {
        operation_id: operation_id.to_string(),
        run_id: run_id.to_string(),
        kind: IntegrationMergeKind::Slice,
        slice_id: "S-1".to_string(),
        attempt: 2,
        launch_id: Some(41),
        source_branch: "worker/S-1".to_string(),
        source_commit: "source".to_string(),
        source_tree: "source-tree".to_string(),
        expected_head: "expected".to_string(),
        expected_result_tree: "result-tree".to_string(),
        resulting_head: String::new(),
        state: IntegrationMergeState::Prepared,
        completion: IntegrationMergeCompletion::Slice {
            branch: "worker/S-1".to_string(),
            commit_sha: "source".to_string(),
            attempts: 2,
        },
        primary_cause: String::new(),
        abort_error: String::new(),
        conflicted_files: Vec::new(),
        created_at: now,
        updated_at: now,
    }
}

#[test]
fn concurrent_run_admission_has_one_durable_repo_winner() {
    let mut first = run(
        "run-admission-a",
        "/tmp/canonical-repo",
        RunStatus::Pending,
        t(0),
    );
    first.repo_id = "canonical-repo".to_string();
    let mut second = run(
        "run-admission-b",
        "/tmp/canonical-repo",
        RunStatus::Pending,
        t(0),
    );
    second.repo_id = "canonical-repo".to_string();

    for order in [[&first, &second], [&second, &first]] {
        let mut store = Store::new();
        let outcomes = order
            .iter()
            .map(|run| {
                store
                    .admit_run(run, &Vec::new(), None, None, "/tmp/worktrees/integration")
                    .unwrap()
                    .outcome
            })
            .collect::<Vec<_>>();
        assert_eq!(
            outcomes
                .iter()
                .filter(|outcome| **outcome == RunAdmissionOutcome::Prepared)
                .count(),
            1
        );
        assert_eq!(
            outcomes
                .iter()
                .filter(|outcome| **outcome == RunAdmissionOutcome::Conflict)
                .count(),
            1
        );
        assert_eq!(store.active_runs().unwrap().len(), 1);
        assert_eq!(store.incomplete_run_launch_intents().unwrap().len(), 1);
    }
}

#[test]
fn a_second_admission_is_told_of_the_winner() {
    let mut store = Store::new();
    let first = run("run-a", "/tmp/repo", RunStatus::Pending, t(0));
    let second = run("run-b", "/tmp/repo", RunStatus::Pending, t(1));
    store
        .admit_run(&first, &Vec::new(), None, None, "/w")
        .unwrap();
    let before = store.tables().clone();
    let answer = store
        .admit_run(&second, &Vec::new(), None, None, "/w")
        .unwrap();
    assert_eq!(answer.outcome, RunAdmissionOutcome::Conflict);
    assert_eq!(answer.active_run, Some(first));
    assert_eq!(answer.intent, None);
    assert_eq!(store.tables(), &before);
}

#[test]
fn admission_fault_rolls_back_run_intent_and_active_repo_claim() {
    let empty = Store::new();
    let pending = run(
        "run-admission-fault",
        "/tmp/admission-fault",
        RunStatus::Pending,
        t(0),
    );
    let mut store = with_room(&empty, 0);
    let error = store
        .admit_run(
            &pending,
            &Vec::new(),
            None,
            None,
            "/tmp/worktrees/integration",
        )
        .expect_err("admission fault must roll back");
    assert_eq!(error, StoreError::EventLogFull);
    assert!(store.get_run(&pending.id).unwrap().is_none());
    assert!(store.active_runs().unwrap().is_empty());
    assert!(store.incomplete_run_launch_intents().unwrap().is_empty());
    assert!(store.get_events(&pending.id, 20).unwrap().is_empty());

    let mut store = with_room(&store, 1);
    let retry = store
        .admit_run(
            &pending,
            &Vec::new(),
            None,
            None,
            "/tmp/worktrees/integration",
        )
        .unwrap();
    assert_eq!(retry.outcome, RunAdmissionOutcome::Prepared);
}

#[test]
fn admission_refuses_a_run_that_is_not_pending_or_known() {
    let mut store = Store::new();
    let running = run("run-a", "/tmp/repo", RunStatus::Running, t(0));
    assert_eq!(
        store
            .admit_run(&running, &Vec::new(), None, None, "/w")
            .unwrap_err(),
        StoreError::AdmissionRequiresPending
    );
    store
        .insert_run(&run("run-a", "/tmp/repo", RunStatus::Failed, t(0)))
        .unwrap();
    assert_eq!(
        store
            .admit_run(
                &run("run-a", "/tmp/repo", RunStatus::Pending, t(0)),
                &Vec::new(),
                None,
                None,
                "/w"
            )
            .unwrap_err(),
        StoreError::RunExists
    );
    assert_eq!(
        store.insert_run(&run("run-a", "/tmp/repo", RunStatus::Failed, t(0))),
        Err(StoreError::RunExists)
    );
}

#[test]
fn concurrent_resume_admission_has_one_epoch_and_one_repo_winner() {
    let mut first = run("run-resume-a", "/tmp/resume-repo", RunStatus::Failed, t(0));
    first.repo_id = "resume-repo".to_string();
    let mut second = run("run-resume-b", "/tmp/resume-repo", RunStatus::Failed, t(0));
    second.repo_id = "resume-repo".to_string();

    for order in [["run-resume-a", "run-resume-b"], ["run-resume-b", "run-resume-a"]] {
        let mut store = Store::new();
        store.insert_run(&first).unwrap();
        store.insert_run(&second).unwrap();
        let outcomes = order
            .iter()
            .map(|run_id| {
                store
                    .begin_resume_run_launch(run_id, "/tmp/worktrees/integration", t(1))
                    .unwrap()
                    .outcome
            })
            .collect::<Vec<_>>();
        assert_eq!(
            outcomes
                .iter()
                .filter(|outcome| **outcome == RunAdmissionOutcome::Prepared)
                .count(),
            1
        );
        assert_eq!(
            outcomes
                .iter()
                .filter(|outcome| **outcome == RunAdmissionOutcome::Conflict)
                .count(),
            1
        );
        assert_eq!(store.active_runs().unwrap().len(), 1);
        assert_eq!(store.incomplete_run_launch_intents().unwrap().len(), 1);
        assert_eq!(
            store.incomplete_run_launch_intents().unwrap()[0].execution_epoch,
            2
        );
    }
}

#[test]
fn reopening_a_run_transactionally_advances_execution_epoch() {
    let mut store = Store::new();
    store
        .insert_run(&run("run-epoch", "/tmp/repo", RunStatus::Failed, t(0)))
        .unwrap();

    assert_eq!(store.current_run_execution_epoch("run-epoch").unwrap(), 1);
    assert_eq!(store.reopen_run_for_resume("run-epoch", t(1)).unwrap(), 2);
    assert_eq!(store.current_run_execution_epoch("run-epoch").unwrap(), 2);
    store.activate_run_launch("run-epoch", 2, t(2)).unwrap();
    store
        .fail_run_launch("run-epoch", 2, "resume attempt failed", "", t(3))
        .unwrap();
    assert_eq!(
        store
            .get_run("run-epoch")
            .unwrap()
            .expect("restored run")
            .status,
        RunStatus::Failed
    );
    assert_eq!(store.reopen_run_for_resume("run-epoch", t(4)).unwrap(), 3);
    assert_eq!(store.current_run_execution_epoch("run-epoch").unwrap(), 3);
}

#[test]
fn a_missing_run_is_neither_resumed_nor_has_an_epoch() {
    let mut store = Store::new();
    assert_eq!(
        store.reopen_run_for_resume("run-x", t(0)),
        Err(StoreError::RunNotFound)
    );
    assert!(store.current_run_execution_epoch("run-x").is_err());
    store
        .insert_run(&run("run-a", "/tmp/repo", RunStatus::Running, t(0)))
        .unwrap();
    assert_eq!(
        store.reopen_run_for_resume("run-a", t(0)),
        Err(StoreError::ResumeNotAdmitted)
    );
}

#[test]
fn a_resume_waits_for_an_end_that_is_not_published() {
    let mut store = Store::new();
    store
        .insert_run(&run("run-a", "/tmp/repo", RunStatus::Running, t(0)))
        .unwrap();
    store
        .prepare_run_terminal_transition("run-a", RunStatus::Failed, "e", "m", "r", t(1))
        .unwrap();
    store
        .update_run("run-a", RunStatus::Failed, "e", t(2))
        .unwrap();
    assert_eq!(
        store
            .begin_resume_run_launch("run-a", "/w", t(3))
            .unwrap_err(),
        StoreError::IncompleteTerminalization
    );
}

#[test]
fn a_launch_goes_through_its_states() {
    let mut store = Store::new();
    let pending = run("run-a", "/tmp/repo", RunStatus::Pending, t(0));
    store
        .admit_run(&pending, &Vec::new(), None, None, "/w")
        .unwrap();
    assert_eq!(
        store.complete_run_launch("run-a", 1, t(1)),
        Err(StoreError::UnexpectedLaunchState)
    );
    assert_eq!(
        store
            .record_run_launch_integration_resources_created("run-a", 1, t(1))
            .unwrap_err(),
        StoreError::UnexpectedLaunchState
    );
    store.activate_run_launch("run-a", 1, t(1)).unwrap();
    assert_eq!(
        store.get_run("run-a").unwrap().unwrap().status,
        RunStatus::Running
    );
    assert!(store
        .record_run_launch_integration_resources_created("run-a", 1, t(2))
        .unwrap());
    assert!(!store
        .record_run_launch_integration_resources_created("run-a", 1, t(3))
        .unwrap());
    assert!(store
        .fail_run_launch("run-a", 1, "no worktree", "", t(4))
        .unwrap());
    assert!(!store
        .fail_run_launch("run-a", 1, "no worktree", "", t(5))
        .unwrap());
    assert_eq!(
        store.fail_run_launch("run-a", 1, "another cause", "", t(5)),
        Err(StoreError::UnexpectedLaunchState)
    );
    let failed = store.get_run("run-a").unwrap().unwrap();
    assert_eq!(failed.status, RunStatus::Failed);
    assert_eq!(failed.error, "no worktree");
    assert_eq!(
        store
            .run_launch_intents_requiring_compensation()
            .unwrap()
            .len(),
        1
    );
    assert!(store
        .record_run_launch_compensation("run-a", 1, "still there", t(6))
        .unwrap());
    assert_eq!(
        store.run_launch_intent("run-a", 1).unwrap().unwrap().state,
        RunLaunchState::RecoveryRequired
    );
    assert!(store
        .record_run_launch_compensation("run-a", 1, "", t(7))
        .unwrap());
    assert_eq!(
        store.run_launch_intent("run-a", 1).unwrap().unwrap().state,
        RunLaunchState::Compensated
    );
    assert_eq!(
        store.activate_run_launch("run-a", 9, t(8)),
        Err(StoreError::LaunchNotFound)
    );
}

#[test]
fn a_resume_owns_no_integration_resources() {
    let mut store = Store::new();
    store
        .insert_run(&run("run-a", "/tmp/repo", RunStatus::Failed, t(0)))
        .unwrap();
    store.reopen_run_for_resume("run-a", t(1)).unwrap();
    assert_eq!(
        store.record_run_launch_integration_resources_created("run-a", 2, t(2)),
        Err(StoreError::ResumeOwnsNoResources)
    );
}

#[test]
fn integration_merge_transaction_faults_roll_back_authority() {
    let mut store = Store::new();
    let run = run(
        "run-merge-fault",
        "/tmp/merge-fault",
        RunStatus::Running,
        t(0),
    );
    store.insert_run(&run).unwrap();
    store
        .upsert_slice_run(&slice(&run.id, SliceStatus::ReadyToMerge))
        .unwrap();
    let intent = merge_intent(&run.id, "merge-fault-operation", t(0));

    let mut store = with_room(&store, 0);
    assert!(store.prepare_integration_merge(&intent, t(1)).is_err());
    assert!(store.integration_merge_intents(&run.id).unwrap().is_empty());

    let mut store = with_room(&store, 2);
    store.prepare_integration_merge(&intent, t(1)).unwrap();
    assert!(store
        .commit_integration_merge(&intent.operation_id, "result", t(2))
        .is_err());
    assert_eq!(
        store.integration_merge_intents(&run.id).unwrap()[0].state,
        IntegrationMergeState::Prepared
    );
    assert_eq!(
        store.get_slice_runs(&run.id).unwrap()[0].status,
        SliceStatus::ReadyToMerge
    );
    assert!(!store.get_events(&run.id, 20).unwrap().iter().any(|event| {
        matches!(
            event.typ.as_str(),
            "slice_merged" | "integration_merge_applied"
        )
    }));

    let mut store = with_room(&store, 0);
    assert!(store
        .resolve_integration_merge(
            &intent.operation_id,
            IntegrationMergeState::Divergent,
            "operator-head",
            "operator commit",
            "",
            &Vec::new(),
            t(3)
        )
        .is_err());
    assert_eq!(
        store.integration_merge_intents(&run.id).unwrap()[0].state,
        IntegrationMergeState::Prepared
    );
    assert_eq!(
        store.get_slice_runs(&run.id).unwrap()[0].status,
        SliceStatus::ReadyToMerge
    );
}

#[test]
fn integration_merge_completion_is_atomic_with_slice_state_and_events() {
    let mut store = Store::new();
    let run = run(
        "run-merge-journal",
        "/tmp/merge-repo",
        RunStatus::Running,
        t(0),
    );
    store.insert_run(&run).unwrap();
    store
        .upsert_slice_run(&slice(&run.id, SliceStatus::ReadyToMerge))
        .unwrap();
    let intent = merge_intent(&run.id, "merge-operation-1", t(0));
    assert_eq!(
        store
            .prepare_integration_merge(&intent, t(1))
            .unwrap()
            .outcome,
        IntegrationMergePrepareOutcome::Prepared
    );
    assert!(store
        .commit_integration_merge(&intent.operation_id, "result", t(2))
        .unwrap());
    assert!(!store
        .commit_integration_merge(&intent.operation_id, "result", t(3))
        .unwrap());

    let stored = store.integration_merge_intents(&run.id).unwrap();
    assert_eq!(stored.len(), 1);
    assert_eq!(stored[0].state, IntegrationMergeState::Applied);
    assert_eq!(stored[0].resulting_head, "result");
    let slice = store.get_slice_runs(&run.id).unwrap().remove(0);
    assert_eq!(slice.status, SliceStatus::Merged);
    assert_eq!(slice.commit_sha, "source");
    let events = store.get_events(&run.id, 20).unwrap();
    assert_eq!(
        events
            .iter()
            .filter(|event| event.typ == "integration_merge_applied")
            .count(),
        1
    );
    assert_eq!(
        events
            .iter()
            .filter(|event| event.typ == "slice_merged")
            .count(),
        1
    );
}

#[test]
fn merges_are_refused_where_their_record_says_otherwise() {
    let mut store = Store::new();
    let active = run("run-a", "/tmp/repo", RunStatus::Running, t(0));
    let intent = merge_intent("run-a", "op-1", t(0));
    assert_eq!(
        store.prepare_integration_merge(&intent, t(1)).unwrap_err(),
        StoreError::RunNotFound
    );
    store.insert_run(&active).unwrap();
    let mut stale = merge_intent("run-a", "op-1", t(0));
    stale.resulting_head = "head".to_string();
    assert_eq!(
        store.prepare_integration_merge(&stale, t(1)).unwrap_err(),
        StoreError::MergeNotFresh
    );
    store.prepare_integration_merge(&intent, t(1)).unwrap();
    assert_eq!(
        store
            .prepare_integration_merge(&intent, t(1))
            .unwrap()
            .outcome,
        IntegrationMergePrepareOutcome::AlreadyPrepared
    );
    let mut other_source = merge_intent("run-a", "op-1", t(0));
    other_source.source_commit = "another".to_string();
    assert_eq!(
        store
            .prepare_integration_merge(&other_source, t(1))
            .unwrap_err(),
        StoreError::MergeIdentityConflict
    );
    let other = store
        .prepare_integration_merge(&merge_intent("run-a", "op-2", t(0)), t(1))
        .unwrap();
    assert_eq!(other.outcome, IntegrationMergePrepareOutcome::Conflict);
    assert_eq!(other.intent.operation_id, "op-1");
    assert_eq!(
        store.commit_integration_merge("op-9", "head", t(2)),
        Err(StoreError::MergeNotFound)
    );
    store
        .commit_integration_merge("op-1", "head", t(2))
        .unwrap();
    assert_eq!(
        store.commit_integration_merge("op-1", "another", t(3)),
        Err(StoreError::MergeAppliedElsewhere)
    );
    assert_eq!(
        store.resolve_integration_merge(
            "op-1",
            IntegrationMergeState::Applied,
            "",
            "",
            "",
            &Vec::new(),
            t(3)
        ),
        Err(StoreError::ResolutionNotTerminal)
    );
    assert_eq!(
        store.resolve_integration_merge(
            "op-1",
            IntegrationMergeState::Conflicted,
            "",
            "",
            "",
            &Vec::new(),
            t(3)
        ),
        Err(StoreError::UnexpectedMergeState)
    );
}

#[test]
fn a_conflicted_merge_blocks_its_slice_and_can_be_prepared_again() {
    let mut store = Store::new();
    store
        .insert_run(&run("run-a", "/tmp/repo", RunStatus::Running, t(0)))
        .unwrap();
    store
        .upsert_slice_run(&slice("run-a", SliceStatus::ReadyToMerge))
        .unwrap();
    let intent = merge_intent("run-a", "op-1", t(0));
    store.prepare_integration_merge(&intent, t(1)).unwrap();
    let files = vec!["src/a.rs".to_string()];
    assert!(store
        .resolve_integration_merge(
            "op-1",
            IntegrationMergeState::Conflicted,
            "head",
            "conflict",
            "",
            &files,
            t(2)
        )
        .unwrap());
    assert!(!store
        .resolve_integration_merge(
            "op-1",
            IntegrationMergeState::Conflicted,
            "head",
            "conflict",
            "",
            &files,
            t(3)
        )
        .unwrap());
    let blocked = store.get_slice_runs("run-a").unwrap().remove(0);
    assert_eq!(blocked.status, SliceStatus::Blocked);
    assert_eq!(blocked.last_error, "conflict");
    assert!(store
        .resolve_integration_merge(
            "op-1",
            IntegrationMergeState::NotStarted,
            "",
            "",
            "",
            &Vec::new(),
            t(4)
        )
        .unwrap());
    let again = store.prepare_integration_merge(&intent, t(5)).unwrap();
    assert_eq!(again.outcome, IntegrationMergePrepareOutcome::Prepared);
    assert_eq!(again.intent.updated_at, t(5));
    assert!(again.intent.conflicted_files.is_empty());
}

#[test]
fn runs_are_listed_in_the_order_of_their_start() {
    let mut store = Store::new();
    store
        .insert_run(&run("run-b", "/b", RunStatus::Running, t(2)))
        .unwrap();
    store
        .insert_run(&run("run-a", "/a", RunStatus::Pending, t(1)))
        .unwrap();
    store
        .insert_run(&run("run-c", "/c", RunStatus::Completed, t(3)))
        .unwrap();
    let ids = |runs: Vec<Run>| runs.into_iter().map(|run| run.id).collect::<Vec<_>>();
    assert_eq!(ids(store.active_runs().unwrap()), vec!["run-a", "run-b"]);
    assert_eq!(ids(store.latest_runs(2).unwrap()), vec!["run-c", "run-b"]);
    assert_eq!(ids(store.latest_runs(0).unwrap()).len(), 3);
}

#[test]
fn a_repository_has_one_active_run() {
    let mut store = Store::new();
    store
        .insert_run(&run("run-a", "/a", RunStatus::Running, t(1)))
        .unwrap();
    assert_eq!(
        store.insert_run(&run("run-b", "/a", RunStatus::Pending, t(2))),
        Err(StoreError::ActiveRunExists)
    );
    store
        .insert_run(&run("run-b", "/a", RunStatus::Failed, t(2)))
        .unwrap();
    assert_eq!(
        store.update_run("run-b", RunStatus::Running, "", t(3)),
        Err(StoreError::ActiveRunExists)
    );
}

#[test]
fn a_repository_moves_but_not_onto_another() {
    let mut store = Store::new();
    let repo = |id: &str, path: &str| Repo {
        id: id.to_string(),
        path: path.to_string(),
        created_at: t(0),
    };
    store.upsert_repo(&repo("r1", "/a")).unwrap();
    store.upsert_repo(&repo("r2", "/b")).unwrap();
    assert_eq!(
        store.upsert_repo(&repo("r2", "/a")),
        Err(StoreError::RepoPathTaken)
    );
    store.upsert_repo(&repo("r2", "/c")).unwrap();
    assert_eq!(store.tables().repos[1].path, "/c");
}

#[test]
fn frontier_state_is_kept_with_the_run() {
    let mut store = Store::new();
    store
        .insert_run(&run("run-a", "/a", RunStatus::Running, t(1)))
        .unwrap();
    assert_eq!(store.get_frontier_state("run-a").unwrap(), (None, None));
    let envelope = MissionEnvelope {
        document: "{\"level\":\"run\"}".to_string(),
    };
    store
        .set_frontier_state("run-a", Some(&envelope), None, t(2))
        .unwrap();
    assert_eq!(
        store.get_frontier_state("run-a").unwrap(),
        (Some(envelope), Some(FrontierBudgetState::default()))
    );
    let selected = store
        .update_run_selected_slices("run-a", "slice-002", t(3))
        .unwrap();
    assert_eq!(selected.selected_slice_id, "slice-002");
    assert_eq!(selected.updated_at, t(3));
    assert!(store
        .update_run_selected_slices("run-x", "slice-002", t(3))
        .is_err());
}

#[test]
fn tables_that_no_store_has_are_refused() {
    let mut store = Store::new();
    store
        .insert_run(&run("run-a", "/a", RunStatus::Failed, t(1)))
        .unwrap();
    let mut tables = store.tables().clone();
    tables.runs.push(tables.runs[0].clone());
    assert!(matches!(
        Store::from_tables(tables),
        Err(StoreError::CorruptTables)
    ));
}

#[test]
fn an_end_that_is_none_is_kept_as_it_was_found() {
    let mut store = Store::new();
    store
        .insert_run(&run("run-a", "/a", RunStatus::Running, t(1)))
        .unwrap();
    store
        .prepare_run_terminal_transition("run-a", RunStatus::Failed, "e", "m", "r", t(2))
        .unwrap();
    let mut tables = store.tables().clone();
    tables.terminals[0].status = RunStatus::Running;
    let found = Store::from_tables(tables).unwrap();
    let end = found.terminal_transition("run-a").unwrap().unwrap();
    assert_eq!(end.status, RunStatus::Running);
}
