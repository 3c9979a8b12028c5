use khazad_doom::domain::{
    Run, RunStatus, SliceRun, SliceStatus, WorkerAttemptLedger, WorkerQuestionAnswerSource,
    WorkerQuestion, WorkerQuestionRecommendation, DecisionCommandOutcome,
};
use khazad_doom::error::StoreError;
use khazad_doom::payloads::EventPayload;
use khazad_doom::rows::WorkerQuestionDecisionCommand;
use khazad_doom::store::progress::{is_terminal_progress_phase, ProgressReporter, ProgressScope};
use khazad_doom::store::Store;
use khazad_doom::time::Timestamp;

fn t(seconds: i64) -> Timestamp {
    Timestamp::new(1_783_000_000 + seconds, 0).unwrap()
}

fn run(id: &str, repo_path: &str, status: RunStatus, started_at: Timestamp) -> Run {
    Run {
        id: id.to_string(),
        repo_id: format!("repo-{repo_path}"),
        repo_path: repo_path.to_string(),
        status,
        base_branch: "main".to_string(),
        base_sha: "base".to_string(),
        integration_branch: format!("khazad/{id}/integration"),
        selected_slice_id: "slice-001".to_string(),
        error: String::new(),
        started_at,
        updated_at: started_at,
    }
}

fn store_with_run(id: &str) -> Store {
    let mut store = Store::new();
    store
        .insert_run(&run(id, "/tmp/repo", RunStatus::Running, t(0)))
        .unwrap();
    store
}

fn with_room(store: &Store, events: i64) -> Store {
    let mut tables = store.tables().clone();
    tables.last_event_id = i64::MAX - events;
    Store::from_tables(tables).unwrap()
}

fn count(store: &Store, run_id: &str, typ: &str) -> usize {
    store
        .get_events(run_id, 100)
        .unwrap()
        .iter()
        .filter(|event| event.typ == typ)
        .count()
}

fn slice(run_id: &str, slice_id: &str, status: SliceStatus, attempts: usize) -> SliceRun {
    SliceRun {
        run_id: run_id.to_string(),
        slice_id: slice_id.to_string(),
        status,
        branch: String::new(),
        commit_sha: String::new(),
        attempts,
        last_error: String::new(),
    }
}

fn allocate(store: &mut Store, run_id: &str, slice_id: &str, epoch: usize) -> WorkerAttemptLedger {
    store
        .allocate_worker_attempt(
            run_id,
            slice_id,
            epoch,
            1,
            0,
            0,
            "worker",
            "/tmp/worktrees",
            t(1),
        )
        .unwrap()
}

fn asked(question: &WorkerQuestion) -> Result<EventPayload, StoreError> {
    Ok(EventPayload::Document(format!(
        "{{\"question_id\":\"{}\"}}",
        question.id
    )))
}

#[test]
fn worker_question_terminal_transition_prevents_same_attempt_revival() {
    let ending = "run-terminal-question";
    let mut store = store_with_run(ending);
    store
        .upsert_slice_run(&slice(ending, "slice-001", SliceStatus::Running, 1))
        .unwrap();
    store
        .upsert_slice_run(&slice(ending, "slice-002", SliceStatus::Pending, 0))
        .unwrap();
    store
        .open_active_worker_question_with_recommendation(
            "q-terminal-question",
            ending,
            "slice-001",
            1,
            "Choose?",
            &vec!["A".to_string(), "B".to_string()],
            60,
            &WorkerQuestionRecommendation {
                recommended_answer: "A".to_string(),
                rationale: "A is reversible".to_string(),
                bounded_within_current_slice_or_mission_authority: true,
                reversible: true,
            },
            "worker_question_asked",
            asked,
            "awaiting operator answer",
            t(1),
        )
        .unwrap();

    assert_eq!(
        store
            .prepare_run_terminal_transition(
                ending,
                RunStatus::Cancelled,
                "cancelled by operator",
                "cancelled by operator",
                "run cancelled before the question was answered",
                t(2)
            )
            .unwrap(),
        1
    );
    let preparing_run = store
        .get_run(ending)
        .unwrap()
        .expect("run preparing its terminal transition");
    assert_eq!(preparing_run.status, RunStatus::Running);
    let question = store
        .get_worker_question("q-terminal-question")
        .unwrap()
        .expect("interrupted question");
    assert_eq!(question.state, "interrupted");
    assert_eq!(question.answer_source, None);
    let progress = store
        .get_progress(ending)
        .unwrap()
        .expect("terminal progress");
    assert_eq!(progress.phase, "cancelled");
    let slice_runs = store.get_slice_runs(ending).unwrap();
    assert_eq!(
        slice_runs
            .iter()
            .find(|slice_run| slice_run.slice_id == "slice-001")
            .expect("active slice")
            .status,
        SliceStatus::Cancelled
    );
    assert_eq!(
        slice_runs
            .iter()
            .find(|slice_run| slice_run.slice_id == "slice-002")
            .expect("unstarted slice")
            .status,
        SliceStatus::Pending,
        "terminalization must not erase resumable planned work"
    );

    store
        .update_progress(
            ending,
            "ready_to_merge",
            "slice-001",
            1,
            "",
            "late lifecycle write",
            "",
            t(3),
        )
        .unwrap();
    assert_eq!(
        store
            .get_progress(ending)
            .unwrap()
            .expect("guarded terminal progress")
            .phase,
        "cancelled"
    );

    store
        .update_run(ending, RunStatus::Cancelled, "cancelled by operator", t(4))
        .unwrap();
    assert_eq!(
        store
            .get_run(ending)
            .unwrap()
            .expect("published terminal run")
            .status,
        RunStatus::Cancelled
    );
    store
        .update_run(ending, RunStatus::Running, "", t(5))
        .unwrap();
    store
        .upsert_slice_run(&slice(ending, "slice-001", SliceStatus::Running, 0))
        .unwrap();
    store
        .activate_slice_attempt(ending, "slice-001", 1, t(6))
        .unwrap();
    let stale = store
        .decide_worker_question_command(
            ending,
            "q-terminal-question",
            &WorkerQuestionDecisionCommand::answer(
                "A",
                WorkerQuestionAnswerSource::LlmRecommendationTimeout,
                "recommendation applied",
            ),
            t(7),
        )
        .unwrap();
    assert_eq!(stale.outcome, DecisionCommandOutcome::Conflict);
    let stale = stale.question.expect("interrupted question");
    assert_eq!(stale.state, "interrupted");
    assert_eq!(stale.answer_source, None);
    assert_eq!(count(&store, ending, "worker_question_interrupted"), 1);
    assert_eq!(count(&store, ending, "worker_question_answered"), 0);
}

#[test]
fn terminalization_intent_is_first_commit_wins_and_idempotent() {
    let ending = "run-terminal-first-commit-wins";
    let mut store = store_with_run(ending);
    let allocated = allocate(&mut store, ending, "slice-allocated", 1);
    let running = allocate(&mut store, ending, "slice-running", 1);
    store
        .mark_worker_attempt_launched(running.launch_id, t(2))
        .unwrap();

    let cancel = |store: &mut Store| {
        store.prepare_run_terminal_transition(
            ending,
            RunStatus::Cancelled,
            "operator cancelled",
            "operator cancelled",
            "run cancelled before question answer",
            t(3),
        )
    };
    assert_eq!(cancel(&mut store).unwrap(), 0);
    for launch in [allocated, running] {
        let ledger = store
            .list_worker_attempt_ledger(ending, &launch.slice_id)
            .unwrap();
        assert_eq!(ledger[0].state, "interrupted");
        assert!(ledger[0].finished_at.is_some());
        assert_eq!(
            ledger[0].failure_cause,
            "run cancelled before question answer"
        );
    }
    assert_eq!(
        cancel(&mut store).unwrap(),
        0,
        "an exact retry must not duplicate terminal intent side effects"
    );
    let conflict = store.prepare_run_terminal_transition(
        ending,
        RunStatus::Failed,
        "different failure",
        "different failure",
        "different interruption reason",
        t(4),
    );
    assert_eq!(conflict, Err(StoreError::TerminalIntentConflict));
    assert_eq!(count(&store, ending, "terminal_transition_intended"), 1);
    assert_eq!(
        count(&store, ending, "worker_attempt_interrupted"),
        2,
        "retrying the same terminal intent must not duplicate launch transitions"
    );
    assert_eq!(
        store.get_run(ending).unwrap().expect("run exists").status,
        RunStatus::Running
    );
}

fn summary() -> EventPayload {
    EventPayload::Document("{\"path\": \"/tmp/run-summary.json\"}".to_string())
}

fn gate_failure() -> EventPayload {
    EventPayload::Document("{\"error\": \"integration gate failed\"}".to_string())
}

#[test]
fn terminalization_state_and_event_commit_roll_back_together_on_event_failure() {
    let ending = "run-terminal-transaction";
    let mut store = store_with_run(ending);
    store
        .prepare_run_terminal_transition(
            ending,
            RunStatus::Failed,
            "integration gate failed",
            "integration gate failed",
            "run failed before question answer",
            t(1),
        )
        .unwrap();
    store
        .mark_terminal_summary_written(ending, "terminal_summary_written", summary(), t(2))
        .unwrap();

    let mut full = with_room(&store, 0);
    let failed = full.commit_terminal_transition(ending, "run_error", gate_failure(), t(3));
    assert!(failed.is_err());
    assert_eq!(
        full.get_run(ending)
            .unwrap()
            .expect("run remains present")
            .status,
        RunStatus::Running
    );
    let transition = full
        .terminal_transition(ending)
        .unwrap()
        .expect("durable retry intent");
    assert_eq!(transition.status, RunStatus::Failed);
    assert_eq!(transition.error, "integration gate failed");
    assert!(transition.summary_written);
    assert!(!transition.committed);
    assert_eq!(count(&full, ending, "run_error"), 0);

    assert!(store
        .commit_terminal_transition(ending, "run_error", gate_failure(), t(3))
        .unwrap());
    assert_eq!(
        store.get_run(ending).unwrap().expect("terminal run").status,
        RunStatus::Failed
    );
    assert_eq!(count(&store, ending, "run_error"), 1);
}

#[test]
fn an_end_is_taken_step_by_step() {
    let mut store = store_with_run("run-a");
    assert_eq!(
        store.prepare_run_terminal_transition("run-a", RunStatus::Running, "", "", "", t(1)),
        Err(StoreError::StatusNotTerminal)
    );
    assert_eq!(
        store.prepare_run_terminal_transition("run-x", RunStatus::Failed, "", "", "", t(1)),
        Err(StoreError::RunNotFound)
    );
    assert_eq!(
        store.mark_terminal_summary_written("run-a", "s", summary(), t(1)),
        Err(StoreError::TerminalIntentMissing)
    );
    store
        .prepare_run_terminal_transition("run-a", RunStatus::Failed, "e", "m", "r", t(1))
        .unwrap();
    assert_eq!(
        store.commit_terminal_transition("run-a", "run_error", gate_failure(), t(2)),
        Err(StoreError::SummaryNotWritten)
    );
    assert!(store
        .mark_terminal_summary_written("run-a", "s", summary(), t(2))
        .unwrap());
    assert!(!store
        .mark_terminal_summary_written("run-a", "s", summary(), t(2))
        .unwrap());
    assert_eq!(
        store.mark_terminal_notification_bookkept("run-a", t(3)),
        Err(StoreError::TerminalNotCommitted)
    );
    assert!(store
        .commit_terminal_transition("run-a", "run_error", gate_failure(), t(3))
        .unwrap());
    assert!(!store
        .commit_terminal_transition("run-a", "run_error", gate_failure(), t(4))
        .unwrap());
    assert!(store
        .terminal_transition_needs_reconciliation("run-a")
        .unwrap());
    assert_eq!(
        store
            .terminal_transition_run_ids_needing_reconciliation()
            .unwrap(),
        vec!["run-a".to_string()]
    );
    assert_eq!(
        store.claim_terminal_cleanup("run-a", t(4)),
        Err(StoreError::CleanupNotReady)
    );
    assert!(!store.terminal_notification_bookkept("run-a").unwrap());
    assert!(store
        .mark_terminal_notification_bookkept("run-a", t(5))
        .unwrap());
    assert!(!store
        .mark_terminal_notification_bookkept("run-a", t(5))
        .unwrap());
    assert!(store.terminal_notification_bookkept("run-a").unwrap());
    assert_eq!(
        store.mark_terminal_cleanup_completed("run-a", "worktrees_cleaned", summary(), t(6)),
        Err(StoreError::CleanupNotClaimed)
    );
    assert!(store.claim_terminal_cleanup("run-a", t(6)).unwrap());
    assert!(!store.claim_terminal_cleanup("run-a", t(6)).unwrap());
    assert!(store
        .mark_terminal_cleanup_completed("run-a", "worktrees_cleaned", summary(), t(7))
        .unwrap());
    assert!(!store
        .mark_terminal_cleanup_completed("run-a", "worktrees_cleaned", summary(), t(7))
        .unwrap());
    assert!(!store
        .terminal_transition_needs_reconciliation("run-a")
        .unwrap());
    assert_eq!(store.get_run("run-a").unwrap().unwrap().error, "e");
}

#[test]
fn worker_attempt_ledger_allocates_monotonic_immutable_launches_across_epochs() {
    let mut store = store_with_run("run-ledger");

    let first = allocate(&mut store, "run-ledger", "slice-001", 1);
    let second = allocate(&mut store, "run-ledger", "slice-001", 2);

    assert!(second.launch_id > first.launch_id);
    assert_eq!(first.launch_ordinal, 1);
    assert_eq!(second.launch_ordinal, 2);
    assert_eq!(first.execution_epoch, 1);
    assert_eq!(second.execution_epoch, 2);
    assert_eq!(
        first.output_stem,
        format!("slice-001.worker.launch-{}", first.launch_id)
    );
    assert_eq!(
        first.branch,
        format!("khazad/run-ledger/slice-001/launch-{}", first.launch_id)
    );
    assert_eq!(
        first.worktree,
        format!("/tmp/worktrees/slice-001/launch-{}", first.launch_id)
    );
    let projection = store.get_slice_runs("run-ledger").unwrap();
    assert_eq!(projection[0].status, SliceStatus::Running);
    assert_eq!(projection[0].branch, second.branch);
    let history = store
        .list_worker_attempt_ledger("run-ledger", "slice-001")
        .unwrap();
    assert_eq!(history.len(), 2);
    assert_eq!(history[0], first);
    assert_eq!(history[1], second);
}

#[test]
fn worker_attempt_ledger_preserves_allocated_but_not_launched_evidence_for_reconciliation() {
    let mut store = store_with_run("run-unlaunched");
    let allocated = allocate(&mut store, "run-unlaunched", "slice-001", 1);

    let mut reopened = Store::from_tables(store.tables().clone()).unwrap();
    let before = reopened
        .list_worker_attempt_ledger("run-unlaunched", "slice-001")
        .unwrap();
    assert_eq!(before, vec![allocated.clone()]);
    assert_eq!(before[0].state, "allocated");
    assert_eq!(
        reopened
            .reconcile_unlaunched_worker_attempts(
                "run-unlaunched",
                "daemon restarted before worker launch",
                t(2)
            )
            .unwrap(),
        1
    );
    let after = reopened
        .list_worker_attempt_ledger("run-unlaunched", "slice-001")
        .unwrap();
    assert_eq!(after.len(), 1);
    assert_eq!(after[0].launch_id, allocated.launch_id);
    assert_eq!(after[0].state, "interrupted");
    assert_eq!(
        after[0].failure_cause,
        "daemon restarted before worker launch"
    );
    assert!(after[0].finished_at.is_some());
}

#[test]
fn worker_attempt_ledger_transitions_are_legal_and_append_events() {
    let mut store = store_with_run("run-transitions");
    let attempt = allocate(&mut store, "run-transitions", "slice-001", 1);
    assert!(store
        .finish_worker_attempt(attempt.launch_id, "succeeded", "", t(2))
        .is_err());
    store
        .mark_worker_attempt_launched(attempt.launch_id, t(3))
        .unwrap();
    assert!(store
        .mark_worker_attempt_launched(attempt.launch_id, t(4))
        .is_err());
    store
        .finish_worker_attempt(attempt.launch_id, "succeeded", "", t(5))
        .unwrap();
    assert!(store
        .finish_worker_attempt(attempt.launch_id, "failed", "late", t(6))
        .is_err());
    let history = store
        .list_worker_attempt_ledger("run-transitions", "slice-001")
        .unwrap();
    assert_eq!(history[0].state, "succeeded");
    assert!(history[0].launched_at.is_some());
    assert!(history[0].finished_at.is_some());
    assert_eq!(
        count(&store, "run-transitions", "worker_attempt_launched"),
        1
    );
    assert_eq!(
        count(&store, "run-transitions", "worker_attempt_finished"),
        1
    );
}

#[test]
fn launches_are_refused_with_their_reason() {
    let mut store = store_with_run("run-a");
    let mut allocate = |run_id: &str, epoch: usize, retry: usize, kind: &str| {
        store.allocate_worker_attempt(run_id, "s", epoch, retry, 0, 0, kind, "/w", t(1))
    };
    assert_eq!(
        allocate("run-a", 0, 1, "worker"),
        Err(StoreError::AllocationIncomplete)
    );
    assert_eq!(
        allocate("run-a", 1, 0, "worker"),
        Err(StoreError::AllocationIncomplete)
    );
    assert_eq!(
        allocate("run-a", 1, 1, " "),
        Err(StoreError::AllocationIncomplete)
    );
    assert_eq!(
        allocate("run-x", 1, 1, "worker"),
        Err(StoreError::RunNotRunning)
    );
    assert_eq!(
        store.finish_worker_attempt(7, "succeeded", "", t(2)),
        Err(StoreError::AttemptNotFound)
    );
    assert_eq!(
        store.finish_worker_attempt(7, "done", "", t(2)),
        Err(StoreError::InvalidAttemptState)
    );
    assert_eq!(
        store.mark_worker_attempt_launched(7, t(2)),
        Err(StoreError::AttemptNotAllocated)
    );
    assert_eq!(
        store.store_worker_launch_token("run-a", 0, "token"),
        Err(StoreError::InvalidLaunchToken)
    );
}

#[test]
fn worker_launch_tokens_are_bound_to_the_exact_active_launch() {
    let bound = "run-launch-token";
    let mut store = store_with_run(bound);

    let first = allocate(&mut store, bound, "slice-001", 1);
    store
        .store_worker_launch_token(bound, first.launch_id, "first-token")
        .unwrap();
    assert_eq!(
        store.store_worker_launch_token(bound, first.launch_id, "replacement"),
        Err(StoreError::LaunchTokenRefused)
    );
    store
        .mark_worker_attempt_launched(first.launch_id, t(2))
        .unwrap();
    assert!(store
        .validate_worker_launch_token(bound, first.launch_id, "first-token")
        .unwrap());
    store
        .finish_worker_attempt(first.launch_id, "interrupted", "resume", t(3))
        .unwrap();
    assert!(!store
        .validate_worker_launch_token(bound, first.launch_id, "first-token")
        .unwrap());

    let second = allocate(&mut store, bound, "slice-001", 2);
    store
        .store_worker_launch_token(bound, second.launch_id, "second-token")
        .unwrap();
    store
        .mark_worker_attempt_launched(second.launch_id, t(4))
        .unwrap();
    assert!(store
        .validate_worker_launch_token(bound, second.launch_id, "second-token")
        .unwrap());
    assert!(!store
        .validate_worker_launch_token(bound, second.launch_id, "first-token")
        .unwrap());
    assert!(!store
        .validate_worker_launch_token(bound, first.launch_id, "second-token")
        .unwrap());
}

#[test]
fn integration_repair_authority_uses_its_repair_ordinal_not_a_retry_ordinal() {
    let repair = "run-integration-repair-launch";
    let mut store = store_with_run(repair);
    let launch = store
        .allocate_run_worker_attempt(
            repair,
            "integration-repair",
            1,
            0,
            1,
            0,
            "integration-repair",
            "/tmp/worktrees",
            t(1),
        )
        .unwrap();
    store
        .store_worker_launch_token(repair, launch.launch_id, "repair-token")
        .unwrap();
    store
        .mark_worker_attempt_launched(launch.launch_id, t(2))
        .unwrap();

    assert!(store
        .validate_worker_launch_token(repair, launch.launch_id, "repair-token")
        .unwrap());
    assert!(store
        .worker_attempt_is_active_with_launch_id(
            repair,
            "integration-repair",
            1,
            Some(launch.launch_id)
        )
        .unwrap());
    assert!(!store
        .worker_attempt_is_active_with_launch_id(
            repair,
            "integration-repair",
            0,
            Some(launch.launch_id)
        )
        .unwrap());
    store
        .update_progress(
            repair,
            "integration_repair",
            "integration-repair",
            1,
            "pi",
            "repair running",
            "",
            t(3),
        )
        .unwrap();
    store
        .observe_worker_attempt(
            repair,
            "integration_repair",
            "integration-repair",
            1,
            Some(launch.launch_id),
            Some(42),
            "tool",
            None,
            30,
            10,
            t(4),
        )
        .unwrap();
    assert_eq!(
        store
            .get_progress(repair)
            .unwrap()
            .and_then(|progress| progress.worker)
            .and_then(|worker| worker.launch_id),
        Some(launch.launch_id)
    );
}

#[test]
fn worker_activity_is_bound_to_the_exact_running_launch() {
    let active = "run-launch-activity";
    let mut store = store_with_run(active);
    let first = allocate(&mut store, active, "slice-001", 1);
    store
        .mark_worker_attempt_launched(first.launch_id, t(2))
        .unwrap();
    store
        .finish_worker_attempt(first.launch_id, "interrupted", "superseded", t(3))
        .unwrap();
    let second = allocate(&mut store, active, "slice-001", 2);
    store
        .mark_worker_attempt_launched(second.launch_id, t(4))
        .unwrap();
    store
        .update_progress(
            active,
            "worker_running",
            "slice-001",
            1,
            "pi",
            "worker running",
            "",
            t(5),
        )
        .unwrap();

    let mut observe = |launch_id: i64, pid: u32| {
        store
            .observe_worker_attempt(
                active,
                "worker_running",
                "slice-001",
                1,
                Some(launch_id),
                Some(pid),
                "stderr",
                None,
                30,
                10,
                t(6),
            )
            .unwrap()
    };
    assert!(
        observe(first.launch_id, 111)
            .expect("progress")
            .worker
            .is_none(),
        "a finished launch must not mutate current worker activity"
    );

    let worker = observe(second.launch_id, 222)
        .expect("progress")
        .worker
        .expect("current worker activity");
    assert_eq!(worker.launch_id, Some(second.launch_id));
    assert_eq!(worker.pid, Some(222));
    assert_eq!(worker.last_event_kind, "stderr");
    let history = store
        .list_worker_attempt_ledger(active, "slice-001")
        .unwrap();
    assert!(history[0].activity.is_none());
    let activity = history[1].activity.as_ref().expect("launch activity");
    assert_eq!(activity.launch_id, Some(second.launch_id));
    assert_eq!(activity.pid, Some(222));
    assert_eq!(activity.last_event_kind, "stderr");
    assert_eq!(activity.attempt_timeout_seconds, 30);
    assert_eq!(activity.no_output_warning_seconds, 10);
}

#[test]
fn semantic_progress_from_wrapper_stdout_path_updates_worker_progress() {
    let mut store = store_with_run("run-semantic");
    store
        .update_progress(
            "run-semantic",
            "worker_running",
            "slice-001",
            1,
            "pi",
            "slice worker is running",
            "",
            t(1),
        )
        .unwrap();

    store
        .observe_worker_attempt(
            "run-semantic",
            "worker_running",
            "slice-001",
            1,
            None,
            Some(123),
            "stdout",
            Some("tool bash finished"),
            0,
            0,
            t(2),
        )
        .unwrap();

    let progress = store
        .get_progress("run-semantic")
        .unwrap()
        .expect("progress");
    let worker = progress.worker.expect("worker progress");
    assert!(worker.last_event_at.is_some());
    assert_eq!(worker.last_event_kind, "stdout");
    assert!(worker.last_semantic_progress_at.is_some());
    assert_eq!(worker.last_semantic_progress_summary, "tool bash finished");
}

#[test]
fn progress_reports_are_marked_in_the_log() {
    let mut store = store_with_run("run-a");
    let reporter = ProgressReporter::new("run-a");
    let scope = ProgressScope::new("worker_running", "slice-001", 1, "pi", "working");
    reporter.mark(&mut store, &scope, t(1));
    reporter.update_output_tail(&mut store, &scope, "tail", t(2));
    assert_eq!(count(&store, "run-a", "progress"), 1);
    let progress = store.get_progress("run-a").unwrap().unwrap();
    assert_eq!(progress.output_tail, "tail");
    assert_eq!(progress.phase_started_at, t(1));
    assert_eq!(progress.updated_at, t(2));
}

#[test]
fn phases_of_an_end_are_known() {
    for phase in ["blocked", "completed", "failed", "cancelled", "interrupted"] {
        assert!(is_terminal_progress_phase(phase));
    }
    assert!(!is_terminal_progress_phase("worker_running"));
}

#[test]
fn an_end_that_is_repeated_changes_nothing() {
    let mut store = store_with_run("run-a");
    allocate(&mut store, "run-a", "slice-1", 1);
    let end = |store: &mut Store, at: Timestamp| {
        store.prepare_run_terminal_transition("run-a", RunStatus::Failed, "e", "m", "r", at)
    };
    end(&mut store, t(1)).unwrap();
    let intended = store.tables().clone();
    assert_eq!(end(&mut store, t(2)).unwrap(), 0);
    assert_eq!(*store.tables(), intended);
    store
        .mark_terminal_summary_written("run-a", "s", summary(), t(3))
        .unwrap();
    assert!(store
        .commit_terminal_transition("run-a", "run_error", gate_failure(), t(4))
        .unwrap());
    let published = store.tables().clone();
    assert!(!store
        .commit_terminal_transition("run-a", "run_error", gate_failure(), t(5))
        .unwrap());
    assert_eq!(*store.tables(), published);
}

#[test]
fn launches_of_all_runs_have_their_own_names() {
    let mut store = store_with_run("run-a");
    store
        .insert_run(&run("run-b", "/tmp/other", RunStatus::Running, t(0)))
        .unwrap();
    let launches = [
        allocate(&mut store, "run-a", "slice-1", 1),
        allocate(&mut store, "run-a", "slice-2", 1),
        allocate(&mut store, "run-b", "slice-1", 1),
        allocate(&mut store, "run-b", "slice-1", 1),
    ];
    for (i, one) in launches.iter().enumerate() {
        for other in &launches[..i] {
            assert_ne!(one.branch, other.branch);
            assert_ne!(one.worktree, other.worktree);
            assert_ne!(one.output_stem, other.output_stem);
        }
    }
}
