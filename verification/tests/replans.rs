use khazad_doom::domain::{
    AutonomyLevel, DecisionCommandOutcome, FollowupSliceDraft, FrontierBudgetState,
    FrontierClassification, ReplanEvidenceLink, ReplanProposal, ReplanProposalSource,
    ReplanProposalState, ReplanProposedChange, Run, RunStatus,
};
use khazad_doom::error::StoreError;
use khazad_doom::payloads::EventPayload;
use khazad_doom::rows::ReplanDecisionCommand;
use khazad_doom::store::Store;
use khazad_doom::time::Timestamp;

fn t(seconds: i64) -> Timestamp {
    Timestamp::new(1_783_000_000 + seconds, 0).unwrap()
}

fn run(id: &str, repo_path: &str, status: RunStatus, started_at: Timestamp) -> Run {
    Run {
        id: id.to_string(),
        repo_id: format!("repo-{repo_path}"),
        repo_path: repo_path.to_string(),
        status,
        base_branch: "main".to_string(),
        base_sha: "base".to_string(),
        integration_branch: format!("khazad/{id}/integration"),
        selected_slice_id: "slice-001".to_string(),
        error: String::new(),
        started_at,
        updated_at: started_at,
    }
}

fn store_with_run(id: &str) -> Store {
    let mut store = Store::new();
    store
        .insert_run(&run(id, "/tmp/repo", RunStatus::Running, t(0)))
        .unwrap();
    store
}

fn with_room(store: &Store, events: i64) -> Store {
    let mut tables = store.tables().clone();
    tables.last_event_id = i64::MAX - events;
    Store::from_tables(tables).unwrap()
}

fn change(target: &str, summary: &str) -> ReplanProposedChange {
    ReplanProposedChange {
        kind: "add_followup_slice".to_string(),
        target: target.to_string(),
        summary: summary.to_string(),
        followup_slice_draft: None,
    }
}

fn source(kind: &str) -> ReplanProposalSource {
    ReplanProposalSource {
        kind: kind.to_string(),
        ..ReplanProposalSource::default()
    }
}

fn count(store: &Store, run_id: &str, typ: &str) -> usize {
    store
        .get_events(run_id, 100)
        .unwrap()
        .iter()
        .filter(|event| event.typ == typ)
        .count()
}

fn budget(used: u64) -> FrontierBudgetState {
    FrontierBudgetState {
        auto_promotions_used: used,
        generated_slices: used,
    }
}

fn classification() -> FrontierClassification {
    FrontierClassification {
        tier: "tier_1".to_string(),
        reason_codes: vec!["add_followup_slice_only".to_string()],
        classified_at: t(0),
        envelope_hash: "envelope".to_string(),
        budget_snapshot: budget(0),
        autonomy_level: AutonomyLevel::Run,
    }
}

fn followup(store: &mut Store, run_id: &str, id: &str) -> ReplanProposal {
    let draft = FollowupSliceDraft {
        id: format!("{id}-slice"),
        title: "Follow-up".to_string(),
        goal: "Capture the bounded follow-up".to_string(),
        areas: vec!["src/state.rs".to_string()],
        acceptance: vec!["follow-up accepted".to_string()],
        verify: vec!["cargo test".to_string()],
    };
    store
        .create_replan_proposal(
            run_id,
            id,
            &source("worker"),
            &Vec::new(),
            &Vec::new(),
            &vec![ReplanProposedChange {
                kind: "add_followup_slice".to_string(),
                target: draft.id.clone(),
                summary: "bounded follow-up".to_string(),
                followup_slice_draft: Some(draft),
            }],
            "auto_approvable",
            t(1),
        )
        .unwrap()
}

#[test]
fn replan_proposals_persist_pending_and_decided_states() {
    let mut store = store_with_run("kd-replan-run");
    let worker = ReplanProposalSource {
        kind: "worker".to_string(),
        slice_id: "slice-001".to_string(),
        phase: "worker_running".to_string(),
        attempt: 1,
        summary: "worker found a follow-up".to_string(),
    };
    let evidence = vec![ReplanEvidenceLink {
        kind: "worker_output".to_string(),
        path: ".workflow/runs/kd-replan-run/outputs/slice-001.worker.json".to_string(),
        event_id: 7,
        summary: "blocked finding".to_string(),
    }];
    let changes = vec![change(
        "slice-001-followup",
        "capture the out-of-area work separately",
    )];

    let pending = store
        .create_replan_proposal(
            "kd-replan-run",
            "",
            &worker,
            &vec!["finding-1".to_string()],
            &evidence,
            &changes,
            "intent_affecting",
            t(1),
        )
        .unwrap();
    assert_eq!(pending.state, ReplanProposalState::Pending);
    assert!(pending.id.starts_with("rp-replanru-"));
    assert_eq!(
        store
            .pending_replan_proposals("kd-replan-run")
            .unwrap()
            .len(),
        1
    );

    let mut decide = |id: &str,
                      state: ReplanProposalState,
                      rationale: &str,
                      replacement_id: &str,
                      revisit_condition: &str| {
        let proposal = store
            .create_replan_proposal(
                "kd-replan-run",
                id,
                &worker,
                &Vec::new(),
                &evidence,
                &changes,
                "operator_review",
                t(2),
            )
            .unwrap();
        store
            .decide_replan_proposal(
                "kd-replan-run",
                &proposal.id,
                state,
                rationale,
                "test-operator",
                "cli",
                replacement_id,
                revisit_condition,
                t(3),
            )
            .unwrap()
    };

    let accepted = decide(
        "rp-accept",
        ReplanProposalState::Accepted,
        "approved for later application",
        "",
        "",
    );
    assert_eq!(accepted.state, ReplanProposalState::Accepted);
    let decision = accepted.operator_decision.as_ref().expect("decision");
    assert_eq!(decision.authorizer, "test-operator");
    assert_eq!(decision.source, "cli");
    assert!(!decision.applied);
    assert!(decision.applied_at.is_none());

    let rejected = decide(
        "rp-reject",
        ReplanProposalState::Rejected,
        "duplicate proposal",
        "",
        "",
    );
    assert_eq!(rejected.state, ReplanProposalState::Rejected);

    let deferred = decide(
        "rp-defer",
        ReplanProposalState::Deferred,
        "not needed for this run",
        "",
        "if the same finding repeats",
    );
    assert_eq!(deferred.state, ReplanProposalState::Deferred);
    assert_eq!(
        deferred
            .operator_decision
            .as_ref()
            .expect("decision")
            .revisit_condition,
        "if the same finding repeats"
    );

    let superseded = decide(
        "rp-supersede",
        ReplanProposalState::Superseded,
        "replacement has narrower scope",
        "rp-replacement",
        "",
    );
    assert_eq!(superseded.state, ReplanProposalState::Superseded);
    assert_eq!(
        superseded
            .operator_decision
            .as_ref()
            .expect("decision")
            .replacement_id,
        "rp-replacement"
    );

    let proposals = store.list_replan_proposals("kd-replan-run").unwrap();
    assert_eq!(proposals.len(), 5);
    assert_eq!(
        store
            .pending_replan_proposals("kd-replan-run")
            .unwrap()
            .len(),
        1
    );
}

#[test]
fn generated_proposal_ids_count_on() {
    let mut store = store_with_run("kd-replan-run");
    let mut create = |requested: &str| {
        store
            .create_replan_proposal(
                "kd-replan-run",
                requested,
                &source("worker"),
                &Vec::new(),
                &Vec::new(),
                &vec![change("a", "b")],
                " ",
                t(1),
            )
            .map(|proposal| (proposal.id, proposal.risk))
    };
    assert_eq!(
        create(""),
        Ok(("rp-replanru-001".to_string(), "operator_review".to_string()))
    );
    assert_eq!(create("rp-replanru-003").unwrap().0, "rp-replanru-003");
    assert_eq!(create("").unwrap().0, "rp-replanru-004");
    assert_eq!(create("rp-replanru-003"), Err(StoreError::ProposalExists));
}

#[test]
fn proposals_are_refused_without_run_source_or_change() {
    let mut store = store_with_run("run-a");
    let mut create = |run_id: &str, kind: &str, changes: Vec<ReplanProposedChange>| {
        store
            .create_replan_proposal(
                run_id,
                "rp-1",
                &source(kind),
                &Vec::new(),
                &Vec::new(),
                &changes,
                "",
                t(1),
            )
            .unwrap_err()
    };
    assert_eq!(
        create("run-x", "worker", vec![change("a", "b")]),
        StoreError::RunNotFound
    );
    assert_eq!(
        create("run-a", " ", vec![change("a", "b")]),
        StoreError::ProposalSourceRequired
    );
    assert_eq!(
        create("run-a", "worker", Vec::new()),
        StoreError::ProposalChangesRequired
    );
}

#[test]
fn duplicate_identical_replan_decision_is_idempotent() {
    let mut store = store_with_run("run-idempotent-replan");
    let proposal = store
        .create_replan_proposal(
            "run-idempotent-replan",
            "rp-idempotent",
            &source("operator"),
            &Vec::new(),
            &Vec::new(),
            &vec![change("slice-followup", "capture follow-up")],
            "operator_review",
            t(1),
        )
        .unwrap();

    for at in [2, 3] {
        let decided = store
            .decide_replan_proposal(
                "run-idempotent-replan",
                &proposal.id,
                ReplanProposalState::Accepted,
                "approved",
                "test-operator",
                "daemon_ipc",
                "",
                "",
                t(at),
            )
            .unwrap();
        assert_eq!(decided.state, ReplanProposalState::Accepted);
    }

    assert_eq!(
        count(&store, "run-idempotent-replan", "replan_proposal_decided"),
        1,
        "an idempotent duplicate must not append a second authoritative event"
    );
}

#[test]
fn replan_decision_command_returns_typed_idempotent_and_conflict_outcomes() {
    let mut store = store_with_run("run-typed-replan");
    let proposal = store
        .create_replan_proposal(
            "run-typed-replan",
            "rp-typed",
            &source("operator"),
            &Vec::new(),
            &Vec::new(),
            &vec![change("slice-followup", "capture follow-up")],
            "operator_review",
            t(1),
        )
        .unwrap();
    let accepted = ReplanDecisionCommand::operator(
        ReplanProposalState::Accepted,
        "approved",
        "test-operator",
        "daemon_ipc",
        "",
        "",
    );

    let applied = store
        .decide_replan_proposal_command("run-typed-replan", &proposal.id, &accepted, t(2))
        .unwrap();
    assert_eq!(applied.outcome, DecisionCommandOutcome::Applied);

    let duplicate = store
        .decide_replan_proposal_command("run-typed-replan", &proposal.id, &accepted, t(3))
        .unwrap();
    assert_eq!(
        duplicate.outcome,
        DecisionCommandOutcome::AlreadyAppliedIdempotently
    );

    let conflict = store
        .decide_replan_proposal_command(
            "run-typed-replan",
            &proposal.id,
            &ReplanDecisionCommand::operator(
                ReplanProposalState::Rejected,
                "rejected instead",
                "test-operator",
                "daemon_ipc",
                "",
                "",
            ),
            t(4),
        )
        .unwrap();
    assert_eq!(conflict.outcome, DecisionCommandOutcome::Conflict);
    assert_eq!(
        conflict.proposal.expect("conflict winner").state,
        ReplanProposalState::Accepted
    );
    assert_eq!(
        count(&store, "run-typed-replan", "replan_proposal_decided"),
        1
    );
}

#[test]
fn concurrent_auto_accepts_cannot_double_spend_one_budget_snapshot() {
    let race = "run-auto-budget-race";
    for order in [["rp-auto-a", "rp-auto-b"], ["rp-auto-b", "rp-auto-a"]] {
        let mut store = store_with_run(race);
        let budget_before = FrontierBudgetState::default();
        let budget_after = budget(1);
        store
            .set_frontier_state(race, None, Some(&budget_before), t(0))
            .unwrap();
        let classification = classification();
        for proposal_id in ["rp-auto-a", "rp-auto-b"] {
            followup(&mut store, race, proposal_id);
        }

        let outcomes = order
            .iter()
            .map(|proposal_id| {
                store
                    .decide_replan_proposal_command(
                        race,
                        proposal_id,
                        &ReplanDecisionCommand::auto_accept(
                            "frontier policy accepted",
                            &classification,
                            &budget_before,
                            &budget_after,
                        ),
                        t(2),
                    )
                    .unwrap()
                    .outcome
            })
            .collect::<Vec<_>>();
        assert_eq!(
            outcomes
                .iter()
                .filter(|outcome| **outcome == DecisionCommandOutcome::Applied)
                .count(),
            1
        );
        assert_eq!(
            outcomes
                .iter()
                .filter(|outcome| **outcome == DecisionCommandOutcome::Conflict)
                .count(),
            1
        );
        let (_, budget_now) = store.get_frontier_state(race).unwrap();
        assert_eq!(budget_now, Some(budget_after.clone()));
        let proposals = store.list_replan_proposals(race).unwrap();
        assert_eq!(
            proposals
                .iter()
                .filter(|proposal| proposal.state == ReplanProposalState::Accepted)
                .count(),
            1
        );
        assert_eq!(
            proposals
                .iter()
                .filter(|proposal| proposal.state == ReplanProposalState::Pending)
                .count(),
            1
        );
        assert_eq!(count(&store, race, "replan_proposal_decided"), 1);
        let accepted_id = proposals
            .iter()
            .find(|proposal| proposal.state == ReplanProposalState::Accepted)
            .expect("accepted proposal")
            .id
            .clone();
        let exact_duplicate = store
            .decide_replan_proposal_command(
                race,
                &accepted_id,
                &ReplanDecisionCommand::auto_accept(
                    "frontier policy accepted",
                    &classification,
                    &budget_before,
                    &budget_after,
                ),
                t(3),
            )
            .unwrap();
        assert_eq!(
            exact_duplicate.outcome,
            DecisionCommandOutcome::AlreadyAppliedIdempotently
        );
        let mut conflicting_classification = classification.clone();
        conflicting_classification.envelope_hash = "different-envelope".to_string();
        let conflicting_duplicate = store
            .decide_replan_proposal_command(
                race,
                &accepted_id,
                &ReplanDecisionCommand::auto_accept(
                    "frontier policy accepted",
                    &conflicting_classification,
                    &budget_before,
                    &budget_after,
                ),
                t(3),
            )
            .unwrap();
        assert_eq!(
            conflicting_duplicate.outcome,
            DecisionCommandOutcome::Conflict
        );

        followup(&mut store, race, "rp-auto-rollback");
        let next_budget = budget(2);
        let mut full = with_room(&store, 2);
        assert!(full
            .auto_accept_replan_proposal_with_budget(
                race,
                "rp-auto-rollback",
                "frontier policy rollback",
                &classification,
                &budget_after,
                &next_budget,
                "rollback-checkpoint",
                "append_and_run",
                t(4),
            )
            .is_err());
        let (_, durable_budget) = full.get_frontier_state(race).unwrap();
        assert_eq!(durable_budget, Some(budget_after.clone()));
        assert_eq!(
            full.get_replan_proposal(race, "rp-auto-rollback")
                .unwrap()
                .expect("rolled back proposal")
                .state,
            ReplanProposalState::Pending
        );
        assert_eq!(
            count(&full, race, "replan_proposal_decided"),
            1,
            "a failed supplemental event append must roll back proposal state and budget"
        );
        assert_eq!(count(&full, race, "frontier_auto_accept_recorded"), 0);
        assert_eq!(
            count(&full, race, "frontier_classified"),
            0,
            "a failed supplemental event append must roll back classification audit evidence"
        );

        let recorded_command = |checkpoint: &str, apply_mode: &str| {
            ReplanDecisionCommand::auto_accept_recorded(
                "frontier policy rollback",
                &classification,
                &budget_after,
                &next_budget,
                checkpoint,
                apply_mode,
            )
        };
        let recorded = store
            .decide_replan_proposal_command(
                race,
                "rp-auto-rollback",
                &recorded_command("rollback-checkpoint", "append_and_run"),
                t(5),
            )
            .unwrap();
        assert_eq!(recorded.outcome, DecisionCommandOutcome::Applied);
        let exact_recorded_duplicate = store
            .decide_replan_proposal_command(
                race,
                "rp-auto-rollback",
                &recorded_command("rollback-checkpoint", "append_and_run"),
                t(6),
            )
            .unwrap();
        assert_eq!(
            exact_recorded_duplicate.outcome,
            DecisionCommandOutcome::AlreadyAppliedIdempotently
        );
        for (checkpoint, apply_mode) in [
            ("different-checkpoint", "append_and_run"),
            ("rollback-checkpoint", "append_only"),
        ] {
            let conflict = store
                .decide_replan_proposal_command(
                    race,
                    "rp-auto-rollback",
                    &recorded_command(checkpoint, apply_mode),
                    t(7),
                )
                .unwrap();
            assert_eq!(conflict.outcome, DecisionCommandOutcome::Conflict);
        }
        assert_eq!(count(&store, race, "frontier_auto_accept_recorded"), 1);
        assert_eq!(count(&store, race, "frontier_classified"), 1);
    }
}

#[test]
fn concurrent_conflicting_replan_decisions_have_one_winner() {
    let race = "run-concurrent-replan";
    let accept = (ReplanProposalState::Accepted, "accept");
    let reject = (ReplanProposalState::Rejected, "reject");
    for order in [[accept, reject], [reject, accept]] {
        let mut store = store_with_run(race);
        let proposal = store
            .create_replan_proposal(
                race,
                "rp-race",
                &ReplanProposalSource {
                    kind: "worker".to_string(),
                    slice_id: "slice-001".to_string(),
                    phase: "worker_running".to_string(),
                    attempt: 1,
                    summary: "concurrent operator decision".to_string(),
                },
                &Vec::new(),
                &Vec::new(),
                &vec![change("slice-001-followup", "capture follow-up work")],
                "operator_review",
                t(1),
            )
            .unwrap();
        let outcomes = order
            .iter()
            .map(|(state, rationale)| {
                store
                    .decide_replan_proposal_command(
                        race,
                        &proposal.id,
                        &ReplanDecisionCommand::operator(
                            *state,
                            rationale,
                            "test-operator",
                            "concurrent-test",
                            "",
                            "",
                        ),
                        t(2),
                    )
                    .unwrap()
                    .outcome
            })
            .collect::<Vec<_>>();
        assert_eq!(
            outcomes
                .iter()
                .filter(|outcome| **outcome == DecisionCommandOutcome::Applied)
                .count(),
            1
        );
        assert_eq!(
            outcomes
                .iter()
                .filter(|outcome| **outcome == DecisionCommandOutcome::Conflict)
                .count(),
            1
        );
        let final_proposal = store
            .get_replan_proposal(race, &proposal.id)
            .unwrap()
            .expect("durable proposal");
        let decision_events = store
            .get_events(race, 100)
            .unwrap()
            .into_iter()
            .filter(|event| event.typ == "replan_proposal_decided")
            .collect::<Vec<_>>();
        assert_eq!(
            decision_events.len(),
            1,
            "the winning state change and its authoritative event must commit together"
        );
        match &decision_events[0].payload {
            EventPayload::ReplanProposalDecided(payload) => {
                assert_eq!(payload.proposal_id, final_proposal.id);
                assert_eq!(payload.state.as_str(), final_proposal.state.as_str());
            }
            other => panic!("unexpected payload {other:?}"),
        }
    }
}

#[test]
fn replan_commands_are_refused_with_their_reason() {
    let mut store = store_with_run("run-a");
    followup(&mut store, "run-a", "rp-1");
    store
        .create_replan_proposal(
            "run-a",
            "rp-plain",
            &source("worker"),
            &Vec::new(),
            &Vec::new(),
            &vec![change("a", "b")],
            "",
            t(1),
        )
        .unwrap();
    let mut decide = |command: &ReplanDecisionCommand, id: &str| {
        store.decide_replan_proposal_command("run-a", id, command, t(2))
    };
    let operator = |state, rationale: &str| {
        ReplanDecisionCommand::operator(state, rationale, "", "", " ", " ")
    };
    assert_eq!(
        decide(&operator(ReplanProposalState::Pending, "r"), "rp-1").unwrap_err(),
        StoreError::DecisionLeavesPending
    );
    assert_eq!(
        decide(&operator(ReplanProposalState::Accepted, " "), "rp-1").unwrap_err(),
        StoreError::RationaleRequired
    );
    assert_eq!(
        decide(&operator(ReplanProposalState::Deferred, "r"), "rp-1").unwrap_err(),
        StoreError::RevisitConditionRequired
    );
    assert_eq!(
        decide(&operator(ReplanProposalState::Superseded, "r"), "rp-1").unwrap_err(),
        StoreError::ReplacementRequired
    );
    let auto = |classification: &FrontierClassification, after: u64| {
        ReplanDecisionCommand::auto_accept("r", classification, &budget(0), &budget(after))
    };
    let mut tier_2 = classification();
    tier_2.tier = "tier_2".to_string();
    assert_eq!(
        decide(&auto(&tier_2, 1), "rp-1").unwrap_err(),
        StoreError::AutoAcceptTier
    );
    let mut no_evidence = classification();
    no_evidence.reason_codes = Vec::new();
    assert_eq!(
        decide(&auto(&no_evidence, 1), "rp-1").unwrap_err(),
        StoreError::AutoAcceptEvidence
    );
    assert_eq!(
        decide(&auto(&classification(), 2), "rp-1").unwrap_err(),
        StoreError::AutoAcceptBudget
    );
    assert_eq!(
        decide(&auto(&classification(), 1), "rp-plain").unwrap_err(),
        StoreError::AutoAcceptChange
    );
    assert_eq!(
        decide(&operator(ReplanProposalState::Accepted, "r"), "rp-x")
            .unwrap()
            .outcome,
        DecisionCommandOutcome::NotFound
    );
    assert_eq!(
        store.decide_replan_proposal(
            "run-a",
            "rp-x",
            ReplanProposalState::Accepted,
            "r",
            "",
            "",
            "",
            "",
            t(2)
        ),
        Err(StoreError::ProposalNotFound)
    );
}

#[test]
fn an_accepted_followup_waits_for_its_application() {
    let mut store = store_with_run("run-a");
    followup(&mut store, "run-a", "rp-1");
    let accepted = store
        .auto_accept_replan_proposal_with_budget(
            "run-a",
            "rp-1",
            "r",
            &classification(),
            &budget(0),
            &budget(1),
            "checkpoint",
            "append_and_run",
            t(2),
        )
        .unwrap();
    let decision = accepted.operator_decision.clone().unwrap();
    assert_eq!(decision.authorizer, "envelope:run-a");
    assert_eq!(decision.source, "frontier_policy");
    assert_eq!(decision.apply_status, "pending");
    assert_eq!(decision.generated_slice_id, "rp-1-slice");
    let mut applied = decision;
    applied.applied = true;
    applied.applied_at = Some(t(3));
    let replaced = store
        .replace_replan_decision("run-a", "rp-1", &applied, t(3))
        .unwrap();
    assert_eq!(replaced.operator_decision, Some(applied.clone()));
    assert_eq!(
        store
            .replace_replan_decision("run-a", "rp-x", &applied, t(3))
            .unwrap_err(),
        StoreError::ProposalNotFound
    );
    let mut reclassified = classification();
    reclassified.tier = "tier_2".to_string();
    assert_eq!(
        store
            .replace_replan_frontier_classification("run-a", "rp-1", &reclassified, t(4))
            .unwrap()
            .frontier_classification,
        Some(reclassified)
    );
}

#[test]
fn pending_proposals_are_listed_in_the_order_of_all() {
    let mut store = store_with_run("run-a");
    for id in ["rp-3", "rp-1", "rp-2"] {
        followup(&mut store, "run-a", id);
    }
    store
        .decide_replan_proposal(
            "run-a",
            "rp-1",
            ReplanProposalState::Rejected,
            "no",
            "operator",
            "cli",
            "",
            "",
            t(2),
        )
        .unwrap();
    let ids = |proposals: Vec<ReplanProposal>| -> Vec<String> {
        proposals.into_iter().map(|proposal| proposal.id).collect()
    };
    assert_eq!(
        ids(store.list_replan_proposals("run-a").unwrap()),
        vec!["rp-1", "rp-2", "rp-3"]
    );
    assert_eq!(
        ids(store.pending_replan_proposals("run-a").unwrap()),
        vec!["rp-2", "rp-3"]
    );
    let rejected = store.get_replan_proposal("run-a", "rp-1").unwrap().unwrap();
    let decision = rejected.operator_decision.unwrap();
    assert_eq!(decision.apply_status, "not_applicable");
    assert_eq!(decision.generated_slice_id, "");
}
