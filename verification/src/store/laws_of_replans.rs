//! What a proposal to replan holds, and what a decision makes of it, row by row.
use super::replans::{
    alphanumeric, apply_reason, apply_status, auto_accept_command, followup_only, followup_slice,
    generated_slice, letters_and_digits, new_proposal, proposal_in_run, proposal_of_run,
    proposal_replaced, proposal_with_id, replan_id, settled, short_run_id, timeout_command,
};
use super::{proposal_key, run_has_id, run_key};
use crate::domain::{
    DecisionCommandOutcome, FrontierBudgetStateModel, FrontierClassificationModel,
    ReplanDecisionModel, ReplanEvidenceLinkModel, ReplanProposalModel, ReplanProposalSourceModel,
    ReplanProposalState, ReplanProposedChangeModel, RunModel, RunStatus,
};
use crate::error::StoreError;
use crate::payloads::{
    EventModel, EventPayloadModel, FrontierAutoAcceptRecordedPayloadModel,
    FrontierClassifiedPayloadModel, ReplanProposalDecidedPayloadModel,
};
use crate::rows::{
    FrontierAutoAcceptRecordModel, ReplanAutoAcceptCommandModel, ReplanDecisionCommandModel,
    ReplanDecisionTransitionModel, RunRowModel, TablesModel,
};
use crate::table::{any, lemma_first_none, lemma_first_unique};
use crate::text::{blank, trim};
use crate::time::Timestamp;
use vstd::prelude::*;

verus! {

/// A new proposal holds what was proposed, is pending and undecided, and its risk is the one that was
/// named, or a review by the operator.
pub proof fn law_new_proposal_is_pending(
    id: Seq<char>,
    run_id: Seq<char>,
    source: ReplanProposalSourceModel,
    trigger_finding_ids: Seq<Seq<char>>,
    evidence: Seq<ReplanEvidenceLinkModel>,
    proposed_changes: Seq<ReplanProposedChangeModel>,
    risk: Seq<char>,
    now: Timestamp,
)
    ensures
        new_proposal(
            id,
            run_id,
            source,
            trigger_finding_ids,
            evidence,
            proposed_changes,
            risk,
            now,
        ) == (ReplanProposalModel {
            id,
            run_id,
            state: ReplanProposalState::Pending,
            source,
            trigger_finding_ids,
            evidence,
            proposed_changes,
            risk: if blank(risk) {
                "operator_review"@
            } else {
                trim(risk)
            },
            operator_decision: None,
            frontier_classification: None,
            created_at: now,
            updated_at: now,
            decision_commands: Seq::empty(),
        }),
{
}

/// A proposal is taken for a known run with a source and at least one change, under a name that no
/// proposal has; the name is the one that was asked for, without white space round it.
pub proof fn law_proposal_is_taken(
    s: TablesModel,
    run_id: Seq<char>,
    requested: Seq<char>,
    source_kind: Seq<char>,
    changes: nat,
)
    requires
        !blank(requested),
    ensures
        ({
            let refusal = s.create_proposal_refusal(run_id, requested, source_kind, changes);
            let known = exists|k: int|
                0 <= k < s.runs.len() && (#[trigger] s.runs[k]).run.id == run_id;
            let taken = exists|k: int|
                0 <= k < s.proposals.len() && (#[trigger] s.proposals[k]).id == trim(requested);
            &&& s.new_proposal_id(run_id, requested) == trim(requested)
            &&& refusal is None <==> known && !blank(source_kind) && changes > 0 && !taken
            &&& !known ==> refusal == Some(StoreError::RunNotFound)
            &&& known && blank(source_kind) ==> refusal == Some(StoreError::ProposalSourceRequired)
            &&& known && !blank(source_kind) && changes == 0 ==> refusal == Some(
                StoreError::ProposalChangesRequired,
            )
            &&& known && !blank(source_kind) && changes > 0 && taken ==> refusal == Some(
                StoreError::ProposalExists,
            )
        }),
{
    let p = run_has_id(run_id);
    if exists|k: int| 0 <= k < s.runs.len() && (#[trigger] s.runs[k]).run.id == run_id {
        let k = choose|k: int| 0 <= k < s.runs.len() && (#[trigger] s.runs[k]).run.id == run_id;
        assert(p(s.runs[k]));
        crate::table::lemma_first_any(s.runs, p);
    } else {
        lemma_first_none(s.runs, p);
    }
    let q = proposal_with_id(trim(requested));
    if any(s.proposals, q) {
        let k = choose|k: int| 0 <= k < s.proposals.len() && q(#[trigger] s.proposals[k]);
        assert(s.proposals[k].id == trim(requested));
    } else {
        assert forall|k: int| 0 <= k < s.proposals.len() implies (#[trigger] s.proposals[k]).id
            != trim(requested) by {
            assert(!q(s.proposals[k]));
        }
    }
}

/// A generated name is made of the run and a number: it begins with the mark of a proposal, goes on
/// with at most eight letters and digits of the name of the run and ends with the number, in three
/// digits or more.
pub proof fn law_generated_name(run_id: Seq<char>, n: nat)
    ensures
        replan_id(run_id, n) == "rp-"@ + short_run_id(run_id) + "-"@ + crate::text::padded(n),
        0 < short_run_id(run_id).len() <= 8,
        forall|i: int|
            0 <= i < short_run_id(run_id).len() ==> {
                let c = #[trigger] short_run_id(run_id)[i];
                ('0' <= c && c <= '9') || ('A' <= c && c <= 'Z') || ('a' <= c && c <= 'z')
            },
        run_id.len() <= 8 && run_id.len() > 0 && (forall|i: int|
            0 <= i < run_id.len() ==> alphanumeric(#[trigger] run_id[i])) ==> short_run_id(run_id)
            == run_id,
{
    reveal_strlit("run");
    reveal_strlit("kd-");
    let rest = super::replans::without_run_prefix(run_id);
    let keep = |c: char| alphanumeric(c);
    crate::table::lemma_select_from(rest, keep);
    let kept = letters_and_digits(rest);
    assert forall|i: int| 0 <= i < short_run_id(run_id).len() implies {
        let c = #[trigger] short_run_id(run_id)[i];
        ('0' <= c && c <= '9') || ('A' <= c && c <= 'Z') || ('a' <= c && c <= 'z')
    } by {
        if kept.len() > 0 {
            assert(short_run_id(run_id)[i] == kept[i]);
            assert(keep(kept[i]));
        }
    }
    if run_id.len() <= 8 && run_id.len() > 0 && (forall|i: int|
        0 <= i < run_id.len() ==> alphanumeric(#[trigger] run_id[i])) {
        if run_id.len() >= 3 {
            assert(alphanumeric(run_id[2]));
            assert(run_id.take(3)[2] == run_id[2]);
            assert("kd-"@[2] == '-');
        }
        lemma_all_kept(run_id, keep);
        assert(kept.take(kept.len() as int) =~= kept);
    }
}

proof fn lemma_all_kept(s: Seq<char>, p: spec_fn(char) -> bool)
    requires
        forall|i: int| 0 <= i < s.len() ==> p(#[trigger] s[i]),
    ensures
        crate::table::select(s, p) == s,
    decreases s.len(),
{
    if s.len() > 0 {
        let rest = s.drop_last();
        assert forall|i: int| 0 <= i < rest.len() implies p(#[trigger] rest[i]) by {
            assert(rest[i] == s[i]);
        }
        lemma_all_kept(rest, p);
        assert(p(s[s.len() - 1]));
        assert(rest.push(s.last()) =~= s);
    }
}

/// Which decisions are taken at all: a decision has to settle the proposal and to give a rationale; a
/// deferral names what to wait for, a supersession what takes its place; and one by policy has to be of
/// the first tier, to add a follow-up slice only, and to count exactly one promotion and one slice, as
/// far as the counters go.
pub proof fn law_decision_that_may_be_made(command: ReplanDecisionCommandModel)
    ensures
        ({
            let refusal = command.refusal();
            let settles = command.state != ReplanProposalState::Pending;
            let waits = command.state == ReplanProposalState::Deferred ==> !blank(
                command.revisit_condition,
            );
            let replaced = command.state == ReplanProposalState::Superseded ==> !blank(
                command.replacement_id,
            );
            let said = settles && !blank(command.rationale) && waits && replaced;
            &&& !settles ==> refusal == Some(StoreError::DecisionLeavesPending)
            &&& settles && blank(command.rationale) ==> refusal == Some(
                StoreError::RationaleRequired,
            )
            &&& settles && !blank(command.rationale) && !waits ==> refusal == Some(
                StoreError::RevisitConditionRequired,
            )
            &&& settles && !blank(command.rationale) && waits && !replaced ==> refusal == Some(
                StoreError::ReplacementRequired,
            )
            &&& said && command.auto_accept is None ==> refusal is None
            &&& said && command.auto_accept is Some ==> {
                let policy = command.auto_accept->0;
                let first_tier = policy.classification.tier == "tier_1"@;
                let followup = policy.classification.reason_codes.contains(
                    "add_followup_slice_only"@,
                );
                let counted = |before: u64, after: u64|
                    after == before + 1 || (before == u64::MAX && after == u64::MAX);
                let counts = counted(
                    policy.budget_before.auto_promotions_used,
                    policy.budget_after.auto_promotions_used,
                ) && counted(
                    policy.budget_before.generated_slices,
                    policy.budget_after.generated_slices,
                );
                &&& refusal is None <==> first_tier && followup && counts
                &&& !first_tier ==> refusal == Some(StoreError::AutoAcceptTier)
                &&& first_tier && !followup ==> refusal == Some(StoreError::AutoAcceptEvidence)
                &&& first_tier && followup && !counts ==> refusal == Some(
                    StoreError::AutoAcceptBudget,
                )
            }
        }),
{
}

/// The slice that a proposal adds: it has exactly one change, which adds a follow-up slice by a draft;
/// the slice has the name of the draft, or else that of the target, without white space round it, and
/// there is none without a name.
pub proof fn law_followup_slice(proposal: ReplanProposalModel)
    ensures
        ({
            let slice = followup_slice(proposal);
            let change = proposal.proposed_changes[0];
            let adds = proposal.proposed_changes.len() == 1 && change.kind == "add_followup_slice"@
                && change.followup_slice_draft is Some;
            let draft = change.followup_slice_draft->0;
            &&& followup_only(proposal) <==> adds
            &&& !adds ==> slice is None
            &&& adds && !blank(draft.id) ==> slice == Some(trim(draft.id))
            &&& adds && blank(draft.id) && !blank(change.target) ==> slice == Some(
                trim(change.target),
            )
            &&& adds && blank(draft.id) && blank(change.target) ==> slice is None
        }),
{
}

/// What becomes of an accepted proposal: where it adds a slice, the slice is named and waits to be
/// queued, or is refused where its run is completed; any other decision, and a proposal that adds no
/// slice, has no effect on the slices. The reason says which of these holds.
pub proof fn law_effect_of_a_decision(
    proposal: ReplanProposalModel,
    state: ReplanProposalState,
    run: Option<RunModel>,
)
    ensures
        ({
            let slice = followup_slice(proposal);
            let accepted = state == ReplanProposalState::Accepted;
            let completed = run is Some && run->0.status == RunStatus::Completed;
            &&& generated_slice(proposal, state) == if accepted && slice is Some {
                slice->0
            } else {
                Seq::empty()
            }
            &&& apply_status(proposal, state, run) == if !accepted || slice is None {
                "not_applicable"@
            } else if completed {
                "refused"@
            } else {
                "pending"@
            }
            &&& apply_reason(proposal, state, run) == if !accepted {
                "decision does not apply queue or slice changes"@
            } else if slice is None {
                "accepted proposal is not an add_followup_slice typed draft; no apply side effect"@
            } else if completed {
                "run is already completed; accepted follow-up proposal remains unapplied and requires a new run or replacement proposal"@
            } else {
                "accepted add_followup_slice typed draft queued for daemon apply checkpoint"@
            }
        }),
{
}

/// What is kept of a decision: the state by its name, the rationale, the replacement and the condition
/// without white space round them, who decided and by which way, or their defaults, and when; nothing
/// of it is applied yet.
pub proof fn law_decision_is_kept(
    command: ReplanDecisionCommandModel,
    proposal: ReplanProposalModel,
    run: Option<RunModel>,
    now: Timestamp,
)
    ensures
        ({
            let decision = command.decision(proposal, run, now);
            &&& decision == ReplanDecisionModel {
                decision: command.state.text(),
                rationale: trim(command.rationale),
                authorizer: decision.authorizer,
                source: decision.source,
                decided_at: now,
                frontier_tier: decision.frontier_tier,
                frontier_reason_codes: decision.frontier_reason_codes,
                frontier_budget_before: decision.frontier_budget_before,
                frontier_budget_after: decision.frontier_budget_after,
                applied: false,
                applied_at: None,
                apply_status: apply_status(proposal, command.state, run),
                apply_reason: apply_reason(proposal, command.state, run),
                generated_slice_id: generated_slice(proposal, command.state),
                generated_slice_generation: 0,
                generated_slice_commit: Seq::empty(),
                apply_before_checkpoint_id: Seq::empty(),
                apply_after_checkpoint_id: Seq::empty(),
                queue_before: Seq::empty(),
                queue_after: Seq::empty(),
                queue_before_hash: Seq::empty(),
                queue_after_hash: Seq::empty(),
                replacement_id: trim(command.replacement_id),
                revisit_condition: trim(command.revisit_condition),
            }
            &&& match command.auto_accept {
                None => {
                    &&& decision.authorizer == if blank(command.authorizer) {
                        "operator"@
                    } else {
                        trim(command.authorizer)
                    }
                    &&& decision.source == if blank(command.source) {
                        "daemon_ipc"@
                    } else {
                        trim(command.source)
                    }
                    &&& decision.frontier_tier.len() == 0
                    &&& decision.frontier_reason_codes.len() == 0
                    &&& decision.frontier_budget_before is None
                    &&& decision.frontier_budget_after is None
                },
                Some(policy) => {
                    &&& decision.authorizer == "envelope:"@ + proposal.run_id
                    &&& decision.source == "frontier_policy"@
                    &&& decision.frontier_tier == policy.classification.tier
                    &&& decision.frontier_reason_codes == policy.classification.reason_codes
                    &&& decision.frontier_budget_before == Some(policy.budget_before)
                    &&& decision.frontier_budget_after == Some(policy.budget_after)
                },
            }
        }),
{
}

proof fn lemma_proposal_stands(s: TablesModel, i: int, row: ReplanProposalModel)
    requires
        s.valid(),
        0 <= i < s.proposals.len(),
    ensures
        s.proposal(s.proposals[i].run_id, s.proposals[i].id) == Some(s.proposals[i]),
        s.with_proposal(s.proposals[i].run_id, s.proposals[i].id, row) == (TablesModel {
            proposals: s.proposals.update(i, row),
            ..s
        }),
{
    let existing = s.proposals[i];
    lemma_first_unique(
        s.proposals,
        proposal_key(),
        proposal_in_run(existing.run_id, existing.id),
        i,
    );
    let after = s.proposals.map_values(proposal_replaced(existing.run_id, existing.id, row));
    assert forall|k: int| 0 <= k < s.proposals.len() && k != i implies #[trigger] after[k]
        == s.proposals[k] by {
        assert(proposal_key()(s.proposals[k]) != proposal_key()(s.proposals[i]));
    }
    assert(after =~= s.proposals.update(i, row));
}

/// A decision by an operator on a pending proposal is applied: the proposal has the state of the
/// decision, the decision and its time, the log ends by telling of it, and nothing else changes.
pub proof fn law_operator_decides_the_proposal(
    s: TablesModel,
    i: int,
    command: ReplanDecisionCommandModel,
    now: Timestamp,
)
    requires
        s.valid(),
        0 <= i < s.proposals.len(),
        s.proposals[i].state == ReplanProposalState::Pending,
        command.refusal() is None,
        command.auto_accept is None,
        s.last_event_id < i64::MAX,
    ensures
        ({
            let proposal = s.proposals[i];
            let decision = command.decision(proposal, s.run(proposal.run_id), now);
            let decided = ReplanProposalModel {
                state: command.state,
                operator_decision: Some(decision),
                updated_at: now,
                ..proposal
            };
            s.decide_proposal(proposal.run_id, proposal.id, command, now) == Ok::<
                (ReplanDecisionTransitionModel, TablesModel),
                StoreError,
            >(
                (
                    ReplanDecisionTransitionModel {
                        outcome: DecisionCommandOutcome::Applied,
                        proposal: Some(decided),
                    },
                    TablesModel {
                        proposals: s.proposals.update(i, decided),
                        events: s.events.push(
                            EventModel {
                                id: (s.last_event_id + 1) as i64,
                                run_id: proposal.run_id,
                                typ: "replan_proposal_decided"@,
                                payload: EventPayloadModel::ReplanProposalDecided(
                                    ReplanProposalDecidedPayloadModel {
                                        proposal_id: proposal.id,
                                        state: command.state,
                                        decision,
                                    },
                                ),
                                created_at: now,
                            },
                        ),
                        last_event_id: (s.last_event_id + 1) as i64,
                        ..s
                    },
                ),
            )
        }),
{
    let proposal = s.proposals[i];
    lemma_proposal_stands(s, i, s.decided(proposal, command, now));
}

/// A decision by policy on a pending proposal that adds a follow-up slice is applied where it counts
/// from the budget on record, an unused one where there is none: the proposal is decided with the
/// classification, the run has the budget after it, and the log ends by the decision and, where a
/// record is asked for, by the classification and the acceptance. Where it counts from another budget
/// it is a conflict and changes nothing; where the proposal does anything else it is refused.
pub proof fn law_policy_decides_the_proposal(
    s: TablesModel,
    i: int,
    r: int,
    command: ReplanDecisionCommandModel,
    policy: ReplanAutoAcceptCommandModel,
    now: Timestamp,
)
    requires
        s.valid(),
        0 <= i < s.proposals.len(),
        0 <= r < s.runs.len(),
        s.runs[r].run.id == s.proposals[i].run_id,
        s.proposals[i].state == ReplanProposalState::Pending,
        command.refusal() is None,
        command.auto_accept == Some(policy),
        s.last_event_id + 3 <= i64::MAX,
    ensures
        ({
            let proposal = s.proposals[i];
            let change = proposal.proposed_changes[0];
            let adds = proposal.proposed_changes.len() == 1 && change.kind == "add_followup_slice"@
                && change.followup_slice_draft is Some;
            let budget = match s.runs[r].frontier_budget {
                Some(budget) => budget,
                None => FrontierBudgetStateModel { auto_promotions_used: 0, generated_slices: 0 },
            };
            let answer = s.decide_proposal(proposal.run_id, proposal.id, command, now);
            let after = answer->Ok_0.1;
            let decision = command.decision(proposal, s.run(proposal.run_id), now);
            let decided = ReplanProposalModel {
                state: command.state,
                operator_decision: Some(decision),
                frontier_classification: Some(policy.classification),
                updated_at: now,
                ..proposal
            };
            let told = EventModel {
                id: (s.last_event_id + 1) as i64,
                run_id: proposal.run_id,
                typ: "replan_proposal_decided"@,
                payload: EventPayloadModel::ReplanProposalDecided(
                    ReplanProposalDecidedPayloadModel {
                        proposal_id: proposal.id,
                        state: command.state,
                        decision,
                    },
                ),
                created_at: now,
            };
            &&& !adds ==> answer == Err::<
                (ReplanDecisionTransitionModel, TablesModel),
                StoreError,
            >(StoreError::AutoAcceptChange)
            &&& adds && budget != policy.budget_before ==> answer == Ok::<
                (ReplanDecisionTransitionModel, TablesModel),
                StoreError,
            >(
                (
                    ReplanDecisionTransitionModel {
                        outcome: DecisionCommandOutcome::Conflict,
                        proposal: Some(proposal),
                    },
                    s,
                ),
            )
            &&& adds && budget == policy.budget_before ==> {
                &&& answer is Ok
                &&& answer->Ok_0.0 == ReplanDecisionTransitionModel {
                    outcome: DecisionCommandOutcome::Applied,
                    proposal: Some(decided),
                }
                &&& after == TablesModel {
                    proposals: s.proposals.update(i, decided),
                    runs: s.runs.update(
                        r,
                        RunRowModel {
                            run: RunModel { updated_at: now, ..s.runs[r].run },
                            frontier_budget: Some(policy.budget_after),
                            ..s.runs[r]
                        },
                    ),
                    events: after.events,
                    last_event_id: after.last_event_id,
                    ..s
                }
                &&& policy.record is None ==> after.events == s.events.push(told)
                    && after.last_event_id == s.last_event_id + 1
                &&& policy.record matches Some(record) ==> {
                    &&& after.last_event_id == s.last_event_id + 3
                    &&& after.events == s.events.push(told).push(
                        EventModel {
                            id: (s.last_event_id + 2) as i64,
                            run_id: proposal.run_id,
                            typ: "frontier_classified"@,
                            payload: EventPayloadModel::FrontierClassified(
                                FrontierClassifiedPayloadModel {
                                    proposal_id: proposal.id,
                                    checkpoint: record.checkpoint,
                                    tier: policy.classification.tier,
                                    reason_codes: policy.classification.reason_codes,
                                    classified_at: policy.classification.classified_at,
                                    envelope_hash: policy.classification.envelope_hash,
                                    budget_snapshot: policy.classification.budget_snapshot,
                                    autonomy_level: policy.classification.autonomy_level,
                                    record_only: false,
                                    queue_mutated: false,
                                    slice_mutated: false,
                                    decision_recorded: true,
                                },
                            ),
                            created_at: now,
                        },
                    ).push(
                        EventModel {
                            id: (s.last_event_id + 3) as i64,
                            run_id: proposal.run_id,
                            typ: "frontier_auto_accept_recorded"@,
                            payload: EventPayloadModel::FrontierAutoAcceptRecorded(
                                FrontierAutoAcceptRecordedPayloadModel {
                                    proposal_id: proposal.id,
                                    checkpoint: record.checkpoint,
                                    authorizer: "envelope:"@ + proposal.run_id,
                                    source: "frontier_policy"@,
                                    rationale: trim(command.rationale),
                                    tier: policy.classification.tier,
                                    reason_codes: policy.classification.reason_codes,
                                    budget_before: policy.budget_before,
                                    budget_after: policy.budget_after,
                                    af00_evidence_gate: "satisfied"@,
                                    apply_mode: record.apply_mode,
                                },
                            ),
                            created_at: now,
                        },
                    )
                }
            }
        }),
{
    let proposal = s.proposals[i];
    lemma_first_unique(s.runs, run_key(), run_has_id(proposal.run_id), r);
    lemma_proposal_stands(s, i, s.decided(proposal, command, now));
    let g = super::replans::budget_set(proposal.run_id, policy.budget_after, now);
    let runs = s.runs.map_values(g);
    assert forall|k: int| 0 <= k < s.runs.len() && k != r implies #[trigger] runs[k]
        == s.runs[k] by {
        assert(run_key()(s.runs[k]) != run_key()(s.runs[r]));
    }
    assert(runs =~= s.runs.update(r, g(s.runs[r])));
}

/// A decision on a proposal that nobody made finds nothing; one on a decided proposal changes nothing.
pub proof fn law_decided_proposal_stays(
    s: TablesModel,
    i: int,
    command: ReplanDecisionCommandModel,
    now: Timestamp,
)
    requires
        s.valid(),
        0 <= i < s.proposals.len(),
        s.proposals[i].state != ReplanProposalState::Pending,
        command.refusal() is None,
    ensures
        ({
            let proposal = s.proposals[i];
            let answer = s.decide_proposal(proposal.run_id, proposal.id, command, now);
            &&& answer matches Ok((transition, after)) && after == s && transition.proposal == Some(
                proposal,
            ) && (transition.outcome == DecisionCommandOutcome::AlreadyAppliedIdempotently
                || transition.outcome == DecisionCommandOutcome::Conflict)
            &&& command.state != proposal.state || proposal.operator_decision is None || trim(
                command.rationale,
            ) != (proposal.operator_decision->0).rationale ==> answer->Ok_0.0.outcome
                == DecisionCommandOutcome::Conflict
        }),
{
    lemma_proposal_stands(s, i, s.proposals[i]);
}

/// A proposal that is not known to the run is not found.
pub proof fn law_unknown_proposal_is_not_found(
    s: TablesModel,
    run_id: Seq<char>,
    id: Seq<char>,
    command: ReplanDecisionCommandModel,
    now: Timestamp,
)
    requires
        forall|k: int|
            0 <= k < s.proposals.len() ==> !((#[trigger] s.proposals[k]).run_id == run_id
                && s.proposals[k].id == id),
        command.refusal() is None,
    ensures
        s.proposal(run_id, id) is None,
        s.decide_proposal(run_id, id, command, now) == Ok::<
            (ReplanDecisionTransitionModel, TablesModel),
            StoreError,
        >(
            (
                ReplanDecisionTransitionModel {
                    outcome: DecisionCommandOutcome::NotFound,
                    proposal: None,
                },
                s,
            ),
        ),
{
    lemma_first_none(s.proposals, proposal_in_run(run_id, id));
}

/// A decision and a classification that are replaced stand with the proposal, and nothing else of it
/// changes but the time.
pub proof fn law_decision_and_classification_are_replaced(
    s: TablesModel,
    i: int,
    decision: ReplanDecisionModel,
    classification: FrontierClassificationModel,
    now: Timestamp,
)
    requires
        s.valid(),
        0 <= i < s.proposals.len(),
    ensures
        ({
            let proposal = s.proposals[i];
            &&& s.with_decision(proposal.run_id, proposal.id, decision, now) == TablesModel {
                proposals: s.proposals.update(
                    i,
                    ReplanProposalModel {
                        operator_decision: Some(decision),
                        updated_at: now,
                        ..proposal
                    },
                ),
                ..s
            }
            &&& s.with_classification(proposal.run_id, proposal.id, classification, now)
                == TablesModel {
                proposals: s.proposals.update(
                    i,
                    ReplanProposalModel {
                        frontier_classification: Some(classification),
                        updated_at: now,
                        ..proposal
                    },
                ),
                ..s
            }
        }),
{
    let proposal = s.proposals[i];
    lemma_proposal_stands(
        s,
        i,
        ReplanProposalModel { operator_decision: Some(decision), updated_at: now, ..proposal },
    );
    lemma_proposal_stands(
        s,
        i,
        ReplanProposalModel {
            frontier_classification: Some(classification),
            updated_at: now,
            ..proposal
        },
    );
}

/// Where the operator stays away the proposal is deferred by the daemon, for a reason and until a
/// condition that are never blank; and such a decision may always be made.
pub proof fn law_absent_operator_defers(rationale: Seq<char>, revisit_condition: Seq<char>)
    ensures
        ({
            let command = timeout_command(rationale, revisit_condition);
            &&& command.state == ReplanProposalState::Deferred
            &&& !blank(rationale) ==> command.rationale == rationale
            &&& !blank(revisit_condition) ==> command.revisit_condition == revisit_condition
            &&& command.authorizer == "daemon"@
            &&& command.source == "decision_timeout"@
            &&& command.auto_accept is None
            &&& command.refusal() is None
        }),
{
    let command = timeout_command(rationale, revisit_condition);
    reveal_strlit("replan decision timed out");
    reveal_strlit("operator explicitly revisits the timed-out proposal");
    crate::text::lemma_blank(command.rationale);
    crate::text::lemma_blank(command.revisit_condition);
    assert("replan decision timed out"@[0] == 'r');
    assert("operator explicitly revisits the timed-out proposal"@[0] == 'o');
}

/// A decision by policy accepts, under the name of the policy.
pub proof fn law_policy_accepts(
    rationale: Seq<char>,
    classification: FrontierClassificationModel,
    budget_before: FrontierBudgetStateModel,
    budget_after: FrontierBudgetStateModel,
    record: Option<FrontierAutoAcceptRecordModel>,
)
    ensures
        ({
            let command = auto_accept_command(
                rationale,
                classification,
                budget_before,
                budget_after,
                record,
            );
            &&& command.state == ReplanProposalState::Accepted
            &&& command.rationale == rationale
            &&& command.source == "frontier_policy"@
            &&& command.auto_accept == Some(
                ReplanAutoAcceptCommandModel {
                    classification,
                    budget_before,
                    budget_after,
                    record,
                },
            )
        }),
{
}

/// What a caller that wants the proposal itself is told: the proposal where the decision stands, an
/// error elsewhere.
pub proof fn law_settled_decision_gives_the_proposal(transition: ReplanDecisionTransitionModel)
    ensures
        ({
            let stands = transition.outcome == DecisionCommandOutcome::Applied || transition.outcome
                == DecisionCommandOutcome::AlreadyAppliedIdempotently;
            &&& stands && transition.proposal is Some ==> settled(transition) == Ok::<
                ReplanProposalModel,
                StoreError,
            >(transition.proposal->0)
            &&& transition.outcome == DecisionCommandOutcome::NotFound ==> settled(transition)
                == Err::<ReplanProposalModel, StoreError>(StoreError::ProposalNotFound)
            &&& transition.outcome == DecisionCommandOutcome::Conflict ==> settled(transition)
                == Err::<ReplanProposalModel, StoreError>(StoreError::DecisionConflict)
            &&& transition.outcome == DecisionCommandOutcome::StaleToken ==> settled(transition)
                == Err::<ReplanProposalModel, StoreError>(StoreError::DecisionStale)
        }),
{
}

/// A repeated decision is taken as applied before exactly where it is the one on record: the same state,
/// rationale, source, replacement, condition and authorizer, and for one by policy the same classification
/// and budgets.
pub proof fn law_same_decision(command: ReplanDecisionCommandModel, proposal: ReplanProposalModel)
    ensures
        command.matches(proposal) <==> {
            &&& proposal.operator_decision is Some
            &&& proposal.state == command.state
            &&& ({
                let decision = proposal.operator_decision->0;
                &&& decision.decision == command.state.text()
                &&& decision.rationale == trim(command.rationale)
                &&& decision.source == if blank(command.source) {
                    "daemon_ipc"@
                } else {
                    trim(command.source)
                }
                &&& decision.replacement_id == trim(command.replacement_id)
                &&& decision.revisit_condition == trim(command.revisit_condition)
                &&& command.auto_accept is None ==> decision.authorizer == if blank(
                    command.authorizer,
                ) {
                    "operator"@
                } else {
                    trim(command.authorizer)
                }
                &&& command.auto_accept matches Some(policy) ==> {
                    &&& decision.authorizer == "envelope:"@ + proposal.run_id
                    &&& proposal.frontier_classification == Some(policy.classification)
                    &&& decision.frontier_tier == policy.classification.tier
                    &&& decision.frontier_reason_codes == policy.classification.reason_codes
                    &&& decision.frontier_budget_before == Some(policy.budget_before)
                    &&& decision.frontier_budget_after == Some(policy.budget_after)
                }
            })
        },
{
}

/// A proposal without a name of its own gets the first free one that is numbered behind the proposals of
/// its run.
pub proof fn law_proposal_gets_a_free_name(
    s: TablesModel,
    run_id: Seq<char>,
    requested: Seq<char>,
    n: nat,
)
    requires
        blank(requested),
        crate::table::count(s.proposals, proposal_of_run(run_id)) < n,
        forall|k: int|
            0 <= k < s.proposals.len() ==> (#[trigger] s.proposals[k]).id != replan_id(run_id, n),
        forall|m: nat|
            crate::table::count(s.proposals, proposal_of_run(run_id)) < m < n ==> exists|k: int|
                0 <= k < s.proposals.len() && (#[trigger] s.proposals[k]).id
                    == #[trigger] replan_id(run_id, m),
    ensures
        s.new_proposal_id(run_id, requested) == replan_id(run_id, n),
{
    lemma_first_none(s.proposals, proposal_with_id(replan_id(run_id, n)));
    let start = crate::table::count(s.proposals, proposal_of_run(run_id)) + 1;
    assert forall|m: int| start <= m < n implies any(
        s.proposals,
        proposal_with_id(#[trigger] replan_id(run_id, m as nat)),
    ) by {
        let k = choose|k: int|
            0 <= k < s.proposals.len() && (#[trigger] s.proposals[k]).id == replan_id(
                run_id,
                m as nat,
            );
        assert(proposal_with_id(replan_id(run_id, m as nat))(s.proposals[k]));
    }
    assert(s.is_next_sequence(run_id, n as int));
    super::replans::lemma_next_sequence(s, run_id, n as int);
}

/// A repeated decision by policy that asks for a record is taken as applied before only where both events
/// of that record stand in the log, with the very same contents.
pub proof fn law_same_record(
    command: ReplanDecisionCommandModel,
    policy: ReplanAutoAcceptCommandModel,
    record: FrontierAutoAcceptRecordModel,
    events: Seq<EventModel>,
    proposal: ReplanProposalModel,
)
    requires
        command.auto_accept == Some(policy),
        policy.record == Some(record),
    ensures
        command.record_matches(events, proposal) <==> {
            &&& proposal.operator_decision is Some
            &&& exists|i: int|
                0 <= i < events.len() && (#[trigger] events[i]).run_id == proposal.run_id
                    && events[i].typ == "frontier_classified"@ && events[i].payload
                    == EventPayloadModel::FrontierClassified(
                    FrontierClassifiedPayloadModel {
                        proposal_id: proposal.id,
                        checkpoint: record.checkpoint,
                        tier: policy.classification.tier,
                        reason_codes: policy.classification.reason_codes,
                        classified_at: policy.classification.classified_at,
                        envelope_hash: policy.classification.envelope_hash,
                        budget_snapshot: policy.classification.budget_snapshot,
                        autonomy_level: policy.classification.autonomy_level,
                        record_only: false,
                        queue_mutated: false,
                        slice_mutated: false,
                        decision_recorded: true,
                    },
                )
            &&& exists|i: int|
                0 <= i < events.len() && (#[trigger] events[i]).run_id == proposal.run_id
                    && events[i].typ == "frontier_auto_accept_recorded"@ && events[i].payload
                    == EventPayloadModel::FrontierAutoAcceptRecorded(
                    FrontierAutoAcceptRecordedPayloadModel {
                        proposal_id: proposal.id,
                        checkpoint: record.checkpoint,
                        authorizer: (proposal.operator_decision->0).authorizer,
                        source: (proposal.operator_decision->0).source,
                        rationale: (proposal.operator_decision->0).rationale,
                        tier: policy.classification.tier,
                        reason_codes: policy.classification.reason_codes,
                        budget_before: policy.budget_before,
                        budget_after: policy.budget_after,
                        af00_evidence_gate: "satisfied"@,
                        apply_mode: record.apply_mode,
                    },
                )
        },
{
    if proposal.operator_decision is Some {
        let p = super::replans::exact_event(
            proposal.run_id,
            "frontier_classified"@,
            record.classified(proposal.id, policy.classification),
        );
        let q = super::replans::exact_event(
            proposal.run_id,
            "frontier_auto_accept_recorded"@,
            record.recorded(proposal.id, proposal.operator_decision->0, policy),
        );
        assert forall|i: int| 0 <= i < events.len() implies p(#[trigger] events[i]) == (
        events[i].run_id == proposal.run_id && events[i].typ == "frontier_classified"@
            && events[i].payload == record.classified(proposal.id, policy.classification)) by {}
        assert forall|i: int| 0 <= i < events.len() implies q(#[trigger] events[i]) == (
        events[i].run_id == proposal.run_id && events[i].typ == "frontier_auto_accept_recorded"@
            && events[i].payload == record.recorded(
            proposal.id,
            proposal.operator_decision->0,
            policy,
        )) by {}
        if any(events, p) {
            let i = choose|i: int| 0 <= i < events.len() && p(#[trigger] events[i]);
            assert(events[i].run_id == proposal.run_id);
        }
        if any(events, q) {
            let i = choose|i: int| 0 <= i < events.len() && q(#[trigger] events[i]);
            assert(events[i].run_id == proposal.run_id);
        }
    }
}

/// A decision without a policy, or without a record, needs no event to be taken as applied before.
pub proof fn law_decision_without_a_record(
    command: ReplanDecisionCommandModel,
    events: Seq<EventModel>,
    proposal: ReplanProposalModel,
)
    requires
        command.auto_accept matches Some(policy) ==> policy.record is None,
    ensures
        command.record_matches(events, proposal),
{
}

} // verus!
