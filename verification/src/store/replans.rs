//! Proposals to change the plan of a run, and the decisions on them.
use super::{
    lemma_one_active_kept, lemma_unique_map, lemma_unique_push, proposal_key, res, run_key,
    Store,
};
use crate::domain::{
    DecisionCommandOutcome, FrontierBudgetState, FrontierBudgetStateModel, FrontierClassification,
    FrontierClassificationModel, ReplanDecision, ReplanDecisionModel, ReplanEvidenceLink,
    ReplanEvidenceLinkModel, ReplanProposal, ReplanProposalModel, ReplanProposalSource,
    ReplanProposalSourceModel, ReplanProposalState, ReplanProposedChange,
    ReplanProposedChangeModel, RunModel, RunStatus,
};
use crate::error::StoreError;
use crate::payloads::{
    Event, EventModel, EventPayload, EventPayloadModel, FrontierAutoAcceptRecordedPayload,
    FrontierAutoAcceptRecordedPayloadModel, FrontierClassifiedPayload,
    FrontierClassifiedPayloadModel, ReplanProposalDecidedPayload,
    ReplanProposalDecidedPayloadModel,
};
use crate::rows::{
    FrontierAutoAcceptRecord, FrontierAutoAcceptRecordModel, ReplanAutoAcceptCommand,
    ReplanAutoAcceptCommandModel, ReplanDecisionCommand, ReplanDecisionCommandModel,
    ReplanDecisionTransition, ReplanDecisionTransitionModel, RunRow, RunRowModel, TablesModel,
};
use crate::table::{
    lemma_select_len, any, count, find_row, first, order_rows, ordered, push_row, select, select_rows,
    update_rows, Row,
};
use crate::text::{
    append_padded, blank, chars_of, is_blank, lemma_padded_injective, padded, same_text,
    text_before, text_lt, trim, trimmed,
};
use crate::time::Timestamp;
use vstd::prelude::*;
use vstd::string::*;

verus! {

/// How many proposals there can be before no identity can be counted out any more.
pub const MAX_PROPOSALS: u64 = 4611686018427387903;

pub open spec fn alphanumeric(c: char) -> bool {
    ('0' <= c && c <= '9') || ('A' <= c && c <= 'Z') || ('a' <= c && c <= 'z')
}

/// The letters and digits of a text, in order.
pub open spec fn letters_and_digits(s: Seq<char>) -> Seq<char> {
    select(s, |c: char| alphanumeric(c))
}

/// The name of a run without the prefix that all runs share.
pub open spec fn without_run_prefix(run_id: Seq<char>) -> Seq<char> {
    if run_id.len() >= 3 && run_id.take(3) == "kd-"@ {
        run_id.skip(3)
    } else {
        run_id
    }
}

/// The first letters and digits of a run's name, by which its proposals are named.
pub open spec fn short_run_id(run_id: Seq<char>) -> Seq<char> {
    let kept = letters_and_digits(without_run_prefix(run_id));
    let short = kept.take(
        if kept.len() < 8 {
            kept.len() as int
        } else {
            8
        },
    );
    if short.len() == 0 {
        "run"@
    } else {
        short
    }
}

pub open spec fn replan_id(run_id: Seq<char>, sequence: nat) -> Seq<char> {
    "rp-"@ + short_run_id(run_id) + "-"@ + padded(sequence)
}

pub open spec fn proposal_with_id(id: Seq<char>) -> spec_fn(ReplanProposalModel) -> bool {
    |row: ReplanProposalModel| row.id == id
}

pub open spec fn proposal_in_run(run_id: Seq<char>, id: Seq<char>) -> spec_fn(
    ReplanProposalModel,
) -> bool {
    |row: ReplanProposalModel| row.run_id == run_id && row.id == id
}

pub open spec fn proposal_of_run(run_id: Seq<char>) -> spec_fn(ReplanProposalModel) -> bool {
    |row: ReplanProposalModel| row.run_id == run_id
}

pub open spec fn pending_proposal() -> spec_fn(ReplanProposalModel) -> bool {
    |row: ReplanProposalModel| row.state == ReplanProposalState::Pending
}

/// Earliest created first, then by identity.
pub open spec fn created_order() -> spec_fn(ReplanProposalModel, ReplanProposalModel) -> bool {
    |a: ReplanProposalModel, b: ReplanProposalModel|
        a.created_at.lt(b.created_at) || (a.created_at == b.created_at && text_lt(a.id, b.id))
}

pub open spec fn proposal_replaced(
    run_id: Seq<char>,
    id: Seq<char>,
    new_row: ReplanProposalModel,
) -> spec_fn(ReplanProposalModel) -> ReplanProposalModel {
    |row: ReplanProposalModel|
        if row.run_id == run_id && row.id == id {
            new_row
        } else {
            row
        }
}

/// The run with a new budget.
pub open spec fn budget_set(
    run_id: Seq<char>,
    budget: FrontierBudgetStateModel,
    now: Timestamp,
) -> spec_fn(RunRowModel) -> RunRowModel {
    |row: RunRowModel|
        if row.run.id == run_id {
            RunRowModel {
                run: RunModel { updated_at: now, ..row.run },
                frontier_budget: Some(budget),
                ..row
            }
        } else {
            row
        }
}

pub open spec fn exact_event(
    run_id: Seq<char>,
    typ: Seq<char>,
    payload: EventPayloadModel,
) -> spec_fn(EventModel) -> bool {
    |event: EventModel| event.run_id == run_id && event.typ == typ && event.payload == payload
}

/// A text, or another one where it is blank; either without the space around it.
pub open spec fn trimmed_or(text: Seq<char>, other: Seq<char>) -> Seq<char> {
    if blank(text) {
        other
    } else {
        trim(text)
    }
}

/// The slice that an accepted proposal generates: its one change adds a drafted follow-up slice
/// that has a name.
pub open spec fn followup_slice(proposal: ReplanProposalModel) -> Option<Seq<char>> {
    if proposal.proposed_changes.len() != 1 {
        None
    } else {
        let change = proposal.proposed_changes[0];
        match change.followup_slice_draft {
            Some(draft) => if change.kind != "add_followup_slice"@ {
                None
            } else {
                let id = if blank(draft.id) {
                    trim(change.target)
                } else {
                    trim(draft.id)
                };
                if id.len() == 0 {
                    None
                } else {
                    Some(id)
                }
            },
            None => None,
        }
    }
}

/// A proposal as it is created.
pub open spec fn new_proposal(
    id: Seq<char>,
    run_id: Seq<char>,
    source: ReplanProposalSourceModel,
    trigger_finding_ids: Seq<Seq<char>>,
    evidence: Seq<ReplanEvidenceLinkModel>,
    proposed_changes: Seq<ReplanProposedChangeModel>,
    risk: Seq<char>,
    now: Timestamp,
) -> ReplanProposalModel {
    ReplanProposalModel {
        id,
        run_id,
        state: ReplanProposalState::Pending,
        source,
        trigger_finding_ids,
        evidence,
        proposed_changes,
        risk: trimmed_or(risk, "operator_review"@),
        operator_decision: None,
        frontier_classification: None,
        created_at: now,
        updated_at: now,
        decision_commands: Seq::empty(),
    }
}

/// Whether the one change of a proposal adds a drafted follow-up slice.
pub open spec fn followup_only(proposal: ReplanProposalModel) -> bool {
    proposal.proposed_changes.len() == 1 && proposal.proposed_changes[0].kind
        == "add_followup_slice"@ && proposal.proposed_changes[0].followup_slice_draft is Some
}

pub open spec fn apply_status(
    proposal: ReplanProposalModel,
    state: ReplanProposalState,
    run: Option<RunModel>,
) -> Seq<char> {
    if state != ReplanProposalState::Accepted || followup_slice(proposal) is None {
        "not_applicable"@
    } else if run is Some && run->0.status == RunStatus::Completed {
        "refused"@
    } else {
        "pending"@
    }
}

pub open spec fn apply_reason(
    proposal: ReplanProposalModel,
    state: ReplanProposalState,
    run: Option<RunModel>,
) -> Seq<char> {
    if state != ReplanProposalState::Accepted {
        "decision does not apply queue or slice changes"@
    } else if followup_slice(proposal) is None {
        "accepted proposal is not an add_followup_slice typed draft; no apply side effect"@
    } else if run is Some && run->0.status == RunStatus::Completed {
        "run is already completed; accepted follow-up proposal remains unapplied and requires a new run or replacement proposal"@
    } else {
        "accepted add_followup_slice typed draft queued for daemon apply checkpoint"@
    }
}

pub open spec fn generated_slice(proposal: ReplanProposalModel, state: ReplanProposalState) -> Seq<
    char,
> {
    match followup_slice(proposal) {
        Some(id) => if state == ReplanProposalState::Accepted {
            id
        } else {
            Seq::empty()
        },
        None => Seq::empty(),
    }
}

/// What becomes of a decision is decided by the slice that it generates: without one there is nothing
/// to apply, and with one the change is refused where the run is completed and pending elsewhere. Only
/// an accepted proposal generates a slice.
pub proof fn law_apply_status(
    proposal: ReplanProposalModel,
    state: ReplanProposalState,
    run: Option<RunModel>,
)
    ensures
        ({
            let status = apply_status(proposal, state, run);
            let slice = generated_slice(proposal, state);
            let completed = run is Some && run->0.status == RunStatus::Completed;
            &&& status == "not_applicable"@ <==> slice.len() == 0
            &&& status == "refused"@ <==> slice.len() > 0 && completed
            &&& status == "pending"@ <==> slice.len() > 0 && !completed
            &&& state != ReplanProposalState::Accepted ==> slice.len() == 0
        }),
{
    reveal_strlit("not_applicable");
    reveal_strlit("refused");
    reveal_strlit("pending");
    assert("not_applicable"@.len() == 14);
    assert("refused"@[0] == 'r' && "pending"@[0] == 'p');
    assert("refused"@.len() == 7 && "pending"@.len() == 7);
}

/// A number one higher, where there is a higher one.
pub open spec fn one_more(n: u64) -> int {
    if n == u64::MAX {
        u64::MAX as int
    } else {
        n + 1
    }
}

impl FrontierAutoAcceptRecordModel {
    pub open spec fn classified(
        self,
        proposal_id: Seq<char>,
        classification: FrontierClassificationModel,
    ) -> EventPayloadModel {
        EventPayloadModel::FrontierClassified(
            FrontierClassifiedPayloadModel {
                proposal_id,
                checkpoint: self.checkpoint,
                tier: classification.tier,
                reason_codes: classification.reason_codes,
                classified_at: classification.classified_at,
                envelope_hash: classification.envelope_hash,
                budget_snapshot: classification.budget_snapshot,
                autonomy_level: classification.autonomy_level,
                record_only: false,
                queue_mutated: false,
                slice_mutated: false,
                decision_recorded: true,
            },
        )
    }

    pub open spec fn recorded(
        self,
        proposal_id: Seq<char>,
        decision: ReplanDecisionModel,
        auto_accept: ReplanAutoAcceptCommandModel,
    ) -> EventPayloadModel {
        EventPayloadModel::FrontierAutoAcceptRecorded(
            FrontierAutoAcceptRecordedPayloadModel {
                proposal_id,
                checkpoint: self.checkpoint,
                authorizer: decision.authorizer,
                source: decision.source,
                rationale: decision.rationale,
                tier: auto_accept.classification.tier,
                reason_codes: auto_accept.classification.reason_codes,
                budget_before: auto_accept.budget_before,
                budget_after: auto_accept.budget_after,
                af00_evidence_gate: "satisfied"@,
                apply_mode: self.apply_mode,
            },
        )
    }
}

impl ReplanDecisionCommandModel {
    /// Why a command can decide nothing.
    pub open spec fn refusal(self) -> Option<StoreError> {
        if self.state == ReplanProposalState::Pending {
            Some(StoreError::DecisionLeavesPending)
        } else if blank(self.rationale) {
            Some(StoreError::RationaleRequired)
        } else if self.state == ReplanProposalState::Deferred && blank(self.revisit_condition) {
            Some(StoreError::RevisitConditionRequired)
        } else if self.state == ReplanProposalState::Superseded && blank(self.replacement_id) {
            Some(StoreError::ReplacementRequired)
        } else {
            match self.auto_accept {
                None => None,
                Some(auto_accept) => auto_accept.refusal(),
            }
        }
    }

    pub open spec fn authorizer_for(self, run_id: Seq<char>) -> Seq<char> {
        if self.auto_accept is Some {
            "envelope:"@ + run_id
        } else {
            trimmed_or(self.authorizer, "operator"@)
        }
    }

    /// The decision that a command takes on a proposal.
    pub open spec fn decision(
        self,
        proposal: ReplanProposalModel,
        run: Option<RunModel>,
        now: Timestamp,
    ) -> ReplanDecisionModel {
        ReplanDecisionModel {
            decision: self.state.text(),
            rationale: trim(self.rationale),
            authorizer: self.authorizer_for(proposal.run_id),
            source: if self.auto_accept is Some {
                "frontier_policy"@
            } else {
                trimmed_or(self.source, "daemon_ipc"@)
            },
            decided_at: now,
            frontier_tier: match self.auto_accept {
                Some(auto_accept) => auto_accept.classification.tier,
                None => Seq::empty(),
            },
            frontier_reason_codes: match self.auto_accept {
                Some(auto_accept) => auto_accept.classification.reason_codes,
                None => Seq::empty(),
            },
            frontier_budget_before: match self.auto_accept {
                Some(auto_accept) => Some(auto_accept.budget_before),
                None => None,
            },
            frontier_budget_after: match self.auto_accept {
                Some(auto_accept) => Some(auto_accept.budget_after),
                None => None,
            },
            applied: false,
            applied_at: None,
            apply_status: apply_status(proposal, self.state, run),
            apply_reason: apply_reason(proposal, self.state, run),
            generated_slice_id: generated_slice(proposal, self.state),
            generated_slice_generation: 0,
            generated_slice_commit: Seq::empty(),
            apply_before_checkpoint_id: Seq::empty(),
            apply_after_checkpoint_id: Seq::empty(),
            queue_before: Seq::empty(),
            queue_after: Seq::empty(),
            queue_before_hash: Seq::empty(),
            queue_after_hash: Seq::empty(),
            replacement_id: trim(self.replacement_id),
            revisit_condition: trim(self.revisit_condition),
        }
    }

    /// Whether a decided proposal was decided by this very command.
    pub open spec fn matches(self, proposal: ReplanProposalModel) -> bool {
        match proposal.operator_decision {
            None => false,
            Some(decision) => {
                &&& proposal.state == self.state
                &&& decision.decision == self.state.text()
                &&& decision.rationale == trim(self.rationale)
                &&& decision.source == trimmed_or(self.source, "daemon_ipc"@)
                &&& decision.replacement_id == trim(self.replacement_id)
                &&& decision.revisit_condition == trim(self.revisit_condition)
                &&& decision.authorizer == self.authorizer_for(proposal.run_id)
                &&& match self.auto_accept {
                    None => true,
                    Some(auto_accept) => {
                        &&& proposal.frontier_classification == Some(auto_accept.classification)
                        &&& decision.frontier_tier == auto_accept.classification.tier
                        &&& decision.frontier_reason_codes
                            == auto_accept.classification.reason_codes
                        &&& decision.frontier_budget_before == Some(auto_accept.budget_before)
                        &&& decision.frontier_budget_after == Some(auto_accept.budget_after)
                    },
                }
            },
        }
    }

    /// Whether the log holds the records that an automatic acceptance leaves.
    pub open spec fn record_matches(
        self,
        events: Seq<EventModel>,
        proposal: ReplanProposalModel,
    ) -> bool {
        match self.auto_accept {
            None => true,
            Some(auto_accept) => match (auto_accept.record, proposal.operator_decision) {
                (None, _) => true,
                (Some(_), None) => false,
                (Some(record), Some(decision)) => {
                    &&& any(
                        events,
                        exact_event(
                            proposal.run_id,
                            "frontier_classified"@,
                            record.classified(proposal.id, auto_accept.classification),
                        ),
                    )
                    &&& any(
                        events,
                        exact_event(
                            proposal.run_id,
                            "frontier_auto_accept_recorded"@,
                            record.recorded(proposal.id, decision, auto_accept),
                        ),
                    )
                },
            },
        }
    }

    /// How many events the application of a command appends.
    pub open spec fn events(self) -> int {
        match self.auto_accept {
            Some(auto_accept) => if auto_accept.record is Some {
                3
            } else {
                1
            },
            None => 1,
        }
    }
}

impl ReplanAutoAcceptCommandModel {
    /// Why an automatic acceptance is refused: it is for the first tier, on evidence, and takes
    /// exactly one unit of each budget.
    pub open spec fn refusal(self) -> Option<StoreError> {
        if self.classification.tier != "tier_1"@ {
            Some(StoreError::AutoAcceptTier)
        } else if !self.classification.reason_codes.contains("add_followup_slice_only"@) {
            Some(StoreError::AutoAcceptEvidence)
        } else if self.budget_after.auto_promotions_used != one_more(
            self.budget_before.auto_promotions_used,
        ) || self.budget_after.generated_slices != one_more(self.budget_before.generated_slices) {
            Some(StoreError::AutoAcceptBudget)
        } else {
            None
        }
    }
}

impl TablesModel {
    pub open spec fn proposal(self, run_id: Seq<char>, id: Seq<char>) -> Option<
        ReplanProposalModel,
    > {
        first(self.proposals, proposal_in_run(run_id, id))
    }

    pub open spec fn proposals_of(self, run_id: Seq<char>) -> Seq<ReplanProposalModel> {
        ordered(select(self.proposals, proposal_of_run(run_id)), created_order())
    }

    /// The first number, counting on from the proposals of a run, whose identity is free.
    pub open spec fn is_next_sequence(self, run_id: Seq<char>, n: int) -> bool {
        let start = count(self.proposals, proposal_of_run(run_id)) + 1;
        &&& start <= n
        &&& !any(self.proposals, proposal_with_id(replan_id(run_id, n as nat)))
        &&& forall|m: int|
            start <= m < n ==> any(
                self.proposals,
                proposal_with_id(#[trigger] replan_id(run_id, m as nat)),
            )
    }

    pub open spec fn next_replan_id(self, run_id: Seq<char>) -> Seq<char> {
        replan_id(run_id, (choose|n: int| self.is_next_sequence(run_id, n)) as nat)
    }

    pub open spec fn new_proposal_id(self, run_id: Seq<char>, requested: Seq<char>) -> Seq<char> {
        if blank(requested) {
            self.next_replan_id(run_id)
        } else {
            trim(requested)
        }
    }

    pub open spec fn create_proposal_refusal(
        self,
        run_id: Seq<char>,
        requested: Seq<char>,
        source_kind: Seq<char>,
        changes: nat,
    ) -> Option<StoreError> {
        if self.run_row(run_id) is None {
            Some(StoreError::RunNotFound)
        } else if blank(source_kind) {
            Some(StoreError::ProposalSourceRequired)
        } else if changes == 0 {
            Some(StoreError::ProposalChangesRequired)
        } else if blank(requested) && self.proposals.len() > MAX_PROPOSALS {
            Some(StoreError::CounterExhausted)
        } else if any(
            self.proposals,
            proposal_with_id(self.new_proposal_id(run_id, requested)),
        ) {
            Some(StoreError::ProposalExists)
        } else {
            None
        }
    }

    pub open spec fn with_proposal(
        self,
        run_id: Seq<char>,
        id: Seq<char>,
        row: ReplanProposalModel,
    ) -> TablesModel {
        TablesModel {
            proposals: self.proposals.map_values(proposal_replaced(run_id, id, row)),
            ..self
        }
    }

    /// The tables after the decision of a proposal was replaced.
    pub open spec fn with_decision(
        self,
        run_id: Seq<char>,
        id: Seq<char>,
        decision: ReplanDecisionModel,
        now: Timestamp,
    ) -> TablesModel {
        let existing = self.proposal(run_id, id)->0;
        self.with_proposal(
            run_id,
            id,
            ReplanProposalModel {
                operator_decision: Some(decision),
                updated_at: now,
                ..existing
            },
        )
    }

    /// The tables after the classification of a proposal was replaced.
    pub open spec fn with_classification(
        self,
        run_id: Seq<char>,
        id: Seq<char>,
        classification: FrontierClassificationModel,
        now: Timestamp,
    ) -> TablesModel {
        let existing = self.proposal(run_id, id)->0;
        self.with_proposal(
            run_id,
            id,
            ReplanProposalModel {
                frontier_classification: Some(classification),
                updated_at: now,
                ..existing
            },
        )
    }

    /// The budget that a run has used.
    pub open spec fn used_budget(run: RunRowModel) -> FrontierBudgetStateModel {
        match run.frontier_budget {
            Some(budget) => budget,
            None => FrontierBudgetStateModel::empty(),
        }
    }

    /// The proposal as a command decides it.
    pub open spec fn decided(
        self,
        proposal: ReplanProposalModel,
        command: ReplanDecisionCommandModel,
        now: Timestamp,
    ) -> ReplanProposalModel {
        ReplanProposalModel {
            state: command.state,
            operator_decision: Some(
                command.decision(proposal, self.run(proposal.run_id), now),
            ),
            frontier_classification: match command.auto_accept {
                Some(auto_accept) => Some(auto_accept.classification),
                None => proposal.frontier_classification,
            },
            updated_at: now,
            ..proposal
        }
    }

    /// The decision, the budget that it uses and its events appear together.
    pub open spec fn apply_decision(
        self,
        proposal: ReplanProposalModel,
        command: ReplanDecisionCommandModel,
        now: Timestamp,
    ) -> TablesModel {
        let run_id = proposal.run_id;
        let after = self.decided(proposal, command, now);
        let decision = after.operator_decision->0;
        let budgeted = match command.auto_accept {
            Some(auto_accept) => TablesModel {
                runs: self.runs.map_values(budget_set(run_id, auto_accept.budget_after, now)),
                ..self
            },
            None => self,
        };
        let announced = budgeted.with_proposal(run_id, proposal.id, after).with_event(
            run_id,
            "replan_proposal_decided"@,
            EventPayloadModel::ReplanProposalDecided(
                ReplanProposalDecidedPayloadModel {
                    proposal_id: proposal.id,
                    state: command.state,
                    decision,
                },
            ),
            now,
        );
        match command.auto_accept {
            Some(auto_accept) => match auto_accept.record {
                Some(record) => announced.with_event(
                    run_id,
                    "frontier_classified"@,
                    record.classified(proposal.id, auto_accept.classification),
                    now,
                ).with_event(
                    run_id,
                    "frontier_auto_accept_recorded"@,
                    record.recorded(proposal.id, decision, auto_accept),
                    now,
                ),
                None => announced,
            },
            None => announced,
        }
    }

    /// What a command on a proposal leads to. A decided proposal stays as it is.
    pub open spec fn decide_proposal(
        self,
        run_id: Seq<char>,
        id: Seq<char>,
        command: ReplanDecisionCommandModel,
        now: Timestamp,
    ) -> Result<(ReplanDecisionTransitionModel, TablesModel), StoreError> {
        match (command.refusal(), self.proposal(run_id, id)) {
            (Some(error), _) => Err(error),
            (None, None) => Ok(
                (
                    ReplanDecisionTransitionModel {
                        outcome: DecisionCommandOutcome::NotFound,
                        proposal: None,
                    },
                    self,
                ),
            ),
            (None, Some(existing)) => if existing.state != ReplanProposalState::Pending {
                Ok(
                    (
                        ReplanDecisionTransitionModel {
                            outcome: if command.matches(existing) && command.record_matches(
                                self.events,
                                existing,
                            ) {
                                DecisionCommandOutcome::AlreadyAppliedIdempotently
                            } else {
                                DecisionCommandOutcome::Conflict
                            },
                            proposal: Some(existing),
                        },
                        self,
                    ),
                )
            } else if command.auto_accept is Some && !followup_only(existing) {
                Err(StoreError::AutoAcceptChange)
            } else if command.auto_accept is Some && self.run_row(run_id) is None {
                Err(StoreError::RunNotFound)
            } else if command.auto_accept is Some && Self::used_budget(self.run_row(run_id)->0)
                != command.auto_accept->0.budget_before {
                Ok(
                    (
                        ReplanDecisionTransitionModel {
                            outcome: DecisionCommandOutcome::Conflict,
                            proposal: Some(existing),
                        },
                        self,
                    ),
                )
            } else if !self.room(command.events()) {
                Err(StoreError::EventLogFull)
            } else {
                Ok(
                    (
                        ReplanDecisionTransitionModel {
                            outcome: DecisionCommandOutcome::Applied,
                            proposal: Some(self.decided(existing, command, now)),
                        },
                        self.apply_decision(existing, command, now),
                    ),
                )
            },
        }
    }
}

/// The next number is the same whoever looks for it.
pub(super) proof fn lemma_next_sequence(s: TablesModel, run_id: Seq<char>, n: int)
    requires
        s.is_next_sequence(run_id, n),
    ensures
        s.next_replan_id(run_id) == replan_id(run_id, n as nat),
{
    let m = choose|m: int| s.is_next_sequence(run_id, m);
    assert(s.is_next_sequence(run_id, m));
    let start = count(s.proposals, proposal_of_run(run_id)) + 1;
    if m < n {
        assert(start <= m < n);
        assert(any(s.proposals, proposal_with_id(replan_id(run_id, m as nat))));
    } else if n < m {
        assert(start <= n < m);
        assert(any(s.proposals, proposal_with_id(replan_id(run_id, n as nat))));
    }
}

/// Different numbers name different proposals.
proof fn lemma_replan_id_injective(run_id: Seq<char>, n: nat, m: nat)
    requires
        replan_id(run_id, n) == replan_id(run_id, m),
    ensures
        n == m,
{
    let front = "rp-"@ + short_run_id(run_id) + "-"@;
    assert(replan_id(run_id, n).skip(front.len() as int) =~= padded(n));
    assert(replan_id(run_id, m).skip(front.len() as int) =~= padded(m));
    lemma_padded_injective(n, m);
}

/// The identities of so many numbers in a row.
spec fn named(run_id: Seq<char>, start: nat, k: nat) -> Set<Seq<char>>
    decreases k,
{
    if k == 0 {
        Set::empty()
    } else {
        named(run_id, start, (k - 1) as nat).insert(replan_id(run_id, (start + k - 1) as nat))
    }
}

proof fn lemma_named(run_id: Seq<char>, start: nat, k: nat)
    ensures
        named(run_id, start, k).finite(),
        named(run_id, start, k).len() == k,
        forall|id: Seq<char>| #[trigger]
            named(run_id, start, k).contains(id) ==> exists|j: int|
                start <= j < start + k && id == #[trigger] replan_id(run_id, j as nat),
    decreases k,
{
    if k > 0 {
        lemma_named(run_id, start, (k - 1) as nat);
        let id = replan_id(run_id, (start + k - 1) as nat);
        if named(run_id, start, (k - 1) as nat).contains(id) {
            let j = choose|j: int|
                start <= j < start + k - 1 && id == #[trigger] replan_id(run_id, j as nat);
            lemma_replan_id_injective(run_id, (start + k - 1) as nat, j as nat);
        }
        assert forall|other: Seq<char>| #[trigger]
            named(run_id, start, k).contains(other) implies exists|j: int|
            start <= j < start + k && other == #[trigger] replan_id(run_id, j as nat) by {
            if other == id {
                assert(other == replan_id(run_id, (start + k - 1) as nat));
            } else {
                assert(named(run_id, start, (k - 1) as nat).contains(other));
                let j = choose|j: int|
                    start <= j < start + k - 1 && other == #[trigger] replan_id(run_id, j as nat);
                assert(start <= j < start + k && other == replan_id(run_id, j as nat));
            }
        }
    }
}

/// So many numbers in a row cannot all be taken by fewer proposals.
proof fn lemma_free_sequence(
    proposals: Seq<ReplanProposalModel>,
    run_id: Seq<char>,
    start: nat,
    k: nat,
)
    requires
        forall|m: int|
            start <= m < start + k ==> any(
                proposals,
                proposal_with_id(#[trigger] replan_id(run_id, m as nat)),
            ),
    ensures
        k <= proposals.len(),
{
    lemma_named(run_id, start, k);
    let ids = proposals.map_values(proposal_key());
    let taken = ids.to_set();
    ids.lemma_cardinality_of_set();
    assert(named(run_id, start, k).subset_of(taken)) by {
        assert forall|id: Seq<char>| named(run_id, start, k).contains(id) implies taken.contains(
            id,
        ) by {
            let j = choose|j: int|
                start <= j < start + k && id == #[trigger] replan_id(run_id, j as nat);
            assert(any(proposals, proposal_with_id(replan_id(run_id, j as nat))));
            let i = choose|i: int|
                0 <= i < proposals.len() && proposal_with_id(id)(#[trigger] proposals[i]);
            assert(ids[i] == id);
        }
    }
    vstd::set_lib::lemma_len_subset(named(run_id, start, k), taken);
}

/// The first letters and digits of a run's name.
fn short_replan_run_id(run_id: &str) -> (r: String)
    ensures
        r@ == short_run_id(run_id@),
{
    let chars = chars_of(run_id);
    proof {
        reveal_strlit("kd-");
    }
    let prefixed = chars.len() >= 3 && chars[0] == 'k' && chars[1] == 'd' && chars[2] == '-';
    assert(prefixed == (run_id@.len() >= 3 && run_id@.take(3) == "kd-"@)) by {
        if run_id@.len() >= 3 {
            assert(run_id@.take(3) =~= "kd-"@ <==> run_id@[0] == 'k' && run_id@[1] == 'd'
                && run_id@[2] == '-') by {
                assert(run_id@.take(3)[0] == run_id@[0]);
                assert(run_id@.take(3)[1] == run_id@[1]);
                assert(run_id@.take(3)[2] == run_id@[2]);
            }
        }
    }
    let start: usize = if prefixed {
        3
    } else {
        0
    };
    let ghost rest = without_run_prefix(run_id@);
    assert(rest =~= run_id@.skip(start as int));
    let ghost p = |c: char| alphanumeric(c);
    let mut kept: Vec<char> = Vec::new();
    let mut i: usize = start;
    assert(rest.take(0) =~= Seq::empty());
    while i < chars.len()
        invariant
            start <= i <= chars.len(),
            chars@ == run_id@,
            rest == run_id@.skip(start as int),
            p == (|c: char| alphanumeric(c)),
            kept@ == select(rest.take(i - start), p),
        decreases chars.len() - i,
    {
        let c = chars[i];
        proof {
            let part = rest.take(i + 1 - start);
            assert(part.drop_last() =~= rest.take(i - start));
            assert(part.last() == c);
        }
        if (c >= '0' && c <= '9') || (c >= 'A' && c <= 'Z') || (c >= 'a' && c <= 'z') {
            kept.push(c);
        }
        i = i + 1;
    }
    assert(rest.take(i - start) =~= rest);
    let n: usize = if kept.len() < 8 {
        kept.len()
    } else {
        8
    };
    if n == 0 {
        return "run".to_owned();
    }
    let mut r = String::new();
    let mut k: usize = 0;
    while k < n
        invariant
            k <= n <= kept.len(),
            r@ == kept@.take(k as int),
        decreases n - k,
    {
        r.push(kept[k]);
        k = k + 1;
        assert(kept@.take(k as int) =~= kept@.take(k - 1).push(kept@[k - 1]));
    }
    r
}

impl FrontierClassifiedPayload {
    pub fn new(
        proposal_id: &str,
        checkpoint: &str,
        classification: &FrontierClassification,
        record_only: bool,
        decision_recorded: bool,
    ) -> (r: FrontierClassifiedPayload)
        ensures
            r@ == (FrontierClassifiedPayloadModel {
                proposal_id: proposal_id@,
                checkpoint: checkpoint@,
                tier: classification@.tier,
                reason_codes: classification@.reason_codes,
                classified_at: classification@.classified_at,
                envelope_hash: classification@.envelope_hash,
                budget_snapshot: classification@.budget_snapshot,
                autonomy_level: classification@.autonomy_level,
                record_only,
                queue_mutated: false,
                slice_mutated: false,
                decision_recorded,
            }),
    {
        FrontierClassifiedPayload {
            proposal_id: proposal_id.to_owned(),
            checkpoint: checkpoint.to_owned(),
            tier: classification.tier.dup(),
            reason_codes: classification.reason_codes.dup(),
            classified_at: classification.classified_at,
            envelope_hash: classification.envelope_hash.dup(),
            budget_snapshot: classification.budget_snapshot.dup(),
            autonomy_level: classification.autonomy_level,
            record_only,
            queue_mutated: false,
            slice_mutated: false,
            decision_recorded,
        }
    }
}

impl FrontierAutoAcceptRecord {
    fn classification_payload(
        &self,
        proposal: &ReplanProposal,
        classification: &FrontierClassification,
    ) -> (r: EventPayload)
        ensures
            r@ == self@.classified(proposal@.id, classification@),
    {
        EventPayload::FrontierClassified(
            FrontierClassifiedPayload::new(
                proposal.id.as_str(),
                self.checkpoint.as_str(),
                classification,
                false,
                true,
            ),
        )
    }

    fn payload(
        &self,
        proposal: &ReplanProposal,
        decision: &ReplanDecision,
        auto_accept: &ReplanAutoAcceptCommand,
    ) -> (r: EventPayload)
        ensures
            r@ == self@.recorded(proposal@.id, decision@, auto_accept@),
    {
        EventPayload::FrontierAutoAcceptRecorded(
            FrontierAutoAcceptRecordedPayload {
                proposal_id: proposal.id.dup(),
                checkpoint: self.checkpoint.dup(),
                authorizer: decision.authorizer.dup(),
                source: decision.source.dup(),
                rationale: decision.rationale.dup(),
                tier: auto_accept.classification.tier.dup(),
                reason_codes: auto_accept.classification.reason_codes.dup(),
                budget_before: auto_accept.budget_before.dup(),
                budget_after: auto_accept.budget_after.dup(),
                af00_evidence_gate: "satisfied".to_owned(),
                apply_mode: self.apply_mode.dup(),
            },
        )
    }
}

impl ReplanAutoAcceptCommand {
    fn why_refused(&self) -> (r: Option<StoreError>)
        ensures
            r == self@.refusal(),
    {
        if !same_text(self.classification.tier.as_str(), "tier_1") {
            return Some(StoreError::AutoAcceptTier);
        }
        let mut evidence = false;
        let mut i: usize = 0;
        while i < self.classification.reason_codes.len()
            invariant
                i <= self.classification.reason_codes.len(),
                evidence == exists|k: int|
                    0 <= k < i && #[trigger] self@.classification.reason_codes[k]
                        == "add_followup_slice_only"@,
            decreases self.classification.reason_codes.len() - i,
        {
            assert(self@.classification.reason_codes[i as int]
                == self.classification.reason_codes@[i as int]@);
            if same_text(self.classification.reason_codes[i].as_str(), "add_followup_slice_only") {
                evidence = true;
            }
            i = i + 1;
        }
        if !evidence {
            return Some(StoreError::AutoAcceptEvidence);
        }
        if self.budget_after.auto_promotions_used
            != self.budget_before.auto_promotions_used.saturating_add(1)
            || self.budget_after.generated_slices
            != self.budget_before.generated_slices.saturating_add(1) {
            return Some(StoreError::AutoAcceptBudget);
        }
        None
    }
}

/// A text without the space around it, or another one where it is blank.
fn trimmed_or_else(text: &str, other: &str) -> (r: String)
    ensures
        r@ == trimmed_or(text@, other@),
{
    if is_blank(text) {
        other.to_owned()
    } else {
        trimmed(text)
    }
}

fn initial_replan_apply_status(
    proposal: &ReplanProposal,
    state: ReplanProposalState,
    completed: bool,
    Ghost(run): Ghost<Option<RunModel>>,
) -> (r: String)
    requires
        completed == (run is Some && run->0.status == RunStatus::Completed),
    ensures
        r@ == apply_status(proposal@, state, run),
{
    if state != ReplanProposalState::Accepted {
        return "not_applicable".to_owned();
    }
    if applyable_followup_slice_id(proposal).is_none() {
        return "not_applicable".to_owned();
    }
    if completed {
        return "refused".to_owned();
    }
    "pending".to_owned()
}

fn initial_replan_apply_reason(
    proposal: &ReplanProposal,
    state: ReplanProposalState,
    completed: bool,
    Ghost(run): Ghost<Option<RunModel>>,
) -> (r: String)
    requires
        completed == (run is Some && run->0.status == RunStatus::Completed),
    ensures
        r@ == apply_reason(proposal@, state, run),
{
    if state != ReplanProposalState::Accepted {
        return "decision does not apply queue or slice changes".to_owned();
    }
    if applyable_followup_slice_id(proposal).is_none() {
        return "accepted proposal is not an add_followup_slice typed draft; no apply side effect".to_owned();
    }
    if completed {
        return "run is already completed; accepted follow-up proposal remains unapplied and requires a new run or replacement proposal".to_owned();
    }
    "accepted add_followup_slice typed draft queued for daemon apply checkpoint".to_owned()
}

fn initial_replan_generated_slice_id(proposal: &ReplanProposal, state: ReplanProposalState) -> (r:
    String)
    ensures
        r@ == generated_slice(proposal@, state),
{
    if state == ReplanProposalState::Accepted {
        match applyable_followup_slice_id(proposal) {
            Some(id) => id,
            None => String::new(),
        }
    } else {
        String::new()
    }
}

fn applyable_followup_slice_id(proposal: &ReplanProposal) -> (r: Option<String>)
    ensures
        r.deep_view() == followup_slice(proposal@),
{
    if proposal.proposed_changes.len() != 1 {
        return None;
    }
    let change = &proposal.proposed_changes[0];
    assert(proposal@.proposed_changes[0] == change@);
    if !same_text(change.kind.as_str(), "add_followup_slice") {
        return None;
    }
    match &change.followup_slice_draft {
        None => None,
        Some(draft) => {
            let id = if is_blank(draft.id.as_str()) {
                trimmed(change.target.as_str())
            } else {
                trimmed(draft.id.as_str())
            };
            proof {
                reveal_strlit("");
                assert(id@.len() == 0 <==> id@ =~= ""@);
            }
            if same_text(id.as_str(), "") {
                None
            } else {
                Some(id)
            }
        },
    }
}

fn is_followup_only(proposal: &ReplanProposal) -> (r: bool)
    ensures
        r == followup_only(proposal@),
{
    if proposal.proposed_changes.len() != 1 {
        return false;
    }
    let change = &proposal.proposed_changes[0];
    assert(proposal@.proposed_changes[0] == change@);
    same_text(change.kind.as_str(), "add_followup_slice") && change.followup_slice_draft.is_some()
}

impl ReplanDecisionCommand {
    /// The command by which an operator decides.
    pub fn operator(
        state: ReplanProposalState,
        rationale: &str,
        authorizer: &str,
        source: &str,
        replacement_id: &str,
        revisit_condition: &str,
    ) -> (r: ReplanDecisionCommand)
        ensures
            r@ == (ReplanDecisionCommandModel {
                state,
                rationale: rationale@,
                authorizer: authorizer@,
                source: source@,
                replacement_id: replacement_id@,
                revisit_condition: revisit_condition@,
                auto_accept: None,
            }),
            r@ == operator_command(
                state,
                rationale@,
                authorizer@,
                source@,
                replacement_id@,
                revisit_condition@,
            ),
    {
        ReplanDecisionCommand {
            state,
            rationale: rationale.to_owned(),
            authorizer: authorizer.to_owned(),
            source: source.to_owned(),
            replacement_id: replacement_id.to_owned(),
            revisit_condition: revisit_condition.to_owned(),
            auto_accept: None,
        }
    }

    /// The command of a daemon that waited for the operator in vain.
    pub fn timeout(rationale: &str, revisit_condition: &str) -> (r: ReplanDecisionCommand)
        ensures
            r@ == (ReplanDecisionCommandModel {
                state: ReplanProposalState::Deferred,
                rationale: if blank(rationale@) {
                    "replan decision timed out"@
                } else {
                    rationale@
                },
                authorizer: "daemon"@,
                source: "decision_timeout"@,
                replacement_id: ""@,
                revisit_condition: if blank(revisit_condition@) {
                    "operator explicitly revisits the timed-out proposal"@
                } else {
                    revisit_condition@
                },
                auto_accept: None,
            }),
            r@ == timeout_command(rationale@, revisit_condition@),
    {
        let why = if is_blank(rationale) {
            "replan decision timed out"
        } else {
            rationale
        };
        let until = if is_blank(revisit_condition) {
            "operator explicitly revisits the timed-out proposal"
        } else {
            revisit_condition
        };
        ReplanDecisionCommand::operator(
            ReplanProposalState::Deferred,
            why,
            "daemon",
            "decision_timeout",
            "",
            until,
        )
    }

    /// An automatic acceptance that leaves no record of its own.
    pub fn auto_accept(
        rationale: &str,
        classification: &FrontierClassification,
        budget_before: &FrontierBudgetState,
        budget_after: &FrontierBudgetState,
    ) -> (r: ReplanDecisionCommand)
        ensures
            r@ == auto_accept_command(
                rationale@,
                classification@,
                budget_before@,
                budget_after@,
                None,
            ),
    {
        ReplanDecisionCommand {
            state: ReplanProposalState::Accepted,
            rationale: rationale.to_owned(),
            authorizer: String::new(),
            source: "frontier_policy".to_owned(),
            replacement_id: String::new(),
            revisit_condition: String::new(),
            auto_accept: Some(
                ReplanAutoAcceptCommand {
                    classification: classification.dup(),
                    budget_before: budget_before.dup(),
                    budget_after: budget_after.dup(),
                    record: None,
                },
            ),
        }
    }

    pub fn auto_accept_recorded(
        rationale: &str,
        classification: &FrontierClassification,
        budget_before: &FrontierBudgetState,
        budget_after: &FrontierBudgetState,
        checkpoint: &str,
        apply_mode: &str,
    ) -> (r: ReplanDecisionCommand)
        ensures
            r@ == auto_accept_command(
                rationale@,
                classification@,
                budget_before@,
                budget_after@,
                Some(
                    FrontierAutoAcceptRecordModel {
                        checkpoint: checkpoint@,
                        apply_mode: apply_mode@,
                    },
                ),
            ),
    {
        ReplanDecisionCommand {
            state: ReplanProposalState::Accepted,
            rationale: rationale.to_owned(),
            authorizer: String::new(),
            source: "frontier_policy".to_owned(),
            replacement_id: String::new(),
            revisit_condition: String::new(),
            auto_accept: Some(
                ReplanAutoAcceptCommand {
                    classification: classification.dup(),
                    budget_before: budget_before.dup(),
                    budget_after: budget_after.dup(),
                    record: Some(
                        FrontierAutoAcceptRecord {
                            checkpoint: checkpoint.to_owned(),
                            apply_mode: apply_mode.to_owned(),
                        },
                    ),
                },
            ),
        }
    }

    fn why_refused(&self) -> (r: Option<StoreError>)
        ensures
            r == self@.refusal(),
    {
        if self.state == ReplanProposalState::Pending {
            return Some(StoreError::DecisionLeavesPending);
        }
        if is_blank(self.rationale.as_str()) {
            return Some(StoreError::RationaleRequired);
        }
        if self.state == ReplanProposalState::Deferred && is_blank(
            self.revisit_condition.as_str(),
        ) {
            return Some(StoreError::RevisitConditionRequired);
        }
        if self.state == ReplanProposalState::Superseded && is_blank(
            self.replacement_id.as_str(),
        ) {
            return Some(StoreError::ReplacementRequired);
        }
        match &self.auto_accept {
            Some(auto_accept) => auto_accept.why_refused(),
            None => None,
        }
    }

    fn authorizer_in(&self, run_id: &str) -> (r: String)
        ensures
            r@ == self@.authorizer_for(run_id@),
    {
        if self.auto_accept.is_some() {
            let mut r = "envelope:".to_owned();
            r.append(run_id);
            r
        } else {
            trimmed_or_else(self.authorizer.as_str(), "operator")
        }
    }

    fn take_decision(
        &self,
        proposal: &ReplanProposal,
        completed: bool,
        Ghost(run): Ghost<Option<RunModel>>,
        now: Timestamp,
    ) -> (r: ReplanDecision)
        requires
            completed == (run is Some && run->0.status == RunStatus::Completed),
        ensures
            r@ == self@.decision(proposal@, run, now),
    {
        let source = if self.auto_accept.is_some() {
            "frontier_policy".to_owned()
        } else {
            trimmed_or_else(self.source.as_str(), "daemon_ipc")
        };
        let mut frontier_tier = String::new();
        let mut frontier_reason_codes: Vec<String> = Vec::new();
        let mut frontier_budget_before: Option<FrontierBudgetState> = None;
        let mut frontier_budget_after: Option<FrontierBudgetState> = None;
        match &self.auto_accept {
            Some(auto_accept) => {
                frontier_tier = auto_accept.classification.tier.dup();
                frontier_reason_codes = auto_accept.classification.reason_codes.dup();
                frontier_budget_before = Some(auto_accept.budget_before.dup());
                frontier_budget_after = Some(auto_accept.budget_after.dup());
            },
            None => {},
        }
        ReplanDecision {
            decision: self.state.as_str().to_owned(),
            rationale: trimmed(self.rationale.as_str()),
            authorizer: self.authorizer_in(proposal.run_id.as_str()),
            source,
            decided_at: now,
            frontier_tier,
            frontier_reason_codes,
            frontier_budget_before,
            frontier_budget_after,
            applied: false,
            applied_at: None,
            apply_status: initial_replan_apply_status(proposal, self.state, completed, Ghost(run)),
            apply_reason: initial_replan_apply_reason(proposal, self.state, completed, Ghost(run)),
            generated_slice_id: initial_replan_generated_slice_id(proposal, self.state),
            generated_slice_generation: 0,
            generated_slice_commit: String::new(),
            apply_before_checkpoint_id: String::new(),
            apply_after_checkpoint_id: String::new(),
            queue_before: Vec::new(),
            queue_after: Vec::new(),
            queue_before_hash: String::new(),
            queue_after_hash: String::new(),
            replacement_id: trimmed(self.replacement_id.as_str()),
            revisit_condition: trimmed(self.revisit_condition.as_str()),
        }
    }

    fn has_decided(&self, proposal: &ReplanProposal) -> (r: bool)
        ensures
            r == self@.matches(proposal@),
    {
        let decision = match &proposal.operator_decision {
            Some(decision) => decision,
            None => {
                return false;
            },
        };
        let rationale = trimmed(self.rationale.as_str());
        let source = trimmed_or_else(self.source.as_str(), "daemon_ipc");
        let replacement_id = trimmed(self.replacement_id.as_str());
        let revisit_condition = trimmed(self.revisit_condition.as_str());
        let authorizer = self.authorizer_in(proposal.run_id.as_str());
        let base = proposal.state == self.state && same_text(
            decision.decision.as_str(),
            self.state.as_str(),
        ) && decision.rationale.same(&rationale) && decision.source.same(&source)
            && decision.replacement_id.same(&replacement_id) && decision.revisit_condition.same(
            &revisit_condition,
        ) && decision.authorizer.same(&authorizer);
        match &self.auto_accept {
            None => base,
            Some(auto_accept) => {
                let classified = match &proposal.frontier_classification {
                    Some(classification) => classification.same(&auto_accept.classification),
                    None => false,
                };
                let before = match &decision.frontier_budget_before {
                    Some(budget) => budget.same(&auto_accept.budget_before),
                    None => false,
                };
                let after = match &decision.frontier_budget_after {
                    Some(budget) => budget.same(&auto_accept.budget_after),
                    None => false,
                };
                base && classified && decision.frontier_tier.same(
                    &auto_accept.classification.tier,
                ) && decision.frontier_reason_codes.same(&auto_accept.classification.reason_codes)
                    && before && after
            },
        }
    }
}

/// What an operator decides.
pub open spec fn operator_command(
    state: ReplanProposalState,
    rationale: Seq<char>,
    authorizer: Seq<char>,
    source: Seq<char>,
    replacement_id: Seq<char>,
    revisit_condition: Seq<char>,
) -> ReplanDecisionCommandModel {
    ReplanDecisionCommandModel {
        state,
        rationale,
        authorizer,
        source,
        replacement_id,
        revisit_condition,
        auto_accept: None,
    }
}

/// What is decided where the operator stayed away.
pub open spec fn timeout_command(
    rationale: Seq<char>,
    revisit_condition: Seq<char>,
) -> ReplanDecisionCommandModel {
    ReplanDecisionCommandModel {
        state: ReplanProposalState::Deferred,
        rationale: if blank(rationale) {
            "replan decision timed out"@
        } else {
            rationale
        },
        authorizer: "daemon"@,
        source: "decision_timeout"@,
        replacement_id: ""@,
        revisit_condition: if blank(revisit_condition) {
            "operator explicitly revisits the timed-out proposal"@
        } else {
            revisit_condition
        },
        auto_accept: None,
    }
}

pub open spec fn auto_accept_command(
    rationale: Seq<char>,
    classification: FrontierClassificationModel,
    budget_before: FrontierBudgetStateModel,
    budget_after: FrontierBudgetStateModel,
    record: Option<FrontierAutoAcceptRecordModel>,
) -> ReplanDecisionCommandModel {
    ReplanDecisionCommandModel {
        state: ReplanProposalState::Accepted,
        rationale,
        authorizer: Seq::empty(),
        source: "frontier_policy"@,
        replacement_id: Seq::empty(),
        revisit_condition: Seq::empty(),
        auto_accept: Some(
            ReplanAutoAcceptCommandModel { classification, budget_before, budget_after, record },
        ),
    }
}

impl Store {
    fn has_proposal(&self, id: &str) -> (r: bool)
        ensures
            r == any(self@.proposals, proposal_with_id(id@)),
    {
        let with_id = |row: &ReplanProposal| -> (b: bool)
            ensures
                b == proposal_with_id(id@)(row@),
            { same_text(row.id.as_str(), id) };
        find_row(&self.tables.proposals, with_id, Ghost(proposal_with_id(id@))).is_some()
    }

    fn proposal_index(&self, run_id: &str, id: &str) -> (r: Option<usize>)
        ensures
            match r {
                Some(i) => i < self.tables.proposals.len() && self@.proposal(run_id@, id@) == Some(
                    self.tables.proposals@[i as int]@,
                ) && self.tables.proposals@[i as int]@.id == id@
                    && self.tables.proposals@[i as int]@.run_id == run_id@,
                None => self@.proposal(run_id@, id@) is None,
            },
    {
        let in_run = |row: &ReplanProposal| -> (b: bool)
            ensures
                b == proposal_in_run(run_id@, id@)(row@),
            { same_text(row.run_id.as_str(), run_id) && same_text(row.id.as_str(), id) };
        find_row(&self.tables.proposals, in_run, Ghost(proposal_in_run(run_id@, id@)))
    }

    fn free_replan_id(&self, run_id: &str) -> (r: String)
        requires
            self@.proposals.len() <= MAX_PROPOSALS,
        ensures
            r@ == self@.next_replan_id(run_id@),
            !any(self@.proposals, proposal_with_id(r@)),
    {
        let of_run = |row: &ReplanProposal| -> (b: bool)
            ensures
                b == proposal_of_run(run_id@)(row@),
            { same_text(row.run_id.as_str(), run_id) };
        let mine = select_rows(&self.tables.proposals, of_run, Ghost(proposal_of_run(run_id@)));
        proof {
            lemma_select_len(self@.proposals, proposal_of_run(run_id@));
        }
        let short = short_replan_run_id(run_id);
        let mut sequence: u64 = mine.len() as u64 + 1;
        let ghost start = sequence as int;
        loop
            invariant
                start == count(self@.proposals, proposal_of_run(run_id@)) + 1,
                1 <= start <= sequence,
                sequence - start <= self@.proposals.len(),
                start <= self@.proposals.len() + 1,
                self@.proposals.len() <= MAX_PROPOSALS,
                short@ == short_run_id(run_id@),
                forall|m: int|
                    start <= m < sequence ==> any(
                        self@.proposals,
                        proposal_with_id(#[trigger] replan_id(run_id@, m as nat)),
                    ),
            decreases self@.proposals.len() + start - sequence,
        {
            let mut id = "rp-".to_owned();
            id.append(short.as_str());
            id.append("-");
            append_padded(&mut id, sequence);
            assert(id@ =~= replan_id(run_id@, sequence as nat));
            if !self.has_proposal(id.as_str()) {
                proof {
                    assert(self@.is_next_sequence(run_id@, sequence as int));
                    lemma_next_sequence(self@, run_id@, sequence as int);
                }
                return id;
            }
            proof {
                lemma_free_sequence(
                    self@.proposals,
                    run_id@,
                    start as nat,
                    (sequence + 1 - start) as nat,
                );
            }
            sequence = sequence + 1;
        }
    }

    /// Adds a proposal, under a generated name where none is asked for.
    pub fn create_replan_proposal(
        &mut self,
        run_id: &str,
        requested_id: &str,
        source: &ReplanProposalSource,
        trigger_finding_ids: &Vec<String>,
        evidence: &Vec<ReplanEvidenceLink>,
        proposed_changes: &Vec<ReplanProposedChange>,
        risk: &str,
        now: Timestamp,
    ) -> (r: Result<ReplanProposal, StoreError>)
        requires
            old(self)@.valid(),
            now.writable(),
        ensures
            final(self)@.valid(),
            old(self)@.one_active_run() ==> final(self)@.one_active_run(),
            match old(self)@.create_proposal_refusal(
                run_id@,
                requested_id@,
                source@.kind,
                proposed_changes@.len(),
            ) {
                Some(error) => r == Err::<ReplanProposal, StoreError>(error) && final(self)@ == old(self)@,
                None => {
                    let proposal = new_proposal(
                        old(self)@.new_proposal_id(run_id@, requested_id@),
                        run_id@,
                        source@,
                        trigger_finding_ids.deep_view(),
                        evidence.deep_view(),
                        proposed_changes.deep_view(),
                        risk@,
                        now,
                    );
                    res(r) == Ok::<ReplanProposalModel, StoreError>(proposal) && final(self)@ == (
                    TablesModel { proposals: old(self)@.proposals.push(proposal), ..old(self)@ })
                },
            },
    {
        if self.run_index(run_id).is_none() {
            return Err(StoreError::RunNotFound);
        }
        if is_blank(source.kind.as_str()) {
            return Err(StoreError::ProposalSourceRequired);
        }
        if proposed_changes.len() == 0 {
            return Err(StoreError::ProposalChangesRequired);
        }
        let id = if is_blank(requested_id) {
            if self.tables.proposals.len() as u64 > MAX_PROPOSALS {
                return Err(StoreError::CounterExhausted);
            }
            self.free_replan_id(run_id)
        } else {
            trimmed(requested_id)
        };
        if self.has_proposal(id.as_str()) {
            return Err(StoreError::ProposalExists);
        }
        let proposal = ReplanProposal {
            id,
            run_id: run_id.to_owned(),
            state: ReplanProposalState::Pending,
            source: source.dup(),
            trigger_finding_ids: trigger_finding_ids.dup(),
            evidence: evidence.dup(),
            proposed_changes: proposed_changes.dup(),
            risk: trimmed_or_else(risk, "operator_review"),
            operator_decision: None,
            frontier_classification: None,
            created_at: now,
            updated_at: now,
            decision_commands: Vec::new(),
        };
        proof {
            assert(proposal@ =~= new_proposal(
                self@.new_proposal_id(run_id@, requested_id@),
                run_id@,
                source@,
                trigger_finding_ids.deep_view(),
                evidence.deep_view(),
                proposed_changes.deep_view(),
                risk@,
                now,
            ));
            lemma_unique_push(
                self@.proposals,
                proposal_key(),
                proposal@,
                proposal_with_id(proposal@.id),
            );
        }
        let row = proposal.dup();
        push_row(&mut self.tables.proposals, row);
        Ok(proposal)
    }

    /// The proposal of this name in a run.
    pub fn get_replan_proposal(&self, run_id: &str, proposal_id: &str) -> (r: Result<
        Option<ReplanProposal>,
        StoreError,
    >)
        ensures
            res(r) == Ok::<Option<ReplanProposalModel>, StoreError>(
                self@.proposal(run_id@, proposal_id@),
            ),
    {
        match self.proposal_index(run_id, proposal_id) {
            Some(i) => Ok(Some(self.tables.proposals[i].dup())),
            None => Ok(None),
        }
    }

    /// The proposals of a run in the order of their creation.
    pub fn list_replan_proposals(&self, run_id: &str) -> (r: Result<
        Vec<ReplanProposal>,
        StoreError,
    >)
        ensures
            res(r) == Ok::<Seq<ReplanProposalModel>, StoreError>(self@.proposals_of(run_id@)),
    {
        let of_run = |row: &ReplanProposal| -> (b: bool)
            ensures
                b == proposal_of_run(run_id@)(row@),
            { same_text(row.run_id.as_str(), run_id) };
        let found = select_rows(&self.tables.proposals, of_run, Ghost(proposal_of_run(run_id@)));
        let before = |a: &ReplanProposal, b: &ReplanProposal| -> (lt: bool)
            ensures
                lt == created_order()(a@, b@),
            {
                a.created_at.earlier(&b.created_at) || (a.created_at == b.created_at
                    && text_before(a.id.as_str(), b.id.as_str()))
            };
        Ok(order_rows(found, before, Ghost(created_order())))
    }

    /// The proposals of a run that are not decided.
    pub fn pending_replan_proposals(&self, run_id: &str) -> (r: Result<
        Vec<ReplanProposal>,
        StoreError,
    >)
        ensures
            res(r) == Ok::<Seq<ReplanProposalModel>, StoreError>(
                select(self@.proposals_of(run_id@), pending_proposal()),
            ),
    {
        let all = match self.list_replan_proposals(run_id) {
            Ok(all) => all,
            Err(error) => {
                return Err(error);
            },
        };
        let pending = |row: &ReplanProposal| -> (b: bool)
            ensures
                b == pending_proposal()(row@),
            { row.state == ReplanProposalState::Pending };
        Ok(select_rows(&all, pending, Ghost(pending_proposal())))
    }

    fn exact_event_payload_exists(&self, run_id: &str, typ: &str, payload: &EventPayload) -> (r:
        bool)
        ensures
            r == any(self@.events, exact_event(run_id@, typ@, payload@)),
    {
        let exact = |event: &Event| -> (b: bool)
            ensures
                b == exact_event(run_id@, typ@, payload@)(event@),
            {
                same_text(event.run_id.as_str(), run_id) && same_text(event.typ.as_str(), typ)
                    && event.payload.same(payload)
            };
        find_row(
            &self.tables.events,
            exact,
            Ghost(exact_event(run_id@, typ@, payload@)),
        ).is_some()
    }

    fn supplemental_record_matches(
        &self,
        command: &ReplanDecisionCommand,
        proposal: &ReplanProposal,
    ) -> (r: bool)
        ensures
            r == command@.record_matches(self@.events, proposal@),
    {
        let auto_accept = match &command.auto_accept {
            Some(auto_accept) => auto_accept,
            None => {
                return true;
            },
        };
        let record = match &auto_accept.record {
            Some(record) => record,
            None => {
                return true;
            },
        };
        let decision = match &proposal.operator_decision {
            Some(decision) => decision,
            None => {
                return false;
            },
        };
        let classified = record.classification_payload(proposal, &auto_accept.classification);
        let recorded = record.payload(proposal, decision, auto_accept);
        self.exact_event_payload_exists(
            proposal.run_id.as_str(),
            "frontier_classified",
            &classified,
        ) && self.exact_event_payload_exists(
            proposal.run_id.as_str(),
            "frontier_auto_accept_recorded",
            &recorded,
        )
    }

    fn replace_proposal(&mut self, run_id: &str, id: &str, after: &ReplanProposal)
        requires
            old(self)@.valid(),
            after@.id == id@,
        ensures
            final(self)@.valid(),
            old(self)@.one_active_run() ==> final(self)@.one_active_run(),
            final(self)@ == old(self)@.with_proposal(run_id@, id@, after@),
    {
        let replace = |row: &ReplanProposal| -> (out: Option<ReplanProposal>)
            ensures
                match out {
                    Some(m) => m@ == proposal_replaced(run_id@, id@, after@)(row@),
                    None => proposal_replaced(run_id@, id@, after@)(row@) == row@,
                },
            {
                if same_text(row.run_id.as_str(), run_id) && same_text(row.id.as_str(), id) {
                    Some(after.dup())
                } else {
                    None
                }
            };
        proof {
            lemma_unique_map(
                self@.proposals,
                proposal_key(),
                proposal_replaced(run_id@, id@, after@),
            );
        }
        update_rows(
            &mut self.tables.proposals,
            replace,
            Ghost(proposal_replaced(run_id@, id@, after@)),
        );
    }

    fn set_budget(&mut self, run_id: &str, budget: &FrontierBudgetState, now: Timestamp)
        requires
            old(self)@.valid(),
        ensures
            final(self)@.valid(),
            old(self)@.one_active_run() ==> final(self)@.one_active_run(),
            final(self)@ == (TablesModel {
                runs: old(self)@.runs.map_values(budget_set(run_id@, budget@, now)),
                ..old(self)@
            }),
    {
        let set = |row: &RunRow| -> (out: Option<RunRow>)
            ensures
                match out {
                    Some(m) => m@ == budget_set(run_id@, budget@, now)(row@),
                    None => budget_set(run_id@, budget@, now)(row@) == row@,
                },
            {
                if same_text(row.run.id.as_str(), run_id) {
                    let mut m = row.dup();
                    m.run.updated_at = now;
                    m.frontier_budget = Some(budget.dup());
                    Some(m)
                } else {
                    None
                }
            };
        proof {
            lemma_unique_map(self@.runs, run_key(), budget_set(run_id@, budget@, now));
            lemma_one_active_kept(self@, budget_set(run_id@, budget@, now));
        }
        update_rows(
            &mut self.tables.runs,
            set,
            Ghost(budget_set(run_id@, budget@, now)),
        );
    }

    /// Decides a pending proposal. The same command again is answered from what was recorded, and
    /// another command on a decided proposal is a conflict.
    pub fn decide_replan_proposal_command(
        &mut self,
        run_id: &str,
        proposal_id: &str,
        command: &ReplanDecisionCommand,
        now: Timestamp,
    ) -> (r: Result<ReplanDecisionTransition, StoreError>)
        requires
            old(self)@.valid(),
            now.writable(),
        ensures
            final(self)@.valid(),
            old(self)@.one_active_run() ==> final(self)@.one_active_run(),
            match old(self)@.decide_proposal(run_id@, proposal_id@, command@, now) {
                Err(error) => r == Err::<ReplanDecisionTransition, StoreError>(error) && final(self)@ == old(self)@,
                Ok((transition, after)) => res(r) == Ok::<
                    ReplanDecisionTransitionModel,
                    StoreError,
                >(transition) && final(self)@ == after,
            },
    {
        match command.why_refused() {
            Some(error) => {
                return Err(error);
            },
            None => {},
        }
        let index = match self.proposal_index(run_id, proposal_id) {
            Some(index) => index,
            None => {
                return Ok(
                    ReplanDecisionTransition {
                        outcome: DecisionCommandOutcome::NotFound,
                        proposal: None,
                    },
                );
            },
        };
        let existing = self.tables.proposals[index].dup();
        if existing.state != ReplanProposalState::Pending {
            let idempotent = command.has_decided(&existing) && self.supplemental_record_matches(
                command,
                &existing,
            );
            let outcome = if idempotent {
                DecisionCommandOutcome::AlreadyAppliedIdempotently
            } else {
                DecisionCommandOutcome::Conflict
            };
            return Ok(ReplanDecisionTransition { outcome, proposal: Some(existing) });
        }
        let run = self.run_index(run_id);
        let completed = match run {
            Some(i) => self.tables.runs[i].run.status == RunStatus::Completed,
            None => false,
        };
        let mut events: usize = 1;
        match &command.auto_accept {
            Some(auto_accept) => {
                if !is_followup_only(&existing) {
                    return Err(StoreError::AutoAcceptChange);
                }
                let used = match run {
                    Some(i) => used_budget_of(&self.tables.runs[i]),
                    None => {
                        return Err(StoreError::RunNotFound);
                    },
                };
                if !used.same(&auto_accept.budget_before) {
                    return Ok(
                        ReplanDecisionTransition {
                            outcome: DecisionCommandOutcome::Conflict,
                            proposal: Some(existing),
                        },
                    );
                }
                if auto_accept.record.is_some() {
                    events = 3;
                }
            },
            None => {},
        }
        if !self.has_room(events) {
            return Err(StoreError::EventLogFull);
        }
        let after = self.apply_replan_decision(&existing, command, completed, now);
        Ok(
            ReplanDecisionTransition {
                outcome: DecisionCommandOutcome::Applied,
                proposal: Some(after),
            },
        )
    }

    fn apply_replan_decision(
        &mut self,
        existing: &ReplanProposal,
        command: &ReplanDecisionCommand,
        completed: bool,
        now: Timestamp,
    ) -> (r: ReplanProposal)
        requires
            old(self)@.valid(),
            old(self)@.room(command@.events()),
            completed == (old(self)@.run(existing@.run_id) is Some && old(self)@.run(
                existing@.run_id,
            )->0.status == RunStatus::Completed),
        ensures
            final(self)@.valid(),
            old(self)@.one_active_run() ==> final(self)@.one_active_run(),
            r@ == old(self)@.decided(existing@, command@, now),
            final(self)@ == old(self)@.apply_decision(existing@, command@, now),
    {
        let run_id = existing.run_id.as_str();
        let decision = command.take_decision(
            existing,
            completed,
            Ghost(self@.run(run_id@)),
            now,
        );
        let mut after = existing.dup();
        after.state = command.state;
        after.operator_decision = Some(decision.dup());
        after.updated_at = now;
        match &command.auto_accept {
            Some(auto_accept) => {
                after.frontier_classification = Some(auto_accept.classification.dup());
                self.set_budget(run_id, &auto_accept.budget_after, now);
            },
            None => {},
        }
        assert(after@ =~= old(self)@.decided(existing@, command@, now));
        let announcement = EventPayload::ReplanProposalDecided(
            ReplanProposalDecidedPayload {
                proposal_id: existing.id.dup(),
                state: command.state,
                decision: decision.dup(),
            },
        );
        self.replace_proposal(run_id, existing.id.as_str(), &after);
        self.append_event(run_id, "replan_proposal_decided", announcement, now);
        match &command.auto_accept {
            Some(auto_accept) => {
                match &auto_accept.record {
                    Some(record) => {
                        let classified = record.classification_payload(
                            existing,
                            &auto_accept.classification,
                        );
                        let recorded = record.payload(existing, &decision, auto_accept);
                        self.append_event(run_id, "frontier_classified", classified, now);
                        self.append_event(run_id, "frontier_auto_accept_recorded", recorded, now);
                    },
                    None => {},
                }
            },
            None => {},
        }
        after
    }

    /// Decides a proposal for an operator, and returns it as it is then.
    pub fn decide_replan_proposal(
        &mut self,
        run_id: &str,
        proposal_id: &str,
        state: ReplanProposalState,
        rationale: &str,
        authorizer: &str,
        source: &str,
        replacement_id: &str,
        revisit_condition: &str,
        now: Timestamp,
    ) -> (r: Result<ReplanProposal, StoreError>)
        requires
            old(self)@.valid(),
            now.writable(),
        ensures
            final(self)@.valid(),
            old(self)@.one_active_run() ==> final(self)@.one_active_run(),
            match old(self)@.decide_proposal(
                run_id@,
                proposal_id@,
                ReplanDecisionCommandModel {
                    state,
                    rationale: rationale@,
                    authorizer: authorizer@,
                    source: source@,
                    replacement_id: replacement_id@,
                    revisit_condition: revisit_condition@,
                    auto_accept: None,
                },
                now,
            ) {
                Err(error) => r == Err::<ReplanProposal, StoreError>(error) && final(self)@ == old(self)@,
                Ok((transition, after)) => res(r) == settled(transition) && final(self)@ == after,
            },
    {
        let command = ReplanDecisionCommand::operator(
            state,
            rationale,
            authorizer,
            source,
            replacement_id,
            revisit_condition,
        );
        match self.decide_replan_proposal_command(run_id, proposal_id, &command, now) {
            Ok(transition) => settle(transition),
            Err(error) => Err(error),
        }
    }

    /// Accepts a proposal by policy, counts that against the budget, and returns it as it is then.
    pub fn auto_accept_replan_proposal_with_budget(
        &mut self,
        run_id: &str,
        proposal_id: &str,
        rationale: &str,
        classification: &FrontierClassification,
        budget_before: &FrontierBudgetState,
        budget_after: &FrontierBudgetState,
        checkpoint: &str,
        apply_mode: &str,
        now: Timestamp,
    ) -> (r: Result<ReplanProposal, StoreError>)
        requires
            old(self)@.valid(),
            now.writable(),
        ensures
            final(self)@.valid(),
            old(self)@.one_active_run() ==> final(self)@.one_active_run(),
            match old(self)@.decide_proposal(
                run_id@,
                proposal_id@,
                auto_accept_command(
                    rationale@,
                    classification@,
                    budget_before@,
                    budget_after@,
                    Some(
                        (FrontierAutoAcceptRecordModel {
                            checkpoint: checkpoint@,
                            apply_mode: apply_mode@,
                        }),
                    ),
                ),
                now,
            ) {
                Err(error) => r == Err::<ReplanProposal, StoreError>(error) && final(self)@ == old(self)@,
                Ok((transition, after)) => res(r) == settled(transition) && final(self)@ == after,
            },
    {
        let command = ReplanDecisionCommand::auto_accept_recorded(
            rationale,
            classification,
            budget_before,
            budget_after,
            checkpoint,
            apply_mode,
        );
        match self.decide_replan_proposal_command(run_id, proposal_id, &command, now) {
            Ok(transition) => settle(transition),
            Err(error) => Err(error),
        }
    }

    /// Replaces the decision of a decided proposal.
    pub fn replace_replan_decision(
        &mut self,
        run_id: &str,
        proposal_id: &str,
        decision: &ReplanDecision,
        now: Timestamp,
    ) -> (r: Result<ReplanProposal, StoreError>)
        requires
            old(self)@.valid(),
            now.writable(),
        ensures
            final(self)@.valid(),
            old(self)@.one_active_run() ==> final(self)@.one_active_run(),
            match old(self)@.proposal(run_id@, proposal_id@) {
                None => r == Err::<ReplanProposal, StoreError>(StoreError::ProposalNotFound)
                    && final(self)@ == old(self)@,
                Some(existing) => if existing.operator_decision is None {
                    r == Err::<ReplanProposal, StoreError>(StoreError::ProposalUndecided) && final(self)@ == old(self)@
                } else {
                    let after = ReplanProposalModel {
                        operator_decision: Some(decision@),
                        updated_at: now,
                        ..existing
                    };
                    res(r) == Ok::<ReplanProposalModel, StoreError>(after) && final(self)@ == old(self)@.with_proposal(run_id@, proposal_id@, after)
                },
            },
            r is Ok ==> final(self)@ == old(self)@.with_decision(run_id@, proposal_id@, decision@, now),
    {
        let index = match self.proposal_index(run_id, proposal_id) {
            Some(index) => index,
            None => {
                return Err(StoreError::ProposalNotFound);
            },
        };
        let mut after = self.tables.proposals[index].dup();
        if after.operator_decision.is_none() {
            return Err(StoreError::ProposalUndecided);
        }
        after.operator_decision = Some(decision.dup());
        after.updated_at = now;
        self.replace_proposal(run_id, proposal_id, &after);
        Ok(after)
    }

    /// Replaces the classification of a proposal.
    pub fn replace_replan_frontier_classification(
        &mut self,
        run_id: &str,
        proposal_id: &str,
        classification: &FrontierClassification,
        now: Timestamp,
    ) -> (r: Result<ReplanProposal, StoreError>)
        requires
            old(self)@.valid(),
            now.writable(),
        ensures
            final(self)@.valid(),
            old(self)@.one_active_run() ==> final(self)@.one_active_run(),
            match old(self)@.proposal(run_id@, proposal_id@) {
                None => r == Err::<ReplanProposal, StoreError>(StoreError::ProposalNotFound)
                    && final(self)@ == old(self)@,
                Some(existing) => {
                    let after = ReplanProposalModel {
                        frontier_classification: Some(classification@),
                        updated_at: now,
                        ..existing
                    };
                    res(r) == Ok::<ReplanProposalModel, StoreError>(after) && final(self)@ == old(self)@.with_proposal(run_id@, proposal_id@, after)
                },
            },
            r is Ok ==> final(self)@ == old(self)@.with_classification(
                run_id@,
                proposal_id@,
                classification@,
                now,
            ),
    {
        let index = match self.proposal_index(run_id, proposal_id) {
            Some(index) => index,
            None => {
                return Err(StoreError::ProposalNotFound);
            },
        };
        let mut after = self.tables.proposals[index].dup();
        after.frontier_classification = Some(classification.dup());
        after.updated_at = now;
        self.replace_proposal(run_id, proposal_id, &after);
        Ok(after)
    }
}

fn used_budget_of(row: &RunRow) -> (r: FrontierBudgetState)
    ensures
        r@ == TablesModel::used_budget(row@),
{
    match &row.frontier_budget {
        Some(budget) => budget.dup(),
        None => FrontierBudgetState::default(),
    }
}

/// What a caller who wants the decided proposal gets of a transition.
pub open spec fn settled(transition: ReplanDecisionTransitionModel) -> Result<
    ReplanProposalModel,
    StoreError,
> {
    match transition.outcome {
        DecisionCommandOutcome::Applied | DecisionCommandOutcome::AlreadyAppliedIdempotently =>
        match transition.proposal {
            Some(proposal) => Ok(proposal),
            None => Err(StoreError::ProposalNotFound),
        },
        DecisionCommandOutcome::NotFound => Err(StoreError::ProposalNotFound),
        DecisionCommandOutcome::StaleToken => Err(StoreError::DecisionStale),
        _ => Err(StoreError::DecisionConflict),
    }
}

fn settle(transition: ReplanDecisionTransition) -> (r: Result<ReplanProposal, StoreError>)
    ensures
        res(r) == settled(transition@),
{
    match transition.outcome {
        DecisionCommandOutcome::Applied | DecisionCommandOutcome::AlreadyAppliedIdempotently =>
        match transition.proposal {
            Some(proposal) => Ok(proposal),
            None => Err(StoreError::ProposalNotFound),
        },
        DecisionCommandOutcome::NotFound => Err(StoreError::ProposalNotFound),
        DecisionCommandOutcome::StaleToken => Err(StoreError::DecisionStale),
        _ => Err(StoreError::DecisionConflict),
    }
}

} // verus!
