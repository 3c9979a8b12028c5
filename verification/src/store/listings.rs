//! What holds of the listings of the store: each holds exactly what it is to list, once, in its order.
use super::attempts::{attempt_of_slice, ledger_of, ledger_order, slice_of_run, slice_order};
use super::launches::{launch_in_states, launch_order};
use super::merges::{merge_of_run, merge_order};
use super::questions::{asked_order, question_of_repo, question_of_run, question_only, run_in_repo};
use super::replans::{created_order, pending_proposal, proposal_of_run};
use super::runs::{earliest_started, latest_started, run_is_active};
use super::status::{source_of_run, source_order};
use super::terminal::{intended_order, terminal_run_id, unreconciled};
use super::{
    attempt_key, launch_key, merge_key, proposal_key, question_key, run_key, slice_key, source_key,
    terminal_key,
};
use crate::domain::{
    IntegrationMergeIntentModel, ReplanProposalModel, ReplanProposalState, RunLaunchIntentModel,
    RunLaunchState, SliceRunModel,
};
use crate::rows::{
    QuestionRowModel, RunRowModel, StatusSourceRowModel, TablesModel,
    TerminalRowModel,
};
use crate::table::{
    any, ascending, law_listing_ascends, law_ordered_is_sorted, lemma_ordered_len,
    lemma_ordered_rows, lemma_select_ascends, lemma_select_from, lemma_select_keeps, ordered, orders, select,
};
use crate::text::{law_text_order, text_lt};
use crate::time::Timestamp;
use vstd::prelude::*;

verus! {

/// Earlier, or at the same time with a name that comes before.
pub open spec fn time_then_text(t: Timestamp, a: Seq<char>, u: Timestamp, b: Seq<char>) -> bool {
    t.lt(u) || (t == u && text_lt(a, b))
}

/// Instants with names are ordered.
pub(super) proof fn lemma_time_then_text(
    t: Timestamp,
    a: Seq<char>,
    u: Timestamp,
    b: Seq<char>,
    v: Timestamp,
    c: Seq<char>,
)
    ensures
        time_then_text(t, a, u, b) ==> !time_then_text(u, b, t, a),
        !time_then_text(u, b, t, a) && !time_then_text(v, c, u, b) ==> !time_then_text(v, c, t, a),
        !time_then_text(t, a, u, b) && !time_then_text(u, b, t, a) ==> t == u && a == b,
{
    Timestamp::law_time_order(t, u, v);
    Timestamp::law_time_order(u, t, v);
    Timestamp::law_time_order(t, v, u);
    Timestamp::law_time_order(v, u, t);
    law_text_order(a, b, c);
    law_text_order(b, a, c);
    law_text_order(a, c, b);
    law_text_order(c, b, a);
}

proof fn lemma_asked_order(p: spec_fn(QuestionRowModel) -> bool)
    ensures
        orders(asked_order(), p, question_key()),
{
    let before = asked_order();
    assert forall|a: QuestionRowModel, b: QuestionRowModel| #[trigger] before(a, b) implies !before(b, a) by {
        lemma_time_then_text(a.question.asked_at, a.question.id, b.question.asked_at, b.question.id, b.question.asked_at, b.question.id);
    }
    assert forall|a: QuestionRowModel, b: QuestionRowModel, c: QuestionRowModel|
        !(#[trigger] before(b, a)) && !(#[trigger] before(c, b)) implies !before(c, a) by {
        lemma_time_then_text(a.question.asked_at, a.question.id, b.question.asked_at, b.question.id, c.question.asked_at, c.question.id);
    }
    assert forall|a: QuestionRowModel, b: QuestionRowModel|
        p(a) && p(b) && !(#[trigger] before(a, b)) && !before(b, a) implies question_key()(a) == question_key()(b) by {
        lemma_time_then_text(a.question.asked_at, a.question.id, b.question.asked_at, b.question.id, b.question.asked_at, b.question.id);
    }
}

proof fn lemma_created_order(p: spec_fn(ReplanProposalModel) -> bool)
    ensures
        orders(created_order(), p, proposal_key()),
{
    let before = created_order();
    assert forall|a: ReplanProposalModel, b: ReplanProposalModel| #[trigger] before(a, b) implies !before(b, a) by {
        lemma_time_then_text(a.created_at, a.id, b.created_at, b.id, b.created_at, b.id);
    }
    assert forall|a: ReplanProposalModel, b: ReplanProposalModel, c: ReplanProposalModel|
        !(#[trigger] before(b, a)) && !(#[trigger] before(c, b)) implies !before(c, a) by {
        lemma_time_then_text(a.created_at, a.id, b.created_at, b.id, c.created_at, c.id);
    }
    assert forall|a: ReplanProposalModel, b: ReplanProposalModel|
        p(a) && p(b) && !(#[trigger] before(a, b)) && !before(b, a) implies proposal_key()(a) == proposal_key()(b) by {
        lemma_time_then_text(a.created_at, a.id, b.created_at, b.id, b.created_at, b.id);
    }
}

proof fn lemma_merge_order(p: spec_fn(IntegrationMergeIntentModel) -> bool)
    ensures
        orders(merge_order(), p, merge_key()),
{
    let before = merge_order();
    assert forall|a: IntegrationMergeIntentModel, b: IntegrationMergeIntentModel| #[trigger] before(a, b) implies !before(b, a) by {
        lemma_time_then_text(a.created_at, a.operation_id, b.created_at, b.operation_id, b.created_at, b.operation_id);
    }
    assert forall|a: IntegrationMergeIntentModel, b: IntegrationMergeIntentModel, c: IntegrationMergeIntentModel|
        !(#[trigger] before(b, a)) && !(#[trigger] before(c, b)) implies !before(c, a) by {
        lemma_time_then_text(a.created_at, a.operation_id, b.created_at, b.operation_id, c.created_at, c.operation_id);
    }
    assert forall|a: IntegrationMergeIntentModel, b: IntegrationMergeIntentModel|
        p(a) && p(b) && !(#[trigger] before(a, b)) && !before(b, a) implies merge_key()(a) == merge_key()(b) by {
        lemma_time_then_text(a.created_at, a.operation_id, b.created_at, b.operation_id, b.created_at, b.operation_id);
    }
}

/// A text that comes before, or the same one with a name that comes before.
pub open spec fn text_then_text(t: Seq<char>, a: Seq<char>, u: Seq<char>, b: Seq<char>) -> bool {
    text_lt(t, u) || (t == u && text_lt(a, b))
}

proof fn lemma_intended_order(p: spec_fn(TerminalRowModel) -> bool)
    ensures
        orders(intended_order(), p, terminal_key()),
{
    let before = intended_order();
    assert forall|a: TerminalRowModel, b: TerminalRowModel| #[trigger] before(a, b) implies !before(
        b,
        a,
    ) by {
        law_text_order(a.intended_at, b.intended_at, b.intended_at);
        law_text_order(a.run_id, b.run_id, b.run_id);
    }
    assert forall|a: TerminalRowModel, b: TerminalRowModel, c: TerminalRowModel|
        !(#[trigger] before(b, a)) && !(#[trigger] before(c, b)) implies !before(c, a) by {
        law_text_order(a.intended_at, b.intended_at, c.intended_at);
        law_text_order(b.intended_at, c.intended_at, a.intended_at);
        law_text_order(c.intended_at, a.intended_at, b.intended_at);
        law_text_order(a.run_id, b.run_id, c.run_id);
        law_text_order(b.run_id, c.run_id, a.run_id);
        law_text_order(c.run_id, a.run_id, b.run_id);
    }
    assert forall|a: TerminalRowModel, b: TerminalRowModel|
        p(a) && p(b) && !(#[trigger] before(a, b)) && !before(b, a) implies terminal_key()(a)
        == terminal_key()(b) by {
        law_text_order(a.intended_at, b.intended_at, b.intended_at);
        law_text_order(a.run_id, b.run_id, b.run_id);
    }
}

proof fn lemma_latest_started(p: spec_fn(RunRowModel) -> bool)
    ensures
        orders(latest_started(), p, run_key()),
{
    let before = latest_started();
    assert forall|a: RunRowModel, b: RunRowModel| #[trigger] before(a, b) implies !before(b, a) by {
        lemma_time_then_text(b.run.started_at, b.run.id, a.run.started_at, a.run.id, a.run.started_at, a.run.id);
    }
    assert forall|a: RunRowModel, b: RunRowModel, c: RunRowModel|
        !(#[trigger] before(b, a)) && !(#[trigger] before(c, b)) implies !before(c, a) by {
        lemma_time_then_text(c.run.started_at, c.run.id, b.run.started_at, b.run.id, a.run.started_at, a.run.id);
    }
    assert forall|a: RunRowModel, b: RunRowModel|
        p(a) && p(b) && !(#[trigger] before(a, b)) && !before(b, a) implies run_key()(a) == run_key()(b) by {
        lemma_time_then_text(b.run.started_at, b.run.id, a.run.started_at, a.run.id, a.run.started_at, a.run.id);
    }
}

/// The questions of a run are listed once each, by the time at which they were asked and then by name.
pub proof fn law_questions_ascend(s: TablesModel, run_id: Seq<char>)
    requires
        s.valid(),
    ensures
        ({
            let list = s.questions_of(run_id);
            &&& forall|i: int, j: int|
                0 <= i < j < list.len() ==> time_then_text(
                    (#[trigger] list[i]).asked_at,
                    list[i].id,
                    (#[trigger] list[j]).asked_at,
                    list[j].id,
                )
            &&& forall|i: int| 0 <= i < list.len() ==> (#[trigger] list[i]).run_id == run_id
            &&& forall|k: int|
                0 <= k < s.questions.len() && (#[trigger] s.questions[k]).question.run_id == run_id
                    ==> list.contains(s.questions[k].question)
        }),
{
    lemma_asked_order(question_of_run(run_id));
    lemma_questions_listed(s, question_of_run(run_id));
    let rows = ordered(select(s.questions, question_of_run(run_id)), asked_order());
    let list = s.questions_of(run_id);
    assert forall|i: int| 0 <= i < list.len() implies (#[trigger] list[i]).run_id == run_id by {
        assert(question_of_run(run_id)(rows[i]));
    }
}

/// The questions of the runs of a repository are listed once each, by the time at which they were
/// asked and then by name.
pub proof fn law_questions_of_repo_ascend(s: TablesModel, repo_path: Seq<char>)
    requires
        s.valid(),
    ensures
        ({
            let list = s.questions_of_repo(repo_path);
            &&& forall|i: int, j: int|
                0 <= i < j < list.len() ==> time_then_text(
                    (#[trigger] list[i]).asked_at,
                    list[i].id,
                    (#[trigger] list[j]).asked_at,
                    list[j].id,
                )
            &&& forall|i: int|
                0 <= i < list.len() ==> any(s.runs, run_in_repo((#[trigger] list[i]).run_id, repo_path))
            &&& forall|k: int|
                0 <= k < s.questions.len() && question_of_repo(s.runs, repo_path)(
                    #[trigger] s.questions[k],
                ) ==> list.contains(s.questions[k].question)
        }),
{
    lemma_asked_order(question_of_repo(s.runs, repo_path));
    let p = question_of_repo(s.runs, repo_path);
    lemma_questions_listed(s, p);
    let rows = ordered(select(s.questions, p), asked_order());
    let list = s.questions_of_repo(repo_path);
    assert forall|i: int| 0 <= i < list.len() implies any(
        s.runs,
        run_in_repo((#[trigger] list[i]).run_id, repo_path),
    ) by {
        assert(p(rows[i]));
    }
}

proof fn lemma_questions_listed(s: TablesModel, p: spec_fn(QuestionRowModel) -> bool)
    requires
        s.valid(),
        orders(asked_order(), p, question_key()),
    ensures
        ({
            let rows = ordered(select(s.questions, p), asked_order());
            let list = rows.map_values(question_only());
            &&& forall|i: int, j: int|
                0 <= i < j < list.len() ==> time_then_text(
                    (#[trigger] list[i]).asked_at,
                    list[i].id,
                    (#[trigger] list[j]).asked_at,
                    list[j].id,
                )
            &&& forall|i: int| 0 <= i < rows.len() ==> p(#[trigger] rows[i])
            &&& forall|k: int|
                0 <= k < s.questions.len() && p(#[trigger] s.questions[k]) ==> list.contains(
                    s.questions[k].question,
                )
        }),
{
    let rows = ordered(select(s.questions, p), asked_order());
    let list = rows.map_values(question_only());
    law_listing_ascends(s.questions, p, asked_order(), question_key());
    assert forall|i: int, j: int| 0 <= i < j < list.len() implies time_then_text(
        (#[trigger] list[i]).asked_at,
        list[i].id,
        (#[trigger] list[j]).asked_at,
        list[j].id,
    ) by {
        assert(asked_order()(rows[i], rows[j]));
    }
    assert forall|i: int| 0 <= i < rows.len() implies p(#[trigger] rows[i]) by {
        assert(rows.contains(rows[i]));
    }
    assert forall|k: int| 0 <= k < s.questions.len() && p(
        #[trigger] s.questions[k],
    ) implies list.contains(s.questions[k].question) by {
        assert(s.questions.contains(s.questions[k]));
        assert(rows.contains(s.questions[k]));
        let i = choose|i: int| 0 <= i < rows.len() && rows[i] == s.questions[k];
        assert(list[i] == s.questions[k].question);
    }
}

/// The proposals of a run are listed once each, by the time of their creation and then by name.
pub proof fn law_proposals_ascend(s: TablesModel, run_id: Seq<char>)
    requires
        s.valid(),
    ensures
        ({
            let list = s.proposals_of(run_id);
            &&& forall|i: int, j: int|
                0 <= i < j < list.len() ==> time_then_text(
                    (#[trigger] list[i]).created_at,
                    list[i].id,
                    (#[trigger] list[j]).created_at,
                    list[j].id,
                )
            &&& forall|row: ReplanProposalModel| #[trigger]
                list.contains(row) <==> s.proposals.contains(row) && row.run_id == run_id
        }),
{
    let list = s.proposals_of(run_id);
    lemma_created_order(proposal_of_run(run_id));
    law_listing_ascends(s.proposals, proposal_of_run(run_id), created_order(), proposal_key());
    assert forall|i: int, j: int| 0 <= i < j < list.len() implies time_then_text(
        (#[trigger] list[i]).created_at,
        list[i].id,
        (#[trigger] list[j]).created_at,
        list[j].id,
    ) by {
        assert(created_order()(list[i], list[j]));
    }
}

/// The pending proposals of a run are exactly those of its proposals that are not decided, once each,
/// in the order in which all of them are listed.
pub proof fn law_pending_proposals_ascend(s: TablesModel, run_id: Seq<char>)
    requires
        s.valid(),
    ensures
        ({
            let all = s.proposals_of(run_id);
            let list = select(all, pending_proposal());
            &&& forall|i: int, j: int|
                0 <= i < j < list.len() ==> time_then_text(
                    (#[trigger] list[i]).created_at,
                    list[i].id,
                    (#[trigger] list[j]).created_at,
                    list[j].id,
                )
            &&& forall|row: ReplanProposalModel| #[trigger]
                list.contains(row) <==> all.contains(row) && row.state
                    == ReplanProposalState::Pending
            &&& forall|row: ReplanProposalModel| #[trigger]
                list.contains(row) <==> s.proposals.contains(row) && row.run_id == run_id
                    && row.state == ReplanProposalState::Pending
        }),
{
    let all = s.proposals_of(run_id);
    let list = select(all, pending_proposal());
    law_proposals_ascend(s, run_id);
    assert(ascending(all, created_order()));
    lemma_select_ascends(all, pending_proposal(), created_order());
    assert forall|i: int, j: int| 0 <= i < j < list.len() implies time_then_text(
        (#[trigger] list[i]).created_at,
        list[i].id,
        (#[trigger] list[j]).created_at,
        list[j].id,
    ) by {
        assert(created_order()(list[i], list[j]));
    }
}

/// The merges of a run are listed once each, by the time of their creation and then by name.
pub proof fn law_merges_ascend(s: TablesModel, run_id: Seq<char>)
    requires
        s.valid(),
    ensures
        ({
            let list = s.merges_of(run_id);
            &&& forall|i: int, j: int|
                0 <= i < j < list.len() ==> time_then_text(
                    (#[trigger] list[i]).created_at,
                    list[i].operation_id,
                    (#[trigger] list[j]).created_at,
                    list[j].operation_id,
                )
            &&& forall|row: IntegrationMergeIntentModel| #[trigger]
                list.contains(row) <==> s.merges.contains(row) && row.run_id == run_id
        }),
{
    let list = s.merges_of(run_id);
    lemma_merge_order(merge_of_run(run_id));
    law_listing_ascends(s.merges, merge_of_run(run_id), merge_order(), merge_key());
    assert forall|i: int, j: int| 0 <= i < j < list.len() implies time_then_text(
        (#[trigger] list[i]).created_at,
        list[i].operation_id,
        (#[trigger] list[j]).created_at,
        list[j].operation_id,
    ) by {
        assert(merge_order()(list[i], list[j]));
    }
}

/// The slices of a run are listed once each, by name.
pub proof fn law_slices_ascend(s: TablesModel, run_id: Seq<char>)
    requires
        s.valid(),
    ensures
        ({
            let list = s.slices_of(run_id);
            &&& forall|i: int, j: int|
                0 <= i < j < list.len() ==> text_lt(
                    (#[trigger] list[i]).slice_id,
                    (#[trigger] list[j]).slice_id,
                )
            &&& forall|row: SliceRunModel| #[trigger]
                list.contains(row) <==> s.slices.contains(row) && row.run_id == run_id
        }),
{
    let list = s.slices_of(run_id);
    let before = slice_order();
    assert forall|a: SliceRunModel, b: SliceRunModel| #[trigger] before(a, b) implies !before(
        b,
        a,
    ) by {
        law_text_order(a.slice_id, b.slice_id, b.slice_id);
    }
    assert forall|a: SliceRunModel, b: SliceRunModel, c: SliceRunModel|
        !(#[trigger] before(b, a)) && !(#[trigger] before(c, b)) implies !before(c, a) by {
        law_text_order(a.slice_id, b.slice_id, c.slice_id);
        law_text_order(b.slice_id, c.slice_id, a.slice_id);
        law_text_order(c.slice_id, a.slice_id, b.slice_id);
    }
    assert forall|a: SliceRunModel, b: SliceRunModel|
        slice_of_run(run_id)(a) && slice_of_run(run_id)(b) && !(#[trigger] before(a, b))
            && !before(b, a) implies slice_key()(a) == slice_key()(b) by {
        law_text_order(a.slice_id, b.slice_id, b.slice_id);
    }
    law_listing_ascends(s.slices, slice_of_run(run_id), before, slice_key());
    assert forall|i: int, j: int| 0 <= i < j < list.len() implies text_lt(
        (#[trigger] list[i]).slice_id,
        (#[trigger] list[j]).slice_id,
    ) by {
        assert(before(list[i], list[j]));
    }
}

/// The status sources of a run are listed once each, by name.
pub proof fn law_sources_ascend(s: TablesModel, run_id: Seq<char>)
    requires
        s.valid(),
    ensures
        ({
            let list = ordered(select(s.sources, source_of_run(run_id)), source_order());
            &&& forall|i: int, j: int|
                0 <= i < j < list.len() ==> text_lt(
                    (#[trigger] list[i]).source,
                    (#[trigger] list[j]).source,
                )
            &&& forall|row: StatusSourceRowModel| #[trigger]
                list.contains(row) <==> s.sources.contains(row) && row.run_id == run_id
        }),
{
    let list = ordered(select(s.sources, source_of_run(run_id)), source_order());
    let before = source_order();
    assert forall|a: StatusSourceRowModel, b: StatusSourceRowModel| #[trigger]
        before(a, b) implies !before(b, a) by {
        law_text_order(a.source, b.source, b.source);
    }
    assert forall|a: StatusSourceRowModel, b: StatusSourceRowModel, c: StatusSourceRowModel|
        !(#[trigger] before(b, a)) && !(#[trigger] before(c, b)) implies !before(c, a) by {
        law_text_order(a.source, b.source, c.source);
        law_text_order(b.source, c.source, a.source);
        law_text_order(c.source, a.source, b.source);
    }
    assert forall|a: StatusSourceRowModel, b: StatusSourceRowModel|
        source_of_run(run_id)(a) && source_of_run(run_id)(b) && !(#[trigger] before(a, b))
            && !before(b, a) implies source_key()(a) == source_key()(b) by {
        law_text_order(a.source, b.source, b.source);
    }
    law_listing_ascends(s.sources, source_of_run(run_id), before, source_key());
    assert forall|i: int, j: int| 0 <= i < j < list.len() implies text_lt(
        (#[trigger] list[i]).source,
        (#[trigger] list[j]).source,
    ) by {
        assert(before(list[i], list[j]));
    }
}

/// The launches of a slice are listed once each, by their ordinals and then by their numbers.
pub proof fn law_ledger_ascends(s: TablesModel, run_id: Seq<char>, slice_id: Seq<char>)
    requires
        s.valid(),
    ensures
        ({
            let list = s.ledger(run_id, slice_id);
            &&& forall|i: int, j: int|
                0 <= i < j < list.len() ==> (#[trigger] list[i]).launch_ordinal < (
                #[trigger] list[j]).launch_ordinal || (list[i].launch_ordinal
                    == list[j].launch_ordinal && list[i].launch_id < list[j].launch_id)
            &&& forall|i: int|
                0 <= i < list.len() ==> (#[trigger] list[i]).run_id == run_id && list[i].slice_id
                    == slice_id
            &&& forall|k: int|
                0 <= k < s.attempts.len() && (#[trigger] s.attempts[k]).attempt.run_id == run_id
                    && s.attempts[k].attempt.slice_id == slice_id ==> list.contains(
                    ledger_of()(s.attempts[k]),
                )
        }),
{
    let p = attempt_of_slice(run_id, slice_id);
    let rows = ordered(select(s.attempts, p), ledger_order());
    let list = s.ledger(run_id, slice_id);
    law_listing_ascends(s.attempts, p, ledger_order(), attempt_key());
    assert forall|i: int, j: int| 0 <= i < j < list.len() implies (
    #[trigger] list[i]).launch_ordinal < (#[trigger] list[j]).launch_ordinal || (
    list[i].launch_ordinal == list[j].launch_ordinal && list[i].launch_id < list[j].launch_id) by {
        assert(ledger_order()(rows[i], rows[j]));
    }
    assert forall|i: int| 0 <= i < list.len() implies (#[trigger] list[i]).run_id == run_id
        && list[i].slice_id == slice_id by {
        assert(rows.contains(rows[i]));
    }
    assert forall|k: int|
        0 <= k < s.attempts.len() && (#[trigger] s.attempts[k]).attempt.run_id == run_id
            && s.attempts[k].attempt.slice_id == slice_id implies list.contains(
        ledger_of()(s.attempts[k]),
    ) by {
        assert(s.attempts.contains(s.attempts[k]) && p(s.attempts[k]));
        assert(rows.contains(s.attempts[k]));
        let i = choose|i: int| 0 <= i < rows.len() && rows[i] == s.attempts[k];
        assert(list[i] == ledger_of()(s.attempts[k]));
    }
}

/// The runs that started last are listed once each, the last one first.
pub proof fn law_latest_runs_descend(s: TablesModel, limit: nat)
    requires
        s.valid(),
    ensures
        ({
            let list = s.latest_runs(limit);
            let asked: nat = if limit == 0 {
                10
            } else {
                limit
            };
            &&& list.len() == if s.runs.len() < asked {
                s.runs.len()
            } else {
                asked
            }
            &&& forall|i: int, j: int|
                0 <= i < j < list.len() ==> time_then_text(
                    (#[trigger] list[j]).started_at,
                    list[j].id,
                    (#[trigger] list[i]).started_at,
                    list[i].id,
                )
            &&& forall|k: int, i: int|
                0 <= k < s.runs.len() && 0 <= i < list.len() && !list.contains(
                    (#[trigger] s.runs[k]).run,
                ) ==> time_then_text(
                    s.runs[k].run.started_at,
                    s.runs[k].run.id,
                    (#[trigger] list[i]).started_at,
                    list[i].id,
                )
        }),
{
    let all = |row: RunRowModel| true;
    lemma_select_all(s.runs, all);
    lemma_latest_started(all);
    law_listing_ascends(s.runs, all, latest_started(), run_key());
    let rows = ordered(s.runs, latest_started());
    let list = s.latest_runs(limit);
    lemma_ordered_rows(s.runs, latest_started());
    lemma_ordered_len(s.runs, latest_started());
    assert forall|i: int, j: int| 0 <= i < j < list.len() implies time_then_text(
        (#[trigger] list[j]).started_at,
        list[j].id,
        (#[trigger] list[i]).started_at,
        list[i].id,
    ) by {
        assert(latest_started()(rows[i], rows[j]));
    }
    assert forall|k: int, i: int|
        0 <= k < s.runs.len() && 0 <= i < list.len() && !list.contains(
            (#[trigger] s.runs[k]).run,
        ) implies time_then_text(
        s.runs[k].run.started_at,
        s.runs[k].run.id,
        (#[trigger] list[i]).started_at,
        list[i].id,
    ) by {
        assert(s.runs.contains(s.runs[k]));
        assert(rows.contains(s.runs[k]));
        let j = choose|j: int| 0 <= j < rows.len() && rows[j] == s.runs[k];
        if j < list.len() {
            assert(list[j] == s.runs[k].run);
        }
        assert(latest_started()(rows[i], rows[j]));
    }
}

proof fn lemma_select_all<M>(rows: Seq<M>, p: spec_fn(M) -> bool)
    requires
        forall|row: M| #[trigger] p(row),
    ensures
        select(rows, p) == rows,
    decreases rows.len(),
{
    if rows.len() > 0 {
        lemma_select_all(rows.drop_last(), p);
        assert(p(rows.last()));
        assert(rows.drop_last().push(rows.last()) =~= rows);
    }
}

/// The active runs are listed by the time at which they started, and all of them are.
pub proof fn law_active_runs_ascend(s: TablesModel)
    ensures
        ({
            let list = s.active_runs();
            &&& forall|i: int, j: int|
                0 <= i < j < list.len() ==> !(#[trigger] list[j]).started_at.lt(
                    (#[trigger] list[i]).started_at,
                )
            &&& forall|i: int| 0 <= i < list.len() ==> (#[trigger] list[i]).status.active()
            &&& forall|k: int|
                0 <= k < s.runs.len() && (#[trigger] s.runs[k]).run.status.active()
                    ==> list.contains(s.runs[k].run)
        }),
{
    let chosen = select(s.runs, run_is_active());
    let rows = ordered(chosen, earliest_started());
    let list = s.active_runs();
    let before = earliest_started();
    assert forall|a: RunRowModel, b: RunRowModel| #[trigger] before(a, b) implies !before(b, a) by {
        Timestamp::law_time_order(a.run.started_at, b.run.started_at, b.run.started_at);
    }
    assert forall|a: RunRowModel, b: RunRowModel, c: RunRowModel|
        !(#[trigger] before(b, a)) && !(#[trigger] before(c, b)) implies !before(c, a) by {
        Timestamp::law_time_order(a.run.started_at, b.run.started_at, c.run.started_at);
        Timestamp::law_time_order(b.run.started_at, c.run.started_at, a.run.started_at);
        Timestamp::law_time_order(c.run.started_at, a.run.started_at, b.run.started_at);
    }
    law_ordered_is_sorted(chosen, before);
    lemma_ordered_rows(chosen, before);
    lemma_select_from(s.runs, run_is_active());
    assert forall|i: int, j: int| 0 <= i < j < list.len() implies !(
    #[trigger] list[j]).started_at.lt((#[trigger] list[i]).started_at) by {
        assert(!before(rows[j], rows[i]));
    }
    assert forall|i: int| 0 <= i < list.len() implies (#[trigger] list[i]).status.active() by {
        assert(rows.contains(rows[i]));
        assert(chosen.contains(rows[i]));
    }
    assert forall|k: int|
        0 <= k < s.runs.len() && (#[trigger] s.runs[k]).run.status.active() implies list.contains(
        s.runs[k].run,
    ) by {
        lemma_select_keeps(s.runs, run_is_active(), s.runs[k]);
        assert(rows.contains(s.runs[k]));
        let i = choose|i: int| 0 <= i < rows.len() && rows[i] == s.runs[k];
        assert(list[i] == s.runs[k].run);
    }
}

/// The runs of whose end some step left no mark are listed once each, by the text of the time of their
/// intents and then by name.
pub proof fn law_unreconciled_runs_ascend(s: TablesModel)
    requires
        s.valid(),
    ensures
        ({
            let rows = ordered(select(s.terminals, unreconciled()), intended_order());
            &&& s.unreconciled_runs() == rows.map_values(terminal_run_id())
            &&& forall|i: int, j: int|
                0 <= i < j < rows.len() ==> text_then_text(
                    (#[trigger] rows[i]).intended_at,
                    rows[i].run_id,
                    (#[trigger] rows[j]).intended_at,
                    rows[j].run_id,
                )
            &&& forall|row: TerminalRowModel| #[trigger]
                rows.contains(row) <==> s.terminals.contains(row) && unreconciled()(row)
        }),
{
    let rows = ordered(select(s.terminals, unreconciled()), intended_order());
    lemma_intended_order(unreconciled());
    law_listing_ascends(s.terminals, unreconciled(), intended_order(), terminal_key());
    assert forall|i: int, j: int| 0 <= i < j < rows.len() implies text_then_text(
        (#[trigger] rows[i]).intended_at,
        rows[i].run_id,
        (#[trigger] rows[j]).intended_at,
        rows[j].run_id,
    ) by {
        assert(intended_order()(rows[i], rows[j]));
    }
}

/// The launches in some states are listed once each, by the time of their creation, then by run and
/// then by epoch.
pub proof fn law_launches_ascend(s: TablesModel, states: Seq<RunLaunchState>)
    requires
        s.valid(),
    ensures
        ({
            let list = s.launches_in_states(states);
            &&& forall|i: int, j: int|
                0 <= i < j < list.len() ==> time_then_text(
                    (#[trigger] list[i]).created_at,
                    list[i].run_id,
                    (#[trigger] list[j]).created_at,
                    list[j].run_id,
                ) || (list[i].created_at == list[j].created_at && list[i].run_id == list[j].run_id
                    && list[i].execution_epoch < list[j].execution_epoch)
            &&& forall|row: RunLaunchIntentModel| #[trigger]
                list.contains(row) <==> s.launches.contains(row) && states.contains(row.state)
        }),
{
    let list = s.launches_in_states(states);
    let before = launch_order();
    let p = launch_in_states(states);
    assert forall|a: RunLaunchIntentModel, b: RunLaunchIntentModel| #[trigger]
        before(a, b) implies !before(b, a) by {
        lemma_time_then_text(a.created_at, a.run_id, b.created_at, b.run_id, b.created_at, b.run_id);
    }
    assert forall|a: RunLaunchIntentModel, b: RunLaunchIntentModel, c: RunLaunchIntentModel|
        !(#[trigger] before(b, a)) && !(#[trigger] before(c, b)) implies !before(c, a) by {
        lemma_time_then_text(a.created_at, a.run_id, b.created_at, b.run_id, c.created_at, c.run_id);
        lemma_time_then_text(b.created_at, b.run_id, c.created_at, c.run_id, a.created_at, a.run_id);
        lemma_time_then_text(c.created_at, c.run_id, a.created_at, a.run_id, b.created_at, b.run_id);
    }
    assert forall|a: RunLaunchIntentModel, b: RunLaunchIntentModel|
        p(a) && p(b) && !(#[trigger] before(a, b)) && !before(b, a) implies launch_key()(a)
        == launch_key()(b) by {
        lemma_time_then_text(a.created_at, a.run_id, b.created_at, b.run_id, b.created_at, b.run_id);
    }
    law_listing_ascends(s.launches, p, before, launch_key());
    assert forall|i: int, j: int| 0 <= i < j < list.len() implies time_then_text(
        (#[trigger] list[i]).created_at,
        list[i].run_id,
        (#[trigger] list[j]).created_at,
        list[j].run_id,
    ) || (list[i].created_at == list[j].created_at && list[i].run_id == list[j].run_id
        && list[i].execution_epoch < list[j].execution_epoch) by {
        assert(before(list[i], list[j]));
    }
}

} // verus!
