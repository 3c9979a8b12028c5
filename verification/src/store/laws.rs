//! What holds of the store as a whole, over any state of its tables.
use super::attempts::{
    attempt_ended, attempt_interrupted, attempt_with_id, launch_branch, launch_id_order, launch_stem,
    launch_token_bound, launch_worktree, max_ordinal, open_attempt_of, run_running, tokenless,
};
use super::launches::{claims, latest_updated, reopened, terminal_of, terminal_of_other};
use super::merges::{merge_replaced, merge_with_id, prepared_of};
use super::progress::{
    awaiting_message, fresh_progress, progress_row_of, progress_set, terminal_phase,
};
use super::questions::{
    answered, pending_of, question_in_run, question_replaced, slice_advanced, stale_on, superseded,
    supersession_of, timed_out,
};
use super::replans::{budget_set, exact_event, followup_only, proposal_in_run, proposal_replaced, trimmed_or};
use super::runs::run_set;
use super::status::{
    event_of_run, read_source, read_sources, shown_events, source_at, source_of_run, source_order,
    source_set,
};
use super::terminal::{ended_question, ended_slice, slice_under_way, terminal_replaced};
use super::{ends_are_ends, question_key, run_has_id};
use crate::digest::text_digest;
use crate::domain::{
    DecisionCommandOutcome, FrontierBudgetStateModel, IntegrationMergeIntentModel,
    IntegrationMergePrepareOutcome, IntegrationMergeState, MissionEnvelopeModel,
    ReplanProposalState, RunAdmissionOutcome, RunModel, RunStatus, SliceRunModel,
    WorkerQuestionAnswerSource,
};
use crate::error::StoreError;
use crate::json::json_level;
use crate::payloads::{EventModel, EventPayloadModel};
use crate::rows::{
    AttemptRowModel, ProgressRowModel, QuestionRowModel, ReplanDecisionCommandModel,
    ReplanDecisionTransitionModel, RunRowModel, StepMarkModel,
    StatusSourceRowModel, StatusSourceSnapshotModel, TablesModel, TerminalRowModel, WorkerQuestionDecisionCommandModel,
};
use crate::table::{
    any, first, lemma_first_any, lemma_first_map, lemma_first_push, lemma_none_after,
    lemma_ordered_len, lemma_ordered_rows, lemma_select_any, lemma_select_from, lemma_select_keeps,
    ordered, select,
};
use crate::text::{decimal_int, lemma_decimal_digits, lemma_decimal_injective, path_join};
use crate::time::Timestamp;
use vstd::prelude::*;

verus! {

/// Events of questions change nothing but the log.
pub(super) proof fn lemma_question_events_only(
    s: TablesModel,
    run_id: Seq<char>,
    rows: Seq<QuestionRowModel>,
    payload: spec_fn(QuestionRowModel) -> EventPayloadModel,
    now: Timestamp,
)
    ensures
        ({
            let after = s.with_question_events(run_id, rows, payload, now);
            after == (TablesModel {
                events: after.events,
                last_event_id: after.last_event_id,
                ..s
            })
        }),
    decreases rows.len(),
{
    if rows.len() > 0 {
        lemma_question_events_only(s, run_id, rows.drop_last(), payload, now);
    }
}

/// Interrupting the launches of a run changes nothing but the launches and the log.
pub(super) proof fn lemma_interruption_only(
    s: TablesModel,
    run_id: Seq<char>,
    reason: Seq<char>,
    status: RunStatus,
    now: Timestamp,
)
    ensures
        ({
            let after = s.interrupt_attempts(run_id, reason, status, now);
            after == (TablesModel {
                attempts: s.attempts.map_values(attempt_interrupted(run_id, reason, now)),
                events: after.events,
                last_event_id: after.last_event_id,
                ..s
            })
        }),
{
    let interrupted = TablesModel {
        attempts: s.attempts.map_values(attempt_interrupted(run_id, reason, now)),
        ..s
    };
    lemma_interruption_events_only(
        interrupted,
        run_id,
        s.open_attempts(run_id),
        reason,
        status,
        now,
    );
}

pub(super) proof fn lemma_interruption_events_only(
    s: TablesModel,
    run_id: Seq<char>,
    rows: Seq<AttemptRowModel>,
    reason: Seq<char>,
    status: RunStatus,
    now: Timestamp,
)
    ensures
        ({
            let after = s.with_interruptions(run_id, rows, reason, status, now);
            after == (TablesModel {
                events: after.events,
                last_event_id: after.last_event_id,
                ..s
            })
        }),
    decreases rows.len(),
{
    if rows.len() > 0 {
        lemma_interruption_events_only(s, run_id, rows.drop_last(), reason, status, now);
    }
}

/// The recording of an intent leaves the runs alone and adds one intent.
pub(super) proof fn lemma_end_run(
    s: TablesModel,
    run_id: Seq<char>,
    status: RunStatus,
    error: Seq<char>,
    progress_message: Seq<char>,
    reason: Seq<char>,
    now: Timestamp,
)
    ensures
        ({
            let after = s.end_run(run_id, status, error, progress_message, reason, now);
            &&& after.runs == s.runs
            &&& after.terminals == s.terminals.push(
                TerminalRowModel {
                    run_id,
                    status,
                    error,
                    progress_message,
                    question_interruption_reason: reason,
                    intended_at: now.text(),
                    summary_written_at: StepMarkModel::NotMade,
                    committed_at: StepMarkModel::NotMade,
                    notification_bookkept_at: StepMarkModel::NotMade,
                    cleanup_started_at: StepMarkModel::NotMade,
                    cleanup_completed_at: StepMarkModel::NotMade,
                },
            )
            &&& after.questions == s.questions.map_values(ended_question(run_id, reason, now))
            &&& after.attempts == s.attempts.map_values(
                attempt_interrupted(run_id, reason, now),
            )
            &&& after.slices == s.slices.map_values(
                ended_slice(
                    run_id,
                    super::terminal::ended_slice_status(status),
                    super::terminal::ended_slice_error(error, reason),
                ),
            )
            &&& after.launches == s.launches
        }),
{
    let intended = TablesModel {
        terminals: s.terminals.push(
            TerminalRowModel {
                run_id,
                status,
                error,
                progress_message,
                question_interruption_reason: reason,
                intended_at: now.text(),
                summary_written_at: StepMarkModel::NotMade,
                committed_at: StepMarkModel::NotMade,
                notification_bookkept_at: StepMarkModel::NotMade,
                cleanup_started_at: StepMarkModel::NotMade,
                cleanup_completed_at: StepMarkModel::NotMade,
            },
        ),
        questions: s.questions.map_values(ended_question(run_id, reason, now)),
        slices: s.slices.map_values(
            ended_slice(
                run_id,
                super::terminal::ended_slice_status(status),
                super::terminal::ended_slice_error(error, reason),
            ),
        ),
        ..s
    };
    let announced = intended.with_event(
        run_id,
        "terminal_transition_intended"@,
        EventPayloadModel::TerminalTransitionIntended(
            crate::payloads::TerminalTransitionIntendedPayloadModel {
                status,
                error,
                progress_message,
                question_interruption_reason: reason,
            },
        ),
        now,
    );
    let payload = super::terminal::ended_question_event(reason, status);
    lemma_question_events_only(announced, run_id, s.pending_questions(run_id), payload, now);
    let told = announced.with_question_events(
        run_id,
        s.pending_questions(run_id),
        payload,
        now,
    );
    lemma_interruption_only(told, run_id, reason, status, now);
}

/// Where a run has no open launch, interrupting its launches changes nothing.
pub(super) proof fn lemma_nothing_to_interrupt(
    s: TablesModel,
    run_id: Seq<char>,
    reason: Seq<char>,
    status: RunStatus,
    now: Timestamp,
)
    requires
        !any(s.attempts, open_attempt_of(run_id)),
    ensures
        s.open_attempts(run_id).len() == 0,
        s.interrupt_attempts(run_id, reason, status, now) == s,
{
    let g = attempt_interrupted(run_id, reason, now);
    lemma_select_any(s.attempts, open_attempt_of(run_id));
    lemma_ordered_len(select(s.attempts, open_attempt_of(run_id)), launch_id_order());
    assert forall|i: int| 0 <= i < s.attempts.len() implies g(#[trigger] s.attempts[i])
        == s.attempts[i] by {
        assert(!open_attempt_of(run_id)(s.attempts[i]));
    }
    assert(s.attempts.map_values(g) =~= s.attempts);
}

/// Once the launches of a run are interrupted, none of them is open.
pub(super) proof fn lemma_none_open(
    attempts: Seq<AttemptRowModel>,
    run_id: Seq<char>,
    reason: Seq<char>,
    now: Timestamp,
)
    ensures
        !any(
            attempts.map_values(attempt_interrupted(run_id, reason, now)),
            open_attempt_of(run_id),
        ),
{
    reveal_strlit("interrupted");
    reveal_strlit("allocated");
    reveal_strlit("running");
    assert("interrupted"@.len() == 11 && "allocated"@.len() == 9 && "running"@.len() == 7);
    lemma_none_after(
        attempts,
        attempt_interrupted(run_id, reason, now),
        open_attempt_of(run_id),
    );
}

/// The first intent to end a run stays: the same intent again is accepted, interrupts nothing and
/// changes nothing, and a different one is refused.
pub proof fn law_terminal_intent_is_final(
    s: TablesModel,
    run_id: Seq<char>,
    status: RunStatus,
    error: Seq<char>,
    progress_message: Seq<char>,
    reason: Seq<char>,
    now: Timestamp,
    other_status: RunStatus,
    other_error: Seq<char>,
    other_message: Seq<char>,
    other_reason: Seq<char>,
    later: Timestamp,
)
    requires
        s.prepare_terminal(run_id, status, error, progress_message, reason, now) is Ok,
        !other_status.active(),
    ensures
        ({
            let after = s.prepare_terminal(
                run_id,
                status,
                error,
                progress_message,
                reason,
                now,
            )->Ok_0.1;
            let again = after.prepare_terminal(
                run_id,
                other_status,
                other_error,
                other_message,
                other_reason,
                later,
            );
            &&& after.terminal_row(run_id) matches Some(row) && row.status == status && row.error
                == error && row.progress_message == progress_message
                && row.question_interruption_reason == reason
            &&& if other_status == status && other_error == error && other_message
                == progress_message && other_reason == reason {
                again == Ok::<(nat, TablesModel), StoreError>((0, after))
            } else {
                again == Err::<(nat, TablesModel), StoreError>(StoreError::TerminalIntentConflict)
            }
        }),
{
    let after = s.prepare_terminal(run_id, status, error, progress_message, reason, now)->Ok_0.1;
    if s.terminal_row(run_id) is Some {
        lemma_interruption_only(s, run_id, reason, status, now);
    } else {
        lemma_end_run(s, run_id, status, error, progress_message, reason, now);
        lemma_first_any(s.terminals, terminal_of(run_id));
        lemma_first_push(
            s.terminals,
            after.terminals[after.terminals.len() - 1],
            terminal_of(run_id),
        );
    }
    lemma_none_open(s.attempts, run_id, reason, now);
    lemma_nothing_to_interrupt(after, run_id, reason, status, later);
}

/// Once the intent to end a run is recorded, nothing in the run waits or works any more: no question
/// is pending, no launch is open and no slice is under way. The run keeps its claim until its end is
/// published.
pub proof fn law_recorded_intent_silences_the_run(
    s: TablesModel,
    run_id: Seq<char>,
    status: RunStatus,
    error: Seq<char>,
    progress_message: Seq<char>,
    reason: Seq<char>,
    now: Timestamp,
)
    requires
        s.prepare_terminal(run_id, status, error, progress_message, reason, now) is Ok,
        s.terminal_row(run_id) is None,
    ensures
        ({
            let after = s.prepare_terminal(
                run_id,
                status,
                error,
                progress_message,
                reason,
                now,
            )->Ok_0.1;
            &&& !any(after.questions, pending_of(run_id))
            &&& !any(after.attempts, open_attempt_of(run_id))
            &&& !any(
                after.slices,
                |slice: SliceRunModel| slice.run_id == run_id && slice_under_way(slice.status),
            )
            &&& after.runs == s.runs
        }),
{
    lemma_end_run(s, run_id, status, error, progress_message, reason, now);
    reveal_strlit("pending");
    reveal_strlit("interrupted");
    reveal_strlit("allocated");
    reveal_strlit("running");
    assert("interrupted"@.len() == 11 && "pending"@.len() == 7 && "allocated"@.len() == 9
        && "running"@.len() == 7);
    lemma_none_after(s.questions, ended_question(run_id, reason, now), pending_of(run_id));
    lemma_none_after(
        s.attempts,
        attempt_interrupted(run_id, reason, now),
        open_attempt_of(run_id),
    );
    lemma_none_after(
        s.slices,
        ended_slice(
            run_id,
            super::terminal::ended_slice_status(status),
            super::terminal::ended_slice_error(error, reason),
        ),
        |slice: SliceRunModel| slice.run_id == run_id && slice_under_way(slice.status),
    );
}

/// A changed intent is the one that is found afterwards, and those of other runs stay.
pub(super) proof fn lemma_terminal_replaced(s: TablesModel, row: TerminalRowModel, run_id: Seq<char>)
    requires
        s.terminal_row(row.run_id) is Some,
    ensures
        s.with_terminal(row).terminal_row(run_id) == if run_id == row.run_id {
            Some(row)
        } else {
            s.terminal_row(run_id)
        },
{
    let g = terminal_replaced(row.run_id, row);
    lemma_first_map(s.terminals, g, terminal_of(run_id));
    lemma_first_any(s.terminals, terminal_of(run_id));
}

/// The steps of an end come in their order: the end is published after the summary, the notification
/// is booked after the publication, the cleanup is claimed after both, and completed after the claim.
pub proof fn law_steps_of_an_end_are_ordered(
    s: TablesModel,
    run_id: Seq<char>,
    event_type: Seq<char>,
    payload: EventPayloadModel,
    now: Timestamp,
)
    ensures
        s.commit_terminal(run_id, event_type, payload, now) is Ok ==> s.terminal_row(run_id) is Some
            && (s.terminal_row(run_id)->0).summary_written_at is Made,
        s.bookkeep_notification(run_id, now) is Ok ==> s.terminal_row(run_id) is Some && (
        s.terminal_row(run_id)->0).committed_at is Made,
        s.claim_cleanup(run_id, now) is Ok ==> s.terminal_row(run_id) is Some && (s.terminal_row(
            run_id,
        )->0).committed_at is Made && (s.terminal_row(run_id)->0).notification_bookkept_at is Made,
        s.complete_cleanup(run_id, event_type, payload, now) is Ok ==> s.terminal_row(
            run_id,
        ) is Some && (s.terminal_row(run_id)->0).cleanup_started_at is Made,
{
}

/// A summary is marked once, a notification is booked once, and a cleanup is claimed and completed
/// once: the same step again answers no and changes nothing.
pub proof fn law_steps_of_an_end_are_made_once(
    s: TablesModel,
    run_id: Seq<char>,
    event_type: Seq<char>,
    payload: EventPayloadModel,
    now: Timestamp,
    later: Timestamp,
)
    requires
        s.valid(),
    ensures
        s.write_summary(run_id, event_type, payload, now) matches Ok((_, after))
            ==> after.write_summary(run_id, event_type, payload, later) == Ok::<
            (bool, TablesModel),
            StoreError,
        >((false, after)),
        s.bookkeep_notification(run_id, now) matches Ok((_, after))
            ==> after.bookkeep_notification(run_id, later) == Ok::<(bool, TablesModel), StoreError>(
            (false, after),
        ),
        s.claim_cleanup(run_id, now) matches Ok((_, after)) ==> after.claim_cleanup(run_id, later)
            == Ok::<(bool, TablesModel), StoreError>((false, after)),
        s.complete_cleanup(run_id, event_type, payload, now) matches Ok((_, after))
            ==> after.complete_cleanup(run_id, event_type, payload, later) == Ok::<
            (bool, TablesModel),
            StoreError,
        >((false, after)),
{
    lemma_first_any(s.terminals, terminal_of(run_id));
    if s.terminal_row(run_id) is Some {
        let row = s.terminal_row(run_id)->0;
        lemma_terminal_replaced(
            s,
            TerminalRowModel { summary_written_at: StepMarkModel::at(now), ..row },
            run_id,
        );
        lemma_terminal_replaced(
            s,
            TerminalRowModel { notification_bookkept_at: StepMarkModel::at(now), ..row },
            run_id,
        );
        lemma_terminal_replaced(
            s,
            TerminalRowModel { cleanup_started_at: StepMarkModel::at(now), ..row },
            run_id,
        );
        lemma_terminal_replaced(
            s,
            TerminalRowModel { cleanup_completed_at: StepMarkModel::at(now), ..row },
            run_id,
        );
    }
}

/// The publication of an end gives the run the status and the error of its intent, which frees the
/// claim on the repository where that status is an end. Published again it changes nothing, and no
/// further event is recorded.
pub proof fn law_end_is_published_once(
    s: TablesModel,
    run_id: Seq<char>,
    event_type: Seq<char>,
    payload: EventPayloadModel,
    now: Timestamp,
    later: Timestamp,
)
    requires
        s.valid(),
        s.commit_terminal(run_id, event_type, payload, now) matches Ok((true, _)),
    ensures
        ({
            let intent = s.terminal_row(run_id)->0;
            let after = s.commit_terminal(run_id, event_type, payload, now)->Ok_0.1;
            &&& after.run_row(run_id) matches Some(run) && run.run.status == intent.status
                && run.run.error == intent.error && (ends_are_ends(s.terminals)
                ==> !run.run.status.active())
            &&& after.commit_terminal(run_id, event_type, payload, later) == Ok::<
                (bool, TablesModel),
                StoreError,
            >((false, after))
        }),
{
    let row = s.terminal_row(run_id)->0;
    let run = s.run_row(run_id)->0;
    lemma_first_any(s.terminals, terminal_of(run_id));
    let i = choose|i: int| 0 <= i < s.terminals.len() && s.terminals[i] == row;
    assert(ends_are_ends(s.terminals) ==> !s.terminals[i].status.active());
    lemma_interruption_only(s, run_id, row.question_interruption_reason, row.status, now);
    let quiet = s.interrupt_attempts(run_id, row.question_interruption_reason, row.status, now);
    let after = quiet.publish(run_id, run.execution_epoch, row, event_type, payload, now);
    let g = run_set(run_id, row.status, row.error, now);
    lemma_first_map(s.runs, g, run_has_id(run_id));
    lemma_first_any(s.runs, run_has_id(run_id));
    let done = TerminalRowModel { committed_at: StepMarkModel::at(now), ..row };
    lemma_terminal_replaced(quiet, done, run_id);
    assert(after.runs == s.runs.map_values(g));
    assert(after.terminals == quiet.with_terminal(done).terminals);
    lemma_none_open(s.attempts, run_id, row.question_interruption_reason, now);
    lemma_nothing_to_interrupt(
        after,
        run_id,
        row.question_interruption_reason,
        row.status,
        later,
    );
}

/// Where every recorded end is an end, so it is after a further intent and after a publication.
pub proof fn law_ends_stay_ends(
    s: TablesModel,
    run_id: Seq<char>,
    status: RunStatus,
    error: Seq<char>,
    progress_message: Seq<char>,
    reason: Seq<char>,
    event_type: Seq<char>,
    payload: EventPayloadModel,
    now: Timestamp,
)
    requires
        ends_are_ends(s.terminals),
    ensures
        s.prepare_terminal(run_id, status, error, progress_message, reason, now) matches Ok(
            (_, after),
        ) ==> ends_are_ends(after.terminals),
        s.commit_terminal(run_id, event_type, payload, now) matches Ok((_, after))
            ==> ends_are_ends(after.terminals),
{
    lemma_interruption_only(s, run_id, reason, status, now);
    lemma_end_run(s, run_id, status, error, progress_message, reason, now);
    if let Some(row) = s.terminal_row(run_id) {
        lemma_first_any(s.terminals, terminal_of(run_id));
        let i = choose|i: int| 0 <= i < s.terminals.len() && s.terminals[i] == row;
        assert(!s.terminals[i].status.active());
        lemma_interruption_only(s, run_id, row.question_interruption_reason, row.status, now);
        let done = TerminalRowModel { committed_at: StepMarkModel::at(now), ..row };
        let g = terminal_replaced(row.run_id, done);
        assert forall|i: int| 0 <= i < s.terminals.len() implies !(#[trigger] s.terminals.map_values(
            g,
        )[i]).status.active() by {
            assert(!s.terminals[i].status.active());
        }
    }
}

/// The active run that is found is a run of the repository that claims it.
pub(super) proof fn lemma_active_found(s: TablesModel, repo_id: Seq<char>, exclude: Option<Seq<char>>)
    ensures
        s.active_run_for_repo(repo_id, exclude) is Some <==> any(s.runs, claims(repo_id, exclude)),
        s.active_run_for_repo(repo_id, exclude) matches Some(run) ==> run.repo_id == repo_id
            && run.status.active() && Some(run.id) != exclude && exists|i: int|
            0 <= i < s.runs.len() && (#[trigger] s.runs[i]).run == run,
{
    let chosen = select(s.runs, claims(repo_id, exclude));
    let found = ordered(chosen, latest_updated());
    lemma_select_any(s.runs, claims(repo_id, exclude));
    lemma_ordered_len(chosen, latest_updated());
    if found.len() > 0 {
        lemma_ordered_rows(chosen, latest_updated());
        assert(found.contains(found[0]));
        assert(chosen.contains(found[0]));
        lemma_select_from(s.runs, claims(repo_id, exclude));
        let k = choose|k: int| 0 <= k < chosen.len() && chosen[k] == found[0];
        assert(s.runs.contains(chosen[k]));
        let i = choose|i: int| 0 <= i < s.runs.len() && s.runs[i] == chosen[k];
        assert(s.runs[i].run == found[0].run);
    }
}

/// A repository admits one run at a time. Whoever comes after an admission is told of the active
/// run and changes nothing; where the admission was granted, that active run is the admitted one.
pub proof fn law_admission_has_one_winner(
    s: TablesModel,
    run: RunModel,
    slice_runs: Seq<SliceRunModel>,
    mission_envelope: Option<MissionEnvelopeModel>,
    frontier_budget: Option<FrontierBudgetStateModel>,
    integration_worktree: Seq<char>,
    other: RunModel,
    other_slice_runs: Seq<SliceRunModel>,
    other_envelope: Option<MissionEnvelopeModel>,
    other_budget: Option<FrontierBudgetStateModel>,
    other_worktree: Seq<char>,
)
    requires
        s.admit_run_refusal(run) is None,
        other.status == RunStatus::Pending,
        other.repo_id == run.repo_id,
    ensures
        ({
            let granted = s.admit_run_answer(run, integration_worktree).outcome
                == RunAdmissionOutcome::Prepared;
            let after = s.admit_run(
                run,
                slice_runs,
                mission_envelope,
                frontier_budget,
                integration_worktree,
            );
            let answer = after.admit_run_answer(other, other_worktree);
            &&& after.admit_run_refusal(other) is None
            &&& answer.outcome == RunAdmissionOutcome::Conflict
            &&& answer.active_run matches Some(active) && active.repo_id == run.repo_id
                && active.status.active()
            &&& granted ==> answer.active_run == Some(run)
            &&& after.admit_run(
                other,
                other_slice_runs,
                other_envelope,
                other_budget,
                other_worktree,
            ) == after
        }),
{
    let after = s.admit_run(
        run,
        slice_runs,
        mission_envelope,
        frontier_budget,
        integration_worktree,
    );
    if s.active_run_for_repo(run.repo_id, None) is None {
        let p = claims(run.repo_id, None::<Seq<char>>);
        let row = RunRowModel { run, execution_epoch: 1, mission_envelope, frontier_budget };
        assert(after.runs == s.runs.push(row));
        let before = select(s.runs, p);
        lemma_ordered_len(before, latest_updated());
        assert(s.runs.push(row).drop_last() =~= s.runs);
        assert(select(after.runs, p) == before.push(row));
        assert(before.push(row).drop_last() =~= before);
        assert(ordered(before, latest_updated()) =~= Seq::empty());
        assert(ordered(before.push(row), latest_updated()) =~= seq![row]);
    } else {
        lemma_active_found(s, run.repo_id, None);
    }
}

/// A resume takes the next epoch and has one winner: the run is pending again in the epoch after
/// its last one, with the record of its earlier end gone, and whoever asks to resume it next is told
/// that it is active, and changes nothing.
pub proof fn law_resume_has_one_winner(
    s: TablesModel,
    run_id: Seq<char>,
    integration_worktree: Seq<char>,
    now: Timestamp,
    other_worktree: Seq<char>,
    later: Timestamp,
)
    requires
        s.begin_resume_refusal(run_id) is None,
        s.begin_resume_answer(run_id, integration_worktree, now).outcome
            == RunAdmissionOutcome::Prepared,
    ensures
        ({
            let before = s.run_row(run_id)->0;
            let intent = s.begin_resume_answer(run_id, integration_worktree, now).intent;
            let after = s.begin_resume(run_id, integration_worktree, now);
            let again = after.begin_resume_answer(run_id, other_worktree, later);
            &&& after.run_row(run_id) matches Some(row) && {
                &&& row.execution_epoch == TablesModel::next_epoch(before)
                &&& row.execution_epoch > before.execution_epoch
                &&& row.run.status == RunStatus::Pending
                &&& intent matches Some(prepared) && prepared.execution_epoch == row.execution_epoch
                    && prepared.prior_status == Some(before.run.status) && prepared.prior_error
                    == before.run.error
                &&& again.outcome == RunAdmissionOutcome::Conflict
                &&& again.active_run == Some(row.run)
            }
            &&& after.terminal_row(run_id) is None
            &&& after.begin_resume_refusal(run_id) is None
            &&& after.begin_resume(run_id, other_worktree, later) == after
        }),
{
    let before = s.run_row(run_id)->0;
    let epoch = TablesModel::next_epoch(before) as i64;
    lemma_first_map(s.runs, reopened(run_id, epoch, now), run_has_id(run_id));
    lemma_first_any(s.runs, run_has_id(run_id));
    let kept = select(s.terminals, terminal_of_other(run_id));
    lemma_select_from(s.terminals, terminal_of_other(run_id));
    lemma_first_any(kept, terminal_of(run_id));
}

/// A question is resolved once. The command that resolved it is answered as applied before, any
/// other command is turned away, and neither changes anything.
pub proof fn law_question_is_resolved_once(
    s: TablesModel,
    run_id: Seq<char>,
    question_id: Seq<char>,
    command: WorkerQuestionDecisionCommandModel,
    now: Timestamp,
    other: WorkerQuestionDecisionCommandModel,
    later: Timestamp,
)
    requires
        s.valid(),
        s.decide_question(run_id, question_id, command, now) matches Ok((transition, _))
            && transition.outcome == DecisionCommandOutcome::Applied,
    ensures
        ({
            let resolved = s.decide_question(run_id, question_id, command, now)->Ok_0.0.question;
            let after = s.decide_question(run_id, question_id, command, now)->Ok_0.1;
            &&& resolved is Some
            &&& resolved->0.state != "pending"@
            &&& after.question_row(question_id, run_id) matches Some(row) && row.question
                == resolved->0
            &&& match after.decide_question(run_id, question_id, other, later) {
                Ok((again, unchanged)) => {
                    &&& unchanged == after
                    &&& again.question == resolved
                    &&& again.outcome == if other == command {
                        DecisionCommandOutcome::AlreadyAppliedIdempotently
                    } else if other matches WorkerQuestionDecisionCommandModel::Timeout {
                        expected_launch_id,
                        ..
                    } && expected_launch_id != resolved->0.launch_id {
                        DecisionCommandOutcome::StaleToken
                    } else {
                        DecisionCommandOutcome::Conflict
                    }
                },
                Err(_) => false,
            }
        }),
{
    let row = s.question_row(question_id, run_id)->0;
    let after = s.decide_question(run_id, question_id, command, now)->Ok_0.1;
    lemma_first_any(s.questions, question_in_run(question_id, run_id));
    reveal_strlit("pending");
    reveal_strlit("answered");
    reveal_strlit("timed_out");
    reveal_strlit("interrupted");
    assert("pending"@.len() == 7 && "answered"@.len() == 8 && "timed_out"@.len() == 9
        && "interrupted"@.len() == 11);
    let new_row = match command {
        WorkerQuestionDecisionCommandModel::Answer { answer, answer_source, .. } => answered(
            row,
            answer,
            answer_source,
            command,
            now,
        ),
        WorkerQuestionDecisionCommandModel::Timeout { apply_recommendation_at_deadline, .. } =>
        if TablesModel::applies_recommendation(
            row.question,
            apply_recommendation_at_deadline,
            now,
        ) {
            answered(
                row,
                row.question.recommended_answer,
                WorkerQuestionAnswerSource::LlmRecommendationTimeout,
                command,
                now,
            )
        } else {
            timed_out(row, command, now)
        },
    };
    let g = question_replaced(question_id, new_row);
    let p = question_in_run(question_id, run_id);
    assert(after.questions == s.questions.map_values(g));
    assert forall|i: int| 0 <= i < s.questions.len() implies p(g(#[trigger] s.questions[i])) == p(
        s.questions[i],
    ) by {
        let k = choose|k: int| 0 <= k < s.questions.len() && s.questions[k] == row;
        assert(s.questions[k].question.id == question_id);
        if s.questions[i].question.id == question_id {
            assert(question_key()(s.questions[i]) == question_key()(s.questions[k]));
        }
    }
    lemma_first_map(s.questions, g, p);
}

/// A worker that is no longer active gets no answer: a command on its pending question finds it
/// stale, and an answer leaves everything as it was.
pub proof fn law_inactive_worker_gets_no_answer(
    s: TablesModel,
    run_id: Seq<char>,
    question_id: Seq<char>,
    command: WorkerQuestionDecisionCommandModel,
    now: Timestamp,
)
    requires
        s.question_row(question_id, run_id) matches Some(row) && row.question.state == "pending"@
            && !s.attempt_is_active(
            run_id,
            row.question.slice_id,
            row.question.attempt,
            row.question.launch_id,
        ),
    ensures
        match s.decide_question(run_id, question_id, command, now) {
            Ok((transition, after)) => {
                &&& transition.outcome == DecisionCommandOutcome::StaleToken
                &&& command is Answer ==> after == s
            },
            Err(refusal) => command is Timeout && refusal == StoreError::EventLogFull,
        },
{
}

/// A recommendation stands in for the operator at the deadline and not before: whatever command
/// applies one, the question allowed it, its deadline had come, and the answer is the recommended
/// one.
pub proof fn law_no_fallback_before_the_deadline(
    s: TablesModel,
    run_id: Seq<char>,
    question_id: Seq<char>,
    command: WorkerQuestionDecisionCommandModel,
    now: Timestamp,
)
    requires
        s.decide_question(run_id, question_id, command, now) matches Ok((transition, _))
            && transition.outcome == DecisionCommandOutcome::Applied,
        (s.decide_question(run_id, question_id, command, now)->Ok_0.0.question->0).answer_source
            == Some(WorkerQuestionAnswerSource::LlmRecommendationTimeout),
        s.question_row(question_id, run_id) matches Some(row) && row.question.answer_source is None,
    ensures
        ({
            let question = s.question_row(question_id, run_id)->0.question;
            let resolved = s.decide_question(run_id, question_id, command, now)->Ok_0.0.question->0;
            &&& question.fallback_eligible
            &&& question.recommendation().eligible(question.options)
            &&& question.deadline_at matches Some(deadline) && !now.lt(deadline)
            &&& resolved.answer == question.recommended_answer
        }),
{
}

/// Once an attempt of a slice is active, no question of another attempt of it is pending.
pub proof fn law_new_attempt_supersedes_questions(
    s: TablesModel,
    run_id: Seq<char>,
    slice_id: Seq<char>,
    attempt: usize,
    now: Timestamp,
)
    ensures
        !any(
            s.activate_attempt(run_id, slice_id, attempt, now).questions,
            stale_on(run_id, slice_id, attempt),
        ),
{
    let advanced = TablesModel {
        slices: s.slices.map_values(slice_advanced(run_id, slice_id, attempt)),
        questions: s.questions.map_values(superseded(run_id, slice_id, attempt, now)),
        ..s
    };
    lemma_question_events_only(
        advanced,
        run_id,
        s.stale_questions(run_id, slice_id, attempt),
        supersession_of(slice_id, attempt),
        now,
    );
    reveal_strlit("pending");
    reveal_strlit("interrupted");
    assert("interrupted"@.len() == 11 && "pending"@.len() == 7);
    lemma_none_after(
        s.questions,
        superseded(run_id, slice_id, attempt, now),
        stale_on(run_id, slice_id, attempt),
    );
}

/// A progress report cannot hide a pending question: what is shown afterwards waits for the
/// operator, on the attempt that asked.
pub proof fn law_pending_question_stays_visible(
    s: TablesModel,
    run_id: Seq<char>,
    phase: Seq<char>,
    slice_id: Seq<char>,
    attempt: usize,
    command: Seq<char>,
    message: Seq<char>,
    output_tail: Seq<char>,
    now: Timestamp,
)
    requires
        s.pending_question(run_id) is Some,
        s.shows_waiting(
            run_id,
            (s.pending_question(run_id)->0).slice_id,
            (s.pending_question(run_id)->0).attempt,
        ) || !s.progress_write_rejected(run_id, phase),
    ensures
        s.update_progress(
            run_id,
            phase,
            slice_id,
            attempt,
            command,
            message,
            output_tail,
            now,
        ).shows_waiting(
            run_id,
            (s.pending_question(run_id)->0).slice_id,
            (s.pending_question(run_id)->0).attempt,
        ),
{
    let question = s.pending_question(run_id)->0;
    lemma_progress_found(
        s,
        fresh_progress(
            run_id,
            "awaiting_operator"@,
            question.slice_id,
            question.attempt,
            "ask_operator"@,
            awaiting_message(question.id),
            Seq::empty(),
            now,
            now,
        ),
    );
}

/// The progress that is written is the progress that is found.
pub(super) proof fn lemma_progress_found(s: TablesModel, row: ProgressRowModel)
    ensures
        s.with_progress(row).progress_row(row.run_id) == Some(row),
{
    let p = progress_row_of(row.run_id);
    if any(s.progress, p) {
        let g = |old_row: ProgressRowModel|
            if p(old_row) {
                progress_set(row)(old_row)
            } else {
                old_row
            };
        lemma_first_map(s.progress, g, p);
        lemma_first_any(s.progress, p);
    } else {
        lemma_first_push(s.progress, row, p);
    }
}

/// The progress of an ended run stays until the run starts or resumes, ends otherwise or awaits a
/// new plan.
pub proof fn law_ended_progress_stays(
    s: TablesModel,
    run_id: Seq<char>,
    phase: Seq<char>,
    slice_id: Seq<char>,
    attempt: usize,
    command: Seq<char>,
    message: Seq<char>,
    output_tail: Seq<char>,
    now: Timestamp,
)
    requires
        s.progress_row(run_id) matches Some(row) && terminal_phase(row.phase),
        !terminal_phase(phase),
        phase != "started"@ && phase != "resumed"@ && phase != "awaiting_replan"@,
    ensures
        s.update_progress(
            run_id,
            phase,
            slice_id,
            attempt,
            command,
            message,
            output_tail,
            now,
        ) == s,
{
}

/// A proposal is decided once. Repeating the decision is answered as applied before, a decision
/// that differs is a conflict, and neither changes anything. (A decision by policy is repeated with
/// the policy as its source.)
pub proof fn law_proposal_is_decided_once(
    s: TablesModel,
    run_id: Seq<char>,
    id: Seq<char>,
    command: ReplanDecisionCommandModel,
    now: Timestamp,
    other: ReplanDecisionCommandModel,
    later: Timestamp,
)
    requires
        s.decide_proposal(run_id, id, command, now) matches Ok((transition, _))
            && transition.outcome == DecisionCommandOutcome::Applied,
        other.refusal() is None,
        command.auto_accept is Some ==> trimmed_or(command.source, "daemon_ipc"@)
            == "frontier_policy"@,
    ensures
        ({
            let decided = s.decide_proposal(run_id, id, command, now)->Ok_0.0.proposal;
            let after = s.decide_proposal(run_id, id, command, now)->Ok_0.1;
            &&& decided is Some
            &&& after.proposal(run_id, id) == decided
            &&& decided->0.state == command.state
            &&& match after.decide_proposal(run_id, id, other, later) {
                Ok((again, unchanged)) => {
                    &&& unchanged == after
                    &&& again.proposal == decided
                    &&& other == command ==> again.outcome
                        == DecisionCommandOutcome::AlreadyAppliedIdempotently
                    &&& !other.matches(decided->0) ==> again.outcome
                        == DecisionCommandOutcome::Conflict
                    &&& other.state != command.state ==> again.outcome
                        == DecisionCommandOutcome::Conflict
                },
                Err(_) => false,
            }
        }),
{
    let existing = s.proposal(run_id, id)->0;
    let after = s.decide_proposal(run_id, id, command, now)->Ok_0.1;
    lemma_first_any(s.proposals, proposal_in_run(run_id, id));
    let decided = s.decided(existing, command, now);
    let g = proposal_replaced(run_id, id, decided);
    assert(after.proposals == s.proposals.map_values(g));
    lemma_first_map(s.proposals, g, proposal_in_run(run_id, id));
    if other == command {
        if command.auto_accept is Some && (command.auto_accept->0).record is Some {
            let auto_accept = command.auto_accept->0;
            let record = auto_accept.record->0;
            let n = after.events.len();
            let classified = exact_event(
                run_id,
                "frontier_classified"@,
                record.classified(id, auto_accept.classification),
            );
            let recorded = exact_event(
                run_id,
                "frontier_auto_accept_recorded"@,
                record.recorded(id, decided.operator_decision->0, auto_accept),
            );
            assert(classified(after.events[n - 2]));
            assert(recorded(after.events[n - 1]));
        }
        assert(command.matches(decided));
        assert(command.record_matches(after.events, decided));
    }
}

/// The frontier budget is not spent twice: after one decision by policy was applied, the stored budget
/// is the one that it counted up to, and another decision that counts from the same budget is not
/// applied and changes nothing. Where that one is valid and its proposal is pending, it is answered by
/// a conflict, and the proposal stays pending. (With both counters at their limit the budget does not
/// move, and a second decision could count from it.)
pub proof fn law_budget_is_not_spent_twice(
    s: TablesModel,
    run_id: Seq<char>,
    id: Seq<char>,
    command: ReplanDecisionCommandModel,
    now: Timestamp,
    other_id: Seq<char>,
    other: ReplanDecisionCommandModel,
    later: Timestamp,
)
    requires
        s.decide_proposal(run_id, id, command, now) matches Ok((transition, _))
            && transition.outcome == DecisionCommandOutcome::Applied,
        command.auto_accept is Some,
        other.auto_accept is Some,
        (other.auto_accept->0).budget_before == (command.auto_accept->0).budget_before,
        (command.auto_accept->0).budget_before.auto_promotions_used < u64::MAX || (
        command.auto_accept->0).budget_before.generated_slices < u64::MAX,
    ensures
        ({
            let after = s.decide_proposal(run_id, id, command, now)->Ok_0.1;
            let answer = after.decide_proposal(run_id, other_id, other, later);
            &&& after.run_row(run_id) matches Some(row) && row.frontier_budget == Some(
                (command.auto_accept->0).budget_after,
            )
            &&& answer matches Ok((again, unchanged)) ==> again.outcome
                != DecisionCommandOutcome::Applied && unchanged == after
            &&& other.refusal() is None ==> match after.proposal(run_id, other_id) {
                Some(pending) => pending.state == ReplanProposalState::Pending && followup_only(
                    pending,
                ) ==> answer == Ok::<(ReplanDecisionTransitionModel, TablesModel), StoreError>(
                    (
                        ReplanDecisionTransitionModel {
                            outcome: DecisionCommandOutcome::Conflict,
                            proposal: Some(pending),
                        },
                        after,
                    ),
                ),
                None => true,
            }
        }),
{
    let existing = s.proposal(run_id, id)->0;
    let after = s.decide_proposal(run_id, id, command, now)->Ok_0.1;
    lemma_first_any(s.proposals, proposal_in_run(run_id, id));
    let budget_after = (command.auto_accept->0).budget_after;
    let g = budget_set(run_id, budget_after, now);
    assert(after.runs == s.runs.map_values(g));
    lemma_first_map(s.runs, g, run_has_id(run_id));
    lemma_first_any(s.runs, run_has_id(run_id));
    assert(after.run_row(run_id) == Some(g(s.run_row(run_id)->0)));
}

/// The highest launch ordinal of a slice is at least that of each of its launches.
pub(super) proof fn lemma_max_ordinal(
    attempts: Seq<AttemptRowModel>,
    run_id: Seq<char>,
    slice_id: Seq<char>,
    i: int,
)
    requires
        0 <= i < attempts.len(),
        attempts[i].attempt.run_id == run_id,
        attempts[i].attempt.slice_id == slice_id,
    ensures
        attempts[i].attempt.launch_ordinal <= max_ordinal(attempts, run_id, slice_id),
    decreases attempts.len(),
{
    let rest = attempts.drop_last();
    if i < rest.len() {
        assert(rest[i] == attempts[i]);
        lemma_max_ordinal(rest, run_id, slice_id, i);
    }
}

/// Launches are numbered on: a new launch has a number above that of every launch before it, and an
/// ordinal above that of every launch of its slice, whatever the epoch; the launches before it stay
/// as they are.
pub proof fn law_launches_are_numbered_on(
    s: TablesModel,
    run_id: Seq<char>,
    slice_id: Seq<char>,
    execution_epoch: usize,
    worker_retry_ordinal: usize,
    repair_ordinal: usize,
    envelope_retry_ordinal: usize,
    kind: Seq<char>,
    worktree_root: Seq<char>,
    project_slice_run: bool,
    now: Timestamp,
)
    requires
        s.valid(),
        s.allocate_refusal(
            run_id,
            slice_id,
            execution_epoch,
            worker_retry_ordinal,
            kind,
            project_slice_run,
        ) is None,
    ensures
        ({
            let attempt = s.allocated(
                run_id,
                slice_id,
                execution_epoch,
                worker_retry_ordinal,
                repair_ordinal,
                envelope_retry_ordinal,
                kind,
                worktree_root,
                now,
            );
            let after = s.allocate(attempt, project_slice_run);
            &&& after.attempts.len() == s.attempts.len() + 1
            &&& after.attempts.last().attempt == attempt
            &&& after.attempts.drop_last() == s.attempts
            &&& forall|i: int|
                0 <= i < s.attempts.len() ==> (#[trigger] s.attempts[i]).attempt.launch_id
                    < attempt.launch_id
            &&& forall|i: int|
                0 <= i < s.attempts.len() && (#[trigger] s.attempts[i]).attempt.run_id == run_id
                    && s.attempts[i].attempt.slice_id == slice_id
                    ==> s.attempts[i].attempt.launch_ordinal < attempt.launch_ordinal
        }),
{
    assert forall|i: int|
        0 <= i < s.attempts.len() && (#[trigger] s.attempts[i]).attempt.run_id == run_id
            && s.attempts[i].attempt.slice_id == slice_id implies s.attempts[i].attempt.launch_ordinal
        < max_ordinal(s.attempts, run_id, slice_id) + 1 by {
        lemma_max_ordinal(s.attempts, run_id, slice_id, i);
    }
    let attempt = s.allocated(
        run_id,
        slice_id,
        execution_epoch,
        worker_retry_ordinal,
        repair_ordinal,
        envelope_retry_ordinal,
        kind,
        worktree_root,
        now,
    );
    assert(s.allocate(attempt, project_slice_run).attempts.drop_last() =~= s.attempts);
}

/// Where two texts end in a dash and a number, the numbers of equal texts are equal.
pub(super) proof fn lemma_number_at_the_end(p: Seq<char>, n: int, q: Seq<char>, m: int)
    requires
        p.len() > 0 && p.last() == '-',
        q.len() > 0 && q.last() == '-',
        0 <= n,
        0 <= m,
        p + decimal_int(n) == q + decimal_int(m),
    ensures
        n == m,
{
    let a = decimal_int(n);
    let b = decimal_int(m);
    let t = p + a;
    lemma_decimal_digits(n as nat);
    lemma_decimal_digits(m as nat);
    assert(t =~= q + b);
    if a.len() < b.len() {
        let k = p.len() - 1;
        assert(t[k] == '-' && t[k] == b[k - q.len()]);
    } else if b.len() < a.len() {
        let k = q.len() - 1;
        assert(t[k] == '-' && t[k] == a[k - p.len()]);
    }
    assert(a =~= t.skip(t.len() - a.len()));
    assert(b =~= t.skip(t.len() - b.len()));
    lemma_decimal_injective(n, m);
}

/// Two launches share neither a branch nor a worktree nor an output name, whatever their runs, their
/// slices and the places of their worktrees.
pub proof fn law_launches_have_their_own_names(
    run_id: Seq<char>,
    slice_id: Seq<char>,
    root: Seq<char>,
    one: i64,
    other_run: Seq<char>,
    other_slice: Seq<char>,
    other_root: Seq<char>,
    other: i64,
)
    requires
        0 < one,
        0 < other,
        one != other,
    ensures
        launch_branch(run_id, slice_id, one) != launch_branch(other_run, other_slice, other),
        launch_worktree(root, slice_id, one) != launch_worktree(other_root, other_slice, other),
        launch_stem(slice_id, one) != launch_stem(other_slice, other),
{
    reveal_strlit("/launch-");
    reveal_strlit(".worker.launch-");
    let branch = "khazad/"@ + run_id + "/"@ + slice_id + "/launch-"@;
    let other_branch = "khazad/"@ + other_run + "/"@ + other_slice + "/launch-"@;
    assert(branch.last() == '-' && other_branch.last() == '-');
    if launch_branch(run_id, slice_id, one) == launch_branch(other_run, other_slice, other) {
        lemma_number_at_the_end(branch, one as int, other_branch, other as int);
    }
    let stem = slice_id + ".worker.launch-"@;
    let other_stem = other_slice + ".worker.launch-"@;
    assert(stem.last() == '-' && other_stem.last() == '-');
    if launch_stem(slice_id, one) == launch_stem(other_slice, other) {
        lemma_number_at_the_end(stem, one as int, other_stem, other as int);
    }
    let tree = lemma_worktree_name(root, slice_id, one);
    let other_tree = lemma_worktree_name(other_root, other_slice, other);
    if launch_worktree(root, slice_id, one) == launch_worktree(other_root, other_slice, other) {
        lemma_number_at_the_end(tree, one as int, other_tree, other as int);
    }
}

/// What stands before the number in the path of a worktree.
pub(super) proof fn lemma_worktree_name(root: Seq<char>, slice_id: Seq<char>, launch_id: i64) -> (tree: Seq<char>)
    requires
        0 < launch_id,
    ensures
        tree.len() > 0 && tree.last() == '-',
        launch_worktree(root, slice_id, launch_id) == tree + decimal_int(launch_id as int),
{
    reveal_strlit("launch-");
    let base = path_join(root, slice_id);
    let number = decimal_int(launch_id as int);
    let part = "launch-"@ + number;
    assert(part[0] == 'l');
    let tree = if base.len() > 0 && base.last() != '/' {
        base.push('/') + "launch-"@
    } else {
        base + "launch-"@
    };
    assert(tree.last() == "launch-"@.last());
    assert(launch_worktree(root, slice_id, launch_id) =~= tree + number);
    tree
}

/// A launch that has ended loses its authority: no token is accepted for it any more.
pub proof fn law_ended_launch_loses_its_token(
    s: TablesModel,
    launch_id: i64,
    state: Seq<char>,
    failure_cause: Seq<char>,
    now: Timestamp,
    run_id: Seq<char>,
    token: Seq<char>,
)
    requires
        s.finish_refusal(launch_id, state) is None,
    ensures
        !(TablesModel {
            attempts: s.attempts.map_values(attempt_ended(launch_id, state, failure_cause, now)),
            ..s
        }).launch_token_accepted(run_id, launch_id, token),
{
    reveal_strlit("running");
    reveal_strlit("succeeded");
    reveal_strlit("failed");
    reveal_strlit("interrupted");
    assert("running"@.len() == 7 && "succeeded"@.len() == 9 && "failed"@.len() == 6
        && "interrupted"@.len() == 11);
    lemma_first_any(s.attempts, attempt_with_id(launch_id));
    lemma_first_map(
        s.attempts,
        attempt_ended(launch_id, state, failure_cause, now),
        attempt_with_id(launch_id),
    );
}

/// A token of a launch is bound once: with one on record, no other is taken.
pub proof fn law_launch_token_is_bound_once(
    s: TablesModel,
    run_id: Seq<char>,
    launch_id: i64,
    token_hash: Seq<char>,
)
    requires
        token_hash.len() > 0,
    ensures
        !any(
            s.attempts.map_values(launch_token_bound(run_id, launch_id, token_hash)),
            tokenless(run_id, launch_id),
        ),
{
    lemma_none_after(
        s.attempts,
        launch_token_bound(run_id, launch_id, token_hash),
        tokenless(run_id, launch_id),
    );
}

/// A token is accepted for the launch that it was bound to, while that launch runs, and for no other
/// launch unless the digests agree.
pub proof fn law_token_belongs_to_its_launch(
    s: TablesModel,
    run_id: Seq<char>,
    launch_id: i64,
    token: Seq<char>,
)
    requires
        s.launch_token_accepted(run_id, launch_id, token),
    ensures
        first(s.attempts, attempt_with_id(launch_id)) matches Some(row) && row.attempt.run_id
            == run_id && row.attempt.launch_id == launch_id && row.attempt.state == "running"@
            && row.worker_token_hash == text_digest(token),
        any(s.runs, run_running(run_id)),
{
    lemma_first_any(s.attempts, attempt_with_id(launch_id));
}

/// A merge is applied once: applied again with its result nothing changes, and with another result
/// it is refused.
pub proof fn law_merge_is_applied_once(
    s: TablesModel,
    operation_id: Seq<char>,
    resulting_head: Seq<char>,
    now: Timestamp,
    other_head: Seq<char>,
    later: Timestamp,
)
    requires
        s.commit_merge_refusal(operation_id, resulting_head) is None,
    ensures
        ({
            let after = s.commit_merge(operation_id, resulting_head, now);
            &&& after.merge(operation_id) matches Some(merge) && merge.state
                == IntegrationMergeState::Applied && merge.resulting_head == resulting_head
            &&& after.commit_merge_refusal(operation_id, resulting_head) is None
            &&& after.commit_merge(operation_id, resulting_head, later) == after
            &&& other_head != resulting_head ==> after.commit_merge_refusal(
                operation_id,
                other_head,
            ) == Some(StoreError::MergeAppliedElsewhere)
        }),
{
    let intent = s.merge(operation_id)->0;
    let after = s.commit_merge(operation_id, resulting_head, now);
    lemma_first_any(s.merges, merge_with_id(operation_id));
    if intent.state != IntegrationMergeState::Applied {
        let applied = IntegrationMergeIntentModel {
            state: IntegrationMergeState::Applied,
            resulting_head,
            updated_at: now,
            ..intent
        };
        let g = merge_replaced(operation_id, applied);
        assert(after.merges == s.merges.map_values(g));
        lemma_first_map(s.merges, g, merge_with_id(operation_id));
    }
}

/// A run prepares one merge at a time: while one is prepared, another operation is told of it and
/// changes nothing.
pub proof fn law_one_merge_at_a_time(
    s: TablesModel,
    intent: IntegrationMergeIntentModel,
    now: Timestamp,
)
    requires
        intent.state == IntegrationMergeState::Prepared,
        intent.resulting_head.len() == 0,
        s.merge(intent.operation_id) is None,
        any(s.merges, prepared_of(intent.run_id)),
    ensures
        s.prepare_merge_refusal(intent) is None,
        s.prepare_merge_answer(intent, now).outcome == IntegrationMergePrepareOutcome::Conflict,
        s.prepare_merge_answer(intent, now).intent.run_id == intent.run_id,
        s.prepare_merge_answer(intent, now).intent.state == IntegrationMergeState::Prepared,
        s.prepare_merge(intent, now) == s,
{
    lemma_first_any(s.merges, prepared_of(intent.run_id));
}

/// A status source is read back as it was recorded, with the event frontier of that moment.
pub proof fn law_status_source_is_read_back(
    s: TablesModel,
    run_id: Seq<char>,
    source: Seq<char>,
    payload_json: Seq<char>,
    now: Timestamp,
)
    requires
        json_level(payload_json) is Some,
    ensures
        first(
            s.with_source(run_id, source, payload_json, now).sources,
            source_at(run_id, source),
        ) matches Some(row) && read_source(row) == Ok::<StatusSourceSnapshotModel, StoreError>(
            StatusSourceSnapshotModel {
                source,
                payload: payload_json,
                indexed_event_id: s.event_frontier(run_id),
                content_sha256: text_digest(payload_json),
                observed_at: now,
            },
        ),
{
    let row = StatusSourceRowModel {
        run_id,
        source,
        payload_json,
        indexed_event_id: s.event_frontier(run_id),
        content_sha256: text_digest(payload_json),
        observed_at: now,
    };
    let p = source_at(run_id, source);
    if any(s.sources, p) {
        let g = |old_row: StatusSourceRowModel|
            if p(old_row) {
                source_set(row)(old_row)
            } else {
                old_row
            };
        lemma_first_map(s.sources, g, p);
        lemma_first_any(s.sources, p);
    } else {
        lemma_first_push(s.sources, row, p);
    }
}

/// Sources are read where each of them is.
pub(super) proof fn lemma_damaged_source(rows: Seq<StatusSourceRowModel>, i: int)
    requires
        0 <= i < rows.len(),
        read_source(rows[i]) is Err,
    ensures
        read_sources(rows) is Err,
    decreases rows.len(),
{
    if i < rows.len() - 1 {
        assert(rows.drop_last()[i] == rows[i]);
        lemma_damaged_source(rows.drop_last(), i);
    }
}

/// A status source that does not hold what its checksum says fails the whole snapshot.
pub proof fn law_damaged_source_fails_the_snapshot(
    s: TablesModel,
    run: RunModel,
    row: StatusSourceRowModel,
    events_limit: usize,
    data_version: i64,
    now: Timestamp,
)
    requires
        s.sources.contains(row),
        row.run_id == run.id,
        text_digest(row.payload_json) != row.content_sha256,
    ensures
        s.snapshot_of(run, events_limit, data_version, now) is Err,
{
    let p = source_of_run(run.id);
    let chosen = select(s.sources, p);
    lemma_select_keeps(s.sources, p, row);
    lemma_ordered_rows(chosen, source_order());
    let rows = ordered(chosen, source_order());
    let i = choose|i: int| 0 <= i < rows.len() && rows[i] == row;
    lemma_damaged_source(rows, i);
}

/// A snapshot keeps the whole history of its run and bounds only the tail: the tail is the end of
/// the history, and no longer than what was asked for.
pub proof fn law_snapshot_keeps_the_whole_history(
    s: TablesModel,
    run: RunModel,
    events_limit: usize,
    data_version: i64,
    now: Timestamp,
)
    requires
        s.snapshot_of(run, events_limit, data_version, now) is Ok,
    ensures
        ({
            let snapshot = s.snapshot_of(run, events_limit, data_version, now)->Ok_0;
            &&& snapshot.events == s.events_of(run.id)
            &&& snapshot.event_tail.len() <= shown_events(events_limit)
            &&& snapshot.event_tail == snapshot.events.skip(
                snapshot.events.len() - snapshot.event_tail.len(),
            )
            &&& snapshot.revision.max_event_id == s.event_frontier(run.id)
        }),
{
    let snapshot = s.snapshot_of(run, events_limit, data_version, now)->Ok_0;
    assert(snapshot.event_tail =~= snapshot.events.skip(
        snapshot.events.len() - snapshot.event_tail.len(),
    ));
}

/// The event frontier of a run is its newest event: no event of the run is past it.
pub proof fn law_frontier_is_the_newest_event(s: TablesModel, run_id: Seq<char>, i: int)
    requires
        s.valid(),
        0 <= i < s.events.len(),
        s.events[i].run_id == run_id,
    ensures
        s.events[i].id <= s.event_frontier(run_id),
        s.event_frontier(run_id) <= s.last_event_id,
{
    let p = event_of_run(run_id);
    lemma_select_last(s.events, p, i);
    lemma_select_from(s.events, p);
    let events = select(s.events, p);
    lemma_select_keeps(s.events, p, s.events[i]);
    assert(s.events.contains(events[events.len() - 1]));
}

/// The last selected row is the selected row nearest to the end.
pub(super) proof fn lemma_select_last(events: Seq<EventModel>, p: spec_fn(EventModel) -> bool, i: int)
    requires
        0 <= i < events.len(),
        p(events[i]),
        forall|i: int, j: int|
            #![trigger events[i], events[j]]
            0 <= i < j < events.len() ==> events[i].id < events[j].id,
    ensures
        select(events, p).len() > 0,
        events[i].id <= select(events, p).last().id,
    decreases events.len(),
{
    if p(events.last()) {
        if i < events.len() - 1 {
            assert(events[i].id < events[events.len() - 1].id);
        }
    } else {
        let rest = events.drop_last();
        assert(i < rest.len());
        assert(rest[i] == events[i]);
        lemma_select_last(rest, p, i);
    }
}

} // verus!
