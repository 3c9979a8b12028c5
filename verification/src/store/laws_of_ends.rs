//! What the end of a run does to everything that belongs to the run, row by row.
use super::attempts::{launch_id_order, open_attempt_of};
use super::launches::terminal_of;
use super::laws::{lemma_end_run, lemma_interruption_only, lemma_question_events_only};
use super::questions::pending_of;
use super::terminal::{has_steps_to_make, terminal_replaced, unreconciled};
use super::{run_has_id, run_key, terminal_key};
use crate::domain::{
    RunLaunchIntentModel, RunLaunchState, RunStatus, SliceRunModel, SliceStatus,
    WorkerAttemptLedgerModel, WorkerQuestionModel,
};
use crate::error::StoreError;
use crate::payloads::{
    EventModel, EventPayloadModel, RunLaunchInterruptedPayloadModel,
    TerminalTransitionIntendedPayloadModel, WorkerAttemptInterruptedPayloadModel,
    WorkerQuestionInterruptedPayloadModel,
};
use crate::rows::{
    AttemptRowModel, ProgressRowModel, QuestionRowModel, RunRowModel, StepMarkModel, TablesModel,
    TerminalRowModel, WorkerObservationModel,
};
use crate::table::{
    any, lemma_first_none, lemma_first_unique, lemma_ordered_len, lemma_ordered_rows,
    lemma_select_keeps, lemma_select_len, select, upsert,
};
use crate::text::blank;
use crate::time::Timestamp;
use vstd::prelude::*;

verus! {

/// No end of the run is recorded.
pub open spec fn not_ended(s: TablesModel, run_id: Seq<char>) -> bool {
    forall|k: int| 0 <= k < s.terminals.len() ==> (#[trigger] s.terminals[k]).run_id != run_id
}

proof fn lemma_not_ended(s: TablesModel, run_id: Seq<char>)
    requires
        not_ended(s, run_id),
    ensures
        s.terminal_row(run_id) is None,
{
    lemma_first_none(s.terminals, terminal_of(run_id));
}

/// The log that events of questions leave.
pub(super) proof fn lemma_question_log(
    s: TablesModel,
    run_id: Seq<char>,
    rows: Seq<QuestionRowModel>,
    payload: spec_fn(QuestionRowModel) -> EventPayloadModel,
    now: Timestamp,
)
    requires
        s.last_event_id + rows.len() <= i64::MAX,
    ensures
        ({
            let after = s.with_question_events(run_id, rows, payload, now);
            &&& after.last_event_id == s.last_event_id + rows.len()
            &&& after.events == s.events + Seq::new(
                rows.len(),
                |i: int|
                    EventModel {
                        id: (s.last_event_id + 1 + i) as i64,
                        run_id,
                        typ: "worker_question_interrupted"@,
                        payload: payload(rows[i]),
                        created_at: now,
                    },
            )
        }),
    decreases rows.len(),
{
    if rows.len() > 0 {
        lemma_question_log(s, run_id, rows.drop_last(), payload, now);
    }
    assert(s.with_question_events(run_id, rows, payload, now).events =~= s.events + Seq::new(
        rows.len(),
        |i: int|
            EventModel {
                id: (s.last_event_id + 1 + i) as i64,
                run_id,
                typ: "worker_question_interrupted"@,
                payload: payload(rows[i]),
                created_at: now,
            },
    ));
}

/// The log that interrupted launches leave.
pub(super) proof fn lemma_interruption_log(
    s: TablesModel,
    run_id: Seq<char>,
    rows: Seq<AttemptRowModel>,
    reason: Seq<char>,
    status: RunStatus,
    now: Timestamp,
)
    requires
        s.last_event_id + rows.len() <= i64::MAX,
    ensures
        ({
            let after = s.with_interruptions(run_id, rows, reason, status, now);
            &&& after.last_event_id == s.last_event_id + rows.len()
            &&& after.events == s.events + Seq::new(
                rows.len(),
                |i: int|
                    EventModel {
                        id: (s.last_event_id + 1 + i) as i64,
                        run_id,
                        typ: "worker_attempt_interrupted"@,
                        payload: EventPayloadModel::WorkerAttemptInterrupted(
                            WorkerAttemptInterruptedPayloadModel {
                                launch_id: rows[i].attempt.launch_id,
                                slice_id: rows[i].attempt.slice_id,
                                reason,
                                prior_state: rows[i].attempt.state,
                                terminal_status: status,
                            },
                        ),
                        created_at: now,
                    },
            )
        }),
    decreases rows.len(),
{
    let log = |n: nat|
        Seq::new(
            n,
            |i: int|
                EventModel {
                    id: (s.last_event_id + 1 + i) as i64,
                    run_id,
                    typ: "worker_attempt_interrupted"@,
                    payload: EventPayloadModel::WorkerAttemptInterrupted(
                        WorkerAttemptInterruptedPayloadModel {
                            launch_id: rows[i].attempt.launch_id,
                            slice_id: rows[i].attempt.slice_id,
                            reason,
                            prior_state: rows[i].attempt.state,
                            terminal_status: status,
                        },
                    ),
                    created_at: now,
                },
        );
    if rows.len() > 0 {
        lemma_interruption_log(s, run_id, rows.drop_last(), reason, status, now);
    }
    assert(s.with_interruptions(run_id, rows, reason, status, now).events =~= s.events + log(
        rows.len(),
    ));
}

/// Which ends are recorded: a run that is known and pending or running can be ended by any status that
/// is neither pending nor running, where the log has room.
pub proof fn law_active_run_can_be_ended(
    s: TablesModel,
    i: int,
    status: RunStatus,
    error: Seq<char>,
    progress_message: Seq<char>,
    reason: Seq<char>,
    now: Timestamp,
)
    requires
        s.valid(),
        0 <= i < s.runs.len(),
        not_ended(s, s.runs[i].run.id),
        s.last_event_id + 1 + s.questions.len() + s.attempts.len() <= i64::MAX,
    ensures
        ({
            let run = s.runs[i].run;
            let ended = s.prepare_terminal(
                run.id,
                status,
                error,
                progress_message,
                reason,
                now,
            );
            let ends = status == RunStatus::Completed || status == RunStatus::Blocked || status
                == RunStatus::Failed || status == RunStatus::Cancelled || status
                == RunStatus::Interrupted;
            let active = run.status == RunStatus::Pending || run.status == RunStatus::Running;
            &&& ended is Ok <==> ends && active
            &&& !ends ==> ended == Err::<(nat, TablesModel), StoreError>(
                StoreError::StatusNotTerminal,
            )
            &&& ends && !active ==> ended == Err::<(nat, TablesModel), StoreError>(
                StoreError::RunAlreadyTerminal,
            )
        }),
{
    let run_id = s.runs[i].run.id;
    lemma_first_unique(s.runs, run_key(), run_has_id(run_id), i);
    lemma_not_ended(s, run_id);
    lemma_select_len(s.questions, pending_of(run_id));
    lemma_ordered_len(select(s.questions, pending_of(run_id)), super::questions::asked_order());
    lemma_select_len(s.attempts, open_attempt_of(run_id));
    lemma_ordered_len(select(s.attempts, open_attempt_of(run_id)), launch_id_order());
}

/// A run that is not known is not ended.
pub proof fn law_unknown_run_is_not_ended(
    s: TablesModel,
    run_id: Seq<char>,
    status: RunStatus,
    error: Seq<char>,
    progress_message: Seq<char>,
    reason: Seq<char>,
    now: Timestamp,
)
    requires
        forall|k: int| 0 <= k < s.runs.len() ==> (#[trigger] s.runs[k]).run.id != run_id,
    ensures
        s.prepare_terminal(run_id, status, error, progress_message, reason, now) is Err,
{
    lemma_first_none(s.runs, run_has_id(run_id));
}

/// Once the end of a run is recorded, every slice of the run that was running, needed repair or was
/// ready to merge has the status that goes with the end, with the error of the end or else its reason;
/// every other slice is as it was.
pub proof fn law_end_settles_the_slices(
    s: TablesModel,
    run_id: Seq<char>,
    status: RunStatus,
    error: Seq<char>,
    progress_message: Seq<char>,
    reason: Seq<char>,
    now: Timestamp,
)
    requires
        s.prepare_terminal(run_id, status, error, progress_message, reason, now) is Ok,
        not_ended(s, run_id),
    ensures
        ({
            let after = s.prepare_terminal(
                run_id,
                status,
                error,
                progress_message,
                reason,
                now,
            )->Ok_0.1;
            &&& after.slices.len() == s.slices.len()
            &&& forall|i: int|
                0 <= i < s.slices.len() ==> #[trigger] after.slices[i] == if s.slices[i].run_id
                    == run_id && (s.slices[i].status == SliceStatus::Running || s.slices[i].status
                    == SliceStatus::RepairNeeded || s.slices[i].status
                    == SliceStatus::ReadyToMerge) {
                    SliceRunModel {
                        status: if status == RunStatus::Failed {
                            SliceStatus::Failed
                        } else if status == RunStatus::Blocked {
                            SliceStatus::Blocked
                        } else if status == RunStatus::Cancelled {
                            SliceStatus::Cancelled
                        } else {
                            SliceStatus::Interrupted
                        },
                        last_error: if blank(error) {
                            reason
                        } else {
                            error
                        },
                        ..s.slices[i]
                    }
                } else {
                    s.slices[i]
                }
            &&& forall|i: int|
                0 <= i < s.slices.len() && (#[trigger] after.slices[i]).status
                    == SliceStatus::Merged ==> s.slices[i].status == SliceStatus::Merged
        }),
{
    lemma_not_ended(s, run_id);
    lemma_end_run(s, run_id, status, error, progress_message, reason, now);
}

/// Once the end of a run is recorded, every pending question of the run is interrupted with the reason
/// and without an answer source, every launch of the run that was allocated or running is interrupted
/// with the reason, and everything else of them is as it was. As many questions are reported as were
/// pending.
pub proof fn law_end_interrupts_what_waits_and_works(
    s: TablesModel,
    run_id: Seq<char>,
    status: RunStatus,
    error: Seq<char>,
    progress_message: Seq<char>,
    reason: Seq<char>,
    now: Timestamp,
)
    requires
        s.prepare_terminal(run_id, status, error, progress_message, reason, now) is Ok,
        not_ended(s, run_id),
    ensures
        ({
            let (interrupted, after) = s.prepare_terminal(
                run_id,
                status,
                error,
                progress_message,
                reason,
                now,
            )->Ok_0;
            &&& interrupted == select(
                s.questions,
                |row: QuestionRowModel|
                    row.question.run_id == run_id && row.question.state == "pending"@,
            ).len()
            &&& after.questions.len() == s.questions.len()
            &&& forall|i: int|
                0 <= i < s.questions.len() ==> #[trigger] after.questions[i] == if s.questions[i].question.run_id
                    == run_id && s.questions[i].question.state == "pending"@ {
                    QuestionRowModel {
                        question: WorkerQuestionModel {
                            state: "interrupted"@,
                            answered_at: Some(now),
                            answer: reason,
                            answer_source: None,
                            ..s.questions[i].question
                        },
                        ..s.questions[i]
                    }
                } else {
                    s.questions[i]
                }
            &&& after.attempts.len() == s.attempts.len()
            &&& forall|i: int|
                0 <= i < s.attempts.len() ==> #[trigger] after.attempts[i] == if s.attempts[i].attempt.run_id
                    == run_id && (s.attempts[i].attempt.state == "allocated"@
                    || s.attempts[i].attempt.state == "running"@) {
                    AttemptRowModel {
                        attempt: WorkerAttemptLedgerModel {
                            state: "interrupted"@,
                            finished_at: Some(now),
                            failure_cause: reason,
                            ..s.attempts[i].attempt
                        },
                        ..s.attempts[i]
                    }
                } else {
                    s.attempts[i]
                }
        }),
{
    lemma_not_ended(s, run_id);
    lemma_end_run(s, run_id, status, error, progress_message, reason, now);
    let pending = |row: QuestionRowModel|
        row.question.run_id == run_id && row.question.state == "pending"@;
    lemma_same_choice(s.questions, pending, pending_of(run_id));
    lemma_ordered_len(select(s.questions, pending_of(run_id)), super::questions::asked_order());
}

/// Conditions that agree choose the same rows.
pub(super) proof fn lemma_same_choice<M>(rows: Seq<M>, p: spec_fn(M) -> bool, q: spec_fn(M) -> bool)
    requires
        forall|i: int| 0 <= i < rows.len() ==> p(#[trigger] rows[i]) == q(rows[i]),
    ensures
        select(rows, p) == select(rows, q),
        any(rows, p) == any(rows, q),
    decreases rows.len(),
{
    if rows.len() > 0 {
        let rest = rows.drop_last();
        assert forall|i: int| 0 <= i < rest.len() implies p(#[trigger] rest[i]) == q(rest[i]) by {
            assert(rest[i] == rows[i]);
        }
        lemma_same_choice(rest, p, q);
        assert(rows[rows.len() - 1] == rows.last());
    }
    if any(rows, p) {
        let i = choose|i: int| 0 <= i < rows.len() && p(#[trigger] rows[i]);
        assert(q(rows[i]));
    }
    if any(rows, q) {
        let i = choose|i: int| 0 <= i < rows.len() && q(#[trigger] rows[i]);
        assert(p(rows[i]));
    }
}

/// The recorded end holds what was handed in and no step of it is made. The run shows the end with its
/// message, and keeps its status and its launches until the end is published.
pub proof fn law_end_is_on_record(
    s: TablesModel,
    run_id: Seq<char>,
    status: RunStatus,
    error: Seq<char>,
    progress_message: Seq<char>,
    reason: Seq<char>,
    now: Timestamp,
)
    requires
        s.prepare_terminal(run_id, status, error, progress_message, reason, now) is Ok,
        not_ended(s, run_id),
    ensures
        ({
            let after = s.prepare_terminal(
                run_id,
                status,
                error,
                progress_message,
                reason,
                now,
            )->Ok_0.1;
            &&& after.terminals == s.terminals.push(
                TerminalRowModel {
                    run_id,
                    status,
                    error,
                    progress_message,
                    question_interruption_reason: reason,
                    intended_at: now.text(),
                    summary_written_at: StepMarkModel::NotMade,
                    committed_at: StepMarkModel::NotMade,
                    notification_bookkept_at: StepMarkModel::NotMade,
                    cleanup_started_at: StepMarkModel::NotMade,
                    cleanup_completed_at: StepMarkModel::NotMade,
                },
            )
            &&& after.runs == s.runs
            &&& after.launches == s.launches
            &&& after.merges == s.merges
            &&& after.proposals == s.proposals
            &&& after.sources == s.sources
            &&& after.tokens == s.tokens
            &&& after.repos == s.repos
            &&& after.last_launch_id == s.last_launch_id
            &&& exists|k: int|
                0 <= k < after.progress.len() && #[trigger] after.progress[k] == (ProgressRowModel {
                    run_id,
                    phase: status.text(),
                    slice_id: Seq::empty(),
                    attempt: 0,
                    command: Seq::empty(),
                    message: progress_message,
                    output_tail: Seq::empty(),
                    phase_started_at: now,
                    updated_at: now,
                    worker_attempt_started_at: None,
                    observed: WorkerObservationModel::empty(),
                })
            &&& forall|k: int|
                0 <= k < s.progress.len() && s.progress[k].run_id != run_id
                    ==> #[trigger] after.progress[k] == s.progress[k]
        }),
{
    lemma_not_ended(s, run_id);
    lemma_end_run(s, run_id, status, error, progress_message, reason, now);
    let after = s.end_run(run_id, status, error, progress_message, reason, now);
    let intended = TablesModel {
        terminals: after.terminals,
        questions: after.questions,
        slices: after.slices,
        ..s
    };
    let announced = intended.with_event(
        run_id,
        "terminal_transition_intended"@,
        EventPayloadModel::TerminalTransitionIntended(
            TerminalTransitionIntendedPayloadModel {
                status,
                error,
                progress_message,
                question_interruption_reason: reason,
            },
        ),
        now,
    );
    let payload = super::terminal::ended_question_event(reason, status);
    let told = announced.with_question_events(
        run_id,
        s.pending_questions(run_id),
        payload,
        now,
    );
    lemma_question_events_only(announced, run_id, s.pending_questions(run_id), payload, now);
    lemma_interruption_only(told, run_id, reason, status, now);
    let of_run = super::progress::progress_row_of(run_id);
    let shown = super::progress::fresh_progress(
        run_id,
        status.text(),
        Seq::empty(),
        0,
        Seq::empty(),
        progress_message,
        Seq::empty(),
        now,
        now,
    );
    assert(after.progress == upsert(
        s.progress,
        of_run,
        super::progress::progress_set(shown),
        shown,
    ));
    let at: int = if any(s.progress, of_run) {
        choose|k: int| 0 <= k < s.progress.len() && of_run(#[trigger] s.progress[k])
    } else {
        s.progress.len() as int
    };
    assert(0 <= at < after.progress.len());
    assert(after.progress[at] == shown);
    assert(after == s.prepare_terminal(
        run_id,
        status,
        error,
        progress_message,
        reason,
        now,
    )->Ok_0.1);
}

/// The end of a run leaves its events at the end of the log and changes no earlier one: first the
/// intent, then one event for each question that was pending, then one for each launch that was open.
pub proof fn law_end_is_told_in_the_log(
    s: TablesModel,
    run_id: Seq<char>,
    status: RunStatus,
    error: Seq<char>,
    progress_message: Seq<char>,
    reason: Seq<char>,
    now: Timestamp,
)
    requires
        s.prepare_terminal(run_id, status, error, progress_message, reason, now) is Ok,
        not_ended(s, run_id),
    ensures
        ({
            let after = s.prepare_terminal(
                run_id,
                status,
                error,
                progress_message,
                reason,
                now,
            )->Ok_0.1;
            let n = s.events.len() as int;
            &&& after.events.len() == n + 1 + s.pending_questions(run_id).len() + s.open_attempts(
                run_id,
            ).len()
            &&& after.last_event_id == s.last_event_id + (after.events.len() - n)
            &&& forall|i: int| 0 <= i < n ==> #[trigger] after.events[i] == s.events[i]
            &&& forall|i: int|
                n <= i < after.events.len() ==> (#[trigger] after.events[i]).run_id == run_id
                    && after.events[i].created_at == now && after.events[i].id == s.last_event_id
                    + 1 + (i - n)
            &&& after.events[n].typ == "terminal_transition_intended"@
            &&& after.events[n].payload == EventPayloadModel::TerminalTransitionIntended(
                TerminalTransitionIntendedPayloadModel {
                    status,
                    error,
                    progress_message,
                    question_interruption_reason: reason,
                },
            )
            &&& forall|j: int|
                0 <= j < s.questions.len() && (#[trigger] s.questions[j]).question.run_id == run_id
                    && s.questions[j].question.state == "pending"@ ==> exists|i: int|
                    n < i < after.events.len() && (#[trigger] after.events[i]).typ
                        == "worker_question_interrupted"@ && after.events[i].payload
                        == EventPayloadModel::WorkerQuestionInterrupted(
                        WorkerQuestionInterruptedPayloadModel {
                            question_id: s.questions[j].question.id,
                            slice_id: s.questions[j].question.slice_id,
                            attempt: s.questions[j].question.attempt,
                            launch_id: None,
                            active_attempt: None,
                            reason,
                            terminal_status: Some(status),
                        },
                    )
            &&& forall|j: int|
                0 <= j < s.attempts.len() && (#[trigger] s.attempts[j]).attempt.run_id == run_id && (
                s.attempts[j].attempt.state == "allocated"@ || s.attempts[j].attempt.state
                    == "running"@) ==> exists|i: int|
                    n < i < after.events.len() && (#[trigger] after.events[i]).typ
                        == "worker_attempt_interrupted"@ && after.events[i].payload
                        == EventPayloadModel::WorkerAttemptInterrupted(
                        WorkerAttemptInterruptedPayloadModel {
                            launch_id: s.attempts[j].attempt.launch_id,
                            slice_id: s.attempts[j].attempt.slice_id,
                            reason,
                            prior_state: s.attempts[j].attempt.state,
                            terminal_status: status,
                        },
                    )
        }),
{
    lemma_not_ended(s, run_id);
    lemma_end_run(s, run_id, status, error, progress_message, reason, now);
    let after = s.end_run(run_id, status, error, progress_message, reason, now);
    let intended = TablesModel {
        terminals: after.terminals,
        questions: after.questions,
        slices: after.slices,
        ..s
    };
    let announced = intended.with_event(
        run_id,
        "terminal_transition_intended"@,
        EventPayloadModel::TerminalTransitionIntended(
            TerminalTransitionIntendedPayloadModel {
                status,
                error,
                progress_message,
                question_interruption_reason: reason,
            },
        ),
        now,
    );
    let payload = super::terminal::ended_question_event(reason, status);
    let questions = s.pending_questions(run_id);
    let attempts = s.open_attempts(run_id);
    let told = announced.with_question_events(run_id, questions, payload, now);
    lemma_question_events_only(announced, run_id, questions, payload, now);
    lemma_question_log(announced, run_id, questions, payload, now);
    lemma_interruption_only(told, run_id, reason, status, now);
    lemma_interruption_log(
        TablesModel {
            attempts: told.attempts.map_values(
                super::attempts::attempt_interrupted(run_id, reason, now),
            ),
            ..told
        },
        run_id,
        attempts,
        reason,
        status,
        now,
    );
    let n = s.events.len() as int;
    assert forall|j: int|
        0 <= j < s.questions.len() && (#[trigger] s.questions[j]).question.run_id == run_id
            && s.questions[j].question.state == "pending"@ implies exists|i: int|
        n < i < after.events.len() && (#[trigger] after.events[i]).typ
            == "worker_question_interrupted"@ && after.events[i].payload
            == EventPayloadModel::WorkerQuestionInterrupted(
            WorkerQuestionInterruptedPayloadModel {
                question_id: s.questions[j].question.id,
                slice_id: s.questions[j].question.slice_id,
                attempt: s.questions[j].question.attempt,
                launch_id: None,
                active_attempt: None,
                reason,
                terminal_status: Some(status),
            },
        ) by {
        let chosen = select(s.questions, pending_of(run_id));
        lemma_select_keeps(s.questions, pending_of(run_id), s.questions[j]);
        lemma_ordered_rows(chosen, super::questions::asked_order());
        assert(questions.contains(s.questions[j]));
        let k = choose|k: int| 0 <= k < questions.len() && questions[k] == s.questions[j];
        assert(after.events[n + 1 + k].payload == payload(questions[k]));
    }
    assert forall|j: int|
        0 <= j < s.attempts.len() && (#[trigger] s.attempts[j]).attempt.run_id == run_id && (
        s.attempts[j].attempt.state == "allocated"@ || s.attempts[j].attempt.state
            == "running"@) implies exists|i: int|
        n < i < after.events.len() && (#[trigger] after.events[i]).typ
            == "worker_attempt_interrupted"@ && after.events[i].payload
            == EventPayloadModel::WorkerAttemptInterrupted(
            WorkerAttemptInterruptedPayloadModel {
                launch_id: s.attempts[j].attempt.launch_id,
                slice_id: s.attempts[j].attempt.slice_id,
                reason,
                prior_state: s.attempts[j].attempt.state,
                terminal_status: status,
            },
        ) by {
        let chosen = select(s.attempts, open_attempt_of(run_id));
        lemma_select_keeps(s.attempts, open_attempt_of(run_id), s.attempts[j]);
        lemma_ordered_rows(chosen, launch_id_order());
        assert(attempts.contains(s.attempts[j]));
        let k = choose|k: int| 0 <= k < attempts.len() && attempts[k] == s.attempts[j];
        assert(after.events[n + 1 + questions.len() + k].typ == "worker_attempt_interrupted"@);
    }
}

/// The publication of an end: the run takes the status and the error of the end, and nothing else of
/// it changes but the time; its launch of the epoch, where that was under way, has failed where the
/// run failed or is blocked and is interrupted elsewhere, with the error as its cause where it has
/// none; launches of workers that are still open are interrupted; other runs and launches stay. The last
/// event of the log is the one that was handed in, and the end is marked as published.
pub proof fn law_publication_ends_the_run(
    s: TablesModel,
    i: int,
    t: int,
    event_type: Seq<char>,
    payload: EventPayloadModel,
    now: Timestamp,
)
    requires
        s.valid(),
        0 <= i < s.runs.len(),
        0 <= t < s.terminals.len(),
        s.terminals[t].run_id == s.runs[i].run.id,
        s.terminals[t].summary_written_at is Made,
        !(s.terminals[t].committed_at is Made),
        s.runs[i].run.status == RunStatus::Pending || s.runs[i].run.status == RunStatus::Running,
        s.last_event_id + 2 + s.attempts.len() <= i64::MAX,
    ensures
        ({
            let run = s.runs[i];
            let end = s.terminals[t];
            let published = s.commit_terminal(run.run.id, event_type, payload, now);
            let after = published->Ok_0.1;
            &&& published matches Ok((done, _)) && done
            &&& after.runs.len() == s.runs.len()
            &&& after.runs[i].run.status == end.status
            &&& after.runs[i].run.error == end.error
            &&& after.runs[i].run.updated_at == now
            &&& after.runs[i] == RunRowModel {
                run: crate::domain::RunModel {
                    status: end.status,
                    error: end.error,
                    updated_at: now,
                    ..run.run
                },
                ..run
            }
            &&& forall|k: int|
                0 <= k < s.runs.len() && k != i ==> #[trigger] after.runs[k] == s.runs[k]
            &&& after.terminals.len() == s.terminals.len()
            &&& after.terminals[t] == TerminalRowModel {
                committed_at: StepMarkModel::Made(now.text()),
                ..end
            }
            &&& forall|k: int|
                0 <= k < s.terminals.len() && k != t ==> #[trigger] after.terminals[k]
                    == s.terminals[k]
            &&& after.launches.len() == s.launches.len()
            &&& forall|k: int|
                0 <= k < s.launches.len() ==> #[trigger] after.launches[k] == if s.launches[k].run_id
                    == run.run.id && s.launches[k].execution_epoch == run.execution_epoch && (
                s.launches[k].state == RunLaunchState::Prepared || s.launches[k].state
                    == RunLaunchState::Activated) {
                    RunLaunchIntentModel {
                        state: if end.status == RunStatus::Failed || end.status
                            == RunStatus::Blocked {
                            RunLaunchState::Failed
                        } else {
                            RunLaunchState::Interrupted
                        },
                        primary_cause: if s.launches[k].primary_cause.len() == 0 {
                            end.error
                        } else {
                            s.launches[k].primary_cause
                        },
                        updated_at: now,
                        ..s.launches[k]
                    }
                } else {
                    s.launches[k]
                }
            &&& after.events.len() == s.events.len() + s.open_attempts(run.run.id).len() + 1 + (if exists|
                k: int,
            |
                0 <= k < s.launches.len() && (#[trigger] s.launches[k]).run_id == run.run.id
                    && s.launches[k].execution_epoch == run.execution_epoch && (
                s.launches[k].state == RunLaunchState::Prepared || s.launches[k].state
                    == RunLaunchState::Activated) {
                1int
            } else {
                0int
            })
            &&& after.events.last().run_id == run.run.id
            &&& after.events.last().typ == event_type
            &&& after.events.last().payload == payload
            &&& after.events.last().created_at == now
            &&& forall|k: int| 0 <= k < s.events.len() ==> #[trigger] after.events[k] == s.events[k]
            &&& (exists|k: int|
                0 <= k < s.launches.len() && (#[trigger] s.launches[k]).run_id == run.run.id
                    && s.launches[k].execution_epoch == run.execution_epoch && (
                s.launches[k].state == RunLaunchState::Prepared || s.launches[k].state
                    == RunLaunchState::Activated)) ==> after.events[after.events.len() - 2].typ
                == "run_launch_interrupted"@ && after.events[after.events.len() - 2].payload
                == EventPayloadModel::RunLaunchInterrupted(
                RunLaunchInterruptedPayloadModel {
                    state: if end.status == RunStatus::Failed || end.status == RunStatus::Blocked {
                        RunLaunchState::Failed
                    } else {
                        RunLaunchState::Interrupted
                    },
                    terminal_status: end.status,
                    primary_cause: end.error,
                },
            )
            &&& after.attempts.len() == s.attempts.len()
            &&& forall|k: int|
                0 <= k < s.attempts.len() ==> #[trigger] after.attempts[k] == if s.attempts[k].attempt.run_id
                    == run.run.id && (s.attempts[k].attempt.state == "allocated"@
                    || s.attempts[k].attempt.state == "running"@) {
                    AttemptRowModel {
                        attempt: WorkerAttemptLedgerModel {
                            state: "interrupted"@,
                            finished_at: Some(now),
                            failure_cause: end.question_interruption_reason,
                            ..s.attempts[k].attempt
                        },
                        ..s.attempts[k]
                    }
                } else {
                    s.attempts[k]
                }
            &&& after.slices == s.slices
            &&& after.questions == s.questions
            &&& after.merges == s.merges
            &&& after.proposals == s.proposals
            &&& after.progress == s.progress
            &&& after.sources == s.sources
            &&& after.tokens == s.tokens
            &&& after.repos == s.repos
            &&& after.last_launch_id == s.last_launch_id
            &&& after.last_event_id == s.last_event_id + (after.events.len() - s.events.len())
        }),
{
    let run = s.runs[i];
    let end = s.terminals[t];
    let run_id = run.run.id;
    lemma_first_unique(s.runs, run_key(), run_has_id(run_id), i);
    lemma_first_unique(s.terminals, terminal_key(), terminal_of(run_id), t);
    lemma_select_len(s.attempts, open_attempt_of(run_id));
    lemma_ordered_len(select(s.attempts, open_attempt_of(run_id)), launch_id_order());
    let reason = end.question_interruption_reason;
    lemma_interruption_only(s, run_id, reason, end.status, now);
    let quiet = s.interrupt_attempts(run_id, reason, end.status, now);
    lemma_interruption_log(
        TablesModel {
            attempts: s.attempts.map_values(
                super::attempts::attempt_interrupted(run_id, reason, now),
            ),
            ..s
        },
        run_id,
        s.open_attempts(run_id),
        reason,
        end.status,
        now,
    );
    let after = quiet.publish(run_id, run.execution_epoch, end, event_type, payload, now);
    assert forall|k: int| 0 <= k < s.runs.len() && k != i implies #[trigger] after.runs[k]
        == s.runs[k] by {
        assert(run_key()(s.runs[k]) != run_key()(s.runs[i]));
    }
    assert forall|k: int| 0 <= k < s.terminals.len() && k != t implies #[trigger] after.terminals[k]
        == s.terminals[k] by {
        assert(terminal_key()(s.terminals[k]) != terminal_key()(s.terminals[t]));
    }
    let open = super::terminal::open_launch(run_id, run.execution_epoch);
    if exists|k: int|
        0 <= k < s.launches.len() && (#[trigger] s.launches[k]).run_id == run_id
            && s.launches[k].execution_epoch == run.execution_epoch && (s.launches[k].state
            == RunLaunchState::Prepared || s.launches[k].state == RunLaunchState::Activated) {
        let k = choose|k: int|
            0 <= k < s.launches.len() && (#[trigger] s.launches[k]).run_id == run_id
                && s.launches[k].execution_epoch == run.execution_epoch && (s.launches[k].state
                == RunLaunchState::Prepared || s.launches[k].state == RunLaunchState::Activated);
        assert(open(s.launches[k]));
        assert(any(s.launches, open));
    } else {
        assert forall|k: int| 0 <= k < s.launches.len() implies !open(#[trigger] s.launches[k]) by {}
    }
}

/// The steps of an end leave their mark in it and nowhere else: the summary, the booking of the
/// notification, the claim of the cleanup and its completion, each by the time of the step; and the
/// summary and the completion are told by the event that was handed in.
pub proof fn law_steps_leave_their_mark(
    s: TablesModel,
    t: int,
    event_type: Seq<char>,
    payload: EventPayloadModel,
    now: Timestamp,
)
    requires
        s.valid(),
        0 <= t < s.terminals.len(),
        s.last_event_id < i64::MAX,
    ensures
        ({
            let end = s.terminals[t];
            let run_id = end.run_id;
            let made = StepMarkModel::Made(now.text());
            let told = EventModel {
                id: (s.last_event_id + 1) as i64,
                run_id,
                typ: event_type,
                payload,
                created_at: now,
            };
            let marked = |row: TerminalRowModel, tell: bool|
                TablesModel {
                    terminals: s.terminals.update(t, row),
                    events: if tell {
                        s.events.push(told)
                    } else {
                        s.events
                    },
                    last_event_id: if tell {
                        (s.last_event_id + 1) as i64
                    } else {
                        s.last_event_id
                    },
                    ..s
                };
            &&& !(end.summary_written_at is Made) && !(end.committed_at is Made) ==> s.write_summary(
                run_id,
                event_type,
                payload,
                now,
            ) == Ok::<(bool, TablesModel), StoreError>(
                (true, marked(TerminalRowModel { summary_written_at: made, ..end }, true)),
            )
            &&& end.committed_at is Made && !(end.notification_bookkept_at is Made)
                ==> s.bookkeep_notification(run_id, now) == Ok::<(bool, TablesModel), StoreError>(
                (true, marked(TerminalRowModel { notification_bookkept_at: made, ..end }, false)),
            )
            &&& end.committed_at is Made && end.notification_bookkept_at is Made && !(
            end.cleanup_started_at is Made) && !(end.cleanup_completed_at is Made)
                ==> s.claim_cleanup(run_id, now) == Ok::<(bool, TablesModel), StoreError>(
                (true, marked(TerminalRowModel { cleanup_started_at: made, ..end }, false)),
            )
            &&& end.cleanup_started_at is Made && !(end.cleanup_completed_at is Made)
                ==> s.complete_cleanup(run_id, event_type, payload, now) == Ok::<
                (bool, TablesModel),
                StoreError,
            >((true, marked(TerminalRowModel { cleanup_completed_at: made, ..end }, true)))
        }),
{
    let end = s.terminals[t];
    let run_id = end.run_id;
    let made = StepMarkModel::Made(now.text());
    lemma_first_unique(s.terminals, terminal_key(), terminal_of(run_id), t);
    lemma_marked(s, t, TerminalRowModel { summary_written_at: made, ..end });
    lemma_marked(s, t, TerminalRowModel { notification_bookkept_at: made, ..end });
    lemma_marked(s, t, TerminalRowModel { cleanup_started_at: made, ..end });
    lemma_marked(s, t, TerminalRowModel { cleanup_completed_at: made, ..end });
}

/// A changed end stands where it stood.
proof fn lemma_marked(s: TablesModel, t: int, row: TerminalRowModel)
    requires
        s.valid(),
        0 <= t < s.terminals.len(),
        row.run_id == s.terminals[t].run_id,
    ensures
        s.with_terminal(row) == (TablesModel { terminals: s.terminals.update(t, row), ..s }),
{
    let after = s.terminals.map_values(terminal_replaced(row.run_id, row));
    assert forall|k: int| 0 <= k < s.terminals.len() implies #[trigger] after[k]
        == s.terminals.update(t, row)[k] by {
        if k != t {
            assert(terminal_key()(s.terminals[k]) != terminal_key()(s.terminals[t]));
        }
    }
    assert(after =~= s.terminals.update(t, row));
}

/// A step comes too early where the one before it is not made: a publication without a summary, a
/// booking without a publication, a claim without both, a completion without a claim.
pub proof fn law_steps_cannot_be_skipped(
    s: TablesModel,
    t: int,
    event_type: Seq<char>,
    payload: EventPayloadModel,
    now: Timestamp,
)
    requires
        s.valid(),
        0 <= t < s.terminals.len(),
    ensures
        ({
            let end = s.terminals[t];
            let early = |error: StoreError| Err::<(bool, TablesModel), StoreError>(error);
            &&& !(end.summary_written_at is Made) ==> s.commit_terminal(
                end.run_id,
                event_type,
                payload,
                now,
            ) == early(StoreError::SummaryNotWritten)
            &&& !(end.committed_at is Made) ==> s.bookkeep_notification(end.run_id, now) == early(
                StoreError::TerminalNotCommitted,
            )
            &&& !(end.committed_at is Made && end.notification_bookkept_at is Made)
                ==> s.claim_cleanup(end.run_id, now) == early(StoreError::CleanupNotReady)
            &&& !(end.cleanup_started_at is Made) ==> s.complete_cleanup(
                end.run_id,
                event_type,
                payload,
                now,
            ) == early(StoreError::CleanupNotClaimed)
        }),
{
    lemma_first_unique(s.terminals, terminal_key(), terminal_of(s.terminals[t].run_id), t);
}

/// An end is settled once it is published, its notification is booked and its cleanup is claimed or
/// completed; until then it has steps to make. What is shown of it is what was recorded.
pub proof fn law_end_is_settled_by_its_steps(s: TablesModel, t: int)
    requires
        s.valid(),
        0 <= t < s.terminals.len(),
    ensures
        ({
            let end = s.terminals[t];
            &&& has_steps_to_make(end) == !(end.committed_at is Made && end.notification_bookkept_at
                is Made && (end.cleanup_started_at is Made || end.cleanup_completed_at is Made))
            &&& unreconciled()(end) == (end.committed_at is NotMade || end.notification_bookkept_at
                is NotMade || (end.cleanup_started_at is NotMade && end.cleanup_completed_at
                is NotMade))
            &&& s.terminal_row(end.run_id) == Some(end)
            &&& s.terminal_transition(end.run_id) matches Some(shown) && shown.status == end.status
                && shown.error == end.error && shown.progress_message == end.progress_message
                && shown.question_interruption_reason == end.question_interruption_reason
                && shown.summary_written == (end.summary_written_at is Made) && shown.committed == (
            end.committed_at is Made)
        }),
{
    lemma_first_unique(s.terminals, terminal_key(), terminal_of(s.terminals[t].run_id), t);
}

/// A step that was made is not made again and changes nothing: a written summary, a booked notification, a
/// cleanup that is claimed or completed, a completed one. A published end without a summary is refused.
pub proof fn law_made_steps_stay(
    s: TablesModel,
    t: int,
    event_type: Seq<char>,
    payload: EventPayloadModel,
    now: Timestamp,
)
    requires
        s.valid(),
        0 <= t < s.terminals.len(),
    ensures
        ({
            let end = s.terminals[t];
            let made = Ok::<(bool, TablesModel), StoreError>((false, s));
            &&& end.summary_written_at is Made ==> s.write_summary(
                end.run_id,
                event_type,
                payload,
                now,
            ) == made
            &&& !(end.summary_written_at is Made) && end.committed_at is Made ==> s.write_summary(
                end.run_id,
                event_type,
                payload,
                now,
            ) == Err::<(bool, TablesModel), StoreError>(StoreError::SummaryMarkerMissing)
            &&& end.committed_at is Made && end.notification_bookkept_at is Made
                ==> s.bookkeep_notification(end.run_id, now) == made
            &&& end.committed_at is Made && end.notification_bookkept_at is Made && (
            end.cleanup_started_at is Made || end.cleanup_completed_at is Made) ==> s.claim_cleanup(
                end.run_id,
                now,
            ) == made
            &&& end.cleanup_started_at is Made && end.cleanup_completed_at is Made
                ==> s.complete_cleanup(end.run_id, event_type, payload, now) == made
        }),
{
    lemma_first_unique(s.terminals, terminal_key(), terminal_of(s.terminals[t].run_id), t);
}

/// An end that is published stays so: publishing it once more only interrupts launches that are still
/// open, where the run shows that end; a run that shows another is refused. An end of a run that is not
/// active any more is not published.
pub proof fn law_published_end_stays(
    s: TablesModel,
    i: int,
    t: int,
    event_type: Seq<char>,
    payload: EventPayloadModel,
    now: Timestamp,
)
    requires
        s.valid(),
        0 <= i < s.runs.len(),
        0 <= t < s.terminals.len(),
        s.terminals[t].run_id == s.runs[i].run.id,
        s.terminals[t].summary_written_at is Made,
        s.last_event_id + s.attempts.len() <= i64::MAX,
    ensures
        ({
            let run = s.runs[i].run;
            let end = s.terminals[t];
            let published = s.commit_terminal(run.id, event_type, payload, now);
            let shown = run.status == end.status && run.error == end.error;
            &&& end.committed_at is Made && shown ==> published == Ok::<
                (bool, TablesModel),
                StoreError,
            >(
                (
                    false,
                    s.interrupt_attempts(
                        run.id,
                        end.question_interruption_reason,
                        end.status,
                        now,
                    ),
                ),
            )
            &&& end.committed_at is Made && !shown ==> published == Err::<
                (bool, TablesModel),
                StoreError,
            >(StoreError::InconsistentTerminalState)
            &&& !(end.committed_at is Made) && run.status != RunStatus::Pending && run.status
                != RunStatus::Running ==> published == Err::<(bool, TablesModel), StoreError>(
                StoreError::RunAlreadyTerminal,
            )
        }),
{
    let run_id = s.runs[i].run.id;
    lemma_first_unique(s.runs, run_key(), run_has_id(run_id), i);
    lemma_first_unique(s.terminals, terminal_key(), terminal_of(run_id), t);
    lemma_select_len(s.attempts, open_attempt_of(run_id));
    lemma_ordered_len(select(s.attempts, open_attempt_of(run_id)), launch_id_order());
}

/// A run without an end on record has no step to make and shows none.
pub proof fn law_run_without_an_end(
    s: TablesModel,
    run_id: Seq<char>,
    event_type: Seq<char>,
    payload: EventPayloadModel,
    now: Timestamp,
)
    requires
        not_ended(s, run_id),
    ensures
        ({
            let missing = Err::<(bool, TablesModel), StoreError>(
                StoreError::TerminalIntentMissing,
            );
            &&& s.terminal_row(run_id) is None
            &&& s.terminal_transition(run_id) is None
            &&& s.write_summary(run_id, event_type, payload, now) == missing
            &&& s.commit_terminal(run_id, event_type, payload, now) == missing
            &&& s.bookkeep_notification(run_id, now) == missing
            &&& s.claim_cleanup(run_id, now) == missing
            &&& s.complete_cleanup(run_id, event_type, payload, now) == missing
        }),
{
    lemma_not_ended(s, run_id);
}

} // verus!
