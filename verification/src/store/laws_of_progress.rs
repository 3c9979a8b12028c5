//! What is shown of the progress of a run, and what each report makes of it.
use super::listings::{lemma_time_then_text, time_then_text};
use super::progress::{latest_launch, progress_row_of, running_at, terminal_phase};
use super::questions::{asked_order, pending_of};
use super::{progress_key, question_key, run_has_id, run_key};
use crate::domain::{RunProgressModel, RunStatus, WorkerAttemptProgressModel, WorkerQuestionModel};
use crate::rows::{ProgressRowModel, QuestionRowModel, TablesModel, WorkerObservationModel};
use crate::table::{
    any, first, law_ordered_is_sorted, lemma_first_none, lemma_first_unique, lemma_ordered_len,
    lemma_ordered_rows, lemma_select_from, lemma_select_keeps, ordered, select,
};
use crate::time::Timestamp;
use vstd::prelude::*;

verus! {

/// The row is what is shown of its run, and what is shown of every other run is as it was.
pub open spec fn progress_written(
    before: Seq<ProgressRowModel>,
    after: Seq<ProgressRowModel>,
    row: ProgressRowModel,
) -> bool {
    &&& after.contains(row)
    &&& before.len() <= after.len() <= before.len() + 1
    &&& forall|k: int|
        0 <= k < before.len() ==> #[trigger] after[k] == if before[k].run_id == row.run_id {
            row
        } else {
            before[k]
        }
    &&& forall|k: int| before.len() <= k < after.len() ==> #[trigger] after[k] == row
}

pub(super) proof fn lemma_progress_written(s: TablesModel, row: ProgressRowModel)
    ensures
        progress_written(s.progress, s.with_progress(row).progress, row),
        s.with_progress(row) == (TablesModel { progress: s.with_progress(row).progress, ..s }),
{
    let p = progress_row_of(row.run_id);
    let after = s.with_progress(row).progress;
    if any(s.progress, p) {
        let k = choose|k: int| 0 <= k < s.progress.len() && p(#[trigger] s.progress[k]);
        assert(after[k] == row);
    } else {
        assert(after[s.progress.len() as int] == row);
        assert forall|k: int| 0 <= k < s.progress.len() implies #[trigger] after[k]
            == s.progress[k] && s.progress[k].run_id != row.run_id by {
            assert(!p(s.progress[k]));
        }
    }
}

/// The question waits for an answer, and none of the run that waits was asked before it.
pub open spec fn waits_longest(s: TablesModel, run_id: Seq<char>, j: int) -> bool {
    &&& 0 <= j < s.questions.len()
    &&& s.questions[j].question.run_id == run_id
    &&& s.questions[j].question.state == "pending"@
    &&& forall|k: int|
        0 <= k < s.questions.len() && (#[trigger] s.questions[k]).question.run_id == run_id
            && s.questions[k].question.state == "pending"@ ==> !time_then_text(
            s.questions[k].question.asked_at,
            s.questions[k].question.id,
            s.questions[j].question.asked_at,
            s.questions[j].question.id,
        )
}

/// No question of the run waits for an answer.
pub open spec fn nothing_waits(s: TablesModel, run_id: Seq<char>) -> bool {
    forall|k: int|
        0 <= k < s.questions.len() ==> !((#[trigger] s.questions[k]).question.run_id == run_id
            && s.questions[k].question.state == "pending"@)
}

/// The question that is served first is the one that has waited longest.
pub proof fn law_oldest_question_is_served_first(s: TablesModel, run_id: Seq<char>, j: int)
    requires
        s.valid(),
        waits_longest(s, run_id, j),
    ensures
        s.pending_question(run_id) == Some(s.questions[j].question),
{
    let p = pending_of(run_id);
    let before = asked_order();
    let chosen = select(s.questions, p);
    let found = ordered(chosen, before);
    lemma_select_keeps(s.questions, p, s.questions[j]);
    lemma_ordered_rows(chosen, before);
    lemma_ordered_len(chosen, before);
    assert(found.contains(s.questions[j]));
    assert forall|a: QuestionRowModel, b: QuestionRowModel, c: QuestionRowModel|
        !(#[trigger] before(b, a)) && !(#[trigger] before(c, b)) implies !before(c, a) by {
        lemma_time_then_text(
            a.question.asked_at,
            a.question.id,
            b.question.asked_at,
            b.question.id,
            c.question.asked_at,
            c.question.id,
        );
    }
    assert forall|a: QuestionRowModel, b: QuestionRowModel| #[trigger]
        before(a, b) implies !before(b, a) by {
        lemma_time_then_text(
            a.question.asked_at,
            a.question.id,
            b.question.asked_at,
            b.question.id,
            b.question.asked_at,
            b.question.id,
        );
    }
    law_ordered_is_sorted(chosen, before);
    let m = choose|m: int| 0 <= m < found.len() && found[m] == s.questions[j];
    assert(found.contains(found[0]));
    assert(chosen.contains(found[0]));
    lemma_select_from(s.questions, p);
    let c = choose|c: int| 0 <= c < chosen.len() && chosen[c] == found[0];
    assert(s.questions.contains(chosen[c]));
    let k = choose|k: int| 0 <= k < s.questions.len() && s.questions[k] == found[0];
    assert(p(s.questions[k]));
    lemma_time_then_text(
        found[0].question.asked_at,
        found[0].question.id,
        found[m].question.asked_at,
        found[m].question.id,
        found[m].question.asked_at,
        found[m].question.id,
    );
    if m > 0 {
        assert(!before(found[m], found[0]));
    }
    assert(question_key()(s.questions[k]) == question_key()(s.questions[j]));
}

pub(super) proof fn lemma_nothing_waits(s: TablesModel, run_id: Seq<char>)
    requires
        nothing_waits(s, run_id),
    ensures
        s.pending_question(run_id) is None,
{
    lemma_first_none(s.questions, pending_of(run_id));
    lemma_ordered_len(select(s.questions, pending_of(run_id)), asked_order());
}

/// What waits for the operator.
pub open spec fn waiting_row(
    question: WorkerQuestionModel,
    message: Seq<char>,
    now: Timestamp,
) -> ProgressRowModel {
    ProgressRowModel {
        run_id: question.run_id,
        phase: "awaiting_operator"@,
        slice_id: question.slice_id,
        attempt: question.attempt,
        command: "ask_operator"@,
        message,
        output_tail: Seq::empty(),
        phase_started_at: now,
        updated_at: now,
        worker_attempt_started_at: None,
        observed: nothing_observed(),
    }
}

/// Nothing was observed.
pub open spec fn nothing_observed() -> WorkerObservationModel {
    WorkerObservationModel {
        pid: None,
        process_observed_at: None,
        last_event_at: None,
        last_event_kind: Seq::empty(),
        last_semantic_progress_at: None,
        last_semantic_progress_summary: Seq::empty(),
        attempt_timeout_seconds: 0,
        no_output_warning_seconds: 0,
    }
}

/// The phases at which a run has ended.
pub open spec fn is_end_phase(phase: Seq<char>) -> bool {
    phase == "blocked"@ || phase == "completed"@ || phase == "failed"@ || phase == "cancelled"@
        || phase == "interrupted"@
}

/// A report is turned away where the run is known and no longer active, unless the report is of an
/// end or of a replan that is awaited; and where an end is shown, unless the report is of an end, of a
/// start, of a resume or of a replan that is awaited. Nothing changes then.
pub proof fn law_ended_run_shows_its_end(
    s: TablesModel,
    run_id: Seq<char>,
    phase: Seq<char>,
    slice_id: Seq<char>,
    attempt: usize,
    command: Seq<char>,
    message: Seq<char>,
    output_tail: Seq<char>,
    now: Timestamp,
)
    requires
        s.valid(),
    ensures
        ({
            let run_over = exists|k: int|
                0 <= k < s.runs.len() && (#[trigger] s.runs[k]).run.id == run_id
                    && s.runs[k].run.status != RunStatus::Pending && s.runs[k].run.status
                    != RunStatus::Running;
            let end_shown = exists|k: int|
                0 <= k < s.progress.len() && (#[trigger] s.progress[k]).run_id == run_id
                    && is_end_phase(s.progress[k].phase);
            let rejected = (run_over && phase != "awaiting_replan"@ && !is_end_phase(phase)) || (
            end_shown && !is_end_phase(phase) && phase != "started"@ && phase != "resumed"@ && phase
                != "awaiting_replan"@);
            &&& s.progress_write_rejected(run_id, phase) <==> rejected
            &&& rejected ==> s.update_progress(
                run_id,
                phase,
                slice_id,
                attempt,
                command,
                message,
                output_tail,
                now,
            ) == s
        }),
{
    assert(terminal_phase(phase) == is_end_phase(phase));
    if exists|k: int| 0 <= k < s.runs.len() && (#[trigger] s.runs[k]).run.id == run_id {
        let k = choose|k: int| 0 <= k < s.runs.len() && (#[trigger] s.runs[k]).run.id == run_id;
        lemma_first_unique(s.runs, run_key(), run_has_id(run_id), k);
        assert forall|j: int|
            0 <= j < s.runs.len() && (#[trigger] s.runs[j]).run.id == run_id implies j == k by {
            assert(run_key()(s.runs[j]) == run_key()(s.runs[k]));
        }
    } else {
        lemma_first_none(s.runs, run_has_id(run_id));
    }
    if exists|k: int| 0 <= k < s.progress.len() && (#[trigger] s.progress[k]).run_id == run_id {
        let k = choose|k: int|
            0 <= k < s.progress.len() && (#[trigger] s.progress[k]).run_id == run_id;
        lemma_first_unique(s.progress, progress_key(), progress_row_of(run_id), k);
        assert(terminal_phase(s.progress[k].phase) == is_end_phase(s.progress[k].phase));
        assert forall|j: int|
            0 <= j < s.progress.len() && (#[trigger] s.progress[j]).run_id == run_id implies j
            == k by {
            assert(progress_key()(s.progress[j]) == progress_key()(s.progress[k]));
        }
    } else {
        lemma_first_none(s.progress, progress_row_of(run_id));
    }
}

/// A report that is not turned away is shown as it was made where no question waits: the phase keeps
/// the time of its start where the phase, the slice, the attempt and the command are those shown
/// before, and nothing is observed of a worker yet. Nothing but the progress changes.
pub proof fn law_report_is_shown(
    s: TablesModel,
    run_id: Seq<char>,
    phase: Seq<char>,
    slice_id: Seq<char>,
    attempt: usize,
    command: Seq<char>,
    message: Seq<char>,
    output_tail: Seq<char>,
    now: Timestamp,
)
    requires
        s.valid(),
        !s.progress_write_rejected(run_id, phase),
        nothing_waits(s, run_id),
    ensures
        ({
            let after = s.update_progress(
                run_id,
                phase,
                slice_id,
                attempt,
                command,
                message,
                output_tail,
                now,
            );
            let shown = |since: Timestamp|
                ProgressRowModel {
                    run_id,
                    phase,
                    slice_id,
                    attempt,
                    command,
                    message,
                    output_tail,
                    phase_started_at: since,
                    updated_at: now,
                    worker_attempt_started_at: None,
                    observed: nothing_observed(),
                };
            let goes_on = |row: ProgressRowModel|
                row.run_id == run_id && row.phase == phase && row.slice_id == slice_id
                    && row.attempt == attempt && row.command == command;
            &&& after == TablesModel { progress: after.progress, ..s }
            &&& forall|k: int|
                0 <= k < s.progress.len() && goes_on(#[trigger] s.progress[k]) ==> progress_written(
                    s.progress,
                    after.progress,
                    shown(s.progress[k].phase_started_at),
                )
            &&& (forall|k: int| 0 <= k < s.progress.len() ==> !goes_on(#[trigger] s.progress[k]))
                ==> progress_written(s.progress, after.progress, shown(now))
        }),
{
    lemma_nothing_waits(s, run_id);
    let p = progress_row_of(run_id);
    let since = match s.progress_row(run_id) {
        Some(row) => if row.phase == phase && row.slice_id == slice_id && row.attempt == attempt
            && row.command == command {
            row.phase_started_at
        } else {
            now
        },
        None => now,
    };
    let row = ProgressRowModel {
        run_id,
        phase,
        slice_id,
        attempt,
        command,
        message,
        output_tail,
        phase_started_at: since,
        updated_at: now,
        worker_attempt_started_at: None,
        observed: nothing_observed(),
    };
    lemma_progress_written(s, row);
    if exists|k: int| 0 <= k < s.progress.len() && p(#[trigger] s.progress[k]) {
        let k = choose|k: int| 0 <= k < s.progress.len() && p(#[trigger] s.progress[k]);
        lemma_first_unique(s.progress, progress_key(), p, k);
        assert forall|j: int|
            0 <= j < s.progress.len() && (#[trigger] s.progress[j]).run_id == run_id implies j
            == k by {
            assert(progress_key()(s.progress[j]) == progress_key()(s.progress[k]));
        }
    } else {
        lemma_first_none(s.progress, p);
    }
}

/// While a question waits, a report that is not turned away shows the question that has waited
/// longest, unless its attempt is shown as waiting already; then nothing changes.
pub proof fn law_report_shows_the_waiting_question(
    s: TablesModel,
    j: int,
    phase: Seq<char>,
    slice_id: Seq<char>,
    attempt: usize,
    command: Seq<char>,
    message: Seq<char>,
    output_tail: Seq<char>,
    now: Timestamp,
)
    requires
        s.valid(),
        0 <= j < s.questions.len(),
        waits_longest(s, s.questions[j].question.run_id, j),
        !s.progress_write_rejected(s.questions[j].question.run_id, phase),
    ensures
        ({
            let question = s.questions[j].question;
            let after = s.update_progress(
                question.run_id,
                phase,
                slice_id,
                attempt,
                command,
                message,
                output_tail,
                now,
            );
            let waiting = exists|k: int|
                0 <= k < s.progress.len() && (#[trigger] s.progress[k]).run_id == question.run_id
                    && s.progress[k].phase == "awaiting_operator"@ && s.progress[k].slice_id
                    == question.slice_id && s.progress[k].attempt == question.attempt;
            &&& waiting ==> after == s
            &&& !waiting ==> progress_written(
                s.progress,
                after.progress,
                waiting_row(
                    question,
                    "awaiting operator answer for question "@ + question.id,
                    now,
                ),
            )
            &&& after == TablesModel { progress: after.progress, ..s }
        }),
{
    let question = s.questions[j].question;
    let run_id = question.run_id;
    law_oldest_question_is_served_first(s, run_id, j);
    lemma_progress_written(
        s,
        waiting_row(question, "awaiting operator answer for question "@ + question.id, now),
    );
    let p = progress_row_of(run_id);
    if exists|k: int| 0 <= k < s.progress.len() && p(#[trigger] s.progress[k]) {
        let k = choose|k: int| 0 <= k < s.progress.len() && p(#[trigger] s.progress[k]);
        lemma_first_unique(s.progress, progress_key(), p, k);
        assert forall|i: int|
            0 <= i < s.progress.len() && (#[trigger] s.progress[i]).run_id == run_id implies i
            == k by {
            assert(progress_key()(s.progress[i]) == progress_key()(s.progress[k]));
        }
    } else {
        lemma_first_none(s.progress, p);
        assert forall|k: int| 0 <= k < s.progress.len() implies (#[trigger] s.progress[k]).run_id
            != run_id by {
            assert(!p(s.progress[k]));
        }
    }
}

/// An observation adds what it saw to what was observed before and takes nothing away: the process by
/// its number where that is given, a start or a sight of the process by its time, output by its time
/// and its stream, and the summary of output of the first stream where one was read from it. The two
/// limits are those of the observation.
pub open spec fn observation_adds(
    before: WorkerObservationModel,
    after: WorkerObservationModel,
    pid: Option<u32>,
    event_kind: Seq<char>,
    semantic_progress: Option<Seq<char>>,
    attempt_timeout_seconds: u64,
    no_output_warning_seconds: u64,
    now: Timestamp,
) -> bool {
    let of_process = event_kind == "started"@ || event_kind == "process_observed"@;
    let of_output = event_kind == "stdout"@ || event_kind == "stderr"@;
    let tells = event_kind == "stdout"@ && semantic_progress is Some;
    &&& after.pid == (if pid is Some {
        pid
    } else {
        before.pid
    })
    &&& after.process_observed_at == (if of_process {
        Some(now)
    } else {
        before.process_observed_at
    })
    &&& after.last_event_at == (if of_output {
        Some(now)
    } else {
        before.last_event_at
    })
    &&& after.last_event_kind == (if of_output {
        event_kind
    } else {
        before.last_event_kind
    })
    &&& after.last_semantic_progress_at == (if tells {
        Some(now)
    } else {
        before.last_semantic_progress_at
    })
    &&& after.last_semantic_progress_summary == (if tells {
        semantic_progress->0
    } else {
        before.last_semantic_progress_summary
    })
    &&& after.attempt_timeout_seconds == attempt_timeout_seconds
    &&& after.no_output_warning_seconds == no_output_warning_seconds
}

/// An observation of a worker that is active, or of one that no launch names, is kept with the running
/// launch that it names and with the progress that shows its phase, slice and attempt, and nowhere
/// else; the progress holds the time of the first one as the start of the worker. An observation of a
/// launch that is not active changes nothing.
pub proof fn law_observation_is_kept(
    s: TablesModel,
    run_id: Seq<char>,
    phase: Seq<char>,
    slice_id: Seq<char>,
    attempt: usize,
    launch_id: Option<i64>,
    pid: Option<u32>,
    event_kind: Seq<char>,
    semantic_progress: Option<Seq<char>>,
    attempt_timeout_seconds: u64,
    no_output_warning_seconds: u64,
    now: Timestamp,
)
    ensures
        ({
            let after = s.observe_attempt(
                run_id,
                phase,
                slice_id,
                attempt,
                launch_id,
                pid,
                event_kind,
                semantic_progress,
                attempt_timeout_seconds,
                no_output_warning_seconds,
                now,
            );
            let stale = launch_id is Some && !s.attempt_is_active(
                run_id,
                slice_id,
                attempt,
                launch_id,
            );
            &&& stale ==> after == s
            &&& after == TablesModel { attempts: after.attempts, progress: after.progress, ..s }
            &&& after.attempts.len() == s.attempts.len()
            &&& after.progress.len() == s.progress.len()
            &&& forall|k: int|
                0 <= k < s.attempts.len() && !stale ==> if launch_id
                    == Some(s.attempts[k].attempt.launch_id) && s.attempts[k].attempt.run_id == run_id
                    && s.attempts[k].attempt.slice_id == slice_id && s.attempts[k].attempt.state
                    == "running"@ {
                    &&& (#[trigger] after.attempts[k]).attempt == s.attempts[k].attempt
                    &&& after.attempts[k].worker_token_hash == s.attempts[k].worker_token_hash
                    &&& observation_adds(
                        s.attempts[k].observed,
                        after.attempts[k].observed,
                        pid,
                        event_kind,
                        semantic_progress,
                        attempt_timeout_seconds,
                        no_output_warning_seconds,
                        now,
                    )
                } else {
                    after.attempts[k] == s.attempts[k]
                }
            &&& forall|k: int|
                0 <= k < s.progress.len() && !stale ==> if s.progress[k].run_id == run_id
                    && s.progress[k].phase == phase && s.progress[k].slice_id == slice_id
                    && s.progress[k].attempt == attempt {
                    &&& observation_adds(
                        s.progress[k].observed,
                        (#[trigger] after.progress[k]).observed,
                        pid,
                        event_kind,
                        semantic_progress,
                        attempt_timeout_seconds,
                        no_output_warning_seconds,
                        now,
                    )
                    &&& after.progress[k] == ProgressRowModel {
                        updated_at: now,
                        worker_attempt_started_at: if s.progress[k].worker_attempt_started_at
                            is None {
                            Some(now)
                        } else {
                            s.progress[k].worker_attempt_started_at
                        },
                        observed: after.progress[k].observed,
                        ..s.progress[k]
                    }
                } else {
                    after.progress[k] == s.progress[k]
                }
        }),
{
}

/// What is shown of the progress of a run is its row; of its worker, once one was seen, what was
/// observed of it, under the number of its newest running launch at that attempt, where there is one.
pub proof fn law_progress_shows_the_row(s: TablesModel, k: int)
    requires
        s.valid(),
        0 <= k < s.progress.len(),
    ensures
        ({
            let row = s.progress[k];
            let o = row.observed;
            let launch = s.current_launch(row.run_id, row.slice_id, row.attempt);
            s.progress_of_run(row.run_id) == Some(
                RunProgressModel {
                    run_id: row.run_id,
                    phase: row.phase,
                    slice_id: row.slice_id,
                    attempt: row.attempt,
                    command: row.command,
                    message: row.message,
                    output_tail: row.output_tail,
                    phase_started_at: row.phase_started_at,
                    updated_at: row.updated_at,
                    worker: match row.worker_attempt_started_at {
                        None => None,
                        Some(at) => Some(
                            WorkerAttemptProgressModel {
                                launch_id: launch,
                                attempt_started_at: at,
                                pid: o.pid,
                                process_observed_at: o.process_observed_at,
                                last_event_at: o.last_event_at,
                                last_event_kind: o.last_event_kind,
                                last_semantic_progress_at: o.last_semantic_progress_at,
                                last_semantic_progress_summary: o.last_semantic_progress_summary,
                                attempt_timeout_seconds: o.attempt_timeout_seconds,
                                no_output_warning_seconds: o.no_output_warning_seconds,
                            },
                        ),
                    },
                    parallel_layer: false,
                    parallel_slices: Seq::empty(),
                },
            )
        }),
{
    lemma_first_unique(
        s.progress,
        progress_key(),
        progress_row_of(s.progress[k].run_id),
        k,
    );
}

/// The current launch of an attempt is the newest of those that run for it.
pub proof fn law_current_launch_is_the_newest(
    s: TablesModel,
    run_id: Seq<char>,
    slice_id: Seq<char>,
    attempt: usize,
    a: int,
)
    requires
        0 <= a < s.attempts.len(),
        super::laws_of_attempts::launch_serves(
            s.attempts[a],
            run_id,
            slice_id,
            attempt,
            s.attempts[a].attempt.launch_id,
        ),
    ensures
        s.current_launch(run_id, slice_id, attempt) matches Some(id)
            && s.attempts[a].attempt.launch_id <= id && exists|k: int|
            0 <= k < s.attempts.len() && super::laws_of_attempts::launch_serves(
                #[trigger] s.attempts[k],
                run_id,
                slice_id,
                attempt,
                id,
            ),
{
    let p = running_at(run_id, slice_id, attempt);
    let before = latest_launch();
    let chosen = select(s.attempts, p);
    let found = ordered(chosen, before);
    lemma_select_keeps(s.attempts, p, s.attempts[a]);
    lemma_ordered_rows(chosen, before);
    lemma_ordered_len(chosen, before);
    law_ordered_is_sorted(chosen, before);
    assert(found.contains(s.attempts[a]));
    let m = choose|m: int| 0 <= m < found.len() && found[m] == s.attempts[a];
    if m > 0 {
        assert(!before(found[m], found[0]));
    }
    assert(found.contains(found[0]));
    assert(chosen.contains(found[0]));
    lemma_select_from(s.attempts, p);
    let c = choose|c: int| 0 <= c < chosen.len() && chosen[c] == found[0];
    assert(s.attempts.contains(chosen[c]));
    let k = choose|k: int| 0 <= k < s.attempts.len() && s.attempts[k] == found[0];
    assert(p(s.attempts[k]));
}

/// A report that is marked leaves an event with the progress as it is shown then, where the log has room;
/// one of output alone leaves none. Both show what the report says.
pub proof fn law_marked_report_leaves_an_event(
    s: TablesModel,
    run_id: Seq<char>,
    scope: super::progress::ProgressScopeModel,
    output_tail: Seq<char>,
    marked: bool,
    now: Timestamp,
)
    requires
        s.last_event_id < i64::MAX,
    ensures
        ({
            let shown = s.update_progress(
                run_id,
                scope.phase,
                scope.slice_id,
                scope.attempt,
                scope.command,
                scope.message,
                output_tail,
                now,
            );
            let after = s.report(run_id, scope, output_tail, marked, now);
            &&& !marked ==> after == shown
            &&& marked && shown.progress_of_run(run_id) is None ==> after == shown
            &&& marked ==> (shown.progress_of_run(run_id) matches Some(progress) ==> after
                == TablesModel {
                events: s.events.push(
                    crate::payloads::EventModel {
                        id: (s.last_event_id + 1) as i64,
                        run_id,
                        typ: "progress"@,
                        payload: crate::payloads::EventPayloadModel::Progress(progress),
                        created_at: now,
                    },
                ),
                last_event_id: (s.last_event_id + 1) as i64,
                ..shown
            })
        }),
{
}

} // verus!
