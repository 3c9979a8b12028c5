//! What is asked, and what an answer, a lapse of time or a new attempt makes of it, row by row.
use super::laws::lemma_question_events_only;
use super::laws_of_ends::{lemma_question_log, lemma_same_choice};
use super::laws_of_progress::{
    law_oldest_question_is_served_first, lemma_nothing_waits, lemma_progress_written, nothing_waits,
    progress_written, waiting_row, waits_longest,
};
use super::questions::{
    asked_order, may_advance, new_question, occurrences, pending_for_launch, pending_on,
    question_in_run, question_replaced, question_with_id, stale_on, supersession_of,
};
use super::question_key;
use crate::domain::{
    DecisionCommandOutcome, SliceRunModel, SliceStatus, WorkerQuestionAnswerSource,
    WorkerQuestionModel, WorkerQuestionRecommendationModel,
};
use crate::error::StoreError;
use crate::payloads::{
    EventModel, EventPayloadModel, ExtraFieldModel, ExtraValueModel, RunIncidentPayloadModel,
    WorkerQuestionAnsweredPayloadModel, WorkerQuestionInterruptedPayloadModel,
};
use crate::rows::{
    ProgressRowModel, QuestionRowModel, TablesModel, WorkerQuestionDecisionCommandModel,
    WorkerQuestionDecisionTransitionModel,
};
use crate::table::{
    any, lemma_first_none, lemma_first_unique, lemma_ordered_len, lemma_ordered_rows,
    lemma_select_keeps, lemma_select_len, select,
};
use crate::text::{blank, decimal};
use crate::time::{MAX_SECONDS, Timestamp};
use vstd::prelude::*;

verus! {

/// The text is one of the options, and only once.
pub open spec fn only_option(options: Seq<Seq<char>>, text: Seq<char>) -> bool {
    exists|i: int|
        0 <= i < options.len() && #[trigger] options[i] == text && forall|j: int|
            0 <= j < options.len() && #[trigger] options[j] == text ==> j == i
}

proof fn lemma_occurrences(options: Seq<Seq<char>>, text: Seq<char>)
    ensures
        occurrences(options, text) == 0 <==> forall|i: int|
            0 <= i < options.len() ==> #[trigger] options[i] != text,
        occurrences(options, text) == 1 <==> only_option(options, text),
    decreases options.len(),
{
    if options.len() > 0 {
        let rest = options.drop_last();
        let last = options.len() - 1;
        lemma_occurrences(rest, text);
        assert(forall|i: int| 0 <= i < rest.len() ==> #[trigger] rest[i] == options[i]);
        if options[last] == text {
            if occurrences(rest, text) == 0 {
                assert forall|j: int|
                    0 <= j < options.len() && #[trigger] options[j] == text implies j == last by {
                    if j < last {
                        assert(rest[j] == options[j]);
                    }
                }
                assert(only_option(options, text));
            } else {
                let i = choose|i: int| 0 <= i < rest.len() && #[trigger] rest[i] == text;
                assert(options[i] == text);
                assert(!only_option(options, text));
            }
        } else {
            if only_option(rest, text) {
                let i = choose|i: int|
                    0 <= i < rest.len() && #[trigger] rest[i] == text && forall|j: int|
                        0 <= j < rest.len() && #[trigger] rest[j] == text ==> j == i;
                assert(options[i] == text);
                assert forall|j: int|
                    0 <= j < options.len() && #[trigger] options[j] == text implies j == i by {
                    assert(rest[j] == text);
                }
            }
            if only_option(options, text) {
                let i = choose|i: int|
                    0 <= i < options.len() && #[trigger] options[i] == text && forall|j: int|
                        0 <= j < options.len() && #[trigger] options[j] == text ==> j == i;
                assert(rest[i] == text);
                assert forall|j: int|
                    0 <= j < rest.len() && #[trigger] rest[j] == text implies j == i by {
                    assert(options[j] == text);
                }
            }
            if occurrences(rest, text) == 0 {
                assert forall|i: int| 0 <= i < options.len() implies #[trigger] options[i]
                    != text by {
                    if i < last {
                        assert(rest[i] != text);
                    }
                }
            }
        }
    }
}

/// A recommendation may stand in for the operator where it has an answer and a rationale, stays within
/// the authority of the slice or mission, can be taken back, and names exactly one of the options.
pub proof fn law_recommendation_that_may_stand_in(
    recommendation: WorkerQuestionRecommendationModel,
    options: Seq<Seq<char>>,
)
    ensures
        recommendation.eligible(options) <==> {
            &&& !blank(recommendation.recommended_answer)
            &&& !blank(recommendation.rationale)
            &&& recommendation.bounded_within_current_slice_or_mission_authority
            &&& recommendation.reversible
            &&& only_option(options, recommendation.recommended_answer)
        },
{
    lemma_occurrences(options, recommendation.recommended_answer);
}

/// A new question holds what was asked, waits for an answer, and has a deadline exactly where it has
/// a timeout and the instant can be told: the timeout after the moment at which it was asked.
pub proof fn law_new_question_waits_until_its_deadline(
    id: Seq<char>,
    run_id: Seq<char>,
    slice_id: Seq<char>,
    attempt: usize,
    launch_id: Option<i64>,
    question: Seq<char>,
    options: Seq<Seq<char>>,
    timeout_seconds: u64,
    recommendation: WorkerQuestionRecommendationModel,
    now: Timestamp,
)
    ensures
        ({
            let asked = new_question(
                id,
                run_id,
                slice_id,
                attempt,
                launch_id,
                question,
                options,
                timeout_seconds,
                recommendation,
                now,
            );
            &&& asked.deadline_at is Some <==> timeout_seconds > 0 && now.spec_seconds()
                + timeout_seconds <= MAX_SECONDS
            &&& asked.deadline_at matches Some(deadline) ==> deadline.spec_seconds()
                == asked.asked_at.spec_seconds() + timeout_seconds
            &&& asked.deadline_at matches Some(deadline) ==> now.spec_nanos() < 1_000_000_000
                ==> deadline.spec_nanos() == asked.asked_at.spec_nanos()
            &&& asked == WorkerQuestionModel {
                id,
                run_id,
                slice_id,
                attempt,
                launch_id,
                question,
                options,
                timeout_seconds,
                recommended_answer: recommendation.recommended_answer,
                recommendation_rationale: recommendation.rationale,
                bounded_within_current_slice_or_mission_authority:
                    recommendation.bounded_within_current_slice_or_mission_authority,
                reversible: recommendation.reversible,
                fallback_eligible: asked.fallback_eligible,
                deadline_at: asked.deadline_at,
                state: "pending"@,
                asked_at: now,
                answered_at: None,
                answer: Seq::empty(),
                answer_source: None,
            }
            &&& asked.fallback_eligible <==> {
                &&& !blank(recommendation.recommended_answer)
                &&& !blank(recommendation.rationale)
                &&& recommendation.bounded_within_current_slice_or_mission_authority
                &&& recommendation.reversible
                &&& only_option(options, recommendation.recommended_answer)
            }
        }),
{
    now.law_plus_seconds(timeout_seconds as nat);
    law_recommendation_that_may_stand_in(recommendation, options);
}

/// No recommendation stands in for the operator before the timeout of a question has passed since it
/// was asked, nor at all where the question has no timeout.
pub proof fn law_new_question_is_left_to_the_operator_until_its_timeout(
    id: Seq<char>,
    run_id: Seq<char>,
    slice_id: Seq<char>,
    attempt: usize,
    launch_id: Option<i64>,
    question: Seq<char>,
    options: Seq<Seq<char>>,
    timeout_seconds: u64,
    recommendation: WorkerQuestionRecommendationModel,
    asked_at: Timestamp,
    answer: Seq<char>,
    now: Timestamp,
)
    requires
        timeout_seconds == 0 || now.spec_seconds() < asked_at.spec_seconds() + timeout_seconds,
    ensures
        ({
            let asked = new_question(
                id,
                run_id,
                slice_id,
                attempt,
                launch_id,
                question,
                options,
                timeout_seconds,
                recommendation,
                asked_at,
            );
            &&& !TablesModel::applies_recommendation(asked, true, now)
            &&& TablesModel::fallback_refusal(asked, answer, now) is Some
        }),
{
    asked_at.law_plus_seconds(timeout_seconds as nat);
}

/// From the deadline on, and not before, an eligible recommendation stands in for the operator where
/// that was asked for; as an answer of its own it has to be the recommended one.
pub proof fn law_recommendation_stands_in_from_the_deadline(
    question: WorkerQuestionModel,
    answer: Seq<char>,
    wanted: bool,
    now: Timestamp,
)
    ensures
        ({
            let eligible = question.fallback_eligible && !blank(question.recommended_answer)
                && !blank(question.recommendation_rationale)
                && question.bounded_within_current_slice_or_mission_authority && question.reversible
                && only_option(question.options, question.recommended_answer);
            let due = question.deadline_at matches Some(deadline) && (deadline.spec_seconds()
                < now.spec_seconds() || (deadline.spec_seconds() == now.spec_seconds()
                && deadline.spec_nanos() <= now.spec_nanos()));
            &&& TablesModel::applies_recommendation(question, wanted, now) <==> wanted && eligible
                && due
            &&& TablesModel::fallback_refusal(question, answer, now) is None <==> eligible && due
                && answer == question.recommended_answer
            &&& !eligible ==> TablesModel::fallback_refusal(question, answer, now) == Some(
                StoreError::NoEligibleRecommendation,
            )
            &&& eligible && answer != question.recommended_answer
                ==> TablesModel::fallback_refusal(question, answer, now) == Some(
                StoreError::AnswerNotRecommended,
            )
            &&& eligible && answer == question.recommended_answer && question.deadline_at is None
                ==> TablesModel::fallback_refusal(question, answer, now) == Some(
                StoreError::NoFallbackDeadline,
            )
            &&& eligible && answer == question.recommended_answer && question.deadline_at is Some
                && !due ==> TablesModel::fallback_refusal(question, answer, now) == Some(
                StoreError::BeforeDeadline,
            )
        }),
{
    law_recommendation_that_may_stand_in(question.recommendation(), question.options);
}

/// The attempt waits for an answer.
pub open spec fn attempt_waits(
    s: TablesModel,
    run_id: Seq<char>,
    slice_id: Seq<char>,
    attempt: usize,
) -> bool {
    exists|k: int|
        0 <= k < s.questions.len() && (#[trigger] s.questions[k]).question.run_id == run_id
            && s.questions[k].question.slice_id == slice_id && s.questions[k].question.attempt
            == attempt && s.questions[k].question.state == "pending"@
}

/// A question is taken from an active attempt that waits for no other answer, under a name that is
/// not taken; from anyone else it is refused.
pub proof fn law_active_attempt_may_ask(
    s: TablesModel,
    id: Seq<char>,
    run_id: Seq<char>,
    slice_id: Seq<char>,
    attempt: usize,
    launch_id: Option<i64>,
)
    ensures
        ({
            let refusal = s.open_question_refusal(id, run_id, slice_id, attempt, launch_id);
            let active = s.attempt_is_active(run_id, slice_id, attempt, launch_id);
            let waits = attempt_waits(s, run_id, slice_id, attempt);
            let taken = exists|k: int|
                0 <= k < s.questions.len() && (#[trigger] s.questions[k]).question.id == id;
            &&& refusal is None <==> active && !waits && !taken
            &&& !active ==> refusal == Some(StoreError::QuestionFromInactiveAttempt)
            &&& active && waits ==> refusal == Some(StoreError::PendingQuestionExists)
            &&& active && !waits && taken ==> refusal == Some(StoreError::QuestionExists)
        }),
{
    let p = pending_on(run_id, slice_id, attempt);
    if any(s.questions, p) {
        let k = choose|k: int| 0 <= k < s.questions.len() && p(#[trigger] s.questions[k]);
        assert(s.questions[k].question.run_id == run_id);
    } else {
        assert forall|k: int| 0 <= k < s.questions.len() implies !((
        #[trigger] s.questions[k]).question.run_id == run_id && s.questions[k].question.slice_id
            == slice_id && s.questions[k].question.attempt == attempt
            && s.questions[k].question.state == "pending"@) by {
            assert(!p(s.questions[k]));
        }
    }
    let q = question_with_id(id);
    if any(s.questions, q) {
        let k = choose|k: int| 0 <= k < s.questions.len() && q(#[trigger] s.questions[k]);
        assert(s.questions[k].question.id == id);
    } else {
        assert forall|k: int| 0 <= k < s.questions.len() implies (
        #[trigger] s.questions[k]).question.id != id by {
            assert(!q(s.questions[k]));
        }
    }
}

/// An attempt has a question that waits, as one of its launches sees it, where the question waits for
/// the attempt and was asked by that launch or by none that is named.
pub proof fn law_launch_sees_its_waiting_question(
    s: TablesModel,
    run_id: Seq<char>,
    slice_id: Seq<char>,
    attempt: usize,
    launch_id: Option<i64>,
)
    ensures
        any(s.questions, pending_for_launch(run_id, slice_id, attempt, launch_id)) <==> exists|k: int|

            0 <= k < s.questions.len() && (#[trigger] s.questions[k]).question.run_id == run_id
                && s.questions[k].question.slice_id == slice_id && s.questions[k].question.attempt
                == attempt && s.questions[k].question.state == "pending"@ && (
            s.questions[k].question.launch_id is None || s.questions[k].question.launch_id
                == launch_id),
{
    let p = pending_for_launch(run_id, slice_id, attempt, launch_id);
    if any(s.questions, p) {
        let k = choose|k: int| 0 <= k < s.questions.len() && p(#[trigger] s.questions[k]);
        assert(s.questions[k].question.run_id == run_id);
    } else {
        assert forall|k: int| 0 <= k < s.questions.len() implies !((
        #[trigger] s.questions[k]).question.run_id == run_id && s.questions[k].question.slice_id
            == slice_id && s.questions[k].question.attempt == attempt
            && s.questions[k].question.state == "pending"@ && (s.questions[k].question.launch_id
            is None || s.questions[k].question.launch_id == launch_id)) by {
            assert(!p(s.questions[k]));
        }
    }
}

/// A question that was opened is the newest one, the log ends by the event of it, and the run is shown
/// as waiting for the operator on the attempt that asked.
pub proof fn law_opened_question_is_shown(
    s: TablesModel,
    question: WorkerQuestionModel,
    asked_event_type: Seq<char>,
    payload: EventPayloadModel,
    progress_message: Seq<char>,
    now: Timestamp,
)
    ensures
        ({
            let after = s.open_question(
                question,
                asked_event_type,
                payload,
                progress_message,
                now,
            );
            &&& after == TablesModel {
                questions: s.questions.push(QuestionRowModel { question, resolution: None }),
                events: s.events.push(
                    EventModel {
                        id: (s.last_event_id + 1) as i64,
                        run_id: question.run_id,
                        typ: asked_event_type,
                        payload,
                        created_at: now,
                    },
                ),
                last_event_id: (s.last_event_id + 1) as i64,
                progress: after.progress,
                ..s
            }
            &&& progress_written(
                s.progress,
                after.progress,
                waiting_row(question, progress_message, now),
            )
        }),
{
    let told = s.with_question(question).with_event(
        question.run_id,
        asked_event_type,
        payload,
        now,
    );
    lemma_progress_written(told, waiting_row(question, progress_message, now));
}

/// What is shown after a question was resolved: where another one of the run waits, the one that has
/// waited longest; else the attempt that asked is at work again, with the message of the resolution.
pub open spec fn shown_after_resolution(
    s: TablesModel,
    q: int,
    resolved: QuestionRowModel,
    message: Seq<char>,
    after: Seq<ProgressRowModel>,
    now: Timestamp,
) -> bool {
    let rest = TablesModel { questions: s.questions.update(q, resolved), ..s };
    let question = s.questions[q].question;
    &&& nothing_waits(rest, question.run_id) ==> after.len() == s.progress.len() && forall|k: int|
        0 <= k < s.progress.len() ==> #[trigger] after[k] == if s.progress[k].run_id
            == question.run_id && s.progress[k].phase == "awaiting_operator"@
            && s.progress[k].slice_id == question.slice_id && s.progress[k].attempt
            == question.attempt {
            ProgressRowModel {
                phase: "worker_running"@,
                command: "ask_operator"@,
                message,
                output_tail: Seq::empty(),
                phase_started_at: now,
                updated_at: now,
                ..s.progress[k]
            }
        } else {
            s.progress[k]
        }
    &&& forall|j: int|
        waits_longest(rest, question.run_id, j) ==> progress_written(
            s.progress,
            after,
            waiting_row(
                (#[trigger] s.questions[j]).question,
                "awaiting operator answer for question "@ + s.questions[j].question.id,
                now,
            ),
        )
}

proof fn lemma_question_stands(s: TablesModel, q: int, row: QuestionRowModel)
    requires
        s.valid(),
        0 <= q < s.questions.len(),
        row.question.id == s.questions[q].question.id,
    ensures
        s.with_question_row(row.question.id, row) == (TablesModel {
            questions: s.questions.update(q, row),
            ..s
        }),
        (TablesModel { questions: s.questions.update(q, row), ..s }).valid(),
        s.question_row(row.question.id, s.questions[q].question.run_id) == Some(s.questions[q]),
{
    let id = row.question.id;
    let after = s.questions.map_values(question_replaced(id, row));
    assert forall|k: int| 0 <= k < s.questions.len() && k != q implies #[trigger] after[k]
        == s.questions[k] by {
        assert(question_key()(s.questions[k]) != question_key()(s.questions[q]));
    }
    assert(after =~= s.questions.update(q, row));
    let updated = s.questions.update(q, row);
    assert forall|i: int, j: int|
        #![trigger updated[i], updated[j]]
        0 <= i < updated.len() && 0 <= j < updated.len() && question_key()(updated[i])
            == question_key()(updated[j]) implies i == j by {
        assert(question_key()(s.questions[i]) == question_key()(s.questions[j]));
    }
    lemma_first_unique(
        s.questions,
        question_key(),
        question_in_run(id, s.questions[q].question.run_id),
        q,
    );
}

proof fn lemma_shown_after_resolution(
    s: TablesModel,
    q: int,
    resolved: QuestionRowModel,
    message: Seq<char>,
    now: Timestamp,
)
    requires
        s.valid(),
        0 <= q < s.questions.len(),
        resolved.question.id == s.questions[q].question.id,
        resolved.question.state != "pending"@,
    ensures
        ({
            let rest = TablesModel { questions: s.questions.update(q, resolved), ..s };
            let question = s.questions[q].question;
            let after = rest.after_resolution(question.run_id, question, message, now);
            &&& after == TablesModel { progress: after.progress, ..rest }
            &&& shown_after_resolution(s, q, resolved, message, after.progress, now)
        }),
{
    let rest = TablesModel { questions: s.questions.update(q, resolved), ..s };
    let question = s.questions[q].question;
    let run_id = question.run_id;
    let after = rest.after_resolution(run_id, question, message, now);
    lemma_question_stands(s, q, resolved);
    if nothing_waits(rest, run_id) {
        lemma_nothing_waits(rest, run_id);
    }
    match rest.pending_question(run_id) {
        Some(next) => {
            lemma_progress_written(
                rest,
                super::progress::fresh_progress(
                    run_id,
                    "awaiting_operator"@,
                    next.slice_id,
                    next.attempt,
                    "ask_operator"@,
                    super::progress::awaiting_message(next.id),
                    Seq::empty(),
                    now,
                    now,
                ),
            );
        },
        None => {},
    }
    assert forall|j: int| waits_longest(rest, run_id, j) implies progress_written(
        s.progress,
        after.progress,
        waiting_row(
            (#[trigger] s.questions[j]).question,
            "awaiting operator answer for question "@ + s.questions[j].question.id,
            now,
        ),
    ) by {
        law_oldest_question_is_served_first(rest, run_id, j);
        assert(j != q);
        assert(rest.questions[j] == s.questions[j]);
    }
}

/// An answer to a question that waits, from an active attempt, is applied: the question is answered
/// with it, by its source and at its time, the command is kept with it, the log ends by telling of it
/// and the worker is shown as going on. Nothing else changes.
pub proof fn law_answer_resolves_the_question(
    s: TablesModel,
    q: int,
    answer: Seq<char>,
    answer_source: WorkerQuestionAnswerSource,
    progress_message: Seq<char>,
    now: Timestamp,
)
    requires
        s.valid(),
        0 <= q < s.questions.len(),
        s.questions[q].question.state == "pending"@,
        s.attempt_is_active(
            s.questions[q].question.run_id,
            s.questions[q].question.slice_id,
            s.questions[q].question.attempt,
            s.questions[q].question.launch_id,
        ),
        s.last_event_id < i64::MAX,
    ensures
        ({
            let question = s.questions[q].question;
            let command = WorkerQuestionDecisionCommandModel::Answer {
                answer,
                answer_source,
                progress_message,
            };
            let decided = s.decide_question(question.run_id, question.id, command, now);
            let resolved = QuestionRowModel {
                question: WorkerQuestionModel {
                    state: "answered"@,
                    answered_at: Some(now),
                    answer,
                    answer_source: Some(answer_source),
                    ..question
                },
                resolution: Some(command),
            };
            let refused = answer_source == WorkerQuestionAnswerSource::LlmRecommendationTimeout
                && TablesModel::fallback_refusal(question, answer, now) is Some;
            let after = decided->Ok_0.1;
            &&& refused ==> decided == Err::<
                (WorkerQuestionDecisionTransitionModel, TablesModel),
                StoreError,
            >(TablesModel::fallback_refusal(question, answer, now)->0)
            &&& !refused ==> {
                &&& decided is Ok
                &&& decided->Ok_0.0 == WorkerQuestionDecisionTransitionModel {
                    outcome: DecisionCommandOutcome::Applied,
                    question: Some(resolved.question),
                }
                &&& after == TablesModel {
                    questions: s.questions.update(q, resolved),
                    events: s.events.push(
                        EventModel {
                            id: (s.last_event_id + 1) as i64,
                            run_id: question.run_id,
                            typ: "worker_question_answered"@,
                            payload: EventPayloadModel::WorkerQuestionAnswered(
                                WorkerQuestionAnsweredPayloadModel {
                                    question_id: question.id,
                                    slice_id: question.slice_id,
                                    launch_id: question.launch_id,
                                    answer,
                                    answer_source: answer_source.text(),
                                    recommended_answer: question.recommended_answer,
                                    recommendation_rationale: question.recommendation_rationale,
                                },
                            ),
                            created_at: now,
                        },
                    ),
                    last_event_id: (s.last_event_id + 1) as i64,
                    progress: after.progress,
                    ..s
                }
                &&& shown_after_resolution(s, q, resolved, progress_message, after.progress, now)
            }
        }),
{
    let question = s.questions[q].question;
    let command = WorkerQuestionDecisionCommandModel::Answer {
        answer,
        answer_source,
        progress_message,
    };
    let resolved = QuestionRowModel {
        question: WorkerQuestionModel {
            state: "answered"@,
            answered_at: Some(now),
            answer,
            answer_source: Some(answer_source),
            ..question
        },
        resolution: Some(command),
    };
    reveal_strlit("pending");
    reveal_strlit("answered");
    assert("answered"@.len() == 8 && "pending"@.len() == 7);
    lemma_question_stands(s, q, resolved);
    lemma_shown_after_resolution(s, q, resolved, progress_message, now);
}

/// When the time of a question of an active attempt is up, the recommendation is applied where that
/// was asked for and it may stand in; the question has timed out elsewhere, without an answer, and
/// the log tells of a warning with the question. A question of an attempt that is no longer active is
/// interrupted, and the command finds it stale; one that another launch asked is left alone.
pub proof fn law_lapse_of_time_resolves_the_question(
    s: TablesModel,
    q: int,
    expected_launch_id: Option<i64>,
    apply_recommendation_at_deadline: bool,
    incident_code: Seq<char>,
    message_prefix: Seq<char>,
    progress_message: Seq<char>,
    now: Timestamp,
)
    requires
        s.valid(),
        0 <= q < s.questions.len(),
        s.questions[q].question.state == "pending"@,
        s.last_event_id < i64::MAX,
    ensures
        ({
            let question = s.questions[q].question;
            let command = WorkerQuestionDecisionCommandModel::Timeout {
                expected_launch_id,
                apply_recommendation_at_deadline,
                incident_code,
                message_prefix,
                progress_message,
            };
            let decided = s.decide_question(question.run_id, question.id, command, now);
            let after = decided->Ok_0.1;
            let told = after.events.last();
            let active = s.attempt_is_active(
                question.run_id,
                question.slice_id,
                question.attempt,
                question.launch_id,
            );
            let stands_in = TablesModel::applies_recommendation(
                question,
                apply_recommendation_at_deadline,
                now,
            );
            let resolved = if !active {
                QuestionRowModel {
                    question: WorkerQuestionModel {
                        state: "interrupted"@,
                        answered_at: Some(now),
                        answer: "worker attempt became inactive before question resolution"@,
                        ..question
                    },
                    ..s.questions[q]
                }
            } else if stands_in {
                QuestionRowModel {
                    question: WorkerQuestionModel {
                        state: "answered"@,
                        answered_at: Some(now),
                        answer: question.recommended_answer,
                        answer_source: Some(WorkerQuestionAnswerSource::LlmRecommendationTimeout),
                        ..question
                    },
                    resolution: Some(command),
                }
            } else {
                QuestionRowModel {
                    question: WorkerQuestionModel {
                        state: "timed_out"@,
                        answered_at: Some(now),
                        ..question
                    },
                    resolution: Some(command),
                }
            };
            &&& decided is Ok
            &&& expected_launch_id != question.launch_id ==> decided->Ok_0.0
                == WorkerQuestionDecisionTransitionModel {
                outcome: DecisionCommandOutcome::StaleToken,
                question: Some(question),
            } && after == s
            &&& expected_launch_id == question.launch_id ==> {
                &&& decided->Ok_0.0 == WorkerQuestionDecisionTransitionModel {
                    outcome: if active {
                        DecisionCommandOutcome::Applied
                    } else {
                        DecisionCommandOutcome::StaleToken
                    },
                    question: Some(resolved.question),
                }
                &&& after == TablesModel {
                    questions: s.questions.update(q, resolved),
                    events: s.events.push(told),
                    last_event_id: (s.last_event_id + 1) as i64,
                    progress: after.progress,
                    ..s
                }
                &&& told.id == s.last_event_id + 1
                &&& told.run_id == question.run_id
                &&& told.created_at == now
                &&& !active ==> {
                    &&& after.progress == s.progress
                    &&& told.typ == "worker_question_interrupted"@
                    &&& told.payload == EventPayloadModel::WorkerQuestionInterrupted(
                        WorkerQuestionInterruptedPayloadModel {
                            question_id: question.id,
                            slice_id: question.slice_id,
                            attempt: question.attempt,
                            launch_id: question.launch_id,
                            active_attempt: None,
                            reason: "worker attempt became inactive before question resolution"@,
                            terminal_status: None,
                        },
                    )
                }
                &&& active && stands_in ==> {
                    &&& shown_after_resolution(
                        s,
                        q,
                        resolved,
                        "LLM recommendation applied at deadline for "@ + question.id
                            + "; worker resuming"@,
                        after.progress,
                        now,
                    )
                    &&& told.typ == "worker_question_answered"@
                    &&& told.payload == EventPayloadModel::WorkerQuestionAnswered(
                        WorkerQuestionAnsweredPayloadModel {
                            question_id: question.id,
                            slice_id: question.slice_id,
                            launch_id: question.launch_id,
                            answer: question.recommended_answer,
                            answer_source: "llm_recommendation_timeout"@,
                            recommended_answer: question.recommended_answer,
                            recommendation_rationale: question.recommendation_rationale,
                        },
                    )
                }
                &&& active && !stands_in ==> {
                    &&& shown_after_resolution(
                        s,
                        q,
                        resolved,
                        progress_message,
                        after.progress,
                        now,
                    )
                    &&& told.typ == "run_incident"@
                    &&& told.payload matches EventPayloadModel::RunIncident(incident) && incident
                        == (RunIncidentPayloadModel {
                        severity: "warning"@,
                        kind: incident_code,
                        message: message_prefix + ": "@ + question.question,
                        failure_kind: Seq::empty(),
                        resolution_owner: Seq::empty(),
                        operator_action_required: None,
                        retryable: None,
                        fix_commands: Seq::empty(),
                        extra: incident.extra,
                    }) && incident.extra.len() == 2 && incident.extra.contains(
                        ExtraFieldModel {
                            key: "question_id"@,
                            value: ExtraValueModel::Text(question.id),
                        },
                    ) && incident.extra.contains(
                        ExtraFieldModel {
                            key: "slice_id"@,
                            value: ExtraValueModel::Text(question.slice_id),
                        },
                    )
                }
            }
        }),
{
    let question = s.questions[q].question;
    let row = s.questions[q];
    let command = WorkerQuestionDecisionCommandModel::Timeout {
        expected_launch_id,
        apply_recommendation_at_deadline,
        incident_code,
        message_prefix,
        progress_message,
    };
    reveal_strlit("pending");
    reveal_strlit("answered");
    reveal_strlit("timed_out");
    reveal_strlit("interrupted");
    reveal_strlit("question_id");
    reveal_strlit("slice_id");
    assert("answered"@.len() == 8 && "pending"@.len() == 7 && "timed_out"@.len() == 9
        && "interrupted"@.len() == 11 && "question_id"@.len() == 11 && "slice_id"@.len() == 8);
    let interrupted = super::questions::interrupted(row, super::questions::inactive_reason(), now);
    lemma_question_stands(s, q, interrupted);
    let answered = super::questions::answered(
        row,
        question.recommended_answer,
        WorkerQuestionAnswerSource::LlmRecommendationTimeout,
        command,
        now,
    );
    lemma_question_stands(s, q, answered);
    lemma_shown_after_resolution(
        s,
        q,
        answered,
        super::questions::fallback_message(question.id),
        now,
    );
    let timed_out = super::questions::timed_out(row, command, now);
    lemma_question_stands(s, q, timed_out);
    lemma_shown_after_resolution(s, q, timed_out, progress_message, now);
    let none = Seq::<ExtraFieldModel>::empty();
    crate::incidents::law_field_is_set(
        none,
        "question_id"@,
        ExtraValueModel::Text(question.id),
    );
    let one = crate::incidents::with_field(
        none,
        "question_id"@,
        ExtraValueModel::Text(question.id),
    );
    crate::incidents::law_field_is_set(
        one,
        "slice_id"@,
        ExtraValueModel::Text(question.slice_id),
    );
    assert(one.len() == 1 && one.last().key == "question_id"@);
    assert("question_id"@[0] == 'q' && "slice_id"@[0] == 's');
    crate::text::law_text_order_goes_by_characters("question_id"@, "slice_id"@, 0);
}

/// A command on a question that nobody asked in that run finds nothing and changes nothing.
pub proof fn law_unknown_question_is_not_found(
    s: TablesModel,
    run_id: Seq<char>,
    question_id: Seq<char>,
    command: WorkerQuestionDecisionCommandModel,
    reason: Seq<char>,
    now: Timestamp,
)
    requires
        forall|k: int|
            0 <= k < s.questions.len() ==> !((#[trigger] s.questions[k]).question.id == question_id
                && s.questions[k].question.run_id == run_id),
    ensures
        s.decide_question(run_id, question_id, command, now) == Ok::<
            (WorkerQuestionDecisionTransitionModel, TablesModel),
            StoreError,
        >(
            (
                WorkerQuestionDecisionTransitionModel {
                    outcome: DecisionCommandOutcome::NotFound,
                    question: None,
                },
                s,
            ),
        ),
        s.interrupt_if_inactive(run_id, question_id, reason, now) == Err::<
            (WorkerQuestionModel, TablesModel),
            StoreError,
        >(StoreError::QuestionNotFound),
{
    lemma_first_none(s.questions, question_in_run(question_id, run_id));
}

/// A question that waits for an attempt that is no longer active is interrupted with the reason; any
/// other question is handed back as it is.
pub proof fn law_inactive_question_is_interrupted(
    s: TablesModel,
    q: int,
    reason: Seq<char>,
    now: Timestamp,
)
    requires
        s.valid(),
        0 <= q < s.questions.len(),
        s.last_event_id < i64::MAX,
    ensures
        ({
            let question = s.questions[q].question;
            let answer = s.interrupt_if_inactive(question.run_id, question.id, reason, now);
            let active = s.attempt_is_active(
                question.run_id,
                question.slice_id,
                question.attempt,
                question.launch_id,
            );
            let interrupted = WorkerQuestionModel {
                state: "interrupted"@,
                answered_at: Some(now),
                answer: reason,
                ..question
            };
            &&& question.state != "pending"@ || active ==> answer == Ok::<
                (WorkerQuestionModel, TablesModel),
                StoreError,
            >((question, s))
            &&& question.state == "pending"@ && !active ==> answer == Ok::<
                (WorkerQuestionModel, TablesModel),
                StoreError,
            >(
                (
                    interrupted,
                    TablesModel {
                        questions: s.questions.update(
                            q,
                            QuestionRowModel { question: interrupted, ..s.questions[q] },
                        ),
                        events: s.events.push(
                            EventModel {
                                id: (s.last_event_id + 1) as i64,
                                run_id: question.run_id,
                                typ: "worker_question_interrupted"@,
                                payload: EventPayloadModel::WorkerQuestionInterrupted(
                                    WorkerQuestionInterruptedPayloadModel {
                                        question_id: question.id,
                                        slice_id: question.slice_id,
                                        attempt: question.attempt,
                                        launch_id: question.launch_id,
                                        active_attempt: None,
                                        reason,
                                        terminal_status: None,
                                    },
                                ),
                                created_at: now,
                            },
                        ),
                        last_event_id: (s.last_event_id + 1) as i64,
                        ..s
                    },
                ),
            )
        }),
{
    let question = s.questions[q].question;
    lemma_question_stands(
        s,
        q,
        super::questions::interrupted(s.questions[q], reason, now),
    );
}

/// A slice that is running or under repair is taken to an attempt that is not behind its own; then
/// every question that waits for another attempt of the slice is interrupted with the number of the
/// new attempt, one event each tells of them, and nothing else changes. A slice in another state, or
/// ahead of the attempt, refuses it.
pub proof fn law_new_attempt_takes_the_slice(
    s: TablesModel,
    run_id: Seq<char>,
    slice_id: Seq<char>,
    attempt: usize,
    now: Timestamp,
)
    requires
        s.last_event_id + s.questions.len() <= i64::MAX,
    ensures
        ({
            let refusal = s.activate_attempt_refusal(run_id, slice_id, attempt);
            let after = s.activate_attempt(run_id, slice_id, attempt, now);
            let may = |row: SliceRunModel|
                row.run_id == run_id && row.slice_id == slice_id && (row.status
                    == SliceStatus::Running || row.status == SliceStatus::RepairNeeded)
                    && row.attempts <= attempt;
            let stale = |row: QuestionRowModel|
                row.question.run_id == run_id && row.question.slice_id == slice_id
                    && row.question.state == "pending"@ && row.question.attempt != attempt;
            let n = s.events.len() as int;
            &&& refusal is None <==> exists|k: int|
                0 <= k < s.slices.len() && may(#[trigger] s.slices[k])
            &&& refusal matches Some(error) ==> error == StoreError::StaleSliceAttempt
            &&& after == TablesModel {
                slices: after.slices,
                questions: after.questions,
                events: after.events,
                last_event_id: after.last_event_id,
                ..s
            }
            &&& after.slices.len() == s.slices.len()
            &&& forall|k: int|
                0 <= k < s.slices.len() ==> #[trigger] after.slices[k] == if may(s.slices[k]) {
                    SliceRunModel { attempts: attempt, ..s.slices[k] }
                } else {
                    s.slices[k]
                }
            &&& after.questions.len() == s.questions.len()
            &&& forall|k: int|
                0 <= k < s.questions.len() ==> #[trigger] after.questions[k] == if stale(
                    s.questions[k],
                ) {
                    QuestionRowModel {
                        question: WorkerQuestionModel {
                            state: "interrupted"@,
                            answered_at: Some(now),
                            answer: "superseded by worker attempt "@ + decimal(attempt as nat),
                            ..s.questions[k].question
                        },
                        ..s.questions[k]
                    }
                } else {
                    s.questions[k]
                }
            &&& after.events.len() == n + select(s.questions, stale).len()
            &&& forall|i: int| 0 <= i < n ==> #[trigger] after.events[i] == s.events[i]
            &&& forall|k: int|
                0 <= k < s.questions.len() && stale(#[trigger] s.questions[k]) ==> exists|i: int|
                    n <= i < after.events.len() && (#[trigger] after.events[i]).run_id == run_id
                        && after.events[i].typ == "worker_question_interrupted"@
                        && after.events[i].created_at == now && after.events[i].payload
                        == EventPayloadModel::WorkerQuestionInterrupted(
                        WorkerQuestionInterruptedPayloadModel {
                            question_id: s.questions[k].question.id,
                            slice_id,
                            attempt: s.questions[k].question.attempt,
                            launch_id: None,
                            active_attempt: Some(attempt),
                            reason: "superseded_by_worker_attempt"@,
                            terminal_status: None,
                        },
                    )
        }),
{
    let rows = s.stale_questions(run_id, slice_id, attempt);
    let p = stale_on(run_id, slice_id, attempt);
    let after = s.activate_attempt(run_id, slice_id, attempt, now);
    let stale = |row: QuestionRowModel|
        row.question.run_id == run_id && row.question.slice_id == slice_id && row.question.state
            == "pending"@ && row.question.attempt != attempt;
    lemma_same_choice(s.questions, stale, p);
    lemma_select_len(s.questions, p);
    lemma_ordered_len(select(s.questions, p), asked_order());
    let advanced = TablesModel {
        slices: s.slices.map_values(super::questions::slice_advanced(run_id, slice_id, attempt)),
        questions: s.questions.map_values(
            super::questions::superseded(run_id, slice_id, attempt, now),
        ),
        ..s
    };
    let payload = supersession_of(slice_id, attempt);
    lemma_question_events_only(advanced, run_id, rows, payload, now);
    lemma_question_log(advanced, run_id, rows, payload, now);
    let m = may_advance(run_id, slice_id, attempt);
    if any(s.slices, m) {
        let k = choose|k: int| 0 <= k < s.slices.len() && m(#[trigger] s.slices[k]);
        assert(s.slices[k].run_id == run_id);
    } else {
        assert forall|k: int| 0 <= k < s.slices.len() implies !m(#[trigger] s.slices[k]) by {}
    }
    let n = s.events.len() as int;
    assert forall|k: int|
        0 <= k < s.questions.len() && stale(#[trigger] s.questions[k]) implies exists|i: int|
        n <= i < after.events.len() && (#[trigger] after.events[i]).run_id == run_id
            && after.events[i].typ == "worker_question_interrupted"@ && after.events[i].created_at
            == now && after.events[i].payload == EventPayloadModel::WorkerQuestionInterrupted(
            WorkerQuestionInterruptedPayloadModel {
                question_id: s.questions[k].question.id,
                slice_id,
                attempt: s.questions[k].question.attempt,
                launch_id: None,
                active_attempt: Some(attempt),
                reason: "superseded_by_worker_attempt"@,
                terminal_status: None,
            },
        ) by {
        lemma_select_keeps(s.questions, p, s.questions[k]);
        lemma_ordered_rows(select(s.questions, p), asked_order());
        assert(rows.contains(s.questions[k]));
        let i = choose|i: int| 0 <= i < rows.len() && rows[i] == s.questions[k];
        assert(after.events[n + i].payload == payload(rows[i]));
    }
}

/// The questions of a repository are those of the runs at its path, each of them.
pub proof fn law_questions_of_a_repository(s: TablesModel, repo_path: Seq<char>, q: int, r: int)
    requires
        s.valid(),
        0 <= q < s.questions.len(),
    ensures
        0 <= r < s.runs.len() && s.runs[r].run.id == s.questions[q].question.run_id
            && s.runs[r].run.repo_path == repo_path ==> s.questions_of_repo(repo_path).contains(
            s.questions[q].question,
        ),
        forall|i: int|
            0 <= i < s.questions_of_repo(repo_path).len() ==> exists|k: int|
                0 <= k < s.runs.len() && (#[trigger] s.runs[k]).run.id == (
                #[trigger] s.questions_of_repo(repo_path)[i]).run_id && s.runs[k].run.repo_path
                    == repo_path,
{
    super::listings::law_questions_of_repo_ascend(s, repo_path);
    let list = s.questions_of_repo(repo_path);
    if 0 <= r < s.runs.len() && s.runs[r].run.id == s.questions[q].question.run_id
        && s.runs[r].run.repo_path == repo_path {
        let p = super::questions::run_in_repo(s.questions[q].question.run_id, repo_path);
        assert(p(s.runs[r]));
        assert(any(s.runs, p));
        assert(super::questions::question_of_repo(s.runs, repo_path)(s.questions[q]));
    }
    assert forall|i: int| 0 <= i < list.len() implies exists|k: int|
        0 <= k < s.runs.len() && (#[trigger] s.runs[k]).run.id == (#[trigger] list[i]).run_id
            && s.runs[k].run.repo_path == repo_path by {
        let p = super::questions::run_in_repo(list[i].run_id, repo_path);
        assert(any(s.runs, p));
        let k = choose|k: int| 0 <= k < s.runs.len() && p(#[trigger] s.runs[k]);
        assert(s.runs[k].run.id == list[i].run_id);
    }
}

/// A question that is resolved stays as it is, whatever is decided of it. An answer is taken as applied
/// before where the question was answered by that very command, and is a conflict elsewhere. A lapse of time
/// finds a question of another launch and an interrupted one stale; it is taken as applied before where that
/// very command let the question time out or applied the recommendation, and is a conflict elsewhere.
pub proof fn law_resolved_question_stays(
    s: TablesModel,
    q: int,
    command: WorkerQuestionDecisionCommandModel,
    now: Timestamp,
)
    requires
        s.valid(),
        0 <= q < s.questions.len(),
        s.questions[q].question.state != "pending"@,
    ensures
        ({
            let row = s.questions[q];
            let question = row.question;
            let decided = s.decide_question(question.run_id, question.id, command, now);
            &&& decided is Ok
            &&& decided->Ok_0.1 == s
            &&& decided->Ok_0.0.question == Some(question)
            &&& decided->Ok_0.0.outcome == match command {
                WorkerQuestionDecisionCommandModel::Answer { answer, answer_source, .. } => if
                question.state == "answered"@ && question.answer == answer && question.answer_source
                    == Some(answer_source) && row.resolution == Some(command) {
                    DecisionCommandOutcome::AlreadyAppliedIdempotently
                } else {
                    DecisionCommandOutcome::Conflict
                },
                WorkerQuestionDecisionCommandModel::Timeout {
                    expected_launch_id,
                    apply_recommendation_at_deadline,
                    ..
                } => if question.launch_id != expected_launch_id || question.state
                    == "interrupted"@ {
                    DecisionCommandOutcome::StaleToken
                } else if row.resolution == Some(command) && (question.state == "timed_out"@ || (
                apply_recommendation_at_deadline && question.state == "answered"@
                    && question.answer_source == Some(
                    WorkerQuestionAnswerSource::LlmRecommendationTimeout,
                ))) {
                    DecisionCommandOutcome::AlreadyAppliedIdempotently
                } else {
                    DecisionCommandOutcome::Conflict
                },
            }
        }),
{
    lemma_question_stands(s, q, s.questions[q]);
}

/// A question is found under its name as it is on record.
pub proof fn law_question_is_found_by_name(s: TablesModel, q: int)
    requires
        s.valid(),
        0 <= q < s.questions.len(),
    ensures
        s.question(s.questions[q].question.id) == Some(s.questions[q].question),
{
    lemma_first_unique(
        s.questions,
        question_key(),
        question_with_id(s.questions[q].question.id),
        q,
    );
}

} // verus!
