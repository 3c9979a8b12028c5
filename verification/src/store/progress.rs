//! The progress of a run as it is shown to the operator.
use super::attempts::{lemma_attempts_updated, ordinal_of, progress_of, worker_progress};
use super::questions::{asked_order, pending_of};
use super::{lemma_unique_map, lemma_unique_push, progress_key, res, Store};
use crate::domain::{RunProgress, RunProgressModel, WorkerQuestionModel};
use crate::error::StoreError;
use crate::payloads::{EventPayload, EventPayloadModel};
use crate::rows::{
    AttemptRow, AttemptRowModel, ProgressRow, ProgressRowModel, QuestionRow, TablesModel,
    WorkerObservation, WorkerObservationModel,
};
use crate::table::{
    any, find_row, first, lemma_first_any, order_rows, ordered, select, select_rows, update_rows,
    upsert, upsert_row, Row,
};
use crate::text::{opt_str, same_text};
use crate::time::Timestamp;
use vstd::prelude::*;
use vstd::string::*;

verus! {

/// The phases in which a run has ended.
pub open spec fn terminal_phase(phase: Seq<char>) -> bool {
    phase == "blocked"@ || phase == "completed"@ || phase == "failed"@ || phase == "cancelled"@
        || phase == "interrupted"@
}

/// Whether a phase is one in which a run has ended.
pub fn is_terminal_progress_phase(phase: &str) -> (r: bool)
    ensures
        r == terminal_phase(phase@),
{
    same_text(phase, "blocked") || same_text(phase, "completed") || same_text(phase, "failed")
        || same_text(phase, "cancelled") || same_text(phase, "interrupted")
}

pub open spec fn progress_row_of(run_id: Seq<char>) -> spec_fn(ProgressRowModel) -> bool {
    |row: ProgressRowModel| row.run_id == run_id
}

pub open spec fn progress_set(new_row: ProgressRowModel) -> spec_fn(
    ProgressRowModel,
) -> ProgressRowModel {
    |row: ProgressRowModel| new_row
}

/// Progress of which no worker has been observed yet.
pub open spec fn fresh_progress(
    run_id: Seq<char>,
    phase: Seq<char>,
    slice_id: Seq<char>,
    attempt: usize,
    command: Seq<char>,
    message: Seq<char>,
    output_tail: Seq<char>,
    phase_started_at: Timestamp,
    now: Timestamp,
) -> ProgressRowModel {
    ProgressRowModel {
        run_id,
        phase,
        slice_id,
        attempt,
        command,
        message,
        output_tail,
        phase_started_at,
        updated_at: now,
        worker_attempt_started_at: None,
        observed: WorkerObservationModel::empty(),
    }
}

/// A running launch of a slice at an ordinal.
pub open spec fn running_at(run_id: Seq<char>, slice_id: Seq<char>, attempt: usize) -> spec_fn(
    AttemptRowModel,
) -> bool {
    |row: AttemptRowModel|
        row.attempt.run_id == run_id && row.attempt.slice_id == slice_id && row.attempt.state
            == "running"@ && ordinal_of(row.attempt) == attempt
}

pub open spec fn latest_launch() -> spec_fn(AttemptRowModel, AttemptRowModel) -> bool {
    |a: AttemptRowModel, b: AttemptRowModel| b.attempt.launch_id < a.attempt.launch_id
}

/// What an observation adds to what was observed before.
pub open spec fn observation(
    o: WorkerObservationModel,
    pid: Option<u32>,
    event_kind: Seq<char>,
    semantic_progress: Option<Seq<char>>,
    attempt_timeout_seconds: u64,
    no_output_warning_seconds: u64,
    now: Timestamp,
) -> WorkerObservationModel {
    let of_process = event_kind == "started"@ || event_kind == "process_observed"@;
    let of_worker = event_kind == "stdout"@ || event_kind == "stderr"@;
    let semantic = if event_kind == "stdout"@ {
        semantic_progress
    } else {
        None
    };
    WorkerObservationModel {
        pid: if pid is Some {
            pid
        } else {
            o.pid
        },
        process_observed_at: if of_process {
            Some(now)
        } else {
            o.process_observed_at
        },
        last_event_at: if of_worker {
            Some(now)
        } else {
            o.last_event_at
        },
        last_event_kind: if of_worker {
            event_kind
        } else {
            o.last_event_kind
        },
        last_semantic_progress_at: if semantic is Some {
            Some(now)
        } else {
            o.last_semantic_progress_at
        },
        last_semantic_progress_summary: match semantic {
            Some(summary) => summary,
            None => o.last_semantic_progress_summary,
        },
        attempt_timeout_seconds,
        no_output_warning_seconds,
    }
}

pub open spec fn attempt_observed(
    run_id: Seq<char>,
    slice_id: Seq<char>,
    launch_id: i64,
    pid: Option<u32>,
    event_kind: Seq<char>,
    semantic_progress: Option<Seq<char>>,
    attempt_timeout_seconds: u64,
    no_output_warning_seconds: u64,
    now: Timestamp,
) -> spec_fn(AttemptRowModel) -> AttemptRowModel {
    |row: AttemptRowModel|
        if row.attempt.launch_id == launch_id && row.attempt.run_id == run_id
            && row.attempt.slice_id == slice_id && row.attempt.state == "running"@ {
            AttemptRowModel {
                observed: observation(
                    row.observed,
                    pid,
                    event_kind,
                    semantic_progress,
                    attempt_timeout_seconds,
                    no_output_warning_seconds,
                    now,
                ),
                ..row
            }
        } else {
            row
        }
}

pub open spec fn progress_observed(
    run_id: Seq<char>,
    phase: Seq<char>,
    slice_id: Seq<char>,
    attempt: usize,
    pid: Option<u32>,
    event_kind: Seq<char>,
    semantic_progress: Option<Seq<char>>,
    attempt_timeout_seconds: u64,
    no_output_warning_seconds: u64,
    now: Timestamp,
) -> spec_fn(ProgressRowModel) -> ProgressRowModel {
    |row: ProgressRowModel|
        if row.run_id == run_id && row.phase == phase && row.slice_id == slice_id && row.attempt
            == attempt {
            ProgressRowModel {
                updated_at: now,
                worker_attempt_started_at: if row.worker_attempt_started_at is None {
                    Some(now)
                } else {
                    row.worker_attempt_started_at
                },
                observed: observation(
                    row.observed,
                    pid,
                    event_kind,
                    semantic_progress,
                    attempt_timeout_seconds,
                    no_output_warning_seconds,
                    now,
                ),
                ..row
            }
        } else {
            row
        }
}

/// The run works on after a question was resolved.
pub open spec fn progress_resumed(
    run_id: Seq<char>,
    slice_id: Seq<char>,
    attempt: usize,
    message: Seq<char>,
    now: Timestamp,
) -> spec_fn(ProgressRowModel) -> ProgressRowModel {
    |row: ProgressRowModel|
        if row.run_id == run_id && row.phase == "awaiting_operator"@ && row.slice_id == slice_id
            && row.attempt == attempt {
            ProgressRowModel {
                phase: "worker_running"@,
                command: "ask_operator"@,
                message,
                output_tail: Seq::empty(),
                phase_started_at: now,
                updated_at: now,
                ..row
            }
        } else {
            row
        }
}

pub open spec fn awaiting_message(question_id: Seq<char>) -> Seq<char> {
    "awaiting operator answer for question "@ + question_id
}

impl TablesModel {
    pub open spec fn with_progress(self, row: ProgressRowModel) -> TablesModel {
        TablesModel {
            progress: upsert(self.progress, progress_row_of(row.run_id), progress_set(row), row),
            ..self
        }
    }

    /// The run waits for the operator.
    pub open spec fn with_awaiting(
        self,
        run_id: Seq<char>,
        slice_id: Seq<char>,
        attempt: usize,
        message: Seq<char>,
        now: Timestamp,
    ) -> TablesModel {
        self.with_progress(
            fresh_progress(
                run_id,
                "awaiting_operator"@,
                slice_id,
                attempt,
                "ask_operator"@,
                message,
                Seq::empty(),
                now,
                now,
            ),
        )
    }

    pub open spec fn progress_row(self, run_id: Seq<char>) -> Option<ProgressRowModel> {
        first(self.progress, progress_row_of(run_id))
    }

    pub open spec fn current_launch(
        self,
        run_id: Seq<char>,
        slice_id: Seq<char>,
        attempt: usize,
    ) -> Option<i64> {
        let found = ordered(
            select(self.attempts, running_at(run_id, slice_id, attempt)),
            latest_launch(),
        );
        if found.len() > 0 {
            Some(found[0].attempt.launch_id)
        } else {
            None
        }
    }

    /// The progress of a run as it is read: with what was observed of its worker, under the
    /// launch that is running now.
    pub open spec fn progress_of_run(self, run_id: Seq<char>) -> Option<RunProgressModel> {
        match self.progress_row(run_id) {
            None => None,
            Some(row) => Some(
                RunProgressModel {
                    run_id: row.run_id,
                    phase: row.phase,
                    slice_id: row.slice_id,
                    attempt: row.attempt,
                    command: row.command,
                    message: row.message,
                    output_tail: row.output_tail,
                    phase_started_at: row.phase_started_at,
                    updated_at: row.updated_at,
                    worker: match row.worker_attempt_started_at {
                        Some(at) => Some(
                            progress_of(
                                self.current_launch(run_id, row.slice_id, row.attempt),
                                at,
                                row.observed,
                            ),
                        ),
                        None => None,
                    },
                    parallel_layer: false,
                    parallel_slices: Seq::empty(),
                },
            ),
        }
    }

    /// A run that has ended, or is ending, takes no more lifecycle progress.
    pub open spec fn progress_write_rejected(self, run_id: Seq<char>, phase: Seq<char>) -> bool {
        ||| self.run_row(run_id) matches Some(row) && !row.run.status.active() && phase
            != "awaiting_replan"@ && !terminal_phase(phase)
        ||| self.progress_row(run_id) matches Some(row) && terminal_phase(row.phase)
            && !terminal_phase(phase) && phase != "started"@ && phase != "resumed"@ && phase
            != "awaiting_replan"@
    }

    /// The earliest pending question of a run.
    pub open spec fn pending_question(self, run_id: Seq<char>) -> Option<WorkerQuestionModel> {
        let found = ordered(select(self.questions, pending_of(run_id)), asked_order());
        if found.len() > 0 {
            Some(found[0].question)
        } else {
            None
        }
    }

    /// Whether the progress shows that a question waits.
    pub open spec fn shows_waiting(
        self,
        run_id: Seq<char>,
        slice_id: Seq<char>,
        attempt: usize,
    ) -> bool {
        self.progress_row(run_id) matches Some(row) && row.phase == "awaiting_operator"@
            && row.slice_id == slice_id && row.attempt == attempt
    }

    pub open spec fn update_progress(
        self,
        run_id: Seq<char>,
        phase: Seq<char>,
        slice_id: Seq<char>,
        attempt: usize,
        command: Seq<char>,
        message: Seq<char>,
        output_tail: Seq<char>,
        now: Timestamp,
    ) -> TablesModel {
        if self.progress_write_rejected(run_id, phase) {
            self
        } else {
            match self.pending_question(run_id) {
                Some(question) => if self.shows_waiting(
                    run_id,
                    question.slice_id,
                    question.attempt,
                ) {
                    self
                } else {
                    self.with_awaiting(
                        run_id,
                        question.slice_id,
                        question.attempt,
                        awaiting_message(question.id),
                        now,
                    )
                },
                None => self.with_progress(
                    fresh_progress(
                        run_id,
                        phase,
                        slice_id,
                        attempt,
                        command,
                        message,
                        output_tail,
                        match self.progress_row(run_id) {
                            Some(row) => if row.phase == phase && row.slice_id == slice_id
                                && row.attempt == attempt && row.command == command {
                                row.phase_started_at
                            } else {
                                now
                            },
                            None => now,
                        },
                        now,
                    ),
                ),
            }
        }
    }

    pub open spec fn observe_attempt(
        self,
        run_id: Seq<char>,
        phase: Seq<char>,
        slice_id: Seq<char>,
        attempt: usize,
        launch_id: Option<i64>,
        pid: Option<u32>,
        event_kind: Seq<char>,
        semantic_progress: Option<Seq<char>>,
        attempt_timeout_seconds: u64,
        no_output_warning_seconds: u64,
        now: Timestamp,
    ) -> TablesModel {
        if launch_id is Some && !self.attempt_is_active(run_id, slice_id, attempt, launch_id) {
            self
        } else {
            TablesModel {
                attempts: match launch_id {
                    Some(id) => self.attempts.map_values(
                        attempt_observed(
                            run_id,
                            slice_id,
                            id,
                            pid,
                            event_kind,
                            semantic_progress,
                            attempt_timeout_seconds,
                            no_output_warning_seconds,
                            now,
                        ),
                    ),
                    None => self.attempts,
                },
                progress: self.progress.map_values(
                    progress_observed(
                        run_id,
                        phase,
                        slice_id,
                        attempt,
                        pid,
                        event_kind,
                        semantic_progress,
                        attempt_timeout_seconds,
                        no_output_warning_seconds,
                        now,
                    ),
                ),
                ..self
            }
        }
    }
}

/// Setting the progress of a run keeps the tables valid, and it is what is read afterwards.
pub proof fn lemma_progress_set(s: TablesModel, row: ProgressRowModel)
    requires
        s.valid(),
    ensures
        s.with_progress(row).valid(),
        s.one_active_run() ==> s.with_progress(row).one_active_run(),
        s.with_progress(row).progress_row(row.run_id) == Some(row),
{
    let at = progress_row_of(row.run_id);
    let after = s.with_progress(row).progress;
    if any(s.progress, at) {
        let g = |m: ProgressRowModel|
            if at(m) {
                progress_set(row)(m)
            } else {
                m
            };
        lemma_unique_map(s.progress, progress_key(), g);
        assert(after =~= s.progress.map_values(g));
        let i = choose|i: int| 0 <= i < s.progress.len() && at(#[trigger] s.progress[i]);
        assert(after[i] == row);
        assert(at(after[i]));
    } else {
        lemma_unique_push(s.progress, progress_key(), row, at);
        assert(at(after[after.len() - 1]));
    }
    lemma_first_any(after, at);
    let found = first(after, at)->0;
    let j = choose|j: int| 0 <= j < after.len() && after[j] == found;
    if any(s.progress, at) {
        assert(at(after[j]));
        if !at(s.progress[j]) {
            assert(after[j] == s.progress[j]);
        }
    } else if j < s.progress.len() {
        assert(!at(s.progress[j]));
        assert(after[j] == s.progress[j]);
    }
}

fn observed(
    o: &WorkerObservation,
    pid: Option<u32>,
    event_kind: &str,
    semantic_progress: Option<&str>,
    attempt_timeout_seconds: u64,
    no_output_warning_seconds: u64,
    now: Timestamp,
) -> (r: WorkerObservation)
    ensures
        r@ == observation(
            o@,
            pid,
            event_kind@,
            opt_str(semantic_progress),
            attempt_timeout_seconds,
            no_output_warning_seconds,
            now,
        ),
{
    let mut r = o.dup();
    if pid.is_some() {
        r.pid = pid;
    }
    if same_text(event_kind, "started") || same_text(event_kind, "process_observed") {
        r.process_observed_at = Some(now);
    }
    if same_text(event_kind, "stdout") || same_text(event_kind, "stderr") {
        r.last_event_at = Some(now);
        r.last_event_kind = event_kind.to_owned();
    }
    if same_text(event_kind, "stdout") {
        if let Some(summary) = semantic_progress {
            r.last_semantic_progress_at = Some(now);
            r.last_semantic_progress_summary = summary.to_owned();
        }
    }
    r.attempt_timeout_seconds = attempt_timeout_seconds;
    r.no_output_warning_seconds = no_output_warning_seconds;
    r
}

impl Store {
    fn progress_index(&self, run_id: &str) -> (r: Option<usize>)
        ensures
            match r {
                Some(i) => i < self.tables.progress.len() && self@.progress_row(run_id@) == Some(
                    self.tables.progress@[i as int]@,
                ),
                None => self@.progress_row(run_id@) is None,
            },
    {
        let of_run = |row: &ProgressRow| -> (b: bool)
            ensures
                b == progress_row_of(run_id@)(row@),
            { same_text(row.run_id.as_str(), run_id) };
        find_row(&self.tables.progress, of_run, Ghost(progress_row_of(run_id@)))
    }

    pub(crate) fn put_progress(&mut self, new_row: ProgressRow)
        requires
            old(self)@.valid(),
        ensures
            final(self)@.valid(),
            old(self)@.one_active_run() ==> final(self)@.one_active_run(),
            final(self)@ == old(self)@.with_progress(new_row@),
    {
        let of_run = |row: &ProgressRow| -> (b: bool)
            ensures
                b == progress_row_of(new_row@.run_id)(row@),
            { row.run_id.same(&new_row.run_id) };
        let set = |row: &ProgressRow| -> (out: Option<ProgressRow>)
            ensures
                match out {
                    Some(m) => progress_row_of(new_row@.run_id)(row@) && m@ == progress_set(
                        new_row@,
                    )(row@),
                    None => !progress_row_of(new_row@.run_id)(row@),
                },
            {
                if row.run_id.same(&new_row.run_id) {
                    Some(new_row.dup())
                } else {
                    None
                }
            };
        proof {
            lemma_progress_set(self@, new_row@);
        }
        let added = new_row.dup();
        upsert_row(
            &mut self.tables.progress,
            of_run,
            set,
            added,
            Ghost(progress_row_of(new_row@.run_id)),
            Ghost(progress_set(new_row@)),
        );
    }

    pub(crate) fn project_awaiting_operator_progress(
        &mut self,
        run_id: &str,
        slice_id: &str,
        attempt: usize,
        message: &str,
        now: Timestamp,
    )
        requires
            old(self)@.valid(),
        ensures
            final(self)@.valid(),
            old(self)@.one_active_run() ==> final(self)@.one_active_run(),
            final(self)@ == old(self)@.with_awaiting(run_id@, slice_id@, attempt, message@, now),
    {
        let row = ProgressRow {
            run_id: run_id.to_owned(),
            phase: "awaiting_operator".to_owned(),
            slice_id: slice_id.to_owned(),
            attempt,
            command: "ask_operator".to_owned(),
            message: message.to_owned(),
            output_tail: String::new(),
            phase_started_at: now,
            updated_at: now,
            worker_attempt_started_at: None,
            observed: WorkerObservation::default(),
        };
        self.put_progress(row);
    }

    pub(crate) fn earliest_pending(&self, run_id: &str) -> (r: Option<QuestionRow>)
        ensures
            match r {
                Some(row) => self@.pending_question(run_id@) == Some(row@.question),
                None => self@.pending_question(run_id@) is None,
            },
    {
        let sorted = self.pending_rows(run_id);
        if sorted.len() > 0 {
            assert(sorted.deep_view()[0] == sorted@[0]@);
            Some(sorted[0].dup())
        } else {
            None
        }
    }

    /// What a run shows of its progress.
    pub fn get_progress(&self, run_id: &str) -> (r: Result<Option<RunProgress>, StoreError>)
        ensures
            res(r) == Ok::<Option<RunProgressModel>, StoreError>(self@.progress_of_run(run_id@)),
    {
        Ok(self.read_progress(run_id))
    }

    fn read_progress(&self, run_id: &str) -> (r: Option<RunProgress>)
        ensures
            r.deep_view() == self@.progress_of_run(run_id@),
    {
        let index = match self.progress_index(run_id) {
            Some(index) => index,
            None => {
                return None;
            },
        };
        let row = &self.tables.progress[index];
        let worker = match row.worker_attempt_started_at {
            Some(at) => {
                let launch_id = self.current_launch_of(
                    run_id,
                    row.slice_id.as_str(),
                    row.attempt,
                );
                Some(worker_progress(launch_id, at, &row.observed))
            },
            None => None,
        };
        let r = RunProgress {
            run_id: row.run_id.dup(),
            phase: row.phase.dup(),
            slice_id: row.slice_id.dup(),
            attempt: row.attempt,
            command: row.command.dup(),
            message: row.message.dup(),
            output_tail: row.output_tail.dup(),
            phase_started_at: row.phase_started_at,
            updated_at: row.updated_at,
            worker,
            parallel_layer: false,
            parallel_slices: Vec::new(),
        };
        assert(r.parallel_slices.deep_view() =~= Seq::empty());
        Some(r)
    }

    fn current_launch_of(&self, run_id: &str, slice_id: &str, attempt: usize) -> (r: Option<i64>)
        ensures
            r == self@.current_launch(run_id@, slice_id@, attempt),
    {
        let running = |row: &AttemptRow| -> (b: bool)
            ensures
                b == running_at(run_id@, slice_id@, attempt)(row@),
            {
                same_text(row.attempt.run_id.as_str(), run_id) && same_text(
                    row.attempt.slice_id.as_str(),
                    slice_id,
                ) && same_text(row.attempt.state.as_str(), "running")
                    && super::attempts::attempt_ordinal(&row.attempt) == attempt
            };
        let found = select_rows(
            &self.tables.attempts,
            running,
            Ghost(running_at(run_id@, slice_id@, attempt)),
        );
        let before = |a: &AttemptRow, b: &AttemptRow| -> (lt: bool)
            ensures
                lt == latest_launch()(a@, b@),
            { b.attempt.launch_id < a.attempt.launch_id };
        let sorted = order_rows(found, before, Ghost(latest_launch()));
        if sorted.len() > 0 {
            assert(sorted.deep_view()[0] == sorted@[0]@);
            Some(sorted[0].attempt.launch_id)
        } else {
            None
        }
    }

    /// Reports the progress of a run. A pending question stays in view, and a run that has ended shows
    /// its end.
    pub fn update_progress(
        &mut self,
        run_id: &str,
        phase: &str,
        slice_id: &str,
        attempt: usize,
        command: &str,
        message: &str,
        output_tail: &str,
        now: Timestamp,
    ) -> (r: Result<RunProgress, StoreError>)
        requires
            old(self)@.valid(),
            now.writable(),
        ensures
            final(self)@.valid(),
            old(self)@.one_active_run() ==> final(self)@.one_active_run(),
            final(self)@ == old(self)@.update_progress(
                run_id@,
                phase@,
                slice_id@,
                attempt,
                command@,
                message@,
                output_tail@,
                now,
            ),
            res(r) == match final(self)@.progress_of_run(run_id@) {
                Some(progress) => Ok::<RunProgressModel, StoreError>(progress),
                None => Err::<RunProgressModel, StoreError>(StoreError::ProgressMissing),
            },
            r is Err ==> old(self)@.progress_write_rejected(run_id@, phase@),
    {
        let index = self.progress_index(run_id);
        let terminal_run = match self.run_index(run_id) {
            Some(i) => !self.tables.runs[i].run.status.is_active(),
            None => false,
        };
        let phase_ends = is_terminal_progress_phase(phase);
        let run_rejects = terminal_run && !same_text(phase, "awaiting_replan") && !phase_ends;
        let progress_rejects = match index {
            Some(i) => is_terminal_progress_phase(self.tables.progress[i].phase.as_str())
                && !phase_ends && !same_text(phase, "started") && !same_text(phase, "resumed")
                && !same_text(phase, "awaiting_replan"),
            None => false,
        };
        if run_rejects || progress_rejects {
            return match self.read_progress(run_id) {
                Some(progress) => Ok(progress),
                None => Err(StoreError::ProgressMissing),
            };
        }
        if let Some(pending) = self.earliest_pending(run_id) {
            let shown = match index {
                Some(i) => same_text(
                    self.tables.progress[i].phase.as_str(),
                    "awaiting_operator",
                ) && self.tables.progress[i].slice_id.same(&pending.question.slice_id)
                    && self.tables.progress[i].attempt == pending.question.attempt,
                None => false,
            };
            if !shown {
                let mut waiting = "awaiting operator answer for question ".to_owned();
                waiting.append(pending.question.id.as_str());
                proof {
                    lemma_progress_set(
                        self@,
                        fresh_progress(
                            run_id@,
                            "awaiting_operator"@,
                            pending@.question.slice_id,
                            pending@.question.attempt,
                            "ask_operator"@,
                            waiting@,
                            Seq::empty(),
                            now,
                            now,
                        ),
                    );
                }
                self.project_awaiting_operator_progress(
                    run_id,
                    pending.question.slice_id.as_str(),
                    pending.question.attempt,
                    waiting.as_str(),
                    now,
                );
            }
            return match self.read_progress(run_id) {
                Some(progress) => Ok(progress),
                None => Err(StoreError::ProgressMissing),
            };
        }
        let started: Timestamp = match index {
            Some(i) => {
                let row = &self.tables.progress[i];
                if same_text(row.phase.as_str(), phase) && same_text(
                    row.slice_id.as_str(),
                    slice_id,
                ) && row.attempt == attempt && same_text(row.command.as_str(), command) {
                    row.phase_started_at
                } else {
                    now
                }
            },
            None => now,
        };
        let row = ProgressRow {
            run_id: run_id.to_owned(),
            phase: phase.to_owned(),
            slice_id: slice_id.to_owned(),
            attempt,
            command: command.to_owned(),
            message: message.to_owned(),
            output_tail: output_tail.to_owned(),
            phase_started_at: started,
            updated_at: now,
            worker_attempt_started_at: None,
            observed: WorkerObservation::default(),
        };
        proof {
            lemma_progress_set(self@, row@);
        }
        self.put_progress(row);
        match self.read_progress(run_id) {
            Some(progress) => Ok(progress),
            None => Err(StoreError::ProgressMissing),
        }
    }

    /// Records a sign of life of a worker. A launch that is not the active one leaves no trace.
    pub fn observe_worker_attempt(
        &mut self,
        run_id: &str,
        phase: &str,
        slice_id: &str,
        attempt: usize,
        launch_id: Option<i64>,
        pid: Option<u32>,
        event_kind: &str,
        semantic_progress: Option<&str>,
        attempt_timeout_seconds: u64,
        no_output_warning_seconds: u64,
        now: Timestamp,
    ) -> (r: Result<Option<RunProgress>, StoreError>)
        requires
            old(self)@.valid(),
            now.writable(),
        ensures
            final(self)@.valid(),
            old(self)@.one_active_run() ==> final(self)@.one_active_run(),
            final(self)@ == old(self)@.observe_attempt(
                run_id@,
                phase@,
                slice_id@,
                attempt,
                launch_id,
                pid,
                event_kind@,
                opt_str(semantic_progress),
                attempt_timeout_seconds,
                no_output_warning_seconds,
                now,
            ),
            res(r) == Ok::<Option<RunProgressModel>, StoreError>(
                final(self)@.progress_of_run(run_id@),
            ),
    {
        if launch_id.is_some() && !self.attempt_active(run_id, slice_id, attempt, launch_id) {
            return Ok(self.read_progress(run_id));
        }
        if let Some(id) = launch_id {
            let observe = |row: &AttemptRow| -> (out: Option<AttemptRow>)
                ensures
                    match out {
                        Some(m) => m@ == attempt_observed(
                            run_id@,
                            slice_id@,
                            id,
                            pid,
                            event_kind@,
                            opt_str(semantic_progress),
                            attempt_timeout_seconds,
                            no_output_warning_seconds,
                            now,
                        )(row@),
                        None => attempt_observed(
                            run_id@,
                            slice_id@,
                            id,
                            pid,
                            event_kind@,
                            opt_str(semantic_progress),
                            attempt_timeout_seconds,
                            no_output_warning_seconds,
                            now,
                        )(row@) == row@,
                    },
                {
                    if row.attempt.launch_id == id && same_text(
                        row.attempt.run_id.as_str(),
                        run_id,
                    ) && same_text(row.attempt.slice_id.as_str(), slice_id) && same_text(
                        row.attempt.state.as_str(),
                        "running",
                    ) {
                        let mut m = row.dup();
                        m.observed = observed(
                            &row.observed,
                            pid,
                            event_kind,
                            semantic_progress,
                            attempt_timeout_seconds,
                            no_output_warning_seconds,
                            now,
                        );
                        Some(m)
                    } else {
                        None
                    }
                };
            let ghost g = attempt_observed(
                run_id@,
                slice_id@,
                id,
                pid,
                event_kind@,
                opt_str(semantic_progress),
                attempt_timeout_seconds,
                no_output_warning_seconds,
                now,
            );
            proof {
                lemma_attempts_updated(self@, g);
            }
            update_rows(&mut self.tables.attempts, observe, Ghost(g));
        }
        let observe = |row: &ProgressRow| -> (out: Option<ProgressRow>)
            ensures
                match out {
                    Some(m) => m@ == progress_observed(
                        run_id@,
                        phase@,
                        slice_id@,
                        attempt,
                        pid,
                        event_kind@,
                        opt_str(semantic_progress),
                        attempt_timeout_seconds,
                        no_output_warning_seconds,
                        now,
                    )(row@),
                    None => progress_observed(
                        run_id@,
                        phase@,
                        slice_id@,
                        attempt,
                        pid,
                        event_kind@,
                        opt_str(semantic_progress),
                        attempt_timeout_seconds,
                        no_output_warning_seconds,
                        now,
                    )(row@) == row@,
                },
            {
                if same_text(row.run_id.as_str(), run_id) && same_text(row.phase.as_str(), phase)
                    && same_text(row.slice_id.as_str(), slice_id) && row.attempt == attempt {
                    let mut m = row.dup();
                    m.updated_at = now;
                    if m.worker_attempt_started_at.is_none() {
                        m.worker_attempt_started_at = Some(now);
                    }
                    m.observed = observed(
                        &row.observed,
                        pid,
                        event_kind,
                        semantic_progress,
                        attempt_timeout_seconds,
                        no_output_warning_seconds,
                        now,
                    );
                    Some(m)
                } else {
                    None
                }
            };
        let ghost g = progress_observed(
            run_id@,
            phase@,
            slice_id@,
            attempt,
            pid,
            event_kind@,
            opt_str(semantic_progress),
            attempt_timeout_seconds,
            no_output_warning_seconds,
            now,
        );
        proof {
            lemma_unique_map(self@.progress, progress_key(), g);
        }
        update_rows(&mut self.tables.progress, observe, Ghost(g));
        Ok(self.read_progress(run_id))
    }

    pub(crate) fn resume_progress(
        &mut self,
        run_id: &str,
        slice_id: &str,
        attempt: usize,
        message: &str,
        now: Timestamp,
    )
        requires
            old(self)@.valid(),
        ensures
            final(self)@.valid(),
            old(self)@.one_active_run() ==> final(self)@.one_active_run(),
            final(self)@ == (TablesModel {
                progress: old(self)@.progress.map_values(
                    progress_resumed(run_id@, slice_id@, attempt, message@, now),
                ),
                ..old(self)@
            }),
    {
        let resume = |row: &ProgressRow| -> (out: Option<ProgressRow>)
            ensures
                match out {
                    Some(m) => m@ == progress_resumed(
                        run_id@,
                        slice_id@,
                        attempt,
                        message@,
                        now,
                    )(row@),
                    None => progress_resumed(run_id@, slice_id@, attempt, message@, now)(row@)
                        == row@,
                },
            {
                if same_text(row.run_id.as_str(), run_id) && same_text(
                    row.phase.as_str(),
                    "awaiting_operator",
                ) && same_text(row.slice_id.as_str(), slice_id) && row.attempt == attempt {
                    let mut m = row.dup();
                    m.phase = "worker_running".to_owned();
                    m.command = "ask_operator".to_owned();
                    m.message = message.to_owned();
                    m.output_tail = String::new();
                    m.phase_started_at = now;
                    m.updated_at = now;
                    Some(m)
                } else {
                    None
                }
            };
        proof {
            lemma_unique_map(
                self@.progress,
                progress_key(),
                progress_resumed(run_id@, slice_id@, attempt, message@, now),
            );
        }
        update_rows(
            &mut self.tables.progress,
            resume,
            Ghost(progress_resumed(run_id@, slice_id@, attempt, message@, now)),
        );
    }
}

/// Where in its work a run is.
#[derive(Debug, Clone)]
pub struct ProgressScope {
    phase: String,
    slice_id: String,
    attempt: usize,
    command: String,
    message: String,
}

#[verifier::ext_equal]
pub struct ProgressScopeModel {
    pub phase: Seq<char>,
    pub slice_id: Seq<char>,
    pub attempt: usize,
    pub command: Seq<char>,
    pub message: Seq<char>,
}

impl View for ProgressScope {
    type V = ProgressScopeModel;

    closed spec fn view(&self) -> ProgressScopeModel {
        ProgressScopeModel {
            phase: self.phase@,
            slice_id: self.slice_id@,
            attempt: self.attempt,
            command: self.command@,
            message: self.message@,
        }
    }
}

impl ProgressScope {
    pub fn new(phase: &str, slice_id: &str, attempt: usize, command: &str, message: &str) -> (r:
        ProgressScope)
        ensures
            r@ == (ProgressScopeModel {
                phase: phase@,
                slice_id: slice_id@,
                attempt,
                command: command@,
                message: message@,
            }),
    {
        ProgressScope {
            phase: phase.to_owned(),
            slice_id: slice_id.to_owned(),
            attempt,
            command: command.to_owned(),
            message: message.to_owned(),
        }
    }
}

impl TablesModel {
    /// The tables once a scope was reported; a report that is marked also leaves an event.
    pub open spec fn report(
        self,
        run_id: Seq<char>,
        scope: ProgressScopeModel,
        output_tail: Seq<char>,
        marked: bool,
        now: Timestamp,
    ) -> TablesModel {
        let updated = self.update_progress(
            run_id,
            scope.phase,
            scope.slice_id,
            scope.attempt,
            scope.command,
            scope.message,
            output_tail,
            now,
        );
        match updated.progress_of_run(run_id) {
            Some(progress) => if marked && updated.room(1) {
                updated.with_event(
                    run_id,
                    "progress"@,
                    EventPayloadModel::Progress(progress),
                    now,
                )
            } else {
                updated
            },
            None => updated,
        }
    }
}

/// Reports the progress of one run. What cannot be recorded is passed over.
#[derive(Debug, Clone)]
pub struct ProgressReporter {
    run_id: String,
}

impl View for ProgressReporter {
    type V = Seq<char>;

    closed spec fn view(&self) -> Seq<char> {
        self.run_id@
    }
}

impl ProgressReporter {
    pub fn new(run_id: &str) -> (r: ProgressReporter)
        ensures
            r@ == run_id@,
    {
        ProgressReporter { run_id: run_id.to_owned() }
    }

    /// Reports a scope and leaves an event of it.
    pub fn mark(&self, store: &mut Store, scope: &ProgressScope, now: Timestamp)
        requires
            old(store)@.valid(),
            now.writable(),
        ensures
            final(store)@.valid(),
            old(store)@.one_active_run() ==> final(store)@.one_active_run(),
            final(store)@ == old(store)@.report(self@, scope@, ""@, true, now),
    {
        self.persist(store, scope, "", true, now);
    }

    /// Reports what a command has put out last.
    pub fn update_output_tail(
        &self,
        store: &mut Store,
        scope: &ProgressScope,
        output_tail: &str,
        now: Timestamp,
    )
        requires
            old(store)@.valid(),
            now.writable(),
        ensures
            final(store)@.valid(),
            old(store)@.one_active_run() ==> final(store)@.one_active_run(),
            final(store)@ == old(store)@.report(self@, scope@, output_tail@, false, now),
    {
        self.persist(store, scope, output_tail, false, now);
    }

    fn persist(
        &self,
        store: &mut Store,
        scope: &ProgressScope,
        output_tail: &str,
        record_event: bool,
        now: Timestamp,
    )
        requires
            old(store)@.valid(),
            now.writable(),
        ensures
            final(store)@.valid(),
            old(store)@.one_active_run() ==> final(store)@.one_active_run(),
            final(store)@ == old(store)@.report(self@, scope@, output_tail@, record_event, now),
    {
        let updated = store.update_progress(
            self.run_id.as_str(),
            scope.phase.as_str(),
            scope.slice_id.as_str(),
            scope.attempt,
            scope.command.as_str(),
            scope.message.as_str(),
            output_tail,
            now,
        );
        match updated {
            Ok(progress) => {
                if record_event && store.has_room(1) {
                    store.append_event(
                        self.run_id.as_str(),
                        "progress",
                        EventPayload::Progress(progress),
                        now,
                    );
                }
            },
            Err(_) => {},
        }
    }
}

} // verus!
