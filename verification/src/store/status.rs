//! The event log, the indexed status sources and the snapshot of everything that a run's status is
//! made of.
use super::attempts::{launch_id_order, ledger_of, read_attempts};
use super::runs::latest_started;
use super::{lemma_unique_map, lemma_unique_push, res, source_key, Store};
use crate::digest::{digest_of, text_digest};
use crate::domain::{
    Run, RunLaunchIntent, RunLaunchIntentModel, RunModel, WorkerAttemptLedger,
    WorkerAttemptLedgerModel,
};
use crate::error::StoreError;
use crate::json::{json_level, read_level};
use crate::payloads::{Event, EventModel, EventPayload};
use crate::rows::{
    AttemptRow, AttemptRowModel, RunRow, RunRowModel, RunStateSnapshot, RunStateSnapshotModel,
    StatusSnapshotRevision, StatusSnapshotRevisionModel, StatusSourceRow, StatusSourceRowModel,
    StatusSourceSnapshot, StatusSourceSnapshotModel, TablesModel,
};
use crate::table::{
    any, order_rows, ordered, select, select_rows, tail, tail_rows, upsert, upsert_row, Row,
};
use crate::text::{same_text, text_before, text_lt};
use crate::time::Timestamp;
use vstd::prelude::*;

verus! {

pub open spec fn event_of_run(run_id: Seq<char>) -> spec_fn(EventModel) -> bool {
    |event: EventModel| event.run_id == run_id
}

pub open spec fn source_at(run_id: Seq<char>, source: Seq<char>) -> spec_fn(
    StatusSourceRowModel,
) -> bool {
    |row: StatusSourceRowModel| row.run_id == run_id && row.source == source
}

pub open spec fn source_set(new_row: StatusSourceRowModel) -> spec_fn(
    StatusSourceRowModel,
) -> StatusSourceRowModel {
    |row: StatusSourceRowModel| new_row
}

pub open spec fn source_of_run(run_id: Seq<char>) -> spec_fn(StatusSourceRowModel) -> bool {
    |row: StatusSourceRowModel| row.run_id == run_id
}

pub open spec fn source_order() -> spec_fn(StatusSourceRowModel, StatusSourceRowModel) -> bool {
    |a: StatusSourceRowModel, b: StatusSourceRowModel| text_lt(a.source, b.source)
}

pub open spec fn attempt_of_run(run_id: Seq<char>) -> spec_fn(AttemptRowModel) -> bool {
    |row: AttemptRowModel| row.attempt.run_id == run_id
}

pub open spec fn launch_of_run(run_id: Seq<char>) -> spec_fn(RunLaunchIntentModel) -> bool {
    |row: RunLaunchIntentModel| row.run_id == run_id
}

pub open spec fn epoch_order() -> spec_fn(RunLaunchIntentModel, RunLaunchIntentModel) -> bool {
    |a: RunLaunchIntentModel, b: RunLaunchIntentModel| a.execution_epoch < b.execution_epoch
}

pub open spec fn run_at(repo_path: Seq<char>, active_only: bool) -> spec_fn(RunRowModel) -> bool {
    |row: RunRowModel| row.run.repo_path == repo_path && (active_only ==> row.run.status.active())
}

/// An indexed source as it is read back: only with the digest that was stored, and only as JSON.
pub open spec fn read_source(row: StatusSourceRowModel) -> Result<
    StatusSourceSnapshotModel,
    StoreError,
> {
    if text_digest(row.payload_json) != row.content_sha256 {
        Err(StoreError::StatusSourceChecksum)
    } else if json_level(row.payload_json) is None {
        Err(StoreError::StatusSourcePayload)
    } else {
        Ok(
            StatusSourceSnapshotModel {
                source: row.source,
                payload: row.payload_json,
                indexed_event_id: row.indexed_event_id,
                content_sha256: row.content_sha256,
                observed_at: row.observed_at,
            },
        )
    }
}

/// All sources, or why the first bad one cannot be read.
pub open spec fn read_sources(rows: Seq<StatusSourceRowModel>) -> Result<
    Seq<StatusSourceSnapshotModel>,
    StoreError,
>
    decreases rows.len(),
{
    if rows.len() == 0 {
        Ok(Seq::empty())
    } else {
        match read_sources(rows.drop_last()) {
            Err(error) => Err(error),
            Ok(read) => match read_source(rows.last()) {
                Err(error) => Err(error),
                Ok(source) => Ok(read.push(source)),
            },
        }
    }
}

/// How many events are shown: a limit of zero stands for fifty.
pub open spec fn shown_events(limit: usize) -> nat {
    if limit == 0 {
        50
    } else {
        limit as nat
    }
}

impl TablesModel {
    pub open spec fn events_of(self, run_id: Seq<char>) -> Seq<EventModel> {
        select(self.events, event_of_run(run_id))
    }

    /// The identity of the last event of a run, zero before the first one.
    pub open spec fn event_frontier(self, run_id: Seq<char>) -> i64 {
        let events = self.events_of(run_id);
        if events.len() == 0 {
            0
        } else {
            events.last().id
        }
    }

    /// The source with its payload, the digest of the payload and the event frontier of its run.
    pub open spec fn with_source(
        self,
        run_id: Seq<char>,
        source: Seq<char>,
        payload_json: Seq<char>,
        now: Timestamp,
    ) -> TablesModel {
        let row = StatusSourceRowModel {
            run_id,
            source,
            payload_json,
            indexed_event_id: self.event_frontier(run_id),
            content_sha256: text_digest(payload_json),
            observed_at: now,
        };
        TablesModel {
            sources: upsert(self.sources, source_at(run_id, source), source_set(row), row),
            ..self
        }
    }

    pub open spec fn sources_of(self, run_id: Seq<char>) -> Seq<StatusSourceRowModel> {
        ordered(select(self.sources, source_of_run(run_id)), source_order())
    }

    pub open spec fn attempts_of(self, run_id: Seq<char>) -> Seq<WorkerAttemptLedgerModel> {
        ordered(select(self.attempts, attempt_of_run(run_id)), launch_id_order()).map_values(
            ledger_of(),
        )
    }

    pub open spec fn launches_of(self, run_id: Seq<char>) -> Seq<RunLaunchIntentModel> {
        ordered(select(self.launches, launch_of_run(run_id)), epoch_order())
    }

    /// The latest run of a repository, or the latest one that is pending or running.
    pub open spec fn latest_run_for_repo(self, repo_path: Seq<char>, active_only: bool) -> Option<
        RunModel,
    > {
        let found = ordered(select(self.runs, run_at(repo_path, active_only)), latest_started());
        if found.len() > 0 {
            Some(found[0].run)
        } else {
            None
        }
    }

    /// Everything that the status of a run is made of, from one state of the tables.
    pub open spec fn snapshot_of(
        self,
        run: RunModel,
        events_limit: usize,
        data_version: i64,
        now: Timestamp,
    ) -> Result<RunStateSnapshotModel, StoreError> {
        match read_sources(self.sources_of(run.id)) {
            Err(error) => Err(error),
            Ok(status_sources) => Ok(
                RunStateSnapshotModel {
                    revision: StatusSnapshotRevisionModel {
                        sqlite_data_version: data_version,
                        max_event_id: self.event_frontier(run.id),
                        run_updated_at: Some(run.updated_at),
                        captured_at: Some(now),
                    },
                    run,
                    slice_runs: self.slices_of(run.id),
                    worker_attempts: self.attempts_of(run.id),
                    progress: self.progress_of_run(run.id),
                    questions: self.questions_of(run.id),
                    replan_proposals: self.proposals_of(run.id),
                    mission_envelope: self.frontier_state(run.id).0,
                    frontier_budget: self.frontier_state(run.id).1,
                    events: self.events_of(run.id),
                    event_tail: tail(self.events_of(run.id), shown_events(events_limit)),
                    terminal_transition: self.terminal_transition(run.id),
                    launch_intents: self.launches_of(run.id),
                    merge_intents: self.merges_of(run.id),
                    status_sources,
                },
            ),
        }
    }

    pub open spec fn snapshot(
        self,
        run: Option<RunModel>,
        events_limit: usize,
        data_version: i64,
        now: Timestamp,
    ) -> Result<Option<RunStateSnapshotModel>, StoreError> {
        match run {
            None => Ok(None),
            Some(run) => match self.snapshot_of(run, events_limit, data_version, now) {
                Ok(snapshot) => Ok(Some(snapshot)),
                Err(error) => Err(error),
            },
        }
    }
}

impl Store {
    /// Appends an event to the log.
    pub fn record_event(
        &mut self,
        run_id: &str,
        typ: &str,
        payload: EventPayload,
        now: Timestamp,
    ) -> (r: Result<(), StoreError>)
        requires
            old(self)@.valid(),
            now.writable(),
        ensures
            final(self)@.valid(),
            old(self)@.one_active_run() ==> final(self)@.one_active_run(),
            if old(self)@.room(1) {
                r is Ok && final(self)@ == old(self)@.with_event(run_id@, typ@, payload@, now)
            } else {
                r == Err::<(), StoreError>(StoreError::EventLogFull) && final(self)@ == old(self)@
            },
    {
        if !self.has_room(1) {
            return Err(StoreError::EventLogFull);
        }
        self.append_event(run_id, typ, payload, now);
        Ok(())
    }

    fn events_in(&self, run_id: &str) -> (r: Vec<Event>)
        ensures
            r.deep_view() == self@.events_of(run_id@),
    {
        let of_run = |event: &Event| -> (b: bool)
            ensures
                b == event_of_run(run_id@)(event@),
            { same_text(event.run_id.as_str(), run_id) };
        select_rows(&self.tables.events, of_run, Ghost(event_of_run(run_id@)))
    }

    /// The latest events of a run, oldest first.
    pub fn get_events(&self, run_id: &str, limit: usize) -> (r: Result<Vec<Event>, StoreError>)
        ensures
            res(r) == Ok::<Seq<EventModel>, StoreError>(
                tail(self@.events_of(run_id@), shown_events(limit)),
            ),
    {
        let shown: usize = if limit == 0 {
            50
        } else {
            limit
        };
        let events = self.events_in(run_id);
        Ok(tail_rows(&events, shown))
    }

    /// Indexes a live projection: its payload is captured while nothing else can change the store,
    /// and is bound to the events up to now. Of a run that there is not, nothing is captured.
    pub fn record_status_source_snapshot<C>(
        &mut self,
        run_id: &str,
        source: &str,
        capture_payload: C,
        now: Timestamp,
    ) -> (r: Result<(), StoreError>) where C: FnOnce() -> String
        requires
            old(self)@.valid(),
            old(self)@.run_row(run_id@) is Some ==> capture_payload.requires(()),
            now.writable(),
        ensures
            final(self)@.valid(),
            old(self)@.one_active_run() ==> final(self)@.one_active_run(),
            if old(self)@.run_row(run_id@) is None {
                r == Err::<(), StoreError>(StoreError::RunNotFound) && final(self)@ == old(self)@
            } else {
                r is Ok && exists|payload_json: String| #[trigger]
                    capture_payload.ensures((), payload_json) && final(self)@ == old(self)@.with_source(run_id@, source@, payload_json@, now)
            },
    {
        if self.run_index(run_id).is_none() {
            return Err(StoreError::RunNotFound);
        }
        let payload_json = capture_payload();
        let events = self.events_in(run_id);
        let indexed_event_id: i64 = if events.len() == 0 {
            0
        } else {
            events[events.len() - 1].id
        };
        let content_sha256 = digest_of(payload_json.as_str());
        let row = StatusSourceRow {
            run_id: run_id.to_owned(),
            source: source.to_owned(),
            payload_json: payload_json.dup(),
            indexed_event_id,
            content_sha256,
            observed_at: now,
        };
        let at = |other: &StatusSourceRow| -> (b: bool)
            ensures
                b == source_at(run_id@, source@)(other@),
            {
                same_text(other.run_id.as_str(), run_id) && same_text(
                    other.source.as_str(),
                    source,
                )
            };
        let set = |other: &StatusSourceRow| -> (out: Option<StatusSourceRow>)
            ensures
                match out {
                    Some(m) => source_at(run_id@, source@)(other@) && m@ == source_set(row@)(
                        other@,
                    ),
                    None => !source_at(run_id@, source@)(other@),
                },
            {
                if same_text(other.run_id.as_str(), run_id) && same_text(
                    other.source.as_str(),
                    source,
                ) {
                    Some(row.dup())
                } else {
                    None
                }
            };
        let ghost before = self@;
        proof {
            lemma_source_set(self@, row@);
        }
        let added = row.dup();
        upsert_row(
            &mut self.tables.sources,
            at,
            set,
            added,
            Ghost(source_at(run_id@, source@)),
            Ghost(source_set(row@)),
        );
        proof {
            assert(self@ == before.with_source(run_id@, source@, payload_json@, now));
        }
        Ok(())
    }

    fn read_status_sources(&self, run_id: &str) -> (r: Result<
        Vec<StatusSourceSnapshot>,
        StoreError,
    >)
        ensures
            res(r) == read_sources(self@.sources_of(run_id@)),
    {
        let of_run = |row: &StatusSourceRow| -> (b: bool)
            ensures
                b == source_of_run(run_id@)(row@),
            { same_text(row.run_id.as_str(), run_id) };
        let found = select_rows(&self.tables.sources, of_run, Ghost(source_of_run(run_id@)));
        let before = |a: &StatusSourceRow, b: &StatusSourceRow| -> (lt: bool)
            ensures
                lt == source_order()(a@, b@),
            { text_before(a.source.as_str(), b.source.as_str()) };
        let rows = order_rows(found, before, Ghost(source_order()));
        let mut read: Vec<StatusSourceSnapshot> = Vec::new();
        let mut i: usize = 0;
        assert(rows.deep_view().take(0) =~= Seq::empty());
        assert(read.deep_view() =~= Seq::empty());
        while i < rows.len()
            invariant
                i <= rows.len(),
                rows.deep_view() == self@.sources_of(run_id@),
                read_sources(rows.deep_view().take(i as int)) == Ok::<
                    Seq<StatusSourceSnapshotModel>,
                    StoreError,
                >(read.deep_view()),
            decreases rows.len() - i,
        {
            proof {
                let part = rows.deep_view().take(i + 1);
                assert(part.drop_last() =~= rows.deep_view().take(i as int));
                assert(part.last() == rows@[i as int]@);
            }
            match read_status_source(&rows[i]) {
                Ok(source) => {
                    let ghost before_push = read.deep_view();
                    read.push(source);
                    assert(read.deep_view() =~= before_push.push(source@));
                },
                Err(error) => {
                    proof {
                        lemma_sources_fail(rows.deep_view(), i + 1);
                    }
                    return Err(error);
                },
            }
            i = i + 1;
        }
        assert(rows.deep_view().take(i as int) =~= rows.deep_view());
        Ok(read)
    }

    fn capture(&self, run: Option<Run>, events_limit: usize, data_version: i64, now: Timestamp) -> (r:
        Result<Option<RunStateSnapshot>, StoreError>)
        ensures
            res(r) == self@.snapshot(run.deep_view(), events_limit, data_version, now),
    {
        let run = match run {
            Some(run) => run,
            None => {
                return Ok(None);
            },
        };
        let run_id = run.id.as_str();
        let status_sources = match self.read_status_sources(run_id) {
            Ok(status_sources) => status_sources,
            Err(error) => {
                return Err(error);
            },
        };
        let slice_runs = match self.get_slice_runs(run_id) {
            Ok(slice_runs) => slice_runs,
            Err(error) => {
                return Err(error);
            },
        };
        let worker_attempts = self.attempts_in(run_id);
        let progress = match self.get_progress(run_id) {
            Ok(progress) => progress,
            Err(error) => {
                return Err(error);
            },
        };
        let questions = match self.list_worker_questions(run_id) {
            Ok(questions) => questions,
            Err(error) => {
                return Err(error);
            },
        };
        let replan_proposals = match self.list_replan_proposals(run_id) {
            Ok(replan_proposals) => replan_proposals,
            Err(error) => {
                return Err(error);
            },
        };
        let (mission_envelope, frontier_budget) = match self.get_frontier_state(run_id) {
            Ok(state) => state,
            Err(error) => {
                return Err(error);
            },
        };
        let terminal_transition = match self.terminal_transition(run_id) {
            Ok(terminal_transition) => terminal_transition,
            Err(error) => {
                return Err(error);
            },
        };
        let merge_intents = match self.integration_merge_intents(run_id) {
            Ok(merge_intents) => merge_intents,
            Err(error) => {
                return Err(error);
            },
        };
        let launch_intents = self.launches_in(run_id);
        let events = self.events_in(run_id);
        let max_event_id: i64 = if events.len() == 0 {
            0
        } else {
            events[events.len() - 1].id
        };
        let shown: usize = if events_limit == 0 {
            50
        } else {
            events_limit
        };
        let event_tail = tail_rows(&events, shown);
        let revision = StatusSnapshotRevision {
            sqlite_data_version: data_version,
            max_event_id,
            run_updated_at: Some(run.updated_at),
            captured_at: Some(now),
        };
        Ok(
            Some(
                RunStateSnapshot {
                    revision,
                    run,
                    slice_runs,
                    worker_attempts,
                    progress,
                    questions,
                    replan_proposals,
                    mission_envelope,
                    frontier_budget,
                    events,
                    event_tail,
                    terminal_transition,
                    launch_intents,
                    merge_intents,
                    status_sources,
                },
            ),
        )
    }

    fn attempts_in(&self, run_id: &str) -> (r: Vec<WorkerAttemptLedger>)
        ensures
            r.deep_view() == self@.attempts_of(run_id@),
    {
        let of_run = |row: &AttemptRow| -> (b: bool)
            ensures
                b == attempt_of_run(run_id@)(row@),
            { same_text(row.attempt.run_id.as_str(), run_id) };
        let found = select_rows(&self.tables.attempts, of_run, Ghost(attempt_of_run(run_id@)));
        let before = |a: &AttemptRow, b: &AttemptRow| -> (lt: bool)
            ensures
                lt == launch_id_order()(a@, b@),
            { a.attempt.launch_id < b.attempt.launch_id };
        let sorted = order_rows(found, before, Ghost(launch_id_order()));
        read_attempts(&sorted)
    }

    fn launches_in(&self, run_id: &str) -> (r: Vec<RunLaunchIntent>)
        ensures
            r.deep_view() == self@.launches_of(run_id@),
    {
        let of_run = |row: &RunLaunchIntent| -> (b: bool)
            ensures
                b == launch_of_run(run_id@)(row@),
            { same_text(row.run_id.as_str(), run_id) };
        let found = select_rows(&self.tables.launches, of_run, Ghost(launch_of_run(run_id@)));
        let before = |a: &RunLaunchIntent, b: &RunLaunchIntent| -> (lt: bool)
            ensures
                lt == epoch_order()(a@, b@),
            { a.execution_epoch < b.execution_epoch };
        order_rows(found, before, Ghost(epoch_order()))
    }

    /// Everything that the status of a run is made of. The version of the data on disk is handed
    /// in.
    pub fn status_snapshot(
        &self,
        run_id: &str,
        events_limit: usize,
        data_version: i64,
        now: Timestamp,
    ) -> (r: Result<Option<RunStateSnapshot>, StoreError>)
        ensures
            res(r) == self@.snapshot(self@.run(run_id@), events_limit, data_version, now),
    {
        match self.get_run(run_id) {
            Ok(run) => self.capture(run, events_limit, data_version, now),
            Err(error) => Err(error),
        }
    }

    /// A snapshot of the run of a repository that started last.
    pub fn latest_status_snapshot(
        &self,
        repo_path: &str,
        active_only: bool,
        events_limit: usize,
        data_version: i64,
        now: Timestamp,
    ) -> (r: Result<Option<RunStateSnapshot>, StoreError>)
        ensures
            res(r) == self@.snapshot(
                self@.latest_run_for_repo(repo_path@, active_only),
                events_limit,
                data_version,
                now,
            ),
    {
        let run = self.latest_run_in(repo_path, active_only);
        self.capture(run, events_limit, data_version, now)
    }

    fn latest_run_in(&self, repo_path: &str, active_only: bool) -> (r: Option<Run>)
        ensures
            r.deep_view() == self@.latest_run_for_repo(repo_path@, active_only),
    {
        let at = |row: &RunRow| -> (b: bool)
            ensures
                b == run_at(repo_path@, active_only)(row@),
            {
                same_text(row.run.repo_path.as_str(), repo_path) && (!active_only
                    || row.run.status.is_active())
            };
        let found = select_rows(&self.tables.runs, at, Ghost(run_at(repo_path@, active_only)));
        let before = |a: &RunRow, b: &RunRow| -> (lt: bool)
            ensures
                lt == latest_started()(a@, b@),
            {
                b.run.started_at.earlier(&a.run.started_at) || (a.run.started_at
                    == b.run.started_at && text_before(b.run.id.as_str(), a.run.id.as_str()))
            };
        let sorted = order_rows(found, before, Ghost(latest_started()));
        if sorted.len() > 0 {
            assert(sorted.deep_view()[0] == sorted@[0]@);
            Some(sorted[0].run.dup())
        } else {
            None
        }
    }
}

fn read_status_source(row: &StatusSourceRow) -> (r: Result<StatusSourceSnapshot, StoreError>)
    ensures
        res(r) == read_source(row@),
{
    let observed = digest_of(row.payload_json.as_str());
    if !observed.same(&row.content_sha256) {
        return Err(StoreError::StatusSourceChecksum);
    }
    if read_level(row.payload_json.as_str()).is_none() {
        return Err(StoreError::StatusSourcePayload);
    }
    Ok(
        StatusSourceSnapshot {
            source: row.source.dup(),
            payload: row.payload_json.dup(),
            indexed_event_id: row.indexed_event_id,
            content_sha256: row.content_sha256.dup(),
            observed_at: row.observed_at,
        },
    )
}

/// What stops a part of the sources stops all of them.
proof fn lemma_sources_fail(rows: Seq<StatusSourceRowModel>, n: int)
    requires
        0 <= n <= rows.len(),
        read_sources(rows.take(n)) is Err,
    ensures
        read_sources(rows) == read_sources(rows.take(n)),
    decreases rows.len() - n,
{
    if n < rows.len() {
        assert(rows.take(n + 1).drop_last() =~= rows.take(n));
        lemma_sources_fail(rows, n + 1);
    } else {
        assert(rows.take(n) =~= rows);
    }
}

proof fn lemma_source_set(s: TablesModel, row: StatusSourceRowModel)
    requires
        s.valid(),
    ensures
        ({
            let after = TablesModel {
                sources: upsert(
                    s.sources,
                    source_at(row.run_id, row.source),
                    source_set(row),
                    row,
                ),
                ..s
            };
            after.valid() && (s.one_active_run() ==> after.one_active_run())
        }),
{
    let at = source_at(row.run_id, row.source);
    let after = upsert(s.sources, at, source_set(row), row);
    if any(s.sources, at) {
        let g = |m: StatusSourceRowModel|
            if at(m) {
                source_set(row)(m)
            } else {
                m
            };
        lemma_unique_map(s.sources, source_key(), g);
        assert(after =~= s.sources.map_values(g));
    } else {
        lemma_unique_push(s.sources, source_key(), row, at);
    }
}

} // verus!
