//! The durable state of runs, as tables and the transactions on them.
//!
//! Every operation either changes the tables as its contract says or leaves them as they were.
//!
//! Times are kept as texts outside of the library. Only the text of a year with four digits can be
//! read back, so what an operation does is stated for such times.
use crate::error::StoreError;
use crate::payloads::{Event, EventModel, EventPayload, EventPayloadModel};
use crate::rows::{
    AttemptRow, AttemptRowModel, ProgressRow, ProgressRowModel, QuestionRow, QuestionRowModel,
    RepoRow, RepoRowModel, RunRow, RunRowModel, StatusSourceRow, StatusSourceRowModel, Tables, TablesModel, TerminalRow,
    TerminalRowModel, WorkerTokenRow, WorkerTokenRowModel,
};
use crate::domain::{
    IntegrationMergeIntent, IntegrationMergeIntentModel, IntegrationMergeState, ReplanProposal,
    ReplanProposalModel, RunLaunchIntent, RunLaunchIntentModel, SliceRun,
    SliceRunModel,
};
use crate::table::{
    any, find_row, first, keys_unique, lemma_select_from, push_row, select, unique, upsert,
    upsert_row, Row,
};
use crate::text::same_text;
use crate::time::Timestamp;
use vstd::prelude::*;

pub mod attempts;
pub mod launches;
pub mod laws;
pub mod laws_of_attempts;
pub mod laws_of_ends;
pub mod laws_of_launches;
pub mod laws_of_merges;
pub mod laws_of_progress;
pub mod laws_of_questions;
pub mod laws_of_replans;
pub mod laws_of_runs;
pub mod laws_of_snapshots;
pub mod listings;
pub mod merges;
pub mod progress;
pub mod questions;
pub mod replans;
pub mod runs;
pub mod status;
pub mod terminal;

verus! {

/// The store.
#[derive(Debug)]
pub struct Store {
    tables: Tables,
}

impl View for Store {
    type V = TablesModel;

    closed spec fn view(&self) -> TablesModel {
        self.tables.deep_view()
    }
}

/// The model of an answer.
pub open spec fn res<T: DeepView>(r: Result<T, StoreError>) -> Result<T::V, StoreError> {
    match r {
        Ok(value) => Ok(value.deep_view()),
        Err(error) => Err(error),
    }
}

pub open spec fn run_key() -> spec_fn(RunRowModel) -> Seq<char> {
    |row: RunRowModel| row.run.id
}

pub open spec fn run_has_id(id: Seq<char>) -> spec_fn(RunRowModel) -> bool {
    |row: RunRowModel| row.run.id == id
}

pub open spec fn launch_key() -> spec_fn(RunLaunchIntentModel) -> (Seq<char>, usize) {
    |row: RunLaunchIntentModel| (row.run_id, row.execution_epoch)
}

pub open spec fn slice_key() -> spec_fn(SliceRunModel) -> (Seq<char>, Seq<char>) {
    |row: SliceRunModel| (row.run_id, row.slice_id)
}

pub open spec fn merge_key() -> spec_fn(IntegrationMergeIntentModel) -> Seq<char> {
    |row: IntegrationMergeIntentModel| row.operation_id
}

pub open spec fn attempt_key() -> spec_fn(AttemptRowModel) -> i64 {
    |row: AttemptRowModel| row.attempt.launch_id
}

pub open spec fn terminal_key() -> spec_fn(TerminalRowModel) -> Seq<char> {
    |row: TerminalRowModel| row.run_id
}

pub open spec fn source_key() -> spec_fn(StatusSourceRowModel) -> (Seq<char>, Seq<char>) {
    |row: StatusSourceRowModel| (row.run_id, row.source)
}

pub open spec fn progress_key() -> spec_fn(ProgressRowModel) -> Seq<char> {
    |row: ProgressRowModel| row.run_id
}

pub open spec fn token_key() -> spec_fn(WorkerTokenRowModel) -> Seq<char> {
    |row: WorkerTokenRowModel| row.run_id
}

pub open spec fn question_key() -> spec_fn(QuestionRowModel) -> Seq<char> {
    |row: QuestionRowModel| row.question.id
}

pub open spec fn proposal_key() -> spec_fn(ReplanProposalModel) -> Seq<char> {
    |row: ReplanProposalModel| row.id
}

pub open spec fn repo_key() -> spec_fn(RepoRowModel) -> Seq<char> {
    |row: RepoRowModel| row.id
}

pub open spec fn repo_path_key() -> spec_fn(RepoRowModel) -> Seq<char> {
    |row: RepoRowModel| row.path
}

/// Event identities grow along the log and never exceed the last one given out.
pub open spec fn log_in_order(events: Seq<EventModel>, last: i64) -> bool {
    &&& forall|i: int| 0 <= i < events.len() ==> 0 < (#[trigger] events[i]).id <= last
    &&& forall|i: int, j: int|
        #![trigger events[i], events[j]]
        0 <= i < j < events.len() ==> events[i].id < events[j].id
}

/// No launch identity exceeds the last one given out.
pub open spec fn launches_given_out(attempts: Seq<AttemptRowModel>, last: i64) -> bool {
    forall|i: int| 0 <= i < attempts.len() ==> 0 < (#[trigger] attempts[i]).attempt.launch_id <= last
}

/// At most one merge of a run is prepared at a time.
pub open spec fn one_prepared_merge(merges: Seq<IntegrationMergeIntentModel>) -> bool {
    forall|i: int, j: int|
        #![trigger merges[i], merges[j]]
        0 <= i < merges.len() && 0 <= j < merges.len() && merges[i].run_id == merges[j].run_id
            && merges[i].state == IntegrationMergeState::Prepared && merges[j].state
            == IntegrationMergeState::Prepared ==> i == j
}

/// Every recorded end of a run is an end. The operations of a store record no other.
pub open spec fn ends_are_ends(terminals: Seq<TerminalRowModel>) -> bool {
    forall|i: int| 0 <= i < terminals.len() ==> !(#[trigger] terminals[i]).status.active()
}

impl TablesModel {
    /// The keys of every table are unique, and the counters are ahead of what they count.
    pub open spec fn valid(self) -> bool {
        &&& unique(self.repos, repo_key())
        &&& unique(self.repos, repo_path_key())
        &&& unique(self.runs, run_key())
        &&& unique(self.launches, launch_key())
        &&& unique(self.slices, slice_key())
        &&& unique(self.merges, merge_key())
        &&& one_prepared_merge(self.merges)
        &&& unique(self.attempts, attempt_key())
        &&& launches_given_out(self.attempts, self.last_launch_id)
        &&& log_in_order(self.events, self.last_event_id)
        &&& unique(self.terminals, terminal_key())
        &&& unique(self.sources, source_key())
        &&& unique(self.progress, progress_key())
        &&& unique(self.tokens, token_key())
        &&& unique(self.questions, question_key())
        &&& unique(self.proposals, proposal_key())
        &&& 0 <= self.last_event_id
        &&& 0 <= self.last_launch_id
    }

    /// Whether so many events can still be recorded.
    pub open spec fn room(self, n: int) -> bool {
        self.last_event_id + n <= i64::MAX
    }

    /// The tables with one more event at the end of the log.
    pub open spec fn with_event(
        self,
        run_id: Seq<char>,
        typ: Seq<char>,
        payload: EventPayloadModel,
        at: Timestamp,
    ) -> TablesModel {
        let id = (self.last_event_id + 1) as i64;
        TablesModel {
            events: self.events.push(
                EventModel { id, run_id, typ, payload, created_at: at },
            ),
            last_event_id: id,
            ..self
        }
    }

    /// At most one run of a repository is pending or running.
    pub open spec fn one_active_run(self) -> bool {
        forall|i: int, j: int|
            #![trigger self.runs[i], self.runs[j]]
            0 <= i < self.runs.len() && 0 <= j < self.runs.len() && self.runs[i].run.repo_id
                == self.runs[j].run.repo_id && self.runs[i].run.status.active()
                && self.runs[j].run.status.active() ==> i == j
    }

    /// The slice with its new state, added where it was not there.
    pub open spec fn with_slice(self, slice: SliceRunModel) -> TablesModel {
        TablesModel {
            slices: upsert(
                self.slices,
                slice_at(slice.run_id, slice.slice_id),
                slice_set(slice),
                slice,
            ),
            ..self
        }
    }

    /// The slices with their new states, one after the other.
    pub open spec fn with_slices(self, slices: Seq<SliceRunModel>) -> TablesModel
        decreases slices.len(),
    {
        if slices.len() == 0 {
            self
        } else {
            self.with_slices(slices.drop_last()).with_slice(slices.last())
        }
    }

    pub open spec fn run_row(self, id: Seq<char>) -> Option<RunRowModel> {
        first(self.runs, run_has_id(id))
    }
}

pub open spec fn slice_at(run_id: Seq<char>, slice_id: Seq<char>) -> spec_fn(SliceRunModel) -> bool {
    |row: SliceRunModel| row.run_id == run_id && row.slice_id == slice_id
}

pub open spec fn slice_set(slice: SliceRunModel) -> spec_fn(SliceRunModel) -> SliceRunModel {
    |row: SliceRunModel| slice
}

/// A run that is added without a rival keeps the claim unique.
pub proof fn lemma_one_active_push(s: TablesModel, row: RunRowModel)
    requires
        row.run.status.active() ==> !any(
            s.runs,
            launches::active_other(row.run.repo_id, row.run.id),
        ),
        !any(s.runs, run_has_id(row.run.id)),
    ensures
        s.one_active_run() ==> (TablesModel { runs: s.runs.push(row), ..s }).one_active_run(),
{
    let after = TablesModel { runs: s.runs.push(row), ..s };
    if s.one_active_run() {
        assert forall|i: int, j: int|
            #![trigger after.runs[i], after.runs[j]]
            0 <= i < after.runs.len() && 0 <= j < after.runs.len() && after.runs[i].run.repo_id
                == after.runs[j].run.repo_id && after.runs[i].run.status.active()
                && after.runs[j].run.status.active() implies i == j by {
            let other = launches::active_other(row.run.repo_id, row.run.id);
            if i < s.runs.len() && j < s.runs.len() {
                assert(s.runs[i] == after.runs[i] && s.runs[j] == after.runs[j]);
            } else if i < s.runs.len() {
                assert(!run_has_id(row.run.id)(s.runs[i]));
                assert(other(s.runs[i]));
            } else if j < s.runs.len() {
                assert(!run_has_id(row.run.id)(s.runs[j]));
                assert(other(s.runs[j]));
            }
        }
    }
}

/// Where no run becomes active and none moves to another repository, the claim stays unique.
pub proof fn lemma_one_active_kept(s: TablesModel, g: spec_fn(RunRowModel) -> RunRowModel)
    requires
        forall|i: int|
            0 <= i < s.runs.len() ==> g(#[trigger] s.runs[i]).run.repo_id == s.runs[i].run.repo_id
                && (g(s.runs[i]).run.status.active() ==> s.runs[i].run.status.active()),
    ensures
        s.one_active_run() ==> (TablesModel {
            runs: s.runs.map_values(g),
            ..s
        }).one_active_run(),
{
    let after = TablesModel { runs: s.runs.map_values(g), ..s };
    if s.one_active_run() {
        assert forall|i: int, j: int|
            #![trigger after.runs[i], after.runs[j]]
            0 <= i < after.runs.len() && 0 <= j < after.runs.len() && after.runs[i].run.repo_id
                == after.runs[j].run.repo_id && after.runs[i].run.status.active()
                && after.runs[j].run.status.active() implies i == j by {
            assert(after.runs[i] == g(s.runs[i]) && after.runs[j] == g(s.runs[j]));
        }
    }
}

/// Where one run becomes active and no other run of its repository is, the claim stays unique.
pub proof fn lemma_one_active_raised(
    s: TablesModel,
    g: spec_fn(RunRowModel) -> RunRowModel,
    row: RunRowModel,
)
    requires
        unique(s.runs, run_key()),
        s.runs.contains(row),
        !any(s.runs, launches::active_other(row.run.repo_id, row.run.id)),
        forall|m: RunRowModel|
            (#[trigger] g(m)).run.repo_id == m.run.repo_id && (m.run.id != row.run.id ==> g(m)
                == m),
    ensures
        s.one_active_run() ==> (TablesModel {
            runs: s.runs.map_values(g),
            ..s
        }).one_active_run(),
{
    let after = TablesModel { runs: s.runs.map_values(g), ..s };
    let k = choose|k: int| 0 <= k < s.runs.len() && s.runs[k] == row;
    if s.one_active_run() {
        assert forall|i: int, j: int|
            #![trigger after.runs[i], after.runs[j]]
            0 <= i < after.runs.len() && 0 <= j < after.runs.len() && after.runs[i].run.repo_id
                == after.runs[j].run.repo_id && after.runs[i].run.status.active()
                && after.runs[j].run.status.active() implies i == j by {
            assert(after.runs[i] == g(s.runs[i]) && after.runs[j] == g(s.runs[j]));
            let other = launches::active_other(row.run.repo_id, row.run.id);
            if i != j {
                if i != k && j != k {
                    assert(run_key()(s.runs[i]) != run_key()(s.runs[k]));
                    assert(run_key()(s.runs[j]) != run_key()(s.runs[k]));
                } else if i == k {
                    assert(run_key()(s.runs[j]) != run_key()(s.runs[k]));
                    assert(other(s.runs[j]));
                } else {
                    assert(run_key()(s.runs[i]) != run_key()(s.runs[k]));
                    assert(other(s.runs[i]));
                }
            }
        }
    }
}

/// Setting a slice keeps the tables valid.
pub proof fn lemma_slice_valid(s: TablesModel, slice: SliceRunModel)
    requires
        s.valid(),
    ensures
        s.with_slice(slice).valid(),
        s.one_active_run() ==> s.with_slice(slice).one_active_run(),
{
    let at = slice_at(slice.run_id, slice.slice_id);
    if any(s.slices, at) {
        let g = |row: SliceRunModel|
            if at(row) {
                slice_set(slice)(row)
            } else {
                row
            };
        lemma_unique_map(s.slices, slice_key(), g);
        assert(s.with_slice(slice).slices =~= s.slices.map_values(g));
    } else {
        lemma_unique_push(s.slices, slice_key(), slice, at);
    }
}

/// Replacing rows by rows of the same keys keeps the keys unique.
pub proof fn lemma_unique_map<M, K>(rows: Seq<M>, key: spec_fn(M) -> K, g: spec_fn(M) -> M)
    requires
        unique(rows, key),
        forall|m: M| #[trigger] key(g(m)) == key(m),
    ensures
        unique(rows.map_values(g), key),
{
    let after = rows.map_values(g);
    assert forall|i: int, j: int|
        #![trigger after[i], after[j]]
        0 <= i < after.len() && 0 <= j < after.len() && key(after[i]) == key(after[j]) implies i
        == j by {
        assert(key(rows[i]) == key(rows[j]));
    }
}

/// Adding a row with a new key keeps the keys unique.
pub proof fn lemma_unique_push<M, K>(
    rows: Seq<M>,
    key: spec_fn(M) -> K,
    row: M,
    same_key: spec_fn(M) -> bool,
)
    requires
        unique(rows, key),
        !any(rows, same_key),
        forall|m: M| key(m) == key(row) ==> #[trigger] same_key(m),
    ensures
        unique(rows.push(row), key),
{
    let after = rows.push(row);
    assert forall|i: int, j: int|
        #![trigger after[i], after[j]]
        0 <= i < after.len() && 0 <= j < after.len() && key(after[i]) == key(after[j]) implies i
        == j by {
        if i < rows.len() && j < rows.len() {
            assert(key(rows[i]) == key(rows[j]));
        } else if i < rows.len() {
            assert(same_key(rows[i]));
        } else if j < rows.len() {
            assert(same_key(rows[j]));
        }
    }
}

/// Whether the tables could have come about by the operations of a store.
fn tables_are_valid(tables: &Tables) -> (r: bool)
    ensures
        r == tables.deep_view().valid(),
{
    let same_repo = |a: &RepoRow, b: &RepoRow| -> (same: bool)
        ensures
            same == (repo_key()(a@) == repo_key()(b@)),
        { a.id.same(&b.id) };
    let same_repo_path = |a: &RepoRow, b: &RepoRow| -> (same: bool)
        ensures
            same == (repo_path_key()(a@) == repo_path_key()(b@)),
        { a.path.same(&b.path) };
    let same_run = |a: &RunRow, b: &RunRow| -> (same: bool)
        ensures
            same == (run_key()(a@) == run_key()(b@)),
        { a.run.id.same(&b.run.id) };
    let same_launch = |a: &RunLaunchIntent, b: &RunLaunchIntent| -> (same: bool)
        ensures
            same == (launch_key()(a@) == launch_key()(b@)),
        { a.run_id.same(&b.run_id) && a.execution_epoch == b.execution_epoch };
    let same_slice = |a: &SliceRun, b: &SliceRun| -> (same: bool)
        ensures
            same == (slice_key()(a@) == slice_key()(b@)),
        { a.run_id.same(&b.run_id) && a.slice_id.same(&b.slice_id) };
    let same_merge = |a: &IntegrationMergeIntent, b: &IntegrationMergeIntent| -> (same: bool)
        ensures
            same == (merge_key()(a@) == merge_key()(b@)),
        { a.operation_id.same(&b.operation_id) };
    let same_attempt = |a: &AttemptRow, b: &AttemptRow| -> (same: bool)
        ensures
            same == (attempt_key()(a@) == attempt_key()(b@)),
        { a.attempt.launch_id == b.attempt.launch_id };
    let same_terminal = |a: &TerminalRow, b: &TerminalRow| -> (same: bool)
        ensures
            same == (terminal_key()(a@) == terminal_key()(b@)),
        { a.run_id.same(&b.run_id) };
    let same_source = |a: &StatusSourceRow, b: &StatusSourceRow| -> (same: bool)
        ensures
            same == (source_key()(a@) == source_key()(b@)),
        { a.run_id.same(&b.run_id) && a.source.same(&b.source) };
    let same_progress = |a: &ProgressRow, b: &ProgressRow| -> (same: bool)
        ensures
            same == (progress_key()(a@) == progress_key()(b@)),
        { a.run_id.same(&b.run_id) };
    let same_token = |a: &WorkerTokenRow, b: &WorkerTokenRow| -> (same: bool)
        ensures
            same == (token_key()(a@) == token_key()(b@)),
        { a.run_id.same(&b.run_id) };
    let same_question = |a: &QuestionRow, b: &QuestionRow| -> (same: bool)
        ensures
            same == (question_key()(a@) == question_key()(b@)),
        { a.question.id.same(&b.question.id) };
    let same_proposal = |a: &ReplanProposal, b: &ReplanProposal| -> (same: bool)
        ensures
            same == (proposal_key()(a@) == proposal_key()(b@)),
        { a.id.same(&b.id) };
    keys_unique::<RepoRow, Seq<char>, _>(&tables.repos, same_repo, Ghost(repo_key()))
        && keys_unique::<RepoRow, Seq<char>, _>(&tables.repos, same_repo_path, Ghost(repo_path_key()))
        && keys_unique::<RunRow, Seq<char>, _>(&tables.runs, same_run, Ghost(run_key()))
        && keys_unique::<RunLaunchIntent, (Seq<char>, usize), _>(&tables.launches, same_launch, Ghost(launch_key()))
        && keys_unique::<SliceRun, (Seq<char>, Seq<char>), _>(&tables.slices, same_slice, Ghost(slice_key()))
        && keys_unique::<IntegrationMergeIntent, Seq<char>, _>(&tables.merges, same_merge, Ghost(merge_key()))
        && keys_unique::<AttemptRow, i64, _>(&tables.attempts, same_attempt, Ghost(attempt_key()))
        && keys_unique::<TerminalRow, Seq<char>, _>(&tables.terminals, same_terminal, Ghost(terminal_key()))
        && keys_unique::<StatusSourceRow, (Seq<char>, Seq<char>), _>(&tables.sources, same_source, Ghost(source_key()))
        && keys_unique::<ProgressRow, Seq<char>, _>(&tables.progress, same_progress, Ghost(progress_key()))
        && keys_unique::<WorkerTokenRow, Seq<char>, _>(&tables.tokens, same_token, Ghost(token_key()))
        && keys_unique::<QuestionRow, Seq<char>, _>(&tables.questions, same_question, Ghost(question_key()))
        && keys_unique::<ReplanProposal, Seq<char>, _>(&tables.proposals, same_proposal, Ghost(proposal_key()))
        && merges_have_one_prepared(&tables.merges) && attempts_in_range(
        &tables.attempts,
        tables.last_launch_id,
    ) && events_in_order(&tables.events, tables.last_event_id)
        && tables.last_event_id >= 0 && tables.last_launch_id >= 0
}

fn merges_have_one_prepared(merges: &Vec<IntegrationMergeIntent>) -> (r: bool)
    ensures
        r == one_prepared_merge(merges.deep_view()),
{
    let ghost all = merges.deep_view();
    let mut i: usize = 0;
    while i < merges.len()
        invariant
            i <= merges.len(),
            all == merges.deep_view(),
            forall|x: int, y: int|
                #![trigger all[x], all[y]]
                0 <= x < i && 0 <= y < i && all[x].run_id == all[y].run_id && all[x].state
                    == IntegrationMergeState::Prepared && all[y].state
                    == IntegrationMergeState::Prepared ==> x == y,
        decreases merges.len() - i,
    {
        let mut j: usize = 0;
        while j < i
            invariant
                j <= i < merges.len(),
                all == merges.deep_view(),
                forall|x: int|
                    0 <= x < j ==> !((#[trigger] all[x]).run_id == all[i as int].run_id
                        && all[x].state == IntegrationMergeState::Prepared && all[i as int].state
                        == IntegrationMergeState::Prepared),
            decreases i - j,
        {
            assert(all[j as int] == merges@[j as int]@);
            assert(all[i as int] == merges@[i as int]@);
            if merges[j].run_id.same(&merges[i].run_id) && merges[j].state
                == IntegrationMergeState::Prepared && merges[i].state
                == IntegrationMergeState::Prepared {
                return false;
            }
            j = j + 1;
        }
        i = i + 1;
    }
    true
}

fn attempts_in_range(attempts: &Vec<AttemptRow>, last: i64) -> (r: bool)
    ensures
        r == launches_given_out(attempts.deep_view(), last),
{
    let ghost all = attempts.deep_view();
    let mut i: usize = 0;
    while i < attempts.len()
        invariant
            i <= attempts.len(),
            all == attempts.deep_view(),
            forall|x: int| 0 <= x < i ==> 0 < (#[trigger] all[x]).attempt.launch_id <= last,
        decreases attempts.len() - i,
    {
        assert(all[i as int] == attempts@[i as int]@);
        if attempts[i].attempt.launch_id <= 0 || attempts[i].attempt.launch_id > last {
            return false;
        }
        i = i + 1;
    }
    true
}

fn events_in_order(events: &Vec<Event>, last: i64) -> (r: bool)
    ensures
        r == log_in_order(events.deep_view(), last),
{
    let ghost all = events.deep_view();
    let mut i: usize = 0;
    let mut previous: i64 = 0;
    while i < events.len()
        invariant
            i <= events.len(),
            all == events.deep_view(),
            0 <= previous,
            i == 0 ==> previous == 0,
            i > 0 ==> previous == all[i - 1].id,
            log_in_order(all.take(i as int), last),
        decreases events.len() - i,
    {
        assert(all[i as int] == events@[i as int]@);
        if events[i].id <= previous || events[i].id > last {
            proof {
                if i > 0 {
                    assert(all[i - 1].id >= all[i as int].id || all[i as int].id > last);
                }
            }
            return false;
        }
        previous = events[i].id;
        proof {
            let part = all.take(i + 1);
            assert forall|x: int, y: int|
                #![trigger part[x], part[y]]
                0 <= x < y < part.len() implies part[x].id < part[y].id by {
                if y < i {
                    assert(all.take(i as int)[x] == part[x] && all.take(i as int)[y] == part[y]);
                } else if x < i - 1 {
                    assert(all.take(i as int)[x] == part[x]);
                    assert(all.take(i as int)[i - 1] == part[i - 1]);
                }
            }
            assert forall|x: int| 0 <= x < part.len() implies 0 < (#[trigger] part[x]).id
                <= last by {
                if x < i {
                    assert(all.take(i as int)[x] == part[x]);
                }
            }
        }
        i = i + 1;
    }
    assert(all.take(i as int) =~= all);
    true
}

impl Store {
    /// A store with tables that were kept elsewhere; tables that no store can have are refused.
    pub fn from_tables(tables: Tables) -> (r: Result<Store, StoreError>)
        ensures
            match r {
                Ok(store) => tables.deep_view().valid() && store@ == tables.deep_view(),
                Err(error) => !tables.deep_view().valid() && error == StoreError::CorruptTables,
            },
    {
        if tables_are_valid(&tables) {
            Ok(Store { tables })
        } else {
            Err(StoreError::CorruptTables)
        }
    }

    /// The tables, to be kept elsewhere.
    pub fn tables(&self) -> (r: &Tables)
        ensures
            r.deep_view() == self@,
    {
        &self.tables
    }

    /// A store with empty tables.
    pub fn new() -> (r: Store)
        ensures
            r@.valid(),
            r@.one_active_run(),
            r@ == (TablesModel {
                repos: Seq::empty(),
                runs: Seq::empty(),
                launches: Seq::empty(),
                slices: Seq::empty(),
                merges: Seq::empty(),
                attempts: Seq::empty(),
                events: Seq::empty(),
                terminals: Seq::empty(),
                sources: Seq::empty(),
                progress: Seq::empty(),
                tokens: Seq::empty(),
                questions: Seq::empty(),
                proposals: Seq::empty(),
                last_event_id: 0,
                last_launch_id: 0,
            }),
    {
        let r = Store {
            tables: Tables {
                repos: Vec::new(),
                runs: Vec::new(),
                launches: Vec::new(),
                slices: Vec::new(),
                merges: Vec::new(),
                attempts: Vec::new(),
                events: Vec::new(),
                terminals: Vec::new(),
                sources: Vec::new(),
                progress: Vec::new(),
                tokens: Vec::new(),
                questions: Vec::new(),
                proposals: Vec::new(),
                last_event_id: 0,
                last_launch_id: 0,
            },
        };
        r
    }

    fn append_event(&mut self, run_id: &str, typ: &str, payload: EventPayload, at: Timestamp)
        requires
            old(self)@.room(1),
        ensures
            final(self)@ == old(self)@.with_event(run_id@, typ@, payload@, at),
            old(self)@.valid() ==> final(self)@.valid(),
            old(self)@.one_active_run() ==> final(self)@.one_active_run(),
    {
        let id: i64 = self.tables.last_event_id + 1;
        let event = Event {
            id,
            run_id: run_id.to_owned(),
            typ: typ.to_owned(),
            payload,
            created_at: at,
        };
        push_row(&mut self.tables.events, event);
        self.tables.last_event_id = id;
    }

    /// Whether so many events can still be recorded.
    fn has_room(&self, n: usize) -> (r: bool)
        requires
            0 <= self@.last_event_id,
        ensures
            r == self@.room(n as int),
    {
        let left: i64 = i64::MAX - self.tables.last_event_id;
        n as u64 <= left as u64
    }

    fn put_slice(&mut self, slice: &SliceRun)
        requires
            old(self)@.valid(),
        ensures
            final(self)@ == old(self)@.with_slice(slice@),
            final(self)@.valid(),
            old(self)@.one_active_run() ==> final(self)@.one_active_run(),
    {
        let at = |row: &SliceRun| -> (b: bool)
            ensures
                b == slice_at(slice@.run_id, slice@.slice_id)(row@),
            {
                same_text(row.run_id.as_str(), slice.run_id.as_str()) && same_text(
                    row.slice_id.as_str(),
                    slice.slice_id.as_str(),
                )
            };
        let merge = |row: &SliceRun| -> (out: Option<SliceRun>)
            ensures
                match out {
                    Some(m) => slice_at(slice@.run_id, slice@.slice_id)(row@) && m@ == slice_set(
                        slice@,
                    )(row@),
                    None => !slice_at(slice@.run_id, slice@.slice_id)(row@),
                },
            {
                if same_text(row.run_id.as_str(), slice.run_id.as_str()) && same_text(
                    row.slice_id.as_str(),
                    slice.slice_id.as_str(),
                ) {
                    Some(slice.dup())
                } else {
                    None
                }
            };
        proof {
            lemma_slice_valid(self@, slice@);
        }
        let new_row = slice.dup();
        upsert_row(
            &mut self.tables.slices,
            at,
            merge,
            new_row,
            Ghost(slice_at(slice@.run_id, slice@.slice_id)),
            Ghost(slice_set(slice@)),
        );
    }

    fn put_slices(&mut self, slices: &Vec<SliceRun>)
        requires
            old(self)@.valid(),
        ensures
            final(self)@ == old(self)@.with_slices(slices.deep_view()),
            final(self)@.valid(),
            old(self)@.one_active_run() ==> final(self)@.one_active_run(),
    {
        let mut i: usize = 0;
        let ghost before = self@;
        assert(slices.deep_view().take(0) =~= Seq::empty());
        while i < slices.len()
            invariant
                i <= slices.len(),
                self@ == before.with_slices(slices.deep_view().take(i as int)),
                self@.valid(),
                before.one_active_run() ==> self@.one_active_run(),
            decreases slices.len() - i,
        {
            self.put_slice(&slices[i]);
            proof {
                let part = slices.deep_view().take(i + 1);
                assert(part.drop_last() =~= slices.deep_view().take(i as int));
                assert(part.last() == slices@[i as int]@);
            }
            i = i + 1;
        }
        assert(slices.deep_view().take(i as int) =~= slices.deep_view());
    }

    fn run_index(&self, id: &str) -> (r: Option<usize>)
        ensures
            match r {
                Some(i) => i < self.tables.runs.len() && self@.run_row(id@) == Some(
                    self.tables.runs@[i as int]@,
                ) && any(self@.runs, run_has_id(id@)),
                None => self@.run_row(id@) is None && !any(self@.runs, run_has_id(id@)),
            },
    {
        let has_id = |row: &RunRow| -> (b: bool)
            ensures
                b == run_has_id(id@)(row@),
            { same_text(row.run.id.as_str(), id) };
        find_row(&self.tables.runs, has_id, Ghost(run_has_id(id@)))
    }
}

} // verus!
