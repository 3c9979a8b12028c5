//! Repositories and runs.
use super::launches::active_other;
use super::{
    lemma_one_active_kept, lemma_one_active_raised, lemma_unique_map, lemma_unique_push, repo_key,
    repo_path_key, res, run_has_id, run_key, Store,
};
use crate::domain::{
    FrontierBudgetState, FrontierBudgetStateModel, MissionEnvelope, MissionEnvelopeModel, Repo,
    RepoModel, Run, RunModel, RunStatus,
};
use crate::error::StoreError;
use crate::rows::{RepoRow, RepoRowModel, RunRow, RunRowModel, TablesModel};
use crate::table::{
    any, find_row, head, head_rows, lemma_first_any, order_rows, ordered, project_rows, select,
    select_rows, unique, update_rows, upsert, upsert_row, Row,
};
use crate::text::{same_text, text_before, text_lt};
use crate::time::Timestamp;
use vstd::prelude::*;

verus! {

/// How a repository is kept.
pub open spec fn repo_row(repo: RepoModel) -> RepoRowModel {
    RepoRowModel { id: repo.id, path: repo.path, created_at: repo.created_at.text() }
}

pub open spec fn repo_has_id(id: Seq<char>) -> spec_fn(RepoRowModel) -> bool {
    |row: RepoRowModel| row.id == id
}

/// Another repository at the same path.
pub open spec fn repo_at_path(path: Seq<char>, id: Seq<char>) -> spec_fn(RepoRowModel) -> bool {
    |row: RepoRowModel| row.path == path && row.id != id
}

pub open spec fn repo_moved(path: Seq<char>) -> spec_fn(RepoRowModel) -> RepoRowModel {
    |row: RepoRowModel| RepoRowModel { path, ..row }
}

pub open spec fn run_of() -> spec_fn(RunRowModel) -> RunModel {
    |row: RunRowModel| row.run
}

pub open spec fn run_is_active() -> spec_fn(RunRowModel) -> bool {
    |row: RunRowModel| row.run.status.active()
}

/// Earliest started first.
pub open spec fn earliest_started() -> spec_fn(RunRowModel, RunRowModel) -> bool {
    |a: RunRowModel, b: RunRowModel| a.run.started_at.lt(b.run.started_at)
}

/// Latest started first, the greater identifier first among equals.
pub open spec fn latest_started() -> spec_fn(RunRowModel, RunRowModel) -> bool {
    |a: RunRowModel, b: RunRowModel|
        b.run.started_at.lt(a.run.started_at) || (a.run.started_at == b.run.started_at && text_lt(
            b.run.id,
            a.run.id,
        ))
}

pub open spec fn run_set(
    run_id: Seq<char>,
    status: RunStatus,
    error: Seq<char>,
    now: Timestamp,
) -> spec_fn(RunRowModel) -> RunRowModel {
    |row: RunRowModel|
        if row.run.id == run_id {
            RunRowModel { run: RunModel { status, error, updated_at: now, ..row.run }, ..row }
        } else {
            row
        }
}

pub open spec fn frontier_set(
    run_id: Seq<char>,
    mission_envelope: Option<MissionEnvelopeModel>,
    frontier_budget: Option<FrontierBudgetStateModel>,
    now: Timestamp,
) -> spec_fn(RunRowModel) -> RunRowModel {
    |row: RunRowModel|
        if row.run.id == run_id {
            RunRowModel {
                run: RunModel { updated_at: now, ..row.run },
                mission_envelope,
                frontier_budget,
                ..row
            }
        } else {
            row
        }
}

pub open spec fn slices_selected(
    run_id: Seq<char>,
    selected_slice_id: Seq<char>,
    now: Timestamp,
) -> spec_fn(RunRowModel) -> RunRowModel {
    |row: RunRowModel|
        if row.run.id == run_id {
            RunRowModel {
                run: RunModel { selected_slice_id, updated_at: now, ..row.run },
                ..row
            }
        } else {
            row
        }
}

impl TablesModel {
    pub open spec fn run(self, id: Seq<char>) -> Option<RunModel> {
        match self.run_row(id) {
            Some(row) => Some(row.run),
            None => None,
        }
    }

    /// The tables after a repository was recorded.
    pub open spec fn with_repo(self, repo: RepoModel) -> TablesModel {
        TablesModel {
            repos: upsert(self.repos, repo_has_id(repo.id), repo_moved(repo.path), repo_row(repo)),
            ..self
        }
    }

    /// The tables after a run was given another status.
    pub open spec fn with_run_status(
        self,
        run_id: Seq<char>,
        status: RunStatus,
        error: Seq<char>,
        now: Timestamp,
    ) -> TablesModel {
        TablesModel { runs: self.runs.map_values(run_set(run_id, status, error, now)), ..self }
    }

    /// The tables after the mission envelope and the frontier budget of a run were written.
    pub open spec fn with_frontier_state(
        self,
        run_id: Seq<char>,
        mission_envelope: Option<MissionEnvelopeModel>,
        frontier_budget: Option<FrontierBudgetStateModel>,
        now: Timestamp,
    ) -> TablesModel {
        TablesModel {
            runs: self.runs.map_values(
                frontier_set(run_id, mission_envelope, frontier_budget, now),
            ),
            ..self
        }
    }

    /// The tables after the selected slices of a run were written.
    pub open spec fn with_selected_slices(
        self,
        run_id: Seq<char>,
        selected_slice_id: Seq<char>,
        now: Timestamp,
    ) -> TablesModel {
        TablesModel {
            runs: self.runs.map_values(slices_selected(run_id, selected_slice_id, now)),
            ..self
        }
    }

    /// A run can be set active only where no other run of its repository is.
    pub open spec fn update_run_refusal(
        self,
        run_id: Seq<char>,
        status: RunStatus,
    ) -> Option<StoreError> {
        match self.run_row(run_id) {
            Some(row) => if status.active() && any(
                self.runs,
                active_other(row.run.repo_id, run_id),
            ) {
                Some(StoreError::ActiveRunExists)
            } else {
                None
            },
            None => None,
        }
    }

    /// A run with an envelope but no recorded budget has used none of it.
    pub open spec fn frontier_state(self, run_id: Seq<char>) -> (
        Option<MissionEnvelopeModel>,
        Option<FrontierBudgetStateModel>,
    ) {
        match self.run_row(run_id) {
            None => (None, None),
            Some(row) => (
                row.mission_envelope,
                match row.frontier_budget {
                    Some(budget) => Some(budget),
                    None => if row.mission_envelope is Some {
                        Some(FrontierBudgetStateModel::empty())
                    } else {
                        None
                    },
                },
            ),
        }
    }

    pub open spec fn active_runs(self) -> Seq<RunModel> {
        ordered(select(self.runs, run_is_active()), earliest_started()).map_values(run_of())
    }

    pub open spec fn latest_runs(self, limit: nat) -> Seq<RunModel> {
        head(
            ordered(self.runs, latest_started()),
            if limit == 0 {
                10
            } else {
                limit
            },
        ).map_values(run_of())
    }

    /// The epoch of a run, at least one.
    pub open spec fn epoch_of(row: RunRowModel) -> int {
        if row.execution_epoch < 1 {
            1
        } else {
            row.execution_epoch as int
        }
    }
}

impl Store {
    /// Records a repository; a known one moves to its new path.
    pub fn upsert_repo(&mut self, repo: &Repo) -> (r: Result<(), StoreError>)
        requires
            old(self)@.valid(),
        ensures
            final(self)@.valid(),
            if any(old(self)@.repos, repo_at_path(repo@.path, repo@.id)) {
                r == Err::<(), StoreError>(StoreError::RepoPathTaken) && final(self)@ == old(self)@
            } else {
                r is Ok && final(self)@ == (TablesModel {
                    repos: upsert(
                        old(self)@.repos,
                        repo_has_id(repo@.id),
                        repo_moved(repo@.path),
                        repo_row(repo@),
                    ),
                    ..old(self)@
                })
            },
            r is Ok ==> final(self)@ == old(self)@.with_repo(repo@),
    {
        let taken = |row: &RepoRow| -> (b: bool)
            ensures
                b == repo_at_path(repo@.path, repo@.id)(row@),
            {
                same_text(row.path.as_str(), repo.path.as_str()) && !same_text(
                    row.id.as_str(),
                    repo.id.as_str(),
                )
            };
        if find_row(&self.tables.repos, taken, Ghost(repo_at_path(repo@.path, repo@.id))).is_some() {
            return Err(StoreError::RepoPathTaken);
        }
        let has_id = |row: &RepoRow| -> (b: bool)
            ensures
                b == repo_has_id(repo@.id)(row@),
            { same_text(row.id.as_str(), repo.id.as_str()) };
        let moved = |row: &RepoRow| -> (out: Option<RepoRow>)
            ensures
                match out {
                    Some(m) => repo_has_id(repo@.id)(row@) && m@ == repo_moved(repo@.path)(row@),
                    None => !repo_has_id(repo@.id)(row@),
                },
            {
                if same_text(row.id.as_str(), repo.id.as_str()) {
                    let mut m = row.dup();
                    m.path = repo.path.dup();
                    Some(m)
                } else {
                    None
                }
            };
        let new_row = RepoRow {
            id: repo.id.dup(),
            path: repo.path.dup(),
            created_at: repo.created_at.to_rfc3339(),
        };
        upsert_row(
            &mut self.tables.repos,
            has_id,
            moved,
            new_row,
            Ghost(repo_has_id(repo@.id)),
            Ghost(repo_moved(repo@.path)),
        );
        proof {
            lemma_repos_unique(old(self)@.repos, repo_row(repo@));
        }
        Ok(())
    }

    /// The run of this name.
    pub fn get_run(&self, id: &str) -> (r: Result<Option<Run>, StoreError>)
        ensures
            res(r) == Ok::<Option<RunModel>, StoreError>(self@.run(id@)),
    {
        match self.run_index(id) {
            Some(index) => Ok(Some(self.tables.runs[index].run.dup())),
            None => Ok(None),
        }
    }

    /// Gives a run another status.
    pub fn update_run(
        &mut self,
        run_id: &str,
        status: RunStatus,
        error: &str,
        now: Timestamp,
    ) -> (r: Result<(), StoreError>)
        requires
            old(self)@.valid(),
            now.writable(),
        ensures
            final(self)@.valid(),
            old(self)@.one_active_run() ==> final(self)@.one_active_run(),
            match old(self)@.update_run_refusal(run_id@, status) {
                Some(refusal) => r == Err::<(), StoreError>(refusal) && final(self)@ == old(self)@,
                None => r is Ok && final(self)@ == (TablesModel {
                    runs: old(self)@.runs.map_values(run_set(run_id@, status, error@, now)),
                    ..old(self)@
                }),
            },
            r is Ok ==> final(self)@ == old(self)@.with_run_status(run_id@, status, error@, now),
    {
        let index = match self.run_index(run_id) {
            Some(index) => index,
            None => {
                proof {
                    let g = run_set(run_id@, status, error@, now);
                    assert(self@.runs.map_values(g) =~= self@.runs) by {
                        assert forall|i: int| 0 <= i < self@.runs.len() implies g(
                            #[trigger] self@.runs[i],
                        ) == self@.runs[i] by {
                            assert(!run_has_id(run_id@)(self@.runs[i]));
                        }
                    }
                }
                return Ok(());
            },
        };
        if status.is_active() && self.claimed_by_other(
            self.tables.runs[index].run.repo_id.as_str(),
            run_id,
        ) {
            return Err(StoreError::ActiveRunExists);
        }
        self.set_run_status(run_id, status, error, now);
        Ok(())
    }

    pub(crate) fn set_run_status(
        &mut self,
        run_id: &str,
        status: RunStatus,
        error: &str,
        now: Timestamp,
    )
        requires
            old(self)@.valid(),
            old(self)@.run_row(run_id@) is Some,
            status.active() ==> old(self)@.run_row(run_id@)->0.run.status.active() || !any(
                old(self)@.runs,
                active_other(old(self)@.run_row(run_id@)->0.run.repo_id, run_id@),
            ),
        ensures
            final(self)@.valid(),
            old(self)@.one_active_run() ==> final(self)@.one_active_run(),
            final(self)@ == (TablesModel {
                runs: old(self)@.runs.map_values(run_set(run_id@, status, error@, now)),
                ..old(self)@
            }),
    {
        let set = |row: &RunRow| -> (out: Option<RunRow>)
            ensures
                match out {
                    Some(m) => m@ == run_set(run_id@, status, error@, now)(row@),
                    None => run_set(run_id@, status, error@, now)(row@) == row@,
                },
            {
                if same_text(row.run.id.as_str(), run_id) {
                    let mut m = row.dup();
                    m.run.status = status;
                    m.run.error = error.to_owned();
                    m.run.updated_at = now;
                    Some(m)
                } else {
                    None
                }
            };
        proof {
            let g = run_set(run_id@, status, error@, now);
            lemma_unique_map(self@.runs, run_key(), g);
            lemma_first_any(self@.runs, run_has_id(run_id@));
            let row = self@.run_row(run_id@)->0;
            if status.active() && !row.run.status.active() {
                lemma_one_active_raised(self@, g, row);
            } else {
                let k = choose|k: int| 0 <= k < self@.runs.len() && self@.runs[k] == row;
                assert forall|i: int| 0 <= i < self@.runs.len() implies g(
                    #[trigger] self@.runs[i],
                ).run.repo_id == self@.runs[i].run.repo_id && (g(
                    self@.runs[i],
                ).run.status.active() ==> self@.runs[i].run.status.active()) by {
                    if self@.runs[i].run.id == run_id@ {
                        assert(run_key()(self@.runs[i]) == run_key()(self@.runs[k]));
                    }
                }
                lemma_one_active_kept(self@, g);
            }
        }
        update_rows(
            &mut self.tables.runs,
            set,
            Ghost(run_set(run_id@, status, error@, now)),
        );
    }

    /// Writes the mission envelope and the frontier budget of a run.
    pub fn set_frontier_state(
        &mut self,
        run_id: &str,
        mission_envelope: Option<&MissionEnvelope>,
        frontier_budget: Option<&FrontierBudgetState>,
        now: Timestamp,
    ) -> (r: Result<(), StoreError>)
        requires
            old(self)@.valid(),
            now.writable(),
        ensures
            final(self)@.valid(),
            old(self)@.one_active_run() ==> final(self)@.one_active_run(),
            r is Ok,
            final(self)@ == (TablesModel {
                runs: old(self)@.runs.map_values(
                    frontier_set(
                        run_id@,
                        mission_envelope.deep_view(),
                        frontier_budget.deep_view(),
                        now,
                    ),
                ),
                ..old(self)@
            }),
            final(self)@ == old(self)@.with_frontier_state(
                run_id@,
                mission_envelope.deep_view(),
                frontier_budget.deep_view(),
                now,
            ),
    {
        let set = |row: &RunRow| -> (out: Option<RunRow>)
            ensures
                match out {
                    Some(m) => m@ == frontier_set(
                        run_id@,
                        mission_envelope.deep_view(),
                        frontier_budget.deep_view(),
                        now,
                    )(row@),
                    None => frontier_set(
                        run_id@,
                        mission_envelope.deep_view(),
                        frontier_budget.deep_view(),
                        now,
                    )(row@) == row@,
                },
            {
                if same_text(row.run.id.as_str(), run_id) {
                    let mut m = row.dup();
                    m.run.updated_at = now;
                    m.mission_envelope = match mission_envelope {
                        Some(envelope) => Some(envelope.dup()),
                        None => None,
                    };
                    m.frontier_budget = match frontier_budget {
                        Some(budget) => Some(budget.dup()),
                        None => None,
                    };
                    Some(m)
                } else {
                    None
                }
            };
        proof {
            let g = frontier_set(
                run_id@,
                mission_envelope.deep_view(),
                frontier_budget.deep_view(),
                now,
            );
            lemma_unique_map(self@.runs, run_key(), g);
            lemma_one_active_kept(self@, g);
        }
        update_rows(
            &mut self.tables.runs,
            set,
            Ghost(
                frontier_set(
                    run_id@,
                    mission_envelope.deep_view(),
                    frontier_budget.deep_view(),
                    now,
                ),
            ),
        );
        Ok(())
    }

    /// The mission envelope and the frontier budget of a run. With an envelope there is a budget.
    pub fn get_frontier_state(&self, run_id: &str) -> (r: Result<
        (Option<MissionEnvelope>, Option<FrontierBudgetState>),
        StoreError,
    >)
        ensures
            res(r) == Ok::<
                (Option<MissionEnvelopeModel>, Option<FrontierBudgetStateModel>),
                StoreError,
            >(self@.frontier_state(run_id@)),
    {
        let index = match self.run_index(run_id) {
            Some(index) => index,
            None => {
                return Ok((None, None));
            },
        };
        let envelope = self.tables.runs[index].mission_envelope.dup();
        let budget = match &self.tables.runs[index].frontier_budget {
            Some(budget) => Some(budget.dup()),
            None => if envelope.is_some() {
                Some(FrontierBudgetState::default())
            } else {
                None
            },
        };
        Ok((envelope, budget))
    }

    /// Writes which slices of a run are selected.
    pub fn update_run_selected_slices(
        &mut self,
        run_id: &str,
        selected_slice_id: &str,
        now: Timestamp,
    ) -> (r: Result<Run, StoreError>)
        requires
            old(self)@.valid(),
            now.writable(),
        ensures
            final(self)@.valid(),
            old(self)@.one_active_run() ==> final(self)@.one_active_run(),
            match old(self)@.run(run_id@) {
                None => r == Err::<Run, StoreError>(StoreError::RunNotFound) && final(self)@ == old(self)@,
                Some(run) => res(r) == Ok::<RunModel, StoreError>(
                    RunModel { selected_slice_id: selected_slice_id@, updated_at: now, ..run },
                ) && final(self)@ == (TablesModel {
                    runs: old(self)@.runs.map_values(
                        slices_selected(run_id@, selected_slice_id@, now),
                    ),
                    ..old(self)@
                }),
            },
            r is Ok ==> final(self)@ == old(self)@.with_selected_slices(
                run_id@,
                selected_slice_id@,
                now,
            ),
    {
        let index = match self.run_index(run_id) {
            Some(index) => index,
            None => {
                return Err(StoreError::RunNotFound);
            },
        };
        let mut run = self.tables.runs[index].run.dup();
        run.selected_slice_id = selected_slice_id.to_owned();
        run.updated_at = now;
        let set = |row: &RunRow| -> (out: Option<RunRow>)
            ensures
                match out {
                    Some(m) => m@ == slices_selected(run_id@, selected_slice_id@, now)(row@),
                    None => slices_selected(run_id@, selected_slice_id@, now)(row@) == row@,
                },
            {
                if same_text(row.run.id.as_str(), run_id) {
                    let mut m = row.dup();
                    m.run.selected_slice_id = selected_slice_id.to_owned();
                    m.run.updated_at = now;
                    Some(m)
                } else {
                    None
                }
            };
        proof {
            let g = slices_selected(run_id@, selected_slice_id@, now);
            lemma_unique_map(self@.runs, run_key(), g);
            lemma_one_active_kept(self@, g);
        }
        update_rows(
            &mut self.tables.runs,
            set,
            Ghost(slices_selected(run_id@, selected_slice_id@, now)),
        );
        Ok(run)
    }

    /// The active runs in the order of their start.
    pub fn active_runs(&self) -> (r: Result<Vec<Run>, StoreError>)
        ensures
            res(r) == Ok::<Seq<RunModel>, StoreError>(self@.active_runs()),
    {
        let active = |row: &RunRow| -> (b: bool)
            ensures
                b == run_is_active()(row@),
            { row.run.status.is_active() };
        let found = select_rows(&self.tables.runs, active, Ghost(run_is_active()));
        let before = |a: &RunRow, b: &RunRow| -> (lt: bool)
            ensures
                lt == earliest_started()(a@, b@),
            { a.run.started_at.earlier(&b.run.started_at) };
        let sorted = order_rows(found, before, Ghost(earliest_started()));
        Ok(runs_of(&sorted))
    }

    /// The runs that started last, the last one first.
    pub fn latest_runs(&self, limit: usize) -> (r: Result<Vec<Run>, StoreError>)
        ensures
            res(r) == Ok::<Seq<RunModel>, StoreError>(self@.latest_runs(limit as nat)),
    {
        let limit: usize = if limit == 0 {
            10
        } else {
            limit
        };
        let before = |a: &RunRow, b: &RunRow| -> (lt: bool)
            ensures
                lt == latest_started()(a@, b@),
            { started_later(&a.run, &b.run) };
        let sorted = order_rows(self.tables.runs.dup(), before, Ghost(latest_started()));
        let first_rows = head_rows(&sorted, limit);
        Ok(runs_of(&first_rows))
    }

    /// The epoch that a run is in.
    pub fn current_run_execution_epoch(&self, run_id: &str) -> (r: Result<usize, StoreError>)
        ensures
            match self@.run_row(run_id@) {
                None => r == Err::<usize, StoreError>(StoreError::RunNotFound),
                Some(row) => if TablesModel::epoch_of(row) > usize::MAX {
                    r == Err::<usize, StoreError>(StoreError::CounterExhausted)
                } else {
                    r == Ok::<usize, StoreError>(TablesModel::epoch_of(row) as usize)
                },
            },
    {
        let index = match self.run_index(run_id) {
            Some(index) => index,
            None => {
                return Err(StoreError::RunNotFound);
            },
        };
        let epoch: i64 = self.tables.runs[index].execution_epoch;
        let epoch: i64 = if epoch < 1 {
            1
        } else {
            epoch
        };
        if epoch as u64 > usize::MAX as u64 {
            return Err(StoreError::CounterExhausted);
        }
        Ok(epoch as usize)
    }
}

fn started_later(a: &Run, b: &Run) -> (r: bool)
    ensures
        r == (b@.started_at.lt(a@.started_at) || (a@.started_at == b@.started_at && text_lt(
            b@.id,
            a@.id,
        ))),
{
    b.started_at.earlier(&a.started_at) || (a.started_at == b.started_at && text_before(
        b.id.as_str(),
        a.id.as_str(),
    ))
}

fn runs_of(rows: &Vec<RunRow>) -> (r: Vec<Run>)
    ensures
        r.deep_view() == rows.deep_view().map_values(run_of()),
{
    let run = |row: &RunRow| -> (out: Run)
        ensures
            out@ == run_of()(row@),
        { row.run.dup() };
    project_rows(rows, run, Ghost(run_of()))
}

/// Identifiers and paths stay unique when a repository is recorded whose path is free.
proof fn lemma_repos_unique(repos: Seq<RepoRowModel>, repo: RepoRowModel)
    requires
        unique(repos, repo_key()),
        unique(repos, repo_path_key()),
        !any(repos, repo_at_path(repo.path, repo.id)),
    ensures
        unique(
            upsert(repos, repo_has_id(repo.id), repo_moved(repo.path), repo),
            repo_key(),
        ),
        unique(
            upsert(repos, repo_has_id(repo.id), repo_moved(repo.path), repo),
            repo_path_key(),
        ),
{
    let at = repo_has_id(repo.id);
    let taken = repo_at_path(repo.path, repo.id);
    let after = upsert(repos, at, repo_moved(repo.path), repo);
    if any(repos, at) {
        let g = |row: RepoRowModel|
            if at(row) {
                repo_moved(repo.path)(row)
            } else {
                row
            };
        lemma_unique_map(repos, repo_key(), g);
        assert(after =~= repos.map_values(g));
        assert forall|i: int, j: int|
            #![trigger after[i], after[j]]
            0 <= i < after.len() && 0 <= j < after.len() && repo_path_key()(after[i])
                == repo_path_key()(after[j]) implies i == j by {
            assert(after[i] == g(repos[i]) && after[j] == g(repos[j]));
            assert(!taken(repos[i]));
            assert(!taken(repos[j]));
            if repos[i].id == repo.id && repos[j].id == repo.id {
                assert(repo_key()(repos[i]) == repo_key()(repos[j]));
            } else {
                assert(repo_path_key()(repos[i]) == repo_path_key()(repos[j]));
            }
        }
    } else {
        lemma_unique_push(repos, repo_key(), repo, at);
        assert forall|i: int, j: int|
            #![trigger after[i], after[j]]
            0 <= i < after.len() && 0 <= j < after.len() && repo_path_key()(after[i])
                == repo_path_key()(after[j]) implies i == j by {
            if i < repos.len() {
                assert(!taken(repos[i]));
                assert(!at(repos[i]));
            }
            if j < repos.len() {
                assert(!taken(repos[j]));
                assert(!at(repos[j]));
            }
            if i < repos.len() && j < repos.len() {
                assert(repo_path_key()(repos[i]) == repo_path_key()(repos[j]));
            }
        }
    }
}

} // verus!
