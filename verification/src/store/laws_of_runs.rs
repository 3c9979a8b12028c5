//! What is on record of repositories and runs, row by row.
use super::launches::active_other;
use super::laws_of_launches::repository_is_free;
use super::runs::{repo_at_path, repo_has_id};
use super::{run_has_id, run_key};
use crate::domain::{
    FrontierBudgetStateModel, IntegrationMergeState, MissionEnvelopeModel, RepoModel, RunModel,
    RunStatus,
};
use crate::error::StoreError;
use crate::rows::{RepoRowModel, RunRowModel, TablesModel};
use crate::table::{any, lemma_first_none, lemma_first_unique};
use crate::time::Timestamp;
use vstd::prelude::*;

verus! {

/// A recorded repository stands at its path: a known one keeps its name and the time at which it was
/// first recorded and moves, a new one is added as it is; every other repository stays.
pub proof fn law_repository_is_recorded(s: TablesModel, repo: RepoModel)
    ensures
        ({
            let after = s.with_repo(repo);
            &&& after == TablesModel { repos: after.repos, ..s }
            &&& forall|k: int|
                0 <= k < s.repos.len() ==> #[trigger] after.repos[k] == if s.repos[k].id == repo.id {
                    RepoRowModel { path: repo.path, ..s.repos[k] }
                } else {
                    s.repos[k]
                }
            &&& (forall|k: int| 0 <= k < s.repos.len() ==> (#[trigger] s.repos[k]).id != repo.id)
                ==> after.repos == s.repos.push(
                RepoRowModel {
                    id: repo.id,
                    path: repo.path,
                    created_at: repo.created_at.text(),
                },
            )
            &&& any(s.repos, repo_at_path(repo.path, repo.id)) <==> exists|k: int|
                0 <= k < s.repos.len() && (#[trigger] s.repos[k]).path == repo.path
                    && s.repos[k].id != repo.id
        }),
{
    let p = repo_has_id(repo.id);
    let after = s.with_repo(repo);
    if any(s.repos, p) {
        let k = choose|k: int| 0 <= k < s.repos.len() && p(#[trigger] s.repos[k]);
        assert(s.repos[k].id == repo.id);
    } else {
        assert forall|k: int| 0 <= k < s.repos.len() implies #[trigger] after.repos[k] == s.repos[k]
            && s.repos[k].id != repo.id by {
            assert(!p(s.repos[k]));
        }
    }
    let q = repo_at_path(repo.path, repo.id);
    if any(s.repos, q) {
        let k = choose|k: int| 0 <= k < s.repos.len() && q(#[trigger] s.repos[k]);
        assert(s.repos[k].path == repo.path);
    } else {
        assert forall|k: int| 0 <= k < s.repos.len() implies !((#[trigger] s.repos[k]).path
            == repo.path && s.repos[k].id != repo.id) by {
            assert(!q(s.repos[k]));
        }
    }
}

proof fn lemma_run_stands(
    s: TablesModel,
    i: int,
    g: spec_fn(RunRowModel) -> RunRowModel,
)
    requires
        s.valid(),
        0 <= i < s.runs.len(),
        forall|row: RunRowModel| row.run.id != s.runs[i].run.id ==> #[trigger] g(row) == row,
    ensures
        s.runs.map_values(g) == s.runs.update(i, g(s.runs[i])),
{
    let after = s.runs.map_values(g);
    assert forall|k: int| 0 <= k < s.runs.len() && k != i implies #[trigger] after[k]
        == s.runs[k] by {
        assert(run_key()(s.runs[k]) != run_key()(s.runs[i]));
    }
    assert(after =~= s.runs.update(i, g(s.runs[i])));
}

/// A run that is given a status has it, with the error and the time, and nothing else of it or of any
/// other run changes. A status that makes it active is refused where another run of its repository is
/// active; nothing else is.
pub proof fn law_run_takes_its_status(
    s: TablesModel,
    i: int,
    status: RunStatus,
    error: Seq<char>,
    now: Timestamp,
)
    requires
        s.valid(),
        0 <= i < s.runs.len(),
    ensures
        ({
            let row = s.runs[i];
            let active = status == RunStatus::Pending || status == RunStatus::Running;
            let free = repository_is_free(s, row.run.repo_id, Some(row.run.id));
            &&& s.update_run_refusal(row.run.id, status) == if active && !free {
                Some(StoreError::ActiveRunExists)
            } else {
                None
            }
            &&& s.with_run_status(row.run.id, status, error, now) == TablesModel {
                runs: s.runs.update(
                    i,
                    RunRowModel {
                        run: RunModel { status, error, updated_at: now, ..row.run },
                        ..row
                    },
                ),
                ..s
            }
        }),
{
    let row = s.runs[i];
    lemma_first_unique(s.runs, run_key(), run_has_id(row.run.id), i);
    lemma_run_stands(s, i, super::runs::run_set(row.run.id, status, error, now));
    let p = active_other(row.run.repo_id, row.run.id);
    if any(s.runs, p) {
        let k = choose|k: int| 0 <= k < s.runs.len() && p(#[trigger] s.runs[k]);
        assert(s.runs[k].run.repo_id == row.run.repo_id && Some(s.runs[k].run.id) != Some(
            row.run.id,
        ));
        assert(!repository_is_free(s, row.run.repo_id, Some(row.run.id)));
    } else {
        assert forall|k: int|
            0 <= k < s.runs.len() && (#[trigger] s.runs[k]).run.repo_id == row.run.repo_id && (
            s.runs[k].run.status == RunStatus::Pending || s.runs[k].run.status
                == RunStatus::Running) implies Some(s.runs[k].run.id) == Some(row.run.id) by {
            assert(!p(s.runs[k]));
        }
    }
}

/// The mission and the budget of a run are read back as they were written; a run with a mission and
/// without a budget has an unused one. Writing them changes the time of the run and nothing else.
pub proof fn law_frontier_state_is_read_back(
    s: TablesModel,
    i: int,
    mission_envelope: Option<MissionEnvelopeModel>,
    frontier_budget: Option<FrontierBudgetStateModel>,
    now: Timestamp,
)
    requires
        s.valid(),
        0 <= i < s.runs.len(),
    ensures
        ({
            let row = s.runs[i];
            let after = s.with_frontier_state(
                row.run.id,
                mission_envelope,
                frontier_budget,
                now,
            );
            &&& after == TablesModel {
                runs: s.runs.update(
                    i,
                    RunRowModel {
                        run: RunModel { updated_at: now, ..row.run },
                        execution_epoch: row.execution_epoch,
                        mission_envelope,
                        frontier_budget,
                    },
                ),
                ..s
            }
            &&& after.frontier_state(row.run.id).0 == mission_envelope
            &&& frontier_budget is Some ==> after.frontier_state(row.run.id).1 == frontier_budget
            &&& frontier_budget is None && mission_envelope is None ==> after.frontier_state(
                row.run.id,
            ).1 is None
            &&& frontier_budget is None && mission_envelope is Some ==> after.frontier_state(
                row.run.id,
            ).1 == Some(FrontierBudgetStateModel { auto_promotions_used: 0, generated_slices: 0 })
        }),
{
    let row = s.runs[i];
    let after = s.with_frontier_state(row.run.id, mission_envelope, frontier_budget, now);
    lemma_run_stands(
        s,
        i,
        super::runs::frontier_set(row.run.id, mission_envelope, frontier_budget, now),
    );
    assert forall|j: int, k: int|
        #![trigger after.runs[j], after.runs[k]]
        0 <= j < after.runs.len() && 0 <= k < after.runs.len() && run_key()(after.runs[j])
            == run_key()(after.runs[k]) implies j == k by {
        assert(run_key()(s.runs[j]) == run_key()(s.runs[k]));
    }
    lemma_first_unique(after.runs, run_key(), run_has_id(row.run.id), i);
}

/// The selected slices of a run are those that were written, and nothing else of it changes but the
/// time.
pub proof fn law_selected_slices_are_written(
    s: TablesModel,
    i: int,
    selected_slice_id: Seq<char>,
    now: Timestamp,
)
    requires
        s.valid(),
        0 <= i < s.runs.len(),
    ensures
        s.run(s.runs[i].run.id) == Some(s.runs[i].run),
        s.with_selected_slices(s.runs[i].run.id, selected_slice_id, now) == (TablesModel {
            runs: s.runs.update(
                i,
                RunRowModel {
                    run: RunModel { selected_slice_id, updated_at: now, ..s.runs[i].run },
                    ..s.runs[i]
                },
            ),
            ..s
        }),
{
    let row = s.runs[i];
    lemma_first_unique(s.runs, run_key(), run_has_id(row.run.id), i);
    lemma_run_stands(s, i, super::runs::slices_selected(row.run.id, selected_slice_id, now));
}

/// A run is found under its name as it is on record, a name that is not known finds nothing, and the
/// epoch of a run is its own, the first one where none is on record.
pub proof fn law_run_is_found_by_name(s: TablesModel, id: Seq<char>)
    requires
        s.valid(),
    ensures
        s.run(id) is Some <==> exists|k: int|
            0 <= k < s.runs.len() && (#[trigger] s.runs[k]).run.id == id,
        forall|k: int|
            0 <= k < s.runs.len() && (#[trigger] s.runs[k]).run.id == id ==> s.run(id) == Some(
                s.runs[k].run,
            ) && s.run_row(id) == Some(s.runs[k]) && TablesModel::epoch_of(s.runs[k]) == (
            if s.runs[k].execution_epoch >= 1 {
                s.runs[k].execution_epoch as int
            } else {
                1
            }),
{
    if exists|k: int| 0 <= k < s.runs.len() && (#[trigger] s.runs[k]).run.id == id {
        assert forall|k: int| 0 <= k < s.runs.len() && (#[trigger] s.runs[k]).run.id == id implies
            s.run_row(id) == Some(s.runs[k]) by {
            lemma_first_unique(s.runs, run_key(), run_has_id(id), k);
        }
        let k = choose|k: int| 0 <= k < s.runs.len() && (#[trigger] s.runs[k]).run.id == id;
        lemma_first_unique(s.runs, run_key(), run_has_id(id), k);
    } else {
        lemma_first_none(s.runs, run_has_id(id));
    }
}

/// The active runs that are listed are the runs that are pending or running, each of them.
pub proof fn law_active_runs_are_listed(s: TablesModel, k: int)
    requires
        0 <= k < s.runs.len(),
    ensures
        s.runs[k].run.status == RunStatus::Pending || s.runs[k].run.status == RunStatus::Running
            ==> s.active_runs().contains(s.runs[k].run),
        forall|i: int|
            0 <= i < s.active_runs().len() ==> (#[trigger] s.active_runs()[i]).status
                == RunStatus::Pending || s.active_runs()[i].status == RunStatus::Running,
{
    super::listings::law_active_runs_ascend(s);
}

/// An event that is recorded stands at the end of the log, under the next number and with what was
/// handed in; nothing else changes.
pub proof fn law_event_is_recorded(
    s: TablesModel,
    run_id: Seq<char>,
    typ: Seq<char>,
    payload: crate::payloads::EventPayloadModel,
    now: Timestamp,
)
    requires
        s.last_event_id < i64::MAX,
    ensures
        ({
            let after = s.with_event(run_id, typ, payload, now);
            &&& after.events.len() == s.events.len() + 1
            &&& forall|i: int| 0 <= i < s.events.len() ==> #[trigger] after.events[i] == s.events[i]
            &&& after.events.last().id == s.last_event_id + 1
            &&& after.events.last().run_id == run_id
            &&& after.events.last().typ == typ
            &&& after.events.last().payload == payload
            &&& after.events.last().created_at == now
            &&& after.last_event_id == s.last_event_id + 1
            &&& after == TablesModel {
                events: after.events,
                last_event_id: after.last_event_id,
                ..s
            }
            &&& s.room(1)
        }),
{
}

/// What sound tables are: no two rows of a table have one name, which is for repositories also their path,
/// for launches the run and the epoch, for slices the run and the slice, and for sources the run and the
/// source; of each run at most one merge is prepared; events stand in the order of their numbers, which
/// begin above zero and end at the last one given out; and launches of workers have numbers above zero up
/// to the last one given out.
pub proof fn law_sound_tables(s: TablesModel)
    ensures
        s.valid() <==> {
            &&& forall|i: int, j: int|
                #![trigger s.repos[i], s.repos[j]]
                0 <= i < s.repos.len() && 0 <= j < s.repos.len()
                    && s.repos[i].id == s.repos[j].id ==> i == j
            &&& forall|i: int, j: int|
                #![trigger s.repos[i], s.repos[j]]
                0 <= i < s.repos.len() && 0 <= j < s.repos.len()
                    && s.repos[i].path == s.repos[j].path ==> i == j
            &&& forall|i: int, j: int|
                #![trigger s.runs[i], s.runs[j]]
                0 <= i < s.runs.len() && 0 <= j < s.runs.len()
                    && s.runs[i].run.id == s.runs[j].run.id ==> i == j
            &&& forall|i: int, j: int|
                #![trigger s.launches[i], s.launches[j]]
                0 <= i < s.launches.len() && 0 <= j < s.launches.len()
                    && s.launches[i].run_id == s.launches[j].run_id
                    && s.launches[i].execution_epoch == s.launches[j].execution_epoch ==> i == j
            &&& forall|i: int, j: int|
                #![trigger s.slices[i], s.slices[j]]
                0 <= i < s.slices.len() && 0 <= j < s.slices.len()
                    && s.slices[i].run_id == s.slices[j].run_id
                    && s.slices[i].slice_id == s.slices[j].slice_id ==> i == j
            &&& forall|i: int, j: int|
                #![trigger s.merges[i], s.merges[j]]
                0 <= i < s.merges.len() && 0 <= j < s.merges.len()
                    && s.merges[i].operation_id == s.merges[j].operation_id ==> i == j
            &&& forall|i: int, j: int|
                #![trigger s.merges[i], s.merges[j]]
                0 <= i < s.merges.len() && 0 <= j < s.merges.len() && s.merges[i].run_id
                    == s.merges[j].run_id && s.merges[i].state == IntegrationMergeState::Prepared
                    && s.merges[j].state == IntegrationMergeState::Prepared ==> i == j
            &&& forall|i: int, j: int|
                #![trigger s.attempts[i], s.attempts[j]]
                0 <= i < s.attempts.len() && 0 <= j < s.attempts.len()
                    && s.attempts[i].attempt.launch_id == s.attempts[j].attempt.launch_id ==> i == j
            &&& forall|i: int, j: int|
                #![trigger s.terminals[i], s.terminals[j]]
                0 <= i < s.terminals.len() && 0 <= j < s.terminals.len()
                    && s.terminals[i].run_id == s.terminals[j].run_id ==> i == j
            &&& forall|i: int, j: int|
                #![trigger s.sources[i], s.sources[j]]
                0 <= i < s.sources.len() && 0 <= j < s.sources.len()
                    && s.sources[i].run_id == s.sources[j].run_id
                    && s.sources[i].source == s.sources[j].source ==> i == j
            &&& forall|i: int, j: int|
                #![trigger s.progress[i], s.progress[j]]
                0 <= i < s.progress.len() && 0 <= j < s.progress.len()
                    && s.progress[i].run_id == s.progress[j].run_id ==> i == j
            &&& forall|i: int, j: int|
                #![trigger s.tokens[i], s.tokens[j]]
                0 <= i < s.tokens.len() && 0 <= j < s.tokens.len()
                    && s.tokens[i].run_id == s.tokens[j].run_id ==> i == j
            &&& forall|i: int, j: int|
                #![trigger s.questions[i], s.questions[j]]
                0 <= i < s.questions.len() && 0 <= j < s.questions.len()
                    && s.questions[i].question.id == s.questions[j].question.id ==> i == j
            &&& forall|i: int, j: int|
                #![trigger s.proposals[i], s.proposals[j]]
                0 <= i < s.proposals.len() && 0 <= j < s.proposals.len()
                    && s.proposals[i].id == s.proposals[j].id ==> i == j
            &&& forall|i: int|
                0 <= i < s.events.len() ==> 0 < (#[trigger] s.events[i]).id <= s.last_event_id
            &&& forall|i: int, j: int|
                #![trigger s.events[i], s.events[j]]
                0 <= i < j < s.events.len() ==> s.events[i].id < s.events[j].id
            &&& forall|i: int|
                0 <= i < s.attempts.len() ==> 0 < (#[trigger] s.attempts[i]).attempt.launch_id
                    <= s.last_launch_id
            &&& 0 <= s.last_event_id
            &&& 0 <= s.last_launch_id
        },
{
}

/// At most one run of a repository is pending or running.
pub proof fn law_one_active_run_of_a_repository(s: TablesModel)
    ensures
        s.one_active_run() <==> forall|i: int, j: int|
            #![trigger s.runs[i], s.runs[j]]
            0 <= i < s.runs.len() && 0 <= j < s.runs.len() && s.runs[i].run.repo_id
                == s.runs[j].run.repo_id && (s.runs[i].run.status == RunStatus::Pending
                || s.runs[i].run.status == RunStatus::Running) && (s.runs[j].run.status
                == RunStatus::Pending || s.runs[j].run.status == RunStatus::Running) ==> i == j,
{
}

} // verus!
