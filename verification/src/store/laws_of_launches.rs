//! What admissions, resumes and launches do to the runs and to the launches, row by row.
use super::launches::{active_other, claims, latest_updated, launch_at, pending_at, terminal_of};
use super::laws::lemma_active_found;
use super::listings::{lemma_time_then_text, time_then_text};
use super::{launch_key, run_has_id, run_key, terminal_key};
use crate::domain::{
    FrontierBudgetStateModel, MissionEnvelopeModel, RunAdmissionOutcome, RunLaunchAction,
    RunLaunchIntentModel, RunLaunchState, RunModel, RunStatus, SliceRunModel,
};
use crate::error::StoreError;
use crate::payloads::{EventModel, EventPayloadModel};
use crate::rows::{RunAdmissionTransitionModel, RunRowModel, TablesModel};
use crate::table::{
    any, law_ordered_is_sorted, lemma_first_any, lemma_first_none, lemma_first_push,
    lemma_first_unique, lemma_ordered_len, lemma_ordered_rows, lemma_select_from,
    lemma_select_keeps, ordered, select,
};
use crate::time::Timestamp;
use vstd::prelude::*;

verus! {

/// No run of the repository is pending or running, but for the excluded one.
pub open spec fn repository_is_free(
    s: TablesModel,
    repo_id: Seq<char>,
    exclude: Option<Seq<char>>,
) -> bool {
    forall|k: int|
        0 <= k < s.runs.len() && (#[trigger] s.runs[k]).run.repo_id == repo_id && (
        s.runs[k].run.status == RunStatus::Pending || s.runs[k].run.status == RunStatus::Running)
            ==> Some(s.runs[k].run.id) == exclude
}

proof fn lemma_free(s: TablesModel, repo_id: Seq<char>, exclude: Option<Seq<char>>)
    ensures
        repository_is_free(s, repo_id, exclude) <==> s.active_run_for_repo(repo_id, exclude)
            is None,
{
    lemma_active_found(s, repo_id, exclude);
    if repository_is_free(s, repo_id, exclude) {
        lemma_first_none(s.runs, claims(repo_id, exclude));
    } else {
        let k = choose|k: int|
            0 <= k < s.runs.len() && (#[trigger] s.runs[k]).run.repo_id == repo_id && (
            s.runs[k].run.status == RunStatus::Pending || s.runs[k].run.status
                == RunStatus::Running) && Some(s.runs[k].run.id) != exclude;
        assert(claims(repo_id, exclude)(s.runs[k]));
    }
}

proof fn lemma_not_known(s: TablesModel, id: Seq<char>)
    ensures
        (forall|k: int| 0 <= k < s.runs.len() ==> (#[trigger] s.runs[k]).run.id != id) <==> !any(
            s.runs,
            run_has_id(id),
        ),
{
    if any(s.runs, run_has_id(id)) {
        let k = choose|k: int| 0 <= k < s.runs.len() && run_has_id(id)(#[trigger] s.runs[k]);
        assert(s.runs[k].run.id == id);
    } else {
        assert forall|k: int| 0 <= k < s.runs.len() implies (#[trigger] s.runs[k]).run.id
            != id by {
            assert(!run_has_id(id)(s.runs[k]));
        }
    }
}

proof fn lemma_no_launch(s: TablesModel, run_id: Seq<char>, epoch: usize)
    requires
        forall|k: int|
            0 <= k < s.launches.len() ==> !((#[trigger] s.launches[k]).run_id == run_id
                && s.launches[k].execution_epoch == epoch),
    ensures
        !any(s.launches, launch_at(run_id, epoch)),
{
    lemma_first_none(s.launches, launch_at(run_id, epoch));
}

/// The active run of a repository that is shown is one of its runs that are pending or running, and
/// none of them was updated later, nor at the same time under a greater identity.
pub proof fn law_active_run_is_the_latest(
    s: TablesModel,
    repo_id: Seq<char>,
    exclude: Option<Seq<char>>,
    i: int,
)
    requires
        0 <= i < s.runs.len(),
        s.runs[i].run.repo_id == repo_id,
        s.runs[i].run.status == RunStatus::Pending || s.runs[i].run.status == RunStatus::Running,
        Some(s.runs[i].run.id) != exclude,
    ensures
        s.active_run_for_repo(repo_id, exclude) matches Some(run) && run.repo_id == repo_id && (
        run.status == RunStatus::Pending || run.status == RunStatus::Running) && Some(run.id)
            != exclude && !time_then_text(
            run.updated_at,
            run.id,
            s.runs[i].run.updated_at,
            s.runs[i].run.id,
        )
            && exists|k: int| 0 <= k < s.runs.len() && (#[trigger] s.runs[k]).run == run,
{
    let p = claims(repo_id, exclude);
    lemma_active_found(s, repo_id, exclude);
    assert(p(s.runs[i]));
    let chosen = select(s.runs, p);
    let found = ordered(chosen, latest_updated());
    lemma_select_keeps(s.runs, p, s.runs[i]);
    lemma_ordered_rows(chosen, latest_updated());
    lemma_ordered_len(chosen, latest_updated());
    assert(found.contains(s.runs[i]));
    let before = latest_updated();
    assert forall|a: RunRowModel, b: RunRowModel, c: RunRowModel|
        !(#[trigger] before(b, a)) && !(#[trigger] before(c, b)) implies !before(c, a) by {
        lemma_time_then_text(
            c.run.updated_at,
            c.run.id,
            b.run.updated_at,
            b.run.id,
            a.run.updated_at,
            a.run.id,
        );
    }
    assert forall|a: RunRowModel, b: RunRowModel| #[trigger] before(a, b) implies !before(b, a) by {
        lemma_time_then_text(
            b.run.updated_at,
            b.run.id,
            a.run.updated_at,
            a.run.id,
            a.run.updated_at,
            a.run.id,
        );
    }
    law_ordered_is_sorted(chosen, before);
    let j = choose|j: int| 0 <= j < found.len() && found[j] == s.runs[i];
    assert(!before(found[j], found[0])) by {
        lemma_time_then_text(
            found[0].run.updated_at,
            found[0].run.id,
            found[j].run.updated_at,
            found[j].run.id,
            found[0].run.updated_at,
            found[0].run.id,
        );
    }
}

/// A pending run is admitted where its repository is free, nothing of its name is on record and the
/// log has room: the answer is that it is prepared, with the start of its first epoch as the launch;
/// the run is on record as it was handed in, in its first epoch, its launch is the newest one, and the
/// log ends by telling of it.
pub proof fn law_free_repository_admits(
    s: TablesModel,
    run: RunModel,
    slice_runs: Seq<SliceRunModel>,
    mission_envelope: Option<MissionEnvelopeModel>,
    frontier_budget: Option<FrontierBudgetStateModel>,
    integration_worktree: Seq<char>,
)
    requires
        run.status == RunStatus::Pending,
        repository_is_free(s, run.repo_id, None),
        forall|k: int| 0 <= k < s.runs.len() ==> (#[trigger] s.runs[k]).run.id != run.id,
        forall|k: int|
            0 <= k < s.launches.len() ==> !((#[trigger] s.launches[k]).run_id == run.id
                && s.launches[k].execution_epoch == 1),
        s.last_event_id < i64::MAX,
    ensures
        ({
            let launch = RunLaunchIntentModel {
                run_id: run.id,
                execution_epoch: 1,
                action: RunLaunchAction::Start,
                state: RunLaunchState::Prepared,
                repo_id: run.repo_id,
                integration_branch: run.integration_branch,
                integration_worktree,
                integration_resources_owned: false,
                prior_status: None,
                prior_error: Seq::empty(),
                primary_cause: Seq::empty(),
                compensation_error: Seq::empty(),
                created_at: run.started_at,
                updated_at: run.updated_at,
            };
            let after = s.admit_run(
                run,
                slice_runs,
                mission_envelope,
                frontier_budget,
                integration_worktree,
            );
            &&& s.admit_run_refusal(run) is None
            &&& s.admit_run_answer(run, integration_worktree) == RunAdmissionTransitionModel {
                outcome: RunAdmissionOutcome::Prepared,
                intent: Some(launch),
                active_run: None,
            }
            &&& after == TablesModel {
                runs: s.runs.push(
                    RunRowModel { run, execution_epoch: 1, mission_envelope, frontier_budget },
                ),
                slices: s.with_slices(slice_runs).slices,
                launches: s.launches.push(launch),
                events: s.events.push(
                    EventModel {
                        id: (s.last_event_id + 1) as i64,
                        run_id: run.id,
                        typ: "run_launch_prepared"@,
                        payload: EventPayloadModel::RunLaunch(launch),
                        created_at: run.updated_at,
                    },
                ),
                last_event_id: (s.last_event_id + 1) as i64,
                ..s
            }
        }),
{
    lemma_free(s, run.repo_id, None);
    lemma_not_known(s, run.id);
    lemma_no_launch(s, run.id, 1);
    lemma_slices_alike(
        s.with_run(run, mission_envelope, frontier_budget),
        s,
        slice_runs,
    );
}

/// What is written of slices depends on the slices alone.
proof fn lemma_slices_alike(s: TablesModel, t: TablesModel, slices: Seq<SliceRunModel>)
    requires
        s.slices == t.slices,
    ensures
        s.with_slices(slices).slices == t.with_slices(slices).slices,
    decreases slices.len(),
{
    if slices.len() > 0 {
        lemma_slices_alike(s, t, slices.drop_last());
    }
}

/// The slices of an admitted run are on record as they were handed in, those of other names as they
/// were; of two with one name the later one stays.
pub proof fn law_slices_are_on_record(s: TablesModel, slices: Seq<SliceRunModel>, i: int)
    requires
        0 <= i < slices.len(),
        forall|j: int|
            i < j < slices.len() ==> !((#[trigger] slices[j]).run_id == slices[i].run_id
                && slices[j].slice_id == slices[i].slice_id),
    ensures
        s.with_slices(slices).slices.contains(slices[i]),
        forall|k: int|
            0 <= k < s.slices.len() && (forall|j: int|
                0 <= j < slices.len() ==> !((#[trigger] slices[j]).run_id == s.slices[k].run_id
                    && slices[j].slice_id == s.slices[k].slice_id)) ==> #[trigger] s.with_slices(
                slices,
            ).slices[k] == s.slices[k],
    decreases slices.len(),
{
    let rest = slices.drop_last();
    let before = s.with_slices(rest);
    let after = s.with_slices(slices);
    let last = slices.last();
    lemma_kept_slices(s, slices);
    let at = super::slice_at(last.run_id, last.slice_id);
    if i == slices.len() - 1 {
        if any(before.slices, at) {
            let k = choose|k: int| 0 <= k < before.slices.len() && at(#[trigger] before.slices[k]);
            assert(after.slices[k] == last);
        } else {
            assert(after.slices[before.slices.len() as int] == last);
        }
    } else {
        assert(rest[i] == slices[i]);
        assert forall|j: int| i < j < rest.len() implies !((#[trigger] rest[j]).run_id
            == rest[i].run_id && rest[j].slice_id == rest[i].slice_id) by {
            assert(rest[j] == slices[j]);
        }
        law_slices_are_on_record(s, rest, i);
        let k = choose|k: int| 0 <= k < before.slices.len() && before.slices[k] == slices[i];
        assert(!at(before.slices[k])) by {
            assert(slices[slices.len() - 1] == last);
        }
        assert(after.slices[k] == slices[i]);
    }
}

proof fn lemma_kept_slices(s: TablesModel, slices: Seq<SliceRunModel>)
    ensures
        s.with_slices(slices).slices.len() >= s.slices.len(),
        forall|k: int|
            0 <= k < s.slices.len() && (forall|j: int|
                0 <= j < slices.len() ==> !((#[trigger] slices[j]).run_id == s.slices[k].run_id
                    && slices[j].slice_id == s.slices[k].slice_id)) ==> #[trigger] s.with_slices(
                slices,
            ).slices[k] == s.slices[k],
    decreases slices.len(),
{
    if slices.len() > 0 {
        let rest = slices.drop_last();
        lemma_kept_slices(s, rest);
        assert forall|k: int|
            0 <= k < s.slices.len() && (forall|j: int|
                0 <= j < slices.len() ==> !((#[trigger] slices[j]).run_id == s.slices[k].run_id
                    && slices[j].slice_id == s.slices[k].slice_id)) implies #[trigger] s.with_slices(
            slices,
        ).slices[k] == s.slices[k] by {
            assert forall|j: int| 0 <= j < rest.len() implies !((#[trigger] rest[j]).run_id
                == s.slices[k].run_id && rest[j].slice_id == s.slices[k].slice_id) by {
                assert(rest[j] == slices[j]);
            }
            assert(s.with_slices(rest).slices[k] == s.slices[k]);
            assert(slices[slices.len() - 1] == slices.last());
        }
    }
}

/// Where a run of the repository is pending or running, whoever asks is told of it and nothing
/// changes; a run that is not pending cannot be admitted at all.
pub proof fn law_busy_repository_admits_nobody(
    s: TablesModel,
    i: int,
    run: RunModel,
    slice_runs: Seq<SliceRunModel>,
    mission_envelope: Option<MissionEnvelopeModel>,
    frontier_budget: Option<FrontierBudgetStateModel>,
    integration_worktree: Seq<char>,
)
    requires
        0 <= i < s.runs.len(),
        s.runs[i].run.repo_id == run.repo_id,
        s.runs[i].run.status == RunStatus::Pending || s.runs[i].run.status == RunStatus::Running,
    ensures
        run.status != RunStatus::Pending ==> s.admit_run_refusal(run) == Some(
            StoreError::AdmissionRequiresPending,
        ),
        run.status == RunStatus::Pending ==> s.admit_run_refusal(run) is None,
        s.admit_run_answer(run, integration_worktree).outcome == RunAdmissionOutcome::Conflict,
        s.admit_run_answer(run, integration_worktree).intent is None,
        s.admit_run_answer(run, integration_worktree).active_run is Some,
        s.admit_run(run, slice_runs, mission_envelope, frontier_budget, integration_worktree) == s,
        run.status == RunStatus::Pending || run.status == RunStatus::Running ==> run.id
            != s.runs[i].run.id ==> s.insert_run_refusal(run) == Some(StoreError::ActiveRunExists),
{
    lemma_active_found(s, run.repo_id, None);
    assert(claims(run.repo_id, None)(s.runs[i]));
    if run.id != s.runs[i].run.id && run.status.active() {
        assert(active_other(run.repo_id, run.id)(s.runs[i]));
    }
}

/// A run can be added where no other active run of its repository is in its way and its name is new;
/// it is then on record in its first epoch.
pub proof fn law_run_is_added(
    s: TablesModel,
    run: RunModel,
    mission_envelope: Option<MissionEnvelopeModel>,
    frontier_budget: Option<FrontierBudgetStateModel>,
)
    requires
        forall|k: int| 0 <= k < s.runs.len() ==> (#[trigger] s.runs[k]).run.id != run.id,
        run.status == RunStatus::Pending || run.status == RunStatus::Running ==> repository_is_free(
            s,
            run.repo_id,
            None,
        ),
    ensures
        s.insert_run_refusal(run) is None,
        s.with_run(run, mission_envelope, frontier_budget) == (TablesModel {
            runs: s.runs.push(
                RunRowModel { run, execution_epoch: 1, mission_envelope, frontier_budget },
            ),
            ..s
        }),
{
    lemma_not_known(s, run.id);
    if run.status.active() {
        lemma_first_none(s.runs, active_other(run.repo_id, run.id));
    }
}

/// No end of the run waits for its publication.
pub open spec fn no_unpublished_end(s: TablesModel, run_id: Seq<char>) -> bool {
    forall|k: int|
        0 <= k < s.terminals.len() && (#[trigger] s.terminals[k]).run_id == run_id
            ==> !(s.terminals[k].committed_at is NotMade)
}

proof fn lemma_published(s: TablesModel, run_id: Seq<char>)
    requires
        no_unpublished_end(s, run_id),
    ensures
        !s.incomplete_terminalization(run_id),
{
    lemma_first_any(s.terminals, terminal_of(run_id));
}

/// A run that was interrupted, failed, was cancelled or is blocked can be resumed where no end of it
/// waits for publication, no other run of its repository is active, no launch stands at the next epoch
/// and the log and the counters have room: the answer is that the resume is prepared, and the run is
/// pending, without an error, in the next epoch. The launch keeps the status and the error that the
/// run had; the end of the run is forgotten, other runs and ends are as they were.
pub proof fn law_ended_run_can_be_resumed(
    s: TablesModel,
    i: int,
    integration_worktree: Seq<char>,
    now: Timestamp,
)
    requires
        s.valid(),
        0 <= i < s.runs.len(),
        s.runs[i].run.status == RunStatus::Interrupted || s.runs[i].run.status == RunStatus::Failed
            || s.runs[i].run.status == RunStatus::Cancelled || s.runs[i].run.status
            == RunStatus::Blocked,
        no_unpublished_end(s, s.runs[i].run.id),
        repository_is_free(s, s.runs[i].run.repo_id, Some(s.runs[i].run.id)),
        1 <= s.runs[i].execution_epoch < i64::MAX,
        s.runs[i].execution_epoch < usize::MAX,
        forall|k: int|
            0 <= k < s.launches.len() ==> !((#[trigger] s.launches[k]).run_id == s.runs[i].run.id
                && s.launches[k].execution_epoch == s.runs[i].execution_epoch + 1),
        s.last_event_id < i64::MAX,
    ensures
        ({
            let row = s.runs[i];
            let run_id = row.run.id;
            let after = s.begin_resume(run_id, integration_worktree, now);
            let launch = RunLaunchIntentModel {
                run_id,
                execution_epoch: (row.execution_epoch + 1) as usize,
                action: RunLaunchAction::Resume,
                state: RunLaunchState::Prepared,
                repo_id: row.run.repo_id,
                integration_branch: row.run.integration_branch,
                integration_worktree,
                integration_resources_owned: false,
                prior_status: Some(row.run.status),
                prior_error: row.run.error,
                primary_cause: Seq::empty(),
                compensation_error: Seq::empty(),
                created_at: now,
                updated_at: now,
            };
            &&& s.begin_resume_refusal(run_id) is None
            &&& s.begin_resume_answer(run_id, integration_worktree, now)
                == RunAdmissionTransitionModel {
                outcome: RunAdmissionOutcome::Prepared,
                intent: Some(launch),
                active_run: None,
            }
            &&& after.runs == s.runs.update(
                i,
                RunRowModel {
                    run: RunModel {
                        status: RunStatus::Pending,
                        error: Seq::empty(),
                        updated_at: now,
                        ..row.run
                    },
                    execution_epoch: (row.execution_epoch + 1) as i64,
                    ..row
                },
            )
            &&& after.launches == s.launches.push(launch)
            &&& forall|k: int|
                0 <= k < after.terminals.len() ==> (#[trigger] after.terminals[k]).run_id != run_id
            &&& forall|k: int|
                0 <= k < s.terminals.len() && (#[trigger] s.terminals[k]).run_id != run_id
                    ==> after.terminals.contains(s.terminals[k])
            &&& after == TablesModel {
                runs: after.runs,
                launches: after.launches,
                terminals: after.terminals,
                events: s.events.push(
                    EventModel {
                        id: (s.last_event_id + 1) as i64,
                        run_id,
                        typ: "run_launch_prepared"@,
                        payload: EventPayloadModel::RunLaunch(launch),
                        created_at: now,
                    },
                ),
                last_event_id: (s.last_event_id + 1) as i64,
                ..s
            }
        }),
{
    let row = s.runs[i];
    let run_id = row.run.id;
    lemma_first_unique(s.runs, run_key(), run_has_id(run_id), i);
    lemma_published(s, run_id);
    lemma_free(s, row.run.repo_id, Some(run_id));
    lemma_no_launch(s, run_id, (row.execution_epoch + 1) as usize);
    let after = s.begin_resume(run_id, integration_worktree, now);
    assert forall|k: int| 0 <= k < s.runs.len() && k != i implies #[trigger] after.runs[k]
        == s.runs[k] by {
        assert(run_key()(s.runs[k]) != run_key()(s.runs[i]));
    }
    let other = super::launches::terminal_of_other(run_id);
    lemma_select_from(s.terminals, other);
    assert forall|k: int|
        0 <= k < s.terminals.len() && (#[trigger] s.terminals[k]).run_id
            != run_id implies after.terminals.contains(s.terminals[k]) by {
        lemma_select_keeps(s.terminals, other, s.terminals[k]);
    }
}

/// A run that is pending, running or completed is not resumed: the answer is a conflict, which names
/// the run where it is active, and nothing changes. A run whose end waits for its publication, and one
/// that is not known, are refused.
pub proof fn law_run_that_cannot_be_resumed(
    s: TablesModel,
    i: int,
    integration_worktree: Seq<char>,
    now: Timestamp,
)
    requires
        s.valid(),
        0 <= i < s.runs.len(),
    ensures
        ({
            let run = s.runs[i].run;
            let answer = s.begin_resume_answer(run.id, integration_worktree, now);
            let active = run.status == RunStatus::Pending || run.status == RunStatus::Running;
            &&& active || run.status == RunStatus::Completed ==> {
                &&& s.begin_resume_refusal(run.id) is None
                &&& answer == RunAdmissionTransitionModel {
                    outcome: RunAdmissionOutcome::Conflict,
                    intent: None,
                    active_run: if active {
                        Some(run)
                    } else {
                        None
                    },
                }
                &&& s.begin_resume(run.id, integration_worktree, now) == s
            }
            &&& !active && run.status != RunStatus::Completed && (exists|k: int|
                0 <= k < s.terminals.len() && (#[trigger] s.terminals[k]).run_id == run.id
                    && s.terminals[k].committed_at is NotMade) ==> s.begin_resume_refusal(run.id)
                == Some(StoreError::IncompleteTerminalization)
            &&& !active && run.status != RunStatus::Completed && no_unpublished_end(s, run.id)
                && !repository_is_free(s, run.repo_id, Some(run.id)) ==> {
                &&& s.begin_resume_refusal(run.id) is None
                &&& answer.outcome == RunAdmissionOutcome::Conflict
                &&& answer.intent is None
                &&& answer.active_run == s.active_run_for_repo(run.repo_id, Some(run.id))
                &&& answer.active_run is Some
                &&& s.begin_resume(run.id, integration_worktree, now) == s
            }
        }),
{
    let run = s.runs[i].run;
    lemma_first_unique(s.runs, run_key(), run_has_id(run.id), i);
    lemma_free(s, run.repo_id, Some(run.id));
    if no_unpublished_end(s, run.id) {
        lemma_published(s, run.id);
    } else {
        let k = choose|k: int|
            0 <= k < s.terminals.len() && (#[trigger] s.terminals[k]).run_id == run.id
                && s.terminals[k].committed_at is NotMade;
        lemma_first_unique(s.terminals, terminal_key(), terminal_of(run.id), k);
    }
}

/// A launch that stands in the expected state moves to the next one, by the time of the move, and the
/// log ends by telling of it. Its run, where the move activates it and no other run of the repository
/// is active, turns from pending to running; nothing else changes.
pub proof fn law_launch_moves_on(
    s: TablesModel,
    l: int,
    i: int,
    target: RunLaunchState,
    activate_run: bool,
    now: Timestamp,
)
    requires
        s.valid(),
        0 <= l < s.launches.len(),
        0 <= i < s.runs.len(),
        s.runs[i].run.id == s.launches[l].run_id,
        s.runs[i].execution_epoch == s.launches[l].execution_epoch,
        s.launches[l].state != target,
        activate_run ==> s.runs[i].run.status == RunStatus::Pending && repository_is_free(
            s,
            s.runs[i].run.repo_id,
            Some(s.runs[i].run.id),
        ),
        s.last_event_id < i64::MAX,
    ensures
        ({
            let launch = s.launches[l];
            let moved = RunLaunchIntentModel { state: target, updated_at: now, ..launch };
            let after = s.transition_launch(
                launch.run_id,
                launch.execution_epoch,
                target,
                activate_run,
                now,
            );
            &&& s.transition_launch_refusal(
                launch.run_id,
                launch.execution_epoch,
                launch.state,
                target,
                activate_run,
            ) is None
            &&& after == TablesModel {
                launches: s.launches.update(l, moved),
                runs: if activate_run {
                    s.runs.update(
                        i,
                        RunRowModel {
                            run: RunModel {
                                status: RunStatus::Running,
                                updated_at: now,
                                ..s.runs[i].run
                            },
                            ..s.runs[i]
                        },
                    )
                } else {
                    s.runs
                },
                events: s.events.push(
                    EventModel {
                        id: (s.last_event_id + 1) as i64,
                        run_id: launch.run_id,
                        typ: if target == RunLaunchState::Activated {
                            "run_launch_activated"@
                        } else if target == RunLaunchState::Completed {
                            "run_launch_completed"@
                        } else {
                            "run_launch_transitioned"@
                        },
                        payload: EventPayloadModel::RunLaunch(moved),
                        created_at: now,
                    },
                ),
                last_event_id: (s.last_event_id + 1) as i64,
                ..s
            }
        }),
{
    let launch = s.launches[l];
    let run = s.runs[i].run;
    let moved = RunLaunchIntentModel { state: target, updated_at: now, ..launch };
    lemma_launch_at(s, l);
    lemma_launch_stands(s, l, moved);
    let pending = pending_at(launch.run_id, launch.execution_epoch);
    if activate_run {
        lemma_first_unique(s.runs, run_key(), pending, i);
        assert(pending(s.runs[i]));
        assert(any(s.runs, pending));
        lemma_first_none(s.runs, active_other(run.repo_id, run.id));
        let after = s.runs.map_values(
            super::launches::activated(launch.run_id, launch.execution_epoch, now),
        );
        assert forall|k: int| 0 <= k < s.runs.len() && k != i implies #[trigger] after[k]
            == s.runs[k] by {
            assert(run_key()(s.runs[k]) != run_key()(s.runs[i]));
        }
        assert(after =~= s.runs.update(
            i,
            RunRowModel {
                run: RunModel { status: RunStatus::Running, updated_at: now, ..run },
                ..s.runs[i]
            },
        ));
    }
}

proof fn lemma_launch_at(s: TablesModel, l: int)
    requires
        s.valid(),
        0 <= l < s.launches.len(),
    ensures
        s.launch(s.launches[l].run_id, s.launches[l].execution_epoch) == Some(s.launches[l]),
{
    lemma_first_unique(
        s.launches,
        launch_key(),
        launch_at(s.launches[l].run_id, s.launches[l].execution_epoch),
        l,
    );
}

proof fn lemma_launch_stands(s: TablesModel, l: int, row: RunLaunchIntentModel)
    requires
        s.valid(),
        0 <= l < s.launches.len(),
    ensures
        s.launches.map_values(
            super::launches::launch_replaced(
                s.launches[l].run_id,
                s.launches[l].execution_epoch,
                row,
            ),
        ) == s.launches.update(l, row),
{
    let launch = s.launches[l];
    let after = s.launches.map_values(
        super::launches::launch_replaced(launch.run_id, launch.execution_epoch, row),
    );
    assert forall|k: int| 0 <= k < s.launches.len() implies #[trigger] after[k]
        == s.launches.update(l, row)[k] by {
        if k != l {
            assert(launch_key()(s.launches[k]) != launch_key()(s.launches[l]));
        }
    }
    assert(after =~= s.launches.update(l, row));
}

/// A move to the state in which a launch already stands changes nothing; one from a state in which it
/// does not stand is refused; so is one of a launch that nobody knows, one that activates a run that
/// is not pending in that epoch, and one that activates it beside another active run.
pub proof fn law_launch_moves_from_its_state(
    s: TablesModel,
    l: int,
    expected: RunLaunchState,
    target: RunLaunchState,
    activate_run: bool,
    now: Timestamp,
)
    requires
        s.valid(),
        0 <= l < s.launches.len(),
    ensures
        ({
            let launch = s.launches[l];
            let refusal = s.transition_launch_refusal(
                launch.run_id,
                launch.execution_epoch,
                expected,
                target,
                activate_run,
            );
            &&& launch.state == target ==> refusal is None && s.transition_launch(
                launch.run_id,
                launch.execution_epoch,
                target,
                activate_run,
                now,
            ) == s
            &&& launch.state != target && launch.state != expected ==> refusal == Some(
                StoreError::UnexpectedLaunchState,
            )
            &&& launch.state != target && launch.state == expected && activate_run && (forall|k: int|

                0 <= k < s.runs.len() ==> !((#[trigger] s.runs[k]).run.id == launch.run_id
                    && s.runs[k].execution_epoch == launch.execution_epoch && s.runs[k].run.status
                    == RunStatus::Pending)) ==> refusal == Some(StoreError::RunNotPending)
            &&& forall|i: int|
                launch.state != target && launch.state == expected && activate_run && 0 <= i
                    < s.runs.len() && (#[trigger] s.runs[i]).run.id == launch.run_id
                    && s.runs[i].execution_epoch == launch.execution_epoch && s.runs[i].run.status
                    == RunStatus::Pending && !repository_is_free(
                    s,
                    s.runs[i].run.repo_id,
                    Some(launch.run_id),
                ) ==> refusal == Some(StoreError::ActiveRunExists)
        }),
{
    let launch = s.launches[l];
    lemma_launch_at(s, l);
    let pending = pending_at(launch.run_id, launch.execution_epoch);
    if forall|k: int|
        0 <= k < s.runs.len() ==> !((#[trigger] s.runs[k]).run.id == launch.run_id
            && s.runs[k].execution_epoch == launch.execution_epoch && s.runs[k].run.status
            == RunStatus::Pending) {
        lemma_first_none(s.runs, pending);
    }
    assert forall|i: int|
        launch.state != target && launch.state == expected && activate_run && 0 <= i < s.runs.len()
            && (#[trigger] s.runs[i]).run.id == launch.run_id && s.runs[i].execution_epoch
            == launch.execution_epoch && s.runs[i].run.status == RunStatus::Pending
            && !repository_is_free(
            s,
            s.runs[i].run.repo_id,
            Some(launch.run_id),
        ) implies s.transition_launch_refusal(
        launch.run_id,
        launch.execution_epoch,
        expected,
        target,
        activate_run,
    ) == Some(StoreError::ActiveRunExists) by {
        lemma_first_unique(s.runs, run_key(), pending, i);
        assert(pending(s.runs[i]));
        assert(any(s.runs, pending));
        let k = choose|k: int|
            0 <= k < s.runs.len() && (#[trigger] s.runs[k]).run.repo_id == s.runs[i].run.repo_id && (
            s.runs[k].run.status == RunStatus::Pending || s.runs[k].run.status
                == RunStatus::Running) && Some(s.runs[k].run.id) != Some(launch.run_id);
        assert(active_other(s.runs[i].run.repo_id, launch.run_id)(s.runs[k]));
    }
}

/// The resources of a launch are claimed once, by an activated start: the launch owns them from then
/// on and the log tells of it. A resume owns none; a start that is not activated cannot claim any.
pub proof fn law_resources_are_claimed(s: TablesModel, l: int, now: Timestamp)
    requires
        s.valid(),
        0 <= l < s.launches.len(),
        s.last_event_id < i64::MAX,
    ensures
        ({
            let launch = s.launches[l];
            let refusal = s.claim_resources_refusal(launch.run_id, launch.execution_epoch);
            let after = s.claim_resources(launch.run_id, launch.execution_epoch, now);
            let owner = RunLaunchIntentModel {
                integration_resources_owned: true,
                updated_at: now,
                ..launch
            };
            &&& launch.action == RunLaunchAction::Resume ==> refusal == Some(
                StoreError::ResumeOwnsNoResources,
            )
            &&& launch.action == RunLaunchAction::Start && launch.integration_resources_owned ==> {
                &&& refusal is None
                &&& after == s
            }
            &&& launch.action == RunLaunchAction::Start && !launch.integration_resources_owned
                && launch.state != RunLaunchState::Activated ==> refusal == Some(
                StoreError::UnexpectedLaunchState,
            )
            &&& launch.action == RunLaunchAction::Start && !launch.integration_resources_owned
                && launch.state == RunLaunchState::Activated ==> {
                &&& refusal is None
                &&& after == TablesModel {
                    launches: s.launches.update(l, owner),
                    events: s.events.push(
                        EventModel {
                            id: (s.last_event_id + 1) as i64,
                            run_id: launch.run_id,
                            typ: "run_launch_integration_resources_created"@,
                            payload: EventPayloadModel::RunLaunch(owner),
                            created_at: now,
                        },
                    ),
                    last_event_id: (s.last_event_id + 1) as i64,
                    ..s
                }
            }
        }),
{
    let launch = s.launches[l];
    lemma_launch_at(s, l);
    lemma_launch_stands(
        s,
        l,
        RunLaunchIntentModel { integration_resources_owned: true, updated_at: now, ..launch },
    );
}

/// A launch under way that fails keeps both causes. Its run, where it is pending or running in that
/// epoch, fails with the cause where the launch was a start, and takes back the status and the error
/// that it had before where the launch was a resume; every other run stays. The log tells of it.
pub proof fn law_failed_launch_gives_the_run_back(
    s: TablesModel,
    l: int,
    primary_cause: Seq<char>,
    compensation_error: Seq<char>,
    now: Timestamp,
)
    requires
        s.valid(),
        0 <= l < s.launches.len(),
        s.launches[l].state == RunLaunchState::Prepared || s.launches[l].state
            == RunLaunchState::Activated,
        s.launches[l].action == RunLaunchAction::Resume ==> (s.launches[l].prior_status matches Some(
            status,
        ) && status != RunStatus::Pending && status != RunStatus::Running),
        s.last_event_id < i64::MAX,
    ensures
        ({
            let launch = s.launches[l];
            let failed = RunLaunchIntentModel {
                state: RunLaunchState::Failed,
                primary_cause,
                compensation_error,
                updated_at: now,
                ..launch
            };
            let after = s.fail_launch(
                launch.run_id,
                launch.execution_epoch,
                primary_cause,
                compensation_error,
                now,
            );
            &&& s.fail_launch_refusal(
                launch.run_id,
                launch.execution_epoch,
                primary_cause,
                compensation_error,
            ) is None
            &&& s.fail_launch_answer(launch.run_id, launch.execution_epoch)
            &&& after.runs.len() == s.runs.len()
            &&& forall|k: int|
                0 <= k < s.runs.len() ==> #[trigger] after.runs[k] == if s.runs[k].run.id
                    == launch.run_id && s.runs[k].execution_epoch == launch.execution_epoch && (
                s.runs[k].run.status == RunStatus::Pending || s.runs[k].run.status
                    == RunStatus::Running) {
                    RunRowModel {
                        run: RunModel {
                            status: if launch.action == RunLaunchAction::Start {
                                RunStatus::Failed
                            } else {
                                launch.prior_status->0
                            },
                            error: if launch.action == RunLaunchAction::Start {
                                primary_cause
                            } else {
                                launch.prior_error
                            },
                            updated_at: now,
                            ..s.runs[k].run
                        },
                        ..s.runs[k]
                    }
                } else {
                    s.runs[k]
                }
            &&& after == TablesModel {
                runs: after.runs,
                launches: s.launches.update(l, failed),
                events: s.events.push(
                    EventModel {
                        id: (s.last_event_id + 1) as i64,
                        run_id: launch.run_id,
                        typ: "run_launch_failed"@,
                        payload: EventPayloadModel::RunLaunch(failed),
                        created_at: now,
                    },
                ),
                last_event_id: (s.last_event_id + 1) as i64,
                ..s
            }
        }),
{
    let launch = s.launches[l];
    lemma_launch_at(s, l);
    lemma_launch_stands(
        s,
        l,
        RunLaunchIntentModel {
            state: RunLaunchState::Failed,
            primary_cause,
            compensation_error,
            updated_at: now,
            ..launch
        },
    );
}

/// A launch that is no longer under way does not fail once more: the same failure is taken as said,
/// another one is refused, and nothing changes.
pub proof fn law_launch_fails_once(
    s: TablesModel,
    l: int,
    primary_cause: Seq<char>,
    compensation_error: Seq<char>,
    now: Timestamp,
)
    requires
        s.valid(),
        0 <= l < s.launches.len(),
        s.launches[l].state != RunLaunchState::Prepared,
        s.launches[l].state != RunLaunchState::Activated,
    ensures
        ({
            let launch = s.launches[l];
            &&& s.fail_launch_refusal(
                launch.run_id,
                launch.execution_epoch,
                primary_cause,
                compensation_error,
            ) == if launch.state == RunLaunchState::Failed && launch.primary_cause == primary_cause
                && launch.compensation_error == compensation_error {
                None
            } else {
                Some(StoreError::UnexpectedLaunchState)
            }
            &&& !s.fail_launch_answer(launch.run_id, launch.execution_epoch)
            &&& s.fail_launch(
                launch.run_id,
                launch.execution_epoch,
                primary_cause,
                compensation_error,
                now,
            ) == s
        }),
{
    lemma_launch_at(s, l);
}

/// The compensation of a start that was interrupted, failed or waits for recovery is recorded with
/// its error: without one the launch is compensated, with one it waits for recovery. What is on record
/// already is taken as said; a resume has nothing to compensate; a start in another state is refused.
pub proof fn law_compensation_is_recorded(
    s: TablesModel,
    l: int,
    compensation_error: Seq<char>,
    now: Timestamp,
)
    requires
        s.valid(),
        0 <= l < s.launches.len(),
        s.last_event_id < i64::MAX,
    ensures
        ({
            let launch = s.launches[l];
            let target = if compensation_error.len() == 0 {
                RunLaunchState::Compensated
            } else {
                RunLaunchState::RecoveryRequired
            };
            let refusal = s.compensation_refusal(
                launch.run_id,
                launch.execution_epoch,
                compensation_error,
            );
            let changes = s.compensation_answer(
                launch.run_id,
                launch.execution_epoch,
                compensation_error,
            );
            let after = s.record_compensation(
                launch.run_id,
                launch.execution_epoch,
                compensation_error,
                now,
            );
            let said = launch.state == target && launch.compensation_error == compensation_error;
            let open = launch.state == RunLaunchState::Interrupted || launch.state
                == RunLaunchState::Failed || launch.state == RunLaunchState::RecoveryRequired;
            let compensated = RunLaunchIntentModel {
                state: target,
                compensation_error,
                updated_at: now,
                ..launch
            };
            &&& launch.action == RunLaunchAction::Resume ==> refusal == Some(
                StoreError::ResumeOwnsNoResources,
            )
            &&& launch.action == RunLaunchAction::Start && said ==> {
                &&& refusal is None
                &&& !changes
                &&& after == s
            }
            &&& launch.action == RunLaunchAction::Start && !said && !open ==> refusal == Some(
                StoreError::UnexpectedLaunchState,
            )
            &&& launch.action == RunLaunchAction::Start && !said && open ==> {
                &&& refusal is None
                &&& changes
                &&& after == TablesModel {
                    launches: s.launches.update(l, compensated),
                    events: s.events.push(
                        EventModel {
                            id: (s.last_event_id + 1) as i64,
                            run_id: launch.run_id,
                            typ: if compensation_error.len() == 0 {
                                "run_launch_compensated"@
                            } else {
                                "run_launch_compensation_failed"@
                            },
                            payload: EventPayloadModel::RunLaunch(compensated),
                            created_at: now,
                        },
                    ),
                    last_event_id: (s.last_event_id + 1) as i64,
                    ..s
                }
            }
        }),
{
    let launch = s.launches[l];
    lemma_launch_at(s, l);
    let target = if compensation_error.len() == 0 {
        RunLaunchState::Compensated
    } else {
        RunLaunchState::RecoveryRequired
    };
    lemma_launch_stands(
        s,
        l,
        RunLaunchIntentModel { state: target, compensation_error, updated_at: now, ..launch },
    );
}

/// The launches that are listed for some states are the launches in one of these states, each of them.
pub proof fn law_listed_launches_stand_in_the_states(
    s: TablesModel,
    states: Seq<RunLaunchState>,
    launch: RunLaunchIntentModel,
)
    ensures
        s.launches_in_states(states).contains(launch) <==> s.launches.contains(launch)
            && states.contains(launch.state),
{
    let p = super::launches::launch_in_states(states);
    let chosen = select(s.launches, p);
    lemma_ordered_rows(chosen, super::launches::launch_order());
    lemma_select_from(s.launches, p);
    if chosen.contains(launch) {
        let k = choose|k: int| 0 <= k < chosen.len() && chosen[k] == launch;
        assert(p(chosen[k]));
    }
    if s.launches.contains(launch) && states.contains(launch.state) {
        lemma_select_keeps(s.launches, p, launch);
    }
}

/// The launches under way are those that are prepared or activated; those to be compensated are those
/// that were interrupted, failed or wait for recovery; each of them is listed and no other.
pub proof fn law_launches_under_way_and_to_compensate(
    s: TablesModel,
    launch: RunLaunchIntentModel,
)
    ensures
        s.launches_under_way().contains(launch) <==> s.launches.contains(launch) && (launch.state
            == RunLaunchState::Prepared || launch.state == RunLaunchState::Activated),
        s.launches_to_compensate().contains(launch) <==> s.launches.contains(launch) && (
        launch.state == RunLaunchState::Interrupted || launch.state == RunLaunchState::Failed
            || launch.state == RunLaunchState::RecoveryRequired),
{
    let under_way = seq![RunLaunchState::Prepared, RunLaunchState::Activated];
    let to_compensate = seq![
        RunLaunchState::Interrupted,
        RunLaunchState::Failed,
        RunLaunchState::RecoveryRequired,
    ];
    assert(under_way[0] == RunLaunchState::Prepared && under_way[1] == RunLaunchState::Activated);
    assert(to_compensate[0] == RunLaunchState::Interrupted && to_compensate[1]
        == RunLaunchState::Failed && to_compensate[2] == RunLaunchState::RecoveryRequired);
    law_listed_launches_stand_in_the_states(s, under_way, launch);
    law_listed_launches_stand_in_the_states(s, to_compensate, launch);
}

/// A run that can be resumed is reopened at once: it is running in the next epoch, and its new launch
/// is activated.
pub proof fn law_reopened_run_works(s: TablesModel, i: int, now: Timestamp)
    requires
        s.valid(),
        0 <= i < s.runs.len(),
        s.runs[i].run.status == RunStatus::Interrupted || s.runs[i].run.status == RunStatus::Failed
            || s.runs[i].run.status == RunStatus::Cancelled || s.runs[i].run.status
            == RunStatus::Blocked,
        no_unpublished_end(s, s.runs[i].run.id),
        repository_is_free(s, s.runs[i].run.repo_id, Some(s.runs[i].run.id)),
        1 <= s.runs[i].execution_epoch < i64::MAX,
        s.runs[i].execution_epoch < usize::MAX,
        forall|k: int|
            0 <= k < s.launches.len() ==> !((#[trigger] s.launches[k]).run_id == s.runs[i].run.id
                && s.launches[k].execution_epoch == s.runs[i].execution_epoch + 1),
        s.last_event_id + 2 <= i64::MAX,
    ensures
        ({
            let row = s.runs[i];
            let (answer, after) = s.reopen(row.run.id, now);
            &&& answer == Ok::<usize, StoreError>((row.execution_epoch + 1) as usize)
            &&& after.runs == s.runs.update(
                i,
                RunRowModel {
                    run: RunModel {
                        status: RunStatus::Running,
                        error: Seq::empty(),
                        updated_at: now,
                        ..row.run
                    },
                    execution_epoch: (row.execution_epoch + 1) as i64,
                    ..row
                },
            )
            &&& after.launches.len() == s.launches.len() + 1
            &&& after.launches.last().run_id == row.run.id
            &&& after.launches.last().execution_epoch == row.execution_epoch + 1
            &&& after.launches.last().state == RunLaunchState::Activated
            &&& after.launches.last().action == RunLaunchAction::Resume
            &&& forall|k: int| 0 <= k < s.launches.len() ==> #[trigger] after.launches[k]
                == s.launches[k]
        }),
{
    let row = s.runs[i];
    let run_id = row.run.id;
    let epoch = (row.execution_epoch + 1) as usize;
    law_ended_run_can_be_resumed(s, i, ""@, now);
    let begun = s.begin_resume(run_id, ""@, now);
    let l = s.launches.len() as int;
    let launch = begun.launches[l];
    lemma_first_push(s.launches, launch, launch_at(run_id, epoch));
    lemma_no_launch(s, run_id, epoch);
    assert(begun.launch(run_id, epoch) == Some(launch));
    let pending = pending_at(run_id, epoch);
    assert(pending(begun.runs[i]));
    assert forall|k: int| 0 <= k < s.runs.len() && k != i implies (
    #[trigger] begun.runs[k]).run.id != run_id && begun.runs[k] == s.runs[k] by {
        assert(run_key()(s.runs[k]) != run_key()(s.runs[i]));
    }
    assert forall|j: int, k: int|
        #![trigger begun.runs[j], begun.runs[k]]
        0 <= j < begun.runs.len() && 0 <= k < begun.runs.len() && run_key()(begun.runs[j])
            == run_key()(begun.runs[k]) implies j == k by {
        assert(run_key()(s.runs[j]) == run_key()(s.runs[k]));
    }
    lemma_first_unique(begun.runs, run_key(), pending, i);
    assert forall|k: int| 0 <= k < begun.runs.len() implies !active_other(row.run.repo_id, run_id)(
        #[trigger] begun.runs[k],
    ) by {
        if k != i {
            assert(begun.runs[k] == s.runs[k]);
        }
    }
    lemma_first_none(begun.runs, active_other(row.run.repo_id, run_id));
    let after = begun.transition_launch(run_id, epoch, RunLaunchState::Activated, true, now);
    assert(s.reopen(run_id, now) == (Ok::<usize, StoreError>(epoch), after));
    assert(after.runs =~= s.runs.update(
        i,
        RunRowModel {
            run: RunModel {
                status: RunStatus::Running,
                error: Seq::empty(),
                updated_at: now,
                ..row.run
            },
            execution_epoch: (row.execution_epoch + 1) as i64,
            ..row
        },
    ));
    assert forall|k: int| 0 <= k < s.launches.len() implies #[trigger] after.launches[k]
        == s.launches[k] by {
        assert(begun.launches[k] == s.launches[k]);
    }
}

/// A launch that nobody knows cannot be moved, claimed or compensated.
pub proof fn law_unknown_launch_is_refused(
    s: TablesModel,
    run_id: Seq<char>,
    epoch: usize,
    expected: RunLaunchState,
    target: RunLaunchState,
    activate_run: bool,
    compensation_error: Seq<char>,
)
    requires
        forall|k: int|
            0 <= k < s.launches.len() ==> !((#[trigger] s.launches[k]).run_id == run_id
                && s.launches[k].execution_epoch == epoch),
    ensures
        s.transition_launch_refusal(run_id, epoch, expected, target, activate_run) == Some(
            StoreError::LaunchNotFound,
        ),
        s.claim_resources_refusal(run_id, epoch) == Some(StoreError::LaunchNotFound),
        s.compensation_refusal(run_id, epoch, compensation_error) == Some(
            StoreError::LaunchNotFound,
        ),
        !s.fail_launch_answer(run_id, epoch),
{
    lemma_first_none(s.launches, launch_at(run_id, epoch));
}

/// A prepared launch is activated and its pending run is running from then on; an activated launch is
/// completed and its run stays as it is. A launch that is activated or completed already stays so; one in
/// any other state is refused.
pub proof fn law_launch_is_activated_and_completed(
    s: TablesModel,
    l: int,
    i: int,
    now: Timestamp,
)
    requires
        s.valid(),
        0 <= l < s.launches.len(),
        0 <= i < s.runs.len(),
        s.runs[i].run.id == s.launches[l].run_id,
        s.runs[i].execution_epoch == s.launches[l].execution_epoch,
        s.last_event_id < i64::MAX,
    ensures
        ({
            let launch = s.launches[l];
            let activated = s.launch_activated(launch.run_id, launch.execution_epoch, now);
            let completed = s.launch_completed(launch.run_id, launch.execution_epoch, now);
            let refused = Err::<TablesModel, StoreError>(StoreError::UnexpectedLaunchState);
            let running = RunRowModel {
                run: RunModel { status: RunStatus::Running, updated_at: now, ..s.runs[i].run },
                ..s.runs[i]
            };
            &&& launch.state == RunLaunchState::Prepared && s.runs[i].run.status
                == RunStatus::Pending && repository_is_free(
                s,
                s.runs[i].run.repo_id,
                Some(launch.run_id),
            ) ==> {
                &&& activated is Ok
                &&& activated->Ok_0.launches == s.launches.update(
                    l,
                    RunLaunchIntentModel {
                        state: RunLaunchState::Activated,
                        updated_at: now,
                        ..launch
                    },
                )
                &&& activated->Ok_0.runs == s.runs.update(i, running)
                &&& activated->Ok_0.events.last().typ == "run_launch_activated"@
            }
            &&& launch.state == RunLaunchState::Prepared && s.runs[i].run.status
                != RunStatus::Pending ==> activated == Err::<TablesModel, StoreError>(
                StoreError::RunNotPending,
            )
            &&& launch.state == RunLaunchState::Activated ==> {
                &&& activated == Ok::<TablesModel, StoreError>(s)
                &&& completed is Ok
                &&& completed->Ok_0.launches == s.launches.update(
                    l,
                    RunLaunchIntentModel {
                        state: RunLaunchState::Completed,
                        updated_at: now,
                        ..launch
                    },
                )
                &&& completed->Ok_0.runs == s.runs
                &&& completed->Ok_0.events.last().typ == "run_launch_completed"@
            }
            &&& launch.state == RunLaunchState::Completed ==> completed == Ok::<
                TablesModel,
                StoreError,
            >(s)
            &&& launch.state != RunLaunchState::Activated && launch.state
                != RunLaunchState::Completed ==> completed == refused
            &&& launch.state != RunLaunchState::Prepared && launch.state
                != RunLaunchState::Activated ==> activated == refused
        }),
{
    let launch = s.launches[l];
    lemma_launch_at(s, l);
    law_launch_moves_from_its_state(
        s,
        l,
        RunLaunchState::Prepared,
        RunLaunchState::Activated,
        true,
        now,
    );
    law_launch_moves_from_its_state(
        s,
        l,
        RunLaunchState::Activated,
        RunLaunchState::Completed,
        false,
        now,
    );
    if launch.state == RunLaunchState::Prepared && s.runs[i].run.status == RunStatus::Pending
        && repository_is_free(s, s.runs[i].run.repo_id, Some(launch.run_id)) {
        law_launch_moves_on(s, l, i, RunLaunchState::Activated, true, now);
    }
    if launch.state == RunLaunchState::Activated {
        law_launch_moves_on(s, l, i, RunLaunchState::Completed, false, now);
    }
    if s.runs[i].run.status != RunStatus::Pending {
        assert forall|k: int| 0 <= k < s.runs.len() implies !((#[trigger] s.runs[k]).run.id
            == launch.run_id && s.runs[k].execution_epoch == launch.execution_epoch
            && s.runs[k].run.status == RunStatus::Pending) by {
            if s.runs[k].run.id == launch.run_id {
                assert(run_key()(s.runs[k]) == run_key()(s.runs[i]));
            }
        }
    }
}

} // verus!
