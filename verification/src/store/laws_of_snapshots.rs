//! What a snapshot of a run shows: everything of the run that is on record, and nothing of another.
use super::attempts::{launch_id_order, ledger_of};
use super::laws_of_ends::lemma_same_choice;
use super::listings::{lemma_time_then_text, time_then_text};
use super::runs::latest_started;
use super::status::{
    attempt_of_run, epoch_order, event_of_run, launch_of_run, read_source, read_sources, run_at,
    shown_events,
};
use super::{attempt_key, launch_key};
use crate::digest::text_digest;
use crate::domain::{
    IntegrationMergeIntentModel, RunLaunchIntentModel, RunModel, RunStatus, SliceRunModel,
    WorkerAttemptLedgerModel,
};
use crate::json::json_level;
use crate::payloads::EventModel;
use crate::rows::{
    AttemptRowModel, RunRowModel, StatusSnapshotRevisionModel, StatusSourceRowModel,
    StatusSourceSnapshotModel, TablesModel,
};
use crate::table::{
    any, law_listing_ascends, law_ordered_is_sorted, lemma_ordered_len, lemma_ordered_rows,
    lemma_select_any, lemma_select_ascends, lemma_select_from, lemma_select_keeps, ordered, select,
    tail,
};
use crate::time::Timestamp;
use vstd::prelude::*;

verus! {

/// Every worker launch of the run in the ledger, whatever its state, is in the snapshot, once, as it
/// stands in the ledger; none of another run is; and they stand in the order of their numbers.
pub proof fn law_snapshot_shows_every_worker_attempt(
    s: TablesModel,
    run: RunModel,
    events_limit: usize,
    data_version: i64,
    now: Timestamp,
)
    requires
        s.valid(),
        s.snapshot_of(run, events_limit, data_version, now) is Ok,
    ensures
        ({
            let shown = s.snapshot_of(
                run,
                events_limit,
                data_version,
                now,
            )->Ok_0.worker_attempts;
            &&& shown.len() == select(
                s.attempts,
                |row: AttemptRowModel| row.attempt.run_id == run.id,
            ).len()
            &&& forall|k: int|
                0 <= k < s.attempts.len() && (#[trigger] s.attempts[k]).attempt.run_id == run.id
                    ==> exists|i: int|
                    0 <= i < shown.len() && #[trigger] shown[i] == (WorkerAttemptLedgerModel {
                        activity: shown[i].activity,
                        ..s.attempts[k].attempt
                    })
            &&& forall|i: int|
                0 <= i < shown.len() ==> (#[trigger] shown[i]).run_id == run.id && exists|k: int|
                    0 <= k < s.attempts.len() && (#[trigger] s.attempts[k]).attempt.launch_id
                        == shown[i].launch_id && s.attempts[k].attempt.run_id == run.id
            &&& forall|i: int, j: int|
                0 <= i < j < shown.len() ==> (#[trigger] shown[i]).launch_id < (
                #[trigger] shown[j]).launch_id
        }),
{
    let p = attempt_of_run(run.id);
    let of_run = |row: AttemptRowModel| row.attempt.run_id == run.id;
    lemma_same_choice(s.attempts, of_run, p);
    let before = launch_id_order();
    let chosen = select(s.attempts, p);
    let rows = ordered(chosen, before);
    let shown = s.snapshot_of(run, events_limit, data_version, now)->Ok_0.worker_attempts;
    lemma_ordered_len(chosen, before);
    law_listing_ascends(s.attempts, p, before, attempt_key());
    assert forall|i: int| 0 <= i < shown.len() implies #[trigger] shown[i] == ledger_of()(
        rows[i],
    ) by {}
    assert forall|k: int|
        0 <= k < s.attempts.len() && (#[trigger] s.attempts[k]).attempt.run_id
            == run.id implies exists|i: int|
        0 <= i < shown.len() && #[trigger] shown[i] == (WorkerAttemptLedgerModel {
            activity: shown[i].activity,
            ..s.attempts[k].attempt
        }) by {
        assert(s.attempts.contains(s.attempts[k]));
        assert(p(s.attempts[k]));
        assert(rows.contains(s.attempts[k]));
        let i = choose|i: int| 0 <= i < rows.len() && rows[i] == s.attempts[k];
        assert(shown[i] == ledger_of()(s.attempts[k]));
    }
    assert forall|i: int| 0 <= i < shown.len() implies (#[trigger] shown[i]).run_id == run.id
        && exists|k: int|
        0 <= k < s.attempts.len() && (#[trigger] s.attempts[k]).attempt.launch_id
            == shown[i].launch_id && s.attempts[k].attempt.run_id == run.id by {
        assert(rows.contains(rows[i]));
        assert(s.attempts.contains(rows[i]) && p(rows[i]));
        let k = choose|k: int| 0 <= k < s.attempts.len() && s.attempts[k] == rows[i];
        assert(s.attempts[k].attempt.launch_id == shown[i].launch_id);
    }
    assert forall|i: int, j: int| 0 <= i < j < shown.len() implies (#[trigger] shown[i]).launch_id
        < (#[trigger] shown[j]).launch_id by {
        assert(before(rows[i], rows[j]));
    }
}

/// Every launch of the run, whatever its state, is in the snapshot, once and as it is on record; none
/// of another run is; and they stand in the order of their epochs.
pub proof fn law_snapshot_shows_every_launch(
    s: TablesModel,
    run: RunModel,
    events_limit: usize,
    data_version: i64,
    now: Timestamp,
)
    requires
        s.valid(),
        s.snapshot_of(run, events_limit, data_version, now) is Ok,
    ensures
        ({
            let shown = s.snapshot_of(
                run,
                events_limit,
                data_version,
                now,
            )->Ok_0.launch_intents;
            &&& forall|launch: RunLaunchIntentModel| #[trigger]
                shown.contains(launch) <==> s.launches.contains(launch) && launch.run_id == run.id
            &&& forall|i: int, j: int|
                0 <= i < j < shown.len() ==> (#[trigger] shown[i]).execution_epoch < (
                #[trigger] shown[j]).execution_epoch
        }),
{
    let p = launch_of_run(run.id);
    let before = epoch_order();
    let shown = s.launches_of(run.id);
    law_listing_ascends(s.launches, p, before, launch_key());
    assert forall|i: int, j: int| 0 <= i < j < shown.len() implies (
    #[trigger] shown[i]).execution_epoch < (#[trigger] shown[j]).execution_epoch by {
        assert(before(shown[i], shown[j]));
    }
}

/// Every event of the run is in the snapshot, once, in the order in which it was recorded; and the tail
/// of them is as long as was asked for, fifty where nothing was asked, or as long as there are events.
pub proof fn law_snapshot_shows_every_event(
    s: TablesModel,
    run: RunModel,
    events_limit: usize,
    data_version: i64,
    now: Timestamp,
)
    requires
        s.valid(),
        s.snapshot_of(run, events_limit, data_version, now) is Ok,
    ensures
        ({
            let snapshot = s.snapshot_of(run, events_limit, data_version, now)->Ok_0;
            let n = snapshot.events.len();
            let asked: nat = if events_limit == 0 {
                50
            } else {
                events_limit as nat
            };
            &&& forall|event: EventModel| #[trigger]
                snapshot.events.contains(event) <==> s.events.contains(event) && event.run_id
                    == run.id
            &&& forall|i: int, j: int|
                0 <= i < j < n ==> (#[trigger] snapshot.events[i]).id < (
                #[trigger] snapshot.events[j]).id
            &&& snapshot.event_tail.len() == if n < asked {
                n
            } else {
                asked
            }
            &&& forall|i: int|
                0 <= i < snapshot.event_tail.len() ==> #[trigger] snapshot.event_tail[i]
                    == snapshot.events[n - snapshot.event_tail.len() + i]
        }),
{
    lemma_events_of(s, run.id);
}

proof fn lemma_events_of(s: TablesModel, run_id: Seq<char>)
    requires
        s.valid(),
    ensures
        ({
            let events = s.events_of(run_id);
            &&& forall|event: EventModel| #[trigger]
                events.contains(event) <==> s.events.contains(event) && event.run_id == run_id
            &&& forall|i: int, j: int|
                0 <= i < j < events.len() ==> (#[trigger] events[i]).id < (#[trigger] events[j]).id
        }),
{
    let p = event_of_run(run_id);
    let events = select(s.events, p);
    let before = |a: EventModel, b: EventModel| a.id < b.id;
    lemma_select_ascends(s.events, p, before);
    lemma_select_from(s.events, p);
    assert forall|event: EventModel| #[trigger] events.contains(event) implies s.events.contains(
        event,
    ) && event.run_id == run_id by {
        let i = choose|i: int| 0 <= i < events.len() && events[i] == event;
        assert(s.events.contains(events[i]) && p(events[i]));
    }
    assert forall|event: EventModel|
        s.events.contains(event) && event.run_id == run_id implies #[trigger] events.contains(
        event,
    ) by {
        lemma_select_keeps(s.events, p, event);
    }
    assert forall|i: int, j: int| 0 <= i < j < events.len() implies (#[trigger] events[i]).id < (
    #[trigger] events[j]).id by {
        assert(before(events[i], events[j]));
    }
}

/// The latest events of a run that are shown are the last ones that were recorded of it, in their
/// order: as many as were asked for, fifty where nothing was asked, or all where there are fewer.
pub proof fn law_latest_events_are_shown(s: TablesModel, run_id: Seq<char>, limit: usize, i: int)
    requires
        s.valid(),
        0 <= i < s.events.len(),
        s.events[i].run_id == run_id,
    ensures
        ({
            let shown = tail(s.events_of(run_id), shown_events(limit));
            let all = select(s.events, |event: EventModel| event.run_id == run_id).len();
            let asked: nat = if limit == 0 {
                50
            } else {
                limit as nat
            };
            &&& shown.len() == if all < asked {
                all
            } else {
                asked
            }
            &&& forall|k: int|
                0 <= k < shown.len() ==> (#[trigger] shown[k]).run_id == run_id
                    && s.events.contains(shown[k])
            &&& forall|j: int, k: int|
                0 <= j < k < shown.len() ==> (#[trigger] shown[j]).id < (#[trigger] shown[k]).id
            &&& !shown.contains(s.events[i]) ==> forall|k: int|
                0 <= k < shown.len() ==> s.events[i].id < (#[trigger] shown[k]).id
        }),
{
    let p = event_of_run(run_id);
    let of_run = |event: EventModel| event.run_id == run_id;
    lemma_same_choice(s.events, of_run, p);
    lemma_events_of(s, run_id);
    let events = s.events_of(run_id);
    let shown = tail(events, shown_events(limit));
    let skipped = events.len() - shown.len();
    assert forall|k: int| 0 <= k < shown.len() implies #[trigger] shown[k] == events[skipped
        + k] by {}
    assert forall|k: int| 0 <= k < shown.len() implies (#[trigger] shown[k]).run_id == run_id
        && s.events.contains(shown[k]) by {
        assert(events.contains(events[skipped + k]));
    }
    assert(s.events.contains(s.events[i]));
    assert(events.contains(s.events[i]));
    let at = choose|at: int| 0 <= at < events.len() && events[at] == s.events[i];
    if at >= skipped {
        assert(shown[at - skipped] == s.events[i]);
    } else {
        assert forall|k: int| 0 <= k < shown.len() implies s.events[i].id < (
        #[trigger] shown[k]).id by {
            assert(events[at].id < events[skipped + k].id);
        }
    }
}

/// A snapshot is of the run that was asked for and shows of it what the other questions to the store
/// answer: its slices, questions, proposals, merges and end, its progress, its mission and budget; and
/// it is marked with the version of the data, the newest event of the run, the time at which the run
/// last changed and the time of the snapshot.
pub proof fn law_snapshot_is_of_its_run(
    s: TablesModel,
    run: RunModel,
    events_limit: usize,
    data_version: i64,
    now: Timestamp,
)
    requires
        s.valid(),
        s.snapshot_of(run, events_limit, data_version, now) is Ok,
    ensures
        ({
            let snapshot = s.snapshot_of(run, events_limit, data_version, now)->Ok_0;
            &&& snapshot.run == run
            &&& snapshot.revision == StatusSnapshotRevisionModel {
                sqlite_data_version: data_version,
                max_event_id: snapshot.revision.max_event_id,
                run_updated_at: Some(run.updated_at),
                captured_at: Some(now),
            }
            &&& forall|k: int|
                0 <= k < s.events.len() && (#[trigger] s.events[k]).run_id == run.id
                    ==> s.events[k].id <= snapshot.revision.max_event_id
            &&& (forall|k: int| 0 <= k < s.events.len() ==> (#[trigger] s.events[k]).run_id
                != run.id) ==> snapshot.revision.max_event_id == 0
            &&& forall|slice: SliceRunModel| #[trigger]
                snapshot.slice_runs.contains(slice) <==> s.slices.contains(slice) && slice.run_id
                    == run.id
            &&& forall|merge: IntegrationMergeIntentModel| #[trigger]
                snapshot.merge_intents.contains(merge) <==> s.merges.contains(merge)
                    && merge.run_id == run.id
            &&& snapshot.questions == s.questions_of(run.id)
            &&& snapshot.replan_proposals == s.proposals_of(run.id)
            &&& snapshot.progress == s.progress_of_run(run.id)
            &&& snapshot.mission_envelope == s.frontier_state(run.id).0
            &&& snapshot.frontier_budget == s.frontier_state(run.id).1
            &&& snapshot.terminal_transition == s.terminal_transition(run.id)
        }),
{
    super::listings::law_slices_ascend(s, run.id);
    super::listings::law_merges_ascend(s, run.id);
    assert forall|k: int|
        0 <= k < s.events.len() && (#[trigger] s.events[k]).run_id == run.id implies s.events[k].id
        <= s.event_frontier(run.id) by {
        super::laws::law_frontier_is_the_newest_event(s, run.id, k);
    }
    if forall|k: int| 0 <= k < s.events.len() ==> (#[trigger] s.events[k]).run_id != run.id {
        crate::table::lemma_first_none(s.events, event_of_run(run.id));
    }
}

/// The status sources of a snapshot are those on record for the run, each as it was recorded; where
/// one of them is damaged or no JSON there is no snapshot.
pub proof fn law_snapshot_shows_every_source(
    s: TablesModel,
    run: RunModel,
    events_limit: usize,
    data_version: i64,
    now: Timestamp,
)
    requires
        s.valid(),
    ensures
        ({
            let snapshot = s.snapshot_of(run, events_limit, data_version, now);
            let sound = |row: StatusSourceRowModel|
                text_digest(row.payload_json) == row.content_sha256 && json_level(row.payload_json)
                    is Some;
            let shown = |row: StatusSourceRowModel|
                StatusSourceSnapshotModel {
                    source: row.source,
                    payload: row.payload_json,
                    indexed_event_id: row.indexed_event_id,
                    content_sha256: row.content_sha256,
                    observed_at: row.observed_at,
                };
            &&& snapshot is Ok <==> forall|k: int|
                0 <= k < s.sources.len() && (#[trigger] s.sources[k]).run_id == run.id ==> sound(
                    s.sources[k],
                )
            &&& snapshot matches Ok(it) ==> it.status_sources.len() == s.sources_of(run.id).len()
                && forall|i: int|
                0 <= i < it.status_sources.len() ==> #[trigger] it.status_sources[i] == shown(
                    s.sources_of(run.id)[i],
                )
        }),
{
    let rows = s.sources_of(run.id);
    super::listings::law_sources_ascend(s, run.id);
    lemma_read_sources(rows);
    let sound = |row: StatusSourceRowModel|
        text_digest(row.payload_json) == row.content_sha256 && json_level(row.payload_json) is Some;
    if read_sources(rows) is Ok {
        assert forall|k: int|
            0 <= k < s.sources.len() && (#[trigger] s.sources[k]).run_id == run.id implies sound(
            s.sources[k],
        ) by {
            assert(s.sources.contains(s.sources[k]));
            assert(rows.contains(s.sources[k]));
            let i = choose|i: int| 0 <= i < rows.len() && rows[i] == s.sources[k];
            assert(read_source(rows[i]) is Ok);
        }
    } else {
        let i = choose|i: int| 0 <= i < rows.len() && read_source(#[trigger] rows[i]) is Err;
        assert(rows.contains(rows[i]));
        let k = choose|k: int| 0 <= k < s.sources.len() && s.sources[k] == rows[i];
        assert(s.sources[k].run_id == run.id && !sound(s.sources[k]));
    }
}

proof fn lemma_read_sources(rows: Seq<StatusSourceRowModel>)
    ensures
        read_sources(rows) is Ok <==> forall|i: int|
            0 <= i < rows.len() ==> read_source(#[trigger] rows[i]) is Ok,
        read_sources(rows) matches Ok(list) ==> list.len() == rows.len() && forall|i: int|
            0 <= i < rows.len() ==> #[trigger] list[i] == (StatusSourceSnapshotModel {
                source: rows[i].source,
                payload: rows[i].payload_json,
                indexed_event_id: rows[i].indexed_event_id,
                content_sha256: rows[i].content_sha256,
                observed_at: rows[i].observed_at,
            }),
    decreases rows.len(),
{
    if rows.len() > 0 {
        let rest = rows.drop_last();
        lemma_read_sources(rest);
        assert(forall|i: int| 0 <= i < rest.len() ==> #[trigger] rest[i] == rows[i]);
        assert(rows[rows.len() - 1] == rows.last());
        if read_sources(rows) is Ok {
            assert forall|i: int| 0 <= i < rows.len() implies read_source(#[trigger] rows[i])
                is Ok by {
                if i < rest.len() {
                    assert(read_source(rest[i]) is Ok);
                }
            }
        } else if read_sources(rest) is Err {
            let i = choose|i: int| 0 <= i < rest.len() && read_source(#[trigger] rest[i]) is Err;
            assert(read_source(rows[i]) is Err);
        }
    }
}

/// The run of a repository that is shown is one of the runs at its path, of the active ones where only
/// those are asked for, and none of them started later, nor at the same time under a greater identity;
/// where there is none, nothing is shown.
pub proof fn law_latest_run_of_a_repository(
    s: TablesModel,
    repo_path: Seq<char>,
    active_only: bool,
)
    ensures
        ({
            let fits = |run: RunModel|
                run.repo_path == repo_path && (active_only ==> run.status == RunStatus::Pending
                    || run.status == RunStatus::Running);
            match s.latest_run_for_repo(repo_path, active_only) {
                None => forall|k: int|
                    0 <= k < s.runs.len() ==> !fits((#[trigger] s.runs[k]).run),
                Some(run) => {
                    &&& fits(run)
                    &&& exists|k: int| 0 <= k < s.runs.len() && (#[trigger] s.runs[k]).run == run
                    &&& forall|k: int|
                        0 <= k < s.runs.len() && fits((#[trigger] s.runs[k]).run)
                            ==> !time_then_text(
                            run.started_at,
                            run.id,
                            s.runs[k].run.started_at,
                            s.runs[k].run.id,
                        )
                },
            }
        }),
{
    let p = run_at(repo_path, active_only);
    let before = latest_started();
    let chosen = select(s.runs, p);
    let found = ordered(chosen, before);
    lemma_select_any(s.runs, p);
    lemma_ordered_len(chosen, before);
    lemma_ordered_rows(chosen, before);
    lemma_select_from(s.runs, p);
    assert forall|a: RunRowModel, b: RunRowModel, c: RunRowModel|
        !(#[trigger] before(b, a)) && !(#[trigger] before(c, b)) implies !before(c, a) by {
        lemma_time_then_text(
            c.run.started_at,
            c.run.id,
            b.run.started_at,
            b.run.id,
            a.run.started_at,
            a.run.id,
        );
    }
    assert forall|a: RunRowModel, b: RunRowModel| #[trigger] before(a, b) implies !before(b, a) by {
        lemma_time_then_text(
            b.run.started_at,
            b.run.id,
            a.run.started_at,
            a.run.id,
            a.run.started_at,
            a.run.id,
        );
    }
    law_ordered_is_sorted(chosen, before);
    if found.len() > 0 {
        let run = found[0].run;
        assert(found.contains(found[0]));
        assert(chosen.contains(found[0]));
        let c = choose|c: int| 0 <= c < chosen.len() && chosen[c] == found[0];
        assert(s.runs.contains(chosen[c]) && p(chosen[c]));
        let k = choose|k: int| 0 <= k < s.runs.len() && s.runs[k] == chosen[c];
        assert(s.runs[k].run == run);
        assert forall|k: int| 0 <= k < s.runs.len() && p(#[trigger] s.runs[k]) implies
            !time_then_text(run.started_at, run.id, s.runs[k].run.started_at, s.runs[k].run.id) by {
            lemma_select_keeps(s.runs, p, s.runs[k]);
            assert(found.contains(s.runs[k]));
            let j = choose|j: int| 0 <= j < found.len() && found[j] == s.runs[k];
            lemma_time_then_text(
                run.started_at,
                run.id,
                run.started_at,
                run.id,
                run.started_at,
                run.id,
            );
            if j > 0 {
                assert(!before(found[j], found[0]));
            }
        }
    } else {
        assert forall|k: int| 0 <= k < s.runs.len() implies !p(#[trigger] s.runs[k]) by {}
    }
}

/// A status source that is recorded stands as it was handed in, with its digest and the newest event of
/// the run, in place of the one that the run had under that name; every other source stays.
pub proof fn law_status_source_is_recorded(
    s: TablesModel,
    run_id: Seq<char>,
    source: Seq<char>,
    payload_json: Seq<char>,
    now: Timestamp,
)
    ensures
        ({
            let after = s.with_source(run_id, source, payload_json, now);
            let row = StatusSourceRowModel {
                run_id,
                source,
                payload_json,
                indexed_event_id: s.event_frontier(run_id),
                content_sha256: text_digest(payload_json),
                observed_at: now,
            };
            &&& after == TablesModel { sources: after.sources, ..s }
            &&& after.sources.contains(row)
            &&& forall|k: int|
                0 <= k < s.sources.len() ==> #[trigger] after.sources[k] == if s.sources[k].run_id
                    == run_id && s.sources[k].source == source {
                    row
                } else {
                    s.sources[k]
                }
            &&& forall|k: int|
                s.sources.len() <= k < after.sources.len() ==> #[trigger] after.sources[k] == row
        }),
{
    let p = super::status::source_at(run_id, source);
    let after = s.with_source(run_id, source, payload_json, now).sources;
    if any(s.sources, p) {
        let k = choose|k: int| 0 <= k < s.sources.len() && p(#[trigger] s.sources[k]);
        assert(s.with_source(run_id, source, payload_json, now).sources[k].source == source);
        assert(after.contains(after[k]));
    } else {
        assert(after.contains(after[s.sources.len() as int]));
        assert forall|k: int| 0 <= k < s.sources.len() implies #[trigger] after[k] == s.sources[k]
            && !(s.sources[k].run_id == run_id && s.sources[k].source == source) by {
            assert(!p(s.sources[k]));
        }
    }
}

} // verus!
