//! What the cockpit shows and asks for: where panes stand, what they run, and the commands by which a
//! workspace is built, whatever is replied.
use super::adapter::{
    dashboard_request, next_plan, run_focused, run_opened, run_opened_anew, started_in_slot,
    worker_opened, worker_request, worker_started,
};
use super::commands::{assignments, command_with_env, run_request, worker_label, workspace_label};
use super::herdr::{
    answered, close_args, create_tab_args, dashboard_ensured, env_args, failed_after_closing,
    inspected, live_anchor, move_args, next_at, outputs, pane_not_found, pane_runs, panes_listed,
    placed, put_to_work, ran, read_only_pane, rename_args, split, split_args, split_for_worker,
    start_args, tui_placed, tui_placed_once, tui_settled, tui_target, tui_worker_of, worker_placed,
    workspace_opened, HerdrReplyModel, HerdrTempTabModel, ProgressModel, TuiTargetModel,
};
use super::layout::{greatest_slot, layout_plan, refused, slot_index};
use super::types::{
    CockpitErrorModel, CockpitLaunchModel, CockpitLayoutDirection, CockpitLayoutInspection,
    CockpitLayoutInspectionModel, CockpitLayoutPaneModel, CockpitPaneRefModel,
    CockpitPaneRequestModel, CockpitRunRequestModel, CockpitTuiWorkerLaunchModel,
    CockpitTuiWorkerOpenedModel, CockpitTuiWorkerRequestModel, CockpitWorkerLaunchModel,
    CockpitWorkerPaneRequestModel, CockpitWorkerPlacementModel, CockpitWorkerSlotModel,
    CockpitWorkspaceRefModel, EnvVarModel,
};
use crate::domain::{CockpitMode, RunModel};
use crate::json::{items_in, json_level, member, member_of, text_in};
use crate::shell::{command_line, quoted, shortened};
use crate::table::first;
use crate::text::{begins_with, blank, decimal, trim};
use vstd::prelude::*;

verus! {

/// A plan is made for one to four workers: the dashboard stands to the right of the workers, the
/// second worker to the right of the first, the third and the fourth below the first two; nothing is
/// planned for any other number.
pub proof fn law_places_of_the_workers(worker_count: usize)
    ensures
        ({
            let plan = layout_plan(worker_count);
            &&& plan is Ok <==> 1 <= worker_count <= 4
            &&& plan matches Err(error) ==> error.message
                == "cockpit layout v2 supports 1-4 workers, got "@ + decimal(worker_count as nat)
            &&& plan matches Ok(it) ==> {
                &&& it.worker_count == worker_count
                &&& it.worker_slots.len() == worker_count
                &&& it.dashboard.name == "Dashboard"@
                &&& it.dashboard.region == "right-dashboard"@
                &&& it.dashboard.split_from_slot == "worker-1"@
                &&& it.dashboard.direction == CockpitLayoutDirection::Right
                &&& it.dashboard.ratio == "0.68"@
                &&& forall|i: int|
                    0 <= i < worker_count ==> {
                        let place = #[trigger] it.worker_slots[i];
                        &&& place.index == i + 1
                        &&& place.region == "left-worker-region"@
                        &&& place.name == if i == 0 {
                            "worker-1"@
                        } else if i == 1 {
                            "worker-2"@
                        } else if i == 2 {
                            "worker-3"@
                        } else {
                            "worker-4"@
                        }
                        &&& i > 0 ==> (place.split matches Some(split) && split.ratio == "0.50"@
                            && split.direction == (if i == 1 {
                            CockpitLayoutDirection::Right
                        } else {
                            CockpitLayoutDirection::Down
                        }) && split.anchor_slot == (if i == 3 {
                            "worker-2"@
                        } else {
                            "worker-1"@
                        }))
                    }
            }
        }),
{
}

/// A pane that was labelled for a worker in a place is known again by the number of that place.
pub proof fn law_label_names_its_place(worker_count: usize, i: int, worker: Seq<char>)
    requires
        1 <= worker_count <= 4,
        0 <= i < worker_count,
    ensures
        ({
            let place = layout_plan(worker_count)->Ok_0.worker_slots[i];
            let label = place.pane_label(worker);
            &&& label == place.name + ": "@ + worker
            &&& slot_index(label) == Some(place.index)
        }),
{
    let place = layout_plan(worker_count)->Ok_0.worker_slots[i];
    let label = place.pane_label(worker);
    reveal_strlit("worker-1");
    reveal_strlit("worker-2");
    reveal_strlit("worker-3");
    reveal_strlit("worker-4");
    reveal_strlit("worker-");
    reveal_strlit(": ");
    let digit = place.name[7];
    let index = seq![digit];
    let rest = seq![digit, ':', ' '] + worker;
    assert(label.take(7) =~= "worker-"@);
    assert(label.skip(7) =~= rest);
    assert(rest[0] == digit && rest[1] == ':');
    let tail = rest.skip(1);
    assert(tail[0] == ':');
    assert(super::layout::before_char(tail, ':') == Some(Seq::<char>::empty()));
    assert(seq![rest[0]] + Seq::<char>::empty() =~= index);
    assert(super::layout::before_char(rest, ':') == Some(index));
    assert(index.drop_last() =~= Seq::empty());
    assert(index.len() == 1 && index[0] == digit);
    reveal_with_fuel(crate::text::digits_value, 2);
}

/// What is said of the run and of its workers.
pub proof fn law_labels_of_a_run(run_id: Seq<char>, slice_id: Seq<char>, attempt: usize)
    ensures
        workspace_label(run_id) == "Khazad-Doom "@ + run_id,
        worker_label(run_id, slice_id, attempt) == "Worker "@ + run_id + "/"@ + slice_id
            + " attempt "@ + decimal(attempt as nat),
{
}

/// The workspace of a run is at its repository, under the name of the run, and its feed watches that
/// run, by quoted words.
pub proof fn law_workspace_of_a_run(run: RunModel, khazad_home: Seq<char>, binary: Seq<char>)
    ensures
        run_request(run, khazad_home, binary) == (CockpitRunRequestModel {
            repo_path: run.repo_path,
            khazad_home,
            workspace_label: "Khazad-Doom "@ + run.id,
            feed_command: quoted(binary) + " monitor --run "@ + quoted(run.id)
                + " --interval-ms 1000"@,
        }),
{
}

/// A command runs with its environment before it, each variable as one quoted word, in order; without
/// one it runs as it is.
pub proof fn law_command_runs_in_its_environment(
    request: CockpitPaneRequestModel,
    env: Seq<EnvVarModel>,
    last: EnvVarModel,
)
    ensures
        request.env.len() == 0 ==> command_with_env(request) == request.command,
        request.env.len() > 0 ==> command_with_env(request) == "env "@ + assignments(request.env)
            + " "@ + request.command,
        assignments(seq![last]) == quoted(last.key + "="@ + last.value),
        env.len() > 0 ==> assignments(env.push(last)) == assignments(env) + " "@ + quoted(
            last.key + "="@ + last.value,
        ),
        env_args(env.push(last)) == env_args(env) + seq!["--env"@, last.key + "="@ + last.value],
        env_args(Seq::empty()) == Seq::<Seq<char>>::empty(),
{
    assert(env.push(last).drop_last() =~= env);
}

/// A command that was not replied to is the one to run; a reply that tells of a failure fails by its
/// words; where a document is wanted, what was printed has to be one.
pub proof fn law_commands_are_run_one_by_one(
    replies: Seq<HerdrReplyModel>,
    at: usize,
    args: Seq<Seq<char>>,
)
    requires
        replies.len() < usize::MAX,
    ensures
        at >= replies.len() ==> ran(replies, at, args) == ProgressModel::<()>::Wait(args)
            && answered(replies, at, args) == ProgressModel::<Seq<char>>::Wait(args),
        at < replies.len() ==> match replies[at as int] {
            HerdrReplyModel::Failed(message) => {
                let error = CockpitErrorModel { message };
                &&& ran(replies, at, args) == ProgressModel::<()>::Fail(error, (at + 1) as usize)
                &&& answered(replies, at, args) == ProgressModel::<Seq<char>>::Fail(
                    error,
                    (at + 1) as usize,
                )
            },
            HerdrReplyModel::Output { stdout, stderr } => {
                &&& ran(replies, at, args) == ProgressModel::<()>::Done((), (at + 1) as usize)
                &&& json_level(stdout) is Some ==> answered(replies, at, args)
                    == ProgressModel::<Seq<char>>::Done(stdout, (at + 1) as usize)
                &&& json_level(stdout) is None ==> answered(replies, at, args)
                    == ProgressModel::<Seq<char>>::Fail(
                    CockpitErrorModel {
                        message: "herdr "@ + command_line(args) + " did not return JSON: "@
                            + outputs(stdout, stderr),
                    },
                    (at + 1) as usize,
                )
            },
        },
{
}

/// The reply that prints a document.
pub open spec fn printed(stdout: Seq<char>) -> HerdrReplyModel {
    HerdrReplyModel::Output { stdout, stderr: Seq::empty() }
}

/// A workspace is opened by listing those that are there: the first one with the label of the run is
/// focused; where there is none, a new one is made at the repository, under the label and with the home
/// of the daemon, and its first pane is the one that others are split from.
pub proof fn law_workspace_is_opened(
    request: CockpitRunRequestModel,
    listed: Seq<char>,
    made: Seq<char>,
)
    requires
        json_level(listed) is Some,
        json_level(made) is Some,
    ensures
        ({
            let items = items_in(member_of(member(listed, "result"@), "workspaces"@));
            let known = |items: Seq<Seq<char>>, i: int|
                0 <= i < items.len() && text_in(member(items[i], "label"@)) == Some(
                    request.workspace_label,
                );
            let none = Seq::<HerdrReplyModel>::empty();
            let one = seq![printed(listed)];
            let two = seq![printed(listed), printed(made)];
            &&& workspace_opened(request, none) == ProgressModel::<CockpitWorkspaceRefModel>::Wait(
                seq!["workspace"@, "list"@],
            )
            &&& (items is None || forall|i: int| !(#[trigger] known(items->0, i))) ==> {
                &&& workspace_opened(request, one) == ProgressModel::<
                    CockpitWorkspaceRefModel,
                >::Wait(
                    seq![
                        "workspace"@,
                        "create"@,
                        "--cwd"@,
                        request.repo_path,
                        "--label"@,
                        request.workspace_label,
                        "--env"@,
                        "KHAZAD_HOME="@ + request.khazad_home,
                        "--focus"@,
                    ],
                )
                &&& match (
                    text_in(
                        member_of(member_of(member(made, "result"@), "workspace"@), "workspace_id"@),
                    ),
                    text_in(
                        member_of(member_of(member(made, "result"@), "root_pane"@), "pane_id"@),
                    ),
                ) {
                    (Some(id), Some(root)) => workspace_opened(request, two) == ProgressModel::<
                        CockpitWorkspaceRefModel,
                    >::Done(
                        CockpitWorkspaceRefModel {
                            id,
                            anchor_pane: Some(CockpitPaneRefModel { id: root }),
                            existed: false,
                        },
                        2,
                    ),
                    _ => workspace_opened(request, two) is Fail,
                }
            }
            &&& forall|i: int| #[trigger]
                known(items->0, i) && items is Some && (forall|j: int|
                    0 <= j < i ==> !(#[trigger] known(items->0, j))) ==> match text_in(
                    member(items->0[i], "workspace_id"@),
                ) {
                    Some(id) => {
                        &&& workspace_opened(request, one) == ProgressModel::<
                            CockpitWorkspaceRefModel,
                        >::Wait(seq!["workspace"@, "focus"@, id])
                        &&& workspace_opened(request, two) == ProgressModel::<
                            CockpitWorkspaceRefModel,
                        >::Done(
                            CockpitWorkspaceRefModel { id, anchor_pane: None, existed: true },
                            2,
                        )
                    },
                    None => workspace_opened(request, one) is Fail,
                }
        }),
{
    let items = items_in(member_of(member(listed, "result"@), "workspaces"@));
    let known = |items: Seq<Seq<char>>, i: int|
        0 <= i < items.len() && text_in(member(items[i], "label"@)) == Some(
            request.workspace_label,
        );
    if items is Some {
        if forall|i: int| !(#[trigger] known(items->0, i)) {
            assert forall|i: int| 0 <= i < (items->0).len() implies text_in(
                member(#[trigger] items->0[i], "label"@),
            ) != Some(request.workspace_label) by {
                assert(!known(items->0, i));
            }
            lemma_not_labelled(items->0, request.workspace_label);
        }
        assert forall|i: int| #[trigger]
            known(items->0, i) && (forall|j: int| 0 <= j < i ==> !(#[trigger] known(items->0, j)))
            implies super::herdr::item_labelled(items->0, request.workspace_label) == Some(
            items->0[i],
        ) by {
            assert forall|j: int| 0 <= j < i implies text_in(
                member(#[trigger] items->0[j], "label"@),
            ) != Some(request.workspace_label) by {
                assert(!known(items->0, j));
            }
            lemma_first_labelled(items->0, request.workspace_label, i);
        }
    }
}

proof fn lemma_not_labelled(items: Seq<Seq<char>>, label: Seq<char>)
    requires
        forall|i: int|
            0 <= i < items.len() ==> text_in(member(#[trigger] items[i], "label"@)) != Some(label),
    ensures
        super::herdr::item_labelled(items, label) is None,
    decreases items.len(),
{
    if items.len() > 0 {
        let rest = items.skip(1);
        assert forall|i: int| 0 <= i < rest.len() implies text_in(
            member(#[trigger] rest[i], "label"@),
        ) != Some(label) by {
            assert(rest[i] == items[i + 1]);
        }
        lemma_not_labelled(rest, label);
    }
}

proof fn lemma_first_labelled(items: Seq<Seq<char>>, label: Seq<char>, i: int)
    requires
        0 <= i < items.len(),
        text_in(member(items[i], "label"@)) == Some(label),
        forall|j: int|
            0 <= j < i ==> text_in(member(#[trigger] items[j], "label"@)) != Some(label),
    ensures
        super::herdr::item_labelled(items, label) == Some(items[i]),
    decreases items.len(),
{
    if i > 0 {
        let rest = items.skip(1);
        assert forall|j: int| 0 <= j < i - 1 implies text_in(
            member(#[trigger] rest[j], "label"@),
        ) != Some(label) by {
            assert(rest[j] == items[j + 1]);
        }
        lemma_first_labelled(rest, label, i - 1);
    }
}

/// The words by which panes and agents are made, moved, named and closed.
pub proof fn law_words_of_the_commands(
    anchor: Seq<char>,
    direction: CockpitLayoutDirection,
    ratio: Seq<char>,
    pane: CockpitPaneRequestModel,
    pane_id: Seq<char>,
    label: Seq<char>,
    workspace: CockpitWorkspaceRefModel,
    worker: CockpitTuiWorkerRequestModel,
    place: Seq<char>,
    target: TuiTargetModel,
)
    ensures
        split_args(anchor, direction, ratio, pane) == (seq![
            "pane"@,
            "split"@,
            anchor,
            "--direction"@,
            direction.text(),
            "--ratio"@,
            ratio,
            "--cwd"@,
            pane.cwd,
        ] + env_args(pane.env)).push("--no-focus"@),
        rename_args(pane_id, label) == seq!["pane"@, "rename"@, pane_id, label],
        close_args(pane_id) == seq!["pane"@, "close"@, pane_id],
        create_tab_args(workspace, worker) == seq![
            "tab"@,
            "create"@,
            "--workspace"@,
            workspace.id,
            "--cwd"@,
            worker.cwd,
            "--label"@,
            worker.name + " staging"@,
            "--no-focus"@,
        ],
        start_args(worker, "--tab"@, place) == seq![
            "agent"@,
            "start"@,
            worker.name,
            "--cwd"@,
            worker.cwd,
            "--tab"@,
            place,
            "--split"@,
            "down"@,
        ] + env_args(worker.env) + seq![
            "--env"@,
            "KHAZAD_TUI_WORKER_ID="@ + worker.run_id + ":"@ + worker.slice_id + ":"@ + decimal(
                worker.attempt as nat,
            ),
            "--no-focus"@,
            "--"@,
        ] + worker.argv,
        move_args(pane_id, target) == seq![
            "pane"@,
            "move"@,
            pane_id,
            "--tab"@,
            target.tab_id,
            "--split"@,
            target.direction.text(),
            "--target-pane"@,
            target.pane_id,
            "--ratio"@,
            target.ratio,
            "--no-focus"@,
        ],
{
}

/// A pane is named before its command runs in it, with its environment; it does nothing where it could
/// not be named.
pub proof fn law_pane_is_named_and_runs(
    pane_id: Seq<char>,
    label: Seq<char>,
    request: CockpitPaneRequestModel,
    replies: Seq<HerdrReplyModel>,
    at: usize,
)
    requires
        replies.len() < usize::MAX,
    ensures
        ({
            let progress = pane_runs(pane_id, label, request, replies, at);
            let run = seq!["pane"@, "run"@, pane_id, command_with_env(request)];
            &&& at >= replies.len() ==> progress == ProgressModel::<()>::Wait(
                seq!["pane"@, "rename"@, pane_id, label],
            )
            &&& at < replies.len() ==> (replies[at as int] is Failed ==> progress is Fail)
            &&& at < replies.len() ==> (replies[at as int] matches HerdrReplyModel::Output {
                stdout,
                ..
            } ==> json_level(stdout) is Some ==> progress == ran(replies, (at + 1) as usize, run))
        }),
{
}

/// A worker that was put into a pane is placed there, under the label of its place.
pub proof fn law_worker_is_placed(
    pane_id: Seq<char>,
    slot: CockpitWorkerSlotModel,
    request: CockpitPaneRequestModel,
    replies: Seq<HerdrReplyModel>,
    at: usize,
)
    ensures
        put_to_work(pane_id, slot, request, replies, at) matches ProgressModel::Done(it, _) ==> it
            == (CockpitWorkerPlacementModel {
            pane: CockpitPaneRefModel { id: pane_id },
            slot_name: slot.name,
            slot_index: slot.index,
            slot_region: slot.region,
            pane_label: slot.name + ": "@ + request.label,
        }),
        put_to_work(pane_id, slot, request, replies, at) is Done <==> pane_runs(
            pane_id,
            slot.name + ": "@ + request.label,
            request,
            replies,
            at,
        ) is Done,
{
}

/// The first worker takes the pane that stands in for the workers, or one that it had before, or one
/// without a label, or a part of the dashboard below it; any other worker takes a part of the pane of
/// the place that its own is split off, in the direction and by the share of the plan. A place that is
/// not the first and is split off nothing cannot be taken.
pub proof fn law_worker_takes_its_place(
    workspace: CockpitWorkspaceRefModel,
    slot: CockpitWorkerSlotModel,
    request: CockpitPaneRequestModel,
    replies: Seq<HerdrReplyModel>,
    inspection: CockpitLayoutInspectionModel,
    at: usize,
)
    requires
        inspected(workspace, replies, 0, 1) == ProgressModel::Done(inspection, at),
    ensures
        ({
            let progress = worker_placed(workspace, slot, request, replies);
            let preferred = match workspace.anchor_pane {
                Some(pane) => Some(pane.id),
                None => None,
            };
            let reusable = inspection.reusable_pane(preferred);
            let dashboard = inspection.dashboard_pane();
            &&& slot.index == 1 && reusable is Some ==> progress == put_to_work(
                reusable->0,
                slot,
                request,
                replies,
                at,
            )
            &&& slot.index == 1 && reusable is None && dashboard is Some ==> progress
                == split_for_worker(
                dashboard->0,
                CockpitLayoutDirection::Down,
                "0.50"@,
                slot,
                request,
                replies,
                at,
            )
            &&& slot.index == 1 && reusable is None && dashboard is None ==> progress is Fail
            &&& slot.index != 1 && slot.split is None ==> progress is Fail
            &&& slot.index != 1 ==> (slot.split matches Some(wanted) ==> match inspection.slot_pane(
                wanted.anchor_slot,
            ) {
                Some(anchor) => progress == split_for_worker(
                    anchor,
                    wanted.direction,
                    wanted.ratio,
                    slot,
                    request,
                    replies,
                    at,
                ),
                None => progress is Fail,
            })
        }),
{
}

/// The panes of a workspace by their labels: the dashboard, the pane that stands in for the workers, a
/// pane without a label and the pane of a place are found where there is one, and the first that there
/// is.
pub proof fn law_panes_are_found_by_label(
    inspection: CockpitLayoutInspectionModel,
    slot_name: Seq<char>,
    i: int,
)
    requires
        0 <= i < inspection.panes.len(),
    ensures
        ({
            let panes = inspection.panes;
            let label = panes[i].label;
            let earlier = |p: spec_fn(Seq<char>) -> bool|
                exists|j: int| 0 <= j < i && p((#[trigger] panes[j]).label);
            let is_dashboard = |label: Seq<char>| label == "Dashboard"@;
            let stands_in = |label: Seq<char>| label == "Worker region (pending)"@;
            let bare = |label: Seq<char>| blank(label);
            let of_slot = |label: Seq<char>| begins_with(label, slot_name + ": "@);
            &&& is_dashboard(label) && !earlier(is_dashboard) ==> inspection.dashboard_pane()
                == Some(panes[i].id)
            &&& stands_in(label) && !earlier(stands_in) ==> inspection.placeholder_pane() == Some(
                panes[i].id,
            )
            &&& bare(label) && !earlier(bare) ==> inspection.unlabelled_pane() == Some(panes[i].id)
            &&& of_slot(label) && !earlier(of_slot) ==> inspection.slot_pane(slot_name) == Some(
                panes[i].id,
            )
        }),
{
    let panes = inspection.panes;
    lemma_first_at(panes, super::layout::labelled("Dashboard"@), i);
    lemma_first_at(panes, super::layout::labelled("Worker region (pending)"@), i);
    lemma_first_at(panes, super::layout::unlabelled(), i);
    lemma_first_at(panes, super::layout::label_begins(slot_name + ": "@), i);
}

proof fn lemma_first_at(
    panes: Seq<CockpitLayoutPaneModel>,
    p: spec_fn(CockpitLayoutPaneModel) -> bool,
    i: int,
)
    requires
        0 <= i < panes.len(),
    ensures
        p(panes[i]) && (forall|j: int| 0 <= j < i ==> !p(#[trigger] panes[j])) ==> first(panes, p)
            == Some(panes[i]),
    decreases panes.len(),
{
    if i > 0 {
        let rest = panes.drop_first();
        lemma_first_at(rest, p, i - 1);
        if p(panes[i]) && (forall|j: int| 0 <= j < i ==> !p(#[trigger] panes[j])) {
            assert forall|j: int| 0 <= j < i - 1 implies !p(#[trigger] rest[j]) by {
                assert(rest[j] == panes[j + 1]);
            }
            assert(!p(panes[0]));
        }
    }
}

/// The order in which a pane for the first worker is looked for: the one that stands in for the
/// workers, the one that the first worker has, the preferred one where it has no label, then any
/// without one. A pane to split from is one of these, or else the dashboard, the preferred one, or the
/// first there is.
pub proof fn law_pane_that_is_reused(
    inspection: CockpitLayoutInspectionModel,
    preferred: Option<Seq<char>>,
)
    ensures
        ({
            let reused = inspection.reusable_pane(preferred);
            let anchor = inspection.anchor_pane(preferred);
            let a = inspection.placeholder_pane();
            let b = inspection.slot_pane("worker-1"@);
            let c = inspection.preferred_unlabelled(preferred);
            let d = inspection.unlabelled_pane();
            &&& reused == if a is Some {
                a
            } else if b is Some {
                b
            } else if c is Some {
                c
            } else {
                d
            }
            &&& reused is Some ==> anchor == reused
            &&& reused is None && inspection.dashboard_pane() is Some ==> anchor
                == inspection.dashboard_pane()
            &&& reused is None && inspection.dashboard_pane() is None && inspection.preferred_pane(
                preferred,
            ) is Some ==> anchor == inspection.preferred_pane(preferred)
        }),
{
}

/// A worker in a terminal of its own that could not be started or settled leaves nothing behind: every
/// pane that was opened for it is closed, in order and whatever is replied, and only then the failure
/// is told.
pub proof fn law_failed_worker_leaves_no_pane(
    panes: Seq<Seq<char>>,
    error: CockpitErrorModel,
    replies: Seq<HerdrReplyModel>,
    at: usize,
)
    requires
        at <= replies.len() < usize::MAX,
    ensures
        ({
            let progress = failed_after_closing::<CockpitTuiWorkerOpenedModel>(
                panes,
                error,
                replies,
                at,
            );
            let n = replies.len() - at;
            &&& n < panes.len() ==> progress == ProgressModel::<CockpitTuiWorkerOpenedModel>::Wait(
                seq!["pane"@, "close"@, panes[n]],
            )
            &&& n >= panes.len() ==> progress == ProgressModel::<CockpitTuiWorkerOpenedModel>::Fail(
                error,
                (at + panes.len()) as usize,
            )
        }),
    decreases panes.len(),
{
    if panes.len() > 0 && at < replies.len() {
        law_failed_worker_leaves_no_pane(panes.skip(1), error, replies, next_at(at));
    }
}

/// A worker in a terminal of its own is tried once more, from the beginning, where a pane was gone in
/// between; any other outcome is final.
pub proof fn law_lost_pane_is_tried_once_more(
    workspace: CockpitWorkspaceRefModel,
    slot: CockpitWorkerSlotModel,
    request: CockpitTuiWorkerRequestModel,
    replies: Seq<HerdrReplyModel>,
)
    ensures
        ({
            let once = tui_placed_once(workspace, slot, request, replies, 0);
            let outcome = tui_placed(workspace, slot, request, replies);
            &&& !(once is Fail) ==> outcome == once
            &&& once matches ProgressModel::Fail(error, next) ==> outcome == (if pane_not_found(
                error.message,
            ) {
                tui_placed_once(workspace, slot, request, replies, next)
            } else {
                once
            })
        }),
{
}

/// What is known of an agent that was started: its pane and its terminal, under its name; a reply
/// without a pane is refused.
pub proof fn law_started_agent(stdout: Seq<char>, request: CockpitTuiWorkerRequestModel)
    ensures
        ({
            let agent = member_of(member(stdout, "result"@), "agent"@);
            let pane = text_in(member(agent->0, "pane_id"@));
            let opened = tui_worker_of(stdout, request);
            &&& opened is Ok <==> agent is Some && pane is Some
            &&& opened matches Ok(it) ==> it.pane_id == pane->0 && it.agent_name == request.name
                && it.adapter == "herdr"@ && it.mode == CockpitMode::Herdr && it.terminal_id == (
            match text_in(member(agent->0, "terminal_id"@)) {
                Some(text) => text,
                None => Seq::empty(),
            })
        }),
{
}

/// The greatest place that is taken is the greatest that a label names, and none where no label names one.
pub proof fn law_greatest_place_that_is_taken(panes: Seq<CockpitLayoutPaneModel>)
    ensures
        forall|i: int|
            0 <= i < panes.len() ==> (slot_index((#[trigger] panes[i]).label) matches Some(index)
                ==> index <= greatest_slot(panes)),
        greatest_slot(panes) > 0 ==> exists|i: int|
            0 <= i < panes.len() && slot_index((#[trigger] panes[i]).label) == Some(
                greatest_slot(panes),
            ),
    decreases panes.len(),
{
    if panes.len() > 0 {
        let rest = panes.drop_last();
        law_greatest_place_that_is_taken(rest);
        let last = panes.len() - 1;
        assert(forall|i: int| 0 <= i < rest.len() ==> #[trigger] rest[i] == panes[i]);
        assert forall|i: int| 0 <= i < panes.len() implies (slot_index(
            (#[trigger] panes[i]).label,
        ) matches Some(index) ==> index <= greatest_slot(panes)) by {
            if i < last {
                assert(rest[i] == panes[i]);
            }
        }
        if greatest_slot(panes) > 0 {
            if slot_index(panes[last].label) == Some(greatest_slot(panes)) {
            } else {
                assert(greatest_slot(rest) == greatest_slot(panes));
                let i = choose|i: int|
                    0 <= i < rest.len() && slot_index((#[trigger] rest[i]).label) == Some(
                        greatest_slot(rest),
                    );
                assert(rest[i] == panes[i]);
            }
        }
    }
}

/// A worker that comes takes the place behind the greatest that is taken.
pub proof fn law_next_worker_takes_the_next_place(inspection: CockpitLayoutInspection)
    ensures
        ({
            let taken = greatest_slot(inspection@.panes);
            &&& next_plan(inspection) is Ok <==> taken < 4
            &&& next_plan(inspection) matches Ok(plan) ==> plan.worker_count == taken + 1
                && plan.worker_slots.last().index == taken + 1
        }),
{
}

/// The dashboard runs the feed of the run at its repository, reads only and says whose word counts; a
/// worker's pane runs its command under the label of the worker.
pub proof fn law_panes_that_are_asked_for(
    run: CockpitRunRequestModel,
    worker: CockpitWorkerPaneRequestModel,
)
    ensures
        dashboard_request(run) == (CockpitPaneRequestModel {
            label: "Dashboard"@,
            command: run.feed_command,
            cwd: run.repo_path,
            env: seq![
                EnvVarModel { key: "KHAZAD_HOME"@, value: run.khazad_home },
                EnvVarModel { key: "KHAZAD_COCKPIT_READ_ONLY"@, value: "1"@ },
                EnvVarModel { key: "KHAZAD_COCKPIT_SOURCE_OF_TRUTH"@, value: "daemon_state"@ },
            ],
        }),
        worker_request(worker) == (CockpitPaneRequestModel {
            label: "Worker "@ + worker.run_id + "/"@ + worker.slice_id + " attempt "@ + decimal(
                worker.attempt as nat,
            ),
            command: worker.command,
            cwd: worker.cwd,
            env: worker.env,
        }),
{
}

/// What is said of a workspace that was opened or focused, and of a worker that was placed or started:
/// which adapter did it and in which mode, in which workspace, and where.
pub proof fn law_what_is_said_of_the_cockpit(
    name: Seq<char>,
    mode: CockpitMode,
    request: CockpitRunRequestModel,
    placement: CockpitWorkerPlacementModel,
    opened: CockpitTuiWorkerOpenedModel,
    slot: CockpitWorkerSlotModel,
    worker: CockpitTuiWorkerRequestModel,
)
    ensures
        run_opened(name, mode, request) matches CockpitLaunchModel::Opened(it) && it.adapter == name
            && it.mode == mode && it.workspace_label == request.workspace_label && it.pane_labels
            == seq!["Dashboard"@],
        run_focused(name, mode, request).action == "focused_existing"@,
        run_focused(name, mode, request).adapter == name,
        run_focused(name, mode, request).mode == mode,
        run_focused(name, mode, request).workspace_label == request.workspace_label,
        run_focused(name, mode, request).pane_labels.len() == 0,
        run_opened_anew(name, mode, request).action == "opened"@,
        run_opened_anew(name, mode, request).adapter == name,
        run_opened_anew(name, mode, request).mode == mode,
        run_opened_anew(name, mode, request).workspace_label == request.workspace_label,
        run_opened_anew(name, mode, request).pane_labels == seq!["Dashboard"@],
        worker_opened(name, mode, request, placement) matches CockpitWorkerLaunchModel::Opened(it)
            && it.adapter == name && it.mode == mode && it.workspace_label
            == request.workspace_label && it.pane_label == placement.pane_label && it.pane_id
            == placement.pane.id && it.slot_name == placement.slot_name && it.slot_index
            == placement.slot_index && it.slot_region == placement.slot_region,
        worker_started(mode, request, opened) matches CockpitTuiWorkerLaunchModel::Opened(it) && it
            == (CockpitTuiWorkerOpenedModel {
            mode,
            workspace_label: request.workspace_label,
            ..opened
        }),
        started_in_slot(opened, slot, worker) == (CockpitTuiWorkerOpenedModel {
            pane_label: slot.name + ": "@ + ("Worker "@ + worker.run_id + "/"@ + worker.slice_id
                + " attempt "@ + decimal(worker.attempt as nat)),
            slot_name: slot.name,
            slot_index: slot.index,
            slot_region: slot.region,
            ..opened
        }),
{
}

/// Whether everything that was asked so far was answered by a document.
pub open spec fn all_went_well(replies: Seq<HerdrReplyModel>) -> bool {
    forall|i: int|
        0 <= i < replies.len() ==> (#[trigger] replies[i] matches HerdrReplyModel::Output {
            stdout,
            ..
        } && json_level(stdout) is Some)
}

/// A worker that was started in a tab of its own is moved to its place, then named, then the pane that it
/// replaces, if there is one, and the pane that it leaves are closed.
pub proof fn law_worker_settles_in_its_place(
    pane_id: Seq<char>,
    label: Seq<char>,
    target: TuiTargetModel,
    tab: HerdrTempTabModel,
    replies: Seq<HerdrReplyModel>,
    at: usize,
)
    requires
        at <= replies.len() < usize::MAX,
        all_went_well(replies),
    ensures
        ({
            let n = replies.len() - at;
            let progress = tui_settled(pane_id, label, target, tab, replies, at);
            let wait = |args: Seq<Seq<char>>| ProgressModel::<()>::Wait(args);
            &&& n == 0 ==> progress == wait(
                seq![
                    "pane"@,
                    "move"@,
                    pane_id,
                    "--tab"@,
                    target.tab_id,
                    "--split"@,
                    target.direction.text(),
                    "--target-pane"@,
                    target.pane_id,
                    "--ratio"@,
                    target.ratio,
                    "--no-focus"@,
                ],
            )
            &&& n == 1 ==> progress == wait(seq!["pane"@, "rename"@, pane_id, label])
            &&& target.replaced matches Some(replaced) ==> {
                &&& n == 2 ==> progress == wait(seq!["pane"@, "close"@, replaced])
                &&& n == 3 ==> progress == wait(seq!["pane"@, "close"@, tab.root_pane_id])
                &&& n >= 4 ==> progress == ProgressModel::<()>::Done((), (at + 4) as usize)
            }
            &&& target.replaced is None ==> {
                &&& n == 2 ==> progress == wait(seq!["pane"@, "close"@, tab.root_pane_id])
                &&& n >= 3 ==> progress == ProgressModel::<()>::Done((), (at + 3) as usize)
            }
        }),
{
    let n = replies.len() - at;
    if n > 0 {
        assert(replies[at as int] is Output);
    }
    if n > 1 {
        assert(replies[at + 1] is Output);
    }
    if n > 2 {
        assert(replies[at + 2] is Output);
    }
    if n > 3 {
        assert(replies[at + 3] is Output);
    }
}

/// The place that a worker in a terminal of its own moves to: the first one the pane that is reused, which
/// it replaces, or a part of the dashboard; any other a part of the pane of the place that its own is split
/// off, which it leaves open. The tab has to be known.
pub proof fn law_place_of_a_terminal(
    workspace: CockpitWorkspaceRefModel,
    slot: CockpitWorkerSlotModel,
    inspection: CockpitLayoutInspectionModel,
)
    ensures
        ({
            let target = tui_target(workspace, slot, inspection);
            let preferred = match workspace.anchor_pane {
                Some(pane) => Some(pane.id),
                None => None,
            };
            let reused = inspection.reusable_pane(preferred);
            let dashboard = inspection.dashboard_pane();
            let pane = if slot.index == 1 {
                if reused is Some {
                    reused
                } else {
                    dashboard
                }
            } else if slot.split is Some {
                inspection.slot_pane(slot.split->0.anchor_slot)
            } else {
                None
            };
            &&& target is Ok <==> pane is Some && inspection.tab_of(pane->0) is Some
            &&& target matches Ok(it) ==> {
                &&& it.pane_id == pane->0
                &&& it.tab_id == inspection.tab_of(pane->0)->0
                &&& slot.index == 1 ==> it.direction == CockpitLayoutDirection::Down && it.ratio
                    == "0.50"@
                &&& slot.index != 1 ==> it.direction == slot.split->0.direction && it.ratio
                    == slot.split->0.ratio
                &&& it.replaced == if slot.index == 1 && reused is Some {
                    reused
                } else {
                    None
                }
            }
        }),
{
}

/// A pane that only shows goes below where it is a worker's and to the right elsewhere, over half of the
/// pane that it is split from.
pub proof fn law_pane_that_only_shows(
    workspace: CockpitWorkspaceRefModel,
    request: CockpitPaneRequestModel,
    replies: Seq<HerdrReplyModel>,
    panes: Seq<CockpitLayoutPaneModel>,
    at: usize,
    anchor: Seq<char>,
)
    requires
        panes_listed(workspace.id, replies, 0) == ProgressModel::Done(panes, at),
        live_anchor(workspace, panes) == Ok::<Seq<char>, CockpitErrorModel>(anchor),
    ensures
        ({
            let direction = if begins_with(request.label, "Worker "@) {
                CockpitLayoutDirection::Down
            } else {
                CockpitLayoutDirection::Right
            };
            let parted = split(anchor, direction, "0.5"@, request, replies, at);
            let progress = read_only_pane(workspace, request, replies);
            &&& parted matches ProgressModel::Wait(args) ==> progress == ProgressModel::<
                CockpitPaneRefModel,
            >::Wait(args)
            &&& parted is Fail ==> progress is Fail
            &&& parted matches ProgressModel::Done(pane, next) ==> {
                let runs = pane_runs(pane.id, request.label, request, replies, next);
                &&& runs matches ProgressModel::Wait(args) ==> progress == ProgressModel::<
                    CockpitPaneRefModel,
                >::Wait(args)
                &&& runs is Fail ==> progress is Fail
                &&& runs is Done ==> (progress matches ProgressModel::Done(it, _) && it == pane)
            }
        }),
{
}

/// A pane is split off by asking for it, and is the one that the reply names; a reply that names none is
/// refused.
pub proof fn law_pane_is_split_off(
    anchor: Seq<char>,
    direction: CockpitLayoutDirection,
    ratio: Seq<char>,
    request: CockpitPaneRequestModel,
    replies: Seq<HerdrReplyModel>,
    at: usize,
    stdout: Seq<char>,
    stderr: Seq<char>,
)
    requires
        replies.len() < usize::MAX,
        at < replies.len() ==> replies[at as int] == (HerdrReplyModel::Output { stdout, stderr }),
        json_level(stdout) is Some,
    ensures
        ({
            let progress = split(anchor, direction, ratio, request, replies, at);
            let id = text_in(member_of(member_of(member(stdout, "result"@), "pane"@), "pane_id"@));
            &&& at >= replies.len() ==> progress == ProgressModel::<CockpitPaneRefModel>::Wait(
                split_args(anchor, direction, ratio, request),
            )
            &&& at < replies.len() && id is Some ==> progress == ProgressModel::<
                CockpitPaneRefModel,
            >::Done(CockpitPaneRefModel { id: id->0 }, (at + 1) as usize)
            &&& at < replies.len() && id is None ==> progress is Fail
        }),
{
}

/// A workspace is inspected by listing its panes and asking for the layout of the one that others are split
/// from; where that one is gone in between, it is inspected once more, and no more than that.
pub proof fn law_workspace_is_inspected(
    workspace: CockpitWorkspaceRefModel,
    replies: Seq<HerdrReplyModel>,
    at: usize,
    panes: Seq<CockpitLayoutPaneModel>,
    listed_at: usize,
    root: Seq<char>,
    tries: nat,
)
    requires
        panes_listed(workspace.id, replies, at) == ProgressModel::Done(panes, listed_at),
        live_anchor(workspace, panes) == Ok::<Seq<char>, CockpitErrorModel>(root),
    ensures
        ({
            let asked = answered(replies, listed_at, seq!["pane"@, "layout"@, "--pane"@, root]);
            let progress = inspected(workspace, replies, at, tries);
            &&& asked matches ProgressModel::Wait(args) ==> progress == ProgressModel::<
                CockpitLayoutInspectionModel,
            >::Wait(args)
            &&& asked matches ProgressModel::Done(_, next) ==> progress == ProgressModel::<
                CockpitLayoutInspectionModel,
            >::Done(
                CockpitLayoutInspectionModel { root_pane_id: Some(root), panes },
                next,
            )
            &&& asked matches ProgressModel::Fail(error, next) ==> progress == (if pane_not_found(
                error.message,
            ) && tries > 0 {
                inspected(workspace, replies, next, (tries - 1) as nat)
            } else {
                ProgressModel::<CockpitLayoutInspectionModel>::Fail(error, next)
            })
        }),
{
}

/// A dashboard that is there is kept as it is; where there is none, it is split off the pane that others
/// are split from, in the direction and by the share of the plan.
pub proof fn law_dashboard_is_there(
    workspace: CockpitWorkspaceRefModel,
    dashboard: super::types::CockpitDashboardLayoutModel,
    request: CockpitPaneRequestModel,
    replies: Seq<HerdrReplyModel>,
    inspection: CockpitLayoutInspectionModel,
    at: usize,
)
    requires
        inspected(workspace, replies, 0, 1) == ProgressModel::Done(inspection, at),
    ensures
        ({
            let progress = dashboard_ensured(workspace, dashboard, request, replies);
            &&& inspection.dashboard_pane() matches Some(id) ==> progress == ProgressModel::<
                CockpitPaneRefModel,
            >::Done(CockpitPaneRefModel { id }, at)
            &&& inspection.dashboard_pane() is None ==> (inspection.root_pane_id matches Some(root)
                ==> match split(
                root,
                dashboard.direction,
                dashboard.ratio,
                request,
                replies,
                at,
            ) {
                ProgressModel::Wait(args) => progress == ProgressModel::<CockpitPaneRefModel>::Wait(
                    args,
                ),
                ProgressModel::Fail(_, _) => progress is Fail,
                ProgressModel::Done(pane, next) => pane_runs(
                    pane.id,
                    request.label,
                    request,
                    replies,
                    next,
                ) is Done ==> (progress is Done ==> (progress matches ProgressModel::Done(it, _)
                    && it == pane)) && (progress matches ProgressModel::Wait(args) ==> args == seq![
                    "pane"@,
                    "rename"@,
                    root,
                    "Worker region (pending)"@,
                ]) && (progress is Wait ==> blank(
                    match inspection.label_of(root) {
                        Some(label) => label,
                        None => Seq::empty(),
                    },
                )),
            })
        }),
{
}

/// The panes that are listed are those of the items that name one, in their order, with the label and the
/// tab that the item gives.
pub proof fn law_panes_are_listed(items: Seq<Seq<char>>, item: Seq<char>)
    ensures
        ({
            let before = super::herdr::listed_panes(items);
            let after = super::herdr::listed_panes(items.push(item));
            let words = |name: Seq<char>|
                match text_in(member(item, name)) {
                    Some(text) => text,
                    None => Seq::empty(),
                };
            &&& super::herdr::listed_panes(Seq::empty()).len() == 0
            &&& text_in(member(item, "pane_id"@)) is None ==> after == before
            &&& text_in(member(item, "pane_id"@)) matches Some(id) ==> after == before.push(
                CockpitLayoutPaneModel { id, label: words("label"@), tab_id: words("tab_id"@) },
            )
        }),
{
    assert(items.push(item).drop_last() =~= items);
}

/// A pane is taken for gone where the words of a failure say so in one of the three ways in which they do.
pub proof fn law_words_of_a_lost_pane(before: Seq<char>, after: Seq<char>)
    ensures
        pane_not_found(before + "pane_not_found"@ + after),
        pane_not_found(before + "target_pane_not_found"@ + after),
        pane_not_found(before + "pane not found"@ + after),
        !pane_not_found(Seq::empty()),
{
    lemma_part_of(before, "pane_not_found"@, after);
    lemma_part_of(before, "target_pane_not_found"@, after);
    lemma_part_of(before, "pane not found"@, after);
    reveal_strlit("pane_not_found");
    reveal_strlit("target_pane_not_found");
    reveal_strlit("pane not found");
}

proof fn lemma_part_of(before: Seq<char>, part: Seq<char>, after: Seq<char>)
    ensures
        crate::text::contains_text(before + part + after, part),
{
    let whole = before + part + after;
    let i = before.len() as int;
    assert(whole.skip(i).take(part.len() as int) =~= part);
    assert(begins_with(whole.skip(i), part));
}

/// The words of a command that failed or took too long: the command as it is typed, how it ended, and what
/// it had put out on either stream, without the white space round it.
pub proof fn law_words_of_a_failed_command(
    args: Seq<Seq<char>>,
    status: Seq<char>,
    seconds: u64,
    stdout: Seq<char>,
    stderr: Seq<char>,
)
    ensures
        ({
            let out = trim(stdout);
            let err = trim(stderr);
            let said = if out.len() == 0 || err.len() == 0 {
                shortened(out) + ""@ + shortened(err)
            } else {
                shortened(out) + " | "@ + shortened(err)
            };
            &&& super::herdr::exit_message(args, status, stdout, stderr) == "herdr "@
                + command_line(args) + " exited with "@ + status + ": "@ + said
            &&& super::herdr::timeout_message(args, seconds, stdout, stderr) == "herdr "@
                + command_line(args) + " timed out after "@ + decimal(seconds as nat) + "s: "@
                + said
        }),
{
}

/// The panes of gates and of workers run one script in a shell: the first paints what the gates of its run
/// do; the second runs the worker beside what paints its output, its status and its exit, by quoted words.
pub proof fn law_scripts_of_the_panes(
    binary: Seq<char>,
    run_id: Seq<char>,
    wrapper_command: Seq<char>,
    stdout_path: Seq<char>,
    status_path: Seq<char>,
    exit_path: Seq<char>,
)
    ensures
        exists|rest: Seq<char>|
            super::commands::gate_activity_command(binary, run_id) == "/bin/sh -c "@ + quoted(
                #[trigger] (quoted(binary) + " cockpit paint-gate-activity --run "@ + quoted(run_id)
                    + " --interval-ms 1000"@ + rest),
            ),
        exists|rest: Seq<char>|
            super::commands::worker_activity_command(
                binary,
                wrapper_command,
                stdout_path,
                status_path,
                exit_path,
            ) == "/bin/sh -c "@ + quoted(
                #[trigger] ("("@ + wrapper_command + ") & khazad_wrapper_pid=$!; "@ + quoted(binary)
                    + " cockpit paint-worker-activity --stdout "@ + quoted(stdout_path)
                    + " --status "@ + quoted(status_path) + " --exit "@ + quoted(exit_path) + rest),
            ),
{
    let gate =
        "; khazad_painter_status=$?; if [ \"$khazad_painter_status\" -ne 0 ]; then printf '%s\\n' '[khazad] gate/repair activity painter exited non-fatally; daemon gate artifacts remain authoritative' >&2; fi; exit 0"@;
    let worker =
        "; khazad_painter_status=$?; if [ \"$khazad_painter_status\" -ne 0 ]; then printf '%s\\n' '[khazad] worker activity painter exited non-fatally; wrapper artifacts remain authoritative' >&2; fi; wait \"$khazad_wrapper_pid\"; exit $?"@;
    assert(super::commands::gate_activity_command(binary, run_id) == "/bin/sh -c "@ + quoted(
        quoted(binary) + " cockpit paint-gate-activity --run "@ + quoted(run_id)
            + " --interval-ms 1000"@ + gate,
    ));
    assert(super::commands::worker_activity_command(
        binary,
        wrapper_command,
        stdout_path,
        status_path,
        exit_path,
    ) == "/bin/sh -c "@ + quoted(
        "("@ + wrapper_command + ") & khazad_wrapper_pid=$!; "@ + quoted(binary)
            + " cockpit paint-worker-activity --stdout "@ + quoted(stdout_path) + " --status "@
            + quoted(status_path) + " --exit "@ + quoted(exit_path) + worker,
    ));
}

/// A worker in a terminal of its own goes its way: the workspace is inspected and its place is found, then a
/// tab is made for it and it is started there, then it settles in its place; it is told with the label and
/// the place that it has. A step that fails ends it, and what was opened for it until then is closed.
pub proof fn law_terminal_worker_goes_its_way(
    workspace: CockpitWorkspaceRefModel,
    slot: CockpitWorkerSlotModel,
    request: CockpitTuiWorkerRequestModel,
    replies: Seq<HerdrReplyModel>,
    at: usize,
    inspection: CockpitLayoutInspectionModel,
    looked: usize,
    target: TuiTargetModel,
    tab: HerdrTempTabModel,
    staged: usize,
)
    requires
        inspected(workspace, replies, at, 1) == ProgressModel::Done(inspection, looked),
        tui_target(workspace, slot, inspection) == Ok::<TuiTargetModel, CockpitErrorModel>(target),
        super::herdr::temp_tab(workspace, request, replies, looked) == ProgressModel::Done(
            tab,
            staged,
        ),
    ensures
        ({
            let label = slot.name + ": "@ + ("Worker "@ + request.run_id + "/"@ + request.slice_id
                + " attempt "@ + decimal(request.attempt as nat));
            let progress = tui_placed_once(workspace, slot, request, replies, at);
            match super::herdr::tui_started(request, "--tab"@, tab.tab_id, replies, staged) {
                ProgressModel::Wait(args) => progress == ProgressModel::<
                    CockpitTuiWorkerOpenedModel,
                >::Wait(args),
                ProgressModel::Fail(error, next) => progress == failed_after_closing::<
                    CockpitTuiWorkerOpenedModel,
                >(seq![tab.root_pane_id], error, replies, next),
                ProgressModel::Done(opened, started) => match tui_settled(
                    opened.pane_id,
                    label,
                    target,
                    tab,
                    replies,
                    started,
                ) {
                    ProgressModel::Wait(args) => progress == ProgressModel::<
                        CockpitTuiWorkerOpenedModel,
                    >::Wait(args),
                    ProgressModel::Fail(error, next) => progress == failed_after_closing::<
                        CockpitTuiWorkerOpenedModel,
                    >(seq![opened.pane_id, tab.root_pane_id], error, replies, next),
                    ProgressModel::Done(_, next) => progress == ProgressModel::<
                        CockpitTuiWorkerOpenedModel,
                    >::Done(
                        CockpitTuiWorkerOpenedModel {
                            pane_label: label,
                            slot_name: slot.name,
                            slot_index: slot.index,
                            slot_region: slot.region,
                            ..opened
                        },
                        next,
                    ),
                },
            }
        }),
{
}

} // verus!
