//! The cockpit of a run, over whatever shows it.
use super::commands::{worker_label, worker_pane_label};
use super::layout::{
    cockpit_error, dashboard_layout, greatest_slot, layout_plan, refused, reply,
    CockpitLayoutPlanner, RUN_STATUS_FEED_PANE,
};
use super::types::{
    CockpitAgentFocused, CockpitAgentFocusedModel, CockpitAgentMessageSent,
    CockpitAgentMessageSentModel, CockpitAgentRenamed, CockpitAgentRenamedModel,
    CockpitDashboardLayout, CockpitError, CockpitErrorModel, CockpitLaunch, CockpitLaunchModel,
    CockpitLayoutInspection, CockpitLayoutPlan, CockpitLayoutPlanModel, CockpitOpenFocus, CockpitOpenFocusModel,
    CockpitOpened, CockpitOpenedModel, CockpitPaneRef, CockpitPaneRequest,
    CockpitPaneRequestModel, CockpitRunRequest, CockpitRunRequestModel, CockpitTuiWorkerLaunch,
    CockpitTuiWorkerLaunchModel, CockpitTuiWorkerOpened, CockpitTuiWorkerOpenedModel,
    CockpitTuiWorkerRequest, CockpitTuiWorkerRequestModel, CockpitWorkerLaunch,
    CockpitWorkerLaunchModel, CockpitWorkerOpened, CockpitWorkerOpenedModel,
    CockpitWorkerPaneRequest, CockpitWorkerPaneRequestModel, CockpitWorkerPlacement,
    CockpitWorkerPlacementModel, CockpitWorkerSlot, CockpitWorkerSlotModel, CockpitWorkspaceRef,
    EnvVar, EnvVarModel,
};
use crate::domain::CockpitMode;
use crate::table::Row;
use vstd::prelude::*;
use vstd::string::*;

verus! {

/// What shows a cockpit. What is asked of it may change it, so that the state that it is left in
/// tells what it was asked, how often and in which order.
pub trait CockpitAdapter: Sized {
    fn name(&self) -> &'static str;

    fn open_or_focus_run_workspace(&mut self, request: &CockpitRunRequest) -> Result<
        CockpitWorkspaceRef,
        CockpitError,
    >;

    fn create_read_only_pane(
        &mut self,
        workspace: &CockpitWorkspaceRef,
        request: &CockpitPaneRequest,
    ) -> Result<CockpitPaneRef, CockpitError>;

    /// A pane for a worker is by default a pane like any other.
    fn create_worker_pane(
        &mut self,
        workspace: &CockpitWorkspaceRef,
        request: &CockpitPaneRequest,
    ) -> (r: Result<CockpitPaneRef, CockpitError>)
        default_ensures
            exists|asked: &mut Self|
                {
                    &&& *asked == *old(self)
                    &&& *final(asked) == *final(self)
                    &&& #[trigger] call_ensures(
                        Self::create_read_only_pane,
                        (asked, workspace, request),
                        r,
                    )
                },
    {
        self.create_read_only_pane(workspace, request)
    }

    /// By default the layout cannot be looked at.
    fn inspect_layout(&mut self, _workspace: &CockpitWorkspaceRef) -> (r: Result<CockpitLayoutInspection, CockpitError>)
        default_ensures
            *final(self) == *old(self),
            exists|name: &'static str|
                {
                    &&& #[trigger] call_ensures(Self::name, (old(self),), name)
                    &&& r is Err && (r->Err_0)@ == unsupported_by(name@, "cockpit layout inspection"@)
                },
    {
        Err(unsupported(self.name(), "cockpit layout inspection"))
    }

    /// The dashboard is by default a pane like any other.
    fn ensure_dashboard_pane(
        &mut self,
        workspace: &CockpitWorkspaceRef,
        _dashboard: &CockpitDashboardLayout,
        request: &CockpitPaneRequest,
    ) -> (r: Result<CockpitPaneRef, CockpitError>)
        default_ensures
            exists|asked: &mut Self|
                {
                    &&& *asked == *old(self)
                    &&& *final(asked) == *final(self)
                    &&& #[trigger] call_ensures(
                        Self::create_read_only_pane,
                        (asked, workspace, request),
                        r,
                    )
                },
    {
        self.create_read_only_pane(workspace, request)
    }

    /// By default nothing holds the place of a worker.
    fn cleanup_placeholder_root_pane(
        &mut self,
        _workspace: &CockpitWorkspaceRef,
        _slot: &CockpitWorkerSlot,
        _replacement_label: &str,
    ) -> (r: Result<(), CockpitError>)
        default_ensures
            *final(self) == *old(self),
            r is Ok,
    {
        Ok(())
    }

    /// A worker is by default placed by a pane of its own.
    fn place_worker_slot_pane(
        &mut self,
        workspace: &CockpitWorkspaceRef,
        _plan: &CockpitLayoutPlan,
        slot: &CockpitWorkerSlot,
        request: &CockpitPaneRequest,
    ) -> (r: Result<CockpitWorkerPlacement, CockpitError>)
        default_ensures
            exists|asked: &mut Self, answer: Result<CockpitPaneRef, CockpitError>|
                {
                    &&& *asked == *old(self)
                    &&& *final(asked) == *final(self)
                    &&& #[trigger] call_ensures(
                        Self::create_worker_pane,
                        (asked, workspace, request),
                        answer,
                    )
                    &&& match answer {
                        Ok(pane) => r is Ok && (r->Ok_0)@ == placed_in_slot(pane, slot@, request@),
                        Err(error) => r is Err && r->Err_0 == error,
                    }
                },
    {
        match self.create_worker_pane(workspace, request) {
            Ok(pane) => Ok(
                CockpitWorkerPlacement {
                    pane,
                    slot_name: slot.name.dup(),
                    slot_index: slot.index,
                    slot_region: slot.region.dup(),
                    pane_label: request.label.dup(),
                },
            ),
            Err(error) => Err(error),
        }
    }

    /// A worker is by default started as anywhere, and goes by the place that was meant for it.
    fn start_tui_worker_agent_in_slot(
        &mut self,
        workspace: &CockpitWorkspaceRef,
        _plan: &CockpitLayoutPlan,
        slot: &CockpitWorkerSlot,
        request: &CockpitTuiWorkerRequest,
    ) -> (r: Result<CockpitTuiWorkerOpened, CockpitError>)
        default_ensures
            exists|asked: &mut Self, answer: Result<CockpitTuiWorkerOpened, CockpitError>|
                {
                    &&& *asked == *old(self)
                    &&& *final(asked) == *final(self)
                    &&& #[trigger] call_ensures(
                        Self::start_tui_worker_agent,
                        (asked, workspace, request),
                        answer,
                    )
                    &&& match answer {
                        Ok(opened) => r is Ok
                            && (r->Ok_0)@ == started_in_slot(opened@, slot@, request@),
                        Err(error) => r is Err && r->Err_0 == error,
                    }
                },
    {
        match self.start_tui_worker_agent(workspace, request) {
            Ok(opened) => Ok(opened_in_slot(opened, slot, request)),
            Err(error) => Err(error),
        }
    }

    /// By default no worker can be started.
    fn start_tui_worker_agent(
        &mut self,
        _workspace: &CockpitWorkspaceRef,
        _request: &CockpitTuiWorkerRequest,
    ) -> (r: Result<CockpitTuiWorkerOpened, CockpitError>)
        default_ensures
            *final(self) == *old(self),
            exists|name: &'static str|
                {
                    &&& #[trigger] call_ensures(Self::name, (old(self),), name)
                    &&& r is Err && (r->Err_0)@ == unsupported_by(name@, "TUI worker agents"@)
                },
    {
        Err(unsupported(self.name(), "TUI worker agents"))
    }

    /// By default no pane can be closed.
    fn close_pane(&mut self, _pane_id: &str) -> (r: Result<(), CockpitError>)
        default_ensures
            *final(self) == *old(self),
            exists|name: &'static str|
                {
                    &&& #[trigger] call_ensures(Self::name, (old(self),), name)
                    &&& r is Err && (r->Err_0)@ == unsupported_by(name@, "closing panes"@)
                },
    {
        Err(unsupported(self.name(), "closing panes"))
    }

    /// By default no message can be sent.
    fn send_agent_message(&mut self, _target: &str, _text: &str) -> (r: Result<(), CockpitError>)
        default_ensures
            *final(self) == *old(self),
            exists|name: &'static str|
                {
                    &&& #[trigger] call_ensures(Self::name, (old(self),), name)
                    &&& r is Err && (r->Err_0)@ == unsupported_by(name@, "agent messages"@)
                },
    {
        Err(unsupported(self.name(), "agent messages"))
    }

    /// By default no agent can be brought to the front.
    fn focus_agent(&mut self, _target: &str) -> (r: Result<(), CockpitError>)
        default_ensures
            *final(self) == *old(self),
            exists|name: &'static str|
                {
                    &&& #[trigger] call_ensures(Self::name, (old(self),), name)
                    &&& r is Err && (r->Err_0)@ == unsupported_by(name@, "agent focus"@)
                },
    {
        Err(unsupported(self.name(), "agent focus"))
    }

    /// By default no agent can be renamed.
    fn rename_agent(&mut self, _target: &str, _name: &str) -> (r: Result<(), CockpitError>)
        default_ensures
            *final(self) == *old(self),
            exists|name: &'static str|
                {
                    &&& #[trigger] call_ensures(Self::name, (old(self),), name)
                    &&& r is Err && (r->Err_0)@ == unsupported_by(name@, "agent rename"@)
                },
    {
        Err(unsupported(self.name(), "agent rename"))
    }
}

/// Why an adapter does not do what it was asked.
pub open spec fn unsupported_by(adapter: Seq<char>, what: Seq<char>) -> CockpitErrorModel {
    refused(adapter + " adapter does not support "@ + what)
}

/// Why an adapter does not do what it was asked.
pub fn unsupported(adapter: &str, what: &str) -> (r: CockpitError)
    ensures
        r@ == unsupported_by(adapter@, what@),
{
    let mut message = adapter.to_owned();
    message.append(" adapter does not support ");
    message.append(what);
    CockpitError { message }
}

/// A pane in the place that was meant for it.
pub open spec fn placed_in_slot(
    pane: CockpitPaneRef,
    slot: CockpitWorkerSlotModel,
    request: CockpitPaneRequestModel,
) -> CockpitWorkerPlacementModel {
    CockpitWorkerPlacementModel {
        pane: pane@,
        slot_name: slot.name,
        slot_index: slot.index,
        slot_region: slot.region,
        pane_label: request.label,
    }
}

/// A worker that was started, in the place that was meant for it.
pub open spec fn started_in_slot(
    opened: CockpitTuiWorkerOpenedModel,
    slot: CockpitWorkerSlotModel,
    request: CockpitTuiWorkerRequestModel,
) -> CockpitTuiWorkerOpenedModel {
    CockpitTuiWorkerOpenedModel {
        pane_label: slot.pane_label(
            worker_label(request.run_id, request.slice_id, request.attempt),
        ),
        slot_name: slot.name,
        slot_index: slot.index,
        slot_region: slot.region,
        ..opened
    }
}

/// A worker that was started, in the place that was meant for it.
pub fn opened_in_slot(
    opened: CockpitTuiWorkerOpened,
    slot: &CockpitWorkerSlot,
    request: &CockpitTuiWorkerRequest,
) -> (r: CockpitTuiWorkerOpened)
    ensures
        r@ == started_in_slot(opened@, slot@, request@),
{
    let label = worker_pane_label(
        request.run_id.as_str(),
        request.slice_id.as_str(),
        request.attempt,
    );
    let mut r = opened;
    r.pane_label = slot.pane_label(label.as_str());
    r.slot_name = slot.name.dup();
    r.slot_index = slot.index;
    r.slot_region = slot.region.dup();
    r
}

/// The request for the pane that shows how a run goes.
pub open spec fn dashboard_request(request: CockpitRunRequestModel) -> CockpitPaneRequestModel {
    CockpitPaneRequestModel {
        label: RUN_STATUS_FEED_PANE@,
        command: request.feed_command,
        cwd: request.repo_path,
        env: seq![
            EnvVarModel { key: "KHAZAD_HOME"@, value: request.khazad_home },
            EnvVarModel { key: "KHAZAD_COCKPIT_READ_ONLY"@, value: "1"@ },
            EnvVarModel { key: "KHAZAD_COCKPIT_SOURCE_OF_TRUTH"@, value: "daemon_state"@ },
        ],
    }
}

/// The request for the pane of a worker.
pub open spec fn worker_request(request: CockpitWorkerPaneRequestModel) -> CockpitPaneRequestModel {
    CockpitPaneRequestModel {
        label: worker_label(request.run_id, request.slice_id, request.attempt),
        command: request.command,
        cwd: request.cwd,
        env: request.env,
    }
}

/// One more than a number of workers.
pub open spec fn one_more_worker(workers: usize) -> usize {
    if workers == usize::MAX {
        0
    } else {
        (workers + 1) as usize
    }
}

/// A cockpit that was opened.
pub open spec fn run_opened(
    name: Seq<char>,
    mode: CockpitMode,
    request: CockpitRunRequestModel,
) -> CockpitLaunchModel {
    CockpitLaunchModel::Opened(
        CockpitOpenedModel {
            adapter: name,
            mode,
            workspace_label: request.workspace_label,
            pane_labels: seq![RUN_STATUS_FEED_PANE@],
        },
    )
}

/// A workspace that was there already.
pub open spec fn run_focused(
    name: Seq<char>,
    mode: CockpitMode,
    request: CockpitRunRequestModel,
) -> CockpitOpenFocusModel {
    CockpitOpenFocusModel {
        adapter: name,
        mode,
        workspace_label: request.workspace_label,
        action: "focused_existing"@,
        pane_labels: Seq::empty(),
        message: "focused existing Herdr cockpit workspace"@,
    }
}

/// A workspace that was opened anew.
pub open spec fn run_opened_anew(
    name: Seq<char>,
    mode: CockpitMode,
    request: CockpitRunRequestModel,
) -> CockpitOpenFocusModel {
    CockpitOpenFocusModel {
        adapter: name,
        mode,
        workspace_label: request.workspace_label,
        action: "opened"@,
        pane_labels: seq![RUN_STATUS_FEED_PANE@],
        message: "opened Herdr cockpit workspace backed by daemon monitor/status commands"@,
    }
}

/// The pane of a worker that was placed.
pub open spec fn worker_opened(
    name: Seq<char>,
    mode: CockpitMode,
    request: CockpitRunRequestModel,
    placement: CockpitWorkerPlacementModel,
) -> CockpitWorkerLaunchModel {
    CockpitWorkerLaunchModel::Opened(
        CockpitWorkerOpenedModel {
            adapter: name,
            mode,
            workspace_label: request.workspace_label,
            pane_label: placement.pane_label,
            pane_id: placement.pane.id,
            slot_name: placement.slot_name,
            slot_index: placement.slot_index,
            slot_region: placement.slot_region,
        },
    )
}

/// A worker that was started.
pub open spec fn worker_started(
    mode: CockpitMode,
    request: CockpitRunRequestModel,
    opened: CockpitTuiWorkerOpenedModel,
) -> CockpitTuiWorkerLaunchModel {
    CockpitTuiWorkerLaunchModel::Opened(
        CockpitTuiWorkerOpenedModel { mode, workspace_label: request.workspace_label, ..opened },
    )
}

/// The plan for one more worker than a layout shows.
pub open spec fn next_plan(inspection: CockpitLayoutInspection) -> Result<
    CockpitLayoutPlanModel,
    CockpitErrorModel,
> {
    layout_plan(one_more_worker(greatest_slot(inspection@.panes)))
}

/// The last place of a plan.
pub open spec fn last_slot(plan: CockpitLayoutPlan) -> CockpitWorkerSlot {
    plan.worker_slots@[plan.worker_slots@.len() - 1]
}

/// A cockpit and what shows it.
#[derive(Debug)]
pub struct Cockpit<A> {
    mode: CockpitMode,
    adapter: A,
}

impl<A> Cockpit<A> {
    pub closed spec fn mode(&self) -> CockpitMode {
        self.mode
    }

    pub closed spec fn adapter(&self) -> A {
        self.adapter
    }
}

impl<A: CockpitAdapter> Cockpit<A> {
    pub fn new(mode: CockpitMode, adapter: A) -> (r: Self)
        ensures
            r.mode() == mode,
            r.adapter() == adapter,
    {
        Cockpit { mode, adapter }
    }

    fn dashboard_pane_request(&self, request: &CockpitRunRequest) -> (r: CockpitPaneRequest)
        ensures
            r@ == dashboard_request(request@),
    {
        let mut env: Vec<EnvVar> = Vec::new();
        env.push(EnvVar { key: "KHAZAD_HOME".to_owned(), value: request.khazad_home.dup() });
        env.push(EnvVar { key: "KHAZAD_COCKPIT_READ_ONLY".to_owned(), value: "1".to_owned() });
        env.push(
            EnvVar {
                key: "KHAZAD_COCKPIT_SOURCE_OF_TRUTH".to_owned(),
                value: "daemon_state".to_owned(),
            },
        );
        assert(env.deep_view() =~= dashboard_request(request@).env);
        CockpitPaneRequest {
            label: RUN_STATUS_FEED_PANE.to_owned(),
            command: request.feed_command.dup(),
            cwd: request.repo_path.dup(),
            env,
        }
    }

    /// Looks at the layout and shows the dashboard; the first failure ends it.
    fn create_run_panes(&mut self, workspace: &CockpitWorkspaceRef, request: &CockpitRunRequest) -> (r:
        Result<(), CockpitError>)
        ensures
            final(self).mode() == old(self).mode(),
            exists|inspected_by: &mut A, inspected: Result<CockpitLayoutInspection, CockpitError>|
                {
                    &&& *inspected_by == old(self).adapter()
                    &&& #[trigger] call_ensures(
                        A::inspect_layout,
                        (inspected_by, workspace),
                        inspected,
                    )
                    &&& match inspected {
                        Err(error) => *final(inspected_by) == final(self).adapter()
                            && r == Err::<(), CockpitError>(error),
                        Ok(_) => exists|
                            shown_by: &mut A,
                            layout: &CockpitDashboardLayout,
                            pane: &CockpitPaneRequest,
                            shown: Result<CockpitPaneRef, CockpitError>,
                        |
                            {
                                &&& *shown_by == *final(inspected_by)
                                &&& layout@ == dashboard_layout()
                                &&& pane@ == dashboard_request(request@)
                                &&& #[trigger] call_ensures(
                                    A::ensure_dashboard_pane,
                                    (shown_by, workspace, layout, pane),
                                    shown,
                                )
                                &&& match shown {
                                    Err(error) => *final(shown_by) == final(self).adapter()
                                        && r == Err::<(), CockpitError>(error),
                                    Ok(_) => *final(shown_by) == final(self).adapter() && r is Ok,
                                }
                            },
                    }
                },
    {
        let planner = CockpitLayoutPlanner;
        let plan = match planner.plan(1) {
            Ok(plan) => plan,
            Err(error) => {
                return Err(error);
            },
        };
        let dashboard = self.dashboard_pane_request(request);
        match self.adapter.inspect_layout(workspace) {
            Ok(_) => {},
            Err(error) => {
                return Err(error);
            },
        }
        match self.adapter.ensure_dashboard_pane(workspace, &plan.dashboard, &dashboard) {
            Ok(_) => Ok(()),
            Err(error) => Err(error),
        }
    }

    /// Opens the workspace of a run: asks for the workspace, then for its layout, then for the
    /// dashboard, each once, until one fails. Without a cockpit nothing is asked of the adapter.
    pub fn open_run(&mut self, request: &CockpitRunRequest) -> (r: Result<
        CockpitLaunch,
        CockpitError,
    >)
        ensures
            final(self).mode() == old(self).mode(),
            old(self).mode() == CockpitMode::Direct ==> final(self).adapter() == old(self).adapter()
                && reply(r) == Ok::<
                    CockpitLaunchModel,
                    CockpitErrorModel,
                >(CockpitLaunchModel::SkippedDirect),
            old(self).mode() != CockpitMode::Direct ==> exists|
                found_by: &mut A,
                found: Result<CockpitWorkspaceRef, CockpitError>,
            |
                {
                    &&& *found_by == old(self).adapter()
                    &&& #[trigger] call_ensures(
                        A::open_or_focus_run_workspace,
                        (found_by, request),
                        found,
                    )
                    &&& match found {
                        Err(error) => *final(found_by) == final(self).adapter()
                            && reply(r) == Err::<CockpitLaunchModel, CockpitErrorModel>(error@),
                        Ok(workspace) => exists|
                            inspected_by: &mut A,
                            inspected: Result<CockpitLayoutInspection, CockpitError>,
                        |
                            {
                                &&& *inspected_by == *final(found_by)
                                &&& #[trigger] call_ensures(
                                    A::inspect_layout,
                                    (inspected_by, &workspace),
                                    inspected,
                                )
                                &&& match inspected {
                                    Err(error) => *final(inspected_by) == final(self).adapter()
                                        && reply(r) == Err::<
                                            CockpitLaunchModel,
                                            CockpitErrorModel,
                                        >(error@),
                                    Ok(_) => exists|
                                        shown_by: &mut A,
                                        layout: &CockpitDashboardLayout,
                                        pane: &CockpitPaneRequest,
                                        shown: Result<CockpitPaneRef, CockpitError>,
                                    |
                                        {
                                            &&& *shown_by == *final(inspected_by)
                                            &&& layout@ == dashboard_layout()
                                            &&& pane@ == dashboard_request(request@)
                                            &&& #[trigger] call_ensures(
                                                A::ensure_dashboard_pane,
                                                (shown_by, &workspace, layout, pane),
                                                shown,
                                            )
                                            &&& match shown {
                                                Err(error) => *final(shown_by) == final(self).adapter()
                                                    && reply(r) == Err::<
                                                        CockpitLaunchModel,
                                                        CockpitErrorModel,
                                                    >(error@),
                                                Ok(_) => *final(shown_by) == final(self).adapter()
                                                    && exists|name: &'static str| #[trigger]
                                                    call_ensures(
                                                        A::name,
                                                        (&final(self).adapter(),),
                                                        name,
                                                    )
                                                        && reply(r) == Ok::<
                                                            CockpitLaunchModel,
                                                            CockpitErrorModel,
                                                        >(run_opened(name@, old(self).mode(), request@)),
                                            }
                                        },
                                }
                            },
                    }
                },
    {
        if self.mode == CockpitMode::Direct {
            return Ok(CockpitLaunch::SkippedDirect);
        }
        let workspace = match self.adapter.open_or_focus_run_workspace(request) {
            Ok(workspace) => workspace,
            Err(error) => {
                return Err(error);
            },
        };
        match self.create_run_panes(&workspace, request) {
            Ok(()) => {},
            Err(error) => {
                return Err(error);
            },
        }
        let name = self.adapter.name();
        let pane_labels = dashboard_label();
        Ok(
            CockpitLaunch::Opened(
                CockpitOpened {
                    adapter: name.to_owned(),
                    mode: self.mode,
                    workspace_label: request.workspace_label.dup(),
                    pane_labels,
                },
            ),
        )
    }

    /// Opens the workspace of a run, or brings it to the front where it is open already; then nothing
    /// else is asked of the adapter. Without a cockpit nothing is.
    pub fn open_or_focus_run(&mut self, request: &CockpitRunRequest) -> (r: Result<
        CockpitOpenFocus,
        CockpitError,
    >)
        ensures
            final(self).mode() == old(self).mode(),
            old(self).mode() == CockpitMode::Direct ==> final(self).adapter() == old(self).adapter()
                && reply(r) == Err::<
                    CockpitOpenFocusModel,
                    CockpitErrorModel,
                >(refused("cockpit direct mode does not open a Herdr workspace"@)),
            old(self).mode() != CockpitMode::Direct ==> exists|
                found_by: &mut A,
                found: Result<CockpitWorkspaceRef, CockpitError>,
            |
                {
                    &&& *found_by == old(self).adapter()
                    &&& #[trigger] call_ensures(
                        A::open_or_focus_run_workspace,
                        (found_by, request),
                        found,
                    )
                    &&& match found {
                        Err(error) => *final(found_by) == final(self).adapter()
                            && reply(r) == Err::<CockpitOpenFocusModel, CockpitErrorModel>(error@),
                        Ok(workspace) => if workspace.existed {
                            *final(found_by) == final(self).adapter()
                                && exists|name: &'static str| #[trigger]
                                call_ensures(A::name, (&final(self).adapter(),), name)
                                    && reply(r) == Ok::<
                                        CockpitOpenFocusModel,
                                        CockpitErrorModel,
                                    >(run_focused(name@, old(self).mode(), request@))
                        } else {
                            exists|
                                inspected_by: &mut A,
                                inspected: Result<CockpitLayoutInspection, CockpitError>,
                            |
                                {
                                    &&& *inspected_by == *final(found_by)
                                    &&& #[trigger] call_ensures(
                                        A::inspect_layout,
                                        (inspected_by, &workspace),
                                        inspected,
                                    )
                                    &&& match inspected {
                                        Err(error) => *final(inspected_by) == final(self).adapter()
                                            && reply(r) == Err::<
                                                CockpitOpenFocusModel,
                                                CockpitErrorModel,
                                            >(error@),
                                        Ok(_) => exists|
                                            shown_by: &mut A,
                                            layout: &CockpitDashboardLayout,
                                            pane: &CockpitPaneRequest,
                                            shown: Result<CockpitPaneRef, CockpitError>,
                                        |
                                            {
                                                &&& *shown_by == *final(inspected_by)
                                                &&& layout@ == dashboard_layout()
                                                &&& pane@ == dashboard_request(request@)
                                                &&& #[trigger] call_ensures(
                                                    A::ensure_dashboard_pane,
                                                    (shown_by, &workspace, layout, pane),
                                                    shown,
                                                )
                                                &&& match shown {
                                                    Err(error) => *final(shown_by) == final(self).adapter()
                                                        && reply(r) == Err::<
                                                            CockpitOpenFocusModel,
                                                            CockpitErrorModel,
                                                        >(error@),
                                                    Ok(_) => *final(shown_by) == final(self).adapter()
                                                        && exists|name: &'static str| #[trigger]
                                                        call_ensures(
                                                            A::name,
                                                            (&final(self).adapter(),),
                                                            name,
                                                        )
                                                            && reply(r) == Ok::<
                                                                CockpitOpenFocusModel,
                                                                CockpitErrorModel,
                                                            >(run_opened_anew(name@, old(self).mode(), request@)),
                                                }
                                            },
                                    }
                                }
                        },
                    }
                },
    {
        if self.mode == CockpitMode::Direct {
            return Err(cockpit_error("cockpit direct mode does not open a Herdr workspace"));
        }
        let workspace = match self.adapter.open_or_focus_run_workspace(request) {
            Ok(workspace) => workspace,
            Err(error) => {
                return Err(error);
            },
        };
        if workspace.existed {
            let name = self.adapter.name();
            assert(call_ensures(A::name, (&self.adapter(),), name));
            let none: Vec<String> = Vec::new();
            assert(none.deep_view() =~= Seq::empty());
            let focused = CockpitOpenFocus {
                adapter: name.to_owned(),
                mode: self.mode,
                workspace_label: request.workspace_label.dup(),
                action: "focused_existing".to_owned(),
                pane_labels: none,
                message: "focused existing Herdr cockpit workspace".to_owned(),
            };
            assert(focused@ =~= run_focused(name@, self.mode(), request@));
            return Ok(focused);
        }
        match self.create_run_panes(&workspace, request) {
            Ok(()) => {},
            Err(error) => {
                return Err(error);
            },
        }
        let name = self.adapter.name();
        let pane_labels = dashboard_label();
        Ok(
            CockpitOpenFocus {
                adapter: name.to_owned(),
                mode: self.mode,
                workspace_label: request.workspace_label.dup(),
                action: "opened".to_owned(),
                pane_labels,
                message: "opened Herdr cockpit workspace backed by daemon monitor/status commands".to_owned(),
            },
        )
    }

    /// Opens the workspace, plans for one more worker than there are, and shows the dashboard.
    fn prepare_slot(&mut self, run_request: &CockpitRunRequest) -> (r: Result<
        (CockpitWorkspaceRef, CockpitLayoutPlan),
        CockpitError,
    >)
        ensures
            final(self).mode() == old(self).mode(),
            r matches Ok((workspace, plan)) ==> plan.worker_slots.len() > 0,
            exists|found_by: &mut A, found: Result<CockpitWorkspaceRef, CockpitError>|
                {
                    &&& *found_by == old(self).adapter()
                    &&& #[trigger] call_ensures(
                        A::open_or_focus_run_workspace,
                        (found_by, run_request),
                        found,
                    )
                    &&& match found {
                        Err(error) => *final(found_by) == final(self).adapter()
                            && prepared_reply(r) == Err::<
                                (CockpitWorkspaceRef, CockpitLayoutPlan),
                                CockpitErrorModel,
                            >(error@),
                        Ok(workspace) => exists|
                            inspected_by: &mut A,
                            inspected: Result<CockpitLayoutInspection, CockpitError>,
                        |
                            {
                                &&& *inspected_by == *final(found_by)
                                &&& #[trigger] call_ensures(
                                    A::inspect_layout,
                                    (inspected_by, &workspace),
                                    inspected,
                                )
                                &&& match inspected {
                                    Err(error) => *final(inspected_by) == final(self).adapter()
                                        && prepared_reply(r) == Err::<
                                            (CockpitWorkspaceRef, CockpitLayoutPlan),
                                            CockpitErrorModel,
                                        >(error@),
                                    Ok(inspection) => match next_plan(inspection) {
                                        Err(error) => *final(inspected_by) == final(self).adapter()
                                            && prepared_reply(r) == Err::<
                                                (CockpitWorkspaceRef, CockpitLayoutPlan),
                                                CockpitErrorModel,
                                            >(error),
                                        Ok(planned) => exists|
                                            shown_by: &mut A,
                                            layout: &CockpitDashboardLayout,
                                            pane: &CockpitPaneRequest,
                                            shown: Result<CockpitPaneRef, CockpitError>,
                                        |
                                            {
                                                &&& *shown_by == *final(inspected_by)
                                                &&& layout@ == dashboard_layout()
                                                &&& pane@ == dashboard_request(run_request@)
                                                &&& #[trigger] call_ensures(
                                                    A::ensure_dashboard_pane,
                                                    (shown_by, &workspace, layout, pane),
                                                    shown,
                                                )
                                                &&& match shown {
                                                    Err(error) => *final(shown_by) == final(self).adapter()
                                                        && prepared_reply(r) == Err::<
                                                            (CockpitWorkspaceRef, CockpitLayoutPlan),
                                                            CockpitErrorModel,
                                                        >(error@),
                                                    Ok(_) => {
                                                        &&& *final(shown_by) == final(self).adapter()
                                                        &&& r matches Ok((in_workspace, plan)) && in_workspace == workspace && plan@ == planned
                                                    },
                                                }
                                            },
                                    },
                                }
                            },
                    }
                },
    {
        let workspace = match self.adapter.open_or_focus_run_workspace(run_request) {
            Ok(workspace) => workspace,
            Err(error) => {
                return Err(error);
            },
        };
        let inspection = match self.adapter.inspect_layout(&workspace) {
            Ok(inspection) => inspection,
            Err(error) => {
                return Err(error);
            },
        };
        let workers: usize = inspection.worker_slot_count();
        let wanted: usize = if workers == usize::MAX {
            0
        } else {
            workers + 1
        };
        let planner = CockpitLayoutPlanner;
        let plan = match planner.plan(wanted) {
            Ok(plan) => plan,
            Err(error) => {
                return Err(error);
            },
        };
        let dashboard = self.dashboard_pane_request(run_request);
        match self.adapter.ensure_dashboard_pane(&workspace, &plan.dashboard, &dashboard) {
            Ok(_) => {
                assert(plan@.worker_slots.len() == plan.worker_slots.len());
                Ok((workspace, plan))
            },
            Err(error) => Err(error),
        }
    }

    /// Opens the pane of a worker, in the next place that is free: asks for the workspace, for its
    /// layout, for the dashboard, for the place to be cleared and for the pane, each once, until one
    /// fails. Where no place is free, the dashboard and what follows it are not asked for. Without a
    /// cockpit nothing is.
    pub fn open_worker_pane(
        &mut self,
        run_request: &CockpitRunRequest,
        worker_pane: &CockpitWorkerPaneRequest,
    ) -> (r: Result<CockpitWorkerLaunch, CockpitError>)
        ensures
            final(self).mode() == old(self).mode(),
            old(self).mode() == CockpitMode::Direct ==> final(self).adapter() == old(self).adapter()
                && reply(r) == Ok::<
                    CockpitWorkerLaunchModel,
                    CockpitErrorModel,
                >(CockpitWorkerLaunchModel::SkippedDirect),
            old(self).mode() != CockpitMode::Direct ==> exists|
                found_by: &mut A,
                found: Result<CockpitWorkspaceRef, CockpitError>,
            |
                {
                    &&& *found_by == old(self).adapter()
                    &&& #[trigger] call_ensures(
                        A::open_or_focus_run_workspace,
                        (found_by, run_request),
                        found,
                    )
                    &&& match found {
                        Err(error) => *final(found_by) == final(self).adapter()
                            && reply(r) == Err::<
                                CockpitWorkerLaunchModel,
                                CockpitErrorModel,
                            >(error@),
                        Ok(workspace) => exists|
                            inspected_by: &mut A,
                            inspected: Result<CockpitLayoutInspection, CockpitError>,
                        |
                            {
                                &&& *inspected_by == *final(found_by)
                                &&& #[trigger] call_ensures(
                                    A::inspect_layout,
                                    (inspected_by, &workspace),
                                    inspected,
                                )
                                &&& match inspected {
                                    Err(error) => *final(inspected_by) == final(self).adapter()
                                        && reply(r) == Err::<
                                            CockpitWorkerLaunchModel,
                                            CockpitErrorModel,
                                        >(error@),
                                    Ok(inspection) => match next_plan(inspection) {
                                        Err(error) => *final(inspected_by) == final(self).adapter()
                                            && reply(r) == Err::<
                                                CockpitWorkerLaunchModel,
                                                CockpitErrorModel,
                                            >(error),
                                        Ok(planned) => exists|
                                            shown_by: &mut A,
                                            layout: &CockpitDashboardLayout,
                                            pane: &CockpitPaneRequest,
                                            shown: Result<CockpitPaneRef, CockpitError>,
                                        |
                                            {
                                                &&& *shown_by == *final(inspected_by)
                                                &&& layout@ == dashboard_layout()
                                                &&& pane@ == dashboard_request(run_request@)
                                                &&& #[trigger] call_ensures(
                                                    A::ensure_dashboard_pane,
                                                    (shown_by, &workspace, layout, pane),
                                                    shown,
                                                )
                                                &&& match shown {
                                                    Err(error) => *final(shown_by) == final(self).adapter()
                                                        && reply(r) == Err::<
                                                            CockpitWorkerLaunchModel,
                                                            CockpitErrorModel,
                                                        >(error@),
                                                    Ok(_) => exists|
                                                        cleaned_by: &mut A,
                                                        plan: &CockpitLayoutPlan,
                                                        label: &str,
                                                        cleaned: Result<(), CockpitError>,
                                                    |
                                                        {
                                                            &&& *cleaned_by == *final(shown_by)
                                                            &&& plan@ == planned
                                                            &&& label@ == last_slot(*plan)@.pane_label(worker_request(worker_pane@).label)
                                                            &&& #[trigger] call_ensures(
                                                                A::cleanup_placeholder_root_pane,
                                                                (cleaned_by, &workspace, &last_slot(*plan), label),
                                                                cleaned,
                                                            )
                                                            &&& match cleaned {
                                                                Err(error) => *final(cleaned_by) == final(self).adapter()
                                                                    && reply(r) == Err::<
                                                                        CockpitWorkerLaunchModel,
                                                                        CockpitErrorModel,
                                                                    >(error@),
                                                                Ok(_) => exists|
                                                                    placed_by: &mut A,
                                                                    pane: &CockpitPaneRequest,
                                                                    placed: Result<CockpitWorkerPlacement, CockpitError>,
                                                                |
                                                                    {
                                                                        &&& *placed_by == *final(cleaned_by)
                                                                        &&& pane@ == worker_request(worker_pane@)
                                                                        &&& #[trigger] call_ensures(
                                                                            A::place_worker_slot_pane,
                                                                            (placed_by, &workspace, plan, &last_slot(*plan), pane),
                                                                            placed,
                                                                        )
                                                                        &&& match placed {
                                                                            Err(error) => *final(placed_by) == final(self).adapter()
                                                                                && reply(r) == Err::<
                                                                                    CockpitWorkerLaunchModel,
                                                                                    CockpitErrorModel,
                                                                                >(error@),
                                                                            Ok(placement) => *final(placed_by) == final(self).adapter()
                                                                                && exists|name: &'static str| #[trigger]
                                                                                call_ensures(
                                                                                    A::name,
                                                                                    (&final(self).adapter(),),
                                                                                    name,
                                                                                )
                                                                                    && reply(r) == Ok::<
                                                                                        CockpitWorkerLaunchModel,
                                                                                        CockpitErrorModel,
                                                                                    >(worker_opened(name@, old(self).mode(), run_request@, placement@)),
                                                                        }
                                                                    },
                                                            }
                                                        },
                                                }
                                            },
                                    },
                                }
                            },
                    }
                },
    {
        if self.mode == CockpitMode::Direct {
            return Ok(CockpitWorkerLaunch::SkippedDirect);
        }
        let (workspace, plan) = match self.prepare_slot(run_request) {
            Ok(prepared) => prepared,
            Err(error) => {
                return Err(error);
            },
        };
        let slot = &plan.worker_slots[plan.worker_slots.len() - 1];
        assert(*slot == last_slot(plan));
        let pane = CockpitPaneRequest {
            label: worker_pane_label(
                worker_pane.run_id.as_str(),
                worker_pane.slice_id.as_str(),
                worker_pane.attempt,
            ),
            command: worker_pane.command.dup(),
            cwd: worker_pane.cwd.dup(),
            env: worker_pane.env.dup(),
        };
        let stable_label = slot.pane_label(pane.label.as_str());
        match self.adapter.cleanup_placeholder_root_pane(&workspace, slot, stable_label.as_str()) {
            Ok(()) => {},
            Err(error) => {
                return Err(error);
            },
        }
        let placement = match self.adapter.place_worker_slot_pane(&workspace, &plan, slot, &pane) {
            Ok(placement) => placement,
            Err(error) => {
                return Err(error);
            },
        };
        let name = self.adapter.name();
        assert(call_ensures(A::name, (&self.adapter(),), name));
        let ghost placed = placement@;
        let opened = CockpitWorkerLaunch::Opened(
            CockpitWorkerOpened {
                adapter: name.to_owned(),
                mode: self.mode,
                workspace_label: run_request.workspace_label.dup(),
                pane_label: placement.pane_label,
                pane_id: placement.pane.id,
                slot_name: placement.slot_name,
                slot_index: placement.slot_index,
                slot_region: placement.slot_region,
            },
        );
        assert(opened@ == worker_opened(name@, self.mode(), run_request@, placed));
        Ok(opened)
    }

    /// Starts a worker in a terminal of its own, in the next place that is free: asks for the
    /// workspace, for its layout, for the dashboard and for the worker, each once, until one fails.
    /// Where no place is free, the dashboard and the worker are not asked for. Without a cockpit
    /// nothing is.
    pub fn open_tui_worker_agent(
        &mut self,
        run_request: &CockpitRunRequest,
        worker: &CockpitTuiWorkerRequest,
    ) -> (r: Result<CockpitTuiWorkerLaunch, CockpitError>)
        ensures
            final(self).mode() == old(self).mode(),
            old(self).mode() == CockpitMode::Direct ==> final(self).adapter() == old(self).adapter()
                && reply(r) == Ok::<
                    CockpitTuiWorkerLaunchModel,
                    CockpitErrorModel,
                >(CockpitTuiWorkerLaunchModel::SkippedDirect),
            old(self).mode() != CockpitMode::Direct ==> exists|
                found_by: &mut A,
                found: Result<CockpitWorkspaceRef, CockpitError>,
            |
                {
                    &&& *found_by == old(self).adapter()
                    &&& #[trigger] call_ensures(
                        A::open_or_focus_run_workspace,
                        (found_by, run_request),
                        found,
                    )
                    &&& match found {
                        Err(error) => *final(found_by) == final(self).adapter()
                            && reply(r) == Err::<
                                CockpitTuiWorkerLaunchModel,
                                CockpitErrorModel,
                            >(error@),
                        Ok(workspace) => exists|
                            inspected_by: &mut A,
                            inspected: Result<CockpitLayoutInspection, CockpitError>,
                        |
                            {
                                &&& *inspected_by == *final(found_by)
                                &&& #[trigger] call_ensures(
                                    A::inspect_layout,
                                    (inspected_by, &workspace),
                                    inspected,
                                )
                                &&& match inspected {
                                    Err(error) => *final(inspected_by) == final(self).adapter()
                                        && reply(r) == Err::<
                                            CockpitTuiWorkerLaunchModel,
                                            CockpitErrorModel,
                                        >(error@),
                                    Ok(inspection) => match next_plan(inspection) {
                                        Err(error) => *final(inspected_by) == final(self).adapter()
                                            && reply(r) == Err::<
                                                CockpitTuiWorkerLaunchModel,
                                                CockpitErrorModel,
                                            >(error),
                                        Ok(planned) => exists|
                                            shown_by: &mut A,
                                            layout: &CockpitDashboardLayout,
                                            pane: &CockpitPaneRequest,
                                            shown: Result<CockpitPaneRef, CockpitError>,
                                        |
                                            {
                                                &&& *shown_by == *final(inspected_by)
                                                &&& layout@ == dashboard_layout()
                                                &&& pane@ == dashboard_request(run_request@)
                                                &&& #[trigger] call_ensures(
                                                    A::ensure_dashboard_pane,
                                                    (shown_by, &workspace, layout, pane),
                                                    shown,
                                                )
                                                &&& match shown {
                                                    Err(error) => *final(shown_by) == final(self).adapter()
                                                        && reply(r) == Err::<
                                                            CockpitTuiWorkerLaunchModel,
                                                            CockpitErrorModel,
                                                        >(error@),
                                                    Ok(_) => exists|
                                                        started_by: &mut A,
                                                        plan: &CockpitLayoutPlan,
                                                        started: Result<CockpitTuiWorkerOpened, CockpitError>,
                                                    |
                                                        {
                                                            &&& *started_by == *final(shown_by)
                                                            &&& plan@ == planned
                                                            &&& #[trigger] call_ensures(
                                                                A::start_tui_worker_agent_in_slot,
                                                                (started_by, &workspace, plan, &last_slot(*plan), worker),
                                                                started,
                                                            )
                                                            &&& match started {
                                                                Err(error) => *final(started_by) == final(self).adapter()
                                                                    && reply(r) == Err::<
                                                                        CockpitTuiWorkerLaunchModel,
                                                                        CockpitErrorModel,
                                                                    >(error@),
                                                                Ok(opened) => *final(started_by) == final(self).adapter()
                                                                    && reply(r) == Ok::<
                                                                    CockpitTuiWorkerLaunchModel,
                                                                    CockpitErrorModel,
                                                                >(worker_started(old(self).mode(), run_request@, opened@)),
                                                            }
                                                        },
                                                }
                                            },
                                    },
                                }
                            },
                    }
                },
    {
        if self.mode == CockpitMode::Direct {
            return Ok(CockpitTuiWorkerLaunch::SkippedDirect);
        }
        let (workspace, plan) = match self.prepare_slot(run_request) {
            Ok(prepared) => prepared,
            Err(error) => {
                return Err(error);
            },
        };
        let slot = &plan.worker_slots[plan.worker_slots.len() - 1];
        assert(*slot == last_slot(plan));
        match self.adapter.start_tui_worker_agent_in_slot(&workspace, &plan, slot, worker) {
            Ok(opened) => {
                let mut opened = opened;
                opened.mode = self.mode;
                opened.workspace_label = run_request.workspace_label.dup();
                Ok(CockpitTuiWorkerLaunch::Opened(opened))
            },
            Err(error) => Err(error),
        }
    }

    /// Closes a pane, by one call. Without a cockpit nothing is asked of the adapter.
    pub fn close_pane(&mut self, pane_id: &str) -> (r: Result<(), CockpitError>)
        ensures
            final(self).mode() == old(self).mode(),
            old(self).mode() == CockpitMode::Direct ==> final(self).adapter() == old(self).adapter()
                && reply(r) == Err::<
                    (),
                    CockpitErrorModel,
                >(refused("cockpit direct mode does not close Herdr panes"@)),
            old(self).mode() != CockpitMode::Direct ==> exists|closed_by: &mut A|
                {
                    &&& *closed_by == old(self).adapter()
                    &&& *final(closed_by) == final(self).adapter()
                    &&& #[trigger] call_ensures(A::close_pane, (closed_by, pane_id), r)
                },
    {
        if self.mode == CockpitMode::Direct {
            return Err(cockpit_error("cockpit direct mode does not close Herdr panes"));
        }
        self.adapter.close_pane(pane_id)
    }

    /// Sends a message to an agent, by one call. Without a cockpit nothing is asked of the adapter.
    pub fn send_agent_message(&mut self, target: &str, text: &str) -> (r: Result<CockpitAgentMessageSent, CockpitError>)
        ensures
            final(self).mode() == old(self).mode(),
            old(self).mode() == CockpitMode::Direct ==> final(self).adapter() == old(self).adapter()
                && reply(r) == Err::<
                    CockpitAgentMessageSentModel,
                    CockpitErrorModel,
                >(refused("cockpit direct mode does not send Herdr agent messages"@)),
            old(self).mode() != CockpitMode::Direct ==> exists|
                sent_by: &mut A,
                sent: Result<(), CockpitError>,
            |
                {
                    &&& *sent_by == old(self).adapter()
                    &&& #[trigger] call_ensures(
                        A::send_agent_message,
                        (sent_by, target, text),
                        sent,
                    )
                    &&& match sent {
                        Err(error) => *final(sent_by) == final(self).adapter()
                            && reply(r) == Err::<
                                CockpitAgentMessageSentModel,
                                CockpitErrorModel,
                            >(error@),
                        Ok(_) => *final(sent_by) == final(self).adapter()
                            && exists|name: &'static str| #[trigger]
                            call_ensures(A::name, (&final(self).adapter(),), name)
                                && reply(r) == Ok::<
                                    CockpitAgentMessageSentModel,
                                    CockpitErrorModel,
                                >(
                                CockpitAgentMessageSentModel {
                                    adapter: name@,
                                    mode: old(self).mode(),
                                    target: target@,
                                    surface: "herdr agent send"@,
                                },
                            ),
                    }
                },
    {
        if self.mode == CockpitMode::Direct {
            return Err(cockpit_error("cockpit direct mode does not send Herdr agent messages"));
        }
        match self.adapter.send_agent_message(target, text) {
            Ok(()) => {},
            Err(error) => {
                return Err(error);
            },
        }
        let name = self.adapter.name();
        Ok(
            CockpitAgentMessageSent {
                adapter: name.to_owned(),
                mode: self.mode,
                target: target.to_owned(),
                surface: "herdr agent send".to_owned(),
            },
        )
    }

    /// Brings an agent to the front, by one call. Without a cockpit nothing is asked of the adapter.
    pub fn focus_agent(&mut self, target: &str) -> (r: Result<CockpitAgentFocused, CockpitError>)
        ensures
            final(self).mode() == old(self).mode(),
            old(self).mode() == CockpitMode::Direct ==> final(self).adapter() == old(self).adapter()
                && reply(r) == Err::<
                    CockpitAgentFocusedModel,
                    CockpitErrorModel,
                >(refused("cockpit direct mode does not focus Herdr agents"@)),
            old(self).mode() != CockpitMode::Direct ==> exists|
                focused_by: &mut A,
                focused: Result<(), CockpitError>,
            |
                {
                    &&& *focused_by == old(self).adapter()
                    &&& #[trigger] call_ensures(A::focus_agent, (focused_by, target), focused)
                    &&& match focused {
                        Err(error) => *final(focused_by) == final(self).adapter()
                            && reply(r) == Err::<
                                CockpitAgentFocusedModel,
                                CockpitErrorModel,
                            >(error@),
                        Ok(_) => *final(focused_by) == final(self).adapter()
                            && exists|name: &'static str| #[trigger]
                            call_ensures(A::name, (&final(self).adapter(),), name)
                                && reply(r) == Ok::<CockpitAgentFocusedModel, CockpitErrorModel>(
                                CockpitAgentFocusedModel {
                                    adapter: name@,
                                    mode: old(self).mode(),
                                    target: target@,
                                    surface: "herdr agent focus"@,
                                },
                            ),
                    }
                },
    {
        if self.mode == CockpitMode::Direct {
            return Err(cockpit_error("cockpit direct mode does not focus Herdr agents"));
        }
        match self.adapter.focus_agent(target) {
            Ok(()) => {},
            Err(error) => {
                return Err(error);
            },
        }
        let name = self.adapter.name();
        Ok(
            CockpitAgentFocused {
                adapter: name.to_owned(),
                mode: self.mode,
                target: target.to_owned(),
                surface: "herdr agent focus".to_owned(),
            },
        )
    }

    /// Gives an agent another name, by one call. Without a cockpit nothing is asked of the adapter.
    pub fn rename_agent(&mut self, target: &str, new_name: &str) -> (r: Result<CockpitAgentRenamed, CockpitError>)
        ensures
            final(self).mode() == old(self).mode(),
            old(self).mode() == CockpitMode::Direct ==> final(self).adapter() == old(self).adapter()
                && reply(r) == Err::<
                    CockpitAgentRenamedModel,
                    CockpitErrorModel,
                >(refused("cockpit direct mode does not rename Herdr agents"@)),
            old(self).mode() != CockpitMode::Direct ==> exists|
                renamed_by: &mut A,
                renamed: Result<(), CockpitError>,
            |
                {
                    &&& *renamed_by == old(self).adapter()
                    &&& #[trigger] call_ensures(
                        A::rename_agent,
                        (renamed_by, target, new_name),
                        renamed,
                    )
                    &&& match renamed {
                        Err(error) => *final(renamed_by) == final(self).adapter()
                            && reply(r) == Err::<
                                CockpitAgentRenamedModel,
                                CockpitErrorModel,
                            >(error@),
                        Ok(_) => *final(renamed_by) == final(self).adapter()
                            && exists|name: &'static str| #[trigger]
                            call_ensures(A::name, (&final(self).adapter(),), name)
                                && reply(r) == Ok::<CockpitAgentRenamedModel, CockpitErrorModel>(
                                CockpitAgentRenamedModel {
                                    adapter: name@,
                                    mode: old(self).mode(),
                                    target: target@,
                                    surface: "herdr agent rename"@,
                                },
                            ),
                    }
                },
    {
        if self.mode == CockpitMode::Direct {
            return Err(cockpit_error("cockpit direct mode does not rename Herdr agents"));
        }
        match self.adapter.rename_agent(target, new_name) {
            Ok(()) => {},
            Err(error) => {
                return Err(error);
            },
        }
        let name = self.adapter.name();
        Ok(
            CockpitAgentRenamed {
                adapter: name.to_owned(),
                mode: self.mode,
                target: target.to_owned(),
                surface: "herdr agent rename".to_owned(),
            },
        )
    }
}

/// What comes of the preparation of a place, with its error as it is told.
pub open spec fn prepared_reply(
    r: Result<(CockpitWorkspaceRef, CockpitLayoutPlan), CockpitError>,
) -> Result<(CockpitWorkspaceRef, CockpitLayoutPlan), CockpitErrorModel> {
    match r {
        Ok(prepared) => Ok(prepared),
        Err(error) => Err(error@),
    }
}

fn dashboard_label() -> (r: Vec<String>)
    ensures
        r.deep_view() == seq![RUN_STATUS_FEED_PANE@],
{
    let mut r: Vec<String> = Vec::new();
    r.push(RUN_STATUS_FEED_PANE.to_owned());
    assert(r.deep_view() =~= seq![RUN_STATUS_FEED_PANE@]);
    r
}

} // verus!
