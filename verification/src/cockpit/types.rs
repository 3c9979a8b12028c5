//! What the cockpit is asked for and what it answers.
use crate::domain::CockpitMode;
use crate::table::Row;
use vstd::prelude::*;

verus! {

/// Where a new pane stands beside the pane that it is split from.
#[derive(Debug, Clone, Copy, PartialEq, Eq, Structural)]
pub enum CockpitLayoutDirection {
    Right,
    Down,
}

impl DeepView for CockpitLayoutDirection {
    type V = CockpitLayoutDirection;

    open spec fn deep_view(&self) -> CockpitLayoutDirection {
        *self
    }
}

impl Row for CockpitLayoutDirection {
    fn dup(&self) -> (r: Self) {
        *self
    }

    fn same(&self, other: &Self) -> (r: bool) {
        *self == *other
    }
}

impl CockpitLayoutDirection {
    pub open spec fn text(self) -> Seq<char> {
        match self {
            CockpitLayoutDirection::Right => "right"@,
            CockpitLayoutDirection::Down => "down"@,
        }
    }

    pub fn as_herdr_arg(self) -> (r: &'static str)
        ensures
            r@ == self.text(),
    {
        match self {
            CockpitLayoutDirection::Right => "right",
            CockpitLayoutDirection::Down => "down",
        }
    }
}

/// Why the cockpit did not do what it was asked.
#[derive(Debug, Clone, PartialEq, Eq)]
pub struct CockpitError {
    pub message: String,
}

#[verifier::ext_equal]
pub struct CockpitErrorModel {
    pub message: Seq<char>,
}

impl DeepView for CockpitError {
    type V = CockpitErrorModel;

    open spec fn deep_view(&self) -> CockpitErrorModel {
        CockpitErrorModel {
            message: self.message.deep_view(),
        }
    }
}

impl View for CockpitError {
    type V = CockpitErrorModel;

    open spec fn view(&self) -> CockpitErrorModel {
        self.deep_view()
    }
}

impl Row for CockpitError {
    fn dup(&self) -> (r: Self) {
        CockpitError {
            message: self.message.dup(),
        }
    }

    fn same(&self, other: &Self) -> (r: bool) {
        self.message.same(&other.message)
    }
}

/// A variable of the environment of a pane.
#[derive(Debug, Clone, PartialEq, Eq)]
pub struct EnvVar {
    pub key: String,
    pub value: String,
}

#[verifier::ext_equal]
pub struct EnvVarModel {
    pub key: Seq<char>,
    pub value: Seq<char>,
}

impl DeepView for EnvVar {
    type V = EnvVarModel;

    open spec fn deep_view(&self) -> EnvVarModel {
        EnvVarModel {
            key: self.key.deep_view(),
            value: self.value.deep_view(),
        }
    }
}

impl View for EnvVar {
    type V = EnvVarModel;

    open spec fn view(&self) -> EnvVarModel {
        self.deep_view()
    }
}

impl Row for EnvVar {
    fn dup(&self) -> (r: Self) {
        EnvVar {
            key: self.key.dup(),
            value: self.value.dup(),
        }
    }

    fn same(&self, other: &Self) -> (r: bool) {
        self.key.same(&other.key)
            && self.value.same(&other.value)
    }
}

/// A request for the workspace of a run.
#[derive(Debug, Clone, PartialEq, Eq)]
pub struct CockpitRunRequest {
    pub repo_path: String,
    pub khazad_home: String,
    pub workspace_label: String,
    pub feed_command: String,
}

#[verifier::ext_equal]
pub struct CockpitRunRequestModel {
    pub repo_path: Seq<char>,
    pub khazad_home: Seq<char>,
    pub workspace_label: Seq<char>,
    pub feed_command: Seq<char>,
}

impl DeepView for CockpitRunRequest {
    type V = CockpitRunRequestModel;

    open spec fn deep_view(&self) -> CockpitRunRequestModel {
        CockpitRunRequestModel {
            repo_path: self.repo_path.deep_view(),
            khazad_home: self.khazad_home.deep_view(),
            workspace_label: self.workspace_label.deep_view(),
            feed_command: self.feed_command.deep_view(),
        }
    }
}

impl View for CockpitRunRequest {
    type V = CockpitRunRequestModel;

    open spec fn view(&self) -> CockpitRunRequestModel {
        self.deep_view()
    }
}

impl Row for CockpitRunRequest {
    fn dup(&self) -> (r: Self) {
        CockpitRunRequest {
            repo_path: self.repo_path.dup(),
            khazad_home: self.khazad_home.dup(),
            workspace_label: self.workspace_label.dup(),
            feed_command: self.feed_command.dup(),
        }
    }

    fn same(&self, other: &Self) -> (r: bool) {
        self.repo_path.same(&other.repo_path)
            && self.khazad_home.same(&other.khazad_home)
            && self.workspace_label.same(&other.workspace_label)
            && self.feed_command.same(&other.feed_command)
    }
}

/// A request for a pane.
#[derive(Debug, Clone, PartialEq, Eq)]
pub struct CockpitPaneRequest {
    pub label: String,
    pub command: String,
    pub cwd: String,
    pub env: Vec<EnvVar>,
}

#[verifier::ext_equal]
pub struct CockpitPaneRequestModel {
    pub label: Seq<char>,
    pub command: Seq<char>,
    pub cwd: Seq<char>,
    pub env: Seq<EnvVarModel>,
}

impl DeepView for CockpitPaneRequest {
    type V = CockpitPaneRequestModel;

    open spec fn deep_view(&self) -> CockpitPaneRequestModel {
        CockpitPaneRequestModel {
            label: self.label.deep_view(),
            command: self.command.deep_view(),
            cwd: self.cwd.deep_view(),
            env: self.env.deep_view(),
        }
    }
}

impl View for CockpitPaneRequest {
    type V = CockpitPaneRequestModel;

    open spec fn view(&self) -> CockpitPaneRequestModel {
        self.deep_view()
    }
}

impl Row for CockpitPaneRequest {
    fn dup(&self) -> (r: Self) {
        CockpitPaneRequest {
            label: self.label.dup(),
            command: self.command.dup(),
            cwd: self.cwd.dup(),
            env: self.env.dup(),
        }
    }

    fn same(&self, other: &Self) -> (r: bool) {
        self.label.same(&other.label)
            && self.command.same(&other.command)
            && self.cwd.same(&other.cwd)
            && self.env.same(&other.env)
    }
}

/// A request for the pane of a worker.
#[derive(Debug, Clone, PartialEq, Eq)]
pub struct CockpitWorkerPaneRequest {
    pub run_id: String,
    pub slice_id: String,
    pub attempt: usize,
    pub command: String,
    pub cwd: String,
    pub env: Vec<EnvVar>,
}

#[verifier::ext_equal]
pub struct CockpitWorkerPaneRequestModel {
    pub run_id: Seq<char>,
    pub slice_id: Seq<char>,
    pub attempt: usize,
    pub command: Seq<char>,
    pub cwd: Seq<char>,
    pub env: Seq<EnvVarModel>,
}

impl DeepView for CockpitWorkerPaneRequest {
    type V = CockpitWorkerPaneRequestModel;

    open spec fn deep_view(&self) -> CockpitWorkerPaneRequestModel {
        CockpitWorkerPaneRequestModel {
            run_id: self.run_id.deep_view(),
            slice_id: self.slice_id.deep_view(),
            attempt: self.attempt.deep_view(),
            command: self.command.deep_view(),
            cwd: self.cwd.deep_view(),
            env: self.env.deep_view(),
        }
    }
}

impl View for CockpitWorkerPaneRequest {
    type V = CockpitWorkerPaneRequestModel;

    open spec fn view(&self) -> CockpitWorkerPaneRequestModel {
        self.deep_view()
    }
}

impl Row for CockpitWorkerPaneRequest {
    fn dup(&self) -> (r: Self) {
        CockpitWorkerPaneRequest {
            run_id: self.run_id.dup(),
            slice_id: self.slice_id.dup(),
            attempt: self.attempt.dup(),
            command: self.command.dup(),
            cwd: self.cwd.dup(),
            env: self.env.dup(),
        }
    }

    fn same(&self, other: &Self) -> (r: bool) {
        self.run_id.same(&other.run_id)
            && self.slice_id.same(&other.slice_id)
            && self.attempt.same(&other.attempt)
            && self.command.same(&other.command)
            && self.cwd.same(&other.cwd)
            && self.env.same(&other.env)
    }
}

/// A request for a worker that runs in a terminal of its own.
#[derive(Debug, Clone, PartialEq, Eq)]
pub struct CockpitTuiWorkerRequest {
    pub run_id: String,
    pub slice_id: String,
    pub attempt: usize,
    pub name: String,
    pub argv: Vec<String>,
    pub cwd: String,
    pub env: Vec<EnvVar>,
}

#[verifier::ext_equal]
pub struct CockpitTuiWorkerRequestModel {
    pub run_id: Seq<char>,
    pub slice_id: Seq<char>,
    pub attempt: usize,
    pub name: Seq<char>,
    pub argv: Seq<Seq<char>>,
    pub cwd: Seq<char>,
    pub env: Seq<EnvVarModel>,
}

impl DeepView for CockpitTuiWorkerRequest {
    type V = CockpitTuiWorkerRequestModel;

    open spec fn deep_view(&self) -> CockpitTuiWorkerRequestModel {
        CockpitTuiWorkerRequestModel {
            run_id: self.run_id.deep_view(),
            slice_id: self.slice_id.deep_view(),
            attempt: self.attempt.deep_view(),
            name: self.name.deep_view(),
            argv: self.argv.deep_view(),
            cwd: self.cwd.deep_view(),
            env: self.env.deep_view(),
        }
    }
}

impl View for CockpitTuiWorkerRequest {
    type V = CockpitTuiWorkerRequestModel;

    open spec fn view(&self) -> CockpitTuiWorkerRequestModel {
        self.deep_view()
    }
}

impl Row for CockpitTuiWorkerRequest {
    fn dup(&self) -> (r: Self) {
        CockpitTuiWorkerRequest {
            run_id: self.run_id.dup(),
            slice_id: self.slice_id.dup(),
            attempt: self.attempt.dup(),
            name: self.name.dup(),
            argv: self.argv.dup(),
            cwd: self.cwd.dup(),
            env: self.env.dup(),
        }
    }

    fn same(&self, other: &Self) -> (r: bool) {
        self.run_id.same(&other.run_id)
            && self.slice_id.same(&other.slice_id)
            && self.attempt.same(&other.attempt)
            && self.name.same(&other.name)
            && self.argv.same(&other.argv)
            && self.cwd.same(&other.cwd)
            && self.env.same(&other.env)
    }
}

/// A pane.
#[derive(Debug, Clone, PartialEq, Eq)]
pub struct CockpitPaneRef {
    pub id: String,
}

#[verifier::ext_equal]
pub struct CockpitPaneRefModel {
    pub id: Seq<char>,
}

impl DeepView for CockpitPaneRef {
    type V = CockpitPaneRefModel;

    open spec fn deep_view(&self) -> CockpitPaneRefModel {
        CockpitPaneRefModel {
            id: self.id.deep_view(),
        }
    }
}

impl View for CockpitPaneRef {
    type V = CockpitPaneRefModel;

    open spec fn view(&self) -> CockpitPaneRefModel {
        self.deep_view()
    }
}

impl Row for CockpitPaneRef {
    fn dup(&self) -> (r: Self) {
        CockpitPaneRef {
            id: self.id.dup(),
        }
    }

    fn same(&self, other: &Self) -> (r: bool) {
        self.id.same(&other.id)
    }
}

/// A workspace, and the pane that it was created with.
#[derive(Debug, Clone, PartialEq, Eq)]
pub struct CockpitWorkspaceRef {
    pub id: String,
    pub anchor_pane: Option<CockpitPaneRef>,
    pub existed: bool,
}

#[verifier::ext_equal]
pub struct CockpitWorkspaceRefModel {
    pub id: Seq<char>,
    pub anchor_pane: Option<CockpitPaneRefModel>,
    pub existed: bool,
}

impl DeepView for CockpitWorkspaceRef {
    type V = CockpitWorkspaceRefModel;

    open spec fn deep_view(&self) -> CockpitWorkspaceRefModel {
        CockpitWorkspaceRefModel {
            id: self.id.deep_view(),
            anchor_pane: self.anchor_pane.deep_view(),
            existed: self.existed.deep_view(),
        }
    }
}

impl View for CockpitWorkspaceRef {
    type V = CockpitWorkspaceRefModel;

    open spec fn view(&self) -> CockpitWorkspaceRefModel {
        self.deep_view()
    }
}

impl Row for CockpitWorkspaceRef {
    fn dup(&self) -> (r: Self) {
        CockpitWorkspaceRef {
            id: self.id.dup(),
            anchor_pane: self.anchor_pane.dup(),
            existed: self.existed.dup(),
        }
    }

    fn same(&self, other: &Self) -> (r: bool) {
        self.id.same(&other.id)
            && self.anchor_pane.same(&other.anchor_pane)
            && self.existed.same(&other.existed)
    }
}

/// Where the dashboard stands.
#[derive(Debug, Clone, PartialEq, Eq)]
pub struct CockpitDashboardLayout {
    pub name: String,
    pub region: String,
    pub split_from_slot: String,
    pub direction: CockpitLayoutDirection,
    pub ratio: String,
}

#[verifier::ext_equal]
pub struct CockpitDashboardLayoutModel {
    pub name: Seq<char>,
    pub region: Seq<char>,
    pub split_from_slot: Seq<char>,
    pub direction: CockpitLayoutDirection,
    pub ratio: Seq<char>,
}

impl DeepView for CockpitDashboardLayout {
    type V = CockpitDashboardLayoutModel;

    open spec fn deep_view(&self) -> CockpitDashboardLayoutModel {
        CockpitDashboardLayoutModel {
            name: self.name.deep_view(),
            region: self.region.deep_view(),
            split_from_slot: self.split_from_slot.deep_view(),
            direction: self.direction.deep_view(),
            ratio: self.ratio.deep_view(),
        }
    }
}

impl View for CockpitDashboardLayout {
    type V = CockpitDashboardLayoutModel;

    open spec fn view(&self) -> CockpitDashboardLayoutModel {
        self.deep_view()
    }
}

impl Row for CockpitDashboardLayout {
    fn dup(&self) -> (r: Self) {
        CockpitDashboardLayout {
            name: self.name.dup(),
            region: self.region.dup(),
            split_from_slot: self.split_from_slot.dup(),
            direction: self.direction.dup(),
            ratio: self.ratio.dup(),
        }
    }

    fn same(&self, other: &Self) -> (r: bool) {
        self.name.same(&other.name)
            && self.region.same(&other.region)
            && self.split_from_slot.same(&other.split_from_slot)
            && self.direction.same(&other.direction)
            && self.ratio.same(&other.ratio)
    }
}

/// How the pane of a worker is split off.
#[derive(Debug, Clone, PartialEq, Eq)]
pub struct CockpitWorkerSplit {
    pub anchor_slot: String,
    pub direction: CockpitLayoutDirection,
    pub ratio: String,
}

#[verifier::ext_equal]
pub struct CockpitWorkerSplitModel {
    pub anchor_slot: Seq<char>,
    pub direction: CockpitLayoutDirection,
    pub ratio: Seq<char>,
}

impl DeepView for CockpitWorkerSplit {
    type V = CockpitWorkerSplitModel;

    open spec fn deep_view(&self) -> CockpitWorkerSplitModel {
        CockpitWorkerSplitModel {
            anchor_slot: self.anchor_slot.deep_view(),
            direction: self.direction.deep_view(),
            ratio: self.ratio.deep_view(),
        }
    }
}

impl View for CockpitWorkerSplit {
    type V = CockpitWorkerSplitModel;

    open spec fn view(&self) -> CockpitWorkerSplitModel {
        self.deep_view()
    }
}

impl Row for CockpitWorkerSplit {
    fn dup(&self) -> (r: Self) {
        CockpitWorkerSplit {
            anchor_slot: self.anchor_slot.dup(),
            direction: self.direction.dup(),
            ratio: self.ratio.dup(),
        }
    }

    fn same(&self, other: &Self) -> (r: bool) {
        self.anchor_slot.same(&other.anchor_slot)
            && self.direction.same(&other.direction)
            && self.ratio.same(&other.ratio)
    }
}

/// A place for the pane of a worker.
#[derive(Debug, Clone, PartialEq, Eq)]
pub struct CockpitWorkerSlot {
    pub index: usize,
    pub name: String,
    pub region: String,
    pub split: Option<CockpitWorkerSplit>,
}

#[verifier::ext_equal]
pub struct CockpitWorkerSlotModel {
    pub index: usize,
    pub name: Seq<char>,
    pub region: Seq<char>,
    pub split: Option<CockpitWorkerSplitModel>,
}

impl DeepView for CockpitWorkerSlot {
    type V = CockpitWorkerSlotModel;

    open spec fn deep_view(&self) -> CockpitWorkerSlotModel {
        CockpitWorkerSlotModel {
            index: self.index.deep_view(),
            name: self.name.deep_view(),
            region: self.region.deep_view(),
            split: self.split.deep_view(),
        }
    }
}

impl View for CockpitWorkerSlot {
    type V = CockpitWorkerSlotModel;

    open spec fn view(&self) -> CockpitWorkerSlotModel {
        self.deep_view()
    }
}

impl Row for CockpitWorkerSlot {
    fn dup(&self) -> (r: Self) {
        CockpitWorkerSlot {
            index: self.index.dup(),
            name: self.name.dup(),
            region: self.region.dup(),
            split: self.split.dup(),
        }
    }

    fn same(&self, other: &Self) -> (r: bool) {
        self.index.same(&other.index)
            && self.name.same(&other.name)
            && self.region.same(&other.region)
            && self.split.same(&other.split)
    }
}

/// The places of the dashboard and of the workers.
#[derive(Debug, Clone, PartialEq, Eq)]
pub struct CockpitLayoutPlan {
    pub worker_count: usize,
    pub dashboard: CockpitDashboardLayout,
    pub worker_slots: Vec<CockpitWorkerSlot>,
}

#[verifier::ext_equal]
pub struct CockpitLayoutPlanModel {
    pub worker_count: usize,
    pub dashboard: CockpitDashboardLayoutModel,
    pub worker_slots: Seq<CockpitWorkerSlotModel>,
}

impl DeepView for CockpitLayoutPlan {
    type V = CockpitLayoutPlanModel;

    open spec fn deep_view(&self) -> CockpitLayoutPlanModel {
        CockpitLayoutPlanModel {
            worker_count: self.worker_count.deep_view(),
            dashboard: self.dashboard.deep_view(),
            worker_slots: self.worker_slots.deep_view(),
        }
    }
}

impl View for CockpitLayoutPlan {
    type V = CockpitLayoutPlanModel;

    open spec fn view(&self) -> CockpitLayoutPlanModel {
        self.deep_view()
    }
}

impl Row for CockpitLayoutPlan {
    fn dup(&self) -> (r: Self) {
        CockpitLayoutPlan {
            worker_count: self.worker_count.dup(),
            dashboard: self.dashboard.dup(),
            worker_slots: self.worker_slots.dup(),
        }
    }

    fn same(&self, other: &Self) -> (r: bool) {
        self.worker_count.same(&other.worker_count)
            && self.dashboard.same(&other.dashboard)
            && self.worker_slots.same(&other.worker_slots)
    }
}

/// A pane as it is found in a workspace.
#[derive(Debug, Clone, PartialEq, Eq)]
pub struct CockpitLayoutPane {
    pub id: String,
    pub label: String,
    pub tab_id: String,
}

#[verifier::ext_equal]
pub struct CockpitLayoutPaneModel {
    pub id: Seq<char>,
    pub label: Seq<char>,
    pub tab_id: Seq<char>,
}

impl DeepView for CockpitLayoutPane {
    type V = CockpitLayoutPaneModel;

    open spec fn deep_view(&self) -> CockpitLayoutPaneModel {
        CockpitLayoutPaneModel {
            id: self.id.deep_view(),
            label: self.label.deep_view(),
            tab_id: self.tab_id.deep_view(),
        }
    }
}

impl View for CockpitLayoutPane {
    type V = CockpitLayoutPaneModel;

    open spec fn view(&self) -> CockpitLayoutPaneModel {
        self.deep_view()
    }
}

impl Row for CockpitLayoutPane {
    fn dup(&self) -> (r: Self) {
        CockpitLayoutPane {
            id: self.id.dup(),
            label: self.label.dup(),
            tab_id: self.tab_id.dup(),
        }
    }

    fn same(&self, other: &Self) -> (r: bool) {
        self.id.same(&other.id)
            && self.label.same(&other.label)
            && self.tab_id.same(&other.tab_id)
    }
}

/// The panes of a workspace, and the one that new panes are split from.
#[derive(Debug, Clone, PartialEq, Eq)]
pub struct CockpitLayoutInspection {
    pub root_pane_id: Option<String>,
    pub panes: Vec<CockpitLayoutPane>,
}

#[verifier::ext_equal]
pub struct CockpitLayoutInspectionModel {
    pub root_pane_id: Option<Seq<char>>,
    pub panes: Seq<CockpitLayoutPaneModel>,
}

impl DeepView for CockpitLayoutInspection {
    type V = CockpitLayoutInspectionModel;

    open spec fn deep_view(&self) -> CockpitLayoutInspectionModel {
        CockpitLayoutInspectionModel {
            root_pane_id: self.root_pane_id.deep_view(),
            panes: self.panes.deep_view(),
        }
    }
}

impl View for CockpitLayoutInspection {
    type V = CockpitLayoutInspectionModel;

    open spec fn view(&self) -> CockpitLayoutInspectionModel {
        self.deep_view()
    }
}

impl Row for CockpitLayoutInspection {
    fn dup(&self) -> (r: Self) {
        CockpitLayoutInspection {
            root_pane_id: self.root_pane_id.dup(),
            panes: self.panes.dup(),
        }
    }

    fn same(&self, other: &Self) -> (r: bool) {
        self.root_pane_id.same(&other.root_pane_id)
            && self.panes.same(&other.panes)
    }
}

impl Default for CockpitLayoutInspection {
    fn default() -> (r: Self)
        ensures
            r@ == CockpitLayoutInspectionModel::empty(),
    {
        let r = CockpitLayoutInspection {
            root_pane_id: None,
            panes: Vec::new(),
        };
        assert(r@ =~= CockpitLayoutInspectionModel::empty());
        r
    }
}

impl CockpitLayoutInspectionModel {
    /// All texts and lists empty, all numbers zero, all flags off.
    pub open spec fn empty() -> CockpitLayoutInspectionModel {
        CockpitLayoutInspectionModel {
            root_pane_id: None,
            panes: Seq::empty(),
        }
    }
}

/// The pane that makes way for the first worker.
#[derive(Debug, Clone, PartialEq, Eq)]
pub struct CockpitSlotOneTarget {
    pub pane_id: String,
    pub tab_id: String,
    pub close_after_move: bool,
}

#[verifier::ext_equal]
pub struct CockpitSlotOneTargetModel {
    pub pane_id: Seq<char>,
    pub tab_id: Seq<char>,
    pub close_after_move: bool,
}

impl DeepView for CockpitSlotOneTarget {
    type V = CockpitSlotOneTargetModel;

    open spec fn deep_view(&self) -> CockpitSlotOneTargetModel {
        CockpitSlotOneTargetModel {
            pane_id: self.pane_id.deep_view(),
            tab_id: self.tab_id.deep_view(),
            close_after_move: self.close_after_move.deep_view(),
        }
    }
}

impl View for CockpitSlotOneTarget {
    type V = CockpitSlotOneTargetModel;

    open spec fn view(&self) -> CockpitSlotOneTargetModel {
        self.deep_view()
    }
}

impl Row for CockpitSlotOneTarget {
    fn dup(&self) -> (r: Self) {
        CockpitSlotOneTarget {
            pane_id: self.pane_id.dup(),
            tab_id: self.tab_id.dup(),
            close_after_move: self.close_after_move.dup(),
        }
    }

    fn same(&self, other: &Self) -> (r: bool) {
        self.pane_id.same(&other.pane_id)
            && self.tab_id.same(&other.tab_id)
            && self.close_after_move.same(&other.close_after_move)
    }
}

/// Where the pane of a worker was placed.
#[derive(Debug, Clone, PartialEq, Eq)]
pub struct CockpitWorkerPlacement {
    pub pane: CockpitPaneRef,
    pub slot_name: String,
    pub slot_index: usize,
    pub slot_region: String,
    pub pane_label: String,
}

#[verifier::ext_equal]
pub struct CockpitWorkerPlacementModel {
    pub pane: CockpitPaneRefModel,
    pub slot_name: Seq<char>,
    pub slot_index: usize,
    pub slot_region: Seq<char>,
    pub pane_label: Seq<char>,
}

impl DeepView for CockpitWorkerPlacement {
    type V = CockpitWorkerPlacementModel;

    open spec fn deep_view(&self) -> CockpitWorkerPlacementModel {
        CockpitWorkerPlacementModel {
            pane: self.pane.deep_view(),
            slot_name: self.slot_name.deep_view(),
            slot_index: self.slot_index.deep_view(),
            slot_region: self.slot_region.deep_view(),
            pane_label: self.pane_label.deep_view(),
        }
    }
}

impl View for CockpitWorkerPlacement {
    type V = CockpitWorkerPlacementModel;

    open spec fn view(&self) -> CockpitWorkerPlacementModel {
        self.deep_view()
    }
}

impl Row for CockpitWorkerPlacement {
    fn dup(&self) -> (r: Self) {
        CockpitWorkerPlacement {
            pane: self.pane.dup(),
            slot_name: self.slot_name.dup(),
            slot_index: self.slot_index.dup(),
            slot_region: self.slot_region.dup(),
            pane_label: self.pane_label.dup(),
        }
    }

    fn same(&self, other: &Self) -> (r: bool) {
        self.pane.same(&other.pane)
            && self.slot_name.same(&other.slot_name)
            && self.slot_index.same(&other.slot_index)
            && self.slot_region.same(&other.slot_region)
            && self.pane_label.same(&other.pane_label)
    }
}

/// A workspace that was opened.
#[derive(Debug, Clone, PartialEq, Eq)]
pub struct CockpitOpened {
    pub adapter: String,
    pub mode: CockpitMode,
    pub workspace_label: String,
    pub pane_labels: Vec<String>,
}

#[verifier::ext_equal]
pub struct CockpitOpenedModel {
    pub adapter: Seq<char>,
    pub mode: CockpitMode,
    pub workspace_label: Seq<char>,
    pub pane_labels: Seq<Seq<char>>,
}

impl DeepView for CockpitOpened {
    type V = CockpitOpenedModel;

    open spec fn deep_view(&self) -> CockpitOpenedModel {
        CockpitOpenedModel {
            adapter: self.adapter.deep_view(),
            mode: self.mode.deep_view(),
            workspace_label: self.workspace_label.deep_view(),
            pane_labels: self.pane_labels.deep_view(),
        }
    }
}

impl View for CockpitOpened {
    type V = CockpitOpenedModel;

    open spec fn view(&self) -> CockpitOpenedModel {
        self.deep_view()
    }
}

impl Row for CockpitOpened {
    fn dup(&self) -> (r: Self) {
        CockpitOpened {
            adapter: self.adapter.dup(),
            mode: self.mode.dup(),
            workspace_label: self.workspace_label.dup(),
            pane_labels: self.pane_labels.dup(),
        }
    }

    fn same(&self, other: &Self) -> (r: bool) {
        self.adapter.same(&other.adapter)
            && self.mode.same(&other.mode)
            && self.workspace_label.same(&other.workspace_label)
            && self.pane_labels.same(&other.pane_labels)
    }
}

/// What the opening of a workspace gave.
#[derive(Debug, Clone, PartialEq, Eq)]
pub enum CockpitLaunch {
    Opened(CockpitOpened),
    SkippedDirect,
}

#[verifier::ext_equal]
pub enum CockpitLaunchModel {
    Opened(CockpitOpenedModel),
    SkippedDirect,
}

impl DeepView for CockpitLaunch {
    type V = CockpitLaunchModel;

    open spec fn deep_view(&self) -> CockpitLaunchModel {
        match self {
            CockpitLaunch::Opened(value) => CockpitLaunchModel::Opened(value.deep_view()),
            CockpitLaunch::SkippedDirect => CockpitLaunchModel::SkippedDirect,
        }
    }
}

impl View for CockpitLaunch {
    type V = CockpitLaunchModel;

    open spec fn view(&self) -> CockpitLaunchModel {
        self.deep_view()
    }
}

impl Row for CockpitLaunch {
    fn dup(&self) -> (r: Self) {
        match self {
            CockpitLaunch::Opened(value) => CockpitLaunch::Opened(value.dup()),
            CockpitLaunch::SkippedDirect => CockpitLaunch::SkippedDirect,
        }
    }

    fn same(&self, other: &Self) -> (r: bool) {
        match (self, other) {
            (CockpitLaunch::Opened(a), CockpitLaunch::Opened(b)) => a.same(b),
            (CockpitLaunch::SkippedDirect, CockpitLaunch::SkippedDirect) => true,
            _ => false,
        }
    }
}

/// A workspace that was opened or brought to the front.
#[derive(Debug, Clone, PartialEq, Eq)]
pub struct CockpitOpenFocus {
    pub adapter: String,
    pub mode: CockpitMode,
    pub workspace_label: String,
    pub action: String,
    pub pane_labels: Vec<String>,
    pub message: String,
}

#[verifier::ext_equal]
pub struct CockpitOpenFocusModel {
    pub adapter: Seq<char>,
    pub mode: CockpitMode,
    pub workspace_label: Seq<char>,
    pub action: Seq<char>,
    pub pane_labels: Seq<Seq<char>>,
    pub message: Seq<char>,
}

impl DeepView for CockpitOpenFocus {
    type V = CockpitOpenFocusModel;

    open spec fn deep_view(&self) -> CockpitOpenFocusModel {
        CockpitOpenFocusModel {
            adapter: self.adapter.deep_view(),
            mode: self.mode.deep_view(),
            workspace_label: self.workspace_label.deep_view(),
            action: self.action.deep_view(),
            pane_labels: self.pane_labels.deep_view(),
            message: self.message.deep_view(),
        }
    }
}

impl View for CockpitOpenFocus {
    type V = CockpitOpenFocusModel;

    open spec fn view(&self) -> CockpitOpenFocusModel {
        self.deep_view()
    }
}

impl Row for CockpitOpenFocus {
    fn dup(&self) -> (r: Self) {
        CockpitOpenFocus {
            adapter: self.adapter.dup(),
            mode: self.mode.dup(),
            workspace_label: self.workspace_label.dup(),
            action: self.action.dup(),
            pane_labels: self.pane_labels.dup(),
            message: self.message.dup(),
        }
    }

    fn same(&self, other: &Self) -> (r: bool) {
        self.adapter.same(&other.adapter)
            && self.mode.same(&other.mode)
            && self.workspace_label.same(&other.workspace_label)
            && self.action.same(&other.action)
            && self.pane_labels.same(&other.pane_labels)
            && self.message.same(&other.message)
    }
}

/// The pane of a worker that was opened.
#[derive(Debug, Clone, PartialEq, Eq)]
pub struct CockpitWorkerOpened {
    pub adapter: String,
    pub mode: CockpitMode,
    pub workspace_label: String,
    pub pane_label: String,
    pub pane_id: String,
    pub slot_name: String,
    pub slot_index: usize,
    pub slot_region: String,
}

#[verifier::ext_equal]
pub struct CockpitWorkerOpenedModel {
    pub adapter: Seq<char>,
    pub mode: CockpitMode,
    pub workspace_label: Seq<char>,
    pub pane_label: Seq<char>,
    pub pane_id: Seq<char>,
    pub slot_name: Seq<char>,
    pub slot_index: usize,
    pub slot_region: Seq<char>,
}

impl DeepView for CockpitWorkerOpened {
    type V = CockpitWorkerOpenedModel;

    open spec fn deep_view(&self) -> CockpitWorkerOpenedModel {
        CockpitWorkerOpenedModel {
            adapter: self.adapter.deep_view(),
            mode: self.mode.deep_view(),
            workspace_label: self.workspace_label.deep_view(),
            pane_label: self.pane_label.deep_view(),
            pane_id: self.pane_id.deep_view(),
            slot_name: self.slot_name.deep_view(),
            slot_index: self.slot_index.deep_view(),
            slot_region: self.slot_region.deep_view(),
        }
    }
}

impl View for CockpitWorkerOpened {
    type V = CockpitWorkerOpenedModel;

    open spec fn view(&self) -> CockpitWorkerOpenedModel {
        self.deep_view()
    }
}

impl Row for CockpitWorkerOpened {
    fn dup(&self) -> (r: Self) {
        CockpitWorkerOpened {
            adapter: self.adapter.dup(),
            mode: self.mode.dup(),
            workspace_label: self.workspace_label.dup(),
            pane_label: self.pane_label.dup(),
            pane_id: self.pane_id.dup(),
            slot_name: self.slot_name.dup(),
            slot_index: self.slot_index.dup(),
            slot_region: self.slot_region.dup(),
        }
    }

    fn same(&self, other: &Self) -> (r: bool) {
        self.adapter.same(&other.adapter)
            && self.mode.same(&other.mode)
            && self.workspace_label.same(&other.workspace_label)
            && self.pane_label.same(&other.pane_label)
            && self.pane_id.same(&other.pane_id)
            && self.slot_name.same(&other.slot_name)
            && self.slot_index.same(&other.slot_index)
            && self.slot_region.same(&other.slot_region)
    }
}

/// What the opening of a worker pane gave.
#[derive(Debug, Clone, PartialEq, Eq)]
pub enum CockpitWorkerLaunch {
    Opened(CockpitWorkerOpened),
    SkippedDirect,
}

#[verifier::ext_equal]
pub enum CockpitWorkerLaunchModel {
    Opened(CockpitWorkerOpenedModel),
    SkippedDirect,
}

impl DeepView for CockpitWorkerLaunch {
    type V = CockpitWorkerLaunchModel;

    open spec fn deep_view(&self) -> CockpitWorkerLaunchModel {
        match self {
            CockpitWorkerLaunch::Opened(value) => CockpitWorkerLaunchModel::Opened(value.deep_view()),
            CockpitWorkerLaunch::SkippedDirect => CockpitWorkerLaunchModel::SkippedDirect,
        }
    }
}

impl View for CockpitWorkerLaunch {
    type V = CockpitWorkerLaunchModel;

    open spec fn view(&self) -> CockpitWorkerLaunchModel {
        self.deep_view()
    }
}

impl Row for CockpitWorkerLaunch {
    fn dup(&self) -> (r: Self) {
        match self {
            CockpitWorkerLaunch::Opened(value) => CockpitWorkerLaunch::Opened(value.dup()),
            CockpitWorkerLaunch::SkippedDirect => CockpitWorkerLaunch::SkippedDirect,
        }
    }

    fn same(&self, other: &Self) -> (r: bool) {
        match (self, other) {
            (CockpitWorkerLaunch::Opened(a), CockpitWorkerLaunch::Opened(b)) => a.same(b),
            (CockpitWorkerLaunch::SkippedDirect, CockpitWorkerLaunch::SkippedDirect) => true,
            _ => false,
        }
    }
}

/// A worker that was started in a terminal of its own.
#[derive(Debug, Clone, PartialEq, Eq)]
pub struct CockpitTuiWorkerOpened {
    pub adapter: String,
    pub mode: CockpitMode,
    pub workspace_label: String,
    pub agent_name: String,
    pub pane_label: String,
    pub pane_id: String,
    pub terminal_id: String,
    pub slot_name: String,
    pub slot_index: usize,
    pub slot_region: String,
}

#[verifier::ext_equal]
pub struct CockpitTuiWorkerOpenedModel {
    pub adapter: Seq<char>,
    pub mode: CockpitMode,
    pub workspace_label: Seq<char>,
    pub agent_name: Seq<char>,
    pub pane_label: Seq<char>,
    pub pane_id: Seq<char>,
    pub terminal_id: Seq<char>,
    pub slot_name: Seq<char>,
    pub slot_index: usize,
    pub slot_region: Seq<char>,
}

impl DeepView for CockpitTuiWorkerOpened {
    type V = CockpitTuiWorkerOpenedModel;

    open spec fn deep_view(&self) -> CockpitTuiWorkerOpenedModel {
        CockpitTuiWorkerOpenedModel {
            adapter: self.adapter.deep_view(),
            mode: self.mode.deep_view(),
            workspace_label: self.workspace_label.deep_view(),
            agent_name: self.agent_name.deep_view(),
            pane_label: self.pane_label.deep_view(),
            pane_id: self.pane_id.deep_view(),
            terminal_id: self.terminal_id.deep_view(),
            slot_name: self.slot_name.deep_view(),
            slot_index: self.slot_index.deep_view(),
            slot_region: self.slot_region.deep_view(),
        }
    }
}

impl View for CockpitTuiWorkerOpened {
    type V = CockpitTuiWorkerOpenedModel;

    open spec fn view(&self) -> CockpitTuiWorkerOpenedModel {
        self.deep_view()
    }
}

impl Row for CockpitTuiWorkerOpened {
    fn dup(&self) -> (r: Self) {
        CockpitTuiWorkerOpened {
            adapter: self.adapter.dup(),
            mode: self.mode.dup(),
            workspace_label: self.workspace_label.dup(),
            agent_name: self.agent_name.dup(),
            pane_label: self.pane_label.dup(),
            pane_id: self.pane_id.dup(),
            terminal_id: self.terminal_id.dup(),
            slot_name: self.slot_name.dup(),
            slot_index: self.slot_index.dup(),
            slot_region: self.slot_region.dup(),
        }
    }

    fn same(&self, other: &Self) -> (r: bool) {
        self.adapter.same(&other.adapter)
            && self.mode.same(&other.mode)
            && self.workspace_label.same(&other.workspace_label)
            && self.agent_name.same(&other.agent_name)
            && self.pane_label.same(&other.pane_label)
            && self.pane_id.same(&other.pane_id)
            && self.terminal_id.same(&other.terminal_id)
            && self.slot_name.same(&other.slot_name)
            && self.slot_index.same(&other.slot_index)
            && self.slot_region.same(&other.slot_region)
    }
}

/// What the start of such a worker gave.
#[derive(Debug, Clone, PartialEq, Eq)]
pub enum CockpitTuiWorkerLaunch {
    Opened(CockpitTuiWorkerOpened),
    SkippedDirect,
}

#[verifier::ext_equal]
pub enum CockpitTuiWorkerLaunchModel {
    Opened(CockpitTuiWorkerOpenedModel),
    SkippedDirect,
}

impl DeepView for CockpitTuiWorkerLaunch {
    type V = CockpitTuiWorkerLaunchModel;

    open spec fn deep_view(&self) -> CockpitTuiWorkerLaunchModel {
        match self {
            CockpitTuiWorkerLaunch::Opened(value) => CockpitTuiWorkerLaunchModel::Opened(value.deep_view()),
            CockpitTuiWorkerLaunch::SkippedDirect => CockpitTuiWorkerLaunchModel::SkippedDirect,
        }
    }
}

impl View for CockpitTuiWorkerLaunch {
    type V = CockpitTuiWorkerLaunchModel;

    open spec fn view(&self) -> CockpitTuiWorkerLaunchModel {
        self.deep_view()
    }
}

impl Row for CockpitTuiWorkerLaunch {
    fn dup(&self) -> (r: Self) {
        match self {
            CockpitTuiWorkerLaunch::Opened(value) => CockpitTuiWorkerLaunch::Opened(value.dup()),
            CockpitTuiWorkerLaunch::SkippedDirect => CockpitTuiWorkerLaunch::SkippedDirect,
        }
    }

    fn same(&self, other: &Self) -> (r: bool) {
        match (self, other) {
            (CockpitTuiWorkerLaunch::Opened(a), CockpitTuiWorkerLaunch::Opened(b)) => a.same(b),
            (CockpitTuiWorkerLaunch::SkippedDirect, CockpitTuiWorkerLaunch::SkippedDirect) => true,
            _ => false,
        }
    }
}

/// A message that was sent.
#[derive(Debug, Clone, PartialEq, Eq)]
pub struct CockpitAgentMessageSent {
    pub adapter: String,
    pub mode: CockpitMode,
    pub target: String,
    pub surface: String,
}

#[verifier::ext_equal]
pub struct CockpitAgentMessageSentModel {
    pub adapter: Seq<char>,
    pub mode: CockpitMode,
    pub target: Seq<char>,
    pub surface: Seq<char>,
}

impl DeepView for CockpitAgentMessageSent {
    type V = CockpitAgentMessageSentModel;

    open spec fn deep_view(&self) -> CockpitAgentMessageSentModel {
        CockpitAgentMessageSentModel {
            adapter: self.adapter.deep_view(),
            mode: self.mode.deep_view(),
            target: self.target.deep_view(),
            surface: self.surface.deep_view(),
        }
    }
}

impl View for CockpitAgentMessageSent {
    type V = CockpitAgentMessageSentModel;

    open spec fn view(&self) -> CockpitAgentMessageSentModel {
        self.deep_view()
    }
}

impl Row for CockpitAgentMessageSent {
    fn dup(&self) -> (r: Self) {
        CockpitAgentMessageSent {
            adapter: self.adapter.dup(),
            mode: self.mode.dup(),
            target: self.target.dup(),
            surface: self.surface.dup(),
        }
    }

    fn same(&self, other: &Self) -> (r: bool) {
        self.adapter.same(&other.adapter)
            && self.mode.same(&other.mode)
            && self.target.same(&other.target)
            && self.surface.same(&other.surface)
    }
}

/// An agent that was brought to the front.
#[derive(Debug, Clone, PartialEq, Eq)]
pub struct CockpitAgentFocused {
    pub adapter: String,
    pub mode: CockpitMode,
    pub target: String,
    pub surface: String,
}

#[verifier::ext_equal]
pub struct CockpitAgentFocusedModel {
    pub adapter: Seq<char>,
    pub mode: CockpitMode,
    pub target: Seq<char>,
    pub surface: Seq<char>,
}

impl DeepView for CockpitAgentFocused {
    type V = CockpitAgentFocusedModel;

    open spec fn deep_view(&self) -> CockpitAgentFocusedModel {
        CockpitAgentFocusedModel {
            adapter: self.adapter.deep_view(),
            mode: self.mode.deep_view(),
            target: self.target.deep_view(),
            surface: self.surface.deep_view(),
        }
    }
}

impl View for CockpitAgentFocused {
    type V = CockpitAgentFocusedModel;

    open spec fn view(&self) -> CockpitAgentFocusedModel {
        self.deep_view()
    }
}

impl Row for CockpitAgentFocused {
    fn dup(&self) -> (r: Self) {
        CockpitAgentFocused {
            adapter: self.adapter.dup(),
            mode: self.mode.dup(),
            target: self.target.dup(),
            surface: self.surface.dup(),
        }
    }

    fn same(&self, other: &Self) -> (r: bool) {
        self.adapter.same(&other.adapter)
            && self.mode.same(&other.mode)
            && self.target.same(&other.target)
            && self.surface.same(&other.surface)
    }
}

/// An agent that was renamed.
#[derive(Debug, Clone, PartialEq, Eq)]
pub struct CockpitAgentRenamed {
    pub adapter: String,
    pub mode: CockpitMode,
    pub target: String,
    pub surface: String,
}

#[verifier::ext_equal]
pub struct CockpitAgentRenamedModel {
    pub adapter: Seq<char>,
    pub mode: CockpitMode,
    pub target: Seq<char>,
    pub surface: Seq<char>,
}

impl DeepView for CockpitAgentRenamed {
    type V = CockpitAgentRenamedModel;

    open spec fn deep_view(&self) -> CockpitAgentRenamedModel {
        CockpitAgentRenamedModel {
            adapter: self.adapter.deep_view(),
            mode: self.mode.deep_view(),
            target: self.target.deep_view(),
            surface: self.surface.deep_view(),
        }
    }
}

impl View for CockpitAgentRenamed {
    type V = CockpitAgentRenamedModel;

    open spec fn view(&self) -> CockpitAgentRenamedModel {
        self.deep_view()
    }
}

impl Row for CockpitAgentRenamed {
    fn dup(&self) -> (r: Self) {
        CockpitAgentRenamed {
            adapter: self.adapter.dup(),
            mode: self.mode.dup(),
            target: self.target.dup(),
            surface: self.surface.dup(),
        }
    }

    fn same(&self, other: &Self) -> (r: bool) {
        self.adapter.same(&other.adapter)
            && self.mode.same(&other.mode)
            && self.target.same(&other.target)
            && self.surface.same(&other.surface)
    }
}

/// Why there is no cockpit, and what can be done.
#[derive(Debug, Clone, PartialEq, Eq)]
pub struct CockpitUnavailable {
    pub mode: CockpitMode,
    pub adapter: String,
    pub message: String,
    pub remediation: String,
}

#[verifier::ext_equal]
pub struct CockpitUnavailableModel {
    pub mode: CockpitMode,
    pub adapter: Seq<char>,
    pub message: Seq<char>,
    pub remediation: Seq<char>,
}

impl DeepView for CockpitUnavailable {
    type V = CockpitUnavailableModel;

    open spec fn deep_view(&self) -> CockpitUnavailableModel {
        CockpitUnavailableModel {
            mode: self.mode.deep_view(),
            adapter: self.adapter.deep_view(),
            message: self.message.deep_view(),
            remediation: self.remediation.deep_view(),
        }
    }
}

impl View for CockpitUnavailable {
    type V = CockpitUnavailableModel;

    open spec fn view(&self) -> CockpitUnavailableModel {
        self.deep_view()
    }
}

impl Row for CockpitUnavailable {
    fn dup(&self) -> (r: Self) {
        CockpitUnavailable {
            mode: self.mode.dup(),
            adapter: self.adapter.dup(),
            message: self.message.dup(),
            remediation: self.remediation.dup(),
        }
    }

    fn same(&self, other: &Self) -> (r: bool) {
        self.mode.same(&other.mode)
            && self.adapter.same(&other.adapter)
            && self.message.same(&other.message)
            && self.remediation.same(&other.remediation)
    }
}

} // verus!
