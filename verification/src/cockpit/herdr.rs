//! How herdr is made to show a cockpit: which command comes next, given what the commands before it
//! gave.
use super::adapter::opened_in_slot;
use super::commands::{
    assignment, assignment_of, command_with_env, pane_command_with_env, worker_label,
};
use super::layout::{
    cockpit_error, refused, COCKPIT_LAYOUT_WORKER_SPLIT_RATIO, WORKER_REGION_PLACEHOLDER_PANE,
};
use super::types::{
    CockpitDashboardLayout, CockpitDashboardLayoutModel, CockpitError, CockpitErrorModel,
    CockpitLayoutDirection, CockpitLayoutInspection, CockpitLayoutInspectionModel,
    CockpitLayoutPane, CockpitLayoutPaneModel, CockpitPaneRef, CockpitPaneRefModel,
    CockpitPaneRequest, CockpitPaneRequestModel, CockpitRunRequest, CockpitRunRequestModel,
    CockpitTuiWorkerOpened, CockpitTuiWorkerOpenedModel, CockpitTuiWorkerRequest,
    CockpitTuiWorkerRequestModel, CockpitWorkerPlacement, CockpitWorkerPlacementModel,
    CockpitWorkerSlot, CockpitWorkerSlotModel, CockpitWorkspaceRef, CockpitWorkspaceRefModel,
    EnvVar, EnvVarModel,
};
use crate::domain::CockpitMode;
use crate::json::{
    get, get_in, items_in, json_level, member, member_of, read_items, read_level, read_text,
    text_in,
};
use crate::shell::{bounded, command_line, display_args, shortened};
use crate::table::Row;
use crate::text::{
    append_decimal, begins_with, blank, contains_text, decimal, has_text, is_blank, same_text,
    strip_prefix, trim, trimmed,
};
use vstd::prelude::*;
use vstd::string::*;

verus! {

/// How often a command is started that cannot be started because its file is being written.
pub const HERDR_SPAWN_RETRY_ATTEMPTS: usize = 5;

/// Whether a command that was tried so often, and whose file was being written at the last try, is
/// tried again.
pub fn retry_spawn(busy: bool, attempts: usize) -> (r: bool)
    ensures
        r == (busy && attempts < 5),
{
    busy && attempts < HERDR_SPAWN_RETRY_ATTEMPTS
}


/// What a command of herdr gave.
#[derive(Debug, Clone, PartialEq, Eq)]
pub enum HerdrReply {
    Output { stdout: String, stderr: String },
    Failed(String),
}

#[verifier::ext_equal]
pub enum HerdrReplyModel {
    Output { stdout: Seq<char>, stderr: Seq<char> },
    Failed(Seq<char>),
}

impl DeepView for HerdrReply {
    type V = HerdrReplyModel;

    open spec fn deep_view(&self) -> HerdrReplyModel {
        match self {
            HerdrReply::Output { stdout, stderr } => HerdrReplyModel::Output {
                stdout: stdout.deep_view(),
                stderr: stderr.deep_view(),
            },
            HerdrReply::Failed(value) => HerdrReplyModel::Failed(value.deep_view()),
        }
    }
}

impl View for HerdrReply {
    type V = HerdrReplyModel;

    open spec fn view(&self) -> HerdrReplyModel {
        self.deep_view()
    }
}

impl Row for HerdrReply {
    fn dup(&self) -> (r: Self) {
        match self {
            HerdrReply::Output { stdout, stderr } => HerdrReply::Output {
                stdout: stdout.dup(),
                stderr: stderr.dup(),
            },
            HerdrReply::Failed(value) => HerdrReply::Failed(value.dup()),
        }
    }

    fn same(&self, other: &Self) -> (r: bool) {
        match (self, other) {
            (
                HerdrReply::Output { stdout, stderr },
                HerdrReply::Output { stdout: other_stdout, stderr: other_stderr },
            ) => stdout.same(other_stdout) && stderr.same(other_stderr),
            (HerdrReply::Failed(a), HerdrReply::Failed(b)) => a.same(b),
            _ => false,
        }
    }
}

/// A tab in which a worker is started before it moves to its place.
#[derive(Debug, Clone, PartialEq, Eq)]
pub struct HerdrTempTab {
    pub tab_id: String,
    pub root_pane_id: String,
}

#[verifier::ext_equal]
pub struct HerdrTempTabModel {
    pub tab_id: Seq<char>,
    pub root_pane_id: Seq<char>,
}

impl DeepView for HerdrTempTab {
    type V = HerdrTempTabModel;

    open spec fn deep_view(&self) -> HerdrTempTabModel {
        HerdrTempTabModel {
            tab_id: self.tab_id.deep_view(),
            root_pane_id: self.root_pane_id.deep_view(),
        }
    }
}

impl View for HerdrTempTab {
    type V = HerdrTempTabModel;

    open spec fn view(&self) -> HerdrTempTabModel {
        self.deep_view()
    }
}

impl Row for HerdrTempTab {
    fn dup(&self) -> (r: Self) {
        HerdrTempTab {
            tab_id: self.tab_id.dup(),
            root_pane_id: self.root_pane_id.dup(),
        }
    }

    fn same(&self, other: &Self) -> (r: bool) {
        self.tab_id.same(&other.tab_id)
            && self.root_pane_id.same(&other.root_pane_id)
    }
}

/// Where a worker is moved, and which pane makes way for it.
#[derive(Debug, Clone, PartialEq, Eq)]
pub struct TuiTarget {
    pub pane_id: String,
    pub tab_id: String,
    pub direction: CockpitLayoutDirection,
    pub ratio: String,
    pub replaced: Option<String>,
}

#[verifier::ext_equal]
pub struct TuiTargetModel {
    pub pane_id: Seq<char>,
    pub tab_id: Seq<char>,
    pub direction: CockpitLayoutDirection,
    pub ratio: Seq<char>,
    pub replaced: Option<Seq<char>>,
}

impl DeepView for TuiTarget {
    type V = TuiTargetModel;

    open spec fn deep_view(&self) -> TuiTargetModel {
        TuiTargetModel {
            pane_id: self.pane_id.deep_view(),
            tab_id: self.tab_id.deep_view(),
            direction: self.direction.deep_view(),
            ratio: self.ratio.deep_view(),
            replaced: self.replaced.deep_view(),
        }
    }
}

impl View for TuiTarget {
    type V = TuiTargetModel;

    open spec fn view(&self) -> TuiTargetModel {
        self.deep_view()
    }
}

impl Row for TuiTarget {
    fn dup(&self) -> (r: Self) {
        TuiTarget {
            pane_id: self.pane_id.dup(),
            tab_id: self.tab_id.dup(),
            direction: self.direction.dup(),
            ratio: self.ratio.dup(),
            replaced: self.replaced.dup(),
        }
    }

    fn same(&self, other: &Self) -> (r: bool) {
        self.pane_id.same(&other.pane_id)
            && self.tab_id.same(&other.tab_id)
            && self.direction.same(&other.direction)
            && self.ratio.same(&other.ratio)
            && self.replaced.same(&other.replaced)
    }
}

/// How far a task has come: it waits for a command, or it has failed, or it is done. The last two
/// say how many replies were used up.
#[derive(Debug)]
pub enum Progress<T> {
    Wait(Vec<String>),
    Fail(CockpitError, usize),
    Done(T, usize),
}

#[verifier::ext_equal]
pub enum ProgressModel<V> {
    Wait(Seq<Seq<char>>),
    Fail(CockpitErrorModel, usize),
    Done(V, usize),
}

impl<T: DeepView> DeepView for Progress<T> {
    type V = ProgressModel<T::V>;

    open spec fn deep_view(&self) -> ProgressModel<T::V> {
        match self {
            Progress::Wait(args) => ProgressModel::Wait(args.deep_view()),
            Progress::Fail(error, next) => ProgressModel::Fail(error.deep_view(), *next),
            Progress::Done(value, next) => ProgressModel::Done(value.deep_view(), *next),
        }
    }
}

/// What stands between the two outputs of a command in a message.
pub open spec fn between(stdout: Seq<char>, stderr: Seq<char>) -> Seq<char> {
    if stdout.len() == 0 || stderr.len() == 0 {
        ""@
    } else {
        " | "@
    }
}

pub open spec fn outputs(stdout: Seq<char>, stderr: Seq<char>) -> Seq<char> {
    shortened(stdout) + between(stdout, stderr) + shortened(stderr)
}

fn append_outputs(message: &mut String, stdout: &str, stderr: &str)
    ensures
        final(message)@ == old(message)@ + outputs(stdout@, stderr@),
{
    let out = bounded(stdout);
    message.append(out.as_str());
    if !stdout.is_empty() && !stderr.is_empty() {
        message.append(" | ");
    } else {
        message.append("");
    }
    let err = bounded(stderr);
    message.append(err.as_str());
    assert(message@ =~= old(message)@ + outputs(stdout@, stderr@));
}

/// The message of a command that ended badly.
pub open spec fn exit_message(
    args: Seq<Seq<char>>,
    status: Seq<char>,
    stdout: Seq<char>,
    stderr: Seq<char>,
) -> Seq<char> {
    "herdr "@ + command_line(args) + " exited with "@ + status + ": "@ + outputs(
        trim(stdout),
        trim(stderr),
    )
}

/// The message of a command that took too long.
pub open spec fn timeout_message(
    args: Seq<Seq<char>>,
    seconds: u64,
    stdout: Seq<char>,
    stderr: Seq<char>,
) -> Seq<char> {
    "herdr "@ + command_line(args) + " timed out after "@ + decimal(seconds as nat) + "s: "@
        + outputs(trim(stdout), trim(stderr))
}

impl HerdrReply {
    /// A command that went well; the space around its outputs is dropped.
    pub fn succeeded(stdout: &str, stderr: &str) -> (r: HerdrReply)
        ensures
            r@ == (HerdrReplyModel::Output { stdout: trim(stdout@), stderr: trim(stderr@) }),
    {
        HerdrReply::Output { stdout: trimmed(stdout), stderr: trimmed(stderr) }
    }

    /// A command that ended with a bad status.
    pub fn exited(args: &Vec<String>, status: &str, stdout: &str, stderr: &str) -> (r: HerdrReply)
        ensures
            r@ == HerdrReplyModel::Failed(
                exit_message(args.deep_view(), status@, stdout@, stderr@),
            ),
    {
        let mut message = "herdr ".to_owned();
        let shown = display_args(args);
        message.append(shown.as_str());
        message.append(" exited with ");
        message.append(status);
        message.append(": ");
        let out = trimmed(stdout);
        let err = trimmed(stderr);
        append_outputs(&mut message, out.as_str(), err.as_str());
        HerdrReply::Failed(message)
    }

    /// A command that was stopped after so many seconds.
    pub fn timed_out(args: &Vec<String>, seconds: u64, stdout: &str, stderr: &str) -> (r: HerdrReply)
        ensures
            r@ == HerdrReplyModel::Failed(
                timeout_message(args.deep_view(), seconds, stdout@, stderr@),
            ),
    {
        let mut message = "herdr ".to_owned();
        let shown = display_args(args);
        message.append(shown.as_str());
        message.append(" timed out after ");
        append_decimal(&mut message, seconds);
        message.append("s: ");
        let out = trimmed(stdout);
        let err = trimmed(stderr);
        append_outputs(&mut message, out.as_str(), err.as_str());
        HerdrReply::Failed(message)
    }

    /// A command that could not be started.
    pub fn not_started(args: &Vec<String>) -> (r: HerdrReply)
        ensures
            r@ == HerdrReplyModel::Failed("spawn herdr "@ + command_line(args.deep_view())),
    {
        let mut message = "spawn herdr ".to_owned();
        let shown = display_args(args);
        message.append(shown.as_str());
        HerdrReply::Failed(message)
    }
}

/// Whether a command failed because a pane is gone.
pub open spec fn pane_not_found(message: Seq<char>) -> bool {
    contains_text(message, "pane_not_found"@) || contains_text(message, "target_pane_not_found"@)
        || contains_text(message, "pane not found"@)
}

pub fn is_herdr_pane_not_found_error(error: &CockpitError) -> (r: bool)
    ensures
        r == pane_not_found(error@.message),
{
    let message = error.message.as_str();
    has_text(message, "pane_not_found") || has_text(message, "target_pane_not_found") || has_text(
        message,
        "pane not found",
    )
}

pub open spec fn next_at(at: usize) -> usize {
    (at + 1) as usize
}

/// A command whose output does not matter.
pub open spec fn ran(replies: Seq<HerdrReplyModel>, at: usize, args: Seq<Seq<char>>) -> ProgressModel<
    (),
> {
    if at >= replies.len() {
        ProgressModel::Wait(args)
    } else {
        match replies[at as int] {
            HerdrReplyModel::Failed(message) => ProgressModel::Fail(refused(message), next_at(at)),
            HerdrReplyModel::Output { stdout, stderr } => ProgressModel::Done((), next_at(at)),
        }
    }
}

fn run(replies: &Vec<HerdrReply>, at: usize, args: Vec<String>) -> (r: Progress<()>)
    ensures
        r.deep_view() == ran(replies.deep_view(), at, args.deep_view()),
{
    if at >= replies.len() {
        return Progress::Wait(args);
    }
    assert(replies.deep_view()[at as int] == replies@[at as int]@);
    match &replies[at] {
        HerdrReply::Failed(message) => Progress::Fail(cockpit_error(message.as_str()), at + 1),
        HerdrReply::Output { stdout: _, stderr: _ } => Progress::Done((), at + 1),
    }
}

/// A command whose output is a JSON document.
pub open spec fn answered(
    replies: Seq<HerdrReplyModel>,
    at: usize,
    args: Seq<Seq<char>>,
) -> ProgressModel<Seq<char>> {
    if at >= replies.len() {
        ProgressModel::Wait(args)
    } else {
        match replies[at as int] {
            HerdrReplyModel::Failed(message) => ProgressModel::Fail(refused(message), next_at(at)),
            HerdrReplyModel::Output { stdout, stderr } => if json_level(stdout) is Some {
                ProgressModel::Done(stdout, next_at(at))
            } else {
                ProgressModel::Fail(
                    refused(
                        "herdr "@ + command_line(args) + " did not return JSON: "@ + outputs(
                            stdout,
                            stderr,
                        ),
                    ),
                    next_at(at),
                )
            },
        }
    }
}

fn ask(replies: &Vec<HerdrReply>, at: usize, args: Vec<String>) -> (r: Progress<String>)
    ensures
        r.deep_view() == answered(replies.deep_view(), at, args.deep_view()),
{
    if at >= replies.len() {
        return Progress::Wait(args);
    }
    assert(replies.deep_view()[at as int] == replies@[at as int]@);
    match &replies[at] {
        HerdrReply::Failed(message) => Progress::Fail(cockpit_error(message.as_str()), at + 1),
        HerdrReply::Output { stdout, stderr } => {
            if read_level(stdout.as_str()).is_some() {
                Progress::Done(stdout.dup(), at + 1)
            } else {
                let mut message = "herdr ".to_owned();
                let shown = display_args(&args);
                message.append(shown.as_str());
                message.append(" did not return JSON: ");
                append_outputs(&mut message, stdout.as_str(), stderr.as_str());
                Progress::Fail(CockpitError { message }, at + 1)
            }
        },
    }
}

/// The text two levels below the result of an answer.
pub open spec fn result_text(stdout: Seq<char>, outer: Seq<char>, inner: Seq<char>) -> Option<
    Seq<char>,
> {
    text_in(member_of(member_of(member(stdout, "result"@), outer), inner))
}

fn read_result_text(stdout: &str, outer: &str, inner: &str) -> (r: Option<String>)
    ensures
        r.deep_view() == result_text(stdout@, outer@, inner@),
{
    let result = get(stdout, "result");
    let held = get_in(&result, outer);
    let document = get_in(&held, inner);
    read_text(&document)
}

/// The text under a name of an item, empty where there is none.
pub open spec fn item_text(item: Seq<char>, name: Seq<char>) -> Seq<char> {
    match text_in(member(item, name)) {
        Some(text) => text,
        None => Seq::empty(),
    }
}

fn read_item_text(item: &str, name: &str) -> (r: String)
    ensures
        r@ == item_text(item@, name@),
{
    let document = get(item, name);
    match read_text(&document) {
        Some(text) => text,
        None => String::new(),
    }
}

/// The panes that items name; an item without an identity is passed over.
pub open spec fn listed_panes(items: Seq<Seq<char>>) -> Seq<CockpitLayoutPaneModel>
    decreases items.len(),
{
    if items.len() == 0 {
        Seq::empty()
    } else {
        let before = listed_panes(items.drop_last());
        let item = items.last();
        match text_in(member(item, "pane_id"@)) {
            Some(id) => before.push(
                CockpitLayoutPaneModel {
                    id,
                    label: item_text(item, "label"@),
                    tab_id: item_text(item, "tab_id"@),
                },
            ),
            None => before,
        }
    }
}

fn read_panes(items: &Vec<String>) -> (r: Vec<CockpitLayoutPane>)
    ensures
        r.deep_view() == listed_panes(items.deep_view()),
{
    let mut r: Vec<CockpitLayoutPane> = Vec::new();
    let mut i: usize = 0;
    assert(items.deep_view().take(0) =~= Seq::empty());
    assert(r.deep_view() =~= Seq::empty());
    while i < items.len()
        invariant
            i <= items.len(),
            r.deep_view() == listed_panes(items.deep_view().take(i as int)),
        decreases items.len() - i,
    {
        proof {
            let part = items.deep_view().take(i + 1);
            assert(part.drop_last() =~= items.deep_view().take(i as int));
            assert(part.last() == items@[i as int]@);
        }
        let document = get(items[i].as_str(), "pane_id");
        match read_text(&document) {
            Some(id) => {
                let pane = CockpitLayoutPane {
                    id,
                    label: read_item_text(items[i].as_str(), "label"),
                    tab_id: read_item_text(items[i].as_str(), "tab_id"),
                };
                let ghost before = r.deep_view();
                r.push(pane);
                assert(r.deep_view() =~= before.push(pane@));
            },
            None => {},
        }
        i = i + 1;
    }
    assert(items.deep_view().take(i as int) =~= items.deep_view());
    r
}

/// The panes of a workspace.
pub open spec fn panes_listed(
    workspace_id: Seq<char>,
    replies: Seq<HerdrReplyModel>,
    at: usize,
) -> ProgressModel<Seq<CockpitLayoutPaneModel>> {
    match answered(replies, at, seq!["pane"@, "list"@, "--workspace"@, workspace_id]) {
        ProgressModel::Wait(args) => ProgressModel::Wait(args),
        ProgressModel::Fail(error, next) => ProgressModel::Fail(error, next),
        ProgressModel::Done(stdout, next) => ProgressModel::Done(
            match items_in(member_of(member(stdout, "result"@), "panes"@)) {
                Some(items) => listed_panes(items),
                None => Seq::empty(),
            },
            next,
        ),
    }
}

fn pane_list(workspace_id: &str, replies: &Vec<HerdrReply>, at: usize) -> (r: Progress<
    Vec<CockpitLayoutPane>,
>)
    ensures
        r.deep_view() == panes_listed(workspace_id@, replies.deep_view(), at),
{
    let args = vec![
        "pane".to_owned(),
        "list".to_owned(),
        "--workspace".to_owned(),
        workspace_id.to_owned(),
    ];
    assert(args.deep_view() =~= seq!["pane"@, "list"@, "--workspace"@, workspace_id@]);
    match ask(replies, at, args) {
        Progress::Wait(args) => Progress::Wait(args),
        Progress::Fail(error, next) => Progress::Fail(error, next),
        Progress::Done(stdout, next) => {
            let result = get(stdout.as_str(), "result");
            let listed = get_in(&result, "panes");
            match read_items(&listed) {
                Some(items) => Progress::Done(read_panes(&items), next),
                None => {
                    let none: Vec<CockpitLayoutPane> = Vec::new();
                    assert(none.deep_view() =~= Seq::empty());
                    Progress::Done(none, next)
                },
            }
        },
    }
}

pub open spec fn preferred_anchor(workspace: CockpitWorkspaceRefModel) -> Option<Seq<char>> {
    match workspace.anchor_pane {
        Some(pane) => Some(pane.id),
        None => None,
    }
}

fn preferred_anchor_id(workspace: &CockpitWorkspaceRef) -> (r: Option<String>)
    ensures
        r.deep_view() == preferred_anchor(workspace@),
{
    match &workspace.anchor_pane {
        Some(pane) => Some(pane.id.dup()),
        None => None,
    }
}

/// The pane that new panes of a workspace are split from.
pub open spec fn live_anchor(
    workspace: CockpitWorkspaceRefModel,
    panes: Seq<CockpitLayoutPaneModel>,
) -> Result<Seq<char>, CockpitErrorModel> {
    match (CockpitLayoutInspectionModel { root_pane_id: None, panes }).anchor_pane(
        preferred_anchor(workspace),
    ) {
        Some(id) => Ok(id),
        None => Err(
            refused(
                "herdr workspace "@ + workspace.id + " has no live pane to anchor cockpit panes"@,
            ),
        ),
    }
}

fn select_live_layout_anchor(
    workspace: &CockpitWorkspaceRef,
    panes: &Vec<CockpitLayoutPane>,
) -> (r: Result<String, CockpitError>)
    ensures
        super::layout::reply(r) == live_anchor(workspace@, panes.deep_view()),
{
    let inspection = CockpitLayoutInspection { root_pane_id: None, panes: panes.dup() };
    let preferred = preferred_anchor_id(workspace);
    match inspection.live_layout_anchor_pane_id(&preferred) {
        Some(id) => Ok(id),
        None => {
            let mut message = "herdr workspace ".to_owned();
            message.append(workspace.id.as_str());
            message.append(" has no live pane to anchor cockpit panes");
            Err(CockpitError { message })
        },
    }
}

/// The panes of a workspace and the one that new panes are split from. Where that pane is gone by
/// the time it is looked at, the panes are listed once more.
pub open spec fn inspected(
    workspace: CockpitWorkspaceRefModel,
    replies: Seq<HerdrReplyModel>,
    at: usize,
    tries: nat,
) -> ProgressModel<CockpitLayoutInspectionModel>
    decreases tries,
{
    match panes_listed(workspace.id, replies, at) {
        ProgressModel::Wait(args) => ProgressModel::Wait(args),
        ProgressModel::Fail(error, next) => ProgressModel::Fail(error, next),
        ProgressModel::Done(panes, listed_at) => match live_anchor(workspace, panes) {
            Err(error) => ProgressModel::Fail(error, listed_at),
            Ok(root) => match answered(
                replies,
                listed_at,
                seq!["pane"@, "layout"@, "--pane"@, root],
            ) {
                ProgressModel::Wait(args) => ProgressModel::Wait(args),
                ProgressModel::Done(_, next) => ProgressModel::Done(
                    CockpitLayoutInspectionModel { root_pane_id: Some(root), panes },
                    next,
                ),
                ProgressModel::Fail(error, next) => if pane_not_found(error.message) && tries > 0 {
                    inspected(workspace, replies, next, (tries - 1) as nat)
                } else {
                    ProgressModel::Fail(error, next)
                },
            },
        },
    }
}

fn inspect(workspace: &CockpitWorkspaceRef, replies: &Vec<HerdrReply>, at: usize, tries: usize) -> (r:
    Progress<CockpitLayoutInspection>)
    ensures
        r.deep_view() == inspected(workspace@, replies.deep_view(), at, tries as nat),
    decreases tries,
{
    let (panes, listed_at) = match pane_list(workspace.id.as_str(), replies, at) {
        Progress::Wait(args) => {
            return Progress::Wait(args);
        },
        Progress::Fail(error, next) => {
            return Progress::Fail(error, next);
        },
        Progress::Done(panes, listed_at) => (panes, listed_at),
    };
    let root = match select_live_layout_anchor(workspace, &panes) {
        Ok(root) => root,
        Err(error) => {
            return Progress::Fail(error, listed_at);
        },
    };
    let args = vec!["pane".to_owned(), "layout".to_owned(), "--pane".to_owned(), root.dup()];
    assert(args.deep_view() =~= seq!["pane"@, "layout"@, "--pane"@, root@]);
    match ask(replies, listed_at, args) {
        Progress::Wait(args) => Progress::Wait(args),
        Progress::Done(_, next) => Progress::Done(
            CockpitLayoutInspection { root_pane_id: Some(root), panes },
            next,
        ),
        Progress::Fail(error, next) => {
            if is_herdr_pane_not_found_error(&error) && tries > 0 {
                inspect(workspace, replies, next, tries - 1)
            } else {
                Progress::Fail(error, next)
            }
        },
    }
}

/// The variables of an environment as arguments.
pub open spec fn env_args(env: Seq<EnvVarModel>) -> Seq<Seq<char>>
    decreases env.len(),
{
    if env.len() == 0 {
        Seq::empty()
    } else {
        env_args(env.drop_last()) + seq!["--env"@, assignment(env.last())]
    }
}

fn push_env(args: &mut Vec<String>, env: &Vec<EnvVar>)
    ensures
        final(args).deep_view() == old(args).deep_view() + env_args(env.deep_view()),
{
    let ghost before = args.deep_view();
    let mut i: usize = 0;
    assert(env.deep_view().take(0) =~= Seq::empty());
    assert(before + env_args(env.deep_view().take(0)) =~= before);
    while i < env.len()
        invariant
            i <= env.len(),
            args.deep_view() == before + env_args(env.deep_view().take(i as int)),
        decreases env.len() - i,
    {
        let ghost part = env.deep_view().take(i + 1);
        assert(part.drop_last() =~= env.deep_view().take(i as int));
        assert(part.last() == env@[i as int]@);
        let ghost so_far = args.deep_view();
        args.push("--env".to_owned());
        let text = assignment_of(&env[i]);
        args.push(text);
        assert(args.deep_view() =~= so_far + seq!["--env"@, assignment(part.last())]);
        assert(args.deep_view() =~= before + env_args(part));
        i = i + 1;
    }
    assert(env.deep_view().take(i as int) =~= env.deep_view());
}

pub open spec fn split_args(
    anchor: Seq<char>,
    direction: CockpitLayoutDirection,
    ratio: Seq<char>,
    request: CockpitPaneRequestModel,
) -> Seq<Seq<char>> {
    (seq![
        "pane"@,
        "split"@,
        anchor,
        "--direction"@,
        direction.text(),
        "--ratio"@,
        ratio,
        "--cwd"@,
        request.cwd,
    ] + env_args(request.env)).push("--no-focus"@)
}

/// A new pane beside another one.
pub open spec fn split(
    anchor: Seq<char>,
    direction: CockpitLayoutDirection,
    ratio: Seq<char>,
    request: CockpitPaneRequestModel,
    replies: Seq<HerdrReplyModel>,
    at: usize,
) -> ProgressModel<CockpitPaneRefModel> {
    match answered(replies, at, split_args(anchor, direction, ratio, request)) {
        ProgressModel::Wait(args) => ProgressModel::Wait(args),
        ProgressModel::Fail(error, next) => ProgressModel::Fail(error, next),
        ProgressModel::Done(stdout, next) => match result_text(stdout, "pane"@, "pane_id"@) {
            Some(id) => ProgressModel::Done(CockpitPaneRefModel { id }, next),
            None => ProgressModel::Fail(refused("herdr pane split omitted pane_id"@), next),
        },
    }
}

fn split_pane(
    anchor: &str,
    direction: CockpitLayoutDirection,
    ratio: &str,
    request: &CockpitPaneRequest,
    replies: &Vec<HerdrReply>,
    at: usize,
) -> (r: Progress<CockpitPaneRef>)
    ensures
        r.deep_view() == split(anchor@, direction, ratio@, request@, replies.deep_view(), at),
{
    let mut args = vec![
        "pane".to_owned(),
        "split".to_owned(),
        anchor.to_owned(),
        "--direction".to_owned(),
        direction.as_herdr_arg().to_owned(),
        "--ratio".to_owned(),
        ratio.to_owned(),
        "--cwd".to_owned(),
        request.cwd.dup(),
    ];
    let ghost front = args.deep_view();
    push_env(&mut args, &request.env);
    let ghost longer = args.deep_view();
    args.push("--no-focus".to_owned());
    assert(args.deep_view() =~= longer.push("--no-focus"@));
    assert(args.deep_view() =~= split_args(anchor@, direction, ratio@, request@));
    match ask(replies, at, args) {
        Progress::Wait(args) => Progress::Wait(args),
        Progress::Fail(error, next) => Progress::Fail(error, next),
        Progress::Done(stdout, next) => match read_result_text(stdout.as_str(), "pane", "pane_id") {
            Some(id) => Progress::Done(CockpitPaneRef { id }, next),
            None => Progress::Fail(cockpit_error("herdr pane split omitted pane_id"), next),
        },
    }
}

pub open spec fn rename_args(pane_id: Seq<char>, label: Seq<char>) -> Seq<Seq<char>> {
    seq!["pane"@, "rename"@, pane_id, label]
}

fn rename_pane(pane_id: &str, label: &str, replies: &Vec<HerdrReply>, at: usize) -> (r: Progress<
    String,
>)
    ensures
        r.deep_view() == answered(replies.deep_view(), at, rename_args(pane_id@, label@)),
{
    let args = vec![
        "pane".to_owned(),
        "rename".to_owned(),
        pane_id.to_owned(),
        label.to_owned(),
    ];
    assert(args.deep_view() =~= rename_args(pane_id@, label@));
    ask(replies, at, args)
}

pub open spec fn close_args(pane_id: Seq<char>) -> Seq<Seq<char>> {
    seq!["pane"@, "close"@, pane_id]
}

fn close_command(pane_id: &str) -> (r: Vec<String>)
    ensures
        r.deep_view() == close_args(pane_id@),
{
    let args = vec!["pane".to_owned(), "close".to_owned(), pane_id.to_owned()];
    assert(args.deep_view() =~= close_args(pane_id@));
    args
}

/// A pane takes a label and runs what was asked for.
pub open spec fn pane_runs(
    pane_id: Seq<char>,
    label: Seq<char>,
    request: CockpitPaneRequestModel,
    replies: Seq<HerdrReplyModel>,
    at: usize,
) -> ProgressModel<()> {
    match answered(replies, at, rename_args(pane_id, label)) {
        ProgressModel::Wait(args) => ProgressModel::Wait(args),
        ProgressModel::Fail(error, next) => ProgressModel::Fail(error, next),
        ProgressModel::Done(_, next) => ran(
            replies,
            next,
            seq!["pane"@, "run"@, pane_id, command_with_env(request)],
        ),
    }
}

fn run_pane_request_with_label(
    pane_id: &str,
    label: &str,
    request: &CockpitPaneRequest,
    replies: &Vec<HerdrReply>,
    at: usize,
) -> (r: Progress<()>)
    ensures
        r.deep_view() == pane_runs(pane_id@, label@, request@, replies.deep_view(), at),
{
    match rename_pane(pane_id, label, replies, at) {
        Progress::Wait(args) => Progress::Wait(args),
        Progress::Fail(error, next) => Progress::Fail(error, next),
        Progress::Done(_, next) => {
            let args = vec![
                "pane".to_owned(),
                "run".to_owned(),
                pane_id.to_owned(),
                pane_command_with_env(request),
            ];
            assert(args.deep_view() =~= seq![
                "pane"@,
                "run"@,
                pane_id@,
                command_with_env(request@),
            ]);
            run(replies, next, args)
        },
    }
}

/// The first item that carries a label.
pub open spec fn item_labelled(items: Seq<Seq<char>>, label: Seq<char>) -> Option<Seq<char>>
    decreases items.len(),
{
    if items.len() == 0 {
        None
    } else if text_in(member(items[0], "label"@)) == Some(label) {
        Some(items[0])
    } else {
        item_labelled(items.skip(1), label)
    }
}

fn find_labelled(items: &Vec<String>, label: &str) -> (r: Option<String>)
    ensures
        r.deep_view() == item_labelled(items.deep_view(), label@),
{
    let mut i: usize = 0;
    assert(items.deep_view().skip(0) =~= items.deep_view());
    while i < items.len()
        invariant
            i <= items.len(),
            item_labelled(items.deep_view(), label@) == item_labelled(
                items.deep_view().skip(i as int),
                label@,
            ),
        decreases items.len() - i,
    {
        let ghost rest = items.deep_view().skip(i as int);
        assert(rest[0] == items@[i as int]@);
        assert(rest.skip(1) =~= items.deep_view().skip(i + 1));
        let document = get(items[i].as_str(), "label");
        let here = match read_text(&document) {
            Some(text) => same_text(text.as_str(), label),
            None => false,
        };
        if here {
            return Some(items[i].dup());
        }
        i = i + 1;
    }
    None
}

pub open spec fn create_workspace_args(request: CockpitRunRequestModel) -> Seq<Seq<char>> {
    seq![
        "workspace"@,
        "create"@,
        "--cwd"@,
        request.repo_path,
        "--label"@,
        request.workspace_label,
        "--env"@,
        "KHAZAD_HOME="@ + request.khazad_home,
        "--focus"@,
    ]
}

/// The workspace with the label of a run: brought to the front where it is there, created where it
/// is not.
pub open spec fn workspace_opened(
    request: CockpitRunRequestModel,
    replies: Seq<HerdrReplyModel>,
) -> ProgressModel<CockpitWorkspaceRefModel> {
    match answered(replies, 0, seq!["workspace"@, "list"@]) {
        ProgressModel::Wait(args) => ProgressModel::Wait(args),
        ProgressModel::Fail(error, next) => ProgressModel::Fail(error, next),
        ProgressModel::Done(stdout, at) => {
            let existing = match items_in(member_of(member(stdout, "result"@), "workspaces"@)) {
                Some(items) => item_labelled(items, request.workspace_label),
                None => None,
            };
            match existing {
                Some(item) => match text_in(member(item, "workspace_id"@)) {
                    None => ProgressModel::Fail(
                        refused("herdr workspace list item omitted workspace_id"@),
                        at,
                    ),
                    Some(id) => match answered(
                        replies,
                        at,
                        seq!["workspace"@, "focus"@, id],
                    ) {
                        ProgressModel::Wait(args) => ProgressModel::Wait(args),
                        ProgressModel::Fail(error, next) => ProgressModel::Fail(error, next),
                        ProgressModel::Done(_, next) => ProgressModel::Done(
                            CockpitWorkspaceRefModel { id, anchor_pane: None, existed: true },
                            next,
                        ),
                    },
                },
                None => match answered(replies, at, create_workspace_args(request)) {
                    ProgressModel::Wait(args) => ProgressModel::Wait(args),
                    ProgressModel::Fail(error, next) => ProgressModel::Fail(error, next),
                    ProgressModel::Done(stdout, next) => match (
                        result_text(stdout, "workspace"@, "workspace_id"@),
                        result_text(stdout, "root_pane"@, "pane_id"@),
                    ) {
                        (None, _) => ProgressModel::Fail(
                            refused("herdr workspace create omitted workspace_id"@),
                            next,
                        ),
                        (Some(_), None) => ProgressModel::Fail(
                            refused("herdr workspace create omitted root_pane.pane_id"@),
                            next,
                        ),
                        (Some(id), Some(root)) => ProgressModel::Done(
                            CockpitWorkspaceRefModel {
                                id,
                                anchor_pane: Some(CockpitPaneRefModel { id: root }),
                                existed: false,
                            },
                            next,
                        ),
                    },
                },
            }
        },
    }
}

/// Opens the workspace of a run or brings it to the front, as far as the replies reach.
pub fn open_or_focus_run_workspace(request: &CockpitRunRequest, replies: &Vec<HerdrReply>) -> (r:
    Progress<CockpitWorkspaceRef>)
    ensures
        r.deep_view() == workspace_opened(request@, replies.deep_view()),
{
    let list_args = vec!["workspace".to_owned(), "list".to_owned()];
    assert(list_args.deep_view() =~= seq!["workspace"@, "list"@]);
    let (stdout, at) = match ask(replies, 0, list_args) {
        Progress::Wait(args) => {
            return Progress::Wait(args);
        },
        Progress::Fail(error, next) => {
            return Progress::Fail(error, next);
        },
        Progress::Done(stdout, at) => (stdout, at),
    };
    let result = get(stdout.as_str(), "result");
    let listed = get_in(&result, "workspaces");
    let existing = match read_items(&listed) {
        Some(items) => find_labelled(&items, request.workspace_label.as_str()),
        None => None,
    };
    match existing {
        Some(item) => {
            let document = get(item.as_str(), "workspace_id");
            let id = match read_text(&document) {
                Some(id) => id,
                None => {
                    return Progress::Fail(
                        cockpit_error("herdr workspace list item omitted workspace_id"),
                        at,
                    );
                },
            };
            let focus_args = vec!["workspace".to_owned(), "focus".to_owned(), id.dup()];
            assert(focus_args.deep_view() =~= seq!["workspace"@, "focus"@, id@]);
            match ask(replies, at, focus_args) {
                Progress::Wait(args) => Progress::Wait(args),
                Progress::Fail(error, next) => Progress::Fail(error, next),
                Progress::Done(_, next) => Progress::Done(
                    CockpitWorkspaceRef { id, anchor_pane: None, existed: true },
                    next,
                ),
            }
        },
        None => {
            let mut home = "KHAZAD_HOME=".to_owned();
            home.append(request.khazad_home.as_str());
            let create_args = vec![
                "workspace".to_owned(),
                "create".to_owned(),
                "--cwd".to_owned(),
                request.repo_path.dup(),
                "--label".to_owned(),
                request.workspace_label.dup(),
                "--env".to_owned(),
                home,
                "--focus".to_owned(),
            ];
            assert(create_args.deep_view() =~= create_workspace_args(request@));
            match ask(replies, at, create_args) {
                Progress::Wait(args) => Progress::Wait(args),
                Progress::Fail(error, next) => Progress::Fail(error, next),
                Progress::Done(created, next) => {
                    let id = match read_result_text(created.as_str(), "workspace", "workspace_id") {
                        Some(id) => id,
                        None => {
                            return Progress::Fail(
                                cockpit_error("herdr workspace create omitted workspace_id"),
                                next,
                            );
                        },
                    };
                    match read_result_text(created.as_str(), "root_pane", "pane_id") {
                        Some(root) => Progress::Done(
                            CockpitWorkspaceRef {
                                id,
                                anchor_pane: Some(CockpitPaneRef { id: root }),
                                existed: false,
                            },
                            next,
                        ),
                        None => Progress::Fail(
                            cockpit_error("herdr workspace create omitted root_pane.pane_id"),
                            next,
                        ),
                    }
                },
            }
        },
    }
}

/// A pane that only shows something.
pub open spec fn read_only_pane(
    workspace: CockpitWorkspaceRefModel,
    request: CockpitPaneRequestModel,
    replies: Seq<HerdrReplyModel>,
) -> ProgressModel<CockpitPaneRefModel> {
    let direction = if begins_with(request.label, "Worker "@) {
        CockpitLayoutDirection::Down
    } else {
        CockpitLayoutDirection::Right
    };
    match panes_listed(workspace.id, replies, 0) {
        ProgressModel::Wait(args) => ProgressModel::Wait(args),
        ProgressModel::Fail(error, next) => ProgressModel::Fail(error, next),
        ProgressModel::Done(panes, at) => match live_anchor(workspace, panes) {
            Err(error) => ProgressModel::Fail(error, at),
            Ok(anchor) => match split(anchor, direction, "0.5"@, request, replies, at) {
                ProgressModel::Wait(args) => ProgressModel::Wait(args),
                ProgressModel::Fail(error, next) => ProgressModel::Fail(error, next),
                ProgressModel::Done(pane, next) => match pane_runs(
                    pane.id,
                    request.label,
                    request,
                    replies,
                    next,
                ) {
                    ProgressModel::Wait(args) => ProgressModel::Wait(args),
                    ProgressModel::Fail(error, next) => ProgressModel::Fail(error, next),
                    ProgressModel::Done(_, next) => ProgressModel::Done(pane, next),
                },
            },
        },
    }
}

/// Creates a pane that only shows something, as far as the replies reach.
pub fn create_read_only_pane(
    workspace: &CockpitWorkspaceRef,
    request: &CockpitPaneRequest,
    replies: &Vec<HerdrReply>,
) -> (r: Progress<CockpitPaneRef>)
    ensures
        r.deep_view() == read_only_pane(workspace@, request@, replies.deep_view()),
{
    let direction = if strip_prefix(request.label.as_str(), "Worker ").is_some() {
        CockpitLayoutDirection::Down
    } else {
        CockpitLayoutDirection::Right
    };
    let (panes, at) = match pane_list(workspace.id.as_str(), replies, 0) {
        Progress::Wait(args) => {
            return Progress::Wait(args);
        },
        Progress::Fail(error, next) => {
            return Progress::Fail(error, next);
        },
        Progress::Done(panes, at) => (panes, at),
    };
    let anchor = match select_live_layout_anchor(workspace, &panes) {
        Ok(anchor) => anchor,
        Err(error) => {
            return Progress::Fail(error, at);
        },
    };
    let (pane, next) = match split_pane(anchor.as_str(), direction, "0.5", request, replies, at) {
        Progress::Wait(args) => {
            return Progress::Wait(args);
        },
        Progress::Fail(error, next) => {
            return Progress::Fail(error, next);
        },
        Progress::Done(pane, next) => (pane, next),
    };
    match run_pane_request_with_label(
        pane.id.as_str(),
        request.label.as_str(),
        request,
        replies,
        next,
    ) {
        Progress::Wait(args) => Progress::Wait(args),
        Progress::Fail(error, next) => Progress::Fail(error, next),
        Progress::Done(_, next) => Progress::Done(pane, next),
    }
}

/// The layout of a workspace.
pub open spec fn layout_inspected(
    workspace: CockpitWorkspaceRefModel,
    replies: Seq<HerdrReplyModel>,
) -> ProgressModel<CockpitLayoutInspectionModel> {
    inspected(workspace, replies, 0, 1)
}

/// Inspects the layout of a workspace, as far as the replies reach.
pub fn inspect_layout(workspace: &CockpitWorkspaceRef, replies: &Vec<HerdrReply>) -> (r: Progress<
    CockpitLayoutInspection,
>)
    ensures
        r.deep_view() == layout_inspected(workspace@, replies.deep_view()),
{
    inspect(workspace, replies, 0, 1)
}

/// The dashboard of a workspace: the one that is there, or a new one. The pane that it was split
/// from is marked as the place for workers, unless it carries a label already.
pub open spec fn dashboard_ensured(
    workspace: CockpitWorkspaceRefModel,
    dashboard: CockpitDashboardLayoutModel,
    request: CockpitPaneRequestModel,
    replies: Seq<HerdrReplyModel>,
) -> ProgressModel<CockpitPaneRefModel> {
    match inspected(workspace, replies, 0, 1) {
        ProgressModel::Wait(args) => ProgressModel::Wait(args),
        ProgressModel::Fail(error, next) => ProgressModel::Fail(error, next),
        ProgressModel::Done(inspection, at) => match (
            inspection.dashboard_pane(),
            inspection.root_pane_id,
        ) {
            (Some(id), _) => ProgressModel::Done(CockpitPaneRefModel { id }, at),
            (None, None) => ProgressModel::Fail(
                refused("cockpit layout inspection omitted root pane"@),
                at,
            ),
            (None, Some(root)) => match split(
                root,
                dashboard.direction,
                dashboard.ratio,
                request,
                replies,
                at,
            ) {
                ProgressModel::Wait(args) => ProgressModel::Wait(args),
                ProgressModel::Fail(error, next) => ProgressModel::Fail(error, next),
                ProgressModel::Done(pane, next) => match pane_runs(
                    pane.id,
                    request.label,
                    request,
                    replies,
                    next,
                ) {
                    ProgressModel::Wait(args) => ProgressModel::Wait(args),
                    ProgressModel::Fail(error, next) => ProgressModel::Fail(error, next),
                    ProgressModel::Done(_, next) => {
                        let label = match inspection.label_of(root) {
                            Some(label) => label,
                            None => Seq::empty(),
                        };
                        if blank(label) {
                            match answered(
                                replies,
                                next,
                                rename_args(root, WORKER_REGION_PLACEHOLDER_PANE@),
                            ) {
                                ProgressModel::Wait(args) => ProgressModel::Wait(args),
                                ProgressModel::Fail(error, next) => ProgressModel::Fail(
                                    error,
                                    next,
                                ),
                                ProgressModel::Done(_, next) => ProgressModel::Done(pane, next),
                            }
                        } else {
                            ProgressModel::Done(pane, next)
                        }
                    },
                },
            },
        },
    }
}

/// Makes sure that a workspace has a dashboard, as far as the replies reach.
pub fn ensure_dashboard_pane(
    workspace: &CockpitWorkspaceRef,
    dashboard: &CockpitDashboardLayout,
    request: &CockpitPaneRequest,
    replies: &Vec<HerdrReply>,
) -> (r: Progress<CockpitPaneRef>)
    ensures
        r.deep_view() == dashboard_ensured(workspace@, dashboard@, request@, replies.deep_view()),
{
    let (inspection, at) = match inspect(workspace, replies, 0, 1) {
        Progress::Wait(args) => {
            return Progress::Wait(args);
        },
        Progress::Fail(error, next) => {
            return Progress::Fail(error, next);
        },
        Progress::Done(inspection, at) => (inspection, at),
    };
    match inspection.dashboard_pane_id() {
        Some(id) => {
            return Progress::Done(CockpitPaneRef { id }, at);
        },
        None => {},
    }
    let root = match &inspection.root_pane_id {
        Some(root) => root.dup(),
        None => {
            return Progress::Fail(
                cockpit_error("cockpit layout inspection omitted root pane"),
                at,
            );
        },
    };
    let (pane, next) = match split_pane(
        root.as_str(),
        dashboard.direction,
        dashboard.ratio.as_str(),
        request,
        replies,
        at,
    ) {
        Progress::Wait(args) => {
            return Progress::Wait(args);
        },
        Progress::Fail(error, next) => {
            return Progress::Fail(error, next);
        },
        Progress::Done(pane, next) => (pane, next),
    };
    let next: usize = match run_pane_request_with_label(
        pane.id.as_str(),
        request.label.as_str(),
        request,
        replies,
        next,
    ) {
        Progress::Wait(args) => {
            return Progress::Wait(args);
        },
        Progress::Fail(error, next) => {
            return Progress::Fail(error, next);
        },
        Progress::Done(_, next) => next,
    };
    let label = match inspection.label_for_pane(root.as_str()) {
        Some(label) => label,
        None => String::new(),
    };
    if is_blank(label.as_str()) {
        match rename_pane(root.as_str(), WORKER_REGION_PLACEHOLDER_PANE, replies, next) {
            Progress::Wait(args) => Progress::Wait(args),
            Progress::Fail(error, next) => Progress::Fail(error, next),
            Progress::Done(_, next) => Progress::Done(pane, next),
        }
    } else {
        Progress::Done(pane, next)
    }
}

pub open spec fn placed(
    id: Seq<char>,
    slot: CockpitWorkerSlotModel,
    label: Seq<char>,
) -> CockpitWorkerPlacementModel {
    CockpitWorkerPlacementModel {
        pane: CockpitPaneRefModel { id },
        slot_name: slot.name,
        slot_index: slot.index,
        slot_region: slot.region,
        pane_label: slot.pane_label(label),
    }
}

fn placement(id: String, slot: &CockpitWorkerSlot, label: &str) -> (r: CockpitWorkerPlacement)
    ensures
        r@ == placed(id@, slot@, label@),
{
    CockpitWorkerPlacement {
        pane: CockpitPaneRef { id },
        slot_name: slot.name.dup(),
        slot_index: slot.index,
        slot_region: slot.region.dup(),
        pane_label: slot.pane_label(label),
    }
}

/// A pane is split off for a worker and put to work.
pub open spec fn split_for_worker(
    anchor: Seq<char>,
    direction: CockpitLayoutDirection,
    ratio: Seq<char>,
    slot: CockpitWorkerSlotModel,
    request: CockpitPaneRequestModel,
    replies: Seq<HerdrReplyModel>,
    at: usize,
) -> ProgressModel<CockpitWorkerPlacementModel> {
    match split(anchor, direction, ratio, request, replies, at) {
        ProgressModel::Wait(args) => ProgressModel::Wait(args),
        ProgressModel::Fail(error, next) => ProgressModel::Fail(error, next),
        ProgressModel::Done(pane, next) => put_to_work(pane.id, slot, request, replies, next),
    }
}

/// A pane takes the place of a worker and runs it.
pub open spec fn put_to_work(
    pane_id: Seq<char>,
    slot: CockpitWorkerSlotModel,
    request: CockpitPaneRequestModel,
    replies: Seq<HerdrReplyModel>,
    at: usize,
) -> ProgressModel<CockpitWorkerPlacementModel> {
    match pane_runs(pane_id, slot.pane_label(request.label), request, replies, at) {
        ProgressModel::Wait(args) => ProgressModel::Wait(args),
        ProgressModel::Fail(error, next) => ProgressModel::Fail(error, next),
        ProgressModel::Done(_, next) => ProgressModel::Done(
            placed(pane_id, slot, request.label),
            next,
        ),
    }
}

fn work_in_pane(
    pane_id: String,
    slot: &CockpitWorkerSlot,
    request: &CockpitPaneRequest,
    replies: &Vec<HerdrReply>,
    at: usize,
) -> (r: Progress<CockpitWorkerPlacement>)
    ensures
        r.deep_view() == put_to_work(pane_id@, slot@, request@, replies.deep_view(), at),
{
    let label = slot.pane_label(request.label.as_str());
    match run_pane_request_with_label(pane_id.as_str(), label.as_str(), request, replies, at) {
        Progress::Wait(args) => Progress::Wait(args),
        Progress::Fail(error, next) => Progress::Fail(error, next),
        Progress::Done(_, next) => Progress::Done(
            placement(pane_id, slot, request.label.as_str()),
            next,
        ),
    }
}

fn work_beside(
    anchor: &str,
    direction: CockpitLayoutDirection,
    ratio: &str,
    slot: &CockpitWorkerSlot,
    request: &CockpitPaneRequest,
    replies: &Vec<HerdrReply>,
    at: usize,
) -> (r: Progress<CockpitWorkerPlacement>)
    ensures
        r.deep_view() == split_for_worker(
            anchor@,
            direction,
            ratio@,
            slot@,
            request@,
            replies.deep_view(),
            at,
        ),
{
    match split_pane(anchor, direction, ratio, request, replies, at) {
        Progress::Wait(args) => Progress::Wait(args),
        Progress::Fail(error, next) => Progress::Fail(error, next),
        Progress::Done(pane, next) => work_in_pane(pane.id, slot, request, replies, next),
    }
}

pub open spec fn slot_without_split(slot: CockpitWorkerSlotModel) -> CockpitErrorModel {
    refused("cockpit layout slot "@ + slot.name + " omitted split"@)
}

pub open spec fn slot_without_anchor(slot: CockpitWorkerSlotModel, anchor: Seq<char>) -> CockpitErrorModel {
    refused("cockpit layout slot "@ + slot.name + " could not find anchor "@ + anchor)
}

fn no_split_error(slot: &CockpitWorkerSlot) -> (r: CockpitError)
    ensures
        r@ == slot_without_split(slot@),
{
    let mut message = "cockpit layout slot ".to_owned();
    message.append(slot.name.as_str());
    message.append(" omitted split");
    CockpitError { message }
}

fn no_anchor_error(slot: &CockpitWorkerSlot, anchor: &str) -> (r: CockpitError)
    ensures
        r@ == slot_without_anchor(slot@, anchor@),
{
    let mut message = "cockpit layout slot ".to_owned();
    message.append(slot.name.as_str());
    message.append(" could not find anchor ");
    message.append(anchor);
    CockpitError { message }
}

/// The pane of a worker. The first worker takes over a pane that is free for it; the others are
/// split off the pane of the worker that their place names.
pub open spec fn worker_placed(
    workspace: CockpitWorkspaceRefModel,
    slot: CockpitWorkerSlotModel,
    request: CockpitPaneRequestModel,
    replies: Seq<HerdrReplyModel>,
) -> ProgressModel<CockpitWorkerPlacementModel> {
    if slot.index != 1 && slot.split is None {
        ProgressModel::Fail(slot_without_split(slot), 0)
    } else {
        match inspected(workspace, replies, 0, 1) {
            ProgressModel::Wait(args) => ProgressModel::Wait(args),
            ProgressModel::Fail(error, next) => ProgressModel::Fail(error, next),
            ProgressModel::Done(inspection, at) => if slot.index == 1 {
                match (
                    inspection.reusable_pane(preferred_anchor(workspace)),
                    inspection.dashboard_pane(),
                ) {
                    (Some(id), _) => put_to_work(id, slot, request, replies, at),
                    (None, None) => ProgressModel::Fail(
                        refused("cockpit layout has no live pane available for worker slot 1"@),
                        at,
                    ),
                    (None, Some(dashboard)) => split_for_worker(
                        dashboard,
                        CockpitLayoutDirection::Down,
                        COCKPIT_LAYOUT_WORKER_SPLIT_RATIO@,
                        slot,
                        request,
                        replies,
                        at,
                    ),
                }
            } else {
                let wanted = slot.split->0;
                match inspection.slot_pane(wanted.anchor_slot) {
                    None => ProgressModel::Fail(slot_without_anchor(slot, wanted.anchor_slot), at),
                    Some(anchor) => split_for_worker(
                        anchor,
                        wanted.direction,
                        wanted.ratio,
                        slot,
                        request,
                        replies,
                        at,
                    ),
                }
            },
        }
    }
}

/// Places the pane of a worker, as far as the replies reach.
pub fn place_worker_slot_pane(
    workspace: &CockpitWorkspaceRef,
    slot: &CockpitWorkerSlot,
    request: &CockpitPaneRequest,
    replies: &Vec<HerdrReply>,
) -> (r: Progress<CockpitWorkerPlacement>)
    ensures
        r.deep_view() == worker_placed(workspace@, slot@, request@, replies.deep_view()),
{
    if slot.index != 1 && slot.split.is_none() {
        return Progress::Fail(no_split_error(slot), 0);
    }
    let (inspection, at) = match inspect(workspace, replies, 0, 1) {
        Progress::Wait(args) => {
            return Progress::Wait(args);
        },
        Progress::Fail(error, next) => {
            return Progress::Fail(error, next);
        },
        Progress::Done(inspection, at) => (inspection, at),
    };
    if slot.index == 1 {
        let preferred = preferred_anchor_id(workspace);
        match inspection.slot_one_reusable_pane_id(&preferred) {
            Some(id) => {
                return work_in_pane(id, slot, request, replies, at);
            },
            None => {},
        }
        return match inspection.dashboard_pane_id() {
            Some(dashboard) => work_beside(
                dashboard.as_str(),
                CockpitLayoutDirection::Down,
                COCKPIT_LAYOUT_WORKER_SPLIT_RATIO,
                slot,
                request,
                replies,
                at,
            ),
            None => Progress::Fail(
                cockpit_error("cockpit layout has no live pane available for worker slot 1"),
                at,
            ),
        };
    }
    match &slot.split {
        Some(wanted) => match inspection.worker_slot_pane_id(wanted.anchor_slot.as_str()) {
            Some(anchor) => work_beside(
                anchor.as_str(),
                wanted.direction,
                wanted.ratio.as_str(),
                slot,
                request,
                replies,
                at,
            ),
            None => Progress::Fail(no_anchor_error(slot, wanted.anchor_slot.as_str()), at),
        },
        None => Progress::Fail(no_split_error(slot), 0),
    }
}

/// Where a worker that runs in a terminal of its own is moved.
pub open spec fn tui_target(
    workspace: CockpitWorkspaceRefModel,
    slot: CockpitWorkerSlotModel,
    inspection: CockpitLayoutInspectionModel,
) -> Result<TuiTargetModel, CockpitErrorModel> {
    if slot.index == 1 {
        match inspection.slot_one_target(preferred_anchor(workspace)) {
            Err(error) => Err(error),
            Ok(target) => Ok(
                TuiTargetModel {
                    pane_id: target.pane_id,
                    tab_id: target.tab_id,
                    direction: CockpitLayoutDirection::Down,
                    ratio: COCKPIT_LAYOUT_WORKER_SPLIT_RATIO@,
                    replaced: if target.close_after_move {
                        Some(target.pane_id)
                    } else {
                        None
                    },
                },
            ),
        }
    } else {
        match slot.split {
            None => Err(slot_without_split(slot)),
            Some(wanted) => match inspection.slot_pane(wanted.anchor_slot) {
                None => Err(slot_without_anchor(slot, wanted.anchor_slot)),
                Some(anchor) => match inspection.tab_of(anchor) {
                    None => Err(refused("cockpit layout anchor pane omitted tab id"@)),
                    Some(tab_id) => Ok(
                        TuiTargetModel {
                            pane_id: anchor,
                            tab_id,
                            direction: wanted.direction,
                            ratio: wanted.ratio,
                            replaced: None,
                        },
                    ),
                },
            },
        }
    }
}

fn find_tui_target(
    workspace: &CockpitWorkspaceRef,
    slot: &CockpitWorkerSlot,
    inspection: &CockpitLayoutInspection,
) -> (r: Result<TuiTarget, CockpitError>)
    ensures
        super::layout::reply(r) == tui_target(workspace@, slot@, inspection@),
{
    if slot.index == 1 {
        let preferred = preferred_anchor_id(workspace);
        return match inspection.slot_one_target(&preferred) {
            Ok(target) => {
                let replaced = if target.close_after_move {
                    Some(target.pane_id.dup())
                } else {
                    None
                };
                Ok(
                    TuiTarget {
                        pane_id: target.pane_id,
                        tab_id: target.tab_id,
                        direction: CockpitLayoutDirection::Down,
                        ratio: COCKPIT_LAYOUT_WORKER_SPLIT_RATIO.to_owned(),
                        replaced,
                    },
                )
            },
            Err(error) => Err(error),
        };
    }
    let wanted = match &slot.split {
        Some(wanted) => wanted,
        None => {
            return Err(no_split_error(slot));
        },
    };
    let anchor = match inspection.worker_slot_pane_id(wanted.anchor_slot.as_str()) {
        Some(anchor) => anchor,
        None => {
            return Err(no_anchor_error(slot, wanted.anchor_slot.as_str()));
        },
    };
    match inspection.tab_id_for_pane(anchor.as_str()) {
        Some(tab_id) => Ok(
            TuiTarget {
                pane_id: anchor,
                tab_id,
                direction: wanted.direction,
                ratio: wanted.ratio.dup(),
                replaced: None,
            },
        ),
        None => Err(cockpit_error("cockpit layout anchor pane omitted tab id")),
    }
}

pub open spec fn create_tab_args(
    workspace: CockpitWorkspaceRefModel,
    request: CockpitTuiWorkerRequestModel,
) -> Seq<Seq<char>> {
    seq![
        "tab"@,
        "create"@,
        "--workspace"@,
        workspace.id,
        "--cwd"@,
        request.cwd,
        "--label"@,
        request.name + " staging"@,
        "--no-focus"@,
    ]
}

pub open spec fn temp_tab(
    workspace: CockpitWorkspaceRefModel,
    request: CockpitTuiWorkerRequestModel,
    replies: Seq<HerdrReplyModel>,
    at: usize,
) -> ProgressModel<HerdrTempTabModel> {
    match answered(replies, at, create_tab_args(workspace, request)) {
        ProgressModel::Wait(args) => ProgressModel::Wait(args),
        ProgressModel::Fail(error, next) => ProgressModel::Fail(error, next),
        ProgressModel::Done(stdout, next) => match (
            result_text(stdout, "tab"@, "tab_id"@),
            result_text(stdout, "root_pane"@, "pane_id"@),
        ) {
            (None, _) => ProgressModel::Fail(refused("herdr tab create omitted tab_id"@), next),
            (Some(_), None) => ProgressModel::Fail(
                refused("herdr tab create omitted root_pane.pane_id"@),
                next,
            ),
            (Some(tab_id), Some(root_pane_id)) => ProgressModel::Done(
                HerdrTempTabModel { tab_id, root_pane_id },
                next,
            ),
        },
    }
}

fn create_temp_tui_worker_tab(
    workspace: &CockpitWorkspaceRef,
    request: &CockpitTuiWorkerRequest,
    replies: &Vec<HerdrReply>,
    at: usize,
) -> (r: Progress<HerdrTempTab>)
    ensures
        r.deep_view() == temp_tab(workspace@, request@, replies.deep_view(), at),
{
    let mut label = request.name.dup();
    label.append(" staging");
    let args = vec![
        "tab".to_owned(),
        "create".to_owned(),
        "--workspace".to_owned(),
        workspace.id.dup(),
        "--cwd".to_owned(),
        request.cwd.dup(),
        "--label".to_owned(),
        label,
        "--no-focus".to_owned(),
    ];
    assert(args.deep_view() =~= create_tab_args(workspace@, request@));
    match ask(replies, at, args) {
        Progress::Wait(args) => Progress::Wait(args),
        Progress::Fail(error, next) => Progress::Fail(error, next),
        Progress::Done(stdout, next) => {
            let tab_id = match read_result_text(stdout.as_str(), "tab", "tab_id") {
                Some(tab_id) => tab_id,
                None => {
                    return Progress::Fail(cockpit_error("herdr tab create omitted tab_id"), next);
                },
            };
            match read_result_text(stdout.as_str(), "root_pane", "pane_id") {
                Some(root_pane_id) => Progress::Done(HerdrTempTab { tab_id, root_pane_id }, next),
                None => Progress::Fail(
                    cockpit_error("herdr tab create omitted root_pane.pane_id"),
                    next,
                ),
            }
        },
    }
}

/// The command that starts a worker, in a tab or a workspace.
pub open spec fn start_args(
    request: CockpitTuiWorkerRequestModel,
    place_flag: Seq<char>,
    place: Seq<char>,
) -> Seq<Seq<char>> {
    seq![
        "agent"@,
        "start"@,
        request.name,
        "--cwd"@,
        request.cwd,
        place_flag,
        place,
        "--split"@,
        "down"@,
    ] + env_args(request.env) + seq![
        "--env"@,
        "KHAZAD_TUI_WORKER_ID="@ + request.run_id + ":"@ + request.slice_id + ":"@ + decimal(
            request.attempt as nat,
        ),
        "--no-focus"@,
        "--"@,
    ] + request.argv
}

fn start_command(request: &CockpitTuiWorkerRequest, place_flag: &str, place: &str) -> (r: Vec<
    String,
>)
    ensures
        r.deep_view() == start_args(request@, place_flag@, place@),
{
    let mut args = vec![
        "agent".to_owned(),
        "start".to_owned(),
        request.name.dup(),
        "--cwd".to_owned(),
        request.cwd.dup(),
        place_flag.to_owned(),
        place.to_owned(),
        "--split".to_owned(),
        "down".to_owned(),
    ];
    push_env(&mut args, &request.env);
    let ghost front = args.deep_view();
    let mut id = "KHAZAD_TUI_WORKER_ID=".to_owned();
    id.append(request.run_id.as_str());
    id.append(":");
    id.append(request.slice_id.as_str());
    id.append(":");
    append_decimal(&mut id, request.attempt as u64);
    args.push("--env".to_owned());
    args.push(id);
    args.push("--no-focus".to_owned());
    args.push("--".to_owned());
    let ghost longer = args.deep_view();
    assert(longer =~= front + seq![
        "--env"@,
        "KHAZAD_TUI_WORKER_ID="@ + request@.run_id + ":"@ + request@.slice_id + ":"@ + decimal(
            request@.attempt as nat,
        ),
        "--no-focus"@,
        "--"@,
    ]);
    let mut i: usize = 0;
    assert(longer + request@.argv.take(0) =~= longer);
    while i < request.argv.len()
        invariant
            i <= request.argv.len(),
            args.deep_view() == longer + request@.argv.take(i as int),
        decreases request.argv.len() - i,
    {
        let ghost so_far = args.deep_view();
        let word = request.argv[i].dup();
        args.push(word);
        assert(args.deep_view() =~= so_far.push(word@));
        assert(request@.argv.take(i + 1) =~= request@.argv.take(i as int).push(
            request.argv@[i as int]@,
        ));
        assert(args.deep_view() =~= longer + request@.argv.take(i + 1));
        i = i + 1;
    }
    assert(request@.argv.take(i as int) =~= request@.argv);
    args
}

/// What herdr says of a worker that it has started.
pub open spec fn tui_worker_of(stdout: Seq<char>, request: CockpitTuiWorkerRequestModel) -> Result<
    CockpitTuiWorkerOpenedModel,
    CockpitErrorModel,
> {
    match member_of(member(stdout, "result"@), "agent"@) {
        None => Err(refused("herdr agent start omitted result.agent"@)),
        Some(agent) => match text_in(member(agent, "pane_id"@)) {
            None => Err(refused("herdr agent start omitted agent.pane_id"@)),
            Some(pane_id) => Ok(
                CockpitTuiWorkerOpenedModel {
                    adapter: "herdr"@,
                    mode: CockpitMode::Herdr,
                    workspace_label: Seq::empty(),
                    agent_name: request.name,
                    pane_label: Seq::empty(),
                    pane_id,
                    terminal_id: item_text(agent, "terminal_id"@),
                    slot_name: Seq::empty(),
                    slot_index: 0,
                    slot_region: Seq::empty(),
                },
            ),
        },
    }
}

pub open spec fn tui_started(
    request: CockpitTuiWorkerRequestModel,
    place_flag: Seq<char>,
    place: Seq<char>,
    replies: Seq<HerdrReplyModel>,
    at: usize,
) -> ProgressModel<CockpitTuiWorkerOpenedModel> {
    match answered(replies, at, start_args(request, place_flag, place)) {
        ProgressModel::Wait(args) => ProgressModel::Wait(args),
        ProgressModel::Fail(error, next) => ProgressModel::Fail(error, next),
        ProgressModel::Done(stdout, next) => match tui_worker_of(stdout, request) {
            Err(error) => ProgressModel::Fail(error, next),
            Ok(opened) => ProgressModel::Done(opened, next),
        },
    }
}

fn start_tui(
    request: &CockpitTuiWorkerRequest,
    place_flag: &str,
    place: &str,
    replies: &Vec<HerdrReply>,
    at: usize,
) -> (r: Progress<CockpitTuiWorkerOpened>)
    ensures
        r.deep_view() == tui_started(request@, place_flag@, place@, replies.deep_view(), at),
{
    match ask(replies, at, start_command(request, place_flag, place)) {
        Progress::Wait(args) => Progress::Wait(args),
        Progress::Fail(error, next) => Progress::Fail(error, next),
        Progress::Done(stdout, next) => {
            let result = get(stdout.as_str(), "result");
            let agent = match get_in(&result, "agent") {
                Some(agent) => agent,
                None => {
                    return Progress::Fail(
                        cockpit_error("herdr agent start omitted result.agent"),
                        next,
                    );
                },
            };
            let document = get(agent.as_str(), "pane_id");
            match read_text(&document) {
                Some(pane_id) => Progress::Done(
                    CockpitTuiWorkerOpened {
                        adapter: "herdr".to_owned(),
                        mode: CockpitMode::Herdr,
                        workspace_label: String::new(),
                        agent_name: request.name.dup(),
                        pane_label: String::new(),
                        pane_id,
                        terminal_id: read_item_text(agent.as_str(), "terminal_id"),
                        slot_name: String::new(),
                        slot_index: 0,
                        slot_region: String::new(),
                    },
                    next,
                ),
                None => Progress::Fail(
                    cockpit_error("herdr agent start omitted agent.pane_id"),
                    next,
                ),
            }
        },
    }
}

pub open spec fn move_args(pane_id: Seq<char>, target: TuiTargetModel) -> Seq<Seq<char>> {
    seq![
        "pane"@,
        "move"@,
        pane_id,
        "--tab"@,
        target.tab_id,
        "--split"@,
        target.direction.text(),
        "--target-pane"@,
        target.pane_id,
        "--ratio"@,
        target.ratio,
        "--no-focus"@,
    ]
}

fn move_command(pane_id: &str, target: &TuiTarget) -> (r: Vec<String>)
    ensures
        r.deep_view() == move_args(pane_id@, target@),
{
    let args = vec![
        "pane".to_owned(),
        "move".to_owned(),
        pane_id.to_owned(),
        "--tab".to_owned(),
        target.tab_id.dup(),
        "--split".to_owned(),
        target.direction.as_herdr_arg().to_owned(),
        "--target-pane".to_owned(),
        target.pane_id.dup(),
        "--ratio".to_owned(),
        target.ratio.dup(),
        "--no-focus".to_owned(),
    ];
    assert(args.deep_view() =~= move_args(pane_id@, target@));
    args
}

/// A worker that was started moves to its place, takes its label, and the panes that made way for
/// it are closed.
pub open spec fn tui_settled(
    pane_id: Seq<char>,
    label: Seq<char>,
    target: TuiTargetModel,
    tab: HerdrTempTabModel,
    replies: Seq<HerdrReplyModel>,
    at: usize,
) -> ProgressModel<()> {
    match answered(replies, at, move_args(pane_id, target)) {
        ProgressModel::Wait(args) => ProgressModel::Wait(args),
        ProgressModel::Fail(error, next) => ProgressModel::Fail(error, next),
        ProgressModel::Done(_, moved) => match answered(
            replies,
            moved,
            rename_args(pane_id, label),
        ) {
            ProgressModel::Wait(args) => ProgressModel::Wait(args),
            ProgressModel::Fail(error, next) => ProgressModel::Fail(error, next),
            ProgressModel::Done(_, named) => match target.replaced {
                None => ran(replies, named, close_args(tab.root_pane_id)),
                Some(replaced) => match ran(replies, named, close_args(replaced)) {
                    ProgressModel::Wait(args) => ProgressModel::Wait(args),
                    ProgressModel::Fail(error, next) => ProgressModel::Fail(error, next),
                    ProgressModel::Done(_, closed) => ran(
                        replies,
                        closed,
                        close_args(tab.root_pane_id),
                    ),
                },
            },
        },
    }
}

fn settle_tui(
    pane_id: &str,
    label: &str,
    target: &TuiTarget,
    tab: &HerdrTempTab,
    replies: &Vec<HerdrReply>,
    at: usize,
) -> (r: Progress<()>)
    ensures
        r.deep_view() == tui_settled(pane_id@, label@, target@, tab@, replies.deep_view(), at),
{
    let moved: usize = match ask(replies, at, move_command(pane_id, target)) {
        Progress::Wait(args) => {
            return Progress::Wait(args);
        },
        Progress::Fail(error, next) => {
            return Progress::Fail(error, next);
        },
        Progress::Done(_, moved) => moved,
    };
    let named: usize = match rename_pane(pane_id, label, replies, moved) {
        Progress::Wait(args) => {
            return Progress::Wait(args);
        },
        Progress::Fail(error, next) => {
            return Progress::Fail(error, next);
        },
        Progress::Done(_, named) => named,
    };
    match &target.replaced {
        None => run(replies, named, close_command(tab.root_pane_id.as_str())),
        Some(replaced) => match run(replies, named, close_command(replaced.as_str())) {
            Progress::Wait(args) => Progress::Wait(args),
            Progress::Fail(error, next) => Progress::Fail(error, next),
            Progress::Done(_, closed) => run(
                replies,
                closed,
                close_command(tab.root_pane_id.as_str()),
            ),
        },
    }
}

/// Panes are closed, whatever comes of it, and the task has failed.
pub open spec fn failed_after_closing<V>(
    panes: Seq<Seq<char>>,
    error: CockpitErrorModel,
    replies: Seq<HerdrReplyModel>,
    at: usize,
) -> ProgressModel<V>
    decreases panes.len(),
{
    if panes.len() == 0 {
        ProgressModel::Fail(error, at)
    } else if at >= replies.len() {
        ProgressModel::Wait(close_args(panes[0]))
    } else {
        failed_after_closing(panes.skip(1), error, replies, next_at(at))
    }
}

fn fail_after_closing<T: DeepView>(
    first: &str,
    second: Option<&str>,
    error: CockpitError,
    replies: &Vec<HerdrReply>,
    at: usize,
) -> (r: Progress<T>)
    ensures
        r.deep_view() == failed_after_closing::<T::V>(
            match second {
                Some(second) => seq![first@, second@],
                None => seq![first@],
            },
            error@,
            replies.deep_view(),
            at,
        ),
{
    proof {
        reveal_with_fuel(failed_after_closing, 3);
        if second is Some {
            let both = seq![first@, (second->0)@];
            assert(both.skip(1) =~= seq![(second->0)@]);
            assert(seq![(second->0)@].skip(1) =~= Seq::<Seq<char>>::empty());
        } else {
            assert(seq![first@].skip(1) =~= Seq::<Seq<char>>::empty());
        }
    }
    if at >= replies.len() {
        return Progress::Wait(close_command(first));
    }
    let next: usize = at + 1;
    match second {
        None => Progress::Fail(error, next),
        Some(second) => {
            if next >= replies.len() {
                Progress::Wait(close_command(second))
            } else {
                Progress::Fail(error, next + 1)
            }
        },
    }
}

/// A worker is started beside the others: first in a tab of its own, then moved to its place. What
/// was started for a worker that cannot be placed is closed again.
pub open spec fn tui_placed_once(
    workspace: CockpitWorkspaceRefModel,
    slot: CockpitWorkerSlotModel,
    request: CockpitTuiWorkerRequestModel,
    replies: Seq<HerdrReplyModel>,
    at: usize,
) -> ProgressModel<CockpitTuiWorkerOpenedModel> {
    let label = slot.pane_label(worker_label(request.run_id, request.slice_id, request.attempt));
    match inspected(workspace, replies, at, 1) {
        ProgressModel::Wait(args) => ProgressModel::Wait(args),
        ProgressModel::Fail(error, next) => ProgressModel::Fail(error, next),
        ProgressModel::Done(inspection, looked) => match tui_target(workspace, slot, inspection) {
            Err(error) => ProgressModel::Fail(error, looked),
            Ok(target) => match temp_tab(workspace, request, replies, looked) {
                ProgressModel::Wait(args) => ProgressModel::Wait(args),
                ProgressModel::Fail(error, next) => ProgressModel::Fail(error, next),
                ProgressModel::Done(tab, staged) => match tui_started(
                    request,
                    "--tab"@,
                    tab.tab_id,
                    replies,
                    staged,
                ) {
                    ProgressModel::Wait(args) => ProgressModel::Wait(args),
                    ProgressModel::Fail(error, next) => failed_after_closing(
                        seq![tab.root_pane_id],
                        error,
                        replies,
                        next,
                    ),
                    ProgressModel::Done(opened, started) => match tui_settled(
                        opened.pane_id,
                        label,
                        target,
                        tab,
                        replies,
                        started,
                    ) {
                        ProgressModel::Wait(args) => ProgressModel::Wait(args),
                        ProgressModel::Fail(error, next) => failed_after_closing(
                            seq![opened.pane_id, tab.root_pane_id],
                            error,
                            replies,
                            next,
                        ),
                        ProgressModel::Done(_, next) => ProgressModel::Done(
                            CockpitTuiWorkerOpenedModel {
                                pane_label: label,
                                slot_name: slot.name,
                                slot_index: slot.index,
                                slot_region: slot.region,
                                ..opened
                            },
                            next,
                        ),
                    },
                },
            },
        },
    }
}

/// Starts a worker in its place once, as far as the replies reach.
pub fn start_tui_worker_agent_in_slot_once(
    workspace: &CockpitWorkspaceRef,
    slot: &CockpitWorkerSlot,
    request: &CockpitTuiWorkerRequest,
    replies: &Vec<HerdrReply>,
    at: usize,
) -> (r: Progress<CockpitTuiWorkerOpened>)
    ensures
        r.deep_view() == tui_placed_once(workspace@, slot@, request@, replies.deep_view(), at),
{
    let (inspection, looked) = match inspect(workspace, replies, at, 1) {
        Progress::Wait(args) => {
            return Progress::Wait(args);
        },
        Progress::Fail(error, next) => {
            return Progress::Fail(error, next);
        },
        Progress::Done(inspection, looked) => (inspection, looked),
    };
    let target = match find_tui_target(workspace, slot, &inspection) {
        Ok(target) => target,
        Err(error) => {
            return Progress::Fail(error, looked);
        },
    };
    let (tab, staged) = match create_temp_tui_worker_tab(workspace, request, replies, looked) {
        Progress::Wait(args) => {
            return Progress::Wait(args);
        },
        Progress::Fail(error, next) => {
            return Progress::Fail(error, next);
        },
        Progress::Done(tab, staged) => (tab, staged),
    };
    let (opened, started) = match start_tui(request, "--tab", tab.tab_id.as_str(), replies, staged) {
        Progress::Wait(args) => {
            return Progress::Wait(args);
        },
        Progress::Fail(error, next) => {
            return fail_after_closing(tab.root_pane_id.as_str(), None, error, replies, next);
        },
        Progress::Done(opened, started) => (opened, started),
    };
    let settled = opened_in_slot(opened, slot, request);
    match settle_tui(
        settled.pane_id.as_str(),
        settled.pane_label.as_str(),
        &target,
        &tab,
        replies,
        started,
    ) {
        Progress::Wait(args) => Progress::Wait(args),
        Progress::Fail(error, next) => fail_after_closing(
            settled.pane_id.as_str(),
            Some(tab.root_pane_id.as_str()),
            error,
            replies,
            next,
        ),
        Progress::Done(_, next) => Progress::Done(settled, next),
    }
}

/// A worker in its place. Where a pane is gone in between, everything is tried once more.
pub open spec fn tui_placed(
    workspace: CockpitWorkspaceRefModel,
    slot: CockpitWorkerSlotModel,
    request: CockpitTuiWorkerRequestModel,
    replies: Seq<HerdrReplyModel>,
) -> ProgressModel<CockpitTuiWorkerOpenedModel> {
    match tui_placed_once(workspace, slot, request, replies, 0) {
        ProgressModel::Fail(error, next) => if pane_not_found(error.message) {
            tui_placed_once(workspace, slot, request, replies, next)
        } else {
            ProgressModel::Fail(error, next)
        },
        other => other,
    }
}

/// Starts a worker in its place, as far as the replies reach.
pub fn start_tui_worker_agent_in_slot(
    workspace: &CockpitWorkspaceRef,
    slot: &CockpitWorkerSlot,
    request: &CockpitTuiWorkerRequest,
    replies: &Vec<HerdrReply>,
) -> (r: Progress<CockpitTuiWorkerOpened>)
    ensures
        r.deep_view() == tui_placed(workspace@, slot@, request@, replies.deep_view()),
{
    match start_tui_worker_agent_in_slot_once(workspace, slot, request, replies, 0) {
        Progress::Fail(error, next) => {
            if is_herdr_pane_not_found_error(&error) {
                start_tui_worker_agent_in_slot_once(workspace, slot, request, replies, next)
            } else {
                Progress::Fail(error, next)
            }
        },
        other => other,
    }
}

/// Starts a worker anywhere in a workspace, as far as the replies reach.
pub fn start_tui_worker_agent(
    workspace: &CockpitWorkspaceRef,
    request: &CockpitTuiWorkerRequest,
    replies: &Vec<HerdrReply>,
) -> (r: Progress<CockpitTuiWorkerOpened>)
    ensures
        r.deep_view() == tui_started(
            request@,
            "--workspace"@,
            workspace@.id,
            replies.deep_view(),
            0,
        ),
{
    start_tui(request, "--workspace", workspace.id.as_str(), replies, 0)
}

/// Closes a pane, as far as the replies reach.
pub fn close_pane(pane_id: &str, replies: &Vec<HerdrReply>) -> (r: Progress<()>)
    ensures
        r.deep_view() == ran(replies.deep_view(), 0, close_args(pane_id@)),
{
    run(replies, 0, close_command(pane_id))
}

/// Sends a message to an agent, as far as the replies reach.
pub fn send_agent_message(target: &str, text: &str, replies: &Vec<HerdrReply>) -> (r: Progress<()>)
    ensures
        r.deep_view() == ran(
            replies.deep_view(),
            0,
            seq!["agent"@, "send"@, target@, text@],
        ),
{
    let args = vec!["agent".to_owned(), "send".to_owned(), target.to_owned(), text.to_owned()];
    assert(args.deep_view() =~= seq!["agent"@, "send"@, target@, text@]);
    run(replies, 0, args)
}

/// Brings an agent to the front, as far as the replies reach.
pub fn focus_agent(target: &str, replies: &Vec<HerdrReply>) -> (r: Progress<()>)
    ensures
        r.deep_view() == ran(replies.deep_view(), 0, seq!["agent"@, "focus"@, target@]),
{
    let args = vec!["agent".to_owned(), "focus".to_owned(), target.to_owned()];
    assert(args.deep_view() =~= seq!["agent"@, "focus"@, target@]);
    run(replies, 0, args)
}

/// Renames an agent, as far as the replies reach.
pub fn rename_agent(target: &str, name: &str, replies: &Vec<HerdrReply>) -> (r: Progress<()>)
    ensures
        r.deep_view() == ran(
            replies.deep_view(),
            0,
            seq!["agent"@, "rename"@, target@, name@],
        ),
{
    let args = vec!["agent".to_owned(), "rename".to_owned(), target.to_owned(), name.to_owned()];
    assert(args.deep_view() =~= seq!["agent"@, "rename"@, target@, name@]);
    run(replies, 0, args)
}

} // verus!
