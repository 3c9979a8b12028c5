//! Where the panes of a workspace stand, and which of them can be used.
use super::types::{
    CockpitDashboardLayout, CockpitDashboardLayoutModel, CockpitError, CockpitErrorModel,
    CockpitLayoutDirection, CockpitLayoutInspection, CockpitLayoutInspectionModel,
    CockpitLayoutPane, CockpitLayoutPaneModel, CockpitLayoutPlan, CockpitLayoutPlanModel,
    CockpitSlotOneTarget, CockpitSlotOneTargetModel, CockpitWorkerSlot, CockpitWorkerSlotModel,
    CockpitWorkerSplit, CockpitWorkerSplitModel,
};
use crate::table::{find_row, first, Row};
use crate::text::{
    after_prefix, all_digits, append_decimal, begins_with, blank, chars_of, decimal, digits_from,
    digits_value, is_blank, same_text, strip_prefix, text_between,
};
use vstd::prelude::*;
use vstd::string::*;

verus! {

pub const RUN_STATUS_FEED_PANE: &'static str = "Dashboard";

pub const WORKER_REGION_PLACEHOLDER_PANE: &'static str = "Worker region (pending)";

pub const COCKPIT_LAYOUT_MAX_WORKERS: usize = 4;

pub const COCKPIT_LAYOUT_WORKER_REGION_RATIO: &'static str = "0.68";

pub const COCKPIT_LAYOUT_WORKER_SPLIT_RATIO: &'static str = "0.50";

/// The model of an answer of the cockpit.
pub open spec fn reply<T: DeepView>(r: Result<T, CockpitError>) -> Result<T::V, CockpitErrorModel> {
    match r {
        Ok(value) => Ok(value.deep_view()),
        Err(error) => Err(error@),
    }
}

pub open spec fn refused(message: Seq<char>) -> CockpitErrorModel {
    CockpitErrorModel { message }
}

pub fn cockpit_error(message: &str) -> (r: CockpitError)
    ensures
        r@ == refused(message@),
{
    CockpitError { message: message.to_owned() }
}

pub open spec fn split_off(anchor_slot: Seq<char>, direction: CockpitLayoutDirection) -> Option<
    CockpitWorkerSplitModel,
> {
    Some(
        CockpitWorkerSplitModel {
            anchor_slot,
            direction,
            ratio: COCKPIT_LAYOUT_WORKER_SPLIT_RATIO@,
        },
    )
}

pub open spec fn slot(
    index: usize,
    name: Seq<char>,
    split: Option<CockpitWorkerSplitModel>,
) -> CockpitWorkerSlotModel {
    CockpitWorkerSlotModel { index, name, region: "left-worker-region"@, split }
}

/// The places for workers: a grid of two columns, filled from the upper left.
pub open spec fn worker_slots() -> Seq<CockpitWorkerSlotModel> {
    seq![
        slot(1, "worker-1"@, None),
        slot(2, "worker-2"@, split_off("worker-1"@, CockpitLayoutDirection::Right)),
        slot(3, "worker-3"@, split_off("worker-1"@, CockpitLayoutDirection::Down)),
        slot(4, "worker-4"@, split_off("worker-2"@, CockpitLayoutDirection::Down)),
    ]
}

pub open spec fn dashboard_layout() -> CockpitDashboardLayoutModel {
    CockpitDashboardLayoutModel {
        name: RUN_STATUS_FEED_PANE@,
        region: "right-dashboard"@,
        split_from_slot: "worker-1"@,
        direction: CockpitLayoutDirection::Right,
        ratio: COCKPIT_LAYOUT_WORKER_REGION_RATIO@,
    }
}

/// The plan for so many workers.
pub open spec fn layout_plan(worker_count: usize) -> Result<
    CockpitLayoutPlanModel,
    CockpitErrorModel,
> {
    if 1 <= worker_count <= COCKPIT_LAYOUT_MAX_WORKERS {
        Ok(
            CockpitLayoutPlanModel {
                worker_count,
                dashboard: dashboard_layout(),
                worker_slots: worker_slots().take(worker_count as int),
            },
        )
    } else {
        Err(
            refused(
                "cockpit layout v2 supports 1-4 workers, got "@ + decimal(worker_count as nat),
            ),
        )
    }
}

#[derive(Debug, Clone, Copy)]
pub struct CockpitLayoutPlanner;

fn make_slot(index: usize, name: &str, split: Option<CockpitWorkerSplit>) -> (r: CockpitWorkerSlot)
    ensures
        r@ == slot(index, name@, split.deep_view()),
{
    CockpitWorkerSlot {
        index,
        name: name.to_owned(),
        region: "left-worker-region".to_owned(),
        split,
    }
}

fn make_split(anchor_slot: &str, direction: CockpitLayoutDirection) -> (r: Option<
    CockpitWorkerSplit,
>)
    ensures
        r.deep_view() == split_off(anchor_slot@, direction),
{
    Some(
        CockpitWorkerSplit {
            anchor_slot: anchor_slot.to_owned(),
            direction,
            ratio: COCKPIT_LAYOUT_WORKER_SPLIT_RATIO.to_owned(),
        },
    )
}

impl CockpitLayoutPlanner {
    /// Plans the panes of so many workers. There is a slot for one to four of them.
    pub fn plan(&self, worker_count: usize) -> (r: Result<CockpitLayoutPlan, CockpitError>)
        ensures
            reply(r) == layout_plan(worker_count),
    {
        if worker_count < 1 || worker_count > COCKPIT_LAYOUT_MAX_WORKERS {
            let mut message = "cockpit layout v2 supports 1-4 workers, got ".to_owned();
            append_decimal(&mut message, worker_count as u64);
            return Err(CockpitError { message });
        }
        let mut slots: Vec<CockpitWorkerSlot> = Vec::new();
        slots.push(make_slot(1, "worker-1", None));
        if worker_count >= 2 {
            slots.push(
                make_slot(2, "worker-2", make_split("worker-1", CockpitLayoutDirection::Right)),
            );
        }
        if worker_count >= 3 {
            slots.push(
                make_slot(3, "worker-3", make_split("worker-1", CockpitLayoutDirection::Down)),
            );
        }
        if worker_count >= 4 {
            slots.push(
                make_slot(4, "worker-4", make_split("worker-2", CockpitLayoutDirection::Down)),
            );
        }
        assert(slots.deep_view() =~= worker_slots().take(worker_count as int));
        Ok(
            CockpitLayoutPlan {
                worker_count,
                dashboard: CockpitDashboardLayout {
                    name: RUN_STATUS_FEED_PANE.to_owned(),
                    region: "right-dashboard".to_owned(),
                    split_from_slot: "worker-1".to_owned(),
                    direction: CockpitLayoutDirection::Right,
                    ratio: COCKPIT_LAYOUT_WORKER_REGION_RATIO.to_owned(),
                },
                worker_slots: slots,
            },
        )
    }
}

/// A worker keeps its place when more workers come: the plan for fewer workers is the beginning of
/// the plan for more.
pub proof fn law_worker_slots_are_stable(fewer: usize, more: usize)
    requires
        1 <= fewer <= more <= COCKPIT_LAYOUT_MAX_WORKERS,
    ensures
        layout_plan(fewer) is Ok,
        layout_plan(more) is Ok,
        layout_plan(fewer)->Ok_0.worker_slots == layout_plan(more)->Ok_0.worker_slots.take(
            fewer as int,
        ),
        layout_plan(fewer)->Ok_0.dashboard == layout_plan(more)->Ok_0.dashboard,
{
    assert(worker_slots().take(more as int).take(fewer as int) =~= worker_slots().take(
        fewer as int,
    ));
}

/// Every place but the first is split off a place that stands before it.
pub proof fn law_worker_slots_are_anchored(worker_count: usize, i: int)
    requires
        1 <= worker_count <= COCKPIT_LAYOUT_MAX_WORKERS,
        0 <= i < worker_count,
    ensures
        ({
            let slots = layout_plan(worker_count)->Ok_0.worker_slots;
            &&& slots.len() == worker_count
            &&& slots[i].index == i + 1
            &&& i == 0 <==> slots[i].split is None
            &&& i > 0 ==> exists|j: int|
                0 <= j < i && (#[trigger] slots[j]).name == slots[i].split->0.anchor_slot
        }),
{
    let slots = layout_plan(worker_count)->Ok_0.worker_slots;
    if i == 1 || i == 2 {
        assert(slots[0].name == slots[i].split->0.anchor_slot);
    } else if i == 3 {
        assert(slots[1].name == slots[i].split->0.anchor_slot);
    }
}

impl CockpitWorkerSlotModel {
    /// The label of a pane in this place.
    pub open spec fn pane_label(self, worker_label: Seq<char>) -> Seq<char> {
        self.name + ": "@ + worker_label
    }
}

impl CockpitWorkerSlot {
    /// The label of a pane in the slot.
    pub fn pane_label(&self, worker_label: &str) -> (r: String)
        ensures
            r@ == self@.pane_label(worker_label@),
    {
        let mut r = self.name.dup();
        r.append(": ");
        r.append(worker_label);
        r
    }
}

/// The number that is written as a count, with or without a plus sign.
pub open spec fn written_count(s: Seq<char>) -> Option<usize> {
    let digits = if s.len() > 0 && s[0] == '+' {
        s.skip(1)
    } else {
        s
    };
    if all_digits(digits) && digits_value(digits) <= usize::MAX {
        Some(digits_value(digits) as usize)
    } else {
        None
    }
}

fn read_count(s: &str) -> (r: Option<usize>)
    ensures
        r == written_count(s@),
{
    let chars = chars_of(s);
    let start: usize = if chars.len() > 0 && chars[0] == '+' {
        1
    } else {
        0
    };
    assert(s@.skip(0) =~= s@);
    match digits_from(&chars, start, usize::MAX as u64) {
        Some(n) => Some(n as usize),
        None => None,
    }
}

/// What stands before the first occurrence of a character.
pub open spec fn before_char(s: Seq<char>, c: char) -> Option<Seq<char>>
    decreases s.len(),
{
    if s.len() == 0 {
        None
    } else if s[0] == c {
        Some(Seq::empty())
    } else {
        match before_char(s.skip(1), c) {
            Some(rest) => Some(seq![s[0]] + rest),
            None => None,
        }
    }
}

proof fn lemma_before_char(s: Seq<char>, c: char, n: int)
    requires
        0 <= n <= s.len(),
        forall|i: int| 0 <= i < n ==> #[trigger] s[i] != c,
    ensures
        n < s.len() && s[n] == c ==> before_char(s, c) == Some(s.take(n)),
        n == s.len() ==> before_char(s, c) is None,
    decreases s.len(),
{
    if n > 0 {
        lemma_before_char(s.skip(1), c, n - 1);
        if n < s.len() && s[n] == c {
            assert(s.skip(1)[n - 1] == c);
            assert(seq![s[0]] + s.skip(1).take(n - 1) =~= s.take(n));
        }
    } else if s.len() > 0 && s[0] == c {
        assert(s.take(0) =~= Seq::empty());
    }
}

/// The number of the place that a label names.
pub open spec fn slot_index(label: Seq<char>) -> Option<usize> {
    match after_prefix(label, "worker-"@) {
        Some(rest) => match before_char(rest, ':') {
            Some(index) => written_count(index),
            None => None,
        },
        None => None,
    }
}

/// The slot that a label names.
pub fn worker_slot_index_from_label(label: &str) -> (r: Option<usize>)
    ensures
        r == slot_index(label@),
{
    let rest = match strip_prefix(label, "worker-") {
        Some(rest) => rest,
        None => {
            return None;
        },
    };
    let chars = chars_of(rest.as_str());
    let mut n: usize = 0;
    while n < chars.len() && chars[n] != ':'
        invariant
            n <= chars.len(),
            chars@ == rest@,
            forall|i: int| 0 <= i < n ==> #[trigger] rest@[i] != ':',
        decreases chars.len() - n,
    {
        n = n + 1;
    }
    proof {
        lemma_before_char(rest@, ':', n as int);
    }
    if n == chars.len() {
        return None;
    }
    let index = text_between(&chars, 0, n);
    assert(index@ =~= rest@.take(n as int));
    read_count(index.as_str())
}

pub open spec fn labelled(label: Seq<char>) -> spec_fn(CockpitLayoutPaneModel) -> bool {
    |pane: CockpitLayoutPaneModel| pane.label == label
}

pub open spec fn unlabelled() -> spec_fn(CockpitLayoutPaneModel) -> bool {
    |pane: CockpitLayoutPaneModel| blank(pane.label)
}

pub open spec fn label_begins(prefix: Seq<char>) -> spec_fn(CockpitLayoutPaneModel) -> bool {
    |pane: CockpitLayoutPaneModel| begins_with(pane.label, prefix)
}

pub open spec fn pane_with_id(id: Seq<char>) -> spec_fn(CockpitLayoutPaneModel) -> bool {
    |pane: CockpitLayoutPaneModel| pane.id == id
}

pub open spec fn unlabelled_with_id(id: Seq<char>) -> spec_fn(CockpitLayoutPaneModel) -> bool {
    |pane: CockpitLayoutPaneModel| pane.id == id && blank(pane.label)
}

/// The identity of a pane that there may be.
pub open spec fn id_of(pane: Option<CockpitLayoutPaneModel>) -> Option<Seq<char>> {
    match pane {
        Some(pane) => Some(pane.id),
        None => None,
    }
}

/// The first that there is of two.
pub open spec fn either(a: Option<Seq<char>>, b: Option<Seq<char>>) -> Option<Seq<char>> {
    if a is Some {
        a
    } else {
        b
    }
}

/// The greatest number of a place among labels, zero where no label names one.
pub open spec fn greatest_slot(panes: Seq<CockpitLayoutPaneModel>) -> usize
    decreases panes.len(),
{
    if panes.len() == 0 {
        0
    } else {
        let before = greatest_slot(panes.drop_last());
        match slot_index(panes.last().label) {
            Some(index) => if index > before {
                index
            } else {
                before
            },
            None => before,
        }
    }
}

impl CockpitLayoutInspectionModel {
    pub open spec fn dashboard_pane(self) -> Option<Seq<char>> {
        id_of(first(self.panes, labelled(RUN_STATUS_FEED_PANE@)))
    }

    pub open spec fn placeholder_pane(self) -> Option<Seq<char>> {
        id_of(first(self.panes, labelled(WORKER_REGION_PLACEHOLDER_PANE@)))
    }

    pub open spec fn unlabelled_pane(self) -> Option<Seq<char>> {
        id_of(first(self.panes, unlabelled()))
    }

    pub open spec fn slot_pane(self, slot_name: Seq<char>) -> Option<Seq<char>> {
        id_of(first(self.panes, label_begins(slot_name + ": "@)))
    }

    pub open spec fn label_of(self, pane_id: Seq<char>) -> Option<Seq<char>> {
        match first(self.panes, pane_with_id(pane_id)) {
            Some(pane) => Some(pane.label),
            None => None,
        }
    }

    /// The tab of a pane, where one is known.
    pub open spec fn tab_of(self, pane_id: Seq<char>) -> Option<Seq<char>> {
        match first(self.panes, pane_with_id(pane_id)) {
            Some(pane) => if pane.tab_id.len() > 0 {
                Some(pane.tab_id)
            } else {
                None
            },
            None => None,
        }
    }

    /// The preferred pane, as long as it carries no label.
    pub open spec fn preferred_unlabelled(self, preferred: Option<Seq<char>>) -> Option<Seq<char>> {
        match preferred {
            Some(id) => id_of(first(self.panes, unlabelled_with_id(id))),
            None => None,
        }
    }

    pub open spec fn preferred_pane(self, preferred: Option<Seq<char>>) -> Option<Seq<char>> {
        match preferred {
            Some(id) => id_of(first(self.panes, pane_with_id(id))),
            None => None,
        }
    }

    /// The pane that the first worker can take over: the one that is kept for it, or its own from
    /// an earlier attempt, or one that nobody uses.
    pub open spec fn reusable_pane(self, preferred: Option<Seq<char>>) -> Option<Seq<char>> {
        either(
            self.placeholder_pane(),
            either(
                self.slot_pane("worker-1"@),
                either(self.preferred_unlabelled(preferred), self.unlabelled_pane()),
            ),
        )
    }

    /// The pane that new panes are split from: one that the first worker can take over, or else
    /// the dashboard, or else any pane.
    pub open spec fn anchor_pane(self, preferred: Option<Seq<char>>) -> Option<Seq<char>> {
        either(
            self.reusable_pane(preferred),
            either(
                self.dashboard_pane(),
                either(
                    self.preferred_pane(preferred),
                    if self.panes.len() > 0 {
                        Some(self.panes[0].id)
                    } else {
                        None
                    },
                ),
            ),
        )
    }

    /// The pane that makes way for the first worker.
    pub open spec fn slot_one_target(self, preferred: Option<Seq<char>>) -> Result<
        CockpitSlotOneTargetModel,
        CockpitErrorModel,
    > {
        match either(self.reusable_pane(preferred), self.dashboard_pane()) {
            None => Err(
                refused("cockpit layout has no live pane available for TUI worker slot 1"@),
            ),
            Some(pane_id) => match self.tab_of(pane_id) {
                None => Err(refused("cockpit layout slot 1 target pane omitted tab id"@)),
                Some(tab_id) => Ok(
                    CockpitSlotOneTargetModel {
                        pane_id,
                        tab_id,
                        close_after_move: self.reusable_pane(preferred) is Some,
                    },
                ),
            },
        }
    }
}

fn either_of(a: Option<String>, b: Option<String>) -> (r: Option<String>)
    ensures
        r.deep_view() == either(a.deep_view(), b.deep_view()),
{
    match a {
        Some(a) => Some(a),
        None => b,
    }
}

impl CockpitLayoutInspection {
    fn id_at(&self, index: Option<usize>) -> (r: Option<String>)
        requires
            index is Some ==> index->0 < self.panes.len(),
        ensures
            r.deep_view() == match index {
                Some(i) => Some(self.panes@[i as int]@.id),
                None => None,
            },
    {
        match index {
            Some(i) => Some(self.panes[i].id.dup()),
            None => None,
        }
    }

    fn pane_labelled(&self, label: &str) -> (r: Option<String>)
        ensures
            r.deep_view() == id_of(first(self@.panes, labelled(label@))),
    {
        let is_it = |pane: &CockpitLayoutPane| -> (b: bool)
            ensures
                b == labelled(label@)(pane@),
            { same_text(pane.label.as_str(), label) };
        self.id_at(find_row(&self.panes, is_it, Ghost(labelled(label@))))
    }

    fn index_of(&self, pane_id: &str) -> (r: Option<usize>)
        ensures
            match r {
                Some(i) => i < self.panes.len() && first(self@.panes, pane_with_id(pane_id@))
                    == Some(self.panes@[i as int]@),
                None => first(self@.panes, pane_with_id(pane_id@)) is None,
            },
    {
        let is_it = |pane: &CockpitLayoutPane| -> (b: bool)
            ensures
                b == pane_with_id(pane_id@)(pane@),
            { same_text(pane.id.as_str(), pane_id) };
        find_row(&self.panes, is_it, Ghost(pane_with_id(pane_id@)))
    }

    /// The pane of the dashboard.
    pub fn dashboard_pane_id(&self) -> (r: Option<String>)
        ensures
            r.deep_view() == self@.dashboard_pane(),
    {
        self.pane_labelled(RUN_STATUS_FEED_PANE)
    }

    /// The pane that holds the place of the workers.
    pub fn worker_region_placeholder_pane_id(&self) -> (r: Option<String>)
        ensures
            r.deep_view() == self@.placeholder_pane(),
    {
        self.pane_labelled(WORKER_REGION_PLACEHOLDER_PANE)
    }

    /// The first pane without a label.
    pub fn unlabeled_pane_id(&self) -> (r: Option<String>)
        ensures
            r.deep_view() == self@.unlabelled_pane(),
    {
        let is_it = |pane: &CockpitLayoutPane| -> (b: bool)
            ensures
                b == unlabelled()(pane@),
            { is_blank(pane.label.as_str()) };
        self.id_at(find_row(&self.panes, is_it, Ghost(unlabelled())))
    }

    /// The greatest slot that a label names.
    pub fn worker_slot_count(&self) -> (r: usize)
        ensures
            r == greatest_slot(self@.panes),
    {
        let mut greatest: usize = 0;
        let mut i: usize = 0;
        assert(self@.panes.take(0) =~= Seq::empty());
        while i < self.panes.len()
            invariant
                i <= self.panes.len(),
                greatest == greatest_slot(self@.panes.take(i as int)),
            decreases self.panes.len() - i,
        {
            proof {
                let part = self@.panes.take(i + 1);
                assert(part.drop_last() =~= self@.panes.take(i as int));
                assert(part.last() == self.panes@[i as int]@);
            }
            match worker_slot_index_from_label(self.panes[i].label.as_str()) {
                Some(index) => if index > greatest {
                    greatest = index;
                },
                None => {},
            }
            i = i + 1;
        }
        assert(self@.panes.take(i as int) =~= self@.panes);
        greatest
    }

    /// The pane in a slot.
    pub fn worker_slot_pane_id(&self, slot_name: &str) -> (r: Option<String>)
        ensures
            r.deep_view() == self@.slot_pane(slot_name@),
    {
        let mut prefix = slot_name.to_owned();
        prefix.append(": ");
        let is_it = |pane: &CockpitLayoutPane| -> (b: bool)
            ensures
                b == label_begins(prefix@)(pane@),
            { strip_prefix(pane.label.as_str(), prefix.as_str()).is_some() };
        self.id_at(find_row(&self.panes, is_it, Ghost(label_begins(prefix@))))
    }

    /// The label of a pane.
    pub fn label_for_pane(&self, pane_id: &str) -> (r: Option<String>)
        ensures
            r.deep_view() == self@.label_of(pane_id@),
    {
        match self.index_of(pane_id) {
            Some(i) => Some(self.panes[i].label.dup()),
            None => None,
        }
    }

    /// The tab of a pane.
    pub fn tab_id_for_pane(&self, pane_id: &str) -> (r: Option<String>)
        ensures
            r.deep_view() == self@.tab_of(pane_id@),
    {
        match self.index_of(pane_id) {
            Some(i) => if self.panes[i].tab_id.as_str().is_empty() {
                None
            } else {
                Some(self.panes[i].tab_id.dup())
            },
            None => None,
        }
    }

    fn preferred_unlabelled_id(&self, preferred: &Option<String>) -> (r: Option<String>)
        ensures
            r.deep_view() == self@.preferred_unlabelled(preferred.deep_view()),
    {
        match preferred {
            Some(id) => {
                let is_it = |pane: &CockpitLayoutPane| -> (b: bool)
                    ensures
                        b == unlabelled_with_id(id@)(pane@),
                    {
                        same_text(pane.id.as_str(), id.as_str()) && is_blank(pane.label.as_str())
                    };
                self.id_at(find_row(&self.panes, is_it, Ghost(unlabelled_with_id(id@))))
            },
            None => None,
        }
    }

    /// The pane that the first worker can take.
    pub fn slot_one_reusable_pane_id(&self, preferred_anchor_id: &Option<String>) -> (r: Option<
        String,
    >)
        ensures
            r.deep_view() == self@.reusable_pane(preferred_anchor_id.deep_view()),
    {
        either_of(
            self.worker_region_placeholder_pane_id(),
            either_of(
                self.worker_slot_pane_id("worker-1"),
                either_of(
                    self.preferred_unlabelled_id(preferred_anchor_id),
                    self.unlabeled_pane_id(),
                ),
            ),
        )
    }

    /// A pane that is there and that others can be split from.
    pub fn live_layout_anchor_pane_id(&self, preferred_anchor_id: &Option<String>) -> (r: Option<
        String,
    >)
        ensures
            r.deep_view() == self@.anchor_pane(preferred_anchor_id.deep_view()),
    {
        let preferred = match preferred_anchor_id {
            Some(id) => self.id_at(self.index_of(id.as_str())),
            None => None,
        };
        let any = if self.panes.len() > 0 {
            assert(self@.panes[0] == self.panes@[0]@);
            Some(self.panes[0].id.dup())
        } else {
            None
        };
        either_of(
            self.slot_one_reusable_pane_id(preferred_anchor_id),
            either_of(self.dashboard_pane_id(), either_of(preferred, any)),
        )
    }

    /// Where the first worker goes.
    pub fn slot_one_target(&self, preferred_anchor_id: &Option<String>) -> (r: Result<
        CockpitSlotOneTarget,
        CockpitError,
    >)
        ensures
            reply(r) == self@.slot_one_target(preferred_anchor_id.deep_view()),
    {
        let reusable = self.slot_one_reusable_pane_id(preferred_anchor_id);
        let close_after_move = reusable.is_some();
        let pane_id = match either_of(reusable, self.dashboard_pane_id()) {
            Some(pane_id) => pane_id,
            None => {
                return Err(
                    cockpit_error(
                        "cockpit layout has no live pane available for TUI worker slot 1",
                    ),
                );
            },
        };
        let tab_id = match self.tab_id_for_pane(pane_id.as_str()) {
            Some(tab_id) => tab_id,
            None => {
                return Err(cockpit_error("cockpit layout slot 1 target pane omitted tab id"));
            },
        };
        Ok(CockpitSlotOneTarget { pane_id, tab_id, close_after_move })
    }
}

/// A pane that new panes are split from is one of the panes that are there, and there is one as
/// long as there is a pane.
pub proof fn law_anchor_is_a_live_pane(
    inspection: CockpitLayoutInspectionModel,
    preferred: Option<Seq<char>>,
)
    ensures
        inspection.panes.len() > 0 <==> inspection.anchor_pane(preferred) is Some,
        inspection.anchor_pane(preferred) matches Some(id) ==> exists|i: int|
            0 <= i < inspection.panes.len() && (#[trigger] inspection.panes[i]).id == id,
{
    let panes = inspection.panes;
    lemma_id_is_live(panes, labelled(RUN_STATUS_FEED_PANE@));
    lemma_id_is_live(panes, labelled(WORKER_REGION_PLACEHOLDER_PANE@));
    lemma_id_is_live(panes, unlabelled());
    lemma_id_is_live(panes, label_begins("worker-1"@ + ": "@));
    if preferred is Some {
        lemma_id_is_live(panes, pane_with_id(preferred->0));
        lemma_id_is_live(panes, unlabelled_with_id(preferred->0));
    }
    if panes.len() > 0 {
        assert(panes[0].id == panes[0].id);
    }
}

proof fn lemma_id_is_live(
    panes: Seq<CockpitLayoutPaneModel>,
    p: spec_fn(CockpitLayoutPaneModel) -> bool,
)
    ensures
        id_of(first(panes, p)) matches Some(id) ==> panes.len() > 0 && exists|i: int|
            0 <= i < panes.len() && (#[trigger] panes[i]).id == id,
{
    crate::table::lemma_first_any(panes, p);
    if first(panes, p) is Some {
        let i = choose|i: int| 0 <= i < panes.len() && panes[i] == first(panes, p)->0;
        assert(panes[i].id == (first(panes, p)->0).id);
    }
}

} // verus!
