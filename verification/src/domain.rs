//! The vocabulary of runs, slices, launches, merges, questions and replans.
//!
//! Every record type comes with a model of the same fields over mathematical sequences; the
//! contracts of the library speak of the models.
use crate::table::Row;
use crate::text::same_text;
use crate::time::Timestamp;
use vstd::prelude::*;

verus! {

/// Where a run stands.
#[derive(Debug, Clone, Copy, PartialEq, Eq, Structural)]
pub enum RunStatus {
    Pending,
    Running,
    Completed,
    Blocked,
    Failed,
    Cancelled,
    Interrupted,
}

impl DeepView for RunStatus {
    type V = RunStatus;

    open spec fn deep_view(&self) -> RunStatus {
        *self
    }
}

impl Row for RunStatus {
    fn dup(&self) -> (r: Self) {
        *self
    }

    fn same(&self, other: &Self) -> (r: bool) {
        *self == *other
    }
}

impl RunStatus {
    /// The name under which the value is stored and shown.
    pub open spec fn text(self) -> Seq<char> {
        match self {
            RunStatus::Pending => "pending"@,
            RunStatus::Running => "running"@,
            RunStatus::Completed => "completed"@,
            RunStatus::Blocked => "blocked"@,
            RunStatus::Failed => "failed"@,
            RunStatus::Cancelled => "cancelled"@,
            RunStatus::Interrupted => "interrupted"@,
        }
    }

    pub fn as_str(&self) -> (r: &'static str)
        ensures
            r@ == self.text(),
    {
        match self {
            RunStatus::Pending => "pending",
            RunStatus::Running => "running",
            RunStatus::Completed => "completed",
            RunStatus::Blocked => "blocked",
            RunStatus::Failed => "failed",
            RunStatus::Cancelled => "cancelled",
            RunStatus::Interrupted => "interrupted",
        }
    }

    /// The value that a name stands for.
    pub open spec fn of_text(text: Seq<char>) -> Option<RunStatus> {
        if text == "pending"@ {
            Some(RunStatus::Pending)
        } else if text == "running"@ {
            Some(RunStatus::Running)
        } else if text == "completed"@ {
            Some(RunStatus::Completed)
        } else if text == "blocked"@ {
            Some(RunStatus::Blocked)
        } else if text == "failed"@ {
            Some(RunStatus::Failed)
        } else if text == "cancelled"@ {
            Some(RunStatus::Cancelled)
        } else if text == "interrupted"@ {
            Some(RunStatus::Interrupted)
        } else {
            None
        }
    }

    pub fn parse(text: &str) -> (r: Option<RunStatus>)
        ensures
            r == Self::of_text(text@),
    {
        if same_text(text, "pending") {
            Some(RunStatus::Pending)
        } else if same_text(text, "running") {
            Some(RunStatus::Running)
        } else if same_text(text, "completed") {
            Some(RunStatus::Completed)
        } else if same_text(text, "blocked") {
            Some(RunStatus::Blocked)
        } else if same_text(text, "failed") {
            Some(RunStatus::Failed)
        } else if same_text(text, "cancelled") {
            Some(RunStatus::Cancelled)
        } else if same_text(text, "interrupted") {
            Some(RunStatus::Interrupted)
        } else {
            None
        }
    }

    /// Every value is read back from its name.
    pub proof fn lemma_text_round_trip(self)
        ensures
            Self::of_text(self.text()) == Some(self),
    {
        reveal_strlit("pending");
        reveal_strlit("running");
        reveal_strlit("completed");
        reveal_strlit("blocked");
        reveal_strlit("failed");
        reveal_strlit("cancelled");
        reveal_strlit("interrupted");
        assert("pending"@.len() == 7);
        assert("running"@.len() == 7);
        assert("completed"@.len() == 9);
        assert("blocked"@.len() == 7);
        assert("failed"@.len() == 6);
        assert("cancelled"@.len() == 9);
        assert("interrupted"@.len() == 11);
        assert("running"@[0] != "pending"@[0]);
        assert("blocked"@[0] != "pending"@[0]);
        assert("blocked"@[0] != "running"@[0]);
        assert("cancelled"@[1] != "completed"@[1]);
    }
}

impl RunStatus {
    /// Pending and running runs hold the claim on their repository.
    pub open spec fn active(self) -> bool {
        self == RunStatus::Pending || self == RunStatus::Running
    }

    pub fn is_active(&self) -> (r: bool)
        ensures
            r == self.active(),
    {
        matches!(self, RunStatus::Pending | RunStatus::Running)
    }
}

/// Where a slice of a run stands.
#[derive(Debug, Clone, Copy, PartialEq, Eq, Structural)]
pub enum SliceStatus {
    Pending,
    Running,
    RepairNeeded,
    ReadyToMerge,
    Merged,
    Blocked,
    Failed,
    Cancelled,
    Interrupted,
}

impl DeepView for SliceStatus {
    type V = SliceStatus;

    open spec fn deep_view(&self) -> SliceStatus {
        *self
    }
}

impl Row for SliceStatus {
    fn dup(&self) -> (r: Self) {
        *self
    }

    fn same(&self, other: &Self) -> (r: bool) {
        *self == *other
    }
}

impl SliceStatus {
    /// The name under which the value is stored and shown.
    pub open spec fn text(self) -> Seq<char> {
        match self {
            SliceStatus::Pending => "pending"@,
            SliceStatus::Running => "running"@,
            SliceStatus::RepairNeeded => "repair_needed"@,
            SliceStatus::ReadyToMerge => "ready_to_merge"@,
            SliceStatus::Merged => "merged"@,
            SliceStatus::Blocked => "blocked"@,
            SliceStatus::Failed => "failed"@,
            SliceStatus::Cancelled => "cancelled"@,
            SliceStatus::Interrupted => "interrupted"@,
        }
    }

    pub fn as_str(&self) -> (r: &'static str)
        ensures
            r@ == self.text(),
    {
        match self {
            SliceStatus::Pending => "pending",
            SliceStatus::Running => "running",
            SliceStatus::RepairNeeded => "repair_needed",
            SliceStatus::ReadyToMerge => "ready_to_merge",
            SliceStatus::Merged => "merged",
            SliceStatus::Blocked => "blocked",
            SliceStatus::Failed => "failed",
            SliceStatus::Cancelled => "cancelled",
            SliceStatus::Interrupted => "interrupted",
        }
    }

    /// The value that a name stands for.
    pub open spec fn of_text(text: Seq<char>) -> Option<SliceStatus> {
        if text == "pending"@ {
            Some(SliceStatus::Pending)
        } else if text == "running"@ {
            Some(SliceStatus::Running)
        } else if text == "repair_needed"@ {
            Some(SliceStatus::RepairNeeded)
        } else if text == "ready_to_merge"@ {
            Some(SliceStatus::ReadyToMerge)
        } else if text == "merged"@ {
            Some(SliceStatus::Merged)
        } else if text == "blocked"@ {
            Some(SliceStatus::Blocked)
        } else if text == "failed"@ {
            Some(SliceStatus::Failed)
        } else if text == "cancelled"@ {
            Some(SliceStatus::Cancelled)
        } else if text == "interrupted"@ {
            Some(SliceStatus::Interrupted)
        } else {
            None
        }
    }

    pub fn parse(text: &str) -> (r: Option<SliceStatus>)
        ensures
            r == Self::of_text(text@),
    {
        if same_text(text, "pending") {
            Some(SliceStatus::Pending)
        } else if same_text(text, "running") {
            Some(SliceStatus::Running)
        } else if same_text(text, "repair_needed") {
            Some(SliceStatus::RepairNeeded)
        } else if same_text(text, "ready_to_merge") {
            Some(SliceStatus::ReadyToMerge)
        } else if same_text(text, "merged") {
            Some(SliceStatus::Merged)
        } else if same_text(text, "blocked") {
            Some(SliceStatus::Blocked)
        } else if same_text(text, "failed") {
            Some(SliceStatus::Failed)
        } else if same_text(text, "cancelled") {
            Some(SliceStatus::Cancelled)
        } else if same_text(text, "interrupted") {
            Some(SliceStatus::Interrupted)
        } else {
            None
        }
    }

    /// Every value is read back from its name.
    pub proof fn lemma_text_round_trip(self)
        ensures
            Self::of_text(self.text()) == Some(self),
    {
        reveal_strlit("pending");
        reveal_strlit("running");
        reveal_strlit("repair_needed");
        reveal_strlit("ready_to_merge");
        reveal_strlit("merged");
        reveal_strlit("blocked");
        reveal_strlit("failed");
        reveal_strlit("cancelled");
        reveal_strlit("interrupted");
        assert("pending"@.len() == 7);
        assert("running"@.len() == 7);
        assert("repair_needed"@.len() == 13);
        assert("ready_to_merge"@.len() == 14);
        assert("merged"@.len() == 6);
        assert("blocked"@.len() == 7);
        assert("failed"@.len() == 6);
        assert("cancelled"@.len() == 9);
        assert("interrupted"@.len() == 11);
        assert("running"@[0] != "pending"@[0]);
        assert("blocked"@[0] != "pending"@[0]);
        assert("blocked"@[0] != "running"@[0]);
        assert("failed"@[0] != "merged"@[0]);
    }
}

/// Why a run is launched.
#[derive(Debug, Clone, Copy, PartialEq, Eq, Structural)]
pub enum RunLaunchAction {
    Start,
    Resume,
}

impl DeepView for RunLaunchAction {
    type V = RunLaunchAction;

    open spec fn deep_view(&self) -> RunLaunchAction {
        *self
    }
}

impl Row for RunLaunchAction {
    fn dup(&self) -> (r: Self) {
        *self
    }

    fn same(&self, other: &Self) -> (r: bool) {
        *self == *other
    }
}

impl RunLaunchAction {
    /// The name under which the value is stored and shown.
    pub open spec fn text(self) -> Seq<char> {
        match self {
            RunLaunchAction::Start => "start"@,
            RunLaunchAction::Resume => "resume"@,
        }
    }

    pub fn as_str(&self) -> (r: &'static str)
        ensures
            r@ == self.text(),
    {
        match self {
            RunLaunchAction::Start => "start",
            RunLaunchAction::Resume => "resume",
        }
    }

    /// The value that a name stands for.
    pub open spec fn of_text(text: Seq<char>) -> Option<RunLaunchAction> {
        if text == "start"@ {
            Some(RunLaunchAction::Start)
        } else if text == "resume"@ {
            Some(RunLaunchAction::Resume)
        } else {
            None
        }
    }

    pub fn parse(text: &str) -> (r: Option<RunLaunchAction>)
        ensures
            r == Self::of_text(text@),
    {
        if same_text(text, "start") {
            Some(RunLaunchAction::Start)
        } else if same_text(text, "resume") {
            Some(RunLaunchAction::Resume)
        } else {
            None
        }
    }

    /// Every value is read back from its name.
    pub proof fn lemma_text_round_trip(self)
        ensures
            Self::of_text(self.text()) == Some(self),
    {
        reveal_strlit("start");
        reveal_strlit("resume");
        assert("start"@.len() == 5);
        assert("resume"@.len() == 6);
    }
}

/// How far a launch has come.
#[derive(Debug, Clone, Copy, PartialEq, Eq, Structural)]
pub enum RunLaunchState {
    Prepared,
    Activated,
    Completed,
    Interrupted,
    Failed,
    RecoveryRequired,
    Compensated,
}

impl DeepView for RunLaunchState {
    type V = RunLaunchState;

    open spec fn deep_view(&self) -> RunLaunchState {
        *self
    }
}

impl Row for RunLaunchState {
    fn dup(&self) -> (r: Self) {
        *self
    }

    fn same(&self, other: &Self) -> (r: bool) {
        *self == *other
    }
}

impl RunLaunchState {
    /// The name under which the value is stored and shown.
    pub open spec fn text(self) -> Seq<char> {
        match self {
            RunLaunchState::Prepared => "prepared"@,
            RunLaunchState::Activated => "activated"@,
            RunLaunchState::Completed => "completed"@,
            RunLaunchState::Interrupted => "interrupted"@,
            RunLaunchState::Failed => "failed"@,
            RunLaunchState::RecoveryRequired => "recovery_required"@,
            RunLaunchState::Compensated => "compensated"@,
        }
    }

    pub fn as_str(&self) -> (r: &'static str)
        ensures
            r@ == self.text(),
    {
        match self {
            RunLaunchState::Prepared => "prepared",
            RunLaunchState::Activated => "activated",
            RunLaunchState::Completed => "completed",
            RunLaunchState::Interrupted => "interrupted",
            RunLaunchState::Failed => "failed",
            RunLaunchState::RecoveryRequired => "recovery_required",
            RunLaunchState::Compensated => "compensated",
        }
    }

    /// The value that a name stands for.
    pub open spec fn of_text(text: Seq<char>) -> Option<RunLaunchState> {
        if text == "prepared"@ {
            Some(RunLaunchState::Prepared)
        } else if text == "activated"@ {
            Some(RunLaunchState::Activated)
        } else if text == "completed"@ {
            Some(RunLaunchState::Completed)
        } else if text == "interrupted"@ {
            Some(RunLaunchState::Interrupted)
        } else if text == "failed"@ {
            Some(RunLaunchState::Failed)
        } else if text == "recovery_required"@ {
            Some(RunLaunchState::RecoveryRequired)
        } else if text == "compensated"@ {
            Some(RunLaunchState::Compensated)
        } else {
            None
        }
    }

    pub fn parse(text: &str) -> (r: Option<RunLaunchState>)
        ensures
            r == Self::of_text(text@),
    {
        if same_text(text, "prepared") {
            Some(RunLaunchState::Prepared)
        } else if same_text(text, "activated") {
            Some(RunLaunchState::Activated)
        } else if same_text(text, "completed") {
            Some(RunLaunchState::Completed)
        } else if same_text(text, "interrupted") {
            Some(RunLaunchState::Interrupted)
        } else if same_text(text, "failed") {
            Some(RunLaunchState::Failed)
        } else if same_text(text, "recovery_required") {
            Some(RunLaunchState::RecoveryRequired)
        } else if same_text(text, "compensated") {
            Some(RunLaunchState::Compensated)
        } else {
            None
        }
    }

    /// Every value is read back from its name.
    pub proof fn lemma_text_round_trip(self)
        ensures
            Self::of_text(self.text()) == Some(self),
    {
        reveal_strlit("prepared");
        reveal_strlit("activated");
        reveal_strlit("completed");
        reveal_strlit("interrupted");
        reveal_strlit("failed");
        reveal_strlit("recovery_required");
        reveal_strlit("compensated");
        assert("prepared"@.len() == 8);
        assert("activated"@.len() == 9);
        assert("completed"@.len() == 9);
        assert("interrupted"@.len() == 11);
        assert("failed"@.len() == 6);
        assert("recovery_required"@.len() == 17);
        assert("compensated"@.len() == 11);
        assert("completed"@[0] != "activated"@[0]);
        assert("compensated"@[0] != "interrupted"@[0]);
    }
}

impl RunLaunchState {
    /// Prepared and activated launches are still under way.
    pub open spec fn incomplete(self) -> bool {
        self == RunLaunchState::Prepared || self == RunLaunchState::Activated
    }

    pub fn is_incomplete(&self) -> (r: bool)
        ensures
            r == self.incomplete(),
    {
        matches!(self, RunLaunchState::Prepared | RunLaunchState::Activated)
    }
}

/// What is merged into the integration branch.
#[derive(Debug, Clone, Copy, PartialEq, Eq, Structural)]
pub enum IntegrationMergeKind {
    Slice,
    IntegrationRepair,
}

impl DeepView for IntegrationMergeKind {
    type V = IntegrationMergeKind;

    open spec fn deep_view(&self) -> IntegrationMergeKind {
        *self
    }
}

impl Row for IntegrationMergeKind {
    fn dup(&self) -> (r: Self) {
        *self
    }

    fn same(&self, other: &Self) -> (r: bool) {
        *self == *other
    }
}

impl IntegrationMergeKind {
    /// The name under which the value is stored and shown.
    pub open spec fn text(self) -> Seq<char> {
        match self {
            IntegrationMergeKind::Slice => "slice"@,
            IntegrationMergeKind::IntegrationRepair => "integration_repair"@,
        }
    }

    pub fn as_str(&self) -> (r: &'static str)
        ensures
            r@ == self.text(),
    {
        match self {
            IntegrationMergeKind::Slice => "slice",
            IntegrationMergeKind::IntegrationRepair => "integration_repair",
        }
    }

    /// The value that a name stands for.
    pub open spec fn of_text(text: Seq<char>) -> Option<IntegrationMergeKind> {
        if text == "slice"@ {
            Some(IntegrationMergeKind::Slice)
        } else if text == "integration_repair"@ {
            Some(IntegrationMergeKind::IntegrationRepair)
        } else {
            None
        }
    }

    pub fn parse(text: &str) -> (r: Option<IntegrationMergeKind>)
        ensures
            r == Self::of_text(text@),
    {
        if same_text(text, "slice") {
            Some(IntegrationMergeKind::Slice)
        } else if same_text(text, "integration_repair") {
            Some(IntegrationMergeKind::IntegrationRepair)
        } else {
            None
        }
    }

    /// Every value is read back from its name.
    pub proof fn lemma_text_round_trip(self)
        ensures
            Self::of_text(self.text()) == Some(self),
    {
        reveal_strlit("slice");
        reveal_strlit("integration_repair");
        assert("slice"@.len() == 5);
        assert("integration_repair"@.len() == 18);
    }
}

/// How far a merge has come.
#[derive(Debug, Clone, Copy, PartialEq, Eq, Structural)]
pub enum IntegrationMergeState {
    Prepared,
    Applied,
    NotStarted,
    Conflicted,
    Divergent,
}

impl DeepView for IntegrationMergeState {
    type V = IntegrationMergeState;

    open spec fn deep_view(&self) -> IntegrationMergeState {
        *self
    }
}

impl Row for IntegrationMergeState {
    fn dup(&self) -> (r: Self) {
        *self
    }

    fn same(&self, other: &Self) -> (r: bool) {
        *self == *other
    }
}

impl IntegrationMergeState {
    /// The name under which the value is stored and shown.
    pub open spec fn text(self) -> Seq<char> {
        match self {
            IntegrationMergeState::Prepared => "prepared"@,
            IntegrationMergeState::Applied => "applied"@,
            IntegrationMergeState::NotStarted => "not_started"@,
            IntegrationMergeState::Conflicted => "conflicted"@,
            IntegrationMergeState::Divergent => "divergent"@,
        }
    }

    pub fn as_str(&self) -> (r: &'static str)
        ensures
            r@ == self.text(),
    {
        match self {
            IntegrationMergeState::Prepared => "prepared",
            IntegrationMergeState::Applied => "applied",
            IntegrationMergeState::NotStarted => "not_started",
            IntegrationMergeState::Conflicted => "conflicted",
            IntegrationMergeState::Divergent => "divergent",
        }
    }

    /// The value that a name stands for.
    pub open spec fn of_text(text: Seq<char>) -> Option<IntegrationMergeState> {
        if text == "prepared"@ {
            Some(IntegrationMergeState::Prepared)
        } else if text == "applied"@ {
            Some(IntegrationMergeState::Applied)
        } else if text == "not_started"@ {
            Some(IntegrationMergeState::NotStarted)
        } else if text == "conflicted"@ {
            Some(IntegrationMergeState::Conflicted)
        } else if text == "divergent"@ {
            Some(IntegrationMergeState::Divergent)
        } else {
            None
        }
    }

    pub fn parse(text: &str) -> (r: Option<IntegrationMergeState>)
        ensures
            r == Self::of_text(text@),
    {
        if same_text(text, "prepared") {
            Some(IntegrationMergeState::Prepared)
        } else if same_text(text, "applied") {
            Some(IntegrationMergeState::Applied)
        } else if same_text(text, "not_started") {
            Some(IntegrationMergeState::NotStarted)
        } else if same_text(text, "conflicted") {
            Some(IntegrationMergeState::Conflicted)
        } else if same_text(text, "divergent") {
            Some(IntegrationMergeState::Divergent)
        } else {
            None
        }
    }

    /// Every value is read back from its name.
    pub proof fn lemma_text_round_trip(self)
        ensures
            Self::of_text(self.text()) == Some(self),
    {
        reveal_strlit("prepared");
        reveal_strlit("applied");
        reveal_strlit("not_started");
        reveal_strlit("conflicted");
        reveal_strlit("divergent");
        assert("prepared"@.len() == 8);
        assert("applied"@.len() == 7);
        assert("not_started"@.len() == 11);
        assert("conflicted"@.len() == 10);
        assert("divergent"@.len() == 9);
    }
}

/// Where a replan proposal stands.
#[derive(Debug, Clone, Copy, PartialEq, Eq, Structural)]
pub enum ReplanProposalState {
    Pending,
    Accepted,
    Rejected,
    Deferred,
    Superseded,
}

impl DeepView for ReplanProposalState {
    type V = ReplanProposalState;

    open spec fn deep_view(&self) -> ReplanProposalState {
        *self
    }
}

impl Row for ReplanProposalState {
    fn dup(&self) -> (r: Self) {
        *self
    }

    fn same(&self, other: &Self) -> (r: bool) {
        *self == *other
    }
}

impl ReplanProposalState {
    /// The name under which the value is stored and shown.
    pub open spec fn text(self) -> Seq<char> {
        match self {
            ReplanProposalState::Pending => "pending"@,
            ReplanProposalState::Accepted => "accepted"@,
            ReplanProposalState::Rejected => "rejected"@,
            ReplanProposalState::Deferred => "deferred"@,
            ReplanProposalState::Superseded => "superseded"@,
        }
    }

    pub fn as_str(&self) -> (r: &'static str)
        ensures
            r@ == self.text(),
    {
        match self {
            ReplanProposalState::Pending => "pending",
            ReplanProposalState::Accepted => "accepted",
            ReplanProposalState::Rejected => "rejected",
            ReplanProposalState::Deferred => "deferred",
            ReplanProposalState::Superseded => "superseded",
        }
    }

    /// The value that a name stands for.
    pub open spec fn of_text(text: Seq<char>) -> Option<ReplanProposalState> {
        if text == "pending"@ {
            Some(ReplanProposalState::Pending)
        } else if text == "accepted"@ {
            Some(ReplanProposalState::Accepted)
        } else if text == "rejected"@ {
            Some(ReplanProposalState::Rejected)
        } else if text == "deferred"@ {
            Some(ReplanProposalState::Deferred)
        } else if text == "superseded"@ {
            Some(ReplanProposalState::Superseded)
        } else {
            None
        }
    }

    pub fn parse(text: &str) -> (r: Option<ReplanProposalState>)
        ensures
            r == Self::of_text(text@),
    {
        if same_text(text, "pending") {
            Some(ReplanProposalState::Pending)
        } else if same_text(text, "accepted") {
            Some(ReplanProposalState::Accepted)
        } else if same_text(text, "rejected") {
            Some(ReplanProposalState::Rejected)
        } else if same_text(text, "deferred") {
            Some(ReplanProposalState::Deferred)
        } else if same_text(text, "superseded") {
            Some(ReplanProposalState::Superseded)
        } else {
            None
        }
    }

    /// Every value is read back from its name.
    pub proof fn lemma_text_round_trip(self)
        ensures
            Self::of_text(self.text()) == Some(self),
    {
        reveal_strlit("pending");
        reveal_strlit("accepted");
        reveal_strlit("rejected");
        reveal_strlit("deferred");
        reveal_strlit("superseded");
        assert("pending"@.len() == 7);
        assert("accepted"@.len() == 8);
        assert("rejected"@.len() == 8);
        assert("deferred"@.len() == 8);
        assert("superseded"@.len() == 10);
        assert("rejected"@[0] != "accepted"@[0]);
        assert("deferred"@[0] != "accepted"@[0]);
        assert("deferred"@[0] != "rejected"@[0]);
    }
}

/// Who answered a worker question.
#[derive(Debug, Clone, Copy, PartialEq, Eq, Structural)]
pub enum WorkerQuestionAnswerSource {
    Operator,
    LlmRecommendationTimeout,
}

impl DeepView for WorkerQuestionAnswerSource {
    type V = WorkerQuestionAnswerSource;

    open spec fn deep_view(&self) -> WorkerQuestionAnswerSource {
        *self
    }
}

impl Row for WorkerQuestionAnswerSource {
    fn dup(&self) -> (r: Self) {
        *self
    }

    fn same(&self, other: &Self) -> (r: bool) {
        *self == *other
    }
}

impl WorkerQuestionAnswerSource {
    /// The name under which the value is stored and shown.
    pub open spec fn text(self) -> Seq<char> {
        match self {
            WorkerQuestionAnswerSource::Operator => "operator"@,
            WorkerQuestionAnswerSource::LlmRecommendationTimeout => "llm_recommendation_timeout"@,
        }
    }

    pub fn as_str(&self) -> (r: &'static str)
        ensures
            r@ == self.text(),
    {
        match self {
            WorkerQuestionAnswerSource::Operator => "operator",
            WorkerQuestionAnswerSource::LlmRecommendationTimeout => "llm_recommendation_timeout",
        }
    }

    /// The value that a name stands for.
    pub open spec fn of_text(text: Seq<char>) -> Option<WorkerQuestionAnswerSource> {
        if text == "operator"@ {
            Some(WorkerQuestionAnswerSource::Operator)
        } else if text == "llm_recommendation_timeout"@ {
            Some(WorkerQuestionAnswerSource::LlmRecommendationTimeout)
        } else {
            None
        }
    }

    pub fn parse(text: &str) -> (r: Option<WorkerQuestionAnswerSource>)
        ensures
            r == Self::of_text(text@),
    {
        if same_text(text, "operator") {
            Some(WorkerQuestionAnswerSource::Operator)
        } else if same_text(text, "llm_recommendation_timeout") {
            Some(WorkerQuestionAnswerSource::LlmRecommendationTimeout)
        } else {
            None
        }
    }

    /// Every value is read back from its name.
    pub proof fn lemma_text_round_trip(self)
        ensures
            Self::of_text(self.text()) == Some(self),
    {
        reveal_strlit("operator");
        reveal_strlit("llm_recommendation_timeout");
        assert("operator"@.len() == 8);
        assert("llm_recommendation_timeout"@.len() == 26);
    }
}

/// What became of a decision command.
#[derive(Debug, Clone, Copy, PartialEq, Eq, Structural)]
pub enum DecisionCommandOutcome {
    Applied,
    AlreadyAppliedIdempotently,
    Conflict,
    StaleToken,
    NotFound,
}

impl DeepView for DecisionCommandOutcome {
    type V = DecisionCommandOutcome;

    open spec fn deep_view(&self) -> DecisionCommandOutcome {
        *self
    }
}

impl Row for DecisionCommandOutcome {
    fn dup(&self) -> (r: Self) {
        *self
    }

    fn same(&self, other: &Self) -> (r: bool) {
        *self == *other
    }
}

impl DecisionCommandOutcome {
    /// The name under which the value is stored and shown.
    pub open spec fn text(self) -> Seq<char> {
        match self {
            DecisionCommandOutcome::Applied => "applied"@,
            DecisionCommandOutcome::AlreadyAppliedIdempotently => "already_applied_idempotently"@,
            DecisionCommandOutcome::Conflict => "conflict"@,
            DecisionCommandOutcome::StaleToken => "stale_token"@,
            DecisionCommandOutcome::NotFound => "not_found"@,
        }
    }

    pub fn as_str(&self) -> (r: &'static str)
        ensures
            r@ == self.text(),
    {
        match self {
            DecisionCommandOutcome::Applied => "applied",
            DecisionCommandOutcome::AlreadyAppliedIdempotently => "already_applied_idempotently",
            DecisionCommandOutcome::Conflict => "conflict",
            DecisionCommandOutcome::StaleToken => "stale_token",
            DecisionCommandOutcome::NotFound => "not_found",
        }
    }
}

/// How far a run may widen its own queue.
#[derive(Debug, Clone, Copy, PartialEq, Eq, Structural)]
pub enum AutonomyLevel {
    Off,
    Run,
}

impl DeepView for AutonomyLevel {
    type V = AutonomyLevel;

    open spec fn deep_view(&self) -> AutonomyLevel {
        *self
    }
}

impl Row for AutonomyLevel {
    fn dup(&self) -> (r: Self) {
        *self
    }

    fn same(&self, other: &Self) -> (r: bool) {
        *self == *other
    }
}

impl AutonomyLevel {
    /// The name under which the value is stored and shown.
    pub open spec fn text(self) -> Seq<char> {
        match self {
            AutonomyLevel::Off => "off"@,
            AutonomyLevel::Run => "run"@,
        }
    }

    pub fn as_str(&self) -> (r: &'static str)
        ensures
            r@ == self.text(),
    {
        match self {
            AutonomyLevel::Off => "off",
            AutonomyLevel::Run => "run",
        }
    }

    /// The value that a name stands for.
    pub open spec fn of_text(text: Seq<char>) -> Option<AutonomyLevel> {
        if text == "off"@ {
            Some(AutonomyLevel::Off)
        } else if text == "run"@ {
            Some(AutonomyLevel::Run)
        } else {
            None
        }
    }

    pub fn parse(text: &str) -> (r: Option<AutonomyLevel>)
        ensures
            r == Self::of_text(text@),
    {
        if same_text(text, "off") {
            Some(AutonomyLevel::Off)
        } else if same_text(text, "run") {
            Some(AutonomyLevel::Run)
        } else {
            None
        }
    }

    /// Every value is read back from its name.
    pub proof fn lemma_text_round_trip(self)
        ensures
            Self::of_text(self.text()) == Some(self),
    {
        reveal_strlit("off");
        reveal_strlit("run");
        assert("off"@.len() == 3);
        assert("run"@.len() == 3);
        assert("run"@[0] != "off"@[0]);
    }
}

/// Whether a run is shown in a terminal workspace.
#[derive(Debug, Clone, Copy, PartialEq, Eq, Structural)]
pub enum CockpitMode {
    Auto,
    Herdr,
    Direct,
}

impl DeepView for CockpitMode {
    type V = CockpitMode;

    open spec fn deep_view(&self) -> CockpitMode {
        *self
    }
}

impl Row for CockpitMode {
    fn dup(&self) -> (r: Self) {
        *self
    }

    fn same(&self, other: &Self) -> (r: bool) {
        *self == *other
    }
}

impl CockpitMode {
    /// The name under which the value is stored and shown.
    pub open spec fn text(self) -> Seq<char> {
        match self {
            CockpitMode::Auto => "auto"@,
            CockpitMode::Herdr => "herdr"@,
            CockpitMode::Direct => "direct"@,
        }
    }

    pub fn as_str(&self) -> (r: &'static str)
        ensures
            r@ == self.text(),
    {
        match self {
            CockpitMode::Auto => "auto",
            CockpitMode::Herdr => "herdr",
            CockpitMode::Direct => "direct",
        }
    }

    /// The value that a name stands for.
    pub open spec fn of_text(text: Seq<char>) -> Option<CockpitMode> {
        if text == "auto"@ {
            Some(CockpitMode::Auto)
        } else if text == "herdr"@ {
            Some(CockpitMode::Herdr)
        } else if text == "direct"@ {
            Some(CockpitMode::Direct)
        } else {
            None
        }
    }

    pub fn parse(text: &str) -> (r: Option<CockpitMode>)
        ensures
            r == Self::of_text(text@),
    {
        if same_text(text, "auto") {
            Some(CockpitMode::Auto)
        } else if same_text(text, "herdr") {
            Some(CockpitMode::Herdr)
        } else if same_text(text, "direct") {
            Some(CockpitMode::Direct)
        } else {
            None
        }
    }

    /// Every value is read back from its name.
    pub proof fn lemma_text_round_trip(self)
        ensures
            Self::of_text(self.text()) == Some(self),
    {
        reveal_strlit("auto");
        reveal_strlit("herdr");
        reveal_strlit("direct");
        assert("auto"@.len() == 4);
        assert("herdr"@.len() == 5);
        assert("direct"@.len() == 6);
    }
}

/// Whether a run got the claim on its repository.
#[derive(Debug, Clone, Copy, PartialEq, Eq, Structural)]
pub enum RunAdmissionOutcome {
    Prepared,
    Conflict,
}

impl DeepView for RunAdmissionOutcome {
    type V = RunAdmissionOutcome;

    open spec fn deep_view(&self) -> RunAdmissionOutcome {
        *self
    }
}

impl Row for RunAdmissionOutcome {
    fn dup(&self) -> (r: Self) {
        *self
    }

    fn same(&self, other: &Self) -> (r: bool) {
        *self == *other
    }
}

impl RunAdmissionOutcome {
    /// The name under which the value is stored and shown.
    pub open spec fn text(self) -> Seq<char> {
        match self {
            RunAdmissionOutcome::Prepared => "prepared"@,
            RunAdmissionOutcome::Conflict => "conflict"@,
        }
    }

    pub fn as_str(&self) -> (r: &'static str)
        ensures
            r@ == self.text(),
    {
        match self {
            RunAdmissionOutcome::Prepared => "prepared",
            RunAdmissionOutcome::Conflict => "conflict",
        }
    }
}

/// What became of a request to prepare a merge.
#[derive(Debug, Clone, Copy, PartialEq, Eq, Structural)]
pub enum IntegrationMergePrepareOutcome {
    Prepared,
    AlreadyPrepared,
    AlreadyApplied,
    Conflict,
}

impl DeepView for IntegrationMergePrepareOutcome {
    type V = IntegrationMergePrepareOutcome;

    open spec fn deep_view(&self) -> IntegrationMergePrepareOutcome {
        *self
    }
}

impl Row for IntegrationMergePrepareOutcome {
    fn dup(&self) -> (r: Self) {
        *self
    }

    fn same(&self, other: &Self) -> (r: bool) {
        *self == *other
    }
}

impl IntegrationMergePrepareOutcome {
    /// The name under which the value is stored and shown.
    pub open spec fn text(self) -> Seq<char> {
        match self {
            IntegrationMergePrepareOutcome::Prepared => "prepared"@,
            IntegrationMergePrepareOutcome::AlreadyPrepared => "already_prepared"@,
            IntegrationMergePrepareOutcome::AlreadyApplied => "already_applied"@,
            IntegrationMergePrepareOutcome::Conflict => "conflict"@,
        }
    }

    pub fn as_str(&self) -> (r: &'static str)
        ensures
            r@ == self.text(),
    {
        match self {
            IntegrationMergePrepareOutcome::Prepared => "prepared",
            IntegrationMergePrepareOutcome::AlreadyPrepared => "already_prepared",
            IntegrationMergePrepareOutcome::AlreadyApplied => "already_applied",
            IntegrationMergePrepareOutcome::Conflict => "conflict",
        }
    }
}

/// A repository that runs work on.
#[derive(Debug, Clone, PartialEq, Eq)]
pub struct Repo {
    pub id: String,
    pub path: String,
    pub created_at: Timestamp,
}

#[verifier::ext_equal]
pub struct RepoModel {
    pub id: Seq<char>,
    pub path: Seq<char>,
    pub created_at: Timestamp,
}

impl DeepView for Repo {
    type V = RepoModel;

    open spec fn deep_view(&self) -> RepoModel {
        RepoModel {
            id: self.id.deep_view(),
            path: self.path.deep_view(),
            created_at: self.created_at.deep_view(),
        }
    }
}

impl View for Repo {
    type V = RepoModel;

    open spec fn view(&self) -> RepoModel {
        self.deep_view()
    }
}

impl Row for Repo {
    fn dup(&self) -> (r: Self) {
        Repo {
            id: self.id.dup(),
            path: self.path.dup(),
            created_at: self.created_at.dup(),
        }
    }

    fn same(&self, other: &Self) -> (r: bool) {
        self.id.same(&other.id)
            && self.path.same(&other.path)
            && self.created_at.same(&other.created_at)
    }
}

/// One execution of the selected slices of a repository.
#[derive(Debug, Clone, PartialEq, Eq)]
pub struct Run {
    pub id: String,
    pub repo_id: String,
    pub repo_path: String,
    pub status: RunStatus,
    pub base_branch: String,
    pub base_sha: String,
    pub integration_branch: String,
    pub selected_slice_id: String,
    pub error: String,
    pub started_at: Timestamp,
    pub updated_at: Timestamp,
}

#[verifier::ext_equal]
pub struct RunModel {
    pub id: Seq<char>,
    pub repo_id: Seq<char>,
    pub repo_path: Seq<char>,
    pub status: RunStatus,
    pub base_branch: Seq<char>,
    pub base_sha: Seq<char>,
    pub integration_branch: Seq<char>,
    pub selected_slice_id: Seq<char>,
    pub error: Seq<char>,
    pub started_at: Timestamp,
    pub updated_at: Timestamp,
}

impl DeepView for Run {
    type V = RunModel;

    open spec fn deep_view(&self) -> RunModel {
        RunModel {
            id: self.id.deep_view(),
            repo_id: self.repo_id.deep_view(),
            repo_path: self.repo_path.deep_view(),
            status: self.status.deep_view(),
            base_branch: self.base_branch.deep_view(),
            base_sha: self.base_sha.deep_view(),
            integration_branch: self.integration_branch.deep_view(),
            selected_slice_id: self.selected_slice_id.deep_view(),
            error: self.error.deep_view(),
            started_at: self.started_at.deep_view(),
            updated_at: self.updated_at.deep_view(),
        }
    }
}

impl View for Run {
    type V = RunModel;

    open spec fn view(&self) -> RunModel {
        self.deep_view()
    }
}

impl Row for Run {
    fn dup(&self) -> (r: Self) {
        Run {
            id: self.id.dup(),
            repo_id: self.repo_id.dup(),
            repo_path: self.repo_path.dup(),
            status: self.status.dup(),
            base_branch: self.base_branch.dup(),
            base_sha: self.base_sha.dup(),
            integration_branch: self.integration_branch.dup(),
            selected_slice_id: self.selected_slice_id.dup(),
            error: self.error.dup(),
            started_at: self.started_at.dup(),
            updated_at: self.updated_at.dup(),
        }
    }

    fn same(&self, other: &Self) -> (r: bool) {
        self.id.same(&other.id)
            && self.repo_id.same(&other.repo_id)
            && self.repo_path.same(&other.repo_path)
            && self.status.same(&other.status)
            && self.base_branch.same(&other.base_branch)
            && self.base_sha.same(&other.base_sha)
            && self.integration_branch.same(&other.integration_branch)
            && self.selected_slice_id.same(&other.selected_slice_id)
            && self.error.same(&other.error)
            && self.started_at.same(&other.started_at)
            && self.updated_at.same(&other.updated_at)
    }
}

/// The state of one slice within a run.
#[derive(Debug, Clone, PartialEq, Eq)]
pub struct SliceRun {
    pub run_id: String,
    pub slice_id: String,
    pub status: SliceStatus,
    pub branch: String,
    pub commit_sha: String,
    pub attempts: usize,
    pub last_error: String,
}

#[verifier::ext_equal]
pub struct SliceRunModel {
    pub run_id: Seq<char>,
    pub slice_id: Seq<char>,
    pub status: SliceStatus,
    pub branch: Seq<char>,
    pub commit_sha: Seq<char>,
    pub attempts: usize,
    pub last_error: Seq<char>,
}

impl DeepView for SliceRun {
    type V = SliceRunModel;

    open spec fn deep_view(&self) -> SliceRunModel {
        SliceRunModel {
            run_id: self.run_id.deep_view(),
            slice_id: self.slice_id.deep_view(),
            status: self.status.deep_view(),
            branch: self.branch.deep_view(),
            commit_sha: self.commit_sha.deep_view(),
            attempts: self.attempts.deep_view(),
            last_error: self.last_error.deep_view(),
        }
    }
}

impl View for SliceRun {
    type V = SliceRunModel;

    open spec fn view(&self) -> SliceRunModel {
        self.deep_view()
    }
}

impl Row for SliceRun {
    fn dup(&self) -> (r: Self) {
        SliceRun {
            run_id: self.run_id.dup(),
            slice_id: self.slice_id.dup(),
            status: self.status.dup(),
            branch: self.branch.dup(),
            commit_sha: self.commit_sha.dup(),
            attempts: self.attempts.dup(),
            last_error: self.last_error.dup(),
        }
    }

    fn same(&self, other: &Self) -> (r: bool) {
        self.run_id.same(&other.run_id)
            && self.slice_id.same(&other.slice_id)
            && self.status.same(&other.status)
            && self.branch.same(&other.branch)
            && self.commit_sha.same(&other.commit_sha)
            && self.attempts.same(&other.attempts)
            && self.last_error.same(&other.last_error)
    }
}

/// The record of one launch of a run, keyed by run and execution epoch.
#[derive(Debug, Clone, PartialEq, Eq)]
pub struct RunLaunchIntent {
    pub run_id: String,
    pub execution_epoch: usize,
    pub action: RunLaunchAction,
    pub state: RunLaunchState,
    pub repo_id: String,
    pub integration_branch: String,
    pub integration_worktree: String,
    pub integration_resources_owned: bool,
    pub prior_status: Option<RunStatus>,
    pub prior_error: String,
    pub primary_cause: String,
    pub compensation_error: String,
    pub created_at: Timestamp,
    pub updated_at: Timestamp,
}

#[verifier::ext_equal]
pub struct RunLaunchIntentModel {
    pub run_id: Seq<char>,
    pub execution_epoch: usize,
    pub action: RunLaunchAction,
    pub state: RunLaunchState,
    pub repo_id: Seq<char>,
    pub integration_branch: Seq<char>,
    pub integration_worktree: Seq<char>,
    pub integration_resources_owned: bool,
    pub prior_status: Option<RunStatus>,
    pub prior_error: Seq<char>,
    pub primary_cause: Seq<char>,
    pub compensation_error: Seq<char>,
    pub created_at: Timestamp,
    pub updated_at: Timestamp,
}

impl DeepView for RunLaunchIntent {
    type V = RunLaunchIntentModel;

    open spec fn deep_view(&self) -> RunLaunchIntentModel {
        RunLaunchIntentModel {
            run_id: self.run_id.deep_view(),
            execution_epoch: self.execution_epoch.deep_view(),
            action: self.action.deep_view(),
            state: self.state.deep_view(),
            repo_id: self.repo_id.deep_view(),
            integration_branch: self.integration_branch.deep_view(),
            integration_worktree: self.integration_worktree.deep_view(),
            integration_resources_owned: self.integration_resources_owned.deep_view(),
            prior_status: self.prior_status.deep_view(),
            prior_error: self.prior_error.deep_view(),
            primary_cause: self.primary_cause.deep_view(),
            compensation_error: self.compensation_error.deep_view(),
            created_at: self.created_at.deep_view(),
            updated_at: self.updated_at.deep_view(),
        }
    }
}

impl View for RunLaunchIntent {
    type V = RunLaunchIntentModel;

    open spec fn view(&self) -> RunLaunchIntentModel {
        self.deep_view()
    }
}

impl Row for RunLaunchIntent {
    fn dup(&self) -> (r: Self) {
        RunLaunchIntent {
            run_id: self.run_id.dup(),
            execution_epoch: self.execution_epoch.dup(),
            action: self.action.dup(),
            state: self.state.dup(),
            repo_id: self.repo_id.dup(),
            integration_branch: self.integration_branch.dup(),
            integration_worktree: self.integration_worktree.dup(),
            integration_resources_owned: self.integration_resources_owned.dup(),
            prior_status: self.prior_status.dup(),
            prior_error: self.prior_error.dup(),
            primary_cause: self.primary_cause.dup(),
            compensation_error: self.compensation_error.dup(),
            created_at: self.created_at.dup(),
            updated_at: self.updated_at.dup(),
        }
    }

    fn same(&self, other: &Self) -> (r: bool) {
        self.run_id.same(&other.run_id)
            && self.execution_epoch.same(&other.execution_epoch)
            && self.action.same(&other.action)
            && self.state.same(&other.state)
            && self.repo_id.same(&other.repo_id)
            && self.integration_branch.same(&other.integration_branch)
            && self.integration_worktree.same(&other.integration_worktree)
            && self.integration_resources_owned.same(&other.integration_resources_owned)
            && self.prior_status.same(&other.prior_status)
            && self.prior_error.same(&other.prior_error)
            && self.primary_cause.same(&other.primary_cause)
            && self.compensation_error.same(&other.compensation_error)
            && self.created_at.same(&other.created_at)
            && self.updated_at.same(&other.updated_at)
    }
}

/// What an applied merge completes.
#[derive(Debug, Clone, PartialEq, Eq)]
pub enum IntegrationMergeCompletion {
    Slice { branch: String, commit_sha: String, attempts: usize },
    IntegrationRepair { launch_id: i64, status: String, summary: String },
}

#[verifier::ext_equal]
pub enum IntegrationMergeCompletionModel {
    Slice { branch: Seq<char>, commit_sha: Seq<char>, attempts: usize },
    IntegrationRepair { launch_id: i64, status: Seq<char>, summary: Seq<char> },
}

impl DeepView for IntegrationMergeCompletion {
    type V = IntegrationMergeCompletionModel;

    open spec fn deep_view(&self) -> IntegrationMergeCompletionModel {
        match self {
            IntegrationMergeCompletion::Slice { branch, commit_sha, attempts } => IntegrationMergeCompletionModel::Slice {
                branch: branch.deep_view(),
                commit_sha: commit_sha.deep_view(),
                attempts: attempts.deep_view(),
            },
            IntegrationMergeCompletion::IntegrationRepair { launch_id, status, summary } => IntegrationMergeCompletionModel::IntegrationRepair {
                launch_id: launch_id.deep_view(),
                status: status.deep_view(),
                summary: summary.deep_view(),
            },
        }
    }
}

impl View for IntegrationMergeCompletion {
    type V = IntegrationMergeCompletionModel;

    open spec fn view(&self) -> IntegrationMergeCompletionModel {
        self.deep_view()
    }
}

impl Row for IntegrationMergeCompletion {
    fn dup(&self) -> (r: Self) {
        match self {
            IntegrationMergeCompletion::Slice { branch, commit_sha, attempts } => IntegrationMergeCompletion::Slice {
                branch: branch.dup(),
                commit_sha: commit_sha.dup(),
                attempts: attempts.dup(),
            },
            IntegrationMergeCompletion::IntegrationRepair { launch_id, status, summary } => IntegrationMergeCompletion::IntegrationRepair {
                launch_id: launch_id.dup(),
                status: status.dup(),
                summary: summary.dup(),
            },
        }
    }

    fn same(&self, other: &Self) -> (r: bool) {
        match (self, other) {
            (
                IntegrationMergeCompletion::Slice { branch, commit_sha, attempts },
                IntegrationMergeCompletion::Slice { branch: other_branch, commit_sha: other_commit_sha, attempts: other_attempts },
            ) => branch.same(other_branch) && commit_sha.same(other_commit_sha) && attempts.same(other_attempts),
            (
                IntegrationMergeCompletion::IntegrationRepair { launch_id, status, summary },
                IntegrationMergeCompletion::IntegrationRepair { launch_id: other_launch_id, status: other_status, summary: other_summary },
            ) => launch_id.same(other_launch_id) && status.same(other_status) && summary.same(other_summary),
            _ => false,
        }
    }
}

/// The record of one merge into the integration branch.
#[derive(Debug, Clone, PartialEq, Eq)]
pub struct IntegrationMergeIntent {
    pub operation_id: String,
    pub run_id: String,
    pub kind: IntegrationMergeKind,
    pub slice_id: String,
    pub attempt: usize,
    pub launch_id: Option<i64>,
    pub source_branch: String,
    pub source_commit: String,
    pub source_tree: String,
    pub expected_head: String,
    pub expected_result_tree: String,
    pub resulting_head: String,
    pub state: IntegrationMergeState,
    pub completion: IntegrationMergeCompletion,
    pub primary_cause: String,
    pub abort_error: String,
    pub conflicted_files: Vec<String>,
    pub created_at: Timestamp,
    pub updated_at: Timestamp,
}

#[verifier::ext_equal]
pub struct IntegrationMergeIntentModel {
    pub operation_id: Seq<char>,
    pub run_id: Seq<char>,
    pub kind: IntegrationMergeKind,
    pub slice_id: Seq<char>,
    pub attempt: usize,
    pub launch_id: Option<i64>,
    pub source_branch: Seq<char>,
    pub source_commit: Seq<char>,
    pub source_tree: Seq<char>,
    pub expected_head: Seq<char>,
    pub expected_result_tree: Seq<char>,
    pub resulting_head: Seq<char>,
    pub state: IntegrationMergeState,
    pub completion: IntegrationMergeCompletionModel,
    pub primary_cause: Seq<char>,
    pub abort_error: Seq<char>,
    pub conflicted_files: Seq<Seq<char>>,
    pub created_at: Timestamp,
    pub updated_at: Timestamp,
}

impl DeepView for IntegrationMergeIntent {
    type V = IntegrationMergeIntentModel;

    open spec fn deep_view(&self) -> IntegrationMergeIntentModel {
        IntegrationMergeIntentModel {
            operation_id: self.operation_id.deep_view(),
            run_id: self.run_id.deep_view(),
            kind: self.kind.deep_view(),
            slice_id: self.slice_id.deep_view(),
            attempt: self.attempt.deep_view(),
            launch_id: self.launch_id.deep_view(),
            source_branch: self.source_branch.deep_view(),
            source_commit: self.source_commit.deep_view(),
            source_tree: self.source_tree.deep_view(),
            expected_head: self.expected_head.deep_view(),
            expected_result_tree: self.expected_result_tree.deep_view(),
            resulting_head: self.resulting_head.deep_view(),
            state: self.state.deep_view(),
            completion: self.completion.deep_view(),
            primary_cause: self.primary_cause.deep_view(),
            abort_error: self.abort_error.deep_view(),
            conflicted_files: self.conflicted_files.deep_view(),
            created_at: self.created_at.deep_view(),
            updated_at: self.updated_at.deep_view(),
        }
    }
}

impl View for IntegrationMergeIntent {
    type V = IntegrationMergeIntentModel;

    open spec fn view(&self) -> IntegrationMergeIntentModel {
        self.deep_view()
    }
}

impl Row for IntegrationMergeIntent {
    fn dup(&self) -> (r: Self) {
        IntegrationMergeIntent {
            operation_id: self.operation_id.dup(),
            run_id: self.run_id.dup(),
            kind: self.kind.dup(),
            slice_id: self.slice_id.dup(),
            attempt: self.attempt.dup(),
            launch_id: self.launch_id.dup(),
            source_branch: self.source_branch.dup(),
            source_commit: self.source_commit.dup(),
            source_tree: self.source_tree.dup(),
            expected_head: self.expected_head.dup(),
            expected_result_tree: self.expected_result_tree.dup(),
            resulting_head: self.resulting_head.dup(),
            state: self.state.dup(),
            completion: self.completion.dup(),
            primary_cause: self.primary_cause.dup(),
            abort_error: self.abort_error.dup(),
            conflicted_files: self.conflicted_files.dup(),
            created_at: self.created_at.dup(),
            updated_at: self.updated_at.dup(),
        }
    }

    fn same(&self, other: &Self) -> (r: bool) {
        self.operation_id.same(&other.operation_id)
            && self.run_id.same(&other.run_id)
            && self.kind.same(&other.kind)
            && self.slice_id.same(&other.slice_id)
            && self.attempt.same(&other.attempt)
            && self.launch_id.same(&other.launch_id)
            && self.source_branch.same(&other.source_branch)
            && self.source_commit.same(&other.source_commit)
            && self.source_tree.same(&other.source_tree)
            && self.expected_head.same(&other.expected_head)
            && self.expected_result_tree.same(&other.expected_result_tree)
            && self.resulting_head.same(&other.resulting_head)
            && self.state.same(&other.state)
            && self.completion.same(&other.completion)
            && self.primary_cause.same(&other.primary_cause)
            && self.abort_error.same(&other.abort_error)
            && self.conflicted_files.same(&other.conflicted_files)
            && self.created_at.same(&other.created_at)
            && self.updated_at.same(&other.updated_at)
    }
}

/// What has been observed of a running worker.
#[derive(Debug, Clone, PartialEq, Eq)]
pub struct WorkerAttemptProgress {
    pub launch_id: Option<i64>,
    pub attempt_started_at: Timestamp,
    pub pid: Option<u32>,
    pub process_observed_at: Option<Timestamp>,
    pub last_event_at: Option<Timestamp>,
    pub last_event_kind: String,
    pub last_semantic_progress_at: Option<Timestamp>,
    pub last_semantic_progress_summary: String,
    pub attempt_timeout_seconds: u64,
    pub no_output_warning_seconds: u64,
}

#[verifier::ext_equal]
pub struct WorkerAttemptProgressModel {
    pub launch_id: Option<i64>,
    pub attempt_started_at: Timestamp,
    pub pid: Option<u32>,
    pub process_observed_at: Option<Timestamp>,
    pub last_event_at: Option<Timestamp>,
    pub last_event_kind: Seq<char>,
    pub last_semantic_progress_at: Option<Timestamp>,
    pub last_semantic_progress_summary: Seq<char>,
    pub attempt_timeout_seconds: u64,
    pub no_output_warning_seconds: u64,
}

impl DeepView for WorkerAttemptProgress {
    type V = WorkerAttemptProgressModel;

    open spec fn deep_view(&self) -> WorkerAttemptProgressModel {
        WorkerAttemptProgressModel {
            launch_id: self.launch_id.deep_view(),
            attempt_started_at: self.attempt_started_at.deep_view(),
            pid: self.pid.deep_view(),
            process_observed_at: self.process_observed_at.deep_view(),
            last_event_at: self.last_event_at.deep_view(),
            last_event_kind: self.last_event_kind.deep_view(),
            last_semantic_progress_at: self.last_semantic_progress_at.deep_view(),
            last_semantic_progress_summary: self.last_semantic_progress_summary.deep_view(),
            attempt_timeout_seconds: self.attempt_timeout_seconds.deep_view(),
            no_output_warning_seconds: self.no_output_warning_seconds.deep_view(),
        }
    }
}

impl View for WorkerAttemptProgress {
    type V = WorkerAttemptProgressModel;

    open spec fn view(&self) -> WorkerAttemptProgressModel {
        self.deep_view()
    }
}

impl Row for WorkerAttemptProgress {
    fn dup(&self) -> (r: Self) {
        WorkerAttemptProgress {
            launch_id: self.launch_id.dup(),
            attempt_started_at: self.attempt_started_at.dup(),
            pid: self.pid.dup(),
            process_observed_at: self.process_observed_at.dup(),
            last_event_at: self.last_event_at.dup(),
            last_event_kind: self.last_event_kind.dup(),
            last_semantic_progress_at: self.last_semantic_progress_at.dup(),
            last_semantic_progress_summary: self.last_semantic_progress_summary.dup(),
            attempt_timeout_seconds: self.attempt_timeout_seconds.dup(),
            no_output_warning_seconds: self.no_output_warning_seconds.dup(),
        }
    }

    fn same(&self, other: &Self) -> (r: bool) {
        self.launch_id.same(&other.launch_id)
            && self.attempt_started_at.same(&other.attempt_started_at)
            && self.pid.same(&other.pid)
            && self.process_observed_at.same(&other.process_observed_at)
            && self.last_event_at.same(&other.last_event_at)
            && self.last_event_kind.same(&other.last_event_kind)
            && self.last_semantic_progress_at.same(&other.last_semantic_progress_at)
            && self.last_semantic_progress_summary.same(&other.last_semantic_progress_summary)
            && self.attempt_timeout_seconds.same(&other.attempt_timeout_seconds)
            && self.no_output_warning_seconds.same(&other.no_output_warning_seconds)
    }
}

/// One launch of a worker; the identity of a launch never changes.
#[derive(Debug, Clone, PartialEq, Eq)]
pub struct WorkerAttemptLedger {
    pub run_id: String,
    pub slice_id: String,
    pub launch_id: i64,
    pub launch_ordinal: usize,
    pub execution_epoch: usize,
    pub worker_retry_ordinal: usize,
    pub repair_ordinal: usize,
    pub envelope_retry_ordinal: usize,
    pub kind: String,
    pub state: String,
    pub branch: String,
    pub worktree: String,
    pub output_stem: String,
    pub created_at: Timestamp,
    pub launched_at: Option<Timestamp>,
    pub finished_at: Option<Timestamp>,
    pub failure_cause: String,
    pub activity: Option<WorkerAttemptProgress>,
}

#[verifier::ext_equal]
pub struct WorkerAttemptLedgerModel {
    pub run_id: Seq<char>,
    pub slice_id: Seq<char>,
    pub launch_id: i64,
    pub launch_ordinal: usize,
    pub execution_epoch: usize,
    pub worker_retry_ordinal: usize,
    pub repair_ordinal: usize,
    pub envelope_retry_ordinal: usize,
    pub kind: Seq<char>,
    pub state: Seq<char>,
    pub branch: Seq<char>,
    pub worktree: Seq<char>,
    pub output_stem: Seq<char>,
    pub created_at: Timestamp,
    pub launched_at: Option<Timestamp>,
    pub finished_at: Option<Timestamp>,
    pub failure_cause: Seq<char>,
    pub activity: Option<WorkerAttemptProgressModel>,
}

impl DeepView for WorkerAttemptLedger {
    type V = WorkerAttemptLedgerModel;

    open spec fn deep_view(&self) -> WorkerAttemptLedgerModel {
        WorkerAttemptLedgerModel {
            run_id: self.run_id.deep_view(),
            slice_id: self.slice_id.deep_view(),
            launch_id: self.launch_id.deep_view(),
            launch_ordinal: self.launch_ordinal.deep_view(),
            execution_epoch: self.execution_epoch.deep_view(),
            worker_retry_ordinal: self.worker_retry_ordinal.deep_view(),
            repair_ordinal: self.repair_ordinal.deep_view(),
            envelope_retry_ordinal: self.envelope_retry_ordinal.deep_view(),
            kind: self.kind.deep_view(),
            state: self.state.deep_view(),
            branch: self.branch.deep_view(),
            worktree: self.worktree.deep_view(),
            output_stem: self.output_stem.deep_view(),
            created_at: self.created_at.deep_view(),
            launched_at: self.launched_at.deep_view(),
            finished_at: self.finished_at.deep_view(),
            failure_cause: self.failure_cause.deep_view(),
            activity: self.activity.deep_view(),
        }
    }
}

impl View for WorkerAttemptLedger {
    type V = WorkerAttemptLedgerModel;

    open spec fn view(&self) -> WorkerAttemptLedgerModel {
        self.deep_view()
    }
}

impl Row for WorkerAttemptLedger {
    fn dup(&self) -> (r: Self) {
        WorkerAttemptLedger {
            run_id: self.run_id.dup(),
            slice_id: self.slice_id.dup(),
            launch_id: self.launch_id.dup(),
            launch_ordinal: self.launch_ordinal.dup(),
            execution_epoch: self.execution_epoch.dup(),
            worker_retry_ordinal: self.worker_retry_ordinal.dup(),
            repair_ordinal: self.repair_ordinal.dup(),
            envelope_retry_ordinal: self.envelope_retry_ordinal.dup(),
            kind: self.kind.dup(),
            state: self.state.dup(),
            branch: self.branch.dup(),
            worktree: self.worktree.dup(),
            output_stem: self.output_stem.dup(),
            created_at: self.created_at.dup(),
            launched_at: self.launched_at.dup(),
            finished_at: self.finished_at.dup(),
            failure_cause: self.failure_cause.dup(),
            activity: self.activity.dup(),
        }
    }

    fn same(&self, other: &Self) -> (r: bool) {
        self.run_id.same(&other.run_id)
            && self.slice_id.same(&other.slice_id)
            && self.launch_id.same(&other.launch_id)
            && self.launch_ordinal.same(&other.launch_ordinal)
            && self.execution_epoch.same(&other.execution_epoch)
            && self.worker_retry_ordinal.same(&other.worker_retry_ordinal)
            && self.repair_ordinal.same(&other.repair_ordinal)
            && self.envelope_retry_ordinal.same(&other.envelope_retry_ordinal)
            && self.kind.same(&other.kind)
            && self.state.same(&other.state)
            && self.branch.same(&other.branch)
            && self.worktree.same(&other.worktree)
            && self.output_stem.same(&other.output_stem)
            && self.created_at.same(&other.created_at)
            && self.launched_at.same(&other.launched_at)
            && self.finished_at.same(&other.finished_at)
            && self.failure_cause.same(&other.failure_cause)
            && self.activity.same(&other.activity)
    }
}

/// The progress of a run as it is shown to the operator.
#[derive(Debug, Clone, PartialEq, Eq)]
pub struct RunProgress {
    pub run_id: String,
    pub phase: String,
    pub slice_id: String,
    pub attempt: usize,
    pub command: String,
    pub message: String,
    pub output_tail: String,
    pub phase_started_at: Timestamp,
    pub updated_at: Timestamp,
    pub worker: Option<WorkerAttemptProgress>,
    pub parallel_layer: bool,
    pub parallel_slices: Vec<String>,
}

#[verifier::ext_equal]
pub struct RunProgressModel {
    pub run_id: Seq<char>,
    pub phase: Seq<char>,
    pub slice_id: Seq<char>,
    pub attempt: usize,
    pub command: Seq<char>,
    pub message: Seq<char>,
    pub output_tail: Seq<char>,
    pub phase_started_at: Timestamp,
    pub updated_at: Timestamp,
    pub worker: Option<WorkerAttemptProgressModel>,
    pub parallel_layer: bool,
    pub parallel_slices: Seq<Seq<char>>,
}

impl DeepView for RunProgress {
    type V = RunProgressModel;

    open spec fn deep_view(&self) -> RunProgressModel {
        RunProgressModel {
            run_id: self.run_id.deep_view(),
            phase: self.phase.deep_view(),
            slice_id: self.slice_id.deep_view(),
            attempt: self.attempt.deep_view(),
            command: self.command.deep_view(),
            message: self.message.deep_view(),
            output_tail: self.output_tail.deep_view(),
            phase_started_at: self.phase_started_at.deep_view(),
            updated_at: self.updated_at.deep_view(),
            worker: self.worker.deep_view(),
            parallel_layer: self.parallel_layer.deep_view(),
            parallel_slices: self.parallel_slices.deep_view(),
        }
    }
}

impl View for RunProgress {
    type V = RunProgressModel;

    open spec fn view(&self) -> RunProgressModel {
        self.deep_view()
    }
}

impl Row for RunProgress {
    fn dup(&self) -> (r: Self) {
        RunProgress {
            run_id: self.run_id.dup(),
            phase: self.phase.dup(),
            slice_id: self.slice_id.dup(),
            attempt: self.attempt.dup(),
            command: self.command.dup(),
            message: self.message.dup(),
            output_tail: self.output_tail.dup(),
            phase_started_at: self.phase_started_at.dup(),
            updated_at: self.updated_at.dup(),
            worker: self.worker.dup(),
            parallel_layer: self.parallel_layer.dup(),
            parallel_slices: self.parallel_slices.dup(),
        }
    }

    fn same(&self, other: &Self) -> (r: bool) {
        self.run_id.same(&other.run_id)
            && self.phase.same(&other.phase)
            && self.slice_id.same(&other.slice_id)
            && self.attempt.same(&other.attempt)
            && self.command.same(&other.command)
            && self.message.same(&other.message)
            && self.output_tail.same(&other.output_tail)
            && self.phase_started_at.same(&other.phase_started_at)
            && self.updated_at.same(&other.updated_at)
            && self.worker.same(&other.worker)
            && self.parallel_layer.same(&other.parallel_layer)
            && self.parallel_slices.same(&other.parallel_slices)
    }
}

/// A question that a worker asked the operator.
#[derive(Debug, Clone, PartialEq, Eq)]
pub struct WorkerQuestion {
    pub id: String,
    pub run_id: String,
    pub slice_id: String,
    pub attempt: usize,
    pub launch_id: Option<i64>,
    pub question: String,
    pub options: Vec<String>,
    pub timeout_seconds: u64,
    pub recommended_answer: String,
    pub recommendation_rationale: String,
    pub bounded_within_current_slice_or_mission_authority: bool,
    pub reversible: bool,
    pub fallback_eligible: bool,
    pub deadline_at: Option<Timestamp>,
    pub state: String,
    pub asked_at: Timestamp,
    pub answered_at: Option<Timestamp>,
    pub answer: String,
    pub answer_source: Option<WorkerQuestionAnswerSource>,
}

#[verifier::ext_equal]
pub struct WorkerQuestionModel {
    pub id: Seq<char>,
    pub run_id: Seq<char>,
    pub slice_id: Seq<char>,
    pub attempt: usize,
    pub launch_id: Option<i64>,
    pub question: Seq<char>,
    pub options: Seq<Seq<char>>,
    pub timeout_seconds: u64,
    pub recommended_answer: Seq<char>,
    pub recommendation_rationale: Seq<char>,
    pub bounded_within_current_slice_or_mission_authority: bool,
    pub reversible: bool,
    pub fallback_eligible: bool,
    pub deadline_at: Option<Timestamp>,
    pub state: Seq<char>,
    pub asked_at: Timestamp,
    pub answered_at: Option<Timestamp>,
    pub answer: Seq<char>,
    pub answer_source: Option<WorkerQuestionAnswerSource>,
}

impl DeepView for WorkerQuestion {
    type V = WorkerQuestionModel;

    open spec fn deep_view(&self) -> WorkerQuestionModel {
        WorkerQuestionModel {
            id: self.id.deep_view(),
            run_id: self.run_id.deep_view(),
            slice_id: self.slice_id.deep_view(),
            attempt: self.attempt.deep_view(),
            launch_id: self.launch_id.deep_view(),
            question: self.question.deep_view(),
            options: self.options.deep_view(),
            timeout_seconds: self.timeout_seconds.deep_view(),
            recommended_answer: self.recommended_answer.deep_view(),
            recommendation_rationale: self.recommendation_rationale.deep_view(),
            bounded_within_current_slice_or_mission_authority: self.bounded_within_current_slice_or_mission_authority.deep_view(),
            reversible: self.reversible.deep_view(),
            fallback_eligible: self.fallback_eligible.deep_view(),
            deadline_at: self.deadline_at.deep_view(),
            state: self.state.deep_view(),
            asked_at: self.asked_at.deep_view(),
            answered_at: self.answered_at.deep_view(),
            answer: self.answer.deep_view(),
            answer_source: self.answer_source.deep_view(),
        }
    }
}

impl View for WorkerQuestion {
    type V = WorkerQuestionModel;

    open spec fn view(&self) -> WorkerQuestionModel {
        self.deep_view()
    }
}

impl Row for WorkerQuestion {
    fn dup(&self) -> (r: Self) {
        WorkerQuestion {
            id: self.id.dup(),
            run_id: self.run_id.dup(),
            slice_id: self.slice_id.dup(),
            attempt: self.attempt.dup(),
            launch_id: self.launch_id.dup(),
            question: self.question.dup(),
            options: self.options.dup(),
            timeout_seconds: self.timeout_seconds.dup(),
            recommended_answer: self.recommended_answer.dup(),
            recommendation_rationale: self.recommendation_rationale.dup(),
            bounded_within_current_slice_or_mission_authority: self.bounded_within_current_slice_or_mission_authority.dup(),
            reversible: self.reversible.dup(),
            fallback_eligible: self.fallback_eligible.dup(),
            deadline_at: self.deadline_at.dup(),
            state: self.state.dup(),
            asked_at: self.asked_at.dup(),
            answered_at: self.answered_at.dup(),
            answer: self.answer.dup(),
            answer_source: self.answer_source.dup(),
        }
    }

    fn same(&self, other: &Self) -> (r: bool) {
        self.id.same(&other.id)
            && self.run_id.same(&other.run_id)
            && self.slice_id.same(&other.slice_id)
            && self.attempt.same(&other.attempt)
            && self.launch_id.same(&other.launch_id)
            && self.question.same(&other.question)
            && self.options.same(&other.options)
            && self.timeout_seconds.same(&other.timeout_seconds)
            && self.recommended_answer.same(&other.recommended_answer)
            && self.recommendation_rationale.same(&other.recommendation_rationale)
            && self.bounded_within_current_slice_or_mission_authority.same(&other.bounded_within_current_slice_or_mission_authority)
            && self.reversible.same(&other.reversible)
            && self.fallback_eligible.same(&other.fallback_eligible)
            && self.deadline_at.same(&other.deadline_at)
            && self.state.same(&other.state)
            && self.asked_at.same(&other.asked_at)
            && self.answered_at.same(&other.answered_at)
            && self.answer.same(&other.answer)
            && self.answer_source.same(&other.answer_source)
    }
}

/// The answer that a worker recommends for its own question.
#[derive(Debug, Clone, PartialEq, Eq)]
pub struct WorkerQuestionRecommendation {
    pub recommended_answer: String,
    pub rationale: String,
    pub bounded_within_current_slice_or_mission_authority: bool,
    pub reversible: bool,
}

#[verifier::ext_equal]
pub struct WorkerQuestionRecommendationModel {
    pub recommended_answer: Seq<char>,
    pub rationale: Seq<char>,
    pub bounded_within_current_slice_or_mission_authority: bool,
    pub reversible: bool,
}

impl DeepView for WorkerQuestionRecommendation {
    type V = WorkerQuestionRecommendationModel;

    open spec fn deep_view(&self) -> WorkerQuestionRecommendationModel {
        WorkerQuestionRecommendationModel {
            recommended_answer: self.recommended_answer.deep_view(),
            rationale: self.rationale.deep_view(),
            bounded_within_current_slice_or_mission_authority: self.bounded_within_current_slice_or_mission_authority.deep_view(),
            reversible: self.reversible.deep_view(),
        }
    }
}

impl View for WorkerQuestionRecommendation {
    type V = WorkerQuestionRecommendationModel;

    open spec fn view(&self) -> WorkerQuestionRecommendationModel {
        self.deep_view()
    }
}

impl Row for WorkerQuestionRecommendation {
    fn dup(&self) -> (r: Self) {
        WorkerQuestionRecommendation {
            recommended_answer: self.recommended_answer.dup(),
            rationale: self.rationale.dup(),
            bounded_within_current_slice_or_mission_authority: self.bounded_within_current_slice_or_mission_authority.dup(),
            reversible: self.reversible.dup(),
        }
    }

    fn same(&self, other: &Self) -> (r: bool) {
        self.recommended_answer.same(&other.recommended_answer)
            && self.rationale.same(&other.rationale)
            && self.bounded_within_current_slice_or_mission_authority.same(&other.bounded_within_current_slice_or_mission_authority)
            && self.reversible.same(&other.reversible)
    }
}

impl Default for WorkerQuestionRecommendation {
    fn default() -> (r: Self)
        ensures
            r@ == WorkerQuestionRecommendationModel::empty(),
    {
        let r = WorkerQuestionRecommendation {
            recommended_answer: String::new(),
            rationale: String::new(),
            bounded_within_current_slice_or_mission_authority: false,
            reversible: false,
        };
        assert(r@ =~= WorkerQuestionRecommendationModel::empty());
        r
    }
}

impl WorkerQuestionRecommendationModel {
    /// All texts and lists empty, all numbers zero, all flags off.
    pub open spec fn empty() -> WorkerQuestionRecommendationModel {
        WorkerQuestionRecommendationModel {
            recommended_answer: Seq::<char>::empty(),
            rationale: Seq::<char>::empty(),
            bounded_within_current_slice_or_mission_authority: false,
            reversible: false,
        }
    }
}

/// Where a replan proposal came from.
#[derive(Debug, Clone, PartialEq, Eq)]
pub struct ReplanProposalSource {
    pub kind: String,
    pub slice_id: String,
    pub phase: String,
    pub attempt: usize,
    pub summary: String,
}

#[verifier::ext_equal]
pub struct ReplanProposalSourceModel {
    pub kind: Seq<char>,
    pub slice_id: Seq<char>,
    pub phase: Seq<char>,
    pub attempt: usize,
    pub summary: Seq<char>,
}

impl DeepView for ReplanProposalSource {
    type V = ReplanProposalSourceModel;

    open spec fn deep_view(&self) -> ReplanProposalSourceModel {
        ReplanProposalSourceModel {
            kind: self.kind.deep_view(),
            slice_id: self.slice_id.deep_view(),
            phase: self.phase.deep_view(),
            attempt: self.attempt.deep_view(),
            summary: self.summary.deep_view(),
        }
    }
}

impl View for ReplanProposalSource {
    type V = ReplanProposalSourceModel;

    open spec fn view(&self) -> ReplanProposalSourceModel {
        self.deep_view()
    }
}

impl Row for ReplanProposalSource {
    fn dup(&self) -> (r: Self) {
        ReplanProposalSource {
            kind: self.kind.dup(),
            slice_id: self.slice_id.dup(),
            phase: self.phase.dup(),
            attempt: self.attempt.dup(),
            summary: self.summary.dup(),
        }
    }

    fn same(&self, other: &Self) -> (r: bool) {
        self.kind.same(&other.kind)
            && self.slice_id.same(&other.slice_id)
            && self.phase.same(&other.phase)
            && self.attempt.same(&other.attempt)
            && self.summary.same(&other.summary)
    }
}

impl Default for ReplanProposalSource {
    fn default() -> (r: Self)
        ensures
            r@ == ReplanProposalSourceModel::empty(),
    {
        let r = ReplanProposalSource {
            kind: String::new(),
            slice_id: String::new(),
            phase: String::new(),
            attempt: 0,
            summary: String::new(),
        };
        assert(r@ =~= ReplanProposalSourceModel::empty());
        r
    }
}

impl ReplanProposalSourceModel {
    /// All texts and lists empty, all numbers zero, all flags off.
    pub open spec fn empty() -> ReplanProposalSourceModel {
        ReplanProposalSourceModel {
            kind: Seq::<char>::empty(),
            slice_id: Seq::<char>::empty(),
            phase: Seq::<char>::empty(),
            attempt: 0,
            summary: Seq::<char>::empty(),
        }
    }
}

/// Evidence behind a replan proposal.
#[derive(Debug, Clone, PartialEq, Eq)]
pub struct ReplanEvidenceLink {
    pub kind: String,
    pub path: String,
    pub event_id: i64,
    pub summary: String,
}

#[verifier::ext_equal]
pub struct ReplanEvidenceLinkModel {
    pub kind: Seq<char>,
    pub path: Seq<char>,
    pub event_id: i64,
    pub summary: Seq<char>,
}

impl DeepView for ReplanEvidenceLink {
    type V = ReplanEvidenceLinkModel;

    open spec fn deep_view(&self) -> ReplanEvidenceLinkModel {
        ReplanEvidenceLinkModel {
            kind: self.kind.deep_view(),
            path: self.path.deep_view(),
            event_id: self.event_id.deep_view(),
            summary: self.summary.deep_view(),
        }
    }
}

impl View for ReplanEvidenceLink {
    type V = ReplanEvidenceLinkModel;

    open spec fn view(&self) -> ReplanEvidenceLinkModel {
        self.deep_view()
    }
}

impl Row for ReplanEvidenceLink {
    fn dup(&self) -> (r: Self) {
        ReplanEvidenceLink {
            kind: self.kind.dup(),
            path: self.path.dup(),
            event_id: self.event_id.dup(),
            summary: self.summary.dup(),
        }
    }

    fn same(&self, other: &Self) -> (r: bool) {
        self.kind.same(&other.kind)
            && self.path.same(&other.path)
            && self.event_id.same(&other.event_id)
            && self.summary.same(&other.summary)
    }
}

/// The draft of a slice that a proposal wants to add.
#[derive(Debug, Clone, PartialEq, Eq)]
pub struct FollowupSliceDraft {
    pub id: String,
    pub title: String,
    pub goal: String,
    pub areas: Vec<String>,
    pub acceptance: Vec<String>,
    pub verify: Vec<String>,
}

#[verifier::ext_equal]
pub struct FollowupSliceDraftModel {
    pub id: Seq<char>,
    pub title: Seq<char>,
    pub goal: Seq<char>,
    pub areas: Seq<Seq<char>>,
    pub acceptance: Seq<Seq<char>>,
    pub verify: Seq<Seq<char>>,
}

impl DeepView for FollowupSliceDraft {
    type V = FollowupSliceDraftModel;

    open spec fn deep_view(&self) -> FollowupSliceDraftModel {
        FollowupSliceDraftModel {
            id: self.id.deep_view(),
            title: self.title.deep_view(),
            goal: self.goal.deep_view(),
            areas: self.areas.deep_view(),
            acceptance: self.acceptance.deep_view(),
            verify: self.verify.deep_view(),
        }
    }
}

impl View for FollowupSliceDraft {
    type V = FollowupSliceDraftModel;

    open spec fn view(&self) -> FollowupSliceDraftModel {
        self.deep_view()
    }
}

impl Row for FollowupSliceDraft {
    fn dup(&self) -> (r: Self) {
        FollowupSliceDraft {
            id: self.id.dup(),
            title: self.title.dup(),
            goal: self.goal.dup(),
            areas: self.areas.dup(),
            acceptance: self.acceptance.dup(),
            verify: self.verify.dup(),
        }
    }

    fn same(&self, other: &Self) -> (r: bool) {
        self.id.same(&other.id)
            && self.title.same(&other.title)
            && self.goal.same(&other.goal)
            && self.areas.same(&other.areas)
            && self.acceptance.same(&other.acceptance)
            && self.verify.same(&other.verify)
    }
}

impl Default for FollowupSliceDraft {
    fn default() -> (r: Self)
        ensures
            r@ == FollowupSliceDraftModel::empty(),
    {
        let r = FollowupSliceDraft {
            id: String::new(),
            title: String::new(),
            goal: String::new(),
            areas: Vec::new(),
            acceptance: Vec::new(),
            verify: Vec::new(),
        };
        assert(r@ =~= FollowupSliceDraftModel::empty());
        r
    }
}

impl FollowupSliceDraftModel {
    /// All texts and lists empty, all numbers zero, all flags off.
    pub open spec fn empty() -> FollowupSliceDraftModel {
        FollowupSliceDraftModel {
            id: Seq::<char>::empty(),
            title: Seq::<char>::empty(),
            goal: Seq::<char>::empty(),
            areas: Seq::empty(),
            acceptance: Seq::empty(),
            verify: Seq::empty(),
        }
    }
}

/// One change that a replan proposal asks for.
#[derive(Debug, Clone, PartialEq, Eq)]
pub struct ReplanProposedChange {
    pub kind: String,
    pub target: String,
    pub summary: String,
    pub followup_slice_draft: Option<FollowupSliceDraft>,
}

#[verifier::ext_equal]
pub struct ReplanProposedChangeModel {
    pub kind: Seq<char>,
    pub target: Seq<char>,
    pub summary: Seq<char>,
    pub followup_slice_draft: Option<FollowupSliceDraftModel>,
}

impl DeepView for ReplanProposedChange {
    type V = ReplanProposedChangeModel;

    open spec fn deep_view(&self) -> ReplanProposedChangeModel {
        ReplanProposedChangeModel {
            kind: self.kind.deep_view(),
            target: self.target.deep_view(),
            summary: self.summary.deep_view(),
            followup_slice_draft: self.followup_slice_draft.deep_view(),
        }
    }
}

impl View for ReplanProposedChange {
    type V = ReplanProposedChangeModel;

    open spec fn view(&self) -> ReplanProposedChangeModel {
        self.deep_view()
    }
}

impl Row for ReplanProposedChange {
    fn dup(&self) -> (r: Self) {
        ReplanProposedChange {
            kind: self.kind.dup(),
            target: self.target.dup(),
            summary: self.summary.dup(),
            followup_slice_draft: self.followup_slice_draft.dup(),
        }
    }

    fn same(&self, other: &Self) -> (r: bool) {
        self.kind.same(&other.kind)
            && self.target.same(&other.target)
            && self.summary.same(&other.summary)
            && self.followup_slice_draft.same(&other.followup_slice_draft)
    }
}

/// How much of its autonomy budget a run has used.
#[derive(Debug, Clone, PartialEq, Eq)]
pub struct FrontierBudgetState {
    pub auto_promotions_used: u64,
    pub generated_slices: u64,
}

#[verifier::ext_equal]
pub struct FrontierBudgetStateModel {
    pub auto_promotions_used: u64,
    pub generated_slices: u64,
}

impl DeepView for FrontierBudgetState {
    type V = FrontierBudgetStateModel;

    open spec fn deep_view(&self) -> FrontierBudgetStateModel {
        FrontierBudgetStateModel {
            auto_promotions_used: self.auto_promotions_used.deep_view(),
            generated_slices: self.generated_slices.deep_view(),
        }
    }
}

impl View for FrontierBudgetState {
    type V = FrontierBudgetStateModel;

    open spec fn view(&self) -> FrontierBudgetStateModel {
        self.deep_view()
    }
}

impl Row for FrontierBudgetState {
    fn dup(&self) -> (r: Self) {
        FrontierBudgetState {
            auto_promotions_used: self.auto_promotions_used.dup(),
            generated_slices: self.generated_slices.dup(),
        }
    }

    fn same(&self, other: &Self) -> (r: bool) {
        self.auto_promotions_used.same(&other.auto_promotions_used)
            && self.generated_slices.same(&other.generated_slices)
    }
}

impl Default for FrontierBudgetState {
    fn default() -> (r: Self)
        ensures
            r@ == FrontierBudgetStateModel::empty(),
    {
        let r = FrontierBudgetState {
            auto_promotions_used: 0,
            generated_slices: 0,
        };
        assert(r@ =~= FrontierBudgetStateModel::empty());
        r
    }
}

impl FrontierBudgetStateModel {
    /// All texts and lists empty, all numbers zero, all flags off.
    pub open spec fn empty() -> FrontierBudgetStateModel {
        FrontierBudgetStateModel {
            auto_promotions_used: 0,
            generated_slices: 0,
        }
    }
}

/// How the frontier policy classified a proposal.
#[derive(Debug, Clone, PartialEq, Eq)]
pub struct FrontierClassification {
    pub tier: String,
    pub reason_codes: Vec<String>,
    pub classified_at: Timestamp,
    pub envelope_hash: String,
    pub budget_snapshot: FrontierBudgetState,
    pub autonomy_level: AutonomyLevel,
}

#[verifier::ext_equal]
pub struct FrontierClassificationModel {
    pub tier: Seq<char>,
    pub reason_codes: Seq<Seq<char>>,
    pub classified_at: Timestamp,
    pub envelope_hash: Seq<char>,
    pub budget_snapshot: FrontierBudgetStateModel,
    pub autonomy_level: AutonomyLevel,
}

impl DeepView for FrontierClassification {
    type V = FrontierClassificationModel;

    open spec fn deep_view(&self) -> FrontierClassificationModel {
        FrontierClassificationModel {
            tier: self.tier.deep_view(),
            reason_codes: self.reason_codes.deep_view(),
            classified_at: self.classified_at.deep_view(),
            envelope_hash: self.envelope_hash.deep_view(),
            budget_snapshot: self.budget_snapshot.deep_view(),
            autonomy_level: self.autonomy_level.deep_view(),
        }
    }
}

impl View for FrontierClassification {
    type V = FrontierClassificationModel;

    open spec fn view(&self) -> FrontierClassificationModel {
        self.deep_view()
    }
}

impl Row for FrontierClassification {
    fn dup(&self) -> (r: Self) {
        FrontierClassification {
            tier: self.tier.dup(),
            reason_codes: self.reason_codes.dup(),
            classified_at: self.classified_at.dup(),
            envelope_hash: self.envelope_hash.dup(),
            budget_snapshot: self.budget_snapshot.dup(),
            autonomy_level: self.autonomy_level.dup(),
        }
    }

    fn same(&self, other: &Self) -> (r: bool) {
        self.tier.same(&other.tier)
            && self.reason_codes.same(&other.reason_codes)
            && self.classified_at.same(&other.classified_at)
            && self.envelope_hash.same(&other.envelope_hash)
            && self.budget_snapshot.same(&other.budget_snapshot)
            && self.autonomy_level.same(&other.autonomy_level)
    }
}

/// The decision on a replan proposal.
#[derive(Debug, Clone, PartialEq, Eq)]
pub struct ReplanDecision {
    pub decision: String,
    pub rationale: String,
    pub authorizer: String,
    pub source: String,
    pub decided_at: Timestamp,
    pub frontier_tier: String,
    pub frontier_reason_codes: Vec<String>,
    pub frontier_budget_before: Option<FrontierBudgetState>,
    pub frontier_budget_after: Option<FrontierBudgetState>,
    pub applied: bool,
    pub applied_at: Option<Timestamp>,
    pub apply_status: String,
    pub apply_reason: String,
    pub generated_slice_id: String,
    pub generated_slice_generation: u64,
    pub generated_slice_commit: String,
    pub apply_before_checkpoint_id: String,
    pub apply_after_checkpoint_id: String,
    pub queue_before: Vec<String>,
    pub queue_after: Vec<String>,
    pub queue_before_hash: String,
    pub queue_after_hash: String,
    pub replacement_id: String,
    pub revisit_condition: String,
}

#[verifier::ext_equal]
pub struct ReplanDecisionModel {
    pub decision: Seq<char>,
    pub rationale: Seq<char>,
    pub authorizer: Seq<char>,
    pub source: Seq<char>,
    pub decided_at: Timestamp,
    pub frontier_tier: Seq<char>,
    pub frontier_reason_codes: Seq<Seq<char>>,
    pub frontier_budget_before: Option<FrontierBudgetStateModel>,
    pub frontier_budget_after: Option<FrontierBudgetStateModel>,
    pub applied: bool,
    pub applied_at: Option<Timestamp>,
    pub apply_status: Seq<char>,
    pub apply_reason: Seq<char>,
    pub generated_slice_id: Seq<char>,
    pub generated_slice_generation: u64,
    pub generated_slice_commit: Seq<char>,
    pub apply_before_checkpoint_id: Seq<char>,
    pub apply_after_checkpoint_id: Seq<char>,
    pub queue_before: Seq<Seq<char>>,
    pub queue_after: Seq<Seq<char>>,
    pub queue_before_hash: Seq<char>,
    pub queue_after_hash: Seq<char>,
    pub replacement_id: Seq<char>,
    pub revisit_condition: Seq<char>,
}

impl DeepView for ReplanDecision {
    type V = ReplanDecisionModel;

    open spec fn deep_view(&self) -> ReplanDecisionModel {
        ReplanDecisionModel {
            decision: self.decision.deep_view(),
            rationale: self.rationale.deep_view(),
            authorizer: self.authorizer.deep_view(),
            source: self.source.deep_view(),
            decided_at: self.decided_at.deep_view(),
            frontier_tier: self.frontier_tier.deep_view(),
            frontier_reason_codes: self.frontier_reason_codes.deep_view(),
            frontier_budget_before: self.frontier_budget_before.deep_view(),
            frontier_budget_after: self.frontier_budget_after.deep_view(),
            applied: self.applied.deep_view(),
            applied_at: self.applied_at.deep_view(),
            apply_status: self.apply_status.deep_view(),
            apply_reason: self.apply_reason.deep_view(),
            generated_slice_id: self.generated_slice_id.deep_view(),
            generated_slice_generation: self.generated_slice_generation.deep_view(),
            generated_slice_commit: self.generated_slice_commit.deep_view(),
            apply_before_checkpoint_id: self.apply_before_checkpoint_id.deep_view(),
            apply_after_checkpoint_id: self.apply_after_checkpoint_id.deep_view(),
            queue_before: self.queue_before.deep_view(),
            queue_after: self.queue_after.deep_view(),
            queue_before_hash: self.queue_before_hash.deep_view(),
            queue_after_hash: self.queue_after_hash.deep_view(),
            replacement_id: self.replacement_id.deep_view(),
            revisit_condition: self.revisit_condition.deep_view(),
        }
    }
}

impl View for ReplanDecision {
    type V = ReplanDecisionModel;

    open spec fn view(&self) -> ReplanDecisionModel {
        self.deep_view()
    }
}

impl Row for ReplanDecision {
    fn dup(&self) -> (r: Self) {
        ReplanDecision {
            decision: self.decision.dup(),
            rationale: self.rationale.dup(),
            authorizer: self.authorizer.dup(),
            source: self.source.dup(),
            decided_at: self.decided_at.dup(),
            frontier_tier: self.frontier_tier.dup(),
            frontier_reason_codes: self.frontier_reason_codes.dup(),
            frontier_budget_before: self.frontier_budget_before.dup(),
            frontier_budget_after: self.frontier_budget_after.dup(),
            applied: self.applied.dup(),
            applied_at: self.applied_at.dup(),
            apply_status: self.apply_status.dup(),
            apply_reason: self.apply_reason.dup(),
            generated_slice_id: self.generated_slice_id.dup(),
            generated_slice_generation: self.generated_slice_generation.dup(),
            generated_slice_commit: self.generated_slice_commit.dup(),
            apply_before_checkpoint_id: self.apply_before_checkpoint_id.dup(),
            apply_after_checkpoint_id: self.apply_after_checkpoint_id.dup(),
            queue_before: self.queue_before.dup(),
            queue_after: self.queue_after.dup(),
            queue_before_hash: self.queue_before_hash.dup(),
            queue_after_hash: self.queue_after_hash.dup(),
            replacement_id: self.replacement_id.dup(),
            revisit_condition: self.revisit_condition.dup(),
        }
    }

    fn same(&self, other: &Self) -> (r: bool) {
        self.decision.same(&other.decision)
            && self.rationale.same(&other.rationale)
            && self.authorizer.same(&other.authorizer)
            && self.source.same(&other.source)
            && self.decided_at.same(&other.decided_at)
            && self.frontier_tier.same(&other.frontier_tier)
            && self.frontier_reason_codes.same(&other.frontier_reason_codes)
            && self.frontier_budget_before.same(&other.frontier_budget_before)
            && self.frontier_budget_after.same(&other.frontier_budget_after)
            && self.applied.same(&other.applied)
            && self.applied_at.same(&other.applied_at)
            && self.apply_status.same(&other.apply_status)
            && self.apply_reason.same(&other.apply_reason)
            && self.generated_slice_id.same(&other.generated_slice_id)
            && self.generated_slice_generation.same(&other.generated_slice_generation)
            && self.generated_slice_commit.same(&other.generated_slice_commit)
            && self.apply_before_checkpoint_id.same(&other.apply_before_checkpoint_id)
            && self.apply_after_checkpoint_id.same(&other.apply_after_checkpoint_id)
            && self.queue_before.same(&other.queue_before)
            && self.queue_after.same(&other.queue_after)
            && self.queue_before_hash.same(&other.queue_before_hash)
            && self.queue_after_hash.same(&other.queue_after_hash)
            && self.replacement_id.same(&other.replacement_id)
            && self.revisit_condition.same(&other.revisit_condition)
    }
}

/// A proposal to change the plan of a run.
#[derive(Debug, Clone, PartialEq, Eq)]
pub struct ReplanProposal {
    pub id: String,
    pub run_id: String,
    pub state: ReplanProposalState,
    pub source: ReplanProposalSource,
    pub trigger_finding_ids: Vec<String>,
    pub evidence: Vec<ReplanEvidenceLink>,
    pub proposed_changes: Vec<ReplanProposedChange>,
    pub risk: String,
    pub operator_decision: Option<ReplanDecision>,
    pub frontier_classification: Option<FrontierClassification>,
    pub created_at: Timestamp,
    pub updated_at: Timestamp,
    pub decision_commands: Vec<String>,
}

#[verifier::ext_equal]
pub struct ReplanProposalModel {
    pub id: Seq<char>,
    pub run_id: Seq<char>,
    pub state: ReplanProposalState,
    pub source: ReplanProposalSourceModel,
    pub trigger_finding_ids: Seq<Seq<char>>,
    pub evidence: Seq<ReplanEvidenceLinkModel>,
    pub proposed_changes: Seq<ReplanProposedChangeModel>,
    pub risk: Seq<char>,
    pub operator_decision: Option<ReplanDecisionModel>,
    pub frontier_classification: Option<FrontierClassificationModel>,
    pub created_at: Timestamp,
    pub updated_at: Timestamp,
    pub decision_commands: Seq<Seq<char>>,
}

impl DeepView for ReplanProposal {
    type V = ReplanProposalModel;

    open spec fn deep_view(&self) -> ReplanProposalModel {
        ReplanProposalModel {
            id: self.id.deep_view(),
            run_id: self.run_id.deep_view(),
            state: self.state.deep_view(),
            source: self.source.deep_view(),
            trigger_finding_ids: self.trigger_finding_ids.deep_view(),
            evidence: self.evidence.deep_view(),
            proposed_changes: self.proposed_changes.deep_view(),
            risk: self.risk.deep_view(),
            operator_decision: self.operator_decision.deep_view(),
            frontier_classification: self.frontier_classification.deep_view(),
            created_at: self.created_at.deep_view(),
            updated_at: self.updated_at.deep_view(),
            decision_commands: self.decision_commands.deep_view(),
        }
    }
}

impl View for ReplanProposal {
    type V = ReplanProposalModel;

    open spec fn view(&self) -> ReplanProposalModel {
        self.deep_view()
    }
}

impl Row for ReplanProposal {
    fn dup(&self) -> (r: Self) {
        ReplanProposal {
            id: self.id.dup(),
            run_id: self.run_id.dup(),
            state: self.state.dup(),
            source: self.source.dup(),
            trigger_finding_ids: self.trigger_finding_ids.dup(),
            evidence: self.evidence.dup(),
            proposed_changes: self.proposed_changes.dup(),
            risk: self.risk.dup(),
            operator_decision: self.operator_decision.dup(),
            frontier_classification: self.frontier_classification.dup(),
            created_at: self.created_at.dup(),
            updated_at: self.updated_at.dup(),
            decision_commands: self.decision_commands.dup(),
        }
    }

    fn same(&self, other: &Self) -> (r: bool) {
        self.id.same(&other.id)
            && self.run_id.same(&other.run_id)
            && self.state.same(&other.state)
            && self.source.same(&other.source)
            && self.trigger_finding_ids.same(&other.trigger_finding_ids)
            && self.evidence.same(&other.evidence)
            && self.proposed_changes.same(&other.proposed_changes)
            && self.risk.same(&other.risk)
            && self.operator_decision.same(&other.operator_decision)
            && self.frontier_classification.same(&other.frontier_classification)
            && self.created_at.same(&other.created_at)
            && self.updated_at.same(&other.updated_at)
            && self.decision_commands.same(&other.decision_commands)
    }
}

/// The authority that a run was given, as the document that states it.
#[derive(Debug, Clone, PartialEq, Eq)]
pub struct MissionEnvelope {
    pub document: String,
}

#[verifier::ext_equal]
pub struct MissionEnvelopeModel {
    pub document: Seq<char>,
}

impl DeepView for MissionEnvelope {
    type V = MissionEnvelopeModel;

    open spec fn deep_view(&self) -> MissionEnvelopeModel {
        MissionEnvelopeModel {
            document: self.document.deep_view(),
        }
    }
}

impl View for MissionEnvelope {
    type V = MissionEnvelopeModel;

    open spec fn view(&self) -> MissionEnvelopeModel {
        self.deep_view()
    }
}

impl Row for MissionEnvelope {
    fn dup(&self) -> (r: Self) {
        MissionEnvelope {
            document: self.document.dup(),
        }
    }

    fn same(&self, other: &Self) -> (r: bool) {
        self.document.same(&other.document)
    }
}

/// The recorded intent to end a run.
#[derive(Debug, Clone, PartialEq, Eq)]
pub struct TerminalTransition {
    pub status: RunStatus,
    pub error: String,
    pub progress_message: String,
    pub question_interruption_reason: String,
    pub summary_written: bool,
    pub committed: bool,
}

#[verifier::ext_equal]
pub struct TerminalTransitionModel {
    pub status: RunStatus,
    pub error: Seq<char>,
    pub progress_message: Seq<char>,
    pub question_interruption_reason: Seq<char>,
    pub summary_written: bool,
    pub committed: bool,
}

impl DeepView for TerminalTransition {
    type V = TerminalTransitionModel;

    open spec fn deep_view(&self) -> TerminalTransitionModel {
        TerminalTransitionModel {
            status: self.status.deep_view(),
            error: self.error.deep_view(),
            progress_message: self.progress_message.deep_view(),
            question_interruption_reason: self.question_interruption_reason.deep_view(),
            summary_written: self.summary_written.deep_view(),
            committed: self.committed.deep_view(),
        }
    }
}

impl View for TerminalTransition {
    type V = TerminalTransitionModel;

    open spec fn view(&self) -> TerminalTransitionModel {
        self.deep_view()
    }
}

impl Row for TerminalTransition {
    fn dup(&self) -> (r: Self) {
        TerminalTransition {
            status: self.status.dup(),
            error: self.error.dup(),
            progress_message: self.progress_message.dup(),
            question_interruption_reason: self.question_interruption_reason.dup(),
            summary_written: self.summary_written.dup(),
            committed: self.committed.dup(),
        }
    }

    fn same(&self, other: &Self) -> (r: bool) {
        self.status.same(&other.status)
            && self.error.same(&other.error)
            && self.progress_message.same(&other.progress_message)
            && self.question_interruption_reason.same(&other.question_interruption_reason)
            && self.summary_written.same(&other.summary_written)
            && self.committed.same(&other.committed)
    }
}

} // verus!
