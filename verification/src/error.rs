//! Why the store refuses a request.
use vstd::prelude::*;

verus! {

#[derive(Debug, Clone, Copy, PartialEq, Eq, Structural)]
pub enum StoreError {
    AdmissionRequiresPending,
    ActiveRunExists,
    RunExists,
    RunNotFound,
    LaunchExists,
    LaunchNotFound,
    EventLogFull,
    CounterExhausted,
    IncompleteTerminalization,
    UnexpectedLaunchState,
    RunNotPending,
    ResumeOwnsNoResources,
    PriorStatusLost,
    RepoPathTaken,
    AllocationIncomplete,
    RunNotRunning,
    InvalidAttemptState,
    AttemptNotFound,
    AttemptNotAllocated,
    IllegalAttemptTransition,
    StaleSliceAttempt,
    InvalidLaunchToken,
    LaunchTokenRefused,
    ProgressMissing,
    QuestionFromInactiveAttempt,
    PendingQuestionExists,
    QuestionExists,
    QuestionNotFound,
    NoEligibleRecommendation,
    AnswerNotRecommended,
    NoFallbackDeadline,
    BeforeDeadline,
    MergeNotFresh,
    MergeIdentityConflict,
    AnotherMergePrepared,
    MergeNotFound,
    MergeAppliedElsewhere,
    UnexpectedMergeState,
    InconsistentLaunch,
    ResolutionNotTerminal,
    AdmissionLost,
    StatusNotTerminal,
    TerminalIntentConflict,
    RunAlreadyTerminal,
    TerminalIntentMissing,
    SummaryMarkerMissing,
    SummaryNotWritten,
    InconsistentTerminalState,
    TerminalNotCommitted,
    CleanupNotReady,
    CleanupNotClaimed,
    ResumeNotAdmitted,
    ProposalSourceRequired,
    ProposalChangesRequired,
    ProposalExists,
    ProposalNotFound,
    ProposalUndecided,
    DecisionLeavesPending,
    RationaleRequired,
    RevisitConditionRequired,
    ReplacementRequired,
    AutoAcceptTier,
    AutoAcceptEvidence,
    AutoAcceptBudget,
    AutoAcceptChange,
    DecisionConflict,
    DecisionStale,
    StatusSourceChecksum,
    StatusSourcePayload,
    CorruptTables,
}

impl StoreError {
    pub open spec fn text(self) -> Seq<char> {
        match self {
            StoreError::AdmissionRequiresPending => "new run admission requires pending status"@,
            StoreError::ActiveRunExists => "the repository already has an active run"@,
            StoreError::RunExists => "the run already exists"@,
            StoreError::RunNotFound => "run not found"@,
            StoreError::LaunchExists => "the run launch intent already exists"@,
            StoreError::LaunchNotFound => "run launch intent not found"@,
            StoreError::EventLogFull => "the event log has no room left"@,
            StoreError::CounterExhausted => "a counter has reached its limit"@,
            StoreError::IncompleteTerminalization => "the run has an incomplete terminalization; reconcile it before resuming"@,
            StoreError::UnexpectedLaunchState => "the run launch intent is in another state than expected"@,
            StoreError::RunNotPending => "the run is no longer pending for launch activation"@,
            StoreError::ResumeOwnsNoResources => "resume launch intent cannot own pre-existing integration resources"@,
            StoreError::PriorStatusLost => "resume launch intent lost prior status"@,
            StoreError::RepoPathTaken => "another repository is registered at this path"@,
            StoreError::AllocationIncomplete => "worker-attempt allocation requires a nonzero execution epoch, a kind, and a nonzero slice retry ordinal"@,
            StoreError::RunNotRunning => "the run is not running"@,
            StoreError::InvalidAttemptState => "worker attempt terminal state must be succeeded, failed, or interrupted"@,
            StoreError::AttemptNotFound => "cannot finish missing worker attempt"@,
            StoreError::AttemptNotAllocated => "cannot mark non-allocated worker attempt launched"@,
            StoreError::IllegalAttemptTransition => "cannot finish worker attempt from its state"@,
            StoreError::StaleSliceAttempt => "cannot activate stale or non-running worker attempt"@,
            StoreError::InvalidLaunchToken => "worker launch token requires a positive launch id and non-empty token"@,
            StoreError::LaunchTokenRefused => "cannot bind worker token to missing, launched, or already-authorized launch"@,
            StoreError::ProgressMissing => "the run has no progress"@,
            StoreError::QuestionFromInactiveAttempt => "worker question rejected for stale or inactive launch"@,
            StoreError::PendingQuestionExists => "the worker attempt already has a pending question"@,
            StoreError::QuestionExists => "the question already exists"@,
            StoreError::QuestionNotFound => "question not found"@,
            StoreError::NoEligibleRecommendation => "the question does not have an eligible durable recommendation"@,
            StoreError::AnswerNotRecommended => "timeout fallback must apply the exact durable recommendation"@,
            StoreError::NoFallbackDeadline => "the question has no fallback deadline"@,
            StoreError::BeforeDeadline => "fallback cannot commit before its absolute deadline"@,
            StoreError::MergeNotFresh => "new integration merge intent must be prepared without a result head"@,
            StoreError::MergeIdentityConflict => "integration merge operation conflicts with its durable command identity"@,
            StoreError::AnotherMergePrepared => "another integration merge of the run is prepared"@,
            StoreError::MergeNotFound => "integration merge intent not found"@,
            StoreError::MergeAppliedElsewhere => "integration merge was already applied at another head"@,
            StoreError::UnexpectedMergeState => "the integration merge is in a state that does not allow this"@,
            StoreError::InconsistentLaunch => "integration merge completion names another launch than its intent"@,
            StoreError::ResolutionNotTerminal => "integration merge resolution requires a non-applied terminal state"@,
            StoreError::AdmissionLost => "resume admission lost its launch intent"@,
            StoreError::StatusNotTerminal => "terminal run transition requires a terminal status"@,
            StoreError::TerminalIntentConflict => "the run already has another durable terminal intent"@,
            StoreError::RunAlreadyTerminal => "the run is already terminal"@,
            StoreError::TerminalIntentMissing => "the run has no durable terminal intent"@,
            StoreError::SummaryMarkerMissing => "the run has committed terminal state without a durable terminal summary marker"@,
            StoreError::SummaryNotWritten => "the run cannot publish terminal state before its terminal summary is durable"@,
            StoreError::InconsistentTerminalState => "the run has a committed terminal intent but an inconsistent public state"@,
            StoreError::TerminalNotCommitted => "the run cannot record terminal notification bookkeeping before terminal state commit"@,
            StoreError::CleanupNotReady => "the run cannot clean worktrees before terminal state and notification bookkeeping"@,
            StoreError::CleanupNotClaimed => "the run has no durable cleanup claim"@,
            StoreError::ResumeNotAdmitted => "the run could not acquire resume admission"@,
            StoreError::ProposalSourceRequired => "replan proposal source kind is required"@,
            StoreError::ProposalChangesRequired => "replan proposal requires at least one proposed change"@,
            StoreError::ProposalExists => "the replan proposal already exists"@,
            StoreError::ProposalNotFound => "replan proposal not found"@,
            StoreError::ProposalUndecided => "the replan proposal has no decision"@,
            StoreError::DecisionLeavesPending => "replan decision cannot leave proposal pending"@,
            StoreError::RationaleRequired => "replan decision rationale is required"@,
            StoreError::RevisitConditionRequired => "replan defer requires --until <condition>"@,
            StoreError::ReplacementRequired => "replan supersede requires a replacement proposal id"@,
            StoreError::AutoAcceptTier => "frontier auto-accept requires a Tier-1 classification"@,
            StoreError::AutoAcceptEvidence => "frontier auto-accept requires add_followup_slice_only evidence"@,
            StoreError::AutoAcceptBudget => "frontier auto-accept must consume exactly one promotion and one generated-slice budget unit"@,
            StoreError::AutoAcceptChange => "frontier auto-accept is only valid for one typed add_followup_slice proposal"@,
            StoreError::DecisionConflict => "replan decision returned conflict"@,
            StoreError::DecisionStale => "replan decision returned stale_token"@,
            StoreError::StatusSourceChecksum => "status source checksum mismatch"@,
            StoreError::StatusSourcePayload => "status source payload is not JSON"@,
            StoreError::CorruptTables => "the tables cannot belong to a store"@,
        }
    }

    /// What is wrong, in words.
    pub fn describe(self) -> (r: &'static str)
        ensures
            r@ == self.text(),
    {
        match self {
            StoreError::AdmissionRequiresPending => "new run admission requires pending status",
            StoreError::ActiveRunExists => "the repository already has an active run",
            StoreError::RunExists => "the run already exists",
            StoreError::RunNotFound => "run not found",
            StoreError::LaunchExists => "the run launch intent already exists",
            StoreError::LaunchNotFound => "run launch intent not found",
            StoreError::EventLogFull => "the event log has no room left",
            StoreError::CounterExhausted => "a counter has reached its limit",
            StoreError::IncompleteTerminalization => "the run has an incomplete terminalization; reconcile it before resuming",
            StoreError::UnexpectedLaunchState => "the run launch intent is in another state than expected",
            StoreError::RunNotPending => "the run is no longer pending for launch activation",
            StoreError::ResumeOwnsNoResources => "resume launch intent cannot own pre-existing integration resources",
            StoreError::PriorStatusLost => "resume launch intent lost prior status",
            StoreError::RepoPathTaken => "another repository is registered at this path",
            StoreError::AllocationIncomplete => "worker-attempt allocation requires a nonzero execution epoch, a kind, and a nonzero slice retry ordinal",
            StoreError::RunNotRunning => "the run is not running",
            StoreError::InvalidAttemptState => "worker attempt terminal state must be succeeded, failed, or interrupted",
            StoreError::AttemptNotFound => "cannot finish missing worker attempt",
            StoreError::AttemptNotAllocated => "cannot mark non-allocated worker attempt launched",
            StoreError::IllegalAttemptTransition => "cannot finish worker attempt from its state",
            StoreError::StaleSliceAttempt => "cannot activate stale or non-running worker attempt",
            StoreError::InvalidLaunchToken => "worker launch token requires a positive launch id and non-empty token",
            StoreError::LaunchTokenRefused => "cannot bind worker token to missing, launched, or already-authorized launch",
            StoreError::ProgressMissing => "the run has no progress",
            StoreError::QuestionFromInactiveAttempt => "worker question rejected for stale or inactive launch",
            StoreError::PendingQuestionExists => "the worker attempt already has a pending question",
            StoreError::QuestionExists => "the question already exists",
            StoreError::QuestionNotFound => "question not found",
            StoreError::NoEligibleRecommendation => "the question does not have an eligible durable recommendation",
            StoreError::AnswerNotRecommended => "timeout fallback must apply the exact durable recommendation",
            StoreError::NoFallbackDeadline => "the question has no fallback deadline",
            StoreError::BeforeDeadline => "fallback cannot commit before its absolute deadline",
            StoreError::MergeNotFresh => "new integration merge intent must be prepared without a result head",
            StoreError::MergeIdentityConflict => "integration merge operation conflicts with its durable command identity",
            StoreError::AnotherMergePrepared => "another integration merge of the run is prepared",
            StoreError::MergeNotFound => "integration merge intent not found",
            StoreError::MergeAppliedElsewhere => "integration merge was already applied at another head",
            StoreError::UnexpectedMergeState => "the integration merge is in a state that does not allow this",
            StoreError::InconsistentLaunch => "integration merge completion names another launch than its intent",
            StoreError::ResolutionNotTerminal => "integration merge resolution requires a non-applied terminal state",
            StoreError::AdmissionLost => "resume admission lost its launch intent",
            StoreError::StatusNotTerminal => "terminal run transition requires a terminal status",
            StoreError::TerminalIntentConflict => "the run already has another durable terminal intent",
            StoreError::RunAlreadyTerminal => "the run is already terminal",
            StoreError::TerminalIntentMissing => "the run has no durable terminal intent",
            StoreError::SummaryMarkerMissing => "the run has committed terminal state without a durable terminal summary marker",
            StoreError::SummaryNotWritten => "the run cannot publish terminal state before its terminal summary is durable",
            StoreError::InconsistentTerminalState => "the run has a committed terminal intent but an inconsistent public state",
            StoreError::TerminalNotCommitted => "the run cannot record terminal notification bookkeeping before terminal state commit",
            StoreError::CleanupNotReady => "the run cannot clean worktrees before terminal state and notification bookkeeping",
            StoreError::CleanupNotClaimed => "the run has no durable cleanup claim",
            StoreError::ResumeNotAdmitted => "the run could not acquire resume admission",
            StoreError::ProposalSourceRequired => "replan proposal source kind is required",
            StoreError::ProposalChangesRequired => "replan proposal requires at least one proposed change",
            StoreError::ProposalExists => "the replan proposal already exists",
            StoreError::ProposalNotFound => "replan proposal not found",
            StoreError::ProposalUndecided => "the replan proposal has no decision",
            StoreError::DecisionLeavesPending => "replan decision cannot leave proposal pending",
            StoreError::RationaleRequired => "replan decision rationale is required",
            StoreError::RevisitConditionRequired => "replan defer requires --until <condition>",
            StoreError::ReplacementRequired => "replan supersede requires a replacement proposal id",
            StoreError::AutoAcceptTier => "frontier auto-accept requires a Tier-1 classification",
            StoreError::AutoAcceptEvidence => "frontier auto-accept requires add_followup_slice_only evidence",
            StoreError::AutoAcceptBudget => "frontier auto-accept must consume exactly one promotion and one generated-slice budget unit",
            StoreError::AutoAcceptChange => "frontier auto-accept is only valid for one typed add_followup_slice proposal",
            StoreError::DecisionConflict => "replan decision returned conflict",
            StoreError::DecisionStale => "replan decision returned stale_token",
            StoreError::StatusSourceChecksum => "status source checksum mismatch",
            StoreError::StatusSourcePayload => "status source payload is not JSON",
            StoreError::CorruptTables => "the tables cannot belong to a store",
        }
    }
}

} // verus!
