//! What a run costs: the time of its phases, the calls of agents, and the commands that were executed
//! or spared.
use crate::table::{
    any, count, find_row, first, lemma_first_any, lemma_first_map, lemma_first_push, unique,
    upsert, upsert_row, Row,
};
use crate::text::same_text;
use vstd::prelude::*;

verus! {

/// How long a phase took.
#[derive(Debug, Clone, PartialEq, Eq)]
pub struct PhaseDuration {
    pub phase: String,
    pub duration_ms: u128,
}

#[verifier::ext_equal]
pub struct PhaseDurationModel {
    pub phase: Seq<char>,
    pub duration_ms: u128,
}

impl DeepView for PhaseDuration {
    type V = PhaseDurationModel;

    open spec fn deep_view(&self) -> PhaseDurationModel {
        PhaseDurationModel {
            phase: self.phase.deep_view(),
            duration_ms: self.duration_ms.deep_view(),
        }
    }
}

impl View for PhaseDuration {
    type V = PhaseDurationModel;

    open spec fn view(&self) -> PhaseDurationModel {
        self.deep_view()
    }
}

impl Row for PhaseDuration {
    fn dup(&self) -> (r: Self) {
        PhaseDuration {
            phase: self.phase.dup(),
            duration_ms: self.duration_ms.dup(),
        }
    }

    fn same(&self, other: &Self) -> (r: bool) {
        self.phase.same(&other.phase)
            && self.duration_ms.same(&other.duration_ms)
    }
}

/// What a call of an agent cost.
#[derive(Debug, Clone, PartialEq, Eq)]
pub struct AgentCallEconomics {
    pub phase: String,
    pub slice_id: String,
    pub attempt: usize,
    pub kind: String,
    pub runner: String,
    pub agent_profile: String,
    pub agent_provider: String,
    pub agent_model: String,
    pub agent_reasoning: String,
    pub agent_mode: String,
    pub profile_summary: String,
    pub launch_summary: String,
    pub status: String,
    pub duration_ms: u128,
    pub operator_pause_ms: u128,
    pub error: String,
    pub input_tokens: u64,
    pub output_tokens: u64,
}

#[verifier::ext_equal]
pub struct AgentCallEconomicsModel {
    pub phase: Seq<char>,
    pub slice_id: Seq<char>,
    pub attempt: usize,
    pub kind: Seq<char>,
    pub runner: Seq<char>,
    pub agent_profile: Seq<char>,
    pub agent_provider: Seq<char>,
    pub agent_model: Seq<char>,
    pub agent_reasoning: Seq<char>,
    pub agent_mode: Seq<char>,
    pub profile_summary: Seq<char>,
    pub launch_summary: Seq<char>,
    pub status: Seq<char>,
    pub duration_ms: u128,
    pub operator_pause_ms: u128,
    pub error: Seq<char>,
    pub input_tokens: u64,
    pub output_tokens: u64,
}

impl DeepView for AgentCallEconomics {
    type V = AgentCallEconomicsModel;

    open spec fn deep_view(&self) -> AgentCallEconomicsModel {
        AgentCallEconomicsModel {
            phase: self.phase.deep_view(),
            slice_id: self.slice_id.deep_view(),
            attempt: self.attempt.deep_view(),
            kind: self.kind.deep_view(),
            runner: self.runner.deep_view(),
            agent_profile: self.agent_profile.deep_view(),
            agent_provider: self.agent_provider.deep_view(),
            agent_model: self.agent_model.deep_view(),
            agent_reasoning: self.agent_reasoning.deep_view(),
            agent_mode: self.agent_mode.deep_view(),
            profile_summary: self.profile_summary.deep_view(),
            launch_summary: self.launch_summary.deep_view(),
            status: self.status.deep_view(),
            duration_ms: self.duration_ms.deep_view(),
            operator_pause_ms: self.operator_pause_ms.deep_view(),
            error: self.error.deep_view(),
            input_tokens: self.input_tokens.deep_view(),
            output_tokens: self.output_tokens.deep_view(),
        }
    }
}

impl View for AgentCallEconomics {
    type V = AgentCallEconomicsModel;

    open spec fn view(&self) -> AgentCallEconomicsModel {
        self.deep_view()
    }
}

impl Row for AgentCallEconomics {
    fn dup(&self) -> (r: Self) {
        AgentCallEconomics {
            phase: self.phase.dup(),
            slice_id: self.slice_id.dup(),
            attempt: self.attempt.dup(),
            kind: self.kind.dup(),
            runner: self.runner.dup(),
            agent_profile: self.agent_profile.dup(),
            agent_provider: self.agent_provider.dup(),
            agent_model: self.agent_model.dup(),
            agent_reasoning: self.agent_reasoning.dup(),
            agent_mode: self.agent_mode.dup(),
            profile_summary: self.profile_summary.dup(),
            launch_summary: self.launch_summary.dup(),
            status: self.status.dup(),
            duration_ms: self.duration_ms.dup(),
            operator_pause_ms: self.operator_pause_ms.dup(),
            error: self.error.dup(),
            input_tokens: self.input_tokens.dup(),
            output_tokens: self.output_tokens.dup(),
        }
    }

    fn same(&self, other: &Self) -> (r: bool) {
        self.phase.same(&other.phase)
            && self.slice_id.same(&other.slice_id)
            && self.attempt.same(&other.attempt)
            && self.kind.same(&other.kind)
            && self.runner.same(&other.runner)
            && self.agent_profile.same(&other.agent_profile)
            && self.agent_provider.same(&other.agent_provider)
            && self.agent_model.same(&other.agent_model)
            && self.agent_reasoning.same(&other.agent_reasoning)
            && self.agent_mode.same(&other.agent_mode)
            && self.profile_summary.same(&other.profile_summary)
            && self.launch_summary.same(&other.launch_summary)
            && self.status.same(&other.status)
            && self.duration_ms.same(&other.duration_ms)
            && self.operator_pause_ms.same(&other.operator_pause_ms)
            && self.error.same(&other.error)
            && self.input_tokens.same(&other.input_tokens)
            && self.output_tokens.same(&other.output_tokens)
    }
}

/// What is known of the runner of an agent.
#[derive(Debug, Clone, PartialEq, Eq)]
pub struct RunnerMetadata {
    pub profile: String,
    pub provider: String,
    pub model: String,
    pub reasoning: String,
    pub mode: String,
    pub profile_summary: String,
    pub launch_summary: String,
}

#[verifier::ext_equal]
pub struct RunnerMetadataModel {
    pub profile: Seq<char>,
    pub provider: Seq<char>,
    pub model: Seq<char>,
    pub reasoning: Seq<char>,
    pub mode: Seq<char>,
    pub profile_summary: Seq<char>,
    pub launch_summary: Seq<char>,
}

impl DeepView for RunnerMetadata {
    type V = RunnerMetadataModel;

    open spec fn deep_view(&self) -> RunnerMetadataModel {
        RunnerMetadataModel {
            profile: self.profile.deep_view(),
            provider: self.provider.deep_view(),
            model: self.model.deep_view(),
            reasoning: self.reasoning.deep_view(),
            mode: self.mode.deep_view(),
            profile_summary: self.profile_summary.deep_view(),
            launch_summary: self.launch_summary.deep_view(),
        }
    }
}

impl View for RunnerMetadata {
    type V = RunnerMetadataModel;

    open spec fn view(&self) -> RunnerMetadataModel {
        self.deep_view()
    }
}

impl Row for RunnerMetadata {
    fn dup(&self) -> (r: Self) {
        RunnerMetadata {
            profile: self.profile.dup(),
            provider: self.provider.dup(),
            model: self.model.dup(),
            reasoning: self.reasoning.dup(),
            mode: self.mode.dup(),
            profile_summary: self.profile_summary.dup(),
            launch_summary: self.launch_summary.dup(),
        }
    }

    fn same(&self, other: &Self) -> (r: bool) {
        self.profile.same(&other.profile)
            && self.provider.same(&other.provider)
            && self.model.same(&other.model)
            && self.reasoning.same(&other.reasoning)
            && self.mode.same(&other.mode)
            && self.profile_summary.same(&other.profile_summary)
            && self.launch_summary.same(&other.launch_summary)
    }
}

impl Default for RunnerMetadata {
    fn default() -> (r: Self)
        ensures
            r@ == RunnerMetadataModel::empty(),
    {
        let r = RunnerMetadata {
            profile: String::new(),
            provider: String::new(),
            model: String::new(),
            reasoning: String::new(),
            mode: String::new(),
            profile_summary: String::new(),
            launch_summary: String::new(),
        };
        assert(r@ =~= RunnerMetadataModel::empty());
        r
    }
}

impl RunnerMetadataModel {
    /// All texts and lists empty, all numbers zero, all flags off.
    pub open spec fn empty() -> RunnerMetadataModel {
        RunnerMetadataModel {
            profile: Seq::<char>::empty(),
            provider: Seq::<char>::empty(),
            model: Seq::<char>::empty(),
            reasoning: Seq::<char>::empty(),
            mode: Seq::<char>::empty(),
            profile_summary: Seq::<char>::empty(),
            launch_summary: Seq::<char>::empty(),
        }
    }
}

/// What a call of an agent used up.
#[derive(Debug, Clone, PartialEq, Eq)]
pub struct Usage {
    pub input_tokens: u64,
    pub output_tokens: u64,
}

#[verifier::ext_equal]
pub struct UsageModel {
    pub input_tokens: u64,
    pub output_tokens: u64,
}

impl DeepView for Usage {
    type V = UsageModel;

    open spec fn deep_view(&self) -> UsageModel {
        UsageModel {
            input_tokens: self.input_tokens.deep_view(),
            output_tokens: self.output_tokens.deep_view(),
        }
    }
}

impl View for Usage {
    type V = UsageModel;

    open spec fn view(&self) -> UsageModel {
        self.deep_view()
    }
}

impl Row for Usage {
    fn dup(&self) -> (r: Self) {
        Usage {
            input_tokens: self.input_tokens.dup(),
            output_tokens: self.output_tokens.dup(),
        }
    }

    fn same(&self, other: &Self) -> (r: bool) {
        self.input_tokens.same(&other.input_tokens)
            && self.output_tokens.same(&other.output_tokens)
    }
}

impl Default for Usage {
    fn default() -> (r: Self)
        ensures
            r@ == UsageModel::empty(),
    {
        let r = Usage {
            input_tokens: 0,
            output_tokens: 0,
        };
        assert(r@ =~= UsageModel::empty());
        r
    }
}

impl UsageModel {
    /// All texts and lists empty, all numbers zero, all flags off.
    pub open spec fn empty() -> UsageModel {
        UsageModel {
            input_tokens: 0,
            output_tokens: 0,
        }
    }
}

/// A command that was executed, spared or skipped.
#[derive(Debug, Clone, PartialEq, Eq)]
pub struct CommandExecutionEconomics {
    pub command: String,
    pub status: String,
    pub dedupe_key: String,
    pub cache_key: String,
    pub cache_hit: bool,
}

#[verifier::ext_equal]
pub struct CommandExecutionEconomicsModel {
    pub command: Seq<char>,
    pub status: Seq<char>,
    pub dedupe_key: Seq<char>,
    pub cache_key: Seq<char>,
    pub cache_hit: bool,
}

impl DeepView for CommandExecutionEconomics {
    type V = CommandExecutionEconomicsModel;

    open spec fn deep_view(&self) -> CommandExecutionEconomicsModel {
        CommandExecutionEconomicsModel {
            command: self.command.deep_view(),
            status: self.status.deep_view(),
            dedupe_key: self.dedupe_key.deep_view(),
            cache_key: self.cache_key.deep_view(),
            cache_hit: self.cache_hit.deep_view(),
        }
    }
}

impl View for CommandExecutionEconomics {
    type V = CommandExecutionEconomicsModel;

    open spec fn view(&self) -> CommandExecutionEconomicsModel {
        self.deep_view()
    }
}

impl Row for CommandExecutionEconomics {
    fn dup(&self) -> (r: Self) {
        CommandExecutionEconomics {
            command: self.command.dup(),
            status: self.status.dup(),
            dedupe_key: self.dedupe_key.dup(),
            cache_key: self.cache_key.dup(),
            cache_hit: self.cache_hit.dup(),
        }
    }

    fn same(&self, other: &Self) -> (r: bool) {
        self.command.same(&other.command)
            && self.status.same(&other.status)
            && self.dedupe_key.same(&other.dedupe_key)
            && self.cache_key.same(&other.cache_key)
            && self.cache_hit.same(&other.cache_hit)
    }
}

impl Default for CommandExecutionEconomics {
    fn default() -> (r: Self)
        ensures
            r@ == CommandExecutionEconomicsModel::empty(),
    {
        let r = CommandExecutionEconomics {
            command: String::new(),
            status: String::new(),
            dedupe_key: String::new(),
            cache_key: String::new(),
            cache_hit: false,
        };
        assert(r@ =~= CommandExecutionEconomicsModel::empty());
        r
    }
}

impl CommandExecutionEconomicsModel {
    /// All texts and lists empty, all numbers zero, all flags off.
    pub open spec fn empty() -> CommandExecutionEconomicsModel {
        CommandExecutionEconomicsModel {
            command: Seq::<char>::empty(),
            status: Seq::<char>::empty(),
            dedupe_key: Seq::<char>::empty(),
            cache_key: Seq::<char>::empty(),
            cache_hit: false,
        }
    }
}

/// A command that was executed more than once on the same input.
#[derive(Debug, Clone, PartialEq, Eq)]
pub struct DuplicateCommandEconomics {
    pub dedupe_key: String,
    pub command: String,
    pub executions: usize,
}

#[verifier::ext_equal]
pub struct DuplicateCommandEconomicsModel {
    pub dedupe_key: Seq<char>,
    pub command: Seq<char>,
    pub executions: usize,
}

impl DeepView for DuplicateCommandEconomics {
    type V = DuplicateCommandEconomicsModel;

    open spec fn deep_view(&self) -> DuplicateCommandEconomicsModel {
        DuplicateCommandEconomicsModel {
            dedupe_key: self.dedupe_key.deep_view(),
            command: self.command.deep_view(),
            executions: self.executions.deep_view(),
        }
    }
}

impl View for DuplicateCommandEconomics {
    type V = DuplicateCommandEconomicsModel;

    open spec fn view(&self) -> DuplicateCommandEconomicsModel {
        self.deep_view()
    }
}

impl Row for DuplicateCommandEconomics {
    fn dup(&self) -> (r: Self) {
        DuplicateCommandEconomics {
            dedupe_key: self.dedupe_key.dup(),
            command: self.command.dup(),
            executions: self.executions.dup(),
        }
    }

    fn same(&self, other: &Self) -> (r: bool) {
        self.dedupe_key.same(&other.dedupe_key)
            && self.command.same(&other.command)
            && self.executions.same(&other.executions)
    }
}

/// What a run has cost so far.
#[derive(Debug, Clone, PartialEq, Eq)]
pub struct RunEconomics {
    pub repair_policy: String,
    pub gate_fail_fast: bool,
    pub worker_max_attempts: usize,
    pub repair_max_attempts: usize,
    pub repair_attempts: usize,
    pub phase_durations: Vec<PhaseDuration>,
    pub agent_calls: Vec<AgentCallEconomics>,
    pub agent_call_count: usize,
    pub command_executions: Vec<CommandExecutionEconomics>,
    pub command_execution_count: usize,
    pub cache_hits: usize,
    pub cache_misses: usize,
    pub duplicate_commands: Vec<DuplicateCommandEconomics>,
    pub duplicate_command_count: usize,
    pub sla_violations: Vec<String>,
    pub worker_observation_event_count: usize,
    pub worker_observation_bytes: usize,
    pub worker_observation_state_write_count: usize,
    pub supervisor_poll_count: usize,
    pub economics_checkpoint_count: usize,
}

#[verifier::ext_equal]
pub struct RunEconomicsModel {
    pub repair_policy: Seq<char>,
    pub gate_fail_fast: bool,
    pub worker_max_attempts: usize,
    pub repair_max_attempts: usize,
    pub repair_attempts: usize,
    pub phase_durations: Seq<PhaseDurationModel>,
    pub agent_calls: Seq<AgentCallEconomicsModel>,
    pub agent_call_count: usize,
    pub command_executions: Seq<CommandExecutionEconomicsModel>,
    pub command_execution_count: usize,
    pub cache_hits: usize,
    pub cache_misses: usize,
    pub duplicate_commands: Seq<DuplicateCommandEconomicsModel>,
    pub duplicate_command_count: usize,
    pub sla_violations: Seq<Seq<char>>,
    pub worker_observation_event_count: usize,
    pub worker_observation_bytes: usize,
    pub worker_observation_state_write_count: usize,
    pub supervisor_poll_count: usize,
    pub economics_checkpoint_count: usize,
}

impl DeepView for RunEconomics {
    type V = RunEconomicsModel;

    open spec fn deep_view(&self) -> RunEconomicsModel {
        RunEconomicsModel {
            repair_policy: self.repair_policy.deep_view(),
            gate_fail_fast: self.gate_fail_fast.deep_view(),
            worker_max_attempts: self.worker_max_attempts.deep_view(),
            repair_max_attempts: self.repair_max_attempts.deep_view(),
            repair_attempts: self.repair_attempts.deep_view(),
            phase_durations: self.phase_durations.deep_view(),
            agent_calls: self.agent_calls.deep_view(),
            agent_call_count: self.agent_call_count.deep_view(),
            command_executions: self.command_executions.deep_view(),
            command_execution_count: self.command_execution_count.deep_view(),
            cache_hits: self.cache_hits.deep_view(),
            cache_misses: self.cache_misses.deep_view(),
            duplicate_commands: self.duplicate_commands.deep_view(),
            duplicate_command_count: self.duplicate_command_count.deep_view(),
            sla_violations: self.sla_violations.deep_view(),
            worker_observation_event_count: self.worker_observation_event_count.deep_view(),
            worker_observation_bytes: self.worker_observation_bytes.deep_view(),
            worker_observation_state_write_count: self.worker_observation_state_write_count.deep_view(),
            supervisor_poll_count: self.supervisor_poll_count.deep_view(),
            economics_checkpoint_count: self.economics_checkpoint_count.deep_view(),
        }
    }
}

impl View for RunEconomics {
    type V = RunEconomicsModel;

    open spec fn view(&self) -> RunEconomicsModel {
        self.deep_view()
    }
}

impl Row for RunEconomics {
    fn dup(&self) -> (r: Self) {
        RunEconomics {
            repair_policy: self.repair_policy.dup(),
            gate_fail_fast: self.gate_fail_fast.dup(),
            worker_max_attempts: self.worker_max_attempts.dup(),
            repair_max_attempts: self.repair_max_attempts.dup(),
            repair_attempts: self.repair_attempts.dup(),
            phase_durations: self.phase_durations.dup(),
            agent_calls: self.agent_calls.dup(),
            agent_call_count: self.agent_call_count.dup(),
            command_executions: self.command_executions.dup(),
            command_execution_count: self.command_execution_count.dup(),
            cache_hits: self.cache_hits.dup(),
            cache_misses: self.cache_misses.dup(),
            duplicate_commands: self.duplicate_commands.dup(),
            duplicate_command_count: self.duplicate_command_count.dup(),
            sla_violations: self.sla_violations.dup(),
            worker_observation_event_count: self.worker_observation_event_count.dup(),
            worker_observation_bytes: self.worker_observation_bytes.dup(),
            worker_observation_state_write_count: self.worker_observation_state_write_count.dup(),
            supervisor_poll_count: self.supervisor_poll_count.dup(),
            economics_checkpoint_count: self.economics_checkpoint_count.dup(),
        }
    }

    fn same(&self, other: &Self) -> (r: bool) {
        self.repair_policy.same(&other.repair_policy)
            && self.gate_fail_fast.same(&other.gate_fail_fast)
            && self.worker_max_attempts.same(&other.worker_max_attempts)
            && self.repair_max_attempts.same(&other.repair_max_attempts)
            && self.repair_attempts.same(&other.repair_attempts)
            && self.phase_durations.same(&other.phase_durations)
            && self.agent_calls.same(&other.agent_calls)
            && self.agent_call_count.same(&other.agent_call_count)
            && self.command_executions.same(&other.command_executions)
            && self.command_execution_count.same(&other.command_execution_count)
            && self.cache_hits.same(&other.cache_hits)
            && self.cache_misses.same(&other.cache_misses)
            && self.duplicate_commands.same(&other.duplicate_commands)
            && self.duplicate_command_count.same(&other.duplicate_command_count)
            && self.sla_violations.same(&other.sla_violations)
            && self.worker_observation_event_count.same(&other.worker_observation_event_count)
            && self.worker_observation_bytes.same(&other.worker_observation_bytes)
            && self.worker_observation_state_write_count.same(&other.worker_observation_state_write_count)
            && self.supervisor_poll_count.same(&other.supervisor_poll_count)
            && self.economics_checkpoint_count.same(&other.economics_checkpoint_count)
    }
}

impl Default for RunEconomics {
    fn default() -> (r: Self)
        ensures
            r@ == RunEconomicsModel::empty(),
    {
        let r = RunEconomics {
            repair_policy: String::new(),
            gate_fail_fast: false,
            worker_max_attempts: 0,
            repair_max_attempts: 0,
            repair_attempts: 0,
            phase_durations: Vec::new(),
            agent_calls: Vec::new(),
            agent_call_count: 0,
            command_executions: Vec::new(),
            command_execution_count: 0,
            cache_hits: 0,
            cache_misses: 0,
            duplicate_commands: Vec::new(),
            duplicate_command_count: 0,
            sla_violations: Vec::new(),
            worker_observation_event_count: 0,
            worker_observation_bytes: 0,
            worker_observation_state_write_count: 0,
            supervisor_poll_count: 0,
            economics_checkpoint_count: 0,
        };
        assert(r@ =~= RunEconomicsModel::empty());
        r
    }
}

impl RunEconomicsModel {
    /// All texts and lists empty, all numbers zero, all flags off.
    pub open spec fn empty() -> RunEconomicsModel {
        RunEconomicsModel {
            repair_policy: Seq::<char>::empty(),
            gate_fail_fast: false,
            worker_max_attempts: 0,
            repair_max_attempts: 0,
            repair_attempts: 0,
            phase_durations: Seq::empty(),
            agent_calls: Seq::empty(),
            agent_call_count: 0,
            command_executions: Seq::empty(),
            command_execution_count: 0,
            cache_hits: 0,
            cache_misses: 0,
            duplicate_commands: Seq::empty(),
            duplicate_command_count: 0,
            sla_violations: Seq::empty(),
            worker_observation_event_count: 0,
            worker_observation_bytes: 0,
            worker_observation_state_write_count: 0,
            supervisor_poll_count: 0,
            economics_checkpoint_count: 0,
        }
    }
}

/// How often a command was executed on an input.
#[derive(Debug, Clone, PartialEq, Eq)]
pub struct CommandCount {
    pub cache_key: String,
    pub dedupe_key: String,
    pub command: String,
    pub executions: usize,
}

#[verifier::ext_equal]
pub struct CommandCountModel {
    pub cache_key: Seq<char>,
    pub dedupe_key: Seq<char>,
    pub command: Seq<char>,
    pub executions: usize,
}

impl DeepView for CommandCount {
    type V = CommandCountModel;

    open spec fn deep_view(&self) -> CommandCountModel {
        CommandCountModel {
            cache_key: self.cache_key.deep_view(),
            dedupe_key: self.dedupe_key.deep_view(),
            command: self.command.deep_view(),
            executions: self.executions.deep_view(),
        }
    }
}

impl View for CommandCount {
    type V = CommandCountModel;

    open spec fn view(&self) -> CommandCountModel {
        self.deep_view()
    }
}

impl Row for CommandCount {
    fn dup(&self) -> (r: Self) {
        CommandCount {
            cache_key: self.cache_key.dup(),
            dedupe_key: self.dedupe_key.dup(),
            command: self.command.dup(),
            executions: self.executions.dup(),
        }
    }

    fn same(&self, other: &Self) -> (r: bool) {
        self.cache_key.same(&other.cache_key)
            && self.dedupe_key.same(&other.dedupe_key)
            && self.command.same(&other.command)
            && self.executions.same(&other.executions)
    }
}

/// When a snapshot was last kept, and of which revision. Instants are nanoseconds of a clock that never goes back.
#[derive(Debug, Clone, PartialEq, Eq)]
pub struct EconomicsCheckpointState {
    pub minimum_interval_ns: u128,
    pub last_write_ns: Option<u128>,
    pub persisted_revision: Option<u64>,
}

#[verifier::ext_equal]
pub struct EconomicsCheckpointStateModel {
    pub minimum_interval_ns: u128,
    pub last_write_ns: Option<u128>,
    pub persisted_revision: Option<u64>,
}

impl DeepView for EconomicsCheckpointState {
    type V = EconomicsCheckpointStateModel;

    open spec fn deep_view(&self) -> EconomicsCheckpointStateModel {
        EconomicsCheckpointStateModel {
            minimum_interval_ns: self.minimum_interval_ns.deep_view(),
            last_write_ns: self.last_write_ns.deep_view(),
            persisted_revision: self.persisted_revision.deep_view(),
        }
    }
}

impl View for EconomicsCheckpointState {
    type V = EconomicsCheckpointStateModel;

    open spec fn view(&self) -> EconomicsCheckpointStateModel {
        self.deep_view()
    }
}

impl Row for EconomicsCheckpointState {
    fn dup(&self) -> (r: Self) {
        EconomicsCheckpointState {
            minimum_interval_ns: self.minimum_interval_ns.dup(),
            last_write_ns: self.last_write_ns.dup(),
            persisted_revision: self.persisted_revision.dup(),
        }
    }

    fn same(&self, other: &Self) -> (r: bool) {
        self.minimum_interval_ns.same(&other.minimum_interval_ns)
            && self.last_write_ns.same(&other.last_write_ns)
            && self.persisted_revision.same(&other.persisted_revision)
    }
}

pub open spec fn phase_named(phase: Seq<char>) -> spec_fn(PhaseDurationModel) -> bool {
    |row: PhaseDurationModel| row.phase == phase
}

pub open spec fn phase_set(new_row: PhaseDurationModel) -> spec_fn(PhaseDurationModel) -> PhaseDurationModel {
    |row: PhaseDurationModel| new_row
}

pub open spec fn counts_key(cache_key: Seq<char>) -> spec_fn(CommandCountModel) -> bool {
    |row: CommandCountModel| row.cache_key == cache_key
}

pub open spec fn counted_again(cache_key: Seq<char>) -> spec_fn(CommandCountModel) -> CommandCountModel {
    |row: CommandCountModel| CommandCountModel { executions: saturated(row.executions + 1), ..row }
}

/// A count that does not pass the greatest number.
pub open spec fn saturated(n: int) -> usize {
    if n > usize::MAX {
        usize::MAX
    } else {
        n as usize
    }
}

/// A command that was really executed: it was neither spared nor skipped.
pub open spec fn executed() -> spec_fn(CommandExecutionEconomicsModel) -> bool {
    |command: CommandExecutionEconomicsModel| !command.cache_hit && command.status != "skipped"@
}

pub open spec fn duplicate_violation() -> Seq<char> {
    "duplicate daemon command executions detected"@
}

/// How often the command on this input has been executed once this execution is counted, and under
/// which names.
pub open spec fn count_after(
    counts: Seq<CommandCountModel>,
    command: CommandExecutionEconomicsModel,
) -> CommandCountModel {
    match first(counts, counts_key(command.cache_key)) {
        Some(row) => counted_again(command.cache_key)(row),
        None => CommandCountModel {
            cache_key: command.cache_key,
            dedupe_key: command.dedupe_key,
            command: command.command,
            executions: 1,
        },
    }
}

pub open spec fn counts_after(
    counts: Seq<CommandCountModel>,
    command: CommandExecutionEconomicsModel,
) -> Seq<CommandCountModel> {
    if executed()(command) {
        upsert(
            counts,
            counts_key(command.cache_key),
            counted_again(command.cache_key),
            count_after(counts, command),
        )
    } else {
        counts
    }
}

/// The duplicates with the first one of a name brought up to date.
pub open spec fn duplicates_raised(
    duplicates: Seq<DuplicateCommandEconomicsModel>,
    dedupe_key: Seq<char>,
    executions: usize,
) -> Seq<DuplicateCommandEconomicsModel>
    decreases duplicates.len(),
{
    if duplicates.len() == 0 {
        duplicates
    } else if duplicates[0].dedupe_key == dedupe_key {
        duplicates.update(0, DuplicateCommandEconomicsModel { executions, ..duplicates[0] })
    } else {
        seq![duplicates[0]] + duplicates_raised(duplicates.skip(1), dedupe_key, executions)
    }
}

impl RunEconomicsModel {
    /// The costs once a command is recorded. The second execution on an input makes a duplicate, which is
    /// noted as a violation; further executions only raise the count.
    pub open spec fn with_command(
        self,
        counts: Seq<CommandCountModel>,
        command: CommandExecutionEconomicsModel,
    ) -> RunEconomicsModel {
        let skipped = command.status == "skipped"@;
        let logged = RunEconomicsModel {
            command_executions: self.command_executions.push(command),
            cache_hits: if !skipped && command.cache_hit {
                (self.cache_hits + 1) as usize
            } else {
                self.cache_hits
            },
            cache_misses: if !skipped && !command.cache_hit {
                (self.cache_misses + 1) as usize
            } else {
                self.cache_misses
            },
            ..self
        };
        if !executed()(command) {
            logged
        } else {
            let count = count_after(counts, command);
            let counted = RunEconomicsModel {
                command_execution_count: saturated(self.command_execution_count + 1),
                ..logged
            };
            if count.executions == 2 {
                let duplicates = self.duplicate_commands.push(
                    DuplicateCommandEconomicsModel {
                        dedupe_key: count.dedupe_key,
                        command: count.command,
                        executions: 2,
                    },
                );
                RunEconomicsModel {
                    duplicate_commands: duplicates,
                    duplicate_command_count: duplicates.len() as usize,
                    sla_violations: self.sla_violations.push(duplicate_violation()),
                    ..counted
                }
            } else if count.executions > 2 {
                RunEconomicsModel {
                    duplicate_commands: duplicates_raised(
                        self.duplicate_commands,
                        count.dedupe_key,
                        count.executions,
                    ),
                    ..counted
                }
            } else {
                counted
            }
        }
    }

    pub open spec fn with_observation(
        self,
        event_count: usize,
        event_bytes: usize,
        state_write_count: usize,
        supervisor_poll_count: usize,
    ) -> RunEconomicsModel {
        RunEconomicsModel {
            worker_observation_event_count: saturated(
                self.worker_observation_event_count + event_count,
            ),
            worker_observation_bytes: saturated(self.worker_observation_bytes + event_bytes),
            worker_observation_state_write_count: saturated(
                self.worker_observation_state_write_count + state_write_count,
            ),
            supervisor_poll_count: saturated(self.supervisor_poll_count + supervisor_poll_count),
            ..self
        }
    }

    /// How many of the recorded commands were really executed.
    pub open spec fn executions(self) -> nat {
        count(self.command_executions, executed())
    }

    /// The counters agree with what they count, and every phase has one duration.
    pub open spec fn consistent(self) -> bool {
        &&& self.agent_call_count == self.agent_calls.len()
        &&& self.duplicate_command_count == self.duplicate_commands.len()
        &&& self.sla_violations.len() == self.duplicate_commands.len()
        &&& forall|i: int|
            0 <= i < self.sla_violations.len() ==> #[trigger] self.sla_violations[i]
                == duplicate_violation()
        &&& self.cache_hits + self.cache_misses <= self.command_executions.len()
        &&& self.cache_hits == count(self.command_executions, spared())
        &&& self.command_execution_count == self.executions()
        &&& self.cache_misses == self.executions()
        &&& unique(self.phase_durations, phase_key())
    }
}

/// A command that was spared because its result was known.
pub open spec fn spared() -> spec_fn(CommandExecutionEconomicsModel) -> bool {
    |command: CommandExecutionEconomicsModel| command.cache_hit && command.status != "skipped"@
}

pub open spec fn phase_key() -> spec_fn(PhaseDurationModel) -> Seq<char> {
    |row: PhaseDurationModel| row.phase
}

/// A command that was really executed on this input.
pub open spec fn executed_on(cache_key: Seq<char>) -> spec_fn(
    CommandExecutionEconomicsModel,
) -> bool {
    |command: CommandExecutionEconomicsModel| executed()(command) && command.cache_key == cache_key
}

/// An input on which a command was executed more than once.
pub open spec fn repeated() -> spec_fn(CommandCountModel) -> bool {
    |row: CommandCountModel| row.executions >= 2
}

pub open spec fn count_key() -> spec_fn(CommandCountModel) -> Seq<char> {
    |row: CommandCountModel| row.cache_key
}

/// How many executions on an input are counted.
pub open spec fn counted_on(counts: Seq<CommandCountModel>, cache_key: Seq<char>) -> nat {
    match first(counts, counts_key(cache_key)) {
        Some(row) => row.executions as nat,
        None => 0,
    }
}

/// The counts hold, for every input, how often a recorded command was executed on it.
pub open spec fn counts_hold(
    commands: Seq<CommandExecutionEconomicsModel>,
    counts: Seq<CommandCountModel>,
) -> bool {
    &&& unique(counts, count_key())
    &&& forall|cache_key: Seq<char>| #[trigger]
        counted_on(counts, cache_key) == count(commands, executed_on(cache_key))
}

/// Records what a run costs, and decides when a snapshot of it is to be kept.
#[derive(Debug, Clone)]
pub struct RunEconomicsRecorder {
    economics: RunEconomics,
    command_counts: Vec<CommandCount>,
    kept: bool,
    checkpoint: EconomicsCheckpointState,
    revision: u64,
}

#[verifier::ext_equal]
pub struct RecorderModel {
    pub economics: RunEconomicsModel,
    pub command_counts: Seq<CommandCountModel>,
    pub kept: bool,
    pub checkpoint: EconomicsCheckpointStateModel,
    pub revision: u64,
}

impl View for RunEconomicsRecorder {
    type V = RecorderModel;

    closed spec fn view(&self) -> RecorderModel {
        RecorderModel {
            economics: self.economics@,
            command_counts: self.command_counts.deep_view(),
            kept: self.kept,
            checkpoint: self.checkpoint@,
            revision: self.revision,
        }
    }
}

/// The next revision; after the last one they begin again.
pub open spec fn next_revision(revision: u64) -> u64 {
    if revision == u64::MAX {
        0
    } else {
        (revision + 1) as u64
    }
}

impl RecorderModel {
    /// The counters agree with what they count, and there is one duplicate for each input on which a
    /// command was executed more than once.
    pub open spec fn valid(self) -> bool {
        &&& self.economics.consistent()
        &&& counts_hold(self.economics.command_executions, self.command_counts)
        &&& self.economics.duplicate_commands.len() == count(self.command_counts, repeated())
    }

    /// The recorder with new costs, which no snapshot holds yet.
    pub open spec fn with(self, economics: RunEconomicsModel) -> RecorderModel {
        RecorderModel { economics, revision: next_revision(self.revision), ..self }
    }

    /// The record after a phase was finished.
    pub open spec fn phase_finished(self, phase: Seq<char>, duration_ms: u128) -> RecorderModel {
        self.with(
            RunEconomicsModel {
                phase_durations: upsert(
                    self.economics.phase_durations,
                    phase_named(phase),
                    phase_set(PhaseDurationModel { phase, duration_ms }),
                    PhaseDurationModel { phase, duration_ms },
                ),
                ..self.economics
            },
        )
    }

    /// The record after an agent was called.
    pub open spec fn agent_called(self, call: AgentCallEconomicsModel) -> RecorderModel {
        self.with(
            RunEconomicsModel {
                agent_calls: self.economics.agent_calls.push(call),
                agent_call_count: (self.economics.agent_calls.len() + 1) as usize,
                ..self.economics
            },
        )
    }

    /// The record after a command was executed or spared.
    pub open spec fn command_recorded(
        self,
        command: CommandExecutionEconomicsModel,
    ) -> RecorderModel {
        RecorderModel {
            command_counts: counts_after(self.command_counts, command),
            ..self.with(self.economics.with_command(self.command_counts, command))
        }
    }

    /// Whether a snapshot is to be kept now: there is a place for it, this revision has not been
    /// kept yet, and enough time has passed since the last one, unless it is forced.
    pub open spec fn checkpoint_due(self, force: bool, now_ns: u128) -> bool {
        &&& self.kept
        &&& self.checkpoint.persisted_revision != Some(self.revision)
        &&& force || match self.checkpoint.last_write_ns {
            Some(last) => !(elapsed(last, now_ns) < self.checkpoint.minimum_interval_ns),
            None => true,
        }
    }

    /// The recorder once the snapshot of its revision was kept, or could not be kept.
    pub open spec fn checkpointed(self, written: bool, now_ns: u128) -> RecorderModel {
        if written {
            RecorderModel {
                economics: RunEconomicsModel {
                    economics_checkpoint_count: saturated(
                        self.economics.economics_checkpoint_count + 1,
                    ),
                    ..self.economics
                },
                checkpoint: EconomicsCheckpointStateModel {
                    last_write_ns: Some(now_ns),
                    persisted_revision: Some(self.revision),
                    ..self.checkpoint
                },
                ..self
            }
        } else {
            RecorderModel {
                economics: RunEconomicsModel {
                    economics_checkpoint_count: uncounted(
                        saturated(self.economics.economics_checkpoint_count + 1),
                    ),
                    ..self.economics
                },
                ..self
            }
        }
    }
}

pub open spec fn elapsed(since: u128, now: u128) -> int {
    if now < since {
        0
    } else {
        now - since
    }
}

pub open spec fn uncounted(n: usize) -> usize {
    if n == 0 {
        0
    } else {
        (n - 1) as usize
    }
}

/// A row that is added is counted where it meets the condition.
proof fn lemma_count_pushed<M>(rows: Seq<M>, row: M, p: spec_fn(M) -> bool)
    ensures
        count(rows.push(row), p) == count(rows, p) + if p(row) {
            1int
        } else {
            0int
        },
        count(rows, p) <= rows.len(),
    decreases rows.len(),
{
    assert(rows.push(row).drop_last() =~= rows);
    if rows.len() > 0 {
        lemma_count_pushed(rows.drop_last(), rows.last(), p);
        assert(rows.drop_last().push(rows.last()) =~= rows);
    }
}

/// Counting an execution once more makes its input a repeated one where it was counted once.
proof fn lemma_repeated(counts: Seq<CommandCountModel>, cache_key: Seq<char>)
    requires
        unique(counts, count_key()),
        counted_on(counts, cache_key) < usize::MAX,
    ensures
        count(counts.map_values(raised(cache_key)), repeated()) == count(counts, repeated())
            + if any(counts, counts_key(cache_key)) && counted_on(counts, cache_key) == 1 {
            1int
        } else {
            0int
        },
    decreases counts.len(),
{
    let p = counts_key(cache_key);
    let g = raised(cache_key);
    if counts.len() > 0 {
        let rest = counts.drop_last();
        let last = counts.last();
        assert(rest.push(last) =~= counts);
        assert(counts.map_values(g) =~= rest.map_values(g).push(g(last)));
        lemma_count_pushed(rest, last, repeated());
        lemma_count_pushed(rest.map_values(g), g(last), repeated());
        lemma_first_push(rest, last, p);
        lemma_first_any(rest, p);
        assert(unique(rest, count_key()));
        if p(last) {
            assert forall|i: int| 0 <= i < rest.len() implies !p(#[trigger] rest[i]) by {
                assert(rest[i] == counts[i]);
                assert(counts[counts.len() - 1] == last);
                if p(rest[i]) {
                    assert(count_key()(counts[i]) == count_key()(counts[counts.len() - 1]));
                }
            }
            assert(rest.map_values(g) =~= rest);
        } else {
            lemma_repeated(rest, cache_key);
        }
    }
}

/// The counts with the executions on one input counted once more.
pub open spec fn raised(cache_key: Seq<char>) -> spec_fn(CommandCountModel) -> CommandCountModel {
    |row: CommandCountModel|
        if counts_key(cache_key)(row) {
            counted_again(cache_key)(row)
        } else {
            row
        }
}

/// The counts go on holding when a command is recorded, and its input becomes a repeated one with
/// its second execution.
proof fn lemma_counts_hold(
    commands: Seq<CommandExecutionEconomicsModel>,
    counts: Seq<CommandCountModel>,
    command: CommandExecutionEconomicsModel,
)
    requires
        counts_hold(commands, counts),
        commands.len() < usize::MAX,
    ensures
        counts_hold(commands.push(command), counts_after(counts, command)),
        executed()(command) ==> count(counts_after(counts, command), repeated()) == count(
            counts,
            repeated(),
        ) + if count_after(counts, command).executions == 2 {
            1int
        } else {
            0int
        },
{
    let key = command.cache_key;
    let after = counts_after(counts, command);
    lemma_count_pushed(commands, command, executed_on(key));
    assert(counted_on(counts, key) == count(commands, executed_on(key)));
    if executed()(command) {
        lemma_first_any(counts, counts_key(key));
        if any(counts, counts_key(key)) {
            assert(after =~= counts.map_values(raised(key)));
            lemma_repeated(counts, key);
            assert(unique(after, count_key())) by {
                assert forall|i: int, j: int|
                    #![trigger after[i], after[j]]
                    0 <= i < after.len() && 0 <= j < after.len() && count_key()(after[i])
                        == count_key()(after[j]) implies i == j by {
                    assert(count_key()(counts[i]) == count_key()(counts[j]));
                }
            }
        } else {
            let row = count_after(counts, command);
            assert(after == counts.push(row));
            lemma_count_pushed(counts, row, repeated());
            assert(unique(after, count_key())) by {
                assert forall|i: int, j: int|
                    #![trigger after[i], after[j]]
                    0 <= i < after.len() && 0 <= j < after.len() && count_key()(after[i])
                        == count_key()(after[j]) implies i == j by {
                    if i < counts.len() && j < counts.len() {
                        assert(count_key()(counts[i]) == count_key()(counts[j]));
                    } else if i < counts.len() {
                        assert(!counts_key(key)(counts[i]));
                    } else if j < counts.len() {
                        assert(!counts_key(key)(counts[j]));
                    }
                }
            }
        }
    }
    assert forall|k: Seq<char>| #[trigger]
        counted_on(after, k) == count(commands.push(command), executed_on(k)) by {
        lemma_count_pushed(commands, command, executed_on(k));
        assert(counted_on(counts, k) == count(commands, executed_on(k)));
        lemma_first_any(counts, counts_key(k));
        if executed()(command) {
            if any(counts, counts_key(key)) {
                lemma_first_map(counts, raised(key), counts_key(k));
            } else {
                lemma_first_push(counts, count_after(counts, command), counts_key(k));
            }
        }
    }
}

proof fn lemma_raised_len(
    duplicates: Seq<DuplicateCommandEconomicsModel>,
    dedupe_key: Seq<char>,
    executions: usize,
)
    ensures
        duplicates_raised(duplicates, dedupe_key, executions).len() == duplicates.len(),
    decreases duplicates.len(),
{
    if duplicates.len() > 0 && duplicates[0].dedupe_key != dedupe_key {
        lemma_raised_len(duplicates.skip(1), dedupe_key, executions);
    }
}

proof fn lemma_raised_at(
    duplicates: Seq<DuplicateCommandEconomicsModel>,
    dedupe_key: Seq<char>,
    executions: usize,
    n: int,
)
    requires
        0 <= n <= duplicates.len(),
        forall|i: int| 0 <= i < n ==> (#[trigger] duplicates[i]).dedupe_key != dedupe_key,
        n < duplicates.len() ==> duplicates[n].dedupe_key == dedupe_key,
    ensures
        duplicates_raised(duplicates, dedupe_key, executions) == if n < duplicates.len() {
            duplicates.update(n, DuplicateCommandEconomicsModel { executions, ..duplicates[n] })
        } else {
            duplicates
        },
    decreases duplicates.len(),
{
    if n > 0 {
        let rest = duplicates.skip(1);
        assert forall|i: int| 0 <= i < n - 1 implies (#[trigger] rest[i]).dedupe_key
            != dedupe_key by {
            assert(rest[i] == duplicates[i + 1]);
        }
        lemma_raised_at(rest, dedupe_key, executions, n - 1);
        if n < duplicates.len() {
            assert(duplicates_raised(duplicates, dedupe_key, executions) =~= duplicates.update(
                n,
                DuplicateCommandEconomicsModel { executions, ..duplicates[n] },
            ));
        } else {
            assert(seq![duplicates[0]] + rest =~= duplicates);
        }
    }
}

fn raise_duplicate(
    duplicates: &mut Vec<DuplicateCommandEconomics>,
    dedupe_key: &str,
    executions: usize,
)
    ensures
        final(duplicates).deep_view() == duplicates_raised(
            old(duplicates).deep_view(),
            dedupe_key@,
            executions,
        ),
{
    let ghost all = duplicates.deep_view();
    let mut n: usize = 0;
    while n < duplicates.len() && !same_text(duplicates[n].dedupe_key.as_str(), dedupe_key)
        invariant
            n <= duplicates.len(),
            all == duplicates.deep_view(),
            duplicates@ == old(duplicates)@,
            forall|i: int| 0 <= i < n ==> (#[trigger] all[i]).dedupe_key != dedupe_key@,
        decreases duplicates.len() - n,
    {
        assert(all[n as int] == duplicates@[n as int]@);
        n = n + 1;
    }
    proof {
        if n < duplicates.len() {
            assert(all[n as int] == duplicates@[n as int]@);
        }
        lemma_raised_at(all, dedupe_key@, executions, n as int);
    }
    if n < duplicates.len() {
        let mut row = duplicates[n].dup();
        row.executions = executions;
        duplicates.set(n, row);
        assert(duplicates.deep_view() =~= all.update(n as int, row@));
    }
}

impl RunEconomicsRecorder {
    pub fn new(
        repair_policy: &str,
        gate_fail_fast: bool,
        worker_max_attempts: usize,
        repair_max_attempts: usize,
    ) -> (r: RunEconomicsRecorder)
        ensures
            r@.valid(),
            r@ == (RecorderModel {
                economics: RunEconomicsModel {
                    repair_policy: repair_policy@,
                    gate_fail_fast,
                    worker_max_attempts,
                    repair_max_attempts,
                    ..RunEconomicsModel::empty()
                },
                command_counts: Seq::empty(),
                kept: false,
                checkpoint: EconomicsCheckpointStateModel {
                    minimum_interval_ns: 0,
                    last_write_ns: None,
                    persisted_revision: None,
                },
                revision: 0,
            }),
    {
        let mut economics = RunEconomics::default();
        economics.repair_policy = repair_policy.to_owned();
        economics.gate_fail_fast = gate_fail_fast;
        economics.worker_max_attempts = worker_max_attempts;
        economics.repair_max_attempts = repair_max_attempts;
        let r = RunEconomicsRecorder {
            economics,
            command_counts: Vec::new(),
            kept: false,
            checkpoint: EconomicsCheckpointState {
                minimum_interval_ns: 0,
                last_write_ns: None,
                persisted_revision: None,
            },
            revision: 0,
        };
        assert(r.command_counts.deep_view() =~= Seq::empty());
        r
    }

    /// From now on snapshots are kept, not more often than the interval says.
    pub fn keep_snapshots(&mut self, minimum_interval_ns: u128)
        ensures
            final(self)@ == (RecorderModel {
                kept: true,
                checkpoint: EconomicsCheckpointStateModel {
                    minimum_interval_ns,
                    ..old(self)@.checkpoint
                },
                ..old(self)@
            }),
    {
        self.kept = true;
        self.checkpoint.minimum_interval_ns = minimum_interval_ns;
    }

    fn mark_dirty(&mut self)
        ensures
            final(self)@ == (RecorderModel {
                revision: next_revision(old(self)@.revision),
                ..old(self)@
            }),
    {
        if self.revision == u64::MAX {
            self.revision = 0;
        } else {
            self.revision = self.revision + 1;
        }
    }

    /// Records how long a phase took; a phase that took place again counts with its last time.
    pub fn finish_phase(&mut self, phase: &str, duration_ms: u128)
        requires
            old(self)@.valid(),
        ensures
            final(self)@.valid(),
            final(self)@ == old(self)@.with(
                RunEconomicsModel {
                    phase_durations: upsert(
                        old(self)@.economics.phase_durations,
                        phase_named(phase@),
                        phase_set(PhaseDurationModel { phase: phase@, duration_ms }),
                        PhaseDurationModel { phase: phase@, duration_ms },
                    ),
                    ..old(self)@.economics
                },
            ),
            final(self)@ == old(self)@.phase_finished(phase@, duration_ms),
    {
        let row = PhaseDuration { phase: phase.to_owned(), duration_ms };
        let added = row.dup();
        let named = |other: &PhaseDuration| -> (b: bool)
            ensures
                b == phase_named(phase@)(other@),
            { same_text(other.phase.as_str(), phase) };
        let set = |other: &PhaseDuration| -> (out: Option<PhaseDuration>)
            ensures
                match out {
                    Some(m) => phase_named(phase@)(other@) && m@ == phase_set(row@)(other@),
                    None => !phase_named(phase@)(other@),
                },
            {
                if same_text(other.phase.as_str(), phase) {
                    Some(row.dup())
                } else {
                    None
                }
            };
        upsert_row(
            &mut self.economics.phase_durations,
            named,
            set,
            added,
            Ghost(phase_named(phase@)),
            Ghost(phase_set(row@)),
        );
        self.mark_dirty();
    }

    /// Records a call of an agent.
    pub fn record_agent_call(&mut self, call: AgentCallEconomics)
        requires
            old(self)@.valid(),
        ensures
            final(self)@.valid(),
            final(self)@ == old(self)@.with(
                RunEconomicsModel {
                    agent_calls: old(self)@.economics.agent_calls.push(call@),
                    agent_call_count: (old(self)@.economics.agent_calls.len() + 1) as usize,
                    ..old(self)@.economics
                },
            ),
            final(self)@ == old(self)@.agent_called(call@),
    {
        let ghost before = self.economics.agent_calls.deep_view();
        self.economics.agent_calls.push(call);
        assert(self.economics.agent_calls.deep_view() =~= before.push(call@));
        self.economics.agent_call_count = self.economics.agent_calls.len();
        self.mark_dirty();
    }

    /// Records a command. The second execution on an input makes a duplicate.
    pub fn record_command(&mut self, command: CommandExecutionEconomics)
        requires
            old(self)@.valid(),
        ensures
            final(self)@.valid(),
            final(self)@.economics == old(self)@.economics.with_command(
                old(self)@.command_counts,
                command@,
            ),
            final(self)@ == (RecorderModel {
                command_counts: counts_after(old(self)@.command_counts, command@),
                ..old(self)@.with(final(self)@.economics)
            }),
            final(self)@ == old(self)@.command_recorded(command@),
    {
        let ghost before = self@;
        let cache_hit = command.cache_hit;
        let skipped = same_text(command.status.as_str(), "skipped");
        let execution: Option<CommandCount> = if !cache_hit && !skipped {
            Some(self.count_execution(&command))
        } else {
            None
        };
        proof {
            lemma_count_pushed(before.economics.command_executions, command@, executed());
            lemma_count_pushed(before.economics.command_executions, command@, spared());
        }
        let ghost commands = self.economics.command_executions.deep_view();
        let ghost recorded = command@;
        self.economics.command_executions.push(command);
        assert(self.economics.command_executions.deep_view() =~= commands.push(command@));
        assert(self.economics.command_executions.len() == commands.len() + 1);
        proof {
            lemma_counts_hold(commands, before.command_counts, recorded);
        }
        if !skipped {
            if cache_hit {
                self.economics.cache_hits = self.economics.cache_hits + 1;
            } else {
                self.economics.cache_misses = self.economics.cache_misses + 1;
            }
        }
        match execution {
            Some(count) => {
                self.economics.command_execution_count =
                self.economics.command_execution_count.saturating_add(1);
                if count.executions == 2 {
                    let ghost duplicates = self.economics.duplicate_commands.deep_view();
                    let ghost violations = self.economics.sla_violations.deep_view();
                    let duplicate = DuplicateCommandEconomics {
                        dedupe_key: count.dedupe_key,
                        command: count.command,
                        executions: count.executions,
                    };
                    self.economics.duplicate_commands.push(duplicate);
                    assert(self.economics.duplicate_commands.deep_view() =~= duplicates.push(
                        duplicate@,
                    ));
                    self.economics.duplicate_command_count =
                    self.economics.duplicate_commands.len();
                    self.economics.sla_violations.push(
                        "duplicate daemon command executions detected".to_owned(),
                    );
                    assert(self.economics.sla_violations.deep_view() =~= violations.push(
                        duplicate_violation(),
                    ));
                } else if count.executions > 2 {
                    proof {
                        lemma_raised_len(
                            self.economics.duplicate_commands.deep_view(),
                            count@.dedupe_key,
                            count.executions,
                        );
                    }
                    raise_duplicate(
                        &mut self.economics.duplicate_commands,
                        count.dedupe_key.as_str(),
                        count.executions,
                    );
                }
            },
            None => {},
        }
        self.mark_dirty();
    }

    fn count_execution(&mut self, command: &CommandExecutionEconomics) -> (r: CommandCount)
        requires
            executed()(command@),
        ensures
            r@ == count_after(old(self)@.command_counts, command@),
            final(self)@ == (RecorderModel {
                command_counts: counts_after(old(self)@.command_counts, command@),
                ..old(self)@
            }),
    {
        let key = command.cache_key.as_str();
        let counts = |row: &CommandCount| -> (b: bool)
            ensures
                b == counts_key(key@)(row@),
            { same_text(row.cache_key.as_str(), key) };
        let result = match find_row(&self.command_counts, counts, Ghost(counts_key(key@))) {
            Some(i) => {
                let mut row = self.command_counts[i].dup();
                row.executions = row.executions.saturating_add(1);
                row
            },
            None => CommandCount {
                cache_key: command.cache_key.dup(),
                dedupe_key: command.dedupe_key.dup(),
                command: command.command.dup(),
                executions: 1,
            },
        };
        let raise = |row: &CommandCount| -> (out: Option<CommandCount>)
            ensures
                match out {
                    Some(m) => counts_key(key@)(row@) && m@ == counted_again(key@)(row@),
                    None => !counts_key(key@)(row@),
                },
            {
                if same_text(row.cache_key.as_str(), key) {
                    let mut m = row.dup();
                    m.executions = m.executions.saturating_add(1);
                    Some(m)
                } else {
                    None
                }
            };
        let added = result.dup();
        upsert_row(
            &mut self.command_counts,
            counts,
            raise,
            added,
            Ghost(counts_key(key@)),
            Ghost(counted_again(key@)),
        );
        result
    }

    /// Records how many repairs were attempted.
    pub fn set_repair_attempts(&mut self, attempts: usize)
        requires
            old(self)@.valid(),
        ensures
            final(self)@.valid(),
            final(self)@ == old(self)@.with(
                RunEconomicsModel { repair_attempts: attempts, ..old(self)@.economics },
            ),
    {
        self.economics.repair_attempts = attempts;
        self.mark_dirty();
    }

    /// Adds to what was observed at run time.
    pub fn record_runtime_observation(
        &mut self,
        event_count: usize,
        event_bytes: usize,
        state_write_count: usize,
        supervisor_poll_count: usize,
    )
        requires
            old(self)@.valid(),
        ensures
            final(self)@.valid(),
            final(self)@ == old(self)@.with(
                old(self)@.economics.with_observation(
                    event_count,
                    event_bytes,
                    state_write_count,
                    supervisor_poll_count,
                ),
            ),
    {
        self.economics.worker_observation_event_count =
        self.economics.worker_observation_event_count.saturating_add(event_count);
        self.economics.worker_observation_bytes =
        self.economics.worker_observation_bytes.saturating_add(event_bytes);
        self.economics.worker_observation_state_write_count =
        self.economics.worker_observation_state_write_count.saturating_add(state_write_count);
        self.economics.supervisor_poll_count =
        self.economics.supervisor_poll_count.saturating_add(supervisor_poll_count);
        self.mark_dirty();
    }

    /// What the run costs so far.
    pub fn snapshot(&self) -> (r: RunEconomics)
        ensures
            r@ == self@.economics,
    {
        self.economics.dup()
    }

    /// The snapshot that is to be kept now, if one is; it already counts itself.
    pub fn checkpoint(&self, force: bool, now_ns: u128) -> (r: Option<RunEconomics>)
        ensures
            r.deep_view() == if self@.checkpoint_due(force, now_ns) {
                Some(self@.checkpointed(true, now_ns).economics)
            } else {
                None
            },
    {
        if !self.kept {
            return None;
        }
        let current = match self.checkpoint.persisted_revision {
            Some(revision) => revision == self.revision,
            None => false,
        };
        if current {
            return None;
        }
        let too_soon = match self.checkpoint.last_write_ns {
            Some(last) => {
                let passed: u128 = if now_ns < last {
                    0
                } else {
                    now_ns - last
                };
                passed < self.checkpoint.minimum_interval_ns
            },
            None => false,
        };
        if !force && too_soon {
            return None;
        }
        let mut snapshot = self.economics.dup();
        snapshot.economics_checkpoint_count = snapshot.economics_checkpoint_count.saturating_add(1);
        Some(snapshot)
    }

    /// Takes note of whether the snapshot could be kept.
    pub fn checkpoint_written(&mut self, written: bool, now_ns: u128)
        requires
            old(self)@.valid(),
        ensures
            final(self)@.valid(),
            final(self)@ == old(self)@.checkpointed(written, now_ns),
    {
        self.economics.economics_checkpoint_count =
        self.economics.economics_checkpoint_count.saturating_add(1);
        if written {
            self.checkpoint.last_write_ns = Some(now_ns);
            self.checkpoint.persisted_revision = Some(self.revision);
        } else if self.economics.economics_checkpoint_count > 0 {
            self.economics.economics_checkpoint_count =
            self.economics.economics_checkpoint_count - 1;
        }
    }
}

/// What a call of an agent cost; a call whose use is not known counts as none.
pub fn agent_call(
    phase: &str,
    slice_id: &str,
    attempt: usize,
    kind: &str,
    runner: &str,
    metadata: &RunnerMetadata,
    status: &str,
    duration_ms: u128,
    operator_pause_ms: u128,
    usage: Option<&Usage>,
    error: &str,
) -> (r: AgentCallEconomics)
    ensures
        r@ == (AgentCallEconomicsModel {
            phase: phase@,
            slice_id: slice_id@,
            attempt,
            kind: kind@,
            runner: runner@,
            agent_profile: metadata@.profile,
            agent_provider: metadata@.provider,
            agent_model: metadata@.model,
            agent_reasoning: metadata@.reasoning,
            agent_mode: metadata@.mode,
            profile_summary: metadata@.profile_summary,
            launch_summary: metadata@.launch_summary,
            status: status@,
            duration_ms,
            operator_pause_ms,
            error: error@,
            input_tokens: match usage {
                Some(usage) => usage@.input_tokens,
                None => 0,
            },
            output_tokens: match usage {
                Some(usage) => usage@.output_tokens,
                None => 0,
            },
        }),
{
    let used = match usage {
        Some(usage) => usage.dup(),
        None => Usage::default(),
    };
    AgentCallEconomics {
        phase: phase.to_owned(),
        slice_id: slice_id.to_owned(),
        attempt,
        kind: kind.to_owned(),
        runner: runner.to_owned(),
        agent_profile: metadata.profile.dup(),
        agent_provider: metadata.provider.dup(),
        agent_model: metadata.model.dup(),
        agent_reasoning: metadata.reasoning.dup(),
        agent_mode: metadata.mode.dup(),
        profile_summary: metadata.profile_summary.dup(),
        launch_summary: metadata.launch_summary.dup(),
        status: status.to_owned(),
        duration_ms,
        operator_pause_ms,
        error: error.to_owned(),
        input_tokens: used.input_tokens,
        output_tokens: used.output_tokens,
    }
}

/// A phase counts with the time that it took last: it is listed once with that time, every other phase
/// stays, and the record is a new one.
pub proof fn law_phase_counts_with_its_last_time(
    r: RecorderModel,
    phase: Seq<char>,
    duration_ms: u128,
)
    ensures
        ({
            let before = r.economics.phase_durations;
            let after = r.phase_finished(phase, duration_ms);
            let phases = after.economics.phase_durations;
            let row = PhaseDurationModel { phase, duration_ms };
            &&& phases.contains(row)
            &&& before.len() <= phases.len() <= before.len() + 1
            &&& forall|k: int|
                0 <= k < before.len() ==> #[trigger] phases[k] == if before[k].phase == phase {
                    row
                } else {
                    before[k]
                }
            &&& forall|k: int| before.len() <= k < phases.len() ==> #[trigger] phases[k] == row
            &&& after.economics == RunEconomicsModel { phase_durations: phases, ..r.economics }
            &&& after.revision != r.revision
            &&& after == RecorderModel {
                economics: after.economics,
                revision: after.revision,
                ..r
            }
        }),
{
    let before = r.economics.phase_durations;
    let p = phase_named(phase);
    let phases = r.phase_finished(phase, duration_ms).economics.phase_durations;
    let row = PhaseDurationModel { phase, duration_ms };
    if any(before, p) {
        let k = choose|k: int| 0 <= k < before.len() && p(#[trigger] before[k]);
        assert(phases[k] == row);
    } else {
        assert(phases[before.len() as int] == row);
        assert forall|k: int| 0 <= k < before.len() implies #[trigger] phases[k] == before[k]
            && before[k].phase != phase by {
            assert(!p(before[k]));
        }
    }
}

/// A call of an agent is the last one that is listed, and the number of calls is one higher.
pub proof fn law_agent_call_is_listed(r: RecorderModel, call: AgentCallEconomicsModel)
    requires
        r.valid(),
        r.economics.agent_calls.len() < usize::MAX,
    ensures
        ({
            let after = r.agent_called(call);
            &&& after.economics.agent_calls == r.economics.agent_calls.push(call)
            &&& after.economics.agent_call_count == r.economics.agent_call_count + 1
            &&& after.economics == RunEconomicsModel {
                agent_calls: after.economics.agent_calls,
                agent_call_count: after.economics.agent_call_count,
                ..r.economics
            }
            &&& after.revision != r.revision
            &&& after == RecorderModel {
                economics: after.economics,
                revision: after.revision,
                ..r
            }
        }),
{
}

/// A command is listed. One that was skipped counts as nothing; one that was spared counts as a hit,
/// any other as a miss and as an execution. The first execution on an input makes no duplicate; the
/// second one makes a new duplicate and a violation; a later one makes neither. Nothing else of what
/// the run costs changes.
pub proof fn law_command_is_counted(r: RecorderModel, command: CommandExecutionEconomicsModel)
    requires
        r.valid(),
        r.economics.command_executions.len() < usize::MAX,
        r.economics.duplicate_commands.len() < usize::MAX,
    ensures
        ({
            let before = r.economics;
            let after = r.command_recorded(command).economics;
            let skipped = command.status == "skipped"@;
            let hit = !skipped && command.cache_hit;
            let miss = !skipped && !command.cache_hit;
            let earlier = count(
                before.command_executions,
                |other: CommandExecutionEconomicsModel|
                    !other.cache_hit && other.status != "skipped"@ && other.cache_key
                        == command.cache_key,
            );
            let one = |b: bool|
                if b {
                    1int
                } else {
                    0int
                };
            &&& after.command_executions == before.command_executions.push(command)
            &&& after.cache_hits == before.cache_hits + one(hit)
            &&& after.cache_misses == before.cache_misses + one(miss)
            &&& after.command_execution_count == before.command_execution_count + one(miss)
            &&& after.duplicate_commands.len() == before.duplicate_commands.len() + one(
                miss && earlier == 1,
            )
            &&& after.sla_violations.len() == before.sla_violations.len() + one(
                miss && earlier == 1,
            )
            &&& miss && earlier == 1 ==> after.duplicate_commands.last().executions == 2
                && after.duplicate_command_count == after.duplicate_commands.len()
                && after.sla_violations.last() == "duplicate daemon command executions detected"@
            &&& !(miss && earlier >= 1) ==> after.duplicate_commands == before.duplicate_commands
                && after.sla_violations == before.sla_violations && after.duplicate_command_count
                == before.duplicate_command_count
            &&& after == RunEconomicsModel {
                command_executions: after.command_executions,
                cache_hits: after.cache_hits,
                cache_misses: after.cache_misses,
                command_execution_count: after.command_execution_count,
                duplicate_commands: after.duplicate_commands,
                duplicate_command_count: after.duplicate_command_count,
                sla_violations: after.sla_violations,
                ..before
            }
            &&& r.command_recorded(command).revision != r.revision
        }),
{
    let commands = r.economics.command_executions;
    let key = command.cache_key;
    let on_input = |other: CommandExecutionEconomicsModel|
        !other.cache_hit && other.status != "skipped"@ && other.cache_key == command.cache_key;
    lemma_same_count(commands, on_input, executed_on(key));
    lemma_count_bound(commands, executed_on(key));
    lemma_count_bound(commands, executed());
    assert(counted_on(r.command_counts, key) == count(commands, executed_on(key)));
    lemma_first_any(r.command_counts, counts_key(key));
    let found = count_after(r.command_counts, command);
    lemma_raised_len(r.economics.duplicate_commands, found.dedupe_key, found.executions);
}

/// Conditions that agree count the same.
proof fn lemma_same_count<M>(rows: Seq<M>, p: spec_fn(M) -> bool, q: spec_fn(M) -> bool)
    requires
        forall|i: int| 0 <= i < rows.len() ==> p(#[trigger] rows[i]) == q(rows[i]),
    ensures
        count(rows, p) == count(rows, q),
    decreases rows.len(),
{
    if rows.len() > 0 {
        let rest = rows.drop_last();
        assert forall|i: int| 0 <= i < rest.len() implies p(#[trigger] rest[i]) == q(rest[i]) by {
            assert(rest[i] == rows[i]);
        }
        lemma_same_count(rest, p, q);
        assert(rows[rows.len() - 1] == rows.last());
        assert(rest.push(rows.last()) =~= rows);
        lemma_count_pushed(rest, rows.last(), p);
        lemma_count_pushed(rest, rows.last(), q);
    }
}

/// No more rows are counted than there are.
proof fn lemma_count_bound<M>(rows: Seq<M>, p: spec_fn(M) -> bool)
    ensures
        count(rows, p) <= rows.len(),
    decreases rows.len(),
{
    if rows.len() > 0 {
        let rest = rows.drop_last();
        lemma_count_bound(rest, p);
        assert(rest.push(rows.last()) =~= rows);
        lemma_count_pushed(rest, rows.last(), p);
    }
}

/// What is observed at run time is added up, each count for itself and as far as it goes.
pub proof fn law_observations_are_added_up(
    economics: RunEconomicsModel,
    event_count: usize,
    event_bytes: usize,
    state_write_count: usize,
    supervisor_poll_count: usize,
)
    ensures
        ({
            let after = economics.with_observation(
                event_count,
                event_bytes,
                state_write_count,
                supervisor_poll_count,
            );
            let added = |before: usize, more: usize, sum: usize|
                sum == before + more || (before + more > usize::MAX && sum == usize::MAX);
            &&& added(
                economics.worker_observation_event_count,
                event_count,
                after.worker_observation_event_count,
            )
            &&& added(
                economics.worker_observation_bytes,
                event_bytes,
                after.worker_observation_bytes,
            )
            &&& added(
                economics.worker_observation_state_write_count,
                state_write_count,
                after.worker_observation_state_write_count,
            )
            &&& added(
                economics.supervisor_poll_count,
                supervisor_poll_count,
                after.supervisor_poll_count,
            )
            &&& after == RunEconomicsModel {
                worker_observation_event_count: after.worker_observation_event_count,
                worker_observation_bytes: after.worker_observation_bytes,
                worker_observation_state_write_count: after.worker_observation_state_write_count,
                supervisor_poll_count: after.supervisor_poll_count,
                ..economics
            }
        }),
{
}

/// A snapshot is due where snapshots are kept, the record changed since the last one that was written,
/// and the interval has passed since then or nobody waits for it; the first one is due at once.
pub proof fn law_snapshot_is_due(r: RecorderModel, force: bool, now_ns: u128)
    ensures
        ({
            let current = r.checkpoint.persisted_revision == Some(r.revision);
            let early = r.checkpoint.last_write_ns matches Some(last) && now_ns < last
                + r.checkpoint.minimum_interval_ns && r.checkpoint.minimum_interval_ns > 0;
            &&& !r.kept ==> !r.checkpoint_due(force, now_ns)
            &&& r.kept && current ==> !r.checkpoint_due(force, now_ns)
            &&& r.kept && !current && force ==> r.checkpoint_due(force, now_ns)
            &&& r.kept && !current && !force ==> (r.checkpoint_due(force, now_ns) <==> !early)
        }),
{
}

/// A snapshot that was written counts itself, and no other is due until the record changes; one that
/// could not be written leaves no trace, unless the count was at its limit.
pub proof fn law_written_snapshot_is_current(
    r: RecorderModel,
    written: bool,
    now_ns: u128,
    force: bool,
    later_ns: u128,
)
    ensures
        ({
            let after = r.checkpointed(written, now_ns);
            &&& after == RecorderModel {
                economics: RunEconomicsModel {
                    economics_checkpoint_count: after.economics.economics_checkpoint_count,
                    ..r.economics
                },
                checkpoint: after.checkpoint,
                ..r
            }
            &&& after.checkpoint.minimum_interval_ns == r.checkpoint.minimum_interval_ns
            &&& r.economics.economics_checkpoint_count < usize::MAX
                ==> after.economics.economics_checkpoint_count
                == r.economics.economics_checkpoint_count + if written {
                1int
            } else {
                0int
            }
            &&& written ==> after.checkpoint.last_write_ns == Some(now_ns)
                && !after.checkpoint_due(force, later_ns)
            &&& !written ==> after.checkpoint == r.checkpoint
        }),
{
}

/// Executions are counted by their input: the count of a known input is one higher, as far as it goes,
/// and a new input is counted once, under the words of its first execution; the counts of other inputs
/// stay, and so do all where nothing was executed.
pub proof fn law_executions_are_counted_by_input(
    counts: Seq<CommandCountModel>,
    command: CommandExecutionEconomicsModel,
)
    requires
        unique(counts, count_key()),
    ensures
        ({
            let after = counts_after(counts, command);
            let ran = !command.cache_hit && command.status != "skipped"@;
            let known = exists|k: int|
                0 <= k < counts.len() && (#[trigger] counts[k]).cache_key == command.cache_key;
            &&& !ran ==> after == counts
            &&& ran ==> forall|k: int|
                0 <= k < counts.len() ==> #[trigger] after[k] == if counts[k].cache_key
                    == command.cache_key {
                    CommandCountModel {
                        executions: if counts[k].executions < usize::MAX {
                            (counts[k].executions + 1) as usize
                        } else {
                            usize::MAX
                        },
                        ..counts[k]
                    }
                } else {
                    counts[k]
                }
            &&& ran && known ==> after.len() == counts.len()
            &&& ran && !known ==> after == counts.push(
                CommandCountModel {
                    cache_key: command.cache_key,
                    dedupe_key: command.dedupe_key,
                    command: command.command,
                    executions: 1,
                },
            )
        }),
{
    let p = counts_key(command.cache_key);
    let after = counts_after(counts, command);
    lemma_first_any(counts, p);
    if any(counts, p) {
        let k = choose|k: int| 0 <= k < counts.len() && p(#[trigger] counts[k]);
        assert(counts[k].cache_key == command.cache_key);
    } else {
        assert forall|k: int| 0 <= k < counts.len() implies (#[trigger] counts[k]).cache_key
            != command.cache_key by {
            assert(!p(counts[k]));
        }
    }
}

/// A duplicate is told under the words of the first execution on its input; a later execution raises the
/// number of the first duplicate with that key and changes no other.
pub proof fn law_duplicates_are_told(
    economics: RunEconomicsModel,
    counts: Seq<CommandCountModel>,
    command: CommandExecutionEconomicsModel,
    k: int,
    d: int,
)
    requires
        unique(counts, count_key()),
        0 <= k < counts.len(),
        counts[k].cache_key == command.cache_key,
        !command.cache_hit,
        command.status != "skipped"@,
        counts[k].executions < usize::MAX,
        0 <= d <= economics.duplicate_commands.len(),
        forall|i: int|
            0 <= i < d ==> (#[trigger] economics.duplicate_commands[i]).dedupe_key
                != counts[k].dedupe_key,
        d < economics.duplicate_commands.len() ==> economics.duplicate_commands[d].dedupe_key
            == counts[k].dedupe_key,
    ensures
        ({
            let before = economics.duplicate_commands;
            let after = economics.with_command(counts, command).duplicate_commands;
            let executions = (counts[k].executions + 1) as usize;
            &&& counts[k].executions == 0 ==> after == before
            &&& counts[k].executions == 1 ==> after == before.push(
                DuplicateCommandEconomicsModel {
                    dedupe_key: counts[k].dedupe_key,
                    command: counts[k].command,
                    executions: 2,
                },
            )
            &&& counts[k].executions >= 2 && d < before.len() ==> after == before.update(
                d,
                DuplicateCommandEconomicsModel { executions, ..before[d] },
            )
            &&& counts[k].executions >= 2 && d == before.len() ==> after == before
        }),
{
    crate::table::lemma_first_unique(counts, count_key(), counts_key(command.cache_key), k);
    lemma_raised_at(
        economics.duplicate_commands,
        counts[k].dedupe_key,
        (counts[k].executions + 1) as usize,
        d,
    );
}

} // verus!
