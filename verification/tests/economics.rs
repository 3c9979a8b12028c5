use khazad_doom::economics::{
    agent_call, CommandExecutionEconomics, RunEconomics, RunEconomicsRecorder, RunnerMetadata,
    Usage,
};

/// Writes a checkpoint where one is due.
fn checkpoint(recorder: &mut RunEconomicsRecorder, force: bool, now_ns: u128) -> Option<RunEconomics> {
    let due = recorder.checkpoint(force, now_ns);
    if due.is_some() {
        recorder.checkpoint_written(true, now_ns);
    }
    due
}

#[test]
fn command_counts_and_duplicates_are_maintained_incrementally() {
    let mut recorder = RunEconomicsRecorder::new("auto", true, 2, 1);
    let command = CommandExecutionEconomics {
        command: "cargo test".to_string(),
        status: "passed".to_string(),
        dedupe_key: "cargo-test".to_string(),
        cache_key: "same-input".to_string(),
        ..CommandExecutionEconomics::default()
    };
    recorder.record_command(command.clone());
    recorder.record_command(command.clone());
    recorder.record_command(command);

    let snapshot = recorder.snapshot();
    assert_eq!(snapshot.command_execution_count, 3);
    assert_eq!(snapshot.duplicate_command_count, 1);
    assert_eq!(snapshot.duplicate_commands[0].executions, 3);
    assert_eq!(
        snapshot
            .sla_violations
            .iter()
            .filter(|violation| {
                violation.as_str() == "duplicate daemon command executions detected"
            })
            .count(),
        1
    );
}

#[test]
fn bounded_economics_checkpointing_forces_final_snapshot() {
    let mut recorder = RunEconomicsRecorder::new("auto", true, 2, 1);
    recorder.keep_snapshots(60_000_000_000);
    let live = checkpoint(&mut recorder, true, 0).expect("first snapshot");

    for index in 0..100 {
        recorder.finish_phase(&format!("worker-{index}"), 1);
        assert_eq!(checkpoint(&mut recorder, false, index), None);
    }
    assert_eq!(live.economics_checkpoint_count, 1);
    assert!(live.phase_durations.is_empty());

    let persisted = checkpoint(&mut recorder, true, 100).expect("final snapshot");
    let final_snapshot = recorder.snapshot();
    assert_eq!(final_snapshot.phase_durations.len(), 100);
    assert_eq!(final_snapshot.economics_checkpoint_count, 2);
    assert_eq!(persisted.phase_durations.len(), 100);
    assert_eq!(persisted.economics_checkpoint_count, 2);
}

#[test]
fn a_checkpoint_that_was_not_written_is_due_again() {
    let mut recorder = RunEconomicsRecorder::new("auto", true, 2, 1);
    recorder.keep_snapshots(0);
    assert!(recorder.checkpoint(true, 0).is_some());
    recorder.checkpoint_written(false, 0);
    let again = checkpoint(&mut recorder, true, 1).unwrap();
    assert_eq!(again.economics_checkpoint_count, 1);
}

#[test]
fn live_snapshot_uses_complete_json_artifact_replacement() {
    let mut recorder = RunEconomicsRecorder::new("auto", true, 2, 1);
    recorder.keep_snapshots(0);
    let snapshot = checkpoint(&mut recorder, true, 0).unwrap();
    assert_eq!(snapshot.repair_policy, "auto");
    assert!(snapshot.gate_fail_fast);

    recorder.finish_phase("worker_dispatch", 3);
    let updated = checkpoint(&mut recorder, false, 1).unwrap();
    assert!(updated
        .phase_durations
        .iter()
        .any(|phase| phase.phase == "worker_dispatch"));
}

#[test]
fn the_last_time_of_a_phase_counts() {
    let mut recorder = RunEconomicsRecorder::new("auto", false, 2, 1);
    recorder.finish_phase("gate", 5);
    recorder.finish_phase("gate", 7);
    let snapshot = recorder.snapshot();
    assert_eq!(snapshot.phase_durations.len(), 1);
    assert_eq!(snapshot.phase_durations[0].duration_ms, 7);
}

#[test]
fn agent_calls_carry_their_runner_and_usage() {
    let metadata = RunnerMetadata {
        profile: "p".to_string(),
        model: "m".to_string(),
        ..RunnerMetadata::default()
    };
    let usage = Usage {
        input_tokens: 3,
        output_tokens: 4,
    };
    let call = agent_call(
        "worker", "slice-001", 1, "worker", "pi", &metadata, "ok", 10, 2, Some(&usage), "",
    );
    assert_eq!(call.agent_profile, "p");
    assert_eq!(call.agent_model, "m");
    assert_eq!(call.input_tokens, 3);
    assert_eq!(call.output_tokens, 4);
    let mut recorder = RunEconomicsRecorder::new("auto", false, 2, 1);
    recorder.record_agent_call(call);
    recorder.set_repair_attempts(2);
    recorder.record_runtime_observation(1, 2, 3, 4);
    let snapshot = recorder.snapshot();
    assert_eq!(snapshot.agent_call_count, 1);
    assert_eq!(snapshot.repair_attempts, 2);
    assert_eq!(snapshot.worker_observation_event_count, 1);
    assert_eq!(snapshot.worker_observation_bytes, 2);
    assert_eq!(snapshot.worker_observation_state_write_count, 3);
    assert_eq!(snapshot.supervisor_poll_count, 4);
}

#[test]
fn executions_are_counted_by_their_input() {
    let mut recorder = RunEconomicsRecorder::new("auto", true, 2, 1);
    for (dedupe_key, cache_key, status, cache_hit) in [
        ("test", "one", "passed", false),
        ("test", "two", "passed", false),
        ("lint", "one", "passed", false),
        ("test", "one", "passed", true),
        ("test", "one", "skipped", false),
        ("test", "two", "failed", false),
    ] {
        recorder.record_command(CommandExecutionEconomics {
            status: status.to_string(),
            dedupe_key: dedupe_key.to_string(),
            cache_key: cache_key.to_string(),
            cache_hit,
            ..CommandExecutionEconomics::default()
        });
    }
    let snapshot = recorder.snapshot();
    assert_eq!(snapshot.command_execution_count, 4);
    assert_eq!(snapshot.cache_hits, 1);
    assert_eq!(snapshot.cache_misses, 4);
    assert_eq!(snapshot.duplicate_command_count, 2);
    assert_eq!(snapshot.duplicate_commands.len(), 2);
    for duplicate in &snapshot.duplicate_commands {
        assert_eq!(duplicate.dedupe_key, "test");
        assert_eq!(duplicate.executions, 2);
    }
}
