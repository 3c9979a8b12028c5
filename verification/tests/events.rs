use khazad_doom::event_kind::{EventKind, RUN_ERROR};
use khazad_doom::events::{value_to_text, WorkflowEvent};
use khazad_doom::json::{get, read_integer, read_text_list};
use khazad_doom::payloads::{
    CockpitWorkerReadyPayload, ImplementationSummaryPayload, ParallelLayerPayload,
    RunCancelRequestedPayload, RunErrorPayload, SliceStartedPayload,
};
use khazad_doom::shell::{bounded, shell_quote, strip_linux_deleted_exe_suffix};
use khazad_doom::time::Timestamp;
use khazad_doom::typed::TypedEventPayload;

#[test]
fn typed_event_vocabulary_preserves_legacy_and_unknown_kinds() {
    assert_eq!(EventKind::from(RUN_ERROR), EventKind::RunError);
    assert_eq!(EventKind::RunError.as_str(), RUN_ERROR);
    assert_eq!(
        EventKind::from("future_event_kind"),
        EventKind::Unknown("future_event_kind".to_string())
    );
}

#[test]
fn typed_event_payload_binds_kind_at_compile_time() {
    let payload = RunErrorPayload::new("boom");
    assert_eq!(RunErrorPayload::event_kind(), EventKind::RunError);
    assert_eq!(payload.error, "boom");
}

#[test]
fn names_of_events_are_kept() {
    for name in ["run_error", "progress", "slice_merged", "", "future_event_kind"] {
        assert_eq!(EventKind::from(name).as_str(), name);
    }
    assert_eq!(SliceStartedPayload::event_kind().as_str(), "slice_started");
}

#[test]
fn events_are_of_the_kind_of_their_constructor() {
    let event = WorkflowEvent::parallel_layer_started(ParallelLayerPayload::started(vec![
        "slice-001".to_string(),
    ]));
    assert_eq!(event.kind(), &EventKind::ParallelLayerStarted);
    assert_eq!(event.payload().slices, vec!["slice-001".to_string()]);
}

#[test]
fn older_payloads_are_read_as_far_as_they_go() {
    let decoded = RunErrorPayload::from_value(Some(RunErrorPayload::new("boom")), "{}");
    assert_eq!(decoded.error, "boom");
    let loose = RunErrorPayload::from_value(None, "{\"error\": 7}");
    assert_eq!(loose.error, "7");
    let reason =
        RunCancelRequestedPayload::from_value(None, "{\"reason\": \"stop\", \"active\": 1}");
    assert_eq!(reason.reason, "stop");
    let ready = CockpitWorkerReadyPayload::from_value(None, "{\"pane_id\": \"pane-1\"}");
    assert_eq!(ready.pane_id, "pane-1");
}

#[test]
fn an_implementation_summary_is_read_from_its_document() {
    let document = "{\"completed_slices\": [{\"id\": \"S1\"}, 2], \"integration_gate\": {\"ok\": true}, \
        \"integration_repair\": null, \"verify_profile\": \" fast \", \"final_sha\": 12}";
    let summary = ImplementationSummaryPayload::from_value(None, document);
    assert_eq!(summary.completed_slices, vec!["{\"id\":\"S1\"}", "2"]);
    assert_eq!(summary.integration_gate.as_deref(), Some("{\"ok\":true}"));
    assert_eq!(summary.pre_repair_integration_gate, None);
    assert_eq!(summary.integration_repair, None);
    assert_eq!(summary.exit_states, None);
    assert_eq!(summary.verify_profile, "fast");
    assert_eq!(summary.final_sha, "12");
    let decoded = ImplementationSummaryPayload::from_value(Some(summary.clone()), "{}");
    assert_eq!(decoded, summary);
    let kind = <ImplementationSummaryPayload as TypedEventPayload>::event_kind();
    assert_eq!(kind, EventKind::ImplementationSummary);
}

#[test]
fn plain_values_have_a_text() {
    assert_eq!(value_to_text("\"a\""), Some("a".to_string()));
    assert_eq!(value_to_text("12"), Some("12".to_string()));
    assert_eq!(value_to_text("-12"), Some("-12".to_string()));
    assert_eq!(
        value_to_text("18446744073709551615"),
        Some("18446744073709551615".to_string())
    );
    assert_eq!(value_to_text("5.0"), Some("5".to_string()));
    assert_eq!(value_to_text("1.5e3"), Some("1500".to_string()));
    assert_eq!(value_to_text("-0.25"), Some("-0.25".to_string()));
    assert_eq!(
        value_to_text("18446744073709551616"),
        Some("18446744073709552000".to_string())
    );
    assert_eq!(value_to_text("true"), Some("true".to_string()));
    assert_eq!(value_to_text("[1]"), None);
    assert_eq!(value_to_text("null"), None);
}

#[test]
fn documents_are_read_one_level_at_a_time() {
    let document = "{\"a\": {\"b\": [1, 2]}, \"n\": -5}";
    assert_eq!(
        get(document, "a").map(|a| get(&a, "b")),
        Some(Some("[1,2]".to_string()))
    );
    assert_eq!(read_integer(&get(document, "n")), Some(-5));
    assert_eq!(get(document, "x"), None);
    assert_eq!(
        read_text_list("[\"a\", \"\\u00e9\"]"),
        Some(vec!["a".to_string(), "\u{e9}".to_string()])
    );
    assert_eq!(read_text_list("[\"a\", 1]"), None);
    assert_eq!(read_text_list("{"), None);
}

#[test]
fn words_are_quoted_for_the_shell() {
    assert_eq!(shell_quote("plain"), "plain");
    assert_eq!(shell_quote("two words"), "'two words'");
    assert_eq!(shell_quote("it's"), "'it'\\''s'");
    assert_eq!(shell_quote(""), "");
}

#[test]
fn long_texts_are_cut() {
    let long = "x".repeat(5000);
    assert!(bounded(&long).len() < long.len());
    assert_eq!(bounded("short"), "short");
}

#[test]
fn a_deleted_mark_is_dropped() {
    assert_eq!(
        strip_linux_deleted_exe_suffix("/bin/kd (deleted)"),
        Some("/bin/kd".to_string())
    );
    assert_eq!(strip_linux_deleted_exe_suffix("/bin/kd"), None);
}

#[test]
fn times_are_written_and_read_back() {
    let at = Timestamp::parse("2026-07-10T02:00:00.25+02:00").unwrap();
    assert_eq!(at.seconds(), 1_783_641_600);
    assert_eq!(at.nanos(), 250_000_000);
    assert_eq!(at.to_rfc3339(), "2026-07-10T00:00:00.250+00:00");
    assert_eq!(Timestamp::parse(&at.to_rfc3339()), Some(at));
    assert_eq!(Timestamp::parse("noon"), None);
    assert!(at.earlier(&at.checked_add_seconds(1).unwrap()));
    assert_eq!(Timestamp::new(0, 2_000_000_000), None);
}
