use khazad_doom::cockpit::herdr::{
    inspect_layout, is_herdr_pane_not_found_error, retry_spawn, start_tui_worker_agent_in_slot,
    start_tui_worker_agent_in_slot_once, HerdrReply, Progress,
};
use khazad_doom::cockpit::layout::{
    CockpitLayoutPlanner, RUN_STATUS_FEED_PANE, WORKER_REGION_PLACEHOLDER_PANE,
};
use khazad_doom::cockpit::types::{
    CockpitError, CockpitPaneRef, CockpitTuiWorkerRequest, CockpitWorkspaceRef,
};

#[derive(Clone)]
struct FakePane {
    pane_id: String,
    workspace_id: String,
    tab_id: String,
    label: String,
}

/// A herdr that keeps its panes in memory.
struct FakeHerdr {
    panes: Vec<FakePane>,
    next_pane: usize,
    next_tab: usize,
}

impl FakeHerdr {
    fn with_panes(panes: &[(&str, &str)], next_pane: usize) -> Self {
        FakeHerdr {
            panes: panes
                .iter()
                .map(|(pane_id, label)| FakePane {
                    pane_id: pane_id.to_string(),
                    workspace_id: "w1".to_string(),
                    tab_id: "w1:t1".to_string(),
                    label: label.to_string(),
                })
                .collect(),
            next_pane,
            next_tab: 2,
        }
    }

    fn has_label(&self, label: &str) -> bool {
        self.panes.iter().any(|pane| pane.label == label)
    }

    fn position(&self, pane_id: &str) -> Option<usize> {
        self.panes.iter().position(|pane| pane.pane_id == pane_id)
    }

    fn add_pane(&mut self, workspace_id: &str, tab_id: &str) -> String {
        let pane_id = format!("{}:p{}", workspace_id, self.next_pane);
        self.next_pane += 1;
        self.panes.push(FakePane {
            pane_id: pane_id.clone(),
            workspace_id: workspace_id.to_string(),
            tab_id: tab_id.to_string(),
            label: String::new(),
        });
        pane_id
    }

    fn run(&mut self, args: &Vec<String>) -> HerdrReply {
        let option = |name: &str| {
            let at = args.iter().position(|arg| arg == name).unwrap();
            args[at + 1].clone()
        };
        let ok = |result: String| HerdrReply::succeeded(&format!("{{\"result\": {result}}}"), "");
        let fail = |code: &str, message: &str| {
            HerdrReply::exited(
                args,
                "exit status: 1",
                &format!(
                    "{{\"error\": {{\"code\": \"{code}\", \"message\": \"{message}\"}}, \"id\": \"fake-herdr\"}}"
                ),
                "",
            )
        };
        let verb = format!("{} {}", args[0], args[1]);
        if verb == "pane list" {
            let workspace_id = option("--workspace");
            let listed = self
                .panes
                .iter()
                .filter(|pane| pane.workspace_id == workspace_id)
                .map(|pane| {
                    format!(
                        "{{\"pane_id\":\"{}\",\"workspace_id\":\"{}\",\"tab_id\":\"{}\",\"label\":\"{}\"}}",
                        pane.pane_id, pane.workspace_id, pane.tab_id, pane.label
                    )
                })
                .collect::<Vec<_>>()
                .join(",");
            ok(format!("{{\"panes\": [{listed}]}}"))
        } else if verb == "pane layout" {
            let pane_id = option("--pane");
            match self.position(&pane_id) {
                Some(_) => ok(format!("{{\"pane\": {{\"pane_id\": \"{pane_id}\"}}}}")),
                None => fail("pane_not_found", "pane not found"),
            }
        } else if verb == "tab create" {
            let workspace_id = option("--workspace");
            let tab_id = format!("{}:t{}", workspace_id, self.next_tab);
            self.next_tab += 1;
            let root = self.add_pane(&workspace_id, &tab_id);
            ok(format!(
                "{{\"tab\": {{\"tab_id\": \"{tab_id}\"}}, \"root_pane\": {{\"pane_id\": \"{root}\"}}}}"
            ))
        } else if verb == "agent start" {
            let tab_id = option("--tab");
            let workspace_id = tab_id.split(":t").next().unwrap().to_string();
            let pane_id = self.add_pane(&workspace_id, &tab_id);
            ok(format!(
                "{{\"agent\": {{\"pane_id\": \"{pane_id}\", \"terminal_id\": \"term-{pane_id}\"}}}}"
            ))
        } else if verb == "pane move" {
            let moved = self.position(&args[2]);
            let target = self.position(&option("--target-pane"));
            match (moved, target) {
                (None, _) => fail("pane_not_found", "pane not found"),
                (_, None) => fail("target_pane_not_found", "target pane not found"),
                (Some(moved), Some(_)) => {
                    self.panes[moved].tab_id = option("--tab");
                    ok(format!("{{\"pane\": {{\"pane_id\": \"{}\"}}}}", args[2]))
                }
            }
        } else if verb == "pane rename" {
            match self.position(&args[2]) {
                None => fail("pane_not_found", "pane not found"),
                Some(at) => {
                    self.panes[at].label = args[3..].join(" ");
                    ok(format!("{{\"pane\": {{\"pane_id\": \"{}\"}}}}", args[2]))
                }
            }
        } else if verb == "pane close" {
            match self.position(&args[2]) {
                None => fail("pane_not_found", "pane not found"),
                Some(at) => {
                    self.panes.remove(at);
                    ok(format!("{{\"closed\": \"{}\"}}", args[2]))
                }
            }
        } else {
            fail(
                "unsupported",
                &format!("unsupported fake herdr command: {}", args.join(" ")),
            )
        }
    }

    /// Runs a task to its end.
    fn drive<T, F: Fn(&Vec<HerdrReply>) -> Progress<T>>(
        &mut self,
        task: F,
    ) -> Result<T, CockpitError> {
        let mut replies = Vec::new();
        loop {
            match task(&replies) {
                Progress::Wait(args) => {
                    let reply = self.run(&args);
                    replies.push(reply);
                }
                Progress::Fail(error, _) => return Err(error),
                Progress::Done(value, _) => return Ok(value),
            }
        }
    }
}

fn test_workspace(anchor_pane: Option<&str>) -> CockpitWorkspaceRef {
    CockpitWorkspaceRef {
        id: "w1".to_string(),
        anchor_pane: anchor_pane.map(|id| CockpitPaneRef { id: id.to_string() }),
        existed: anchor_pane.is_none(),
    }
}

fn test_tui_worker(slice_id: &str) -> CockpitTuiWorkerRequest {
    CockpitTuiWorkerRequest {
        run_id: "kd-run".to_string(),
        slice_id: slice_id.to_string(),
        attempt: 1,
        name: format!("kd-run-{slice_id}-1"),
        argv: vec!["pi".to_string(), format!("@{slice_id}.md")],
        cwd: "/repo/worker".to_string(),
        env: Vec::new(),
    }
}

#[test]
fn tui_slot1_replacement_then_second_slot_placement_succeeds() {
    let mut herdr = FakeHerdr::with_panes(
        &[
            ("w1:p1", WORKER_REGION_PLACEHOLDER_PANE),
            ("w1:p2", RUN_STATUS_FEED_PANE),
        ],
        3,
    );
    let workspace = test_workspace(Some("w1:p1"));
    let plan = CockpitLayoutPlanner.plan(2).unwrap();

    herdr
        .drive(|replies| {
            start_tui_worker_agent_in_slot_once(
                &workspace,
                &plan.worker_slots[0],
                &test_tui_worker("SLICE-1"),
                replies,
                0,
            )
        })
        .unwrap();
    let second = herdr
        .drive(|replies| {
            start_tui_worker_agent_in_slot_once(
                &workspace,
                &plan.worker_slots[1],
                &test_tui_worker("SLICE-2"),
                replies,
                0,
            )
        })
        .unwrap();

    assert_eq!(second.slot_name, "worker-2");
    assert_eq!(second.slot_index, 2);
    assert_eq!(
        second.pane_label,
        "worker-2: Worker kd-run/SLICE-2 attempt 1"
    );
}

#[test]
fn tui_slot1_retry_after_close_recreates_placeholder() {
    let mut herdr = FakeHerdr::with_panes(&[("w1:p2", RUN_STATUS_FEED_PANE)], 3);
    let workspace = test_workspace(None);
    let plan = CockpitLayoutPlanner.plan(1).unwrap();

    let opened = herdr
        .drive(|replies| {
            start_tui_worker_agent_in_slot_once(
                &workspace,
                &plan.worker_slots[0],
                &test_tui_worker("SLICE-RETRY"),
                replies,
                0,
            )
        })
        .unwrap();

    assert_eq!(opened.slot_name, "worker-1");
    assert_eq!(
        opened.pane_label,
        "worker-1: Worker kd-run/SLICE-RETRY attempt 1"
    );
    assert!(herdr.has_label(RUN_STATUS_FEED_PANE));
    assert!(herdr.has_label("worker-1: Worker kd-run/SLICE-RETRY attempt 1"));
}

#[test]
fn tui_slot1_retry_replaces_existing_worker_before_dashboard() {
    let mut herdr = FakeHerdr::with_panes(
        &[
            ("w1:p2", RUN_STATUS_FEED_PANE),
            ("w1:p4", "worker-1: Worker kd-run/OLD attempt 1"),
        ],
        5,
    );
    let workspace = test_workspace(None);
    let plan = CockpitLayoutPlanner.plan(1).unwrap();

    herdr
        .drive(|replies| {
            start_tui_worker_agent_in_slot_once(
                &workspace,
                &plan.worker_slots[0],
                &test_tui_worker("SLICE-RETRY"),
                replies,
                0,
            )
        })
        .unwrap();

    assert!(herdr.has_label(RUN_STATUS_FEED_PANE));
    assert_eq!(
        herdr
            .panes
            .iter()
            .filter(|pane| pane.label.starts_with("worker-1: "))
            .count(),
        1
    );
    assert!(herdr.has_label("worker-1: Worker kd-run/SLICE-RETRY attempt 1"));
}

#[test]
fn focused_existing_workspace_resolves_anchor_by_label_not_first_pane() {
    let mut herdr = FakeHerdr::with_panes(
        &[
            ("w1:p2", RUN_STATUS_FEED_PANE),
            ("w1:p4", "worker-1: Worker kd-run/SLICE-1 attempt 1"),
        ],
        5,
    );
    let workspace = test_workspace(None);

    let inspection = herdr
        .drive(|replies| inspect_layout(&workspace, replies))
        .unwrap();

    assert_eq!(inspection.root_pane_id.as_deref(), Some("w1:p4"));
}

#[test]
fn a_worker_starts_in_its_slot() {
    let mut herdr = FakeHerdr::with_panes(
        &[
            ("w1:p1", WORKER_REGION_PLACEHOLDER_PANE),
            ("w1:p2", RUN_STATUS_FEED_PANE),
        ],
        3,
    );
    let workspace = test_workspace(Some("w1:p1"));
    let plan = CockpitLayoutPlanner.plan(1).unwrap();
    let opened = herdr
        .drive(|replies| {
            start_tui_worker_agent_in_slot(
                &workspace,
                &plan.worker_slots[0],
                &test_tui_worker("SLICE-1"),
                replies,
            )
        })
        .unwrap();
    assert_eq!(opened.slot_name, "worker-1");
    assert!(!herdr.has_label(WORKER_REGION_PLACEHOLDER_PANE));
}

#[test]
fn a_listing_that_is_no_json_fails_the_inspection() {
    let workspace = test_workspace(None);
    let replies = vec![HerdrReply::succeeded("not json", "")];
    assert!(matches!(
        inspect_layout(&workspace, &replies),
        Progress::Fail(_, 1)
    ));
}

#[test]
fn a_missing_pane_is_known_by_the_words_of_the_failure() {
    let args = vec!["pane".to_string(), "close".to_string()];
    match HerdrReply::exited(&args, "exit status: 1", "pane_not_found", "") {
        HerdrReply::Failed(message) => {
            assert!(message.starts_with("herdr pane close exited with exit status: 1: "));
            assert!(is_herdr_pane_not_found_error(&CockpitError { message }));
        }
        HerdrReply::Output { .. } => panic!("the command failed"),
    }
    match HerdrReply::timed_out(&args, 5, "", "") {
        HerdrReply::Failed(message) => {
            assert!(message.contains("timed out after 5s"));
            assert!(!is_herdr_pane_not_found_error(&CockpitError { message }));
        }
        HerdrReply::Output { .. } => panic!("the command was stopped"),
    }
}

#[test]
fn a_busy_command_is_started_five_times() {
    assert!((1..5).all(|attempts| retry_spawn(true, attempts)));
    assert!(!retry_spawn(true, 5));
    assert!(!retry_spawn(false, 1));
}
