use khazad_doom::cockpit::adapter::{Cockpit, CockpitAdapter};
use khazad_doom::cockpit::commands::{
    cockpit_mode_transport_arg, reusable_khazad_binary, take_cockpit_mode_transport_arg,
    worker_activity_pane_command, worker_pane_label, workspace_label_for_run,
};
use khazad_doom::cockpit::layout::{
    CockpitLayoutPlanner, RUN_STATUS_FEED_PANE, WORKER_REGION_PLACEHOLDER_PANE,
};
use khazad_doom::cockpit::types::{
    CockpitDashboardLayout, CockpitError, CockpitLaunch, CockpitLayoutDirection,
    CockpitLayoutInspection, CockpitLayoutPane, CockpitLayoutPlan, CockpitOpened, CockpitPaneRef,
    CockpitPaneRequest, CockpitRunRequest, CockpitTuiWorkerLaunch, CockpitTuiWorkerOpened,
    CockpitTuiWorkerRequest, CockpitWorkerLaunch, CockpitWorkerOpened, CockpitWorkerPaneRequest,
    CockpitWorkerPlacement, CockpitWorkerSlot, CockpitWorkspaceRef, EnvVar,
};
use khazad_doom::domain::{CockpitMode, Run, RunStatus};
use khazad_doom::time::Timestamp;
use std::sync::{Arc, Mutex};

#[derive(Clone, Default)]
struct FakeLayout {
    dashboard: bool,
    worker_slots: Vec<String>,
}

#[derive(Clone, Default)]
struct FakeCockpitAdapter {
    calls: Arc<Mutex<Vec<String>>>,
    layout: Arc<Mutex<FakeLayout>>,
    workspace_existed: bool,
}

impl FakeCockpitAdapter {
    fn existing_workspace() -> Self {
        Self {
            workspace_existed: true,
            ..Self::default()
        }
    }

    fn calls(&self) -> Vec<String> {
        self.calls.lock().unwrap().clone()
    }

    fn note(&self, call: String) {
        self.calls.lock().unwrap().push(call);
    }
}

impl CockpitAdapter for FakeCockpitAdapter {
    fn name(&self) -> &'static str {
        "fake-herdr"
    }

    fn open_or_focus_run_workspace(
        &mut self,
        request: &CockpitRunRequest,
    ) -> Result<CockpitWorkspaceRef, CockpitError> {
        self.note(format!("workspace:{}", request.workspace_label));
        Ok(CockpitWorkspaceRef {
            id: "workspace-1".to_string(),
            anchor_pane: Some(CockpitPaneRef {
                id: "pane-1".to_string(),
            }),
            existed: self.workspace_existed,
        })
    }

    fn create_read_only_pane(
        &mut self,
        _workspace: &CockpitWorkspaceRef,
        request: &CockpitPaneRequest,
    ) -> Result<CockpitPaneRef, CockpitError> {
        self.note(format!("pane:{}:{}", request.label, request.command));
        Ok(CockpitPaneRef {
            id: format!("pane-{}", request.label.len()),
        })
    }

    fn inspect_layout(
        &mut self,
        _workspace: &CockpitWorkspaceRef,
    ) -> Result<CockpitLayoutInspection, CockpitError> {
        self.note("layout:inspect".to_string());
        let layout = self.layout.lock().unwrap();
        let mut panes = vec![CockpitLayoutPane {
            id: "pane-1".to_string(),
            label: WORKER_REGION_PLACEHOLDER_PANE.to_string(),
            tab_id: "tab-1".to_string(),
        }];
        if layout.dashboard {
            panes.push(CockpitLayoutPane {
                id: "pane-dashboard".to_string(),
                label: RUN_STATUS_FEED_PANE.to_string(),
                tab_id: "tab-1".to_string(),
            });
        }
        for slot in &layout.worker_slots {
            panes.push(CockpitLayoutPane {
                id: format!("pane-{slot}"),
                label: format!("{slot}: fake worker"),
                tab_id: "tab-1".to_string(),
            });
        }
        Ok(CockpitLayoutInspection {
            root_pane_id: Some("pane-1".to_string()),
            panes,
        })
    }

    fn ensure_dashboard_pane(
        &mut self,
        _workspace: &CockpitWorkspaceRef,
        dashboard: &CockpitDashboardLayout,
        request: &CockpitPaneRequest,
    ) -> Result<CockpitPaneRef, CockpitError> {
        self.note(format!(
            "layout:dashboard:{}:{}:{}",
            request.label,
            dashboard.direction.as_herdr_arg(),
            dashboard.ratio
        ));
        self.layout.lock().unwrap().dashboard = true;
        Ok(CockpitPaneRef {
            id: "pane-dashboard".to_string(),
        })
    }

    fn cleanup_placeholder_root_pane(
        &mut self,
        _workspace: &CockpitWorkspaceRef,
        slot: &CockpitWorkerSlot,
        replacement_label: &str,
    ) -> Result<(), CockpitError> {
        self.note(format!(
            "layout:cleanup-root:{}:{}",
            slot.name, replacement_label
        ));
        Ok(())
    }

    fn place_worker_slot_pane(
        &mut self,
        _workspace: &CockpitWorkspaceRef,
        _plan: &CockpitLayoutPlan,
        slot: &CockpitWorkerSlot,
        request: &CockpitPaneRequest,
    ) -> Result<CockpitWorkerPlacement, CockpitError> {
        let pane_label = slot.pane_label(&request.label);
        self.note(format!(
            "layout:worker-slot:{}:{}:{}",
            slot.name, pane_label, request.command
        ));
        self.layout
            .lock()
            .unwrap()
            .worker_slots
            .push(slot.name.clone());
        Ok(CockpitWorkerPlacement {
            pane: CockpitPaneRef {
                id: format!("pane-{}", slot.name),
            },
            slot_name: slot.name.clone(),
            slot_index: slot.index,
            slot_region: slot.region.clone(),
            pane_label,
        })
    }

    fn start_tui_worker_agent(
        &mut self,
        workspace: &CockpitWorkspaceRef,
        request: &CockpitTuiWorkerRequest,
    ) -> Result<CockpitTuiWorkerOpened, CockpitError> {
        self.note(format!(
            "agent_start:{}:{}:{}:{}:{}:{}",
            workspace.id,
            request.run_id,
            request.slice_id,
            request.attempt,
            request.name,
            request.argv.join(" ")
        ));
        Ok(CockpitTuiWorkerOpened {
            adapter: self.name().to_string(),
            mode: CockpitMode::Herdr,
            workspace_label: String::new(),
            agent_name: request.name.clone(),
            pane_label: String::new(),
            pane_id: "pane-tui".to_string(),
            terminal_id: "terminal-tui".to_string(),
            slot_name: String::new(),
            slot_index: 0,
            slot_region: String::new(),
        })
    }

    fn start_tui_worker_agent_in_slot(
        &mut self,
        workspace: &CockpitWorkspaceRef,
        _plan: &CockpitLayoutPlan,
        slot: &CockpitWorkerSlot,
        request: &CockpitTuiWorkerRequest,
    ) -> Result<CockpitTuiWorkerOpened, CockpitError> {
        let pane_label = slot.pane_label(&worker_pane_label(
            &request.run_id,
            &request.slice_id,
            request.attempt,
        ));
        self.note(format!(
            "layout:tui-worker-slot:{}:{}:{}:{}:{}:{}",
            slot.name,
            pane_label,
            workspace.id,
            request.run_id,
            request.slice_id,
            request.argv.join(" ")
        ));
        self.layout
            .lock()
            .unwrap()
            .worker_slots
            .push(slot.name.clone());
        Ok(CockpitTuiWorkerOpened {
            adapter: self.name().to_string(),
            mode: CockpitMode::Herdr,
            workspace_label: String::new(),
            agent_name: request.name.clone(),
            pane_label,
            pane_id: format!("pane-{}", slot.name),
            terminal_id: format!("terminal-{}", slot.name),
            slot_name: slot.name.clone(),
            slot_index: slot.index,
            slot_region: slot.region.clone(),
        })
    }

    fn close_pane(&mut self, pane_id: &str) -> Result<(), CockpitError> {
        self.note(format!("pane_close:{pane_id}"));
        Ok(())
    }

    fn send_agent_message(&mut self, target: &str, text: &str) -> Result<(), CockpitError> {
        self.note(format!("agent_send:{target}:{text}"));
        Ok(())
    }
}

/// An adapter that can open a workspace and a pane, and nothing else.
struct BareAdapter;

impl CockpitAdapter for BareAdapter {
    fn name(&self) -> &'static str {
        "bare"
    }

    fn open_or_focus_run_workspace(
        &mut self,
        _request: &CockpitRunRequest,
    ) -> Result<CockpitWorkspaceRef, CockpitError> {
        Ok(CockpitWorkspaceRef {
            id: "w".to_string(),
            anchor_pane: None,
            existed: false,
        })
    }

    fn create_read_only_pane(
        &mut self,
        _workspace: &CockpitWorkspaceRef,
        _request: &CockpitPaneRequest,
    ) -> Result<CockpitPaneRef, CockpitError> {
        Ok(CockpitPaneRef {
            id: "p".to_string(),
        })
    }
}

fn request(run_id: &str, feed_command: &str) -> CockpitRunRequest {
    CockpitRunRequest {
        repo_path: "/repo".to_string(),
        khazad_home: "/khazad-home".to_string(),
        workspace_label: workspace_label_for_run(run_id),
        feed_command: feed_command.to_string(),
    }
}

#[test]
fn terminal_notification_cockpit_uses_inert_agent_send_surface() {
    let adapter = FakeCockpitAdapter::default();

    let sent = Cockpit::new(CockpitMode::Herdr, adapter.clone())
        .send_agent_message("agent-1", "{\"run_id\":\"kd-test\"}")
        .unwrap();

    assert_eq!(sent.adapter, "fake-herdr");
    assert_eq!(sent.target, "agent-1");
    assert_eq!(sent.surface, "herdr agent send");
    assert_eq!(
        adapter.calls(),
        vec!["agent_send:agent-1:{\"run_id\":\"kd-test\"}".to_string()]
    );
}

#[test]
fn cockpit_layout_planner_places_dashboard_right_workers_left_for_one_to_four_workers() {
    let planner = CockpitLayoutPlanner;

    for workers in 1..=4 {
        let plan = planner.plan(workers).unwrap();

        assert_eq!(plan.worker_count, workers);
        assert_eq!(plan.dashboard.region, "right-dashboard");
        assert_eq!(plan.dashboard.split_from_slot, "worker-1");
        assert_eq!(plan.dashboard.direction, CockpitLayoutDirection::Right);
        assert_eq!(plan.dashboard.ratio, "0.68");
        assert!(plan
            .worker_slots
            .iter()
            .all(|slot| slot.region == "left-worker-region"));
        assert!(plan
            .worker_slots
            .iter()
            .all(|slot| !slot.name.to_lowercase().contains("operator")));
    }
}

#[test]
fn planner_refuses_no_workers_and_too_many() {
    assert!(CockpitLayoutPlanner.plan(0).is_err());
    assert!(CockpitLayoutPlanner.plan(5).is_err());
}

#[test]
fn cockpit_layout_planner_uses_stable_worker_slots_and_v2_three_worker_fallback() {
    let planner = CockpitLayoutPlanner;
    let plan = planner.plan(4).unwrap();
    let names = plan
        .worker_slots
        .iter()
        .map(|slot| slot.name.as_str())
        .collect::<Vec<_>>();

    assert_eq!(names, vec!["worker-1", "worker-2", "worker-3", "worker-4"]);
    assert_eq!(
        plan.worker_slots[1].split.as_ref().unwrap().anchor_slot,
        "worker-1"
    );
    assert_eq!(
        plan.worker_slots[1].split.as_ref().unwrap().direction,
        CockpitLayoutDirection::Right
    );
    assert_eq!(
        plan.worker_slots[2].split.as_ref().unwrap().anchor_slot,
        "worker-1"
    );
    assert_eq!(
        plan.worker_slots[2].split.as_ref().unwrap().direction,
        CockpitLayoutDirection::Down
    );
    assert_eq!(
        plan.worker_slots[3].split.as_ref().unwrap().anchor_slot,
        "worker-2"
    );
    assert_eq!(
        plan.worker_slots[3].split.as_ref().unwrap().direction,
        CockpitLayoutDirection::Down
    );
}

#[test]
fn worker_slots_do_not_move_when_workers_join() {
    let two = CockpitLayoutPlanner.plan(2).unwrap();
    let four = CockpitLayoutPlanner.plan(4).unwrap();
    assert_eq!(two.worker_slots[0].name, four.worker_slots[0].name);
    assert_eq!(two.worker_slots[1].name, four.worker_slots[1].name);
    assert_eq!(
        two.worker_slots[1].split.as_ref().unwrap().anchor_slot,
        four.worker_slots[1].split.as_ref().unwrap().anchor_slot
    );
}

#[test]
fn cockpit_layout_opens_dashboard_without_default_operator_column() {
    let adapter = FakeCockpitAdapter::default();
    let request = request("kd-test", "khazad-doom monitor --run kd-test");

    let opened = Cockpit::new(CockpitMode::Auto, adapter.clone())
        .open_run(&request)
        .unwrap();

    assert_eq!(
        opened,
        CockpitLaunch::Opened(CockpitOpened {
            adapter: "fake-herdr".to_string(),
            mode: CockpitMode::Auto,
            workspace_label: "Khazad-Doom kd-test".to_string(),
            pane_labels: vec![RUN_STATUS_FEED_PANE.to_string()],
        })
    );
    let calls = adapter.calls();
    assert_eq!(
        calls,
        vec![
            "workspace:Khazad-Doom kd-test".to_string(),
            "layout:inspect".to_string(),
            "layout:dashboard:Dashboard:right:0.68".to_string(),
        ]
    );
    assert!(calls.iter().all(|call| !call.contains("Operator")));
}

#[test]
fn cockpit_open_or_focus_existing_workspace_does_not_create_duplicate_panes() {
    let adapter = FakeCockpitAdapter::existing_workspace();
    let request = request("kd-test", "khazad-doom monitor --run kd-test");

    let opened = Cockpit::new(CockpitMode::Herdr, adapter.clone())
        .open_or_focus_run(&request)
        .unwrap();

    assert_eq!(opened.action, "focused_existing");
    assert!(opened.pane_labels.is_empty());
    assert_eq!(adapter.calls(), vec!["workspace:Khazad-Doom kd-test"]);
}

#[test]
fn cockpit_direct_mode_skips_adapter() {
    let adapter = FakeCockpitAdapter::default();
    let request = request("kd-test", "feed");

    let launched = Cockpit::new(CockpitMode::Direct, adapter.clone())
        .open_run(&request)
        .unwrap();

    assert_eq!(launched, CockpitLaunch::SkippedDirect);
    assert!(adapter.calls().is_empty());
}

#[test]
fn cockpit_layout_worker_pane_uses_deterministic_slot_and_run_slice_label() {
    let adapter = FakeCockpitAdapter::default();
    let request = request("kd-run", "feed");
    let worker = CockpitWorkerPaneRequest {
        run_id: "kd-run".to_string(),
        slice_id: "SLICE-1".to_string(),
        attempt: 2,
        command: "/bin/sh wrapper.sh".to_string(),
        cwd: "/repo/worker".to_string(),
        env: vec![EnvVar {
            key: "KHAZAD_COCKPIT_WORKER".to_string(),
            value: "1".to_string(),
        }],
    };

    let opened = Cockpit::new(CockpitMode::Herdr, adapter.clone())
        .open_worker_pane(&request, &worker)
        .unwrap();

    assert_eq!(
        opened,
        CockpitWorkerLaunch::Opened(CockpitWorkerOpened {
            adapter: "fake-herdr".to_string(),
            mode: CockpitMode::Herdr,
            workspace_label: "Khazad-Doom kd-run".to_string(),
            pane_label: "worker-1: Worker kd-run/SLICE-1 attempt 2".to_string(),
            pane_id: "pane-worker-1".to_string(),
            slot_name: "worker-1".to_string(),
            slot_index: 1,
            slot_region: "left-worker-region".to_string(),
        })
    );
    let calls = adapter.calls();
    assert_eq!(calls[0], "workspace:Khazad-Doom kd-run");
    assert!(calls.contains(&"layout:dashboard:Dashboard:right:0.68".to_string()));
    assert!(calls.iter().any(|call| call.starts_with(
        "layout:worker-slot:worker-1:worker-1: Worker kd-run/SLICE-1 attempt 2:/bin/sh wrapper.sh"
    )));
}

#[test]
fn cockpit_layout_worker_panes_advance_to_next_stable_slot() {
    let adapter = FakeCockpitAdapter::default();
    let request = request("kd-run", "feed");
    let first = CockpitWorkerPaneRequest {
        run_id: "kd-run".to_string(),
        slice_id: "SLICE-1".to_string(),
        attempt: 1,
        command: "first".to_string(),
        cwd: "/repo/worker-1".to_string(),
        env: Vec::new(),
    };
    let second = CockpitWorkerPaneRequest {
        run_id: "kd-run".to_string(),
        slice_id: "SLICE-2".to_string(),
        attempt: 1,
        command: "second".to_string(),
        cwd: "/repo/worker-2".to_string(),
        env: Vec::new(),
    };
    let mut cockpit = Cockpit::new(CockpitMode::Herdr, adapter.clone());

    cockpit.open_worker_pane(&request, &first).unwrap();
    let opened = cockpit.open_worker_pane(&request, &second).unwrap();

    assert_eq!(
        opened,
        CockpitWorkerLaunch::Opened(CockpitWorkerOpened {
            adapter: "fake-herdr".to_string(),
            mode: CockpitMode::Herdr,
            workspace_label: "Khazad-Doom kd-run".to_string(),
            pane_label: "worker-2: Worker kd-run/SLICE-2 attempt 1".to_string(),
            pane_id: "pane-worker-2".to_string(),
            slot_name: "worker-2".to_string(),
            slot_index: 2,
            slot_region: "left-worker-region".to_string(),
        })
    );
}

#[test]
fn cockpit_tui_worker_uses_layout_v2_worker_slot() {
    let adapter = FakeCockpitAdapter::default();
    let request = request("kd-run", "feed");
    let worker = CockpitTuiWorkerRequest {
        run_id: "kd-run".to_string(),
        slice_id: "SLICE-1".to_string(),
        attempt: 2,
        name: "kd-run-SLICE-1-2".to_string(),
        argv: vec!["pi".to_string(), "@prompt.md".to_string()],
        cwd: "/repo/worker".to_string(),
        env: vec![EnvVar {
            key: "KHAZAD_WORKER_RESULT_PATH".to_string(),
            value: "/repo/.workflow/runs/kd-run/outputs/result.json".to_string(),
        }],
    };

    let opened = Cockpit::new(CockpitMode::Herdr, adapter.clone())
        .open_tui_worker_agent(&request, &worker)
        .unwrap();

    assert_eq!(
        opened,
        CockpitTuiWorkerLaunch::Opened(CockpitTuiWorkerOpened {
            adapter: "fake-herdr".to_string(),
            mode: CockpitMode::Herdr,
            workspace_label: "Khazad-Doom kd-run".to_string(),
            agent_name: "kd-run-SLICE-1-2".to_string(),
            pane_label: "worker-1: Worker kd-run/SLICE-1 attempt 2".to_string(),
            pane_id: "pane-worker-1".to_string(),
            terminal_id: "terminal-worker-1".to_string(),
            slot_name: "worker-1".to_string(),
            slot_index: 1,
            slot_region: "left-worker-region".to_string(),
        })
    );
    let calls = adapter.calls();
    assert_eq!(calls[0], "workspace:Khazad-Doom kd-run");
    assert!(calls.contains(&"layout:dashboard:Dashboard:right:0.68".to_string()));
    assert!(calls.iter().any(|call| call.starts_with(
        "layout:tui-worker-slot:worker-1:worker-1: Worker kd-run/SLICE-1 attempt 2"
    )));
    assert!(calls.iter().all(|call| !call.contains("Operator")));
}

#[test]
fn cockpit_tui_worker_grid_advances_stable_left_worker_slots_for_four_workers() {
    let adapter = FakeCockpitAdapter::default();
    let request = request("kd-run", "feed");
    let mut cockpit = Cockpit::new(CockpitMode::Herdr, adapter.clone());
    let mut opened_slots = Vec::new();

    for index in 1..=4 {
        let worker = CockpitTuiWorkerRequest {
            run_id: "kd-run".to_string(),
            slice_id: format!("SLICE-{index}"),
            attempt: 1,
            name: format!("kd-run-SLICE-{index}-1"),
            argv: vec!["pi".to_string(), format!("@prompt-{index}.md")],
            cwd: format!("/repo/worker-{index}"),
            env: Vec::new(),
        };
        match cockpit.open_tui_worker_agent(&request, &worker).unwrap() {
            CockpitTuiWorkerLaunch::Opened(opened) => {
                assert_eq!(opened.slot_region, "left-worker-region");
                assert_eq!(opened.slot_index, index);
                opened_slots.push(opened.slot_name);
            }
            CockpitTuiWorkerLaunch::SkippedDirect => panic!("unexpected direct skip"),
        }
    }

    assert_eq!(
        opened_slots,
        vec!["worker-1", "worker-2", "worker-3", "worker-4"]
    );
    let calls = adapter.calls();
    assert!(calls.iter().any(|call| call.starts_with(
        "layout:tui-worker-slot:worker-4:worker-4: Worker kd-run/SLICE-4 attempt 1"
    )));
    assert!(calls.iter().all(|call| !call.contains("Operator")));
}

#[test]
fn a_fifth_worker_finds_no_slot() {
    let adapter = FakeCockpitAdapter::default();
    let request = request("kd-run", "feed");
    let mut cockpit = Cockpit::new(CockpitMode::Herdr, adapter.clone());
    for index in 1..=5 {
        let worker = CockpitWorkerPaneRequest {
            run_id: "kd-run".to_string(),
            slice_id: format!("SLICE-{index}"),
            attempt: 1,
            command: "work".to_string(),
            cwd: "/repo/worker".to_string(),
            env: Vec::new(),
        };
        assert_eq!(
            cockpit.open_worker_pane(&request, &worker).is_ok(),
            index <= 4
        );
    }
}

#[test]
fn cockpit_can_close_tui_worker_pane_through_adapter() {
    let adapter = FakeCockpitAdapter::default();

    Cockpit::new(CockpitMode::Herdr, adapter.clone())
        .close_pane("pane-tui")
        .unwrap();

    assert_eq!(adapter.calls(), vec!["pane_close:pane-tui".to_string()]);
}

#[test]
fn a_bare_adapter_refuses_what_it_does_not_support() {
    let mut cockpit = Cockpit::new(CockpitMode::Herdr, BareAdapter);
    let refused = |what: &str| CockpitError {
        message: format!("bare adapter does not support {what}"),
    };
    let run = request("kd-run", "feed");
    assert_eq!(
        cockpit.open_run(&run),
        Err(refused("cockpit layout inspection"))
    );
    assert_eq!(
        cockpit.open_worker_pane(&run, &worker_pane("SLICE-1")),
        Err(refused("cockpit layout inspection"))
    );
    assert_eq!(cockpit.close_pane("p"), Err(refused("closing panes")));
    assert_eq!(
        cockpit.send_agent_message("a", "t"),
        Err(refused("agent messages"))
    );
    assert_eq!(cockpit.focus_agent("a"), Err(refused("agent focus")));
    assert_eq!(cockpit.rename_agent("a", "b"), Err(refused("agent rename")));
}

#[test]
fn a_bare_adapter_shows_all_it_has_as_panes() {
    let mut adapter = BareAdapter;
    let workspace = adapter
        .open_or_focus_run_workspace(&request("kd-run", "feed"))
        .unwrap();
    let plan = CockpitLayoutPlanner.plan(2).unwrap();
    let slot = &plan.worker_slots[1];
    let pane = CockpitPaneRequest {
        label: "Worker".to_string(),
        command: "work".to_string(),
        cwd: "/repo".to_string(),
        env: Vec::new(),
    };
    let shown = CockpitPaneRef {
        id: "p".to_string(),
    };
    assert_eq!(
        adapter.create_worker_pane(&workspace, &pane),
        Ok(shown.clone())
    );
    assert_eq!(
        adapter.ensure_dashboard_pane(&workspace, &plan.dashboard, &pane),
        Ok(shown.clone())
    );
    assert_eq!(
        adapter.cleanup_placeholder_root_pane(&workspace, slot, "Worker"),
        Ok(())
    );
    assert_eq!(
        adapter.place_worker_slot_pane(&workspace, &plan, slot, &pane),
        Ok(CockpitWorkerPlacement {
            pane: shown,
            slot_name: "worker-2".to_string(),
            slot_index: 2,
            slot_region: "left-worker-region".to_string(),
            pane_label: "Worker".to_string(),
        })
    );
    let refused = CockpitError {
        message: "bare adapter does not support TUI worker agents".to_string(),
    };
    assert_eq!(
        adapter.start_tui_worker_agent(&workspace, &tui_worker()),
        Err(refused.clone())
    );
    assert_eq!(
        adapter.start_tui_worker_agent_in_slot(&workspace, &plan, slot, &tui_worker()),
        Err(refused)
    );
}

#[test]
fn worker_activity_painter_command_waits_for_wrapper_after_painter_exit() {
    let command = worker_activity_pane_command(
        "khazad-doom",
        "/bin/sh /tmp/kd-wrapper.sh",
        "/tmp/kd.stdout.ndjson",
        "/tmp/kd.status.json",
        "/tmp/kd.exit.json",
    );

    assert!(command.contains("paint-worker-activity"));
    assert!(command.contains("/tmp/kd-wrapper.sh"));
    assert!(command.contains("/tmp/kd.stdout.ndjson"));
    assert!(command.contains("/tmp/kd.status.json"));
    assert!(command.contains("/tmp/kd.exit.json"));
    assert!(command.contains("wait \"$khazad_wrapper_pid\""));
    assert!(command.contains("wrapper artifacts remain authoritative"));
}

#[test]
fn reusable_binary_strips_linux_deleted_current_exe_suffix() {
    let installed = "/opt/bin/khazad-doom".to_string();
    let deleted = format!("{installed} (deleted)");

    assert_eq!(
        reusable_khazad_binary(
            Some(deleted.as_str()),
            |path: &str| path == "/opt/bin/khazad-doom",
            None
        ),
        Some(installed)
    );
}

#[test]
fn reusable_binary_falls_back_to_the_path() {
    assert_eq!(
        reusable_khazad_binary(
            Some("/opt/bin/khazad-doom"),
            |_path: &str| false,
            Some("/usr/bin/khazad-doom".to_string())
        ),
        Some("/usr/bin/khazad-doom".to_string())
    );
    assert_eq!(
        reusable_khazad_binary(None, |_path: &str| true, None),
        None
    );
}

#[test]
fn cockpit_mode_transport_round_trips_and_filters_pi_args() {
    let mut args = vec![
        "--foo".to_string(),
        cockpit_mode_transport_arg("herdr").unwrap(),
        "bar".to_string(),
    ];

    let mode = take_cockpit_mode_transport_arg(&mut args).unwrap();

    assert_eq!(mode, Some(CockpitMode::Herdr));
    assert_eq!(args, vec!["--foo".to_string(), "bar".to_string()]);
}

#[test]
fn transport_refuses_an_unknown_mode() {
    assert!(cockpit_mode_transport_arg("tmux").is_err());
    let mut args = vec!["__khazad_cockpit_mode=tmux".to_string()];
    assert!(take_cockpit_mode_transport_arg(&mut args).is_err());
    let mut plain = vec!["--foo".to_string()];
    assert_eq!(take_cockpit_mode_transport_arg(&mut plain), Ok(None));
}

#[test]
fn cockpit_request_uses_run_named_workspace_and_no_planner_command() {
    let now = Timestamp::new(1_700_000_000, 0).unwrap();
    let run = Run {
        id: "kd-123".to_string(),
        repo_id: "repo".to_string(),
        repo_path: "/tmp/repo".to_string(),
        status: RunStatus::Running,
        base_branch: "main".to_string(),
        base_sha: "base".to_string(),
        integration_branch: "khazad/kd-123/integration".to_string(),
        selected_slice_id: "slice-1".to_string(),
        error: String::new(),
        started_at: now,
        updated_at: now,
    };

    let request = CockpitRunRequest::for_run(&run, "/tmp/khazad-home", "khazad-doom");

    assert_eq!(request.workspace_label, "Khazad-Doom kd-123");
    assert!(request.feed_command.contains("monitor --run kd-123"));
    assert!(!request.feed_command.to_lowercase().contains("planner"));
}

fn worker_pane(slice_id: &str) -> CockpitWorkerPaneRequest {
    CockpitWorkerPaneRequest {
        run_id: "kd-run".to_string(),
        slice_id: slice_id.to_string(),
        attempt: 1,
        command: "work".to_string(),
        cwd: "/repo/worker".to_string(),
        env: Vec::new(),
    }
}

fn tui_worker() -> CockpitTuiWorkerRequest {
    CockpitTuiWorkerRequest {
        run_id: "kd-run".to_string(),
        slice_id: "SLICE-9".to_string(),
        attempt: 1,
        name: "agent".to_string(),
        argv: vec!["work".to_string()],
        cwd: "/repo/worker".to_string(),
        env: Vec::new(),
    }
}

#[test]
fn a_full_cockpit_is_asked_for_no_pane() {
    let adapter = FakeCockpitAdapter::default();
    let mut cockpit = Cockpit::new(CockpitMode::Herdr, adapter.clone());
    let request = request("kd-run", "feed");
    for slice in ["SLICE-1", "SLICE-2", "SLICE-3", "SLICE-4"] {
        cockpit
            .open_worker_pane(&request, &worker_pane(slice))
            .unwrap();
    }
    let before = adapter.calls().len();
    assert!(cockpit
        .open_worker_pane(&request, &worker_pane("SLICE-5"))
        .is_err());
    assert!(cockpit
        .open_tui_worker_agent(&request, &tui_worker())
        .is_err());
    assert_eq!(
        adapter.calls()[before..],
        [
            "workspace:Khazad-Doom kd-run",
            "layout:inspect",
            "workspace:Khazad-Doom kd-run",
            "layout:inspect",
        ]
    );
}

#[test]
fn nothing_is_asked_of_the_adapter_in_direct_mode() {
    let adapter = FakeCockpitAdapter::default();
    let mut cockpit = Cockpit::new(CockpitMode::Direct, adapter.clone());
    let request = request("kd-run", "feed");
    assert!(cockpit.open_or_focus_run(&request).is_err());
    assert_eq!(
        cockpit
            .open_worker_pane(&request, &worker_pane("SLICE-1"))
            .unwrap(),
        CockpitWorkerLaunch::SkippedDirect
    );
    assert_eq!(
        cockpit
            .open_tui_worker_agent(&request, &tui_worker())
            .unwrap(),
        CockpitTuiWorkerLaunch::SkippedDirect
    );
    assert!(cockpit.close_pane("pane-1").is_err());
    assert!(cockpit.send_agent_message("agent", "text").is_err());
    assert!(cockpit.focus_agent("agent").is_err());
    assert!(cockpit.rename_agent("agent", "name").is_err());
    assert!(adapter.calls().is_empty());
}
