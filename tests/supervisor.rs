use node_client::supervisor::{
    classify_lowered, log_line_effects, old_gateway_hint, stop_poll, tagged_line, LogRing, NodeStatus, ProcessProbe,
    RuntimeState, StopProbe, StopStep,
};

#[test]
fn log_lines_signal_status() {
    assert_eq!(log_line_effects("Connected to Gateway at ws://x").0, Some(NodeStatus::Running));
    assert_eq!(log_line_effects("node is running").0, Some(NodeStatus::Running));
    assert_eq!(log_line_effects("RECONNECTING in 5s").0, Some(NodeStatus::Reconnecting));
    assert_eq!(log_line_effects("socket disconnected").0, Some(NodeStatus::Disconnected));
    assert_eq!(log_line_effects("Fatal: boom").0, Some(NodeStatus::Error));
    assert_eq!(log_line_effects("request failed").0, Some(NodeStatus::Error));
    assert_eq!(log_line_effects("hello").0, None);
    assert_eq!(classify_lowered("reconnecting after error"), Some(NodeStatus::Reconnecting));
    assert!(log_line_effects("Error: Invalid Connect Params").1);
    assert!(!log_line_effects("fine").1);
    assert!(old_gateway_hint().starts_with("Warning: Gateway rejected connect params"));
    assert_eq!(tagged_line("stderr", "x"), "[stderr] x");
}

#[test]
fn log_ring_keeps_last_300() {
    let mut r = LogRing::new();
    for i in 0..305 {
        r.push(format!("line {}", i));
    }
    assert_eq!(r.len(), 300);
    let lines = r.lines();
    assert_eq!(lines[0], "line 5");
    assert_eq!(lines[299], "line 304");
}

#[test]
fn reconcile_with_process_state() {
    let mut rt = RuntimeState::new();
    assert_eq!(rt.refresh_process_state(&ProcessProbe::Running), (false, None));
    rt.child_started();
    assert_eq!(rt.refresh_process_state(&ProcessProbe::Running), (true, None));
    let (running, log) = rt.refresh_process_state(&ProcessProbe::Exited { success: true, status: "exit status: 0".to_string() });
    assert!(!running);
    assert_eq!(log.as_deref(), Some("node host exited cleanly"));
    assert_eq!(rt.node_status, Some(NodeStatus::Stopped));
    assert!(!rt.has_child);
    rt.child_started();
    let (_, log) = rt.refresh_process_state(&ProcessProbe::Exited { success: false, status: "exit status: 2".to_string() });
    assert_eq!(log.as_deref(), Some("node host exited with status exit status: 2"));
    assert_eq!(rt.last_error.as_deref(), Some("node host exited with status exit status: 2"));
    assert_eq!(rt.node_status, Some(NodeStatus::Error));
    rt.child_started();
    let (_, log) = rt.refresh_process_state(&ProcessProbe::Failed("EPERM".to_string()));
    assert_eq!(log.as_deref(), Some("failed to inspect node host process: EPERM"));
}

#[test]
fn stop_force_kills_after_grace_period() {
    let mut rt = RuntimeState::new();
    rt.child_started();
    rt.mark_starting();
    rt.release_child();
    let mut elapsed = 0u64;
    let mut steps = Vec::new();
    loop {
        let step = stop_poll(elapsed, StopProbe::Alive);
        steps.push(step);
        if step != StopStep::Wait {
            break;
        }
        elapsed += 100;
    }
    assert_eq!(*steps.last().unwrap(), StopStep::ForceKill);
    assert_eq!(elapsed, 5_000);
    rt.finish_stop();
    assert_eq!(rt.node_status, Some(NodeStatus::Stopped));
    assert!(rt.last_error.is_none());
    assert_eq!(rt.reported_status(false).as_str(), "stopped");
}

#[test]
fn stop_poll_steps() {
    assert_eq!(stop_poll(0, StopProbe::Exited), StopStep::Done);
    assert_eq!(stop_poll(4_999, StopProbe::Alive), StopStep::Wait);
    assert_eq!(stop_poll(10, StopProbe::Failed), StopStep::ForceKill);
}

#[test]
fn start_fallback_promotes_only_starting() {
    let mut rt = RuntimeState::new();
    rt.mark_starting();
    assert!(!rt.promote_if_starting(false));
    assert!(rt.promote_if_starting(true));
    assert_eq!(rt.node_status, Some(NodeStatus::Running));
    rt.apply_signal(Some(NodeStatus::Reconnecting));
    assert!(!rt.promote_if_starting(true));
    assert_eq!(rt.node_status, Some(NodeStatus::Reconnecting));
    let fresh = RuntimeState::new();
    assert_eq!(fresh.reported_status(true), NodeStatus::Running);
    assert_eq!(NodeStatus::Reconnecting.as_str(), "reconnecting");
}
