use node_client::runner::{
    completed_result, effective_timeout_ms, plan_run, spawn_failed_result, timed_out_result, RunPlan,
};
use node_client::text::decimal_string;

#[test]
fn timeout_defaults() {
    assert_eq!(effective_timeout_ms(None), 120_000);
    assert_eq!(effective_timeout_ms(Some(0)), 120_000);
    assert_eq!(effective_timeout_ms(Some(-5)), 120_000);
    assert_eq!(effective_timeout_ms(Some(1500)), 1500);
}

#[test]
fn empty_command_spawns_nothing() {
    match plan_run(&vec![], Some(10)) {
        RunPlan::Reject(r) => {
            assert_eq!(r.error.as_deref(), Some("empty command"));
            assert!(!r.success && !r.timed_out && r.exit_code.is_none());
        }
        RunPlan::Spawn { .. } => panic!("nothing to spawn"),
    }
    match plan_run(&vec!["ls".to_string(), "-l".to_string(), "/".to_string()], None) {
        RunPlan::Spawn { program, args, timeout_ms } => {
            assert_eq!(program, "ls");
            assert_eq!(args, vec!["-l", "/"]);
            assert_eq!(timeout_ms, 120_000);
        }
        RunPlan::Reject(_) => panic!("should spawn"),
    }
}

#[test]
fn result_records() {
    let t = timed_out_result();
    assert!(t.timed_out && t.exit_code.is_none() && !t.success);
    assert_eq!(t.error.as_deref(), Some("command timed out"));
    assert_eq!(spawn_failed_result("ENOENT").error.as_deref(), Some("spawn error: ENOENT"));
    let c = completed_result(Some(0), true, "out".to_string(), "".to_string());
    assert_eq!(c.exit_code, Some(0));
    assert!(c.success && c.error.is_none());
}

#[test]
fn decimal_rendering() {
    assert_eq!(decimal_string(0), "0");
    assert_eq!(decimal_string(60_000), "60000");
    assert_eq!(decimal_string(u64::MAX), "18446744073709551615");
}
