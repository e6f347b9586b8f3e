use first::orchestrator::{
    execution_failure_info, extract_test_name, interpret_exit_status, run, verify_failure_info,
    Action, Child, ChildExit, ChildResult, Event, Orchestrator, Step, SIGKILL_EXIT_CODE,
};
use first::CrashInfo;

fn crash(point_id: usize, label: &str) -> CrashInfo {
    CrashInfo::new(point_id, String::from(label))
}

fn pairs(child: &Child) -> Vec<(&str, &str)> {
    child.env.iter().map(|(name, value)| (name.as_str(), value.as_str())).collect()
}

fn interpreted(exit: ChildExit, info: Option<CrashInfo>) -> (String, usize, String, i32) {
    match interpret_exit_status(exit, info) {
        ChildResult::Success => (String::from("success"), 0, String::new(), 0),
        ChildResult::Crashed(info) => (String::from("crashed"), info.point_id, info.label, 0),
        ChildResult::Failed(code) => (String::from("failed"), 0, String::new(), code),
    }
}

fn record(point_id: usize, label: &str) -> String {
    let line = first::record::format_crash_metadata(point_id, label, None, None);
    line[..line.len() - 1].to_string()
}

fn executed(step: &Step) -> &Child {
    match &step.action {
        Action::Execute(child) => child,
        other => panic!("expected an execution, got {:?}", other),
    }
}

fn verified(step: &Step) -> &Child {
    match &step.action {
        Action::Verify(child) => child,
        other => panic!("expected a verification, got {:?}", other),
    }
}

fn exit_code(step: &Step) -> i32 {
    match &step.action {
        Action::Exit(code) => *code,
        other => panic!("expected the end, got {:?}", other),
    }
}

#[test]
fn exit_code_zero_is_success() {
    assert_eq!(interpreted(ChildExit::Code(0), None).0, "success");
    assert_eq!(interpreted(ChildExit::Code(0), Some(crash(2, "b"))).0, "success");
}

#[test]
fn a_kill_is_a_crash() {
    assert_eq!(
        interpreted(ChildExit::Signal(9), Some(crash(2, "b"))),
        (String::from("crashed"), 2, String::from("b"), 0)
    );
    assert_eq!(
        interpreted(ChildExit::Code(137), Some(crash(3, "c"))),
        (String::from("crashed"), 3, String::from("c"), 0)
    );
    assert_eq!(SIGKILL_EXIT_CODE, 137);
}

#[test]
fn a_kill_without_a_record_is_a_crash_at_an_unknown_point() {
    assert_eq!(
        interpreted(ChildExit::Signal(9), None),
        (String::from("crashed"), 0, String::from("unknown"), 0)
    );
    assert_eq!(
        interpreted(ChildExit::Code(137), None),
        (String::from("crashed"), 0, String::from("unknown"), 0)
    );
}

#[test]
fn every_other_end_is_a_failure() {
    assert_eq!(interpreted(ChildExit::Code(1), None), (String::from("failed"), 0, String::new(), 1));
    assert_eq!(
        interpreted(ChildExit::Code(101), Some(crash(1, "a"))),
        (String::from("failed"), 0, String::new(), 101)
    );
    assert_eq!(interpreted(ChildExit::Code(-7), None).3, -7);
    assert_eq!(interpreted(ChildExit::Code(9), None).0, "failed");
    assert_eq!(interpreted(ChildExit::Code(136), None).3, 136);
    assert_eq!(interpreted(ChildExit::Signal(15), None), (String::from("failed"), 0, String::new(), -1));
    assert_eq!(interpreted(ChildExit::Signal(11), Some(crash(1, "a"))).3, -1);
    assert_eq!(interpreted(ChildExit::Signal(137), None).0, "failed");
    assert_eq!(interpreted(ChildExit::Signal(0), None).0, "failed");
    assert_eq!(interpreted(ChildExit::Unknown, None), (String::from("failed"), 0, String::new(), -1));
    assert_eq!(interpreted(ChildExit::NotRun, None), (String::from("failed"), 0, String::new(), 1));
}

#[test]
fn an_execution_child_is_told_phase_target_and_workspace() {
    let child = Child::execution(&Some(String::from("my_test")), 3, "/tmp/first/b/run_3");
    assert_eq!(child.work_dir, "/tmp/first/b/run_3");
    assert_eq!(
        pairs(&child),
        vec![
            ("FIRST_PHASE", "EXECUTION"),
            ("FIRST_CRASH_TARGET", "3"),
            ("FIRST_WORK_DIR", "/tmp/first/b/run_3"),
        ]
    );
    assert_eq!(child.args, vec!["my_test", "--", "--exact"]);
}

#[test]
fn a_child_of_an_unnamed_test_gets_no_arguments() {
    let child = Child::execution(&None, 1, "/w");
    assert!(child.args.is_empty());
    let child = Child::verification(&None, 1, "/w", &crash(1, "a"));
    assert!(child.args.is_empty());
}

#[test]
fn a_verify_child_is_told_of_the_crash() {
    let child = Child::verification(
        &Some(String::from("suite::my_test")),
        12,
        "/tmp/first/b/run_12",
        &crash(12, "after \"sync\""),
    );
    assert_eq!(child.work_dir, "/tmp/first/b/run_12");
    assert_eq!(
        pairs(&child),
        vec![
            ("FIRST_PHASE", "VERIFY"),
            ("FIRST_CRASH_TARGET", "12"),
            ("FIRST_WORK_DIR", "/tmp/first/b/run_12"),
            ("FIRST_CRASH_POINT_ID", "12"),
            ("FIRST_CRASH_LABEL", "after \"sync\""),
        ]
    );
    assert_eq!(child.args, vec!["suite::my_test", "--", "--exact"]);
}

#[test]
fn the_test_name_is_the_first_argument_that_is_no_option() {
    let args = |list: &[&str]| list.iter().map(|a| a.to_string()).collect::<Vec<String>>();
    assert_eq!(
        extract_test_name(&args(&["target/debug/deps/t-1", "my_test"]), Some("main")),
        Some(String::from("my_test"))
    );
    assert_eq!(
        extract_test_name(&args(&["bin", "--nocapture", "--", "--exact", "-q", "name", "other"]), None),
        Some(String::from("name"))
    );
    assert_eq!(
        extract_test_name(&args(&["not_taken"]), Some("main")),
        None
    );
    assert_eq!(extract_test_name(&args(&["bin", ""]), None), Some(String::new()));
    assert_eq!(extract_test_name(&args(&[]), None), None);
}

#[test]
fn without_such_an_argument_the_thread_names_the_test() {
    let args = vec![String::from("bin"), String::from("--exact")];
    assert_eq!(extract_test_name(&args, Some("suite::case")), Some(String::from("suite::case")));
    assert_eq!(extract_test_name(&args, Some("main")), None);
    assert_eq!(extract_test_name(&args, Some("")), Some(String::new()));
    assert_eq!(extract_test_name(&args, None), None);
    assert_eq!(extract_test_name(&Vec::new(), Some("t")), Some(String::from("t")));
}

#[test]
fn a_failed_execution_is_reported_with_its_command() {
    assert_eq!(
        execution_failure_info(2, "/tmp/first/b/run_2", 101, &Some(String::from("my_test"))),
        vec![
            "[first] crash point 2: FAILED (see /tmp/first/b/run_2)",
            "[first] execution failed with exit code 101",
            "[first] to reproduce:",
            "  FIRST_PHASE=EXECUTION FIRST_CRASH_TARGET=2 FIRST_WORK_DIR=/tmp/first/b/run_2 cargo test my_test -- --exact",
        ]
    );
    assert_eq!(
        execution_failure_info(1, "/w", -1, &None),
        vec![
            "[first] crash point 1: FAILED (see /w)",
            "[first] execution failed with exit code -1",
            "[first] to reproduce:",
            "  FIRST_PHASE=EXECUTION FIRST_CRASH_TARGET=1 FIRST_WORK_DIR=/w cargo test -- --exact",
        ]
    );
}

#[test]
fn a_failed_verification_is_reported_with_label_reason_and_command() {
    assert_eq!(
        verify_failure_info(
            3,
            "/tmp/first/b/run_3",
            &crash(3, "after_write_2"),
            &Some(String::from("append_log")),
            "verification failed with exit code 101",
        ),
        vec![
            "[first] crash point 3: FAILED (see /tmp/first/b/run_3)",
            "[first] crash label: \"after_write_2\"",
            "[first] reason: verification failed with exit code 101",
            "[first] to reproduce:",
            "  FIRST_PHASE=VERIFY FIRST_CRASH_TARGET=3 FIRST_WORK_DIR=/tmp/first/b/run_3 FIRST_CRASH_POINT_ID=3 FIRST_CRASH_LABEL=\"after_write_2\" cargo test append_log -- --exact",
        ]
    );
    assert_eq!(
        verify_failure_info(1, "/w", &crash(0, "unknown"), &None, "why"),
        vec![
            "[first] crash point 1: FAILED (see /w)",
            "[first] crash label: \"unknown\"",
            "[first] reason: why",
            "[first] to reproduce:",
            "  FIRST_PHASE=VERIFY FIRST_CRASH_TARGET=1 FIRST_WORK_DIR=/w FIRST_CRASH_POINT_ID=0 FIRST_CRASH_LABEL=\"unknown\" cargo test -- --exact",
        ]
    );
}

#[test]
fn the_supervisor_starts_with_the_first_target() {
    let mut state = Orchestrator::new(String::from("/tmp/first/b"), Some(String::from("t")), false);
    assert_eq!(state.target(), 1);
    assert!(state.accepts(&Event::Started));
    assert!(!state.accepts(&Event::VerifyEnded { exit: ChildExit::Code(0) }));
    assert!(!state.accepts(&Event::ExecutionEnded { exit: ChildExit::Code(0), stderr: Vec::new() }));
    let step = run(&mut state, Event::Started);
    assert!(step.report.is_empty());
    assert_eq!(step.remove, None);
    let child = executed(&step);
    assert_eq!(child.work_dir, "/tmp/first/b/run_1");
    assert_eq!(
        pairs(child),
        vec![
            ("FIRST_PHASE", "EXECUTION"),
            ("FIRST_CRASH_TARGET", "1"),
            ("FIRST_WORK_DIR", "/tmp/first/b/run_1"),
        ]
    );
    assert_eq!(child.args, vec!["t", "--", "--exact"]);
    assert_eq!(state.target(), 1);
    assert!(!state.accepts(&Event::Started));
    assert!(state.accepts(&Event::ExecutionEnded { exit: ChildExit::Code(0), stderr: Vec::new() }));
}

#[test]
fn a_workload_without_crash_points_passes_at_once() {
    let mut state = Orchestrator::new(String::from("/tmp/first/b"), None, false);
    run(&mut state, Event::Started);
    let step = run(&mut state, Event::ExecutionEnded { exit: ChildExit::Code(0), stderr: Vec::new() });
    assert_eq!(step.report, vec!["[first] all 0 crash points passed"]);
    assert_eq!(step.remove, Some(String::from("/tmp/first/b/run_1")));
    assert_eq!(exit_code(&step), 0);
    assert!(!state.accepts(&Event::Started));
    assert!(!state.accepts(&Event::ExecutionEnded { exit: ChildExit::Code(0), stderr: Vec::new() }));
    assert!(!state.accepts(&Event::VerifyEnded { exit: ChildExit::Code(0) }));
}

#[test]
fn one_cycle_of_execution_and_verification() {
    let mut state = Orchestrator::new(String::from("/b"), Some(String::from("t")), false);
    run(&mut state, Event::Started);
    let step = run(
        &mut state,
        Event::ExecutionEnded {
            exit: ChildExit::Signal(9),
            stderr: vec![String::from("running 1 test"), record(1, "after_write")],
        },
    );
    assert!(step.report.is_empty());
    assert_eq!(step.remove, None);
    let child = verified(&step);
    assert_eq!(child.work_dir, "/b/run_1");
    assert_eq!(
        pairs(child),
        vec![
            ("FIRST_PHASE", "VERIFY"),
            ("FIRST_CRASH_TARGET", "1"),
            ("FIRST_WORK_DIR", "/b/run_1"),
            ("FIRST_CRASH_POINT_ID", "1"),
            ("FIRST_CRASH_LABEL", "after_write"),
        ]
    );
    assert_eq!(child.args, vec!["t", "--", "--exact"]);
    assert!(state.accepts(&Event::VerifyEnded { exit: ChildExit::Code(0) }));
    assert!(!state.accepts(&Event::Started));

    let step = run(&mut state, Event::VerifyEnded { exit: ChildExit::Code(0) });
    assert_eq!(step.report, vec!["[first] crash point 1: OK"]);
    assert_eq!(step.remove, Some(String::from("/b/run_1")));
    let child = executed(&step);
    assert_eq!(child.work_dir, "/b/run_2");
    assert_eq!(
        pairs(child),
        vec![
            ("FIRST_PHASE", "EXECUTION"),
            ("FIRST_CRASH_TARGET", "2"),
            ("FIRST_WORK_DIR", "/b/run_2"),
        ]
    );
    assert_eq!(state.target(), 2);

    let step = run(&mut state, Event::ExecutionEnded { exit: ChildExit::Code(0), stderr: Vec::new() });
    assert_eq!(step.report, vec!["[first] all 1 crash points passed"]);
    assert_eq!(step.remove, Some(String::from("/b/run_2")));
    assert_eq!(exit_code(&step), 0);
}

#[test]
fn kept_artifacts_are_not_removed_after_a_pass() {
    let mut state = Orchestrator::new(String::from("/b"), None, true);
    run(&mut state, Event::Started);
    run(&mut state, Event::ExecutionEnded { exit: ChildExit::Code(137), stderr: vec![record(1, "a")] });
    let step = run(&mut state, Event::VerifyEnded { exit: ChildExit::Code(0) });
    assert_eq!(step.report, vec!["[first] crash point 1: OK"]);
    assert_eq!(step.remove, None);
    assert_eq!(executed(&step).work_dir, "/b/run_2");
    // The leaf that was never used is removed all the same.
    let step = run(&mut state, Event::ExecutionEnded { exit: ChildExit::Code(0), stderr: Vec::new() });
    assert_eq!(step.remove, Some(String::from("/b/run_2")));
}

#[test]
fn a_verification_runs_exactly_when_the_execution_was_killed() {
    let exits = [
        (ChildExit::Signal(9), true),
        (ChildExit::Code(137), true),
        (ChildExit::Code(0), false),
        (ChildExit::Code(1), false),
        (ChildExit::Code(101), false),
        (ChildExit::Code(9), false),
        (ChildExit::Code(-1), false),
        (ChildExit::Signal(6), false),
        (ChildExit::Signal(11), false),
        (ChildExit::Signal(15), false),
        (ChildExit::Unknown, false),
        (ChildExit::NotRun, false),
    ];
    for (exit, killed) in exits {
        for stderr in [Vec::new(), vec![record(1, "a")]] {
            let mut state = Orchestrator::new(String::from("/b"), None, false);
            run(&mut state, Event::Started);
            let step = run(&mut state, Event::ExecutionEnded { exit, stderr });
            assert_eq!(matches!(step.action, Action::Verify(_)), killed, "{:?}", exit);
        }
    }
}

#[test]
fn a_kill_without_a_record_is_verified_as_an_unknown_crash() {
    let mut state = Orchestrator::new(String::from("/b"), None, false);
    run(&mut state, Event::Started);
    let step = run(
        &mut state,
        Event::ExecutionEnded { exit: ChildExit::Signal(9), stderr: vec![String::from("noise")] },
    );
    let child = verified(&step);
    assert_eq!(
        pairs(child),
        vec![
            ("FIRST_PHASE", "VERIFY"),
            ("FIRST_CRASH_TARGET", "1"),
            ("FIRST_WORK_DIR", "/b/run_1"),
            ("FIRST_CRASH_POINT_ID", "0"),
            ("FIRST_CRASH_LABEL", "unknown"),
        ]
    );
}

#[test]
fn a_failed_execution_ends_the_supervision() {
    let mut state = Orchestrator::new(String::from("/b"), Some(String::from("t")), false);
    run(&mut state, Event::Started);
    let step = run(
        &mut state,
        Event::ExecutionEnded { exit: ChildExit::Code(101), stderr: vec![record(1, "a")] },
    );
    assert_eq!(
        step.report,
        vec![
            "[first] crash point 1: FAILED (see /b/run_1)",
            "[first] execution failed with exit code 101",
            "[first] to reproduce:",
            "  FIRST_PHASE=EXECUTION FIRST_CRASH_TARGET=1 FIRST_WORK_DIR=/b/run_1 cargo test t -- --exact",
        ]
    );
    assert_eq!(step.remove, None);
    assert_eq!(exit_code(&step), 1);
    assert!(!state.accepts(&Event::VerifyEnded { exit: ChildExit::Code(0) }));
}

#[test]
fn a_child_that_could_not_be_run_is_a_failed_execution() {
    let mut state = Orchestrator::new(String::from("/b"), None, false);
    run(&mut state, Event::Started);
    let step = run(&mut state, Event::ExecutionEnded { exit: ChildExit::NotRun, stderr: Vec::new() });
    assert_eq!(step.report[1], "[first] execution failed with exit code 1");
    assert_eq!(exit_code(&step), 1);
}

#[test]
fn a_failed_verification_ends_the_supervision() {
    let mut state = Orchestrator::new(String::from("/b"), Some(String::from("t")), false);
    run(&mut state, Event::Started);
    run(&mut state, Event::ExecutionEnded { exit: ChildExit::Signal(9), stderr: vec![record(1, "a")] });
    run(&mut state, Event::VerifyEnded { exit: ChildExit::Code(0) });
    run(
        &mut state,
        Event::ExecutionEnded { exit: ChildExit::Signal(9), stderr: vec![record(2, "after \"b\"")] },
    );
    let step = run(&mut state, Event::VerifyEnded { exit: ChildExit::Code(101) });
    assert_eq!(
        step.report,
        vec![
            "[first] crash point 2: FAILED (see /b/run_2)",
            "[first] crash label: \"after \"b\"\"",
            "[first] reason: verification failed with exit code 101",
            "[first] to reproduce:",
            "  FIRST_PHASE=VERIFY FIRST_CRASH_TARGET=2 FIRST_WORK_DIR=/b/run_2 FIRST_CRASH_POINT_ID=2 FIRST_CRASH_LABEL=\"after \"b\"\" cargo test t -- --exact",
        ]
    );
    assert_eq!(step.remove, None);
    assert_eq!(exit_code(&step), 1);
    assert_eq!(state.target(), 2);
}

#[test]
fn a_killed_verification_is_a_failure_of_its_own() {
    for exit in [ChildExit::Signal(9), ChildExit::Code(137)] {
        let mut state = Orchestrator::new(String::from("/b"), None, false);
        run(&mut state, Event::Started);
        run(&mut state, Event::ExecutionEnded { exit: ChildExit::Signal(9), stderr: vec![record(1, "a")] });
        let step = run(&mut state, Event::VerifyEnded { exit });
        assert_eq!(
            step.report,
            vec![
                "[first] crash point 1: FAILED (see /b/run_1)",
                "[first] crash label: \"a\"",
                "[first] reason: verify phase crashed unexpectedly",
                "[first] to reproduce:",
                "  FIRST_PHASE=VERIFY FIRST_CRASH_TARGET=1 FIRST_WORK_DIR=/b/run_1 FIRST_CRASH_POINT_ID=1 FIRST_CRASH_LABEL=\"a\" cargo test -- --exact",
            ]
        );
        assert_eq!(exit_code(&step), 1);
    }
}

#[test]
fn a_verification_ended_by_another_signal_fails_with_code_minus_one() {
    let mut state = Orchestrator::new(String::from("/b"), None, false);
    run(&mut state, Event::Started);
    run(&mut state, Event::ExecutionEnded { exit: ChildExit::Signal(9), stderr: vec![record(1, "a")] });
    let step = run(&mut state, Event::VerifyEnded { exit: ChildExit::Signal(6) });
    assert_eq!(step.report[2], "[first] reason: verification failed with exit code -1");
    assert_eq!(exit_code(&step), 1);
}

#[test]
fn a_schedule_of_k_crash_points_takes_k_cycles_and_one_more_execution() {
    for count in [0usize, 1, 2, 3, 7, 25] {
        let mut state = Orchestrator::new(String::from("/b"), None, false);
        let mut step = run(&mut state, Event::Started);
        let mut executions = 0;
        let mut verifications = 0;
        let code = loop {
            let event = match &step.action {
                Action::Execute(child) => {
                    executions += 1;
                    let target: usize = child.env[1].1.parse().expect("a number");
                    assert_eq!(target, executions);
                    if target <= count {
                        Event::ExecutionEnded {
                            exit: ChildExit::Signal(9),
                            stderr: vec![record(target, "label")],
                        }
                    } else {
                        Event::ExecutionEnded { exit: ChildExit::Code(0), stderr: Vec::new() }
                    }
                },
                Action::Verify(child) => {
                    verifications += 1;
                    assert_eq!(child.env[3].1, verifications.to_string());
                    Event::VerifyEnded { exit: ChildExit::Code(0) }
                },
                Action::Exit(code) => break *code,
            };
            assert!(state.accepts(&event));
            step = run(&mut state, event);
        };
        assert_eq!(code, 0);
        assert_eq!(executions, count + 1);
        assert_eq!(verifications, count);
        assert_eq!(step.report, vec![format!("[first] all {} crash points passed", count)]);
        assert_eq!(step.remove, Some(format!("/b/run_{}", count + 1)));
    }
}

#[test]
fn a_started_supervisor_has_a_base_directory_of_its_own() {
    let mut leaves: Vec<String> = Vec::new();
    for _ in 0..8 {
        let mut state = Orchestrator::start("/tmp", 31, Some(String::from("t")), false);
        assert_eq!(state.target(), 1);
        let step = run(&mut state, Event::Started);
        let child = executed(&step);
        assert!(child.work_dir.starts_with("/tmp/first/first-31-"));
        assert!(child.work_dir.ends_with("/run_1"));
        assert_eq!(child.work_dir.len(), "/tmp/first/first-31-".len() + 36 + "/run_1".len());
        assert!(!leaves.contains(&child.work_dir));
        leaves.push(child.work_dir.clone());
    }
}
