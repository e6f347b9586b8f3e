use first::rt::{
    crash_point, init_runtime, runtime, Phase, Runtime, RuntimeConfig, TestError, NEVER_CRASH,
};

#[test]
fn test_crash_point_noop_in_orchestrator() {
    // Without the variables the process is the orchestrator.
    let mut rt = Runtime::new(init_runtime(None, None));
    crash_point(&mut rt, "test_point_1");
    crash_point(&mut rt, "test_point_2");
    // Reaching this line shows that neither call asked for a crash.
    assert!(true);
}

#[test]
fn test_counter_stays_zero_in_orchestrator() {
    let mut rt = Runtime::new(init_runtime(None, None));
    let before = rt.counter();
    crash_point(&mut rt, "test");
    let after = rt.counter();
    assert_eq!(before, after);
}

#[test]
fn test_runtime_is_cached() {
    let rt = Runtime::new(init_runtime(None, None));
    let r1 = runtime(&rt);
    let r2 = runtime(&rt);
    assert!(std::ptr::eq(r1, r2));
}

#[test]
fn phase_comes_from_the_phase_variable() {
    assert_eq!(init_runtime(None, None).phase, Phase::Orchestrator);
    assert_eq!(init_runtime(Some("EXECUTION"), None).phase, Phase::Execution);
    assert_eq!(init_runtime(Some("VERIFY"), None).phase, Phase::Verify);
    assert_eq!(init_runtime(Some("execution"), None).phase, Phase::Orchestrator);
    assert_eq!(init_runtime(Some(""), None).phase, Phase::Orchestrator);
    assert_eq!(init_runtime(Some("ORCHESTRATOR"), None).phase, Phase::Orchestrator);
}

#[test]
fn target_counts_in_the_execution_phase_only() {
    assert_eq!(
        init_runtime(Some("EXECUTION"), Some("3")),
        RuntimeConfig { phase: Phase::Execution, target_crash_point: 3 }
    );
    assert_eq!(init_runtime(Some("EXECUTION"), None).target_crash_point, NEVER_CRASH);
    assert_eq!(init_runtime(Some("EXECUTION"), Some("three")).target_crash_point, NEVER_CRASH);
    assert_eq!(init_runtime(Some("EXECUTION"), Some("")).target_crash_point, NEVER_CRASH);
    assert_eq!(init_runtime(Some("EXECUTION"), Some("0")).target_crash_point, 0);
    assert_eq!(init_runtime(Some("VERIFY"), Some("3")).target_crash_point, NEVER_CRASH);
    assert_eq!(init_runtime(None, Some("3")).target_crash_point, NEVER_CRASH);
    assert_eq!(NEVER_CRASH, usize::MAX);
}

#[test]
fn first_target_crashes_at_the_first_crash_point() {
    let mut rt = Runtime::new(init_runtime(Some("EXECUTION"), Some("1")));
    let hit = crash_point(&mut rt, "first").expect("the first crash point is the target");
    assert_eq!(hit.point_id, 1);
    assert_eq!(hit.label, "first");
    assert_eq!(rt.counter(), 1);
}

#[test]
fn crash_points_are_numbered_in_the_order_they_are_reached() {
    let mut rt = Runtime::new(init_runtime(Some("EXECUTION"), Some("1000")));
    for i in 1..=10usize {
        assert!(crash_point(&mut rt, "step").is_none());
        assert_eq!(rt.counter(), i);
    }
}

#[test]
fn the_target_crash_point_carries_its_own_label() {
    let labels = ["after_begin", "after_write", "after_sync", "after_commit"];
    for target in 1..=labels.len() {
        let text = target.to_string();
        let mut rt = Runtime::new(init_runtime(Some("EXECUTION"), Some(&text)));
        let mut hit = None;
        for label in labels {
            hit = crash_point(&mut rt, label);
            if hit.is_some() {
                break;
            }
        }
        let hit = hit.expect("the target is among the crash points");
        assert_eq!(hit.point_id, target);
        assert_eq!(hit.label, labels[target - 1]);
        assert_eq!(rt.counter(), target);
    }
}

#[test]
fn two_runs_under_one_target_crash_at_the_same_label() {
    let labels = ["a", "b", "a", "c"];
    let run = || {
        let mut rt = Runtime::new(init_runtime(Some("EXECUTION"), Some("3")));
        for label in labels {
            if let Some(hit) = crash_point(&mut rt, label) {
                return Some((hit.point_id, hit.label));
            }
        }
        None
    };
    assert_eq!(run(), Some((3, String::from("a"))));
    assert_eq!(run(), run());
}

#[test]
fn a_target_beyond_the_workload_never_crashes() {
    let mut rt = Runtime::new(init_runtime(Some("EXECUTION"), Some("4")));
    for label in ["a", "b", "c"] {
        assert!(crash_point(&mut rt, label).is_none());
    }
    assert_eq!(rt.counter(), 3);
}

#[test]
fn target_zero_never_crashes() {
    let mut rt = Runtime::new(init_runtime(Some("EXECUTION"), Some("0")));
    for _ in 0..5 {
        assert!(crash_point(&mut rt, "x").is_none());
    }
    assert_eq!(rt.counter(), 5);
}

#[test]
fn crash_point_is_a_noop_in_the_verify_phase() {
    let mut rt = Runtime::new(init_runtime(Some("VERIFY"), Some("1")));
    for _ in 0..3 {
        assert!(crash_point(&mut rt, "x").is_none());
        assert_eq!(rt.counter(), 0);
    }
    assert_eq!(runtime(&rt).phase, Phase::Verify);
}

#[test]
fn a_new_runtime_has_counted_nothing() {
    let config = RuntimeConfig { phase: Phase::Execution, target_crash_point: 2 };
    let rt = Runtime::new(config);
    assert_eq!(rt.counter(), 0);
    assert_eq!(*runtime(&rt), config);
}

#[test]
fn a_child_executes_one_test_only() {
    for phase in ["EXECUTION", "VERIFY"] {
        let mut rt = Runtime::new(init_runtime(Some(phase), Some("2")));
        assert_eq!(rt.begin_test(), Ok(()));
        assert!(crash_point(&mut rt, "a").is_none());
        assert_eq!(rt.begin_test(), Err(TestError::SecondTest));
        assert_eq!(rt.begin_test(), Err(TestError::SecondTest));
        // The refusal leaves the count as it was.
        let counted = rt.counter();
        assert_eq!(rt.begin_test(), Err(TestError::SecondTest));
        assert_eq!(rt.counter(), counted);
    }
}

#[test]
fn the_orchestrator_executes_any_number_of_tests() {
    let mut rt = Runtime::new(init_runtime(None, None));
    for _ in 0..5 {
        assert_eq!(rt.begin_test(), Ok(()));
    }
}

#[test]
fn the_variables_have_their_names() {
    assert_eq!(first::rt::ENV_PHASE, "FIRST_PHASE");
    assert_eq!(first::rt::ENV_CRASH_TARGET, "FIRST_CRASH_TARGET");
    assert_eq!(first::rt::ENV_WORK_DIR, "FIRST_WORK_DIR");
    assert_eq!(first::rt::ENV_CRASH_POINT_ID, "FIRST_CRASH_POINT_ID");
    assert_eq!(first::rt::ENV_CRASH_LABEL, "FIRST_CRASH_LABEL");
    assert_eq!(first::rt::ENV_SEED, "FIRST_SEED");
    assert_eq!(first::rt::ENV_KEEP_ARTIFACTS, "FIRST_KEEP_ARTIFACTS");
}
