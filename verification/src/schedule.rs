//! The whole schedule: a supervisor together with the children that it
//! runs.
//!
//! The supervisor and its children are separate processes. Here they are
//! put together in a model: an execution child reads its configuration from
//! the variables that the supervisor gave it, counts the crash points of the
//! workload, and at its target writes its crash record and is killed; a
//! verify child ends normally. The laws of this module say what the
//! supervisor does in that company.

use crate::env::CrashInfoView;
use crate::orchestrator::{
    all_passed_line, execution_child, initial, kill_signal, passed_line, transition, verify_child,
    ActionView, ChildExit, ChildView, EventView, OrchestratorView, StageView, StepView,
};
use crate::record::{absent_seed, crash_in_lines, crash_record, unknown_label};
use crate::rt::{config_of, fresh, run_outcome, Phase, RuntimeConfig};
use crate::text::decimal;
use crate::workspace::leaf_of;
use vstd::prelude::*;

verus! {

/// The value that the variables `env` give to `name`: that of the last
/// entry under that name.
pub open spec fn lookup(env: Seq<(Seq<char>, Seq<char>)>, name: Seq<char>) -> Option<Seq<char>>
    decreases env.len(),
{
    if env.len() == 0 {
        None
    } else if env.last().0 == name {
        Some(env.last().1)
    } else {
        lookup(env.drop_last(), name)
    }
}

/// The configuration that a child reads from its variables.
pub open spec fn child_config(child: ChildView) -> RuntimeConfig {
    config_of(lookup(child.env, "FIRST_PHASE"@), lookup(child.env, "FIRST_CRASH_TARGET"@))
}

/// How the execution child `child` ends, where its workload reaches crash
/// points with `labels`, in this order, and `seed` is the seed that it finds
/// in its environment.
///
/// Where a crash point ends it, the child has written the crash record as
/// the one line of its error output and has been killed. Otherwise it has
/// written nothing and ended with exit code 0.
#[verifier::opaque]
pub open spec fn execution_ends(child: ChildView, labels: Seq<Seq<char>>, seed: Option<Seq<char>>)
    -> EventView {
    match run_outcome(fresh(child_config(child)), labels) {
        Some(crash) => EventView::ExecutionEnded {
            exit: ChildExit::Signal(kill_signal()),
            stderr: seq![
                crash_record(
                    crash.point_id as nat,
                    crash.label,
                    match seed {
                        Some(s) => s,
                        None => absent_seed(),
                    },
                    match lookup(child.env, "FIRST_WORK_DIR"@) {
                        Some(dir) => dir,
                        None => unknown_label(),
                    },
                ),
            ],
        },
        None => EventView::ExecutionEnded { exit: ChildExit::Code(0), stderr: seq![] },
    }
}

/// The steps of a supervisor from `state` and `event` on, where every
/// execution child runs a workload that reaches crash points with `labels`
/// and every verify child ends normally. The supervisor is followed through
/// at most `children` further children.
#[verifier::opaque]
pub open spec fn supervise(
    state: OrchestratorView,
    event: EventView,
    labels: Seq<Seq<char>>,
    seed: Option<Seq<char>>,
    children: nat,
) -> Seq<StepView>
    decreases children,
{
    let next = transition(state, event);
    if children == 0 {
        seq![next.step]
    } else {
        match next.step.action {
            ActionView::Execute(child) => seq![next.step] + supervise(
                next.state,
                execution_ends(child, labels, seed),
                labels,
                seed,
                (children - 1) as nat,
            ),
            ActionView::Verify(_) => seq![next.step] + supervise(
                next.state,
                EventView::VerifyEnded { exit: ChildExit::Code(0) },
                labels,
                seed,
                (children - 1) as nat,
            ),
            ActionView::Exit(_) => seq![next.step],
        }
    }
}

/// The step that asks for the first execution child.
pub open spec fn first_step(state: OrchestratorView) -> StepView {
    StepView {
        report: seq![],
        remove: None,
        action: ActionView::Execute(
            execution_child(state.test_name, 1, leaf_of(state.base_dir, 1)),
        ),
    }
}

/// The step that asks for the verify child of the crash target `target`,
/// after a crash at that crash point under its label.
pub open spec fn verify_step(state: OrchestratorView, labels: Seq<Seq<char>>, target: usize)
    -> StepView {
    StepView {
        report: seq![],
        remove: None,
        action: ActionView::Verify(
            verify_child(
                state.test_name,
                target,
                leaf_of(state.base_dir, target),
                CrashInfoView { point_id: target, label: labels[target - 1] },
            ),
        ),
    }
}

/// The step that reports the crash target `passed` as passed and asks for
/// the execution child of the next one.
pub open spec fn advance_step(state: OrchestratorView, passed: usize) -> StepView {
    let next = (passed + 1) as usize;
    StepView {
        report: seq![passed_line(passed)],
        remove: if state.keep_artifacts {
            None
        } else {
            Some(leaf_of(state.base_dir, passed))
        },
        action: ActionView::Execute(
            execution_child(state.test_name, next, leaf_of(state.base_dir, next)),
        ),
    }
}

/// The step that ends a schedule of `count` crash points, all passed.
pub open spec fn passed_step(state: OrchestratorView, count: nat) -> StepView {
    StepView {
        report: seq![all_passed_line(count)],
        remove: Some(leaf_of(state.base_dir, (count + 1) as usize)),
        action: ActionView::Exit(0),
    }
}

/// An execution child reads from its variables the execution phase, the
/// target that the supervisor chose for it, and its workspace.
pub proof fn lemma_execution_child_config(
    test_name: Option<Seq<char>>,
    target: usize,
    work_dir: Seq<char>,
)
    ensures
        child_config(execution_child(test_name, target, work_dir)) == (RuntimeConfig {
            phase: Phase::Execution,
            target_crash_point: target,
        }),
        lookup(execution_child(test_name, target, work_dir).env, "FIRST_WORK_DIR"@) == Some(
            work_dir,
        ),
{
    let env = execution_child(test_name, target, work_dir).env;
    reveal_strlit("FIRST_PHASE");
    reveal_strlit("FIRST_CRASH_TARGET");
    reveal_strlit("FIRST_WORK_DIR");
    let two = seq![("FIRST_PHASE"@, "EXECUTION"@), ("FIRST_CRASH_TARGET"@, decimal(target as nat))];
    let one = seq![("FIRST_PHASE"@, "EXECUTION"@)];
    assert(env.drop_last() =~= two);
    assert(two.drop_last() =~= one);
    assert("FIRST_WORK_DIR"@.len() != "FIRST_PHASE"@.len());
    assert("FIRST_WORK_DIR"@.len() != "FIRST_CRASH_TARGET"@.len());
    assert("FIRST_CRASH_TARGET"@.len() != "FIRST_PHASE"@.len());
    assert(lookup(two, "FIRST_PHASE"@) == lookup(one, "FIRST_PHASE"@));
    assert(lookup(env, "FIRST_PHASE"@) == lookup(two, "FIRST_PHASE"@));
    assert(lookup(two, "FIRST_CRASH_TARGET"@) == Some(decimal(target as nat)));
    assert(lookup(env, "FIRST_CRASH_TARGET"@) == lookup(two, "FIRST_CRASH_TARGET"@));
    crate::text::lemma_parse_decimal(target);
}

/// An execution child whose target is among the crash points of its
/// workload is killed there, and the supervisor asks for the verify child
/// of that crash.
proof fn lemma_crash_step(
    state: OrchestratorView,
    labels: Seq<Seq<char>>,
    seed: Option<Seq<char>>,
)
    requires
        state.stage == StageView::Executing,
        1 <= state.target <= labels.len(),
    ensures
        ({
            let child = execution_child(
                state.test_name,
                state.target,
                leaf_of(state.base_dir, state.target),
            );
            let next = transition(state, execution_ends(child, labels, seed));
            &&& next.step == verify_step(state, labels, state.target)
            &&& next.state == OrchestratorView {
                stage: StageView::Verifying(
                    CrashInfoView { point_id: state.target, label: labels[state.target - 1] },
                ),
                ..state
            }
        }),
{
    reveal(transition);
    reveal(execution_ends);
    let target = state.target;
    let work_dir = leaf_of(state.base_dir, target);
    let child = execution_child(state.test_name, target, work_dir);
    let event = execution_ends(child, labels, seed);
    let config = RuntimeConfig { phase: Phase::Execution, target_crash_point: target };
    lemma_execution_child_config(state.test_name, target, work_dir);
    crate::rt::lemma_crash_at_target(config, labels);
    let label = labels[target - 1];
    let seed_text = match seed {
        Some(s) => s,
        None => absent_seed(),
    };
    let record = crash_record(target as nat, label, seed_text, work_dir);
    assert(event == EventView::ExecutionEnded {
        exit: ChildExit::Signal(kill_signal()),
        stderr: seq![record],
    });
    crate::record::lemma_record_line_round_trip(
        Seq::empty(),
        target,
        label,
        seed_text,
        work_dir,
        Seq::empty(),
    );
    assert(Seq::<Seq<char>>::empty() + seq![record] + Seq::<Seq<char>>::empty() =~= seq![record]);
}

/// An execution child whose target is one more than the crash points of
/// its workload ends normally, and the supervisor ends the schedule as
/// passed.
proof fn lemma_exhausted_step(
    state: OrchestratorView,
    labels: Seq<Seq<char>>,
    seed: Option<Seq<char>>,
)
    requires
        state.stage == StageView::Executing,
        state.target == labels.len() + 1,
    ensures
        ({
            let child = execution_child(
                state.test_name,
                state.target,
                leaf_of(state.base_dir, state.target),
            );
            let next = transition(state, execution_ends(child, labels, seed));
            next.step == passed_step(state, labels.len())
        }),
{
    reveal(transition);
    reveal(execution_ends);
    let target = state.target;
    let work_dir = leaf_of(state.base_dir, target);
    let child = execution_child(state.test_name, target, work_dir);
    let event = execution_ends(child, labels, seed);
    let config = RuntimeConfig { phase: Phase::Execution, target_crash_point: target };
    lemma_execution_child_config(state.test_name, target, work_dir);
    crate::rt::lemma_crash_at_target(config, labels);
    assert(event == EventView::ExecutionEnded { exit: ChildExit::Code(0), stderr: seq![] });
    assert(crash_in_lines(Seq::<Seq<char>>::empty()) is None);
}

/// When a verify child has ended normally, the supervisor reports the
/// target as passed and asks for the execution child of the next one.
proof fn lemma_advance_step(state: OrchestratorView)
    requires
        state.stage is Verifying,
        state.target < usize::MAX,
    ensures
        ({
            let next = transition(state, EventView::VerifyEnded { exit: ChildExit::Code(0) });
            &&& next.step == advance_step(state, state.target)
            &&& next.state == OrchestratorView {
                target: (state.target + 1) as usize,
                stage: StageView::Executing,
                ..state
            }
        }),
{
    reveal(transition);
}

/// The steps of a passing schedule from the end of the execution child of
/// the target `target` on: for each target up to the last crash point, the
/// verification of the crash and the advance to the next target, and behind
/// the last crash point the end as passed.
pub open spec fn passing_schedule_from(
    start: OrchestratorView,
    labels: Seq<Seq<char>>,
    target: int,
) -> Seq<StepView>
    decreases labels.len() + 1 - target,
{
    if target < 1 || target > labels.len() {
        seq![passed_step(start, labels.len())]
    } else {
        seq![verify_step(start, labels, target as usize), advance_step(start, target as usize)]
            + passing_schedule_from(start, labels, target + 1)
    }
}

/// The steps of a schedule that passes, for a workload that reaches crash
/// points with `labels`: the first execution is asked for; then each target
/// in turn is verified and, reported as passed, followed by the execution
/// of the next; and behind the last crash point the schedule ends as
/// passed.
pub open spec fn passing_schedule(start: OrchestratorView, labels: Seq<Seq<char>>) -> Seq<
    StepView,
> {
    seq![first_step(start)] + passing_schedule_from(start, labels, 1)
}

/// What `supervise` is, one step at a time.
proof fn lemma_supervise_unfolds(
    state: OrchestratorView,
    event: EventView,
    labels: Seq<Seq<char>>,
    seed: Option<Seq<char>>,
    children: nat,
)
    ensures
        children == 0 || transition(state, event).step.action is Exit ==> supervise(
            state,
            event,
            labels,
            seed,
            children,
        ) == seq![transition(state, event).step],
        children > 0 ==> (transition(state, event).step.action matches ActionView::Execute(child)
            ==> supervise(state, event, labels, seed, children) == seq![
            transition(state, event).step,
        ] + supervise(
            transition(state, event).state,
            execution_ends(child, labels, seed),
            labels,
            seed,
            (children - 1) as nat,
        )),
        children > 0 && transition(state, event).step.action is Verify ==> supervise(
            state,
            event,
            labels,
            seed,
            children,
        ) == seq![transition(state, event).step] + supervise(
            transition(state, event).state,
            EventView::VerifyEnded { exit: ChildExit::Code(0) },
            labels,
            seed,
            (children - 1) as nat,
        ),
{
    reveal(supervise);
}

/// The supervisor's steps from the moment at which the execution child of
/// the target `target` ends are those of a passing schedule.
proof fn lemma_schedule_from(
    start: OrchestratorView,
    state: OrchestratorView,
    labels: Seq<Seq<char>>,
    seed: Option<Seq<char>>,
    target: usize,
)
    requires
        state == (OrchestratorView { target, stage: StageView::Executing, ..start }),
        1 <= target <= labels.len() + 1,
        labels.len() < usize::MAX,
    ensures
        supervise(
            state,
            execution_ends(
                execution_child(start.test_name, target, leaf_of(start.base_dir, target)),
                labels,
                seed,
            ),
            labels,
            seed,
            (2 * (labels.len() + 1 - target)) as nat,
        ) == passing_schedule_from(start, labels, target as int),
    decreases labels.len() + 1 - target,
{
    let left = labels.len() + 1 - target;
    let child = execution_child(start.test_name, target, leaf_of(start.base_dir, target));
    let event = execution_ends(child, labels, seed);
    if target == labels.len() + 1 {
        lemma_exhausted_step(state, labels, seed);
        lemma_supervise_unfolds(state, event, labels, seed, 0);
    } else {
        lemma_crash_step(state, labels, seed);
        let first = transition(state, event);
        let passed = EventView::VerifyEnded { exit: ChildExit::Code(0) };
        lemma_advance_step(first.state);
        let second = transition(first.state, passed);
        let next = (target + 1) as usize;
        lemma_schedule_from(start, second.state, labels, seed, next);
        let later = passing_schedule_from(start, labels, next as int);
        lemma_supervise_unfolds(state, event, labels, seed, (2 * left) as nat);
        lemma_supervise_unfolds(first.state, passed, labels, seed, (2 * left - 1) as nat);
        assert(seq![first.step] + (seq![second.step] + later) =~= seq![first.step, second.step]
            + later);
    }
}

/// Schedule completeness. For a workload that reaches `K` crash points on
/// every run, and a verifier that passes after each crash, the supervisor
/// takes the steps of the passing schedule. It asks for the first execution
/// child; then, for each target from 1 to `K` in turn, for the verify child
/// of the crash at that crash point, under that crash point's label, and,
/// the target reported as passed, for the execution child of the next
/// target; and when that of target `K + 1` has ended normally, it reports
/// that all `K` crash points passed and ends with exit code 0. So there are
/// `K` cycles of execution and verification, and one more execution.
pub proof fn lemma_schedule_completeness(
    base_dir: Seq<char>,
    test_name: Option<Seq<char>>,
    keep_artifacts: bool,
    labels: Seq<Seq<char>>,
    seed: Option<Seq<char>>,
)
    requires
        labels.len() < usize::MAX,
    ensures
        supervise(
            initial(base_dir, test_name, keep_artifacts),
            EventView::Started,
            labels,
            seed,
            (2 * labels.len() + 1) as nat,
        ) == passing_schedule(initial(base_dir, test_name, keep_artifacts), labels),
{
    let start = initial(base_dir, test_name, keep_artifacts);
    let first = transition(start, EventView::Started);
    assert(first.step == first_step(start) && first.state == OrchestratorView {
        stage: StageView::Executing,
        ..start
    }) by {
        reveal(transition);
    }
    lemma_schedule_from(start, first.state, labels, seed, 1);
    lemma_supervise_unfolds(
        start,
        EventView::Started,
        labels,
        seed,
        (2 * labels.len() + 1) as nat,
    );
}

/// A passing schedule of `K` crash points has `2K + 2` steps, of which the
/// last one ends the schedule as passed.
pub proof fn lemma_passing_schedule_len(start: OrchestratorView, labels: Seq<Seq<char>>)
    ensures
        passing_schedule(start, labels).len() == 2 * labels.len() + 2,
        passing_schedule(start, labels).last() == passed_step(start, labels.len()),
{
    lemma_passing_schedule_from_len(start, labels, 1);
}

proof fn lemma_passing_schedule_from_len(
    start: OrchestratorView,
    labels: Seq<Seq<char>>,
    target: int,
)
    requires
        1 <= target <= labels.len() + 1,
    ensures
        passing_schedule_from(start, labels, target).len() == 2 * (labels.len() + 1 - target)
            + 1,
        passing_schedule_from(start, labels, target).last() == passed_step(start, labels.len()),
    decreases labels.len() + 1 - target,
{
    if target <= labels.len() {
        lemma_passing_schedule_from_len(start, labels, target + 1);
    }
}

/// In a passing schedule, the verification of the target `target` is step
/// number `2 * target - 1`, counted from 0, and the advance to the next
/// target is the step behind it.
pub proof fn lemma_passing_schedule_at(
    start: OrchestratorView,
    labels: Seq<Seq<char>>,
    target: usize,
)
    requires
        1 <= target <= labels.len(),
    ensures
        passing_schedule(start, labels)[2 * target - 1] == verify_step(start, labels, target),
        passing_schedule(start, labels)[2 * target] == advance_step(start, target),
{
    lemma_passing_schedule_from_at(start, labels, 1, target);
    lemma_passing_schedule_from_len(start, labels, 1);
}

proof fn lemma_passing_schedule_from_at(
    start: OrchestratorView,
    labels: Seq<Seq<char>>,
    from: int,
    target: usize,
)
    requires
        1 <= from <= target <= labels.len(),
    ensures
        passing_schedule_from(start, labels, from)[2 * (target - from)] == verify_step(
            start,
            labels,
            target,
        ),
        passing_schedule_from(start, labels, from)[2 * (target - from) + 1] == advance_step(
            start,
            target,
        ),
    decreases target - from,
{
    if from < target {
        lemma_passing_schedule_from_at(start, labels, from + 1, target);
        lemma_passing_schedule_from_len(start, labels, from + 1);
    }
}

} // verus!
