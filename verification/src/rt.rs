//! The runtime of one process: which phase it is in, and what a crash point
//! does there.
//!
//! A process is in one of three phases. Only in the execution phase do crash
//! points count: each one reached adds one to a counter, and the one whose
//! number is the target ends the process.

use crate::env::{CrashInfo, CrashInfoView};
use crate::text::{parse_number, parse_range, same_text, to_chars};
use vstd::prelude::*;

verus! {

/// The target of a process that no crash point ends.
pub const NEVER_CRASH: usize = usize::MAX;

/// The variable that selects the phase of a process.
pub const ENV_PHASE: &'static str = "FIRST_PHASE";

/// The variable that holds the crash target of an execution child.
pub const ENV_CRASH_TARGET: &'static str = "FIRST_CRASH_TARGET";

/// The variable that holds the workspace of a child.
pub const ENV_WORK_DIR: &'static str = "FIRST_WORK_DIR";

/// The variable that tells a verify child at which crash point the crash
/// came.
pub const ENV_CRASH_POINT_ID: &'static str = "FIRST_CRASH_POINT_ID";

/// The variable that tells a verify child the label of the crash.
pub const ENV_CRASH_LABEL: &'static str = "FIRST_CRASH_LABEL";

/// The variable whose value is written into the crash record as the seed.
pub const ENV_SEED: &'static str = "FIRST_SEED";

/// The variable that, when set, keeps the leaf directories of crash points
/// that passed.
pub const ENV_KEEP_ARTIFACTS: &'static str = "FIRST_KEEP_ARTIFACTS";

/// What a process is there for.
#[derive(Debug, Clone, Copy, PartialEq, Eq, Structural)]
pub enum Phase {
    /// It supervises the children and runs neither closure.
    Orchestrator,
    /// It runs the workload and may be killed at the target crash point.
    Execution,
    /// It runs the verifier on what a crash left behind.
    Verify,
}

/// The configuration of a process, fixed when the process starts.
#[derive(Debug, Clone, Copy, PartialEq, Eq, Structural)]
pub struct RuntimeConfig {
    /// The phase of the process.
    pub phase: Phase,
    /// The number of the crash point that ends the process, counted from 1.
    /// Outside the execution phase it is `NEVER_CRASH`.
    pub target_crash_point: usize,
}

/// The phase that the value of `FIRST_PHASE` selects.
pub open spec fn phase_of(var: Option<Seq<char>>) -> Phase {
    if var == Some("EXECUTION"@) {
        Phase::Execution
    } else if var == Some("VERIFY"@) {
        Phase::Verify
    } else {
        Phase::Orchestrator
    }
}

/// The target that the value of `FIRST_CRASH_TARGET` selects in `phase`.
pub open spec fn target_of(phase: Phase, var: Option<Seq<char>>) -> usize {
    match var {
        Some(text) if phase == Phase::Execution => match parse_number(text) {
            Some(n) => n,
            None => NEVER_CRASH,
        },
        _ => NEVER_CRASH,
    }
}

/// The configuration that the two variables select.
pub open spec fn config_of(phase_var: Option<Seq<char>>, target_var: Option<Seq<char>>)
    -> RuntimeConfig {
    RuntimeConfig {
        phase: phase_of(phase_var),
        target_crash_point: target_of(phase_of(phase_var), target_var),
    }
}

/// The configuration of a process whose environment holds `phase_var` as
/// `FIRST_PHASE` and `target_var` as `FIRST_CRASH_TARGET`.
///
/// `EXECUTION` and `VERIFY` select their phases; anything else, or no
/// value, selects the orchestrator. The target counts in the execution
/// phase only; a missing or unreadable target there means that no crash
/// point ends the process.
pub fn init_runtime(phase_var: Option<&str>, target_var: Option<&str>) -> (config: RuntimeConfig)
    ensures
        config == config_of(phase_var.deep_view(), target_var.deep_view()),
{
    let phase = match phase_var {
        Some(text) => {
            if same_text(text, "EXECUTION") {
                Phase::Execution
            } else if same_text(text, "VERIFY") {
                Phase::Verify
            } else {
                Phase::Orchestrator
            }
        },
        None => Phase::Orchestrator,
    };
    let target_crash_point = match (phase, target_var) {
        (Phase::Execution, Some(text)) => {
            let chars = to_chars(text);
            assert(chars@.subrange(0, chars@.len() as int) =~= chars@);
            match parse_range(&chars, 0, chars.len()) {
                Some(n) => n,
                None => NEVER_CRASH,
            }
        },
        _ => NEVER_CRASH,
    };
    RuntimeConfig { phase, target_crash_point }
}

/// The runtime of a process as contracts see it.
pub struct RuntimeView {
    /// The configuration of the process.
    pub config: RuntimeConfig,
    /// How many crash points the process has counted.
    pub counter: nat,
    /// Whether a test has begun in the process.
    pub begun: bool,
}

/// The runtime of a process: its configuration, its count of crash points,
/// and whether a test has begun in it. The count starts at zero and never
/// goes down.
#[derive(Debug)]
pub struct Runtime {
    config: RuntimeConfig,
    counter: usize,
    begun: bool,
}

impl View for Runtime {
    type V = RuntimeView;

    closed spec fn view(&self) -> RuntimeView {
        RuntimeView { config: self.config, counter: self.counter as nat, begun: self.begun }
    }
}

/// The runtime of a process that has counted no crash point and begun no
/// test yet.
pub open spec fn fresh(config: RuntimeConfig) -> RuntimeView {
    RuntimeView { config, counter: 0, begun: false }
}

/// Why a test may not begin.
#[derive(Debug, Clone, Copy, PartialEq, Eq, Structural)]
pub enum TestError {
    /// Another test has begun in this child process before. Crash points
    /// are counted by the process, so a child runs one test only.
    SecondTest,
}

/// Whether a test may begin in a process whose runtime is `rt`: always in
/// the orchestrator, and in a child unless one has begun before.
pub open spec fn may_begin(rt: RuntimeView) -> bool {
    rt.config.phase == Phase::Orchestrator || !rt.begun
}

/// Whether the next crash point that `rt` reaches ends the process.
pub open spec fn crashes_next(rt: RuntimeView) -> bool {
    rt.config.phase == Phase::Execution && rt.counter + 1 == rt.config.target_crash_point
}

/// The runtime after `rt` has reached one more crash point.
pub open spec fn after_crash_point(rt: RuntimeView) -> RuntimeView {
    if rt.config.phase == Phase::Execution {
        RuntimeView { counter: rt.counter + 1, ..rt }
    } else {
        rt
    }
}

impl Runtime {
    /// The runtime of a process that starts under `config`.
    pub fn new(config: RuntimeConfig) -> (rt: Self)
        ensures
            rt@ == fresh(config),
    {
        Runtime { config, counter: 0, begun: false }
    }

    /// Notes that a test is about to be executed in the process, and says
    /// whether it may be.
    ///
    /// The orchestrator may execute any number of tests. A child executes
    /// one: a second test in an execution or verify process is refused, and
    /// the runtime stays as it is.
    pub fn begin_test(&mut self) -> (begin: Result<(), TestError>)
        ensures
            match begin {
                Ok(_) => may_begin(old(self)@) && final(self)@ == (RuntimeView {
                    begun: true,
                    ..old(self)@
                }),
                Err(e) => !may_begin(old(self)@) && e == TestError::SecondTest && final(self)@
                    == old(self)@,
            },
    {
        if self.begun && self.config.phase != Phase::Orchestrator {
            Err(TestError::SecondTest)
        } else {
            self.begun = true;
            Ok(())
        }
    }

    /// How many crash points the process has counted.
    pub fn counter(&self) -> (n: usize)
        ensures
            n == self@.counter,
    {
        self.counter
    }
}

/// The configuration kept in `rt`: the same one at every call.
pub fn runtime(rt: &Runtime) -> (config: &RuntimeConfig)
    ensures
        *config == rt@.config,
{
    &rt.config
}

/// The crash that the next crash point of `rt` brings about, under `label`.
pub open spec fn crash_at_next(rt: RuntimeView, label: Seq<char>) -> Option<CrashInfoView> {
    if crashes_next(rt) {
        Some(CrashInfoView { point_id: (rt.counter + 1) as usize, label })
    } else {
        None
    }
}

/// Marks a place where the workload may be killed.
///
/// Outside the execution phase nothing happens: the count stays and the
/// result is `None`. In the execution phase the count goes up by one. Where
/// the new count is the target, the result is the crash that is now due,
/// with the new count and `label`: the caller must then write the crash
/// record and end the process at once, without cleanup. Otherwise the
/// result is `None` and the workload goes on.
///
/// The label takes no part in the decision. The runtime is taken by
/// exclusive reference, so two crash points never count at once: no number
/// is given twice and none is left out.
pub fn crash_point(rt: &mut Runtime, label: &str) -> (hit: Option<CrashInfo>)
    requires
        old(rt)@.config.phase == Phase::Execution ==> old(rt)@.counter < usize::MAX,
    ensures
        final(rt)@ == after_crash_point(old(rt)@),
        hit.deep_view() == crash_at_next(old(rt)@, label@),
{
    match rt.config.phase {
        Phase::Execution => {
            rt.counter = rt.counter + 1;
            if rt.counter == rt.config.target_crash_point {
                Some(CrashInfo::new(rt.counter, String::from_str(label)))
            } else {
                None
            }
        },
        _ => None,
    }
}

/// The runtime after `rt` has reached `calls` crash points, none of which
/// ended the process.
pub open spec fn after_calls(rt: RuntimeView, calls: nat) -> RuntimeView
    decreases calls,
{
    if calls == 0 {
        rt
    } else {
        after_crash_point(after_calls(rt, (calls - 1) as nat))
    }
}

/// What becomes of a process that reaches crash points with these labels,
/// in this order: the crash that ends it, or `None` where it reaches them
/// all and goes on.
pub open spec fn run_outcome(rt: RuntimeView, labels: Seq<Seq<char>>) -> Option<CrashInfoView>
    decreases labels.len(),
{
    if labels.len() == 0 {
        None
    } else if crashes_next(rt) {
        crash_at_next(rt, labels[0])
    } else {
        run_outcome(after_crash_point(rt), labels.skip(1))
    }
}

/// In the execution phase the count after `calls` crash points is `calls`:
/// the first crash point is number 1, the second number 2, and so on. In
/// the other phases the runtime stays as it was.
pub proof fn lemma_counter_counts(rt: RuntimeView, calls: nat)
    ensures
        rt.config.phase == Phase::Execution ==> after_calls(rt, calls) == (RuntimeView {
            counter: rt.counter + calls,
            ..rt
        }),
        rt.config.phase != Phase::Execution ==> after_calls(rt, calls) == rt,
    decreases calls,
{
    if calls > 0 {
        lemma_counter_counts(rt, (calls - 1) as nat);
    }
}

/// Outside the execution phase no crash point ends the process, however
/// many it reaches.
pub proof fn lemma_no_crash_outside_execution(rt: RuntimeView, labels: Seq<Seq<char>>)
    requires
        rt.config.phase != Phase::Execution,
    ensures
        run_outcome(rt, labels) is None,
    decreases labels.len(),
{
    if labels.len() > 0 {
        lemma_no_crash_outside_execution(rt, labels.skip(1));
    }
}

/// A process in the execution phase that has counted `rt.counter` crash
/// points is ended by the one that brings the count to the target, under
/// that crash point's label; it runs on where the target is not among the
/// crash points still to come.
pub proof fn lemma_crash_from(rt: RuntimeView, labels: Seq<Seq<char>>)
    requires
        rt.config.phase == Phase::Execution,
    ensures
        run_outcome(rt, labels) == if rt.counter < rt.config.target_crash_point <= rt.counter
            + labels.len() {
            Some(
                CrashInfoView {
                    point_id: rt.config.target_crash_point,
                    label: labels[rt.config.target_crash_point - rt.counter - 1],
                },
            )
        } else {
            None
        },
    decreases labels.len(),
{
    if labels.len() > 0 && !crashes_next(rt) {
        lemma_crash_from(after_crash_point(rt), labels.skip(1));
    }
}

/// A fresh execution process with target `T` is ended at its `T`-th crash
/// point and carries that crash point's label, whenever the workload has at
/// least `T` crash points: so two runs of one workload under one target
/// crash at the same label. With fewer crash points, or none, it runs to
/// its end.
pub proof fn lemma_crash_at_target(config: RuntimeConfig, labels: Seq<Seq<char>>)
    requires
        config.phase == Phase::Execution,
    ensures
        run_outcome(fresh(config), labels) == if 1 <= config.target_crash_point <= labels.len() {
            Some(
                CrashInfoView {
                    point_id: config.target_crash_point,
                    label: labels[config.target_crash_point - 1],
                },
            )
        } else {
            None
        },
{
    lemma_crash_from(fresh(config), labels);
}

} // verus!
