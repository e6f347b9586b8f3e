//! The supervisor of a test: what it runs next, and what it makes of the
//! way a child ended.
//!
//! The supervisor explores the crash points of a workload one by one. For
//! the target `N`, counted from 1, it runs an execution child that is killed
//! at its `N`-th crash point, then a verify child on what the crash left
//! behind, and goes on to `N + 1`. An execution child that ends normally has
//! met no `N`-th crash point: the schedule is exhausted and the test has
//! passed.
//!
//! Running children is the caller's part. This module decides: the caller
//! tells [`run`] how the last child ended, and is told what to do next.

use crate::env::{CrashInfo, CrashInfoView};
use crate::record::{crash_in_lines, parse_crash_metadata, unknown_label};
use crate::rt::{ENV_CRASH_LABEL, ENV_CRASH_POINT_ID, ENV_CRASH_TARGET, ENV_PHASE, ENV_WORK_DIR};
use crate::text::{decimal, push_decimal, push_signed, signed_decimal};
use crate::workspace::{allocate_base, base_dir_of, is_run_id, leaf, leaf_of};
use vstd::prelude::*;

verus! {

/// The exit code of a process that the kill signal ended, as a shell
/// reports it: 128 plus the signal's number.
pub const SIGKILL_EXIT_CODE: i32 = 137;

/// The number of the signal that ends a process at once and cannot be
/// caught.
pub open spec fn kill_signal() -> i32 {
    9
}

/// The number of the kill signal, `libc::SIGKILL`.
///
/// Trusted: that it is 9, as `libc` defines it on every platform on which
/// it defines the signal.
#[verifier::external_body]
fn sigkill() -> (signal: i32)
    ensures
        signal == kill_signal(),
{
    libc::SIGKILL
}

/// How a child process ended, as the operating system reported it.
#[derive(Debug, Clone, Copy, PartialEq, Eq, Structural)]
pub enum ChildExit {
    /// The child ended by itself, with this exit code.
    Code(i32),
    /// This signal ended the child.
    Signal(i32),
    /// The child ended, with neither an exit code nor a signal reported.
    Unknown,
    /// The child could not be started, or could not be waited for.
    NotRun,
}

/// What the way a child ended means to the supervisor.
#[derive(Debug)]
pub enum ChildResult {
    /// The child ran to its end.
    Success,
    /// The child was killed, as at a crash point.
    Crashed(CrashInfo),
    /// The child failed, with this exit code.
    Failed(i32),
}

/// A `ChildResult` as contracts see it.
pub enum ChildResultView {
    Success,
    Crashed(CrashInfoView),
    Failed(i32),
}

impl View for ChildResult {
    type V = ChildResultView;

    open spec fn view(&self) -> ChildResultView {
        match self {
            ChildResult::Success => ChildResultView::Success,
            ChildResult::Crashed(info) => ChildResultView::Crashed(info@),
            ChildResult::Failed(code) => ChildResultView::Failed(*code),
        }
    }
}

/// Whether the child was ended by the kill signal, or ended itself with the
/// exit code that stands for it.
pub open spec fn was_killed(exit: ChildExit) -> bool {
    exit == ChildExit::Code(SIGKILL_EXIT_CODE) || exit == ChildExit::Signal(kill_signal())
}

/// The crash assumed where a child was killed and left no crash record.
pub open spec fn unknown_crash() -> CrashInfoView {
    CrashInfoView { point_id: 0, label: unknown_label() }
}

/// The exit code under which a failed child is reported.
pub open spec fn failure_code(exit: ChildExit) -> i32 {
    match exit {
        ChildExit::Code(code) => code,
        ChildExit::Signal(_) => -1i32,
        ChildExit::Unknown => -1i32,
        ChildExit::NotRun => 1i32,
    }
}

/// What `exit` means, for a child whose error output told of `crash`.
///
/// Exit code 0 is success. A kill is a crash, and it counts as one whether
/// or not a crash record was found. Everything else is a failure.
pub open spec fn interpreted(exit: ChildExit, crash: Option<CrashInfoView>) -> ChildResultView {
    if exit == ChildExit::Code(0) {
        ChildResultView::Success
    } else if was_killed(exit) {
        ChildResultView::Crashed(
            match crash {
                Some(info) => info,
                None => unknown_crash(),
            },
        )
    } else {
        ChildResultView::Failed(failure_code(exit))
    }
}

/// Says what the way a child ended means to the supervisor.
///
/// `crash_info` is the crash that the child's error output told of, if it
/// told of one.
pub fn interpret_exit_status(exit: ChildExit, crash_info: Option<CrashInfo>) -> (result:
    ChildResult)
    ensures
        result@ == interpreted(exit, crash_info.deep_view()),
{
    let killed = match exit {
        ChildExit::Code(code) => {
            if code == 0 {
                return ChildResult::Success;
            }
            code == SIGKILL_EXIT_CODE
        },
        ChildExit::Signal(signal) => signal == sigkill(),
        _ => false,
    };
    if killed {
        let info = match crash_info {
            Some(info) => info,
            None => CrashInfo::new(0, String::from_str("unknown")),
        };
        return ChildResult::Crashed(info);
    }
    match exit {
        ChildExit::Code(code) => ChildResult::Failed(code),
        ChildExit::NotRun => ChildResult::Failed(1),
        _ => ChildResult::Failed(-1),
    }
}

/// A child process for the caller to run: the test binary itself, run
/// again with these arguments, and with these variables added to its
/// environment.
#[derive(Debug)]
pub struct Child {
    /// The workspace of the child.
    pub work_dir: String,
    /// The variables to set, each with its value.
    pub env: Vec<(String, String)>,
    /// The arguments to pass.
    pub args: Vec<String>,
}

/// A `Child` as contracts see it.
pub struct ChildView {
    pub work_dir: Seq<char>,
    pub env: Seq<(Seq<char>, Seq<char>)>,
    pub args: Seq<Seq<char>>,
}

impl View for Child {
    type V = ChildView;

    open spec fn view(&self) -> ChildView {
        ChildView {
            work_dir: self.work_dir@,
            env: self.env.deep_view(),
            args: self.args.deep_view(),
        }
    }
}

/// The arguments that make the test binary run the test `test_name` and no
/// other; none where the name is not known.
pub open spec fn child_args(test_name: Option<Seq<char>>) -> Seq<Seq<char>> {
    match test_name {
        Some(name) => seq![name, "--"@, "--exact"@],
        None => seq![],
    }
}

/// The variables of an execution child.
pub open spec fn execution_env(target: usize, work_dir: Seq<char>) -> Seq<(Seq<char>, Seq<char>)> {
    seq![
        ("FIRST_PHASE"@, "EXECUTION"@),
        ("FIRST_CRASH_TARGET"@, decimal(target as nat)),
        ("FIRST_WORK_DIR"@, work_dir),
    ]
}

/// The variables of a verify child.
pub open spec fn verify_env(target: usize, work_dir: Seq<char>, crash: CrashInfoView) -> Seq<
    (Seq<char>, Seq<char>),
> {
    seq![
        ("FIRST_PHASE"@, "VERIFY"@),
        ("FIRST_CRASH_TARGET"@, decimal(target as nat)),
        ("FIRST_WORK_DIR"@, work_dir),
        ("FIRST_CRASH_POINT_ID"@, decimal(crash.point_id as nat)),
        ("FIRST_CRASH_LABEL"@, crash.label),
    ]
}

/// The execution child of the crash target `target`.
pub open spec fn execution_child(
    test_name: Option<Seq<char>>,
    target: usize,
    work_dir: Seq<char>,
) -> ChildView {
    ChildView { work_dir, env: execution_env(target, work_dir), args: child_args(test_name) }
}

/// The verify child that follows the crash `crash` under the target
/// `target`.
pub open spec fn verify_child(
    test_name: Option<Seq<char>>,
    target: usize,
    work_dir: Seq<char>,
    crash: CrashInfoView,
) -> ChildView {
    ChildView { work_dir, env: verify_env(target, work_dir, crash), args: child_args(test_name) }
}

fn decimal_string(n: usize) -> (s: String)
    ensures
        s@ == decimal(n as nat),
{
    let mut s = String::new();
    push_decimal(&mut s, n as u64);
    s
}

fn variable(name: &str, value: String) -> (pair: (String, String))
    ensures
        pair.deep_view() == (name@, value@),
{
    (String::from_str(name), value)
}

fn filter_args(test_name: &Option<String>) -> (args: Vec<String>)
    ensures
        args.deep_view() == child_args(test_name.deep_view()),
{
    let mut args: Vec<String> = Vec::new();
    match test_name {
        Some(name) => {
            args.push(name.clone());
            args.push(String::from_str("--"));
            args.push(String::from_str("--exact"));
            assert(args.deep_view() =~= child_args(test_name.deep_view()));
        },
        None => {
            assert(args.deep_view() =~= child_args(test_name.deep_view()));
        },
    }
    args
}

impl Child {
    /// The execution child of the crash target `target`, to be run in
    /// `work_dir`.
    ///
    /// The child learns its phase, its target and its workspace from
    /// `FIRST_PHASE`, `FIRST_CRASH_TARGET` and `FIRST_WORK_DIR`. Where the
    /// name of the test is known, its arguments make it run that test
    /// alone.
    pub fn execution(test_name: &Option<String>, target: usize, work_dir: &str) -> (child: Child)
        ensures
            child@ == execution_child(test_name.deep_view(), target, work_dir@),
    {
        let mut env: Vec<(String, String)> = Vec::new();
        env.push(variable(ENV_PHASE, String::from_str("EXECUTION")));
        env.push(variable(ENV_CRASH_TARGET, decimal_string(target)));
        env.push(variable(ENV_WORK_DIR, String::from_str(work_dir)));
        assert(env.deep_view() =~= execution_env(target, work_dir@));
        Child { work_dir: String::from_str(work_dir), env, args: filter_args(test_name) }
    }

    /// The verify child that follows the crash `crash_info` under the
    /// target `target`, to be run in `work_dir`.
    ///
    /// Besides what an execution child is told, it learns of the crash from
    /// `FIRST_CRASH_POINT_ID` and `FIRST_CRASH_LABEL`.
    pub fn verification(
        test_name: &Option<String>,
        target: usize,
        work_dir: &str,
        crash_info: &CrashInfo,
    ) -> (child: Child)
        ensures
            child@ == verify_child(test_name.deep_view(), target, work_dir@, crash_info@),
    {
        let mut env: Vec<(String, String)> = Vec::new();
        env.push(variable(ENV_PHASE, String::from_str("VERIFY")));
        env.push(variable(ENV_CRASH_TARGET, decimal_string(target)));
        env.push(variable(ENV_WORK_DIR, String::from_str(work_dir)));
        env.push(variable(ENV_CRASH_POINT_ID, decimal_string(crash_info.point_id)));
        env.push(variable(ENV_CRASH_LABEL, crash_info.label.clone()));
        assert(env.deep_view() =~= verify_env(target, work_dir@, crash_info@));
        Child { work_dir: String::from_str(work_dir), env, args: filter_args(test_name) }
    }
}

/// Whether `arg` is written as an option of the test binary.
pub open spec fn is_flag(arg: Seq<char>) -> bool {
    arg.len() > 0 && arg[0] == '-'
}

/// The first of `args`, from index `from` on, that is no option.
pub open spec fn first_plain_arg(args: Seq<Seq<char>>, from: int) -> Option<Seq<char>>
    decreases args.len() - from,
{
    if from < 0 || from >= args.len() {
        None
    } else if !is_flag(args[from]) {
        Some(args[from])
    } else {
        first_plain_arg(args, from + 1)
    }
}

/// The name of the test that a process runs, as far as its command line
/// `args` and the name of its thread tell.
///
/// It is the first argument behind the program's own name that is no
/// option; without one, the name of the thread, unless that is `main`.
pub open spec fn test_name_of(args: Seq<Seq<char>>, thread_name: Option<Seq<char>>) -> Option<
    Seq<char>,
> {
    match first_plain_arg(args, 1) {
        Some(name) => Some(name),
        None => match thread_name {
            Some(name) if name != "main"@ => Some(name),
            _ => None,
        },
    }
}

/// Finds the name of the running test, so that a child can be told to run
/// that test alone.
pub fn extract_test_name(args: &Vec<String>, thread_name: Option<&str>) -> (name: Option<String>)
    ensures
        name.deep_view() == test_name_of(args.deep_view(), thread_name.deep_view()),
{
    let ghost all = args.deep_view();
    let mut i: usize = 1;
    while i < args.len()
        invariant
            1 <= i,
            all == args.deep_view(),
            first_plain_arg(all, 1) == first_plain_arg(all, i as int),
        decreases args.len() - i,
    {
        assert(all[i as int] == args@[i as int]@);
        let chars = crate::text::to_chars(args[i].as_str());
        if !(chars.len() > 0 && chars[0] == '-') {
            return Some(args[i].clone());
        }
        i += 1;
    }
    match thread_name {
        Some(name) => {
            if crate::text::same_text(name, "main") {
                None
            } else {
                Some(String::from_str(name))
            }
        },
        None => None,
    }
}

/// What is put behind `cargo test` to run the test `test_name` alone.
pub open spec fn test_filter(test_name: Option<Seq<char>>) -> Seq<char> {
    match test_name {
        Some(name) => " "@ + name,
        None => Seq::empty(),
    }
}

/// The line that tells of a crash point that passed.
pub open spec fn passed_line(target: usize) -> Seq<char> {
    "[first] crash point "@ + decimal(target as nat) + ": OK"@
}

/// The line that tells that all `count` crash points passed.
pub open spec fn all_passed_line(count: nat) -> Seq<char> {
    "[first] all "@ + decimal(count) + " crash points passed"@
}

/// The line that tells of a crash point that failed, and where to look.
pub open spec fn failed_line(target: usize, work_dir: Seq<char>) -> Seq<char> {
    "[first] crash point "@ + decimal(target as nat) + ": FAILED (see "@ + work_dir + ")"@
}

/// The command that runs the failed execution again.
pub open spec fn execution_command(
    target: usize,
    work_dir: Seq<char>,
    test_name: Option<Seq<char>>,
) -> Seq<char> {
    "  FIRST_PHASE=EXECUTION FIRST_CRASH_TARGET="@ + decimal(target as nat) + " FIRST_WORK_DIR="@
        + work_dir + " cargo test"@ + test_filter(test_name) + " -- --exact"@
}

/// The command that runs the failed verification again.
pub open spec fn verify_command(
    target: usize,
    work_dir: Seq<char>,
    crash: CrashInfoView,
    test_name: Option<Seq<char>>,
) -> Seq<char> {
    "  FIRST_PHASE=VERIFY FIRST_CRASH_TARGET="@ + decimal(target as nat) + " FIRST_WORK_DIR="@
        + work_dir + " FIRST_CRASH_POINT_ID="@ + decimal(crash.point_id as nat)
        + " FIRST_CRASH_LABEL=\""@ + crash.label + "\" cargo test"@ + test_filter(test_name)
        + " -- --exact"@
}

/// The report of an execution child that failed with `code`.
pub open spec fn execution_failure(
    target: usize,
    work_dir: Seq<char>,
    code: i32,
    test_name: Option<Seq<char>>,
) -> Seq<Seq<char>> {
    seq![
        failed_line(target, work_dir),
        "[first] execution failed with exit code "@ + signed_decimal(code as int),
        "[first] to reproduce:"@,
        execution_command(target, work_dir, test_name),
    ]
}

/// The report of a verification that failed for `reason`.
pub open spec fn verify_failure(
    target: usize,
    work_dir: Seq<char>,
    crash: CrashInfoView,
    test_name: Option<Seq<char>>,
    reason: Seq<char>,
) -> Seq<Seq<char>> {
    seq![
        failed_line(target, work_dir),
        "[first] crash label: \""@ + crash.label + "\""@,
        "[first] reason: "@ + reason,
        "[first] to reproduce:"@,
        verify_command(target, work_dir, crash, test_name),
    ]
}

/// The reason given for a verify child that failed with `code`.
pub open spec fn exit_code_reason(code: i32) -> Seq<char> {
    "verification failed with exit code "@ + signed_decimal(code as int)
}

/// The reason given for a verify child that was killed.
pub open spec fn killed_reason() -> Seq<char> {
    "verify phase crashed unexpectedly"@
}

fn push_filter(line: &mut String, test_name: &Option<String>)
    ensures
        final(line)@ == old(line)@ + test_filter(test_name.deep_view()),
{
    match test_name {
        Some(name) => {
            let ghost before = line@;
            line.append(" ");
            line.append(name.as_str());
            assert(line@ =~= before + (" "@ + name@));
        },
        None => {
            assert(line@ =~= line@ + Seq::<char>::empty());
        },
    }
}

fn failed_line_text(target: usize, work_dir: &str) -> (line: String)
    ensures
        line@ == failed_line(target, work_dir@),
{
    let mut line = String::from_str("[first] crash point ");
    push_decimal(&mut line, target as u64);
    line.append(": FAILED (see ");
    line.append(work_dir);
    line.append(")");
    line
}

/// The lines that report an execution child that failed with `code`: what
/// failed and where to look, and the command that runs it again.
pub fn execution_failure_info(
    target: usize,
    work_dir: &str,
    code: i32,
    test_name: &Option<String>,
) -> (report: Vec<String>)
    ensures
        report.deep_view() == execution_failure(target, work_dir@, code, test_name.deep_view()),
{
    let mut reason = String::from_str("[first] execution failed with exit code ");
    push_signed(&mut reason, code);
    let mut command = String::from_str("  FIRST_PHASE=EXECUTION FIRST_CRASH_TARGET=");
    push_decimal(&mut command, target as u64);
    command.append(" FIRST_WORK_DIR=");
    command.append(work_dir);
    command.append(" cargo test");
    push_filter(&mut command, test_name);
    command.append(" -- --exact");
    let mut report: Vec<String> = Vec::new();
    report.push(failed_line_text(target, work_dir));
    report.push(reason);
    report.push(String::from_str("[first] to reproduce:"));
    report.push(command);
    assert(report.deep_view() =~= execution_failure(
        target,
        work_dir@,
        code,
        test_name.deep_view(),
    ));
    report
}

/// The lines that report a failed verification: the crash point and where
/// to look, the label of the crash, the reason, and the command that runs
/// the verification again on what the crash left in `work_dir`.
pub fn verify_failure_info(
    target: usize,
    work_dir: &str,
    crash_info: &CrashInfo,
    test_name: &Option<String>,
    reason: &str,
) -> (report: Vec<String>)
    ensures
        report.deep_view() == verify_failure(
            target,
            work_dir@,
            crash_info@,
            test_name.deep_view(),
            reason@,
        ),
{
    let mut label = String::from_str("[first] crash label: \"");
    label.append(crash_info.label.as_str());
    label.append("\"");
    let mut why = String::from_str("[first] reason: ");
    why.append(reason);
    let mut command = String::from_str("  FIRST_PHASE=VERIFY FIRST_CRASH_TARGET=");
    push_decimal(&mut command, target as u64);
    command.append(" FIRST_WORK_DIR=");
    command.append(work_dir);
    command.append(" FIRST_CRASH_POINT_ID=");
    push_decimal(&mut command, crash_info.point_id as u64);
    command.append(" FIRST_CRASH_LABEL=\"");
    command.append(crash_info.label.as_str());
    command.append("\" cargo test");
    push_filter(&mut command, test_name);
    command.append(" -- --exact");
    let mut report: Vec<String> = Vec::new();
    report.push(failed_line_text(target, work_dir));
    report.push(label);
    report.push(why);
    report.push(String::from_str("[first] to reproduce:"));
    report.push(command);
    assert(report.deep_view() =~= verify_failure(
        target,
        work_dir@,
        crash_info@,
        test_name.deep_view(),
        reason@,
    ));
    report
}

/// What the supervisor is waiting for.
#[derive(Debug)]
pub enum Stage {
    /// Nothing has run yet.
    Ready,
    /// The execution child of the current target is running.
    Executing,
    /// The verify child that follows this crash is running.
    Verifying(CrashInfo),
    /// The supervision is over.
    Finished,
}

/// A `Stage` as contracts see it.
pub enum StageView {
    Ready,
    Executing,
    Verifying(CrashInfoView),
    Finished,
}

impl View for Stage {
    type V = StageView;

    open spec fn view(&self) -> StageView {
        match self {
            Stage::Ready => StageView::Ready,
            Stage::Executing => StageView::Executing,
            Stage::Verifying(crash) => StageView::Verifying(crash@),
            Stage::Finished => StageView::Finished,
        }
    }
}

/// The state of a supervisor.
#[derive(Debug)]
pub struct Orchestrator {
    base_dir: String,
    test_name: Option<String>,
    keep_artifacts: bool,
    target: usize,
    stage: Stage,
}

/// An `Orchestrator` as contracts see it.
pub struct OrchestratorView {
    /// The base directory of the invocation.
    pub base_dir: Seq<char>,
    /// The test that the children are told to run, if it is known.
    pub test_name: Option<Seq<char>>,
    /// Whether the leaf directory of a crash point that passed is kept.
    pub keep_artifacts: bool,
    /// The crash target that is being explored, counted from 1.
    pub target: usize,
    /// What the supervisor is waiting for.
    pub stage: StageView,
}

impl View for Orchestrator {
    type V = OrchestratorView;

    closed spec fn view(&self) -> OrchestratorView {
        OrchestratorView {
            base_dir: self.base_dir@,
            test_name: self.test_name.deep_view(),
            keep_artifacts: self.keep_artifacts,
            target: self.target,
            stage: self.stage@,
        }
    }
}

/// What the caller tells the supervisor.
#[derive(Debug)]
pub enum Event {
    /// The supervision begins.
    Started,
    /// The execution child ended in this way, and these are the lines of
    /// its error output.
    ExecutionEnded { exit: ChildExit, stderr: Vec<String> },
    /// The verify child ended in this way.
    VerifyEnded { exit: ChildExit },
}

/// An `Event` as contracts see it.
pub enum EventView {
    Started,
    ExecutionEnded { exit: ChildExit, stderr: Seq<Seq<char>> },
    VerifyEnded { exit: ChildExit },
}

impl View for Event {
    type V = EventView;

    open spec fn view(&self) -> EventView {
        match self {
            Event::Started => EventView::Started,
            Event::ExecutionEnded { exit, stderr } => EventView::ExecutionEnded {
                exit: *exit,
                stderr: stderr.deep_view(),
            },
            Event::VerifyEnded { exit } => EventView::VerifyEnded { exit: *exit },
        }
    }
}

/// What the caller is to do next.
#[derive(Debug)]
pub enum Action {
    /// Create the child's workspace, run the child with its error output
    /// captured, and tell how it ended with `Event::ExecutionEnded`.
    Execute(Child),
    /// Run the child with its error output passed on to the user, and tell
    /// how it ended with `Event::VerifyEnded`.
    Verify(Child),
    /// End the supervision: the test has passed where the code is 0, and
    /// failed where it is 1.
    Exit(i32),
}

/// An `Action` as contracts see it.
pub enum ActionView {
    Execute(ChildView),
    Verify(ChildView),
    Exit(i32),
}

impl View for Action {
    type V = ActionView;

    open spec fn view(&self) -> ActionView {
        match self {
            Action::Execute(child) => ActionView::Execute(child@),
            Action::Verify(child) => ActionView::Verify(child@),
            Action::Exit(code) => ActionView::Exit(*code),
        }
    }
}

/// One decision of the supervisor.
#[derive(Debug)]
pub struct Step {
    /// Lines to write to the supervisor's error output, in this order.
    pub report: Vec<String>,
    /// A leaf directory to remove with all that it holds; a failure to
    /// remove it is of no account.
    pub remove: Option<String>,
    /// What to do then.
    pub action: Action,
}

/// A `Step` as contracts see it.
pub struct StepView {
    pub report: Seq<Seq<char>>,
    pub remove: Option<Seq<char>>,
    pub action: ActionView,
}

impl View for Step {
    type V = StepView;

    open spec fn view(&self) -> StepView {
        StepView {
            report: self.report.deep_view(),
            remove: self.remove.deep_view(),
            action: self.action@,
        }
    }
}

/// The state in which every supervision begins: the first crash target is
/// 1.
pub open spec fn initial(base_dir: Seq<char>, test_name: Option<Seq<char>>, keep_artifacts: bool)
    -> OrchestratorView {
    OrchestratorView { base_dir, test_name, keep_artifacts, target: 1, stage: StageView::Ready }
}

/// Whether `event` is what a supervisor in `state` waits for.
///
/// A verify child that ended normally moves the supervisor on to the next
/// target, so the target must not be the largest number there is.
pub open spec fn accepts(state: OrchestratorView, event: EventView) -> bool {
    match (state.stage, event) {
        (StageView::Ready, EventView::Started) => true,
        (StageView::Executing, EventView::ExecutionEnded { .. }) => true,
        (StageView::Verifying(_), EventView::VerifyEnded { exit }) => exit == ChildExit::Code(0)
            ==> state.target < usize::MAX,
        _ => false,
    }
}

/// A state together with the step that led to it.
pub struct Transition {
    pub state: OrchestratorView,
    pub step: StepView,
}

/// The state `state` in another stage.
pub open spec fn in_stage(state: OrchestratorView, stage: StageView) -> OrchestratorView {
    OrchestratorView { stage, ..state }
}

/// The step that ends the supervision with a failure.
pub open spec fn failing(state: OrchestratorView, report: Seq<Seq<char>>) -> Transition {
    Transition {
        state: in_stage(state, StageView::Finished),
        step: StepView { report, remove: None, action: ActionView::Exit(1) },
    }
}

/// What a supervisor in `state` does on `event`, and the state that it is
/// in then.
#[verifier::opaque]
pub open spec fn transition(state: OrchestratorView, event: EventView) -> Transition {
    let work_dir = leaf_of(state.base_dir, state.target);
    match event {
        EventView::Started => Transition {
            state: in_stage(state, StageView::Executing),
            step: StepView {
                report: seq![],
                remove: None,
                action: ActionView::Execute(
                    execution_child(state.test_name, state.target, work_dir),
                ),
            },
        },
        EventView::ExecutionEnded { exit, stderr } => match interpreted(
            exit,
            crash_in_lines(stderr),
        ) {
            ChildResultView::Success => Transition {
                state: in_stage(state, StageView::Finished),
                step: StepView {
                    report: seq![all_passed_line((state.target - 1) as nat)],
                    remove: Some(work_dir),
                    action: ActionView::Exit(0),
                },
            },
            ChildResultView::Crashed(crash) => Transition {
                state: in_stage(state, StageView::Verifying(crash)),
                step: StepView {
                    report: seq![],
                    remove: None,
                    action: ActionView::Verify(
                        verify_child(state.test_name, state.target, work_dir, crash),
                    ),
                },
            },
            ChildResultView::Failed(code) => failing(
                state,
                execution_failure(state.target, work_dir, code, state.test_name),
            ),
        },
        EventView::VerifyEnded { exit } => {
            let crash = match state.stage {
                StageView::Verifying(crash) => crash,
                _ => unknown_crash(),
            };
            match interpreted(exit, None) {
                ChildResultView::Success => {
                    let next = (state.target + 1) as usize;
                    Transition {
                        state: OrchestratorView {
                            target: next,
                            stage: StageView::Executing,
                            ..state
                        },
                        step: StepView {
                            report: seq![passed_line(state.target)],
                            remove: if state.keep_artifacts {
                                None
                            } else {
                                Some(work_dir)
                            },
                            action: ActionView::Execute(
                                execution_child(
                                    state.test_name,
                                    next,
                                    leaf_of(state.base_dir, next),
                                ),
                            ),
                        },
                    }
                },
                ChildResultView::Crashed(_) => failing(
                    state,
                    verify_failure(
                        state.target,
                        work_dir,
                        crash,
                        state.test_name,
                        killed_reason(),
                    ),
                ),
                ChildResultView::Failed(code) => failing(
                    state,
                    verify_failure(
                        state.target,
                        work_dir,
                        crash,
                        state.test_name,
                        exit_code_reason(code),
                    ),
                ),
            }
        },
    }
}

impl Orchestrator {
    /// Crash targets are counted from 1.
    #[verifier::type_invariant]
    spec fn counts_from_one(&self) -> bool {
        self.target >= 1
    }

    /// A supervisor that has run nothing yet.
    ///
    /// `base_dir` is the base directory of the invocation, `test_name` the
    /// test that the children are to run, and `keep_artifacts` says whether
    /// the leaf directory of a crash point that passed is kept.
    pub fn new(base_dir: String, test_name: Option<String>, keep_artifacts: bool) -> (state: Self)
        ensures
            state@ == initial(base_dir@, test_name.deep_view(), keep_artifacts),
    {
        Orchestrator { base_dir, test_name, keep_artifacts, target: 1, stage: Stage::Ready }
    }

    /// A supervisor for a new invocation, with a base directory of its own
    /// below the temporary directory `tmp`: `<tmp>/first/first-<pid>-<uuid>`
    /// with the supervisor's process id `pid` and a fresh random UUID.
    pub fn start(tmp: &str, pid: u32, test_name: Option<String>, keep_artifacts: bool) -> (state:
        Self)
        ensures
            exists|id: Seq<char>|
                is_run_id(id) && state@ == initial(
                    #[trigger] base_dir_of(tmp@, pid, id),
                    test_name.deep_view(),
                    keep_artifacts,
                ),
    {
        Orchestrator::new(allocate_base(tmp, pid), test_name, keep_artifacts)
    }

    /// The crash target that is being explored.
    pub fn target(&self) -> (target: usize)
        ensures
            target == self@.target,
    {
        self.target
    }

    /// Whether `event` is what the supervisor waits for.
    pub fn accepts(&self, event: &Event) -> (ok: bool)
        ensures
            ok == accepts(self@, event@),
    {
        match (&self.stage, event) {
            (Stage::Ready, Event::Started) => true,
            (Stage::Executing, Event::ExecutionEnded { .. }) => true,
            (Stage::Verifying(_), Event::VerifyEnded { exit }) => match exit {
                ChildExit::Code(code) => *code != 0 || self.target < usize::MAX,
                _ => true,
            },
            _ => false,
        }
    }
}

fn fail(state: &mut Orchestrator, report: Vec<String>) -> (step: Step)
    ensures
        final(state)@ == failing(old(state)@, report.deep_view()).state,
        step@ == failing(old(state)@, report.deep_view()).step,
{
    proof {
        use_type_invariant(&*state);
    }
    state.stage = Stage::Finished;
    Step { report, remove: None, action: Action::Exit(1) }
}

/// One turn of the supervisor's loop.
///
/// At the start, the first execution child is to be run. When an execution
/// child has ended:
/// - with exit code 0, the schedule is exhausted: the unused leaf directory
///   is removed and the test has passed;
/// - killed, the crash is read from its error output, or assumed unknown
///   where it left no record, and the verify child is to be run;
/// - in any other way, the execution is reported as failed.
///
/// When a verify child has ended:
/// - with exit code 0, the crash point has passed: its leaf directory is
///   removed unless artifacts are kept, and the execution child of the next
///   target is to be run;
/// - in any other way, the verification is reported as failed, with the
///   command that runs it again.
///
/// A verify child is asked for exactly when the execution child was killed.
pub fn run(state: &mut Orchestrator, event: Event) -> (step: Step)
    requires
        accepts(old(state)@, event@),
    ensures
        final(state)@ == transition(old(state)@, event@).state,
        step@ == transition(old(state)@, event@).step,
        event@ matches EventView::ExecutionEnded { exit, .. } ==> (step@.action is Verify
            <==> was_killed(exit)),
{
    proof {
        use_type_invariant(&*state);
        reveal(transition);
    }
    let work_dir = leaf(state.base_dir.as_str(), state.target);
    match event {
        Event::Started => {
            let child = Child::execution(&state.test_name, state.target, work_dir.as_str());
            state.stage = Stage::Executing;
            let report: Vec<String> = Vec::new();
            assert(report.deep_view() =~= seq![]);
            Step { report, remove: None, action: Action::Execute(child) }
        },
        Event::ExecutionEnded { exit, stderr } => {
            let crash = parse_crash_metadata(&stderr);
            match interpret_exit_status(exit, crash) {
                ChildResult::Success => {
                    let mut line = String::from_str("[first] all ");
                    push_decimal(&mut line, (state.target - 1) as u64);
                    line.append(" crash points passed");
                    let mut report: Vec<String> = Vec::new();
                    report.push(line);
                    assert(report.deep_view() =~= seq![
                        all_passed_line((state.target - 1) as nat),
                    ]);
                    state.stage = Stage::Finished;
                    Step { report, remove: Some(work_dir), action: Action::Exit(0) }
                },
                ChildResult::Crashed(crash) => {
                    let child = Child::verification(
                        &state.test_name,
                        state.target,
                        work_dir.as_str(),
                        &crash,
                    );
                    state.stage = Stage::Verifying(crash);
                    let report: Vec<String> = Vec::new();
                    assert(report.deep_view() =~= seq![]);
                    Step { report, remove: None, action: Action::Verify(child) }
                },
                ChildResult::Failed(code) => {
                    let report = execution_failure_info(
                        state.target,
                        work_dir.as_str(),
                        code,
                        &state.test_name,
                    );
                    fail(state, report)
                },
            }
        },
        Event::VerifyEnded { exit } => {
            let crash = match &state.stage {
                Stage::Verifying(crash) => crash.clone(),
                _ => CrashInfo::new(0, String::from_str("unknown")),
            };
            match interpret_exit_status(exit, None) {
                ChildResult::Success => {
                    let mut line = String::from_str("[first] crash point ");
                    push_decimal(&mut line, state.target as u64);
                    line.append(": OK");
                    let mut report: Vec<String> = Vec::new();
                    report.push(line);
                    assert(report.deep_view() =~= seq![passed_line(state.target)]);
                    let remove = if state.keep_artifacts {
                        None
                    } else {
                        Some(work_dir)
                    };
                    state.target = state.target + 1;
                    state.stage = Stage::Executing;
                    let next_dir = leaf(state.base_dir.as_str(), state.target);
                    let child = Child::execution(&state.test_name, state.target, next_dir.as_str());
                    Step { report, remove, action: Action::Execute(child) }
                },
                ChildResult::Crashed(_) => {
                    let report = verify_failure_info(
                        state.target,
                        work_dir.as_str(),
                        &crash,
                        &state.test_name,
                        "verify phase crashed unexpectedly",
                    );
                    fail(state, report)
                },
                ChildResult::Failed(code) => {
                    let mut reason = String::from_str("verification failed with exit code ");
                    push_signed(&mut reason, code);
                    let report = verify_failure_info(
                        state.target,
                        work_dir.as_str(),
                        &crash,
                        &state.test_name,
                        reason.as_str(),
                    );
                    fail(state, report)
                },
            }
        },
    }
}

/// Only a kill leads to a verification. When an execution child has
/// ended, the supervisor asks for a verify child if the child was killed,
/// whatever its error output held, and in no other case; and it never asks
/// for one at another moment.
pub proof fn lemma_verify_iff_killed(state: OrchestratorView, event: EventView)
    ensures
        transition(state, event).step.action is Verify <==> (event matches EventView::ExecutionEnded {
            exit,
            ..
        } && was_killed(exit)),
{
    reveal(transition);
}

} // verus!
