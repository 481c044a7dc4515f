//! The run as a state machine over plain values: its phases, what each
//! transition leads to, and what holds of every run.
//!
//! A run goes through the enabled tasks in order. At each task boundary it
//! looks at the cancellation flag; a task is started, its command lines are
//! executed one by one, and the first that fails ends the task as failed
//! while the run goes on with the next task.

use vstd::prelude::*;
use crate::commands::plan_for;
use crate::config::Config;
use crate::executor::{lemma_forwarded_hides_credential, shows_prompt, ExecView};
use crate::log::{lemma_append_members, lemma_appends_bounded, lemma_appends_members, LogView};
use crate::steps::{
    lemma_advances_order, lemma_moves_advance, lemma_steps_for, pending_step, StepStatus,
    StepView, TrackerView,
};
use crate::task::{enabled_count, enabled_of, TaskView};
use crate::text::{has_substring, lines_of, non_empty};

verus! {

/// Where a run stands.
#[derive(Clone, Copy, Debug, PartialEq, Eq, Structural)]
pub enum RunPhase {
    /// No run was started yet.
    Idle,
    /// Between two tasks, before the first or after the last.
    Boundary,
    /// A task is running: one of its commands is to be executed.
    Executing,
    /// The run ended because cancellation was requested.
    Cancelled,
    /// The run ended after its last task.
    Completed,
}

impl RunPhase {
    /// A run is under way.
    pub open spec fn active(self) -> bool {
        self == RunPhase::Boundary || self == RunPhase::Executing
    }

    /// A run has ended.
    pub open spec fn terminal(self) -> bool {
        self == RunPhase::Cancelled || self == RunPhase::Completed
    }
}

/// An action as a plain value.
pub enum ActionView {
    Execute(Seq<char>),
    Finished,
}

/// First line of the log of a run.
pub open spec fn starting_line() -> Seq<char> {
    "Starting tasks..."@
}

/// The line that marks a cancelled run.
pub open spec fn cancelled_marker() -> Seq<char> {
    "\n=== Tasks cancelled ==="@
}

/// The line that marks a completed run.
pub open spec fn completion_banner() -> Seq<char> {
    "\n=== All tasks complete! ==="@
}

/// The line that follows the completion banner.
pub open spec fn return_hint() -> Seq<char> {
    "Press ESC to return"@
}

/// The line that opens the step of the task called `name`.
pub open spec fn step_header(name: Seq<char>) -> Seq<char> {
    "\n=== "@ + name + " ==="@
}

/// The line that closes a completed step.
pub open spec fn completed_line(name: Seq<char>) -> Seq<char> {
    "✓ "@ + name + " completed"@
}

/// The line that closes a failed step.
pub open spec fn failed_line(name: Seq<char>) -> Seq<char> {
    "✗ "@ + name + " failed"@
}

/// The line that closes a step.
pub open spec fn summary_line(name: Seq<char>, success: bool) -> Seq<char> {
    if success {
        completed_line(name)
    } else {
        failed_line(name)
    }
}

/// The command lines that are run: those that are not empty.
pub open spec fn runnable(lines: Seq<Seq<char>>) -> Seq<Seq<char>> {
    lines.filter(non_empty())
}

/// The command lines of a run over `tasks`: for each enabled task, in order,
/// the lines that it runs.
pub open spec fn plan_of(tasks: Seq<TaskView>, config: &Config, credential: Seq<char>) -> Seq<
    Seq<Seq<char>>,
> {
    enabled_of(tasks).map_values(|t: TaskView| runnable(plan_for(t.id, config, credential)))
}

/// The state of the orchestrator as plain values.
pub struct RunView {
    /// Where the run stands.
    pub phase: RunPhase,
    /// The steps and the position reached.
    pub tracker: TrackerView,
    /// The command lines of each step of a run under way.
    pub plan: Seq<Seq<Seq<char>>>,
    /// While a task runs: which of its command lines is next.
    pub next_command: nat,
    /// The log.
    pub log: LogView,
    /// Whether cancellation was requested.
    pub cancel_requested: bool,
    /// Whether the run went through its last task.
    pub run_complete: bool,
}

impl RunView {
    /// The invariant of the orchestrator.
    pub open spec fn wf(self) -> bool {
        &&& self.log.wf()
        &&& self.tracker.wf()
        &&& self.run_complete <==> self.phase == RunPhase::Completed
        &&& self.phase == RunPhase::Idle ==> self.tracker.steps.len() == 0
        &&& self.phase == RunPhase::Completed ==> self.tracker.current == self.tracker.steps.len()
        &&& self.phase.active() ==> self.plan.len() == self.tracker.steps.len()
        &&& !self.phase.active() ==> self.plan.len() == 0
        &&& self.phase == RunPhase::Executing <==> self.tracker.current_is(StepStatus::Running)
        &&& self.phase == RunPhase::Executing ==> self.next_command < self.plan[self.tracker.current as int].len()
    }

    /// The state in which a run over `tasks` starts. While a run is under
    /// way none is started, and the state stays as it is.
    pub open spec fn started(self, tasks: Seq<TaskView>, config: &Config, credential: Seq<char>) -> RunView {
        if self.phase.active() {
            self
        } else {
            RunView {
                phase: RunPhase::Boundary,
                tracker: TrackerView::for_tasks(tasks),
                plan: plan_of(tasks, config, credential),
                next_command: 0,
                log: self.log.cleared().with_line(starting_line()),
                cancel_requested: false,
                run_complete: false,
            }
        }
    }

    /// The state with cancellation requested.
    pub open spec fn cancelling(self) -> RunView {
        RunView { cancel_requested: true, ..self }
    }

    /// The name of the step at the position reached.
    pub open spec fn current_name(self) -> Seq<char> {
        self.tracker.steps[self.tracker.current as int].display_name
    }

    /// The command lines of the step at the position reached.
    pub open spec fn current_lines(self) -> Seq<Seq<char>> {
        self.plan[self.tracker.current as int]
    }

    /// The run ended as cancelled.
    pub open spec fn cancelled(self) -> RunView {
        RunView {
            phase: RunPhase::Cancelled,
            plan: Seq::empty(),
            log: self.log.with_line(cancelled_marker()),
            ..self
        }
    }

    /// The run ended after its last task.
    pub open spec fn completed(self) -> RunView {
        RunView {
            phase: RunPhase::Completed,
            plan: Seq::empty(),
            run_complete: true,
            log: self.log.with_line(completion_banner()).with_line(return_hint()),
            ..self
        }
    }

    /// The step at the position reached was started.
    pub open spec fn step_started(self) -> RunView {
        RunView {
            phase: RunPhase::Executing,
            tracker: self.tracker.started(),
            next_command: 0,
            log: self.log.with_line(step_header(self.current_name())),
            ..self
        }
    }

    /// The step at the position reached was skipped.
    pub open spec fn step_skipped(self) -> RunView {
        RunView { tracker: self.tracker.skipped(), ..self }
    }

    /// What a task boundary leads to. Where cancellation was requested, the
    /// run ends as cancelled and no step changes. After the last task the
    /// run ends as completed. A task without command lines is completed
    /// without a word in the log, and the next boundary decides. Any other
    /// task is started. In every other phase the state stays as it is.
    pub open spec fn advanced(self) -> RunView
        decreases self.tracker.steps.len() - self.tracker.current,
    {
        if self.phase != RunPhase::Boundary {
            self
        } else if self.cancel_requested {
            self.cancelled()
        } else if self.tracker.current >= self.tracker.steps.len() {
            self.completed()
        } else if !self.tracker.current_is(StepStatus::Pending) {
            self
        } else if self.current_lines().len() == 0 {
            self.step_skipped().advanced()
        } else {
            self.step_started()
        }
    }

    /// What is to be done in this state: while a task runs, its next command
    /// line is to be executed.
    pub open spec fn action(self) -> ActionView {
        if self.phase == RunPhase::Executing {
            ActionView::Execute(self.current_lines()[self.next_command as int])
        } else {
            ActionView::Finished
        }
    }

    /// The running step ended: its closing line is in the log, and the run
    /// stands at the next boundary.
    pub open spec fn step_ended(self, success: bool) -> RunView {
        RunView {
            phase: RunPhase::Boundary,
            tracker: self.tracker.ended(success),
            next_command: 0,
            log: self.log.with_line(summary_line(self.current_name(), success)),
            ..self
        }
    }

    /// The state after the command line that was handed out came back with
    /// `result`. What the result forwards goes to the log. A failure ends
    /// the step as failed; a success leads to the next command line of the
    /// step, or after the last ends the step as completed. While no task
    /// runs the state stays as it is.
    pub open spec fn recorded(self, result: ExecView) -> RunView {
        if self.phase != RunPhase::Executing {
            self
        } else {
            let logged = RunView { log: self.log.with_lines(result.forwarded()), ..self };
            if !result.success {
                logged.step_ended(false)
            } else if self.next_command + 1 < self.current_lines().len() {
                RunView { next_command: self.next_command + 1, ..logged }
            } else {
                logged.step_ended(true)
            }
        }
    }

    /// The state with the log replaced by the one line `line`. While a run is
    /// under way the log is not cleared, and the state stays as it is.
    pub open spec fn announced(self, line: Seq<char>) -> RunView {
        if self.phase.active() {
            self
        } else {
            RunView { log: self.log.cleared().with_line(line), ..self }
        }
    }
}

/// No line of `log` holds `secret`.
pub open spec fn log_free_of(log: LogView, secret: Seq<char>) -> bool {
    forall|i: int| 0 <= i < log.lines.len() ==> !has_substring(#[trigger] log.lines[i], secret)
}

/// None of the lines that a run itself writes about `steps` holds `secret`:
/// neither the fixed lines nor those that carry the name of a step.
pub open spec fn own_lines_free_of(steps: Seq<StepView>, secret: Seq<char>) -> bool {
    &&& !has_substring(starting_line(), secret)
    &&& !has_substring(cancelled_marker(), secret)
    &&& !has_substring(completion_banner(), secret)
    &&& !has_substring(return_hint(), secret)
    &&& forall|i: int|
        0 <= i < steps.len() ==> {
            &&& !has_substring(step_header((#[trigger] steps[i]).display_name), secret)
            &&& !has_substring(completed_line(steps[i].display_name), secret)
            &&& !has_substring(failed_line(steps[i].display_name), secret)
        }
}

/// A run starts with one pending step for each enabled task, in the order of
/// the tasks and under the task's name, at the boundary before the first.
pub proof fn lemma_run_start(
    state: RunView,
    tasks: Seq<TaskView>,
    config: &Config,
    credential: Seq<char>,
)
    requires
        state.wf(),
        !state.phase.active(),
    ensures
        state.started(tasks, config, credential).wf(),
        state.started(tasks, config, credential).phase == RunPhase::Boundary,
        state.started(tasks, config, credential).tracker.current == 0,
        state.started(tasks, config, credential).tracker.steps.len() == enabled_count(tasks),
        forall|i: int|
            0 <= i < enabled_count(tasks) ==> #[trigger] state.started(
                tasks,
                config,
                credential,
            ).tracker.steps[i] == pending_step(enabled_of(tasks)[i]),
        !state.started(tasks, config, credential).cancel_requested,
        !state.started(tasks, config, credential).run_complete,
        state.started(tasks, config, credential).log.lines == seq![starting_line()],
{
    lemma_steps_for(tasks);
    let log = state.log.cleared();
    assert(log.with_line(starting_line()).lines =~= seq![starting_line()]);
}

/// While a run is under way no other is started: the request changes
/// nothing.
pub proof fn lemma_one_run_at_a_time(
    state: RunView,
    tasks: Seq<TaskView>,
    config: &Config,
    credential: Seq<char>,
)
    requires
        state.phase.active(),
    ensures
        state.started(tasks, config, credential) == state,
{
}

/// A task boundary keeps the invariant, takes no step back, and never leaves
/// the run standing at the boundary: a step runs, or the run has ended. It
/// ends as cancelled just when cancellation was requested.
pub proof fn lemma_boundary(state: RunView)
    requires
        state.wf(),
    ensures
        state.advanced().wf(),
        state.tracker.advances_to(state.advanced().tracker),
        state.advanced().cancel_requested == state.cancel_requested,
        state.advanced().log.capacity == state.log.capacity,
        state.phase != RunPhase::Boundary ==> state.advanced() == state,
        state.phase == RunPhase::Boundary ==> {
            ||| state.advanced().phase == RunPhase::Executing
            ||| state.advanced().phase == RunPhase::Cancelled
            ||| state.advanced().phase == RunPhase::Completed
        },
        state.phase == RunPhase::Boundary ==> (state.advanced().phase == RunPhase::Cancelled
            <==> state.cancel_requested),
    decreases state.tracker.steps.len() - state.tracker.current,
{
    lemma_moves_advance(state.tracker, true);
    lemma_advances_order(state.tracker, state.tracker, state.tracker);
    if state.phase == RunPhase::Boundary && !state.cancel_requested && state.tracker.current
        < state.tracker.steps.len() && state.current_lines().len() == 0 {
        let next = state.step_skipped();
        lemma_boundary(next);
        lemma_advances_order(state.tracker, next.tracker, next.advanced().tracker);
    }
}

/// Where cancellation was requested before a step starts, the boundary ends
/// the run as cancelled: no step changes, so the steps from there on stay
/// pending and those before keep their outcome; the log gets the
/// cancellation marker and no completion banner; the run does not count as
/// complete.
pub proof fn lemma_cancel_at_boundary(state: RunView)
    requires
        state.wf(),
        state.phase == RunPhase::Boundary,
        state.cancel_requested,
    ensures
        state.advanced().phase == RunPhase::Cancelled,
        state.advanced().tracker == state.tracker,
        forall|i: int|
            state.tracker.current <= i < state.tracker.steps.len() ==> (
            #[trigger] state.advanced().tracker.steps[i]).status == StepStatus::Pending,
        forall|i: int|
            0 <= i < state.tracker.current ==> (
            #[trigger] state.advanced().tracker.steps[i]).status.finished(),
        state.advanced().log == state.log.with_line(cancelled_marker()),
        state.advanced().log.lines.last() == cancelled_marker(),
        !state.advanced().run_complete,
        state.advanced().action() == ActionView::Finished,
{
}

/// Once cancellation is requested no step starts any more: whatever the run
/// does next, the request stands and every step that was pending stays
/// pending. The step that was running may still end.
pub proof fn lemma_cancel_starts_no_step(state: RunView, result: ExecView, i: int)
    requires
        state.wf(),
        state.cancel_requested,
        0 <= i < state.tracker.steps.len(),
        state.tracker.steps[i].status == StepStatus::Pending,
    ensures
        state.advanced().cancel_requested,
        state.recorded(result).cancel_requested,
        state.advanced().tracker.steps[i].status == StepStatus::Pending,
        state.recorded(result).tracker.steps[i].status == StepStatus::Pending,
{
}

/// A run that ends as completed went through every step: each is completed
/// or failed, the log ends with the completion banner and the hint that
/// follows it, and the run counts as complete.
pub proof fn lemma_completion(state: RunView)
    requires
        state.wf(),
        state.phase == RunPhase::Boundary,
        state.advanced().phase == RunPhase::Completed,
    ensures
        !state.cancel_requested,
        state.advanced().run_complete,
        forall|i: int|
            0 <= i < state.advanced().tracker.steps.len() ==> (
            #[trigger] state.advanced().tracker.steps[i]).status.finished(),
        state.advanced().log.lines.len() >= 1,
        state.advanced().log.lines.last() == return_hint(),
        state.advanced().log.lines.len() >= 2 ==> state.advanced().log.lines[state.advanced().log.lines.len()
            - 2] == completion_banner(),
        state.advanced().action() == ActionView::Finished,
    decreases state.tracker.steps.len() - state.tracker.current,
{
    lemma_moves_advance(state.tracker, true);
    if !state.cancel_requested && state.tracker.current < state.tracker.steps.len()
        && state.current_lines().len() == 0 {
        lemma_completion(state.step_skipped());
    }
}

/// A result keeps the invariant and takes no step back. A failure ends the
/// running step as failed and a last success ends it as completed, and
/// either way the run goes on at the next boundary; any other success leads
/// to the next command line of the same step.
pub proof fn lemma_result(state: RunView, result: ExecView)
    requires
        state.wf(),
    ensures
        state.recorded(result).wf(),
        state.tracker.advances_to(state.recorded(result).tracker),
        state.recorded(result).cancel_requested == state.cancel_requested,
        state.recorded(result).run_complete == state.run_complete,
        state.recorded(result).log.capacity == state.log.capacity,
        state.phase != RunPhase::Executing ==> state.recorded(result) == state,
        state.phase == RunPhase::Executing && !result.success ==> {
            &&& state.recorded(result).phase == RunPhase::Boundary
            &&& state.recorded(result).tracker.current == state.tracker.current + 1
            &&& state.recorded(result).tracker.steps[state.tracker.current as int].status
                == StepStatus::Failed
        },
        state.phase == RunPhase::Executing && result.success && state.next_command + 1
            == state.current_lines().len() ==> {
            &&& state.recorded(result).phase == RunPhase::Boundary
            &&& state.recorded(result).tracker.current == state.tracker.current + 1
            &&& state.recorded(result).tracker.steps[state.tracker.current as int].status
                == StepStatus::Completed
        },
        state.phase == RunPhase::Executing && result.success && state.next_command + 1
            < state.current_lines().len() ==> {
            &&& state.recorded(result).phase == RunPhase::Executing
            &&& state.recorded(result).tracker == state.tracker
            &&& state.recorded(result).next_command == state.next_command + 1
        },
{
    lemma_moves_advance(state.tracker, result.success);
    lemma_advances_order(state.tracker, state.tracker, state.tracker);
    lemma_appends_bounded(state.log, result.forwarded());
}

/// A request for cancellation changes nothing but the flag: it stops no
/// command and ends no step.
pub proof fn lemma_cancel_request(state: RunView)
    requires
        state.wf(),
    ensures
        state.cancelling().wf(),
        state.cancelling().cancel_requested,
        state.cancelling().phase == state.phase,
        state.cancelling().tracker == state.tracker,
        state.cancelling().log == state.log,
        state.cancelling().run_complete == state.run_complete,
{
}

/// Once a run has ended it stays as it is: neither a boundary nor a result
/// nor a request for cancellation touches a step or the log, and the flag
/// that says whether it completed keeps its value.
pub proof fn lemma_ended_run_is_final(state: RunView, result: ExecView)
    requires
        state.phase.terminal(),
    ensures
        state.advanced() == state,
        state.recorded(result) == state,
        state.action() == ActionView::Finished,
        state.cancelling().tracker == state.tracker,
        state.cancelling().log == state.log,
        state.cancelling().run_complete == state.run_complete,
        state.cancelling().phase == state.phase,
{
}

/// The log of a run that starts holds the secret nowhere, where the line it
/// starts with does not.
pub proof fn lemma_start_keeps_secret(
    state: RunView,
    tasks: Seq<TaskView>,
    config: &Config,
    credential: Seq<char>,
    secret: Seq<char>,
)
    requires
        !state.phase.active(),
        !has_substring(starting_line(), secret),
    ensures
        log_free_of(state.started(tasks, config, credential).log, secret),
{
    let log = state.log.cleared();
    assert forall|i: int| 0 <= i < log.with_line(starting_line()).lines.len() implies !has_substring(
        #[trigger] log.with_line(starting_line()).lines[i],
        secret,
    ) by {
        lemma_append_members(log, starting_line(), i);
    }
}

/// A line that does not hold the secret, put into a log that holds it
/// nowhere, gives a log that holds it nowhere.
pub proof fn lemma_line_keeps_secret(log: LogView, line: Seq<char>, secret: Seq<char>)
    requires
        log_free_of(log, secret),
        !has_substring(line, secret),
    ensures
        log_free_of(log.with_line(line), secret),
{
    assert forall|i: int| 0 <= i < log.with_line(line).lines.len() implies !has_substring(
        #[trigger] log.with_line(line).lines[i],
        secret,
    ) by {
        lemma_append_members(log, line, i);
    }
}

/// A task boundary writes only lines of its own: where none of them holds
/// the secret and the log held it nowhere, the log still holds it nowhere.
pub proof fn lemma_boundary_keeps_secret(state: RunView, secret: Seq<char>)
    requires
        state.wf(),
        log_free_of(state.log, secret),
        own_lines_free_of(state.tracker.steps, secret),
    ensures
        log_free_of(state.advanced().log, secret),
    decreases state.tracker.steps.len() - state.tracker.current,
{
    if state.phase == RunPhase::Boundary {
        if state.cancel_requested {
            lemma_line_keeps_secret(state.log, cancelled_marker(), secret);
        } else if state.tracker.current >= state.tracker.steps.len() {
            lemma_line_keeps_secret(state.log, completion_banner(), secret);
            lemma_line_keeps_secret(
                state.log.with_line(completion_banner()),
                return_hint(),
                secret,
            );
        } else if state.current_lines().len() == 0 {
            let next = state.step_skipped();
            lemma_moves_advance(state.tracker, true);
            assert forall|i: int| 0 <= i < next.tracker.steps.len() implies {
                &&& !has_substring(step_header((#[trigger] next.tracker.steps[i]).display_name), secret)
                &&& !has_substring(completed_line(next.tracker.steps[i].display_name), secret)
                &&& !has_substring(failed_line(next.tracker.steps[i].display_name), secret)
            } by {
                assert(next.tracker.steps[i].display_name == state.tracker.steps[i].display_name);
            }
            lemma_boundary_keeps_secret(next, secret);
        } else {
            lemma_line_keeps_secret(state.log, step_header(state.current_name()), secret);
        }
    }
}

/// A result writes what it forwards and a closing line: where none of them
/// holds the secret and the log held it nowhere, the log still holds it
/// nowhere.
pub proof fn lemma_result_keeps_secret(state: RunView, result: ExecView, secret: Seq<char>)
    requires
        state.wf(),
        log_free_of(state.log, secret),
        own_lines_free_of(state.tracker.steps, secret),
        forall|i: int|
            0 <= i < result.forwarded().len() ==> !has_substring(
                #[trigger] result.forwarded()[i],
                secret,
            ),
    ensures
        log_free_of(state.recorded(result).log, secret),
{
    if state.phase == RunPhase::Executing {
        let logged = state.log.with_lines(result.forwarded());
        assert forall|i: int| 0 <= i < logged.lines.len() implies !has_substring(
            #[trigger] logged.lines[i],
            secret,
        ) by {
            lemma_appends_members(state.log, result.forwarded(), i);
            let line = logged.lines[i];
            if result.forwarded().contains(line) {
                let j = choose|j: int|
                    0 <= j < result.forwarded().len() && result.forwarded()[j] == line;
                assert(!has_substring(result.forwarded()[j], secret));
            } else {
                let j = choose|j: int| 0 <= j < state.log.lines.len() && state.log.lines[j] == line;
                assert(!has_substring(state.log.lines[j], secret));
            }
        }
        lemma_line_keeps_secret(logged, summary_line(state.current_name(), result.success), secret);
    }
}

/// The credential stays out of the log. Where the credential stands in the
/// output of a command only on lines that show a password prompt, and in its
/// standard error only where that shows one, and no line that the run itself
/// writes holds it, a log that held the credential nowhere holds it nowhere
/// after the result of the command is recorded.
pub proof fn lemma_credential_stays_out(
    state: RunView,
    stdout: Seq<char>,
    stderr: Seq<char>,
    exit_code: Option<i32>,
    credential: Seq<char>,
)
    requires
        state.wf(),
        log_free_of(state.log, credential),
        own_lines_free_of(state.tracker.steps, credential),
        forall|i: int|
            0 <= i < lines_of(stdout).len() && has_substring(
                #[trigger] lines_of(stdout)[i],
                credential,
            ) ==> shows_prompt(lines_of(stdout)[i]),
        has_substring(stderr, credential) ==> shows_prompt(stderr),
    ensures
        log_free_of(
            state.recorded(ExecView::captured(stdout, stderr, exit_code)).log,
            credential,
        ),
{
    lemma_forwarded_hides_credential(stdout, stderr, exit_code, credential);
    lemma_result_keeps_secret(
        state,
        ExecView::captured(stdout, stderr, exit_code),
        credential,
    );
}

} // verus!
