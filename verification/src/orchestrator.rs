//! The orchestrator: the state of one run, with the log and the step
//! tracker that the view shows.
//!
//! The orchestrator runs nothing itself: `next_action` says which command
//! line is to be executed, and `record_result` takes what came back. What
//! each of them does is stated by the transitions of `crate::run`.

use vstd::prelude::*;
use crate::commands::{commands_for, plan_for};
use crate::config::Config;
use crate::executor::ExecResult;
use crate::log::{LogBuffer, LogView};
use crate::run::{plan_of, runnable, step_header, summary_line, ActionView, RunPhase, RunView};
use crate::steps::{step_views, RunStep, StepTracker, TrackerView};
use crate::task::{get_enabled, task_views, Task};
use crate::text::{non_empty, views};

verus! {

/// What the caller is to do next.
#[derive(Debug)]
pub enum RunAction {
    /// Execute this command line and report its result.
    Execute(String),
    /// Nothing: no run is under way.
    Finished,
}

impl View for RunAction {
    type V = ActionView;

    open spec fn view(&self) -> ActionView {
        match self {
            RunAction::Execute(line) => ActionView::Execute(line@),
            RunAction::Finished => ActionView::Finished,
        }
    }
}

/// The views of the command lines of a run.
pub open spec fn plan_views(plan: Seq<Vec<String>>) -> Seq<Seq<Seq<char>>> {
    plan.map_values(|lines: Vec<String>| views(lines@))
}

/// The state machine of one run, with the log and the step tracker that the
/// view shows.
#[derive(Debug)]
pub struct Orchestrator {
    phase: RunPhase,
    tracker: StepTracker,
    plan: Vec<Vec<String>>,
    next_command: usize,
    log: LogBuffer,
    cancel_requested: bool,
    run_complete: bool,
}

impl View for Orchestrator {
    type V = RunView;

    closed spec fn view(&self) -> RunView {
        RunView {
            phase: self.phase,
            tracker: self.tracker@,
            plan: plan_views(self.plan@),
            next_command: self.next_command as nat,
            log: self.log@,
            cancel_requested: self.cancel_requested,
            run_complete: self.run_complete,
        }
    }
}

/// The command lines of `lines` that are not empty.
fn keep_non_empty(lines: Vec<String>) -> (out: Vec<String>)
    ensures
        views(out@) == runnable(views(lines@)),
{
    let mut out: Vec<String> = Vec::new();
    let mut i: usize = 0;
    assert(views(lines@).take(0) =~= Seq::<Seq<char>>::empty());
    assert(views(out@) =~= Seq::<Seq<char>>::empty());
    while i < lines.len()
        invariant
            i <= lines.len(),
            views(out@) == runnable(views(lines@).take(i as int)),
        decreases lines.len() - i,
    {
        proof {
            let all = views(lines@);
            assert(all.take(i + 1) =~= all.take(i as int).push(all[i as int]));
            all.take(i as int).lemma_filter_push(all[i as int], non_empty());
        }
        if !lines[i].as_str().is_empty() {
            let line = lines[i].clone();
            assert(views(out@.push(line)) =~= views(out@).push(line@));
            out.push(line);
        }
        i += 1;
    }
    assert(views(lines@).take(lines.len() as int) =~= views(lines@));
    out
}

/// The line that opens the step of the task called `name`.
fn header_for(name: &str) -> (out: String)
    ensures
        out@ == step_header(name@),
{
    let mut out = String::from_str("\n=== ");
    out.append(name);
    out.append(" ===");
    out
}

/// The line that closes the step of the task called `name`.
fn summary_for(name: &str, success: bool) -> (out: String)
    ensures
        out@ == summary_line(name@, success),
{
    if success {
        let mut out = String::from_str("✓ ");
        out.append(name);
        out.append(" completed");
        out
    } else {
        let mut out = String::from_str("✗ ");
        out.append(name);
        out.append(" failed");
        out
    }
}

impl Orchestrator {
    /// The invariant of the orchestrator.
    pub open spec fn wf(&self) -> bool {
        self@.wf()
    }

    /// An orchestrator that has run nothing yet and logs into `log`.
    pub fn with_log(log: LogBuffer) -> (out: Orchestrator)
        requires
            log.wf(),
        ensures
            out.wf(),
            out@ == (RunView {
                phase: RunPhase::Idle,
                tracker: TrackerView { steps: Seq::empty(), current: 0 },
                plan: Seq::empty(),
                next_command: 0,
                log: log@,
                cancel_requested: false,
                run_complete: false,
            }),
    {
        let out = Orchestrator {
            phase: RunPhase::Idle,
            tracker: StepTracker::new(),
            plan: Vec::new(),
            next_command: 0,
            log,
            cancel_requested: false,
            run_complete: false,
        };
        assert(plan_views(out.plan@) =~= Seq::<Seq<Seq<char>>>::empty());
        out
    }

    /// An orchestrator that has run nothing yet, with an empty log.
    pub fn new() -> (out: Orchestrator)
        ensures
            out.wf(),
            out@ == (RunView {
                phase: RunPhase::Idle,
                tracker: TrackerView { steps: Seq::empty(), current: 0 },
                plan: Seq::empty(),
                next_command: 0,
                log: LogView {
                    lines: Seq::empty(),
                    capacity: crate::log::LOG_CAPACITY as nat,
                    scroll: 0,
                },
                cancel_requested: false,
                run_complete: false,
            }),
    {
        Orchestrator::with_log(LogBuffer::new())
    }

    /// Where the run stands.
    pub fn phase(&self) -> (out: RunPhase)
        ensures
            out == self@.phase,
    {
        self.phase
    }

    /// Whether a run is under way.
    pub fn is_active(&self) -> (out: bool)
        ensures
            out == self@.phase.active(),
    {
        self.phase == RunPhase::Boundary || self.phase == RunPhase::Executing
    }

    /// Whether a run has ended, completed or cancelled.
    pub fn has_terminated(&self) -> (out: bool)
        ensures
            out == self@.phase.terminal(),
    {
        self.phase == RunPhase::Cancelled || self.phase == RunPhase::Completed
    }

    /// Whether the run went through its last task.
    pub fn is_complete(&self) -> (out: bool)
        ensures
            out == self@.run_complete,
    {
        self.run_complete
    }

    /// Whether cancellation was requested.
    pub fn cancel_requested(&self) -> (out: bool)
        ensures
            out == self@.cancel_requested,
    {
        self.cancel_requested
    }

    /// The step that was last started or skipped; 0 before the first.
    pub fn active_step(&self) -> (out: usize)
        ensures
            out == self@.tracker.active(),
    {
        self.tracker.active_step()
    }

    /// A copy of the log lines, oldest first.
    pub fn snapshot_log(&self) -> (out: Vec<String>)
        ensures
            views(out@) == self@.log.lines,
    {
        self.log.snapshot()
    }

    /// A copy of the steps, in the order in which they run.
    pub fn snapshot_steps(&self) -> (out: Vec<RunStep>)
        ensures
            step_views(out@) == self@.tracker.steps,
    {
        self.tracker.snapshot()
    }

    /// First log line that the view shows.
    pub fn log_scroll(&self) -> (out: u16)
        ensures
            out == self@.log.scroll,
    {
        self.log.scroll()
    }

    /// Puts the cursor of the log on its last line.
    pub fn follow_log(&mut self)
        requires
            old(self).wf(),
        ensures
            final(self).wf(),
            final(self)@ == (RunView { log: old(self)@.log.at_tail(), ..old(self)@ }),
    {
        self.log.follow_tail();
    }

    /// Asks the run to stop at the next task boundary.
    pub fn request_cancel(&mut self)
        ensures
            final(self)@ == old(self)@.cancelling(),
            old(self).wf() ==> final(self).wf(),
    {
        self.cancel_requested = true;
    }

    /// Replaces the log by the one line `line`, and says whether it did:
    /// while a run is under way the log is left alone.
    pub fn announce(&mut self, line: &str) -> (done: bool)
        requires
            old(self).wf(),
        ensures
            final(self).wf(),
            done == !old(self)@.phase.active(),
            final(self)@ == old(self)@.announced(line@),
    {
        if self.is_active() {
            false
        } else {
            self.log.clear();
            self.log.append(String::from_str(line));
            true
        }
    }

    /// Starts a run over the enabled tasks of `tasks`, and says whether it
    /// did: while a run is under way none is started. The run has one
    /// pending step for each enabled task, in the order of `tasks`; the
    /// command lines of each are fixed now, from `config` and `credential`.
    pub fn start_run(&mut self, tasks: &Vec<Task>, config: &Config, credential: &str) -> (started:
        bool)
        requires
            old(self).wf(),
        ensures
            final(self).wf(),
            started == !old(self)@.phase.active(),
            final(self)@ == old(self)@.started(task_views(tasks@), config, credential@),
            started ==> final(self)@.tracker.steps.len() == crate::task::enabled_count(
                task_views(tasks@),
            ),
    {
        if self.is_active() {
            return false;
        }
        let enabled = get_enabled(tasks);
        let mut plan: Vec<Vec<String>> = Vec::new();
        let mut i: usize = 0;
        while i < enabled.len()
            invariant
                i <= enabled.len(),
                plan.len() == i,
                forall|j: int|
                    0 <= j < i ==> views((#[trigger] plan@[j])@) == runnable(
                        plan_for(task_views(enabled@)[j].id, config, credential@),
                    ),
            decreases enabled.len() - i,
        {
            let lines = commands_for(enabled[i].id.as_str(), config, credential);
            plan.push(keep_non_empty(lines));
            i += 1;
        }
        assert(plan_views(plan@) =~= plan_of(task_views(tasks@), config, credential@));
        self.tracker = StepTracker::for_tasks(tasks);
        self.plan = plan;
        self.next_command = 0;
        self.cancel_requested = false;
        self.run_complete = false;
        self.phase = RunPhase::Boundary;
        self.log.clear();
        self.log.append(String::from_str("Starting tasks..."));
        true
    }

    /// Decides what happens at a task boundary, and says what is to be done
    /// next. A command line that was handed out is handed out again until
    /// its result is recorded.
    pub fn next_action(&mut self) -> (action: RunAction)
        requires
            old(self).wf(),
        ensures
            final(self).wf(),
            final(self)@ == old(self)@.advanced(),
            action@ == final(self)@.action(),
    {
        if self.phase == RunPhase::Boundary {
            if self.cancel_requested {
                self.log.append(String::from_str("\n=== Tasks cancelled ==="));
                self.plan = Vec::new();
                self.phase = RunPhase::Cancelled;
                assert(plan_views(self.plan@) =~= Seq::<Seq<Seq<char>>>::empty());
            } else {
                while self.tracker.current() < self.tracker.len() && self.plan[self.tracker.current()].len()
                    == 0
                    invariant
                        self.wf(),
                        self.phase == RunPhase::Boundary,
                        !self.cancel_requested,
                        self@.advanced() == old(self)@.advanced(),
                    decreases self@.tracker.steps.len() - self@.tracker.current,
                {
                    assert(self@.current_lines().len() == 0);
                    self.tracker.skip();
                }
                match self.tracker.current_name() {
                    None => {
                        self.log.append(String::from_str("\n=== All tasks complete! ==="));
                        self.log.append(String::from_str("Press ESC to return"));
                        self.plan = Vec::new();
                        self.run_complete = true;
                        self.phase = RunPhase::Completed;
                        assert(plan_views(self.plan@) =~= Seq::<Seq<Seq<char>>>::empty());
                    },
                    Some(name) => {
                        assert(self@.current_lines().len() > 0);
                        self.tracker.start();
                        self.next_command = 0;
                        self.log.append(header_for(name.as_str()));
                        self.phase = RunPhase::Executing;
                    },
                }
            }
        }
        if self.phase == RunPhase::Executing {
            let lines = &self.plan[self.tracker.current()];
            RunAction::Execute(lines[self.next_command].clone())
        } else {
            RunAction::Finished
        }
    }

    /// Takes the result of the command line that was handed out. What the
    /// result forwards goes to the log; a failure ends the step as failed,
    /// the last success of a step ends it as completed. While no task runs
    /// nothing changes.
    pub fn record_result(&mut self, result: &ExecResult)
        requires
            old(self).wf(),
        ensures
            final(self).wf(),
            final(self)@ == old(self)@.recorded(result@),
    {
        if self.phase != RunPhase::Executing {
            return ;
        }
        let lines = result.log_lines();
        self.log.append_many(&lines);
        let success = result.success();
        let count = self.plan[self.tracker.current()].len();
        if success && self.next_command + 1 < count {
            self.next_command = self.next_command + 1;
        } else {
            let name = match self.tracker.current_name() {
                Some(name) => name,
                None => String::new(),
            };
            self.tracker.end(success);
            self.next_command = 0;
            self.log.append(summary_for(name.as_str(), success));
            self.phase = RunPhase::Boundary;
        }
    }
}

} // verus!
