//! The step tracker: one record per enabled task of a run, each with its
//! status, and the position the run has reached.

use vstd::prelude::*;
use crate::task::{enabled_of, task_views, Task, TaskView};

verus! {

/// Where a step of a run stands.
#[derive(Clone, Copy, Debug, PartialEq, Eq, Structural)]
pub enum StepStatus {
    /// Not started.
    Pending,
    /// Its commands are being executed.
    Running,
    /// All of its commands succeeded, or it had none.
    Completed,
    /// One of its commands failed.
    Failed,
}

impl StepStatus {
    /// How far a step in this status has come: not started, started, done.
    pub open spec fn rank(self) -> nat {
        match self {
            StepStatus::Pending => 0,
            StepStatus::Running => 1,
            StepStatus::Completed => 2,
            StepStatus::Failed => 2,
        }
    }

    /// The step is done, well or badly.
    pub open spec fn finished(self) -> bool {
        self == StepStatus::Completed || self == StepStatus::Failed
    }

    /// A step seen in this status may later be seen in `later`: in the same
    /// status, or further along. It never goes back, and a finished step
    /// keeps its outcome.
    pub open spec fn may_become(self, later: StepStatus) -> bool {
        self == later || self.rank() < later.rank()
    }

    /// Whether the step is done, well or badly.
    pub fn is_finished(&self) -> (out: bool)
        ensures
            out == self.finished(),
    {
        match self {
            StepStatus::Completed => true,
            StepStatus::Failed => true,
            _ => false,
        }
    }
}

/// The record of one task within a run.
#[derive(Debug)]
pub struct RunStep {
    /// Name of the task, as shown to the user.
    pub display_name: String,
    /// Where the step stands.
    pub status: StepStatus,
}

/// A step as a plain value.
pub struct StepView {
    pub display_name: Seq<char>,
    pub status: StepStatus,
}

impl View for RunStep {
    type V = StepView;

    open spec fn view(&self) -> StepView {
        StepView { display_name: self.display_name@, status: self.status }
    }
}

impl Clone for RunStep {
    fn clone(&self) -> (out: Self)
        ensures
            out == *self,
    {
        RunStep { display_name: self.display_name.clone(), status: self.status }
    }
}

/// The views of a list of steps.
pub open spec fn step_views(steps: Seq<RunStep>) -> Seq<StepView> {
    steps.map_values(|s: RunStep| s@)
}

/// The step that a run starts with for `task`.
pub open spec fn pending_step(task: TaskView) -> StepView {
    StepView { display_name: task.display_name, status: StepStatus::Pending }
}

/// The steps that a run over `tasks` starts with: one for each enabled task,
/// in the order of the tasks, all pending.
pub open spec fn steps_for(tasks: Seq<TaskView>) -> Seq<StepView> {
    enabled_of(tasks).map_values(|t: TaskView| pending_step(t))
}

/// The steps of a run and the position it has reached.
pub struct TrackerView {
    /// The steps, in the order in which they run.
    pub steps: Seq<StepView>,
    /// The step that is running, or the next to start; the number of steps
    /// where all are done.
    pub current: nat,
}

impl TrackerView {
    /// The steps before `current` are finished, the steps after it pending,
    /// and the step at `current` pending or running. So at most one step is
    /// running.
    pub open spec fn wf(self) -> bool {
        &&& self.current <= self.steps.len()
        &&& forall|i: int| 0 <= i < self.current ==> (#[trigger] self.steps[i]).status.finished()
        &&& forall|i: int|
            self.current < i < self.steps.len() ==> (#[trigger] self.steps[i]).status
                == StepStatus::Pending
        &&& self.current < self.steps.len() ==> {
            ||| self.steps[self.current as int].status == StepStatus::Pending
            ||| self.steps[self.current as int].status == StepStatus::Running
        }
    }

    /// The tracker at the start of a run over `tasks`.
    pub open spec fn for_tasks(tasks: Seq<TaskView>) -> TrackerView {
        TrackerView { steps: steps_for(tasks), current: 0 }
    }

    /// There is a step at `current` and its status is `status`.
    pub open spec fn current_is(self, status: StepStatus) -> bool {
        self.current < self.steps.len() && self.steps[self.current as int].status == status
    }

    /// The tracker with the status of the step at `current` replaced.
    pub open spec fn with_current_status(self, status: StepStatus) -> TrackerView {
        TrackerView {
            steps: self.steps.update(
                self.current as int,
                StepView { status, ..self.steps[self.current as int] },
            ),
            ..self
        }
    }

    /// The pending step at `current` starts running. Where there is no such
    /// step, nothing changes.
    pub open spec fn started(self) -> TrackerView {
        if self.current_is(StepStatus::Pending) {
            self.with_current_status(StepStatus::Running)
        } else {
            self
        }
    }

    /// The status that a step ends in.
    pub open spec fn outcome(success: bool) -> StepStatus {
        if success {
            StepStatus::Completed
        } else {
            StepStatus::Failed
        }
    }

    /// The running step at `current` ends, and the tracker moves on to the
    /// next. Where no step is running, nothing changes.
    pub open spec fn ended(self, success: bool) -> TrackerView {
        if self.current_is(StepStatus::Running) {
            TrackerView {
                current: self.current + 1,
                ..self.with_current_status(Self::outcome(success))
            }
        } else {
            self
        }
    }

    /// The pending step at `current` is completed without running, and the
    /// tracker moves on to the next. Where there is no such step, nothing
    /// changes.
    pub open spec fn skipped(self) -> TrackerView {
        if self.current_is(StepStatus::Pending) {
            TrackerView {
                current: self.current + 1,
                ..self.with_current_status(StepStatus::Completed)
            }
        } else {
            self
        }
    }

    /// The step that was last started or skipped; 0 before the first.
    pub open spec fn active(self) -> nat {
        if self.current == 0 || self.current_is(StepStatus::Running) {
            self.current
        } else {
            (self.current - 1) as nat
        }
    }

    /// `later` holds the same steps, none of them further back than here.
    pub open spec fn advances_to(self, later: TrackerView) -> bool {
        &&& later.steps.len() == self.steps.len()
        &&& forall|i: int|
            0 <= i < self.steps.len() ==> {
                &&& (#[trigger] later.steps[i]).display_name == self.steps[i].display_name
                &&& self.steps[i].status.may_become(later.steps[i].status)
            }
    }
}

/// The steps of a run, with the position it has reached.
#[derive(Debug)]
pub struct StepTracker {
    steps: Vec<RunStep>,
    current: usize,
}

impl View for StepTracker {
    type V = TrackerView;

    closed spec fn view(&self) -> TrackerView {
        TrackerView { steps: step_views(self.steps@), current: self.current as nat }
    }
}

impl StepTracker {
    /// The invariant of the tracker.
    pub open spec fn wf(&self) -> bool {
        self@.wf()
    }

    /// A tracker without steps.
    pub fn new() -> (out: StepTracker)
        ensures
            out.wf(),
            out@ == (TrackerView { steps: Seq::empty(), current: 0 }),
    {
        let out = StepTracker { steps: Vec::new(), current: 0 };
        assert(step_views(out.steps@) =~= Seq::<StepView>::empty());
        out
    }

    /// The tracker at the start of a run over `tasks`: one pending step for
    /// each enabled task, in the order of the tasks.
    pub fn for_tasks(tasks: &Vec<Task>) -> (out: StepTracker)
        ensures
            out.wf(),
            out@ == TrackerView::for_tasks(task_views(tasks@)),
            out@.steps.len() == crate::task::enabled_count(task_views(tasks@)),
    {
        let enabled = crate::task::get_enabled(tasks);
        let mut steps: Vec<RunStep> = Vec::new();
        let mut i: usize = 0;
        while i < enabled.len()
            invariant
                i <= enabled.len(),
                steps.len() == i,
                forall|j: int|
                    0 <= j < i ==> (#[trigger] steps@[j])@ == pending_step(
                        task_views(enabled@)[j],
                    ),
            decreases enabled.len() - i,
        {
            steps.push(
                RunStep { display_name: enabled[i].display_name.clone(), status: StepStatus::Pending },
            );
            i += 1;
        }
        let out = StepTracker { steps, current: 0 };
        assert(step_views(out.steps@) =~= steps_for(task_views(tasks@)));
        out
    }

    /// How many steps the run has.
    pub fn len(&self) -> (out: usize)
        ensures
            out == self@.steps.len(),
    {
        self.steps.len()
    }

    /// The step that is running, or the next to start; `len()` where all
    /// steps are done.
    pub fn current(&self) -> (out: usize)
        ensures
            out == self@.current,
    {
        self.current
    }

    /// The step that was last started or skipped; 0 before the first.
    pub fn active_step(&self) -> (out: usize)
        ensures
            out == self@.active(),
    {
        if self.current == 0 {
            0
        } else if self.current < self.steps.len() && self.steps[self.current].status
            == StepStatus::Running {
            self.current
        } else {
            self.current - 1
        }
    }

    /// The status of step `index`, if there is such a step.
    pub fn status(&self, index: usize) -> (out: Option<StepStatus>)
        ensures
            out == if index < self@.steps.len() {
                Some(self@.steps[index as int].status)
            } else {
                None
            },
    {
        if index < self.steps.len() {
            Some(self.steps[index].status)
        } else {
            None
        }
    }

    /// The name of the step at `current`, if there is such a step.
    pub fn current_name(&self) -> (out: Option<String>)
        ensures
            out is Some <==> self@.current < self@.steps.len(),
            out matches Some(name) ==> name@ == self@.steps[self@.current as int].display_name,
    {
        if self.current < self.steps.len() {
            Some(self.steps[self.current].display_name.clone())
        } else {
            None
        }
    }

    /// Whether the step at `current` is running.
    pub fn is_running(&self) -> (out: bool)
        ensures
            out == self@.current_is(StepStatus::Running),
    {
        self.current < self.steps.len() && self.steps[self.current].status == StepStatus::Running
    }

    /// Whether the step at `current` is pending.
    pub fn is_pending(&self) -> (out: bool)
        ensures
            out == self@.current_is(StepStatus::Pending),
    {
        self.current < self.steps.len() && self.steps[self.current].status == StepStatus::Pending
    }

    /// Starts the pending step at `current`, and says whether there was one.
    pub fn start(&mut self) -> (done: bool)
        requires
            old(self).wf(),
        ensures
            final(self).wf(),
            done == old(self)@.current_is(StepStatus::Pending),
            final(self)@ == old(self)@.started(),
    {
        if self.is_pending() {
            self.steps[self.current].status = StepStatus::Running;
            assert(self@.steps =~= old(self)@.started().steps);
            true
        } else {
            false
        }
    }

    /// Ends the running step at `current` as completed or failed, moves on
    /// to the next step, and says whether a step was running.
    pub fn end(&mut self, success: bool) -> (done: bool)
        requires
            old(self).wf(),
        ensures
            final(self).wf(),
            done == old(self)@.current_is(StepStatus::Running),
            final(self)@ == old(self)@.ended(success),
    {
        if self.is_running() {
            assert(self.current < self.steps.len());
            let next: usize = self.current + 1;
            self.steps[self.current].status = if success {
                StepStatus::Completed
            } else {
                StepStatus::Failed
            };
            self.current = next;
            assert(self@.steps =~= old(self)@.ended(success).steps);
            true
        } else {
            false
        }
    }

    /// Completes the pending step at `current` without running it, moves on
    /// to the next step, and says whether there was such a step.
    pub fn skip(&mut self) -> (done: bool)
        requires
            old(self).wf(),
        ensures
            final(self).wf(),
            done == old(self)@.current_is(StepStatus::Pending),
            final(self)@ == old(self)@.skipped(),
    {
        if self.is_pending() {
            assert(self.current < self.steps.len());
            let next: usize = self.current + 1;
            self.steps[self.current].status = StepStatus::Completed;
            self.current = next;
            assert(self@.steps =~= old(self)@.skipped().steps);
            true
        } else {
            false
        }
    }

    /// A copy of the steps, in the order in which they run.
    pub fn snapshot(&self) -> (out: Vec<RunStep>)
        ensures
            step_views(out@) == self@.steps,
    {
        let mut out: Vec<RunStep> = Vec::new();
        let mut i: usize = 0;
        while i < self.steps.len()
            invariant
                i <= self.steps.len(),
                out@ == self.steps@.take(i as int),
            decreases self.steps.len() - i,
        {
            out.push(self.steps[i].clone());
            assert(self.steps@.take(i + 1) =~= self.steps@.take(i as int).push(
                self.steps@[i as int],
            ));
            i += 1;
        }
        assert(self.steps@.take(self.steps.len() as int) =~= self.steps@);
        out
    }
}

/// A status may become itself; what may follow what may follow may follow;
/// and two statuses that may become each other are one.
pub proof fn lemma_status_order(a: StepStatus, b: StepStatus, c: StepStatus)
    ensures
        a.may_become(a),
        a.may_become(b) && b.may_become(c) ==> a.may_become(c),
        a.may_become(b) && b.may_become(a) ==> a == b,
{
}

/// The life of a step: nothing becomes pending but pending; nothing becomes
/// running but pending and running; a finished step stays as it is.
pub proof fn lemma_status_never_goes_back(a: StepStatus, b: StepStatus)
    requires
        a.may_become(b),
    ensures
        b == StepStatus::Pending ==> a == StepStatus::Pending,
        b == StepStatus::Running ==> a == StepStatus::Pending || a == StepStatus::Running,
        a.finished() ==> b == a,
{
}

/// A run starts with as many steps as tasks are enabled, all pending, each
/// with the name of its task.
pub proof fn lemma_steps_for(tasks: Seq<TaskView>)
    ensures
        steps_for(tasks).len() == crate::task::enabled_count(tasks),
        TrackerView::for_tasks(tasks).wf(),
        forall|i: int|
            0 <= i < steps_for(tasks).len() ==> #[trigger] steps_for(tasks)[i] == pending_step(
                enabled_of(tasks)[i],
            ),
{
}

/// Every move of the tracker keeps its invariant, and no step goes back.
pub proof fn lemma_moves_advance(tracker: TrackerView, success: bool)
    requires
        tracker.wf(),
    ensures
        tracker.started().wf(),
        tracker.ended(success).wf(),
        tracker.skipped().wf(),
        tracker.advances_to(tracker.started()),
        tracker.advances_to(tracker.ended(success)),
        tracker.advances_to(tracker.skipped()),
{
}

/// Advancing is an order on trackers: each advances to itself, and what
/// advances to one that advances to a third advances to the third.
pub proof fn lemma_advances_order(a: TrackerView, b: TrackerView, c: TrackerView)
    ensures
        a.advances_to(a),
        a.advances_to(b) && b.advances_to(c) ==> a.advances_to(c),
{
    if a.advances_to(b) && b.advances_to(c) {
        assert forall|i: int| 0 <= i < a.steps.len() implies {
            &&& (#[trigger] c.steps[i]).display_name == a.steps[i].display_name
            &&& a.steps[i].status.may_become(c.steps[i].status)
        } by {
            assert(b.steps[i].display_name == a.steps[i].display_name);
        }
    }
}

/// In a well-formed tracker at most one step is running, and it is the one
/// at `current`.
pub proof fn lemma_one_running(tracker: TrackerView, i: int)
    requires
        tracker.wf(),
        0 <= i < tracker.steps.len(),
        tracker.steps[i].status == StepStatus::Running,
    ensures
        i == tracker.current,
{
}

} // verus!
