//! The session as a state machine over plain values: the states that the
//! user sees, the keys that are accepted in each, and what they lead to.

use vstd::prelude::*;
use crate::config::Config;
use crate::executor::ExecView;
use crate::log::LogView;
use crate::run::{lemma_boundary, lemma_result, lemma_run_start, RunPhase, RunView};
use crate::steps::TrackerView;
use crate::task::{
    default_task_views, enabled_count, enabled_of, needs_privilege, toggled_at, TaskView,
};

verus! {

/// What the user sees.
#[derive(Clone, Copy, Debug, PartialEq, Eq, Structural)]
pub enum AppState {
    /// The list of tasks, to select from.
    Selection,
    /// The selected tasks, to confirm.
    Confirm,
    /// The password prompt.
    GettingPassword,
    /// The progress of a run.
    Running,
    /// The outcome of a run.
    Done,
}

/// Which part of the screen takes the keys.
#[derive(Clone, Copy, Debug, PartialEq, Eq, Structural)]
pub enum Focus {
    TaskList,
    Buttons,
}

/// A key that the user pressed.
#[derive(Clone, Copy, Debug, PartialEq, Eq, Structural)]
pub enum Key {
    Up,
    Down,
    Left,
    Right,
    Enter,
    Esc,
    Backspace,
    Char(char),
    /// Any other key.
    Other,
}

/// What the caller is to do after a key was handled.
#[derive(Clone, Copy, Debug, PartialEq, Eq, Structural)]
pub enum Effect {
    /// Go on.
    Continue,
    /// Leave the program.
    Quit,
    /// A run was started: execute what `next_action` hands out.
    RunStarted,
}

impl AppState {
    /// The number that stands for the state.
    pub open spec fn index(self) -> nat {
        match self {
            AppState::Selection => 0,
            AppState::Confirm => 1,
            AppState::GettingPassword => 2,
            AppState::Running => 3,
            AppState::Done => 4,
        }
    }

    /// The state that a number stands for. Every number past those of the
    /// other states stands for `Done`.
    pub open spec fn of_index(value: nat) -> AppState {
        if value == 0 {
            AppState::Selection
        } else if value == 1 {
            AppState::Confirm
        } else if value == 2 {
            AppState::GettingPassword
        } else if value == 3 {
            AppState::Running
        } else {
            AppState::Done
        }
    }

    /// A key may lead from this state to `next`: to the same state, or along
    /// one of the edges of the session. No key leads out of `Running`, and
    /// none leads into `Done`.
    pub open spec fn key_leads_to(self, next: AppState) -> bool {
        ||| self == next
        ||| self == AppState::Selection && next == AppState::Confirm
        ||| self == AppState::Confirm && next == AppState::Selection
        ||| self == AppState::Confirm && next == AppState::GettingPassword
        ||| self == AppState::Confirm && next == AppState::Running
        ||| self == AppState::GettingPassword && next == AppState::Selection
        ||| self == AppState::GettingPassword && next == AppState::Running
        ||| self == AppState::Done && next == AppState::Selection
    }

    /// The number that stands for the state.
    pub fn as_usize(&self) -> (out: usize)
        ensures
            out == self.index(),
    {
        match self {
            AppState::Selection => 0,
            AppState::Confirm => 1,
            AppState::GettingPassword => 2,
            AppState::Running => 3,
            AppState::Done => 4,
        }
    }

    /// The state that `val` stands for; `Done` for every number that stands
    /// for no other.
    pub fn from_usize(val: usize) -> (out: AppState)
        ensures
            out == AppState::of_index(val as nat),
    {
        match val {
            0 => AppState::Selection,
            1 => AppState::Confirm,
            2 => AppState::GettingPassword,
            3 => AppState::Running,
            _ => AppState::Done,
        }
    }
}

/// The line that the log shows while no run was started.
pub open spec fn welcome_line() -> Seq<char> {
    "Welcome to dot-setup"@
}

/// The line that the log shows while the password is asked for.
pub open spec fn password_line() -> Seq<char> {
    "Enter sudo password:"@
}

/// The session as plain values.
pub struct AppView {
    /// What the user sees.
    pub state: AppState,
    /// The entry that the cursor is on: a task of the list, the position
    /// after the last task, or one of the two buttons.
    pub selected_index: nat,
    /// All tasks, in the order in which they run.
    pub tasks: Seq<TaskView>,
    /// The run.
    pub run: RunView,
    /// The credential; empty while there is none.
    pub sudo_password: Seq<char>,
    /// What was typed at the password prompt so far.
    pub password_input: Seq<char>,
    /// Which part of the screen takes the keys.
    pub focus: Focus,
    /// The configuration that the commands are built from.
    pub config: Config,
}

impl AppView {
    /// The invariant of the session: that of its run.
    pub open spec fn wf(self) -> bool {
        self.run.wf()
    }

    /// The session as it begins: every known task enabled, the cursor on the
    /// first, no credential, and the welcome in the log.
    pub open spec fn initial(config: Config) -> AppView {
        AppView {
            state: AppState::Selection,
            selected_index: 0,
            tasks: default_task_views(),
            run: RunView {
                phase: RunPhase::Idle,
                tracker: TrackerView { steps: Seq::empty(), current: 0 },
                plan: Seq::empty(),
                next_command: 0,
                log: LogView {
                    lines: seq![welcome_line()],
                    capacity: crate::log::LOG_CAPACITY as nat,
                    scroll: 0,
                },
                cancel_requested: false,
                run_complete: false,
            },
            sudo_password: Seq::empty(),
            password_input: Seq::empty(),
            focus: Focus::TaskList,
            config,
        }
    }

    /// The task under the cursor toggled. Tasks are toggled only in
    /// `Selection`; in every other state, and with the cursor on no task,
    /// nothing changes.
    pub open spec fn toggled(self) -> AppView {
        if self.state == AppState::Selection {
            AppView { tasks: toggled_at(self.tasks, self.selected_index as int), ..self }
        } else {
            self
        }
    }

    /// The password prompt is shown.
    pub open spec fn asking_password(self) -> AppView {
        AppView {
            state: AppState::GettingPassword,
            run: self.run.announced(password_line()),
            ..self
        }
    }

    /// A request to start finds nothing in its way: a task is enabled, no run
    /// is under way, and the credential is there if an enabled task needs it.
    pub open spec fn starts_run(self) -> bool {
        &&& enabled_count(self.tasks) > 0
        &&& !self.run.phase.active()
        &&& !(needs_privilege(enabled_of(self.tasks)) && self.sudo_password.len() == 0)
    }

    /// What a request to start leads to. With no task enabled, or while a run
    /// is under way, nothing happens. Where an enabled task needs the
    /// credential and there is none, the password prompt is shown. Otherwise
    /// a run over the tasks starts.
    pub open spec fn start_requested(self) -> AppView {
        if enabled_count(self.tasks) == 0 || self.run.phase.active() {
            self
        } else if needs_privilege(enabled_of(self.tasks)) && self.sudo_password.len() == 0 {
            self.asking_password()
        } else {
            AppView {
                state: AppState::Running,
                run: self.run.started(self.tasks, &self.config, self.sudo_password),
                ..self
            }
        }
    }

    /// The list of tasks is shown again, the cursor on the first.
    pub open spec fn back_to_selection(self) -> AppView {
        AppView {
            state: AppState::Selection,
            selected_index: 0,
            focus: Focus::TaskList,
            ..self
        }
    }

    /// What a key leads to in `Selection`: up and down move the cursor over
    /// the tasks and the position after the last; space and enter toggle the
    /// task under the cursor, and on the position after the last they lead
    /// to `Confirm`.
    pub open spec fn after_key_in_selection(self, key: Key) -> AppView {
        match key {
            Key::Up => if self.selected_index > 0 {
                AppView { selected_index: (self.selected_index - 1) as nat, ..self }
            } else {
                self
            },
            Key::Down => if self.selected_index < self.tasks.len() {
                AppView { selected_index: self.selected_index + 1, ..self }
            } else {
                self
            },
            Key::Char(' ') | Key::Enter => if self.selected_index < self.tasks.len() {
                self.toggled()
            } else if self.selected_index == self.tasks.len() {
                AppView {
                    state: AppState::Confirm,
                    selected_index: 0,
                    focus: Focus::Buttons,
                    ..self
                }
            } else {
                self
            },
            _ => self,
        }
    }

    /// What a key leads to in `Confirm`: left and right switch between the
    /// two buttons; enter on the first requests the start and on the second
    /// goes back, as escape does.
    pub open spec fn after_key_in_confirm(self, key: Key) -> AppView {
        match key {
            Key::Left | Key::Right => if self.focus == Focus::Buttons {
                AppView { selected_index: if self.selected_index == 0 { 1 } else { 0 }, ..self }
            } else {
                self
            },
            Key::Enter => if self.selected_index == 0 {
                self.start_requested()
            } else {
                self.back_to_selection()
            },
            Key::Esc => self.back_to_selection(),
            _ => self,
        }
    }

    /// The session with what was typed taken as the credential.
    pub open spec fn password_submitted(self) -> AppView {
        AppView { sudo_password: self.password_input, password_input: Seq::empty(), ..self }
    }

    /// What a key leads to in `GettingPassword`: a character is added to what
    /// was typed, backspace takes the last away, enter takes what was typed
    /// as the credential and requests the start, escape goes back to the
    /// list and forgets what was typed.
    pub open spec fn after_key_in_password(self, key: Key) -> AppView {
        match key {
            Key::Enter => self.password_submitted().start_requested(),
            Key::Backspace => if self.password_input.len() > 0 {
                AppView { password_input: self.password_input.drop_last(), ..self }
            } else {
                self
            },
            Key::Esc => AppView {
                state: AppState::Selection,
                password_input: Seq::empty(),
                ..self
            },
            Key::Char(c) => AppView { password_input: self.password_input.push(c), ..self },
            _ => self,
        }
    }

    /// What a key leads to in `Done`: escape goes back to the list, forgets
    /// the credential and shows the welcome in the log.
    pub open spec fn after_key_in_done(self, key: Key) -> AppView {
        match key {
            Key::Esc => AppView {
                sudo_password: Seq::empty(),
                run: self.run.announced(welcome_line()),
                ..self.back_to_selection()
            },
            _ => self,
        }
    }

    /// What a key leads to. In `Running` escape requests cancellation and
    /// the state stays: the run ends when it honours the request.
    pub open spec fn after_key(self, key: Key) -> AppView {
        match self.state {
            AppState::Selection => self.after_key_in_selection(key),
            AppState::Confirm => self.after_key_in_confirm(key),
            AppState::GettingPassword => self.after_key_in_password(key),
            AppState::Running => if key == Key::Esc {
                AppView { run: self.run.cancelling(), ..self }
            } else {
                self
            },
            AppState::Done => self.after_key_in_done(key),
        }
    }

    /// What the caller is to do after a key: leave on escape in `Selection`;
    /// execute the run where the key started one.
    pub open spec fn effect_of(self, key: Key) -> Effect {
        if self.state == AppState::Selection && key == Key::Esc {
            Effect::Quit
        } else if self.state == AppState::Confirm && key == Key::Enter && self.selected_index == 0
            && self.starts_run() {
            Effect::RunStarted
        } else if self.state == AppState::GettingPassword && key == Key::Enter
            && self.password_submitted().starts_run() {
            Effect::RunStarted
        } else {
            Effect::Continue
        }
    }

    /// What a redraw tick leads to: while the run is shown the log follows
    /// its last line, and a run that has ended leads to `Done`.
    pub open spec fn polled(self) -> AppView {
        if self.state == AppState::Running {
            AppView {
                state: if self.run.phase.terminal() {
                    AppState::Done
                } else {
                    AppState::Running
                },
                run: RunView { log: self.run.log.at_tail(), ..self.run },
                ..self
            }
        } else {
            self
        }
    }

    /// The session after the run decided at a task boundary.
    pub open spec fn advanced(self) -> AppView {
        AppView { run: self.run.advanced(), ..self }
    }

    /// The session after the run took the result of a command.
    pub open spec fn recorded(self, result: ExecView) -> AppView {
        AppView { run: self.run.recorded(result), ..self }
    }
}

/// The number of a state stands for that state, and is one of five.
pub proof fn lemma_state_index(state: AppState)
    ensures
        AppState::of_index(state.index()) == state,
        state.index() <= 4,
{
}

/// A key changes the state only along the edges of the session, and keeps
/// the invariant. No key leads out of `Running`: a request for cancellation
/// leaves the state as it is.
pub proof fn lemma_key_follows_edges(session: AppView, key: Key)
    requires
        session.wf(),
    ensures
        session.after_key(key).wf(),
        session.state.key_leads_to(session.after_key(key).state),
        session.state == AppState::Running ==> session.after_key(key).state == AppState::Running,
        session.after_key(key).config == session.config,
{
    let submitted = session.password_submitted();
    if !session.run.phase.active() {
        lemma_run_start(session.run, session.tasks, &session.config, session.sudo_password);
        lemma_run_start(submitted.run, submitted.tasks, &submitted.config, submitted.sudo_password);
    }
}

/// A key starts a run just when the caller is told so, and then the session
/// shows the run, which stands before its first step.
pub proof fn lemma_run_started_just_when_told(session: AppView, key: Key)
    requires
        session.wf(),
    ensures
        session.effect_of(key) == Effect::RunStarted ==> {
            &&& session.after_key(key).state == AppState::Running
            &&& session.after_key(key).run.phase == RunPhase::Boundary
            &&& session.after_key(key).run.tracker.current == 0
            &&& session.after_key(key).run.tracker.steps.len() == enabled_count(session.tasks)
        },
        session.effect_of(key) != Effect::RunStarted && session.state != AppState::Running ==> {
            &&& session.after_key(key).run.phase == session.run.phase
            &&& session.after_key(key).run.tracker == session.run.tracker
        },
{
    let submitted = session.password_submitted();
    if !session.run.phase.active() {
        lemma_run_start(session.run, session.tasks, &session.config, session.sudo_password);
        lemma_run_start(submitted.run, submitted.tasks, &submitted.config, submitted.sudo_password);
    }
}

/// The password is asked for only when it is needed: the prompt is reached
/// from `Confirm` just when a run was requested, a task is enabled, one of
/// the enabled tasks needs the credential, and there is none. Where no
/// enabled task needs the credential, the run starts without the prompt.
pub proof fn lemma_password_asked_when_needed(session: AppView, key: Key)
    requires
        session.wf(),
        session.state == AppState::Confirm,
    ensures
        session.after_key(key).state == AppState::GettingPassword <==> {
            &&& key == Key::Enter
            &&& session.selected_index == 0
            &&& enabled_count(session.tasks) > 0
            &&& !session.run.phase.active()
            &&& needs_privilege(enabled_of(session.tasks))
            &&& session.sudo_password.len() == 0
        },
        key == Key::Enter && session.selected_index == 0 && enabled_count(session.tasks) > 0
            && !session.run.phase.active() && !needs_privilege(enabled_of(session.tasks))
            ==> session.after_key(key).state == AppState::Running,
{
}

/// A redraw tick leads from `Running` to `Done` just when the run has ended,
/// and changes the state in no other way; it touches neither the steps nor
/// the lines of the log.
pub proof fn lemma_poll(session: AppView)
    requires
        session.wf(),
    ensures
        session.polled().wf(),
        session.polled().state != session.state ==> session.state == AppState::Running
            && session.polled().state == AppState::Done && session.run.phase.terminal(),
        session.state == AppState::Running && session.run.phase.terminal()
            ==> session.polled().state == AppState::Done,
        session.polled().run.tracker == session.run.tracker,
        session.polled().run.log.lines == session.run.log.lines,
        session.polled().run.phase == session.run.phase,
{
}

/// What the run does leaves the state of the session alone: it is the
/// redraw tick that leads to `Done`.
pub proof fn lemma_run_keeps_state(session: AppView, result: ExecView)
    requires
        session.wf(),
    ensures
        session.advanced().wf(),
        session.recorded(result).wf(),
        session.advanced().state == session.state,
        session.recorded(result).state == session.state,
        session.advanced().tasks == session.tasks,
        session.recorded(result).tasks == session.tasks,
{
    lemma_boundary(session.run);
    lemma_result(session.run, result);
}

} // verus!
