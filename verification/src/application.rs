//! The application: the session, its tasks and its run in one value. What
//! each of its operations does is stated by the transitions of
//! `crate::session`.

use vstd::prelude::*;
use crate::config::Config;
use crate::executor::ExecResult;
use crate::orchestrator::{Orchestrator, RunAction};
use crate::session::{AppState, AppView, Effect, Focus, Key};
use crate::task::{
    any_requires_privilege, default_tasks, enabled_of, get_enabled, task_views, toggle, Task,
};
use crate::text::text_of;

verus! {

/// The installer as the user drives it: which screen is shown, which tasks
/// are selected, the credential, and the run.
#[derive(Debug)]
pub struct App {
    state: AppState,
    selected_index: usize,
    tasks: Vec<Task>,
    orchestrator: Orchestrator,
    sudo_password: String,
    password_input: Vec<char>,
    config: Config,
    focus: Focus,
}

impl View for App {
    type V = AppView;

    closed spec fn view(&self) -> AppView {
        AppView {
            state: self.state,
            selected_index: self.selected_index as nat,
            tasks: task_views(self.tasks@),
            run: self.orchestrator@,
            sudo_password: self.sudo_password@,
            password_input: self.password_input@,
            focus: self.focus,
            config: self.config,
        }
    }
}

impl App {
    /// The invariant of the application.
    pub open spec fn wf(&self) -> bool {
        self@.wf()
    }

    /// The application as it begins, with the commands built from `config`.
    pub fn new(config: Config) -> (out: App)
        ensures
            out.wf(),
            out@ == AppView::initial(config),
    {
        let mut orchestrator = Orchestrator::new();
        orchestrator.announce("Welcome to dot-setup");
        assert(orchestrator@.log.lines =~= seq![crate::session::welcome_line()]);
        let out = App {
            state: AppState::Selection,
            selected_index: 0,
            tasks: default_tasks(),
            orchestrator,
            sudo_password: String::new(),
            password_input: Vec::new(),
            config,
            focus: Focus::TaskList,
        };
        assert(out@.run == AppView::initial(config).run);
        assert(out@.password_input =~= Seq::<char>::empty());
        out
    }

    /// What the user sees.
    pub fn get_state(&self) -> (out: AppState)
        ensures
            out == self@.state,
    {
        self.state
    }

    /// Shows `new_state`, whatever was shown. Nothing else changes.
    pub fn set_state(&mut self, new_state: AppState)
        ensures
            final(self)@ == (AppView { state: new_state, ..old(self)@ }),
            old(self).wf() ==> final(self).wf(),
    {
        self.state = new_state;
    }

    /// The enabled tasks, in the order in which they run.
    pub fn get_enabled_tasks(&self) -> (out: Vec<Task>)
        ensures
            task_views(out@) == enabled_of(self@.tasks),
    {
        get_enabled(&self.tasks)
    }

    /// Toggles the task under the cursor. Tasks are toggled only in
    /// `Selection`; in every other state, and with the cursor on no task,
    /// nothing changes.
    pub fn toggle_task(&mut self)
        ensures
            final(self)@ == old(self)@.toggled(),
            old(self).wf() ==> final(self).wf(),
    {
        if self.state == AppState::Selection {
            toggle(&mut self.tasks, self.selected_index);
        }
    }

    /// Shows the password prompt.
    pub fn get_password(&mut self)
        requires
            old(self).wf(),
        ensures
            final(self).wf(),
            final(self)@ == old(self)@.asking_password(),
    {
        self.state = AppState::GettingPassword;
        self.orchestrator.announce("Enter sudo password:");
    }

    /// Requests the start of a run over the enabled tasks, and says whether
    /// one started. With no task enabled, or while a run is under way,
    /// nothing happens; where an enabled task needs the credential and there
    /// is none, the password prompt is shown.
    pub fn start_tasks(&mut self) -> (started: bool)
        requires
            old(self).wf(),
        ensures
            final(self).wf(),
            started == old(self)@.starts_run(),
            final(self)@ == old(self)@.start_requested(),
    {
        let enabled = get_enabled(&self.tasks);
        if enabled.len() == 0 || self.orchestrator.is_active() {
            return false;
        }
        if any_requires_privilege(&enabled) && self.sudo_password.as_str().is_empty() {
            self.get_password();
            return false;
        }
        self.state = AppState::Running;
        self.orchestrator.start_run(&self.tasks, &self.config, self.sudo_password.as_str());
        true
    }

    /// Shows the list of tasks again, the cursor on the first.
    fn back_to_selection(&mut self)
        ensures
            final(self)@ == old(self)@.back_to_selection(),
            old(self).wf() ==> final(self).wf(),
    {
        self.state = AppState::Selection;
        self.selected_index = 0;
        self.focus = Focus::TaskList;
    }

    /// Handles a key in `Selection`.
    fn key_in_selection(&mut self, key: Key)
        requires
            old(self).wf(),
            old(self)@.state == AppState::Selection,
        ensures
            final(self).wf(),
            final(self)@ == old(self)@.after_key_in_selection(key),
    {
        match key {
            Key::Up => {
                if self.selected_index > 0 {
                    self.selected_index = self.selected_index - 1;
                }
            },
            Key::Down => {
                if self.selected_index < self.tasks.len() {
                    self.selected_index = self.selected_index + 1;
                }
            },
            Key::Enter => {
                self.choose_entry();
            },
            Key::Char(c) => {
                if c == ' ' {
                    self.choose_entry();
                }
            },
            _ => {},
        }
    }

    /// Toggles the task under the cursor, or goes on to `Confirm` from the
    /// position after the last task.
    fn choose_entry(&mut self)
        requires
            old(self).wf(),
            old(self)@.state == AppState::Selection,
        ensures
            final(self).wf(),
            final(self)@ == old(self)@.after_key_in_selection(Key::Enter),
    {
        if self.selected_index < self.tasks.len() {
            self.toggle_task();
        } else if self.selected_index == self.tasks.len() {
            self.state = AppState::Confirm;
            self.selected_index = 0;
            self.focus = Focus::Buttons;
        }
    }

    /// Handles a key in `Confirm`, and says whether a run started.
    fn key_in_confirm(&mut self, key: Key) -> (started: bool)
        requires
            old(self).wf(),
            old(self)@.state == AppState::Confirm,
        ensures
            final(self).wf(),
            final(self)@ == old(self)@.after_key_in_confirm(key),
            started == (key == Key::Enter && old(self)@.selected_index == 0
                && old(self)@.starts_run()),
    {
        match key {
            Key::Left | Key::Right => {
                if self.focus == Focus::Buttons {
                    self.selected_index = if self.selected_index == 0 {
                        1
                    } else {
                        0
                    };
                }
                false
            },
            Key::Enter => {
                if self.selected_index == 0 {
                    self.start_tasks()
                } else {
                    self.back_to_selection();
                    false
                }
            },
            Key::Esc => {
                self.back_to_selection();
                false
            },
            _ => false,
        }
    }

    /// Handles a key in `GettingPassword`, and says whether a run started.
    fn key_in_password(&mut self, key: Key) -> (started: bool)
        requires
            old(self).wf(),
            old(self)@.state == AppState::GettingPassword,
        ensures
            final(self).wf(),
            final(self)@ == old(self)@.after_key_in_password(key),
            started == (key == Key::Enter && old(self)@.password_submitted().starts_run()),
    {
        match key {
            Key::Enter => {
                let typed = self.password_input.len();
                self.sudo_password = text_of(&self.password_input, 0, typed);
                self.password_input.clear();
                assert(self@ == old(self)@.password_submitted()) by {
                    assert(self@.sudo_password =~= old(self)@.password_input);
                }
                self.start_tasks()
            },
            Key::Backspace => {
                if self.password_input.len() > 0 {
                    self.password_input.pop();
                    assert(self@.password_input =~= old(self)@.password_input.drop_last());
                }
                false
            },
            Key::Esc => {
                self.state = AppState::Selection;
                self.password_input.clear();
                false
            },
            Key::Char(c) => {
                self.password_input.push(c);
                false
            },
            _ => false,
        }
    }

    /// Handles a key in `Done`.
    fn key_in_done(&mut self, key: Key)
        requires
            old(self).wf(),
            old(self)@.state == AppState::Done,
        ensures
            final(self).wf(),
            final(self)@ == old(self)@.after_key_in_done(key),
    {
        match key {
            Key::Esc => {
                self.back_to_selection();
                self.sudo_password = String::new();
                self.orchestrator.announce("Welcome to dot-setup");
            },
            _ => {},
        }
    }

    /// Handles a key that the user pressed, and says what the caller is to
    /// do: go on, leave, or execute the run that the key started.
    pub fn handle_key(&mut self, key: Key) -> (effect: Effect)
        requires
            old(self).wf(),
        ensures
            final(self).wf(),
            final(self)@ == old(self)@.after_key(key),
            effect == old(self)@.effect_of(key),
    {
        match self.state {
            AppState::Selection => {
                match key {
                    Key::Esc => Effect::Quit,
                    _ => {
                        self.key_in_selection(key);
                        Effect::Continue
                    },
                }
            },
            AppState::Confirm => {
                if self.key_in_confirm(key) {
                    Effect::RunStarted
                } else {
                    Effect::Continue
                }
            },
            AppState::GettingPassword => {
                if self.key_in_password(key) {
                    Effect::RunStarted
                } else {
                    Effect::Continue
                }
            },
            AppState::Running => {
                match key {
                    Key::Esc => {
                        self.orchestrator.request_cancel();
                    },
                    _ => {},
                }
                Effect::Continue
            },
            AppState::Done => {
                self.key_in_done(key);
                Effect::Continue
            },
        }
    }

    /// What a redraw tick does: while the run is shown, the log follows its
    /// last line, and a run that has ended leads to `Done`.
    pub fn poll(&mut self)
        requires
            old(self).wf(),
        ensures
            final(self).wf(),
            final(self)@ == old(self)@.polled(),
    {
        if self.state == AppState::Running {
            self.orchestrator.follow_log();
            if self.orchestrator.has_terminated() {
                self.state = AppState::Done;
            }
        }
    }

    /// Lets the run decide at a task boundary, and says what is to be
    /// executed next.
    pub fn next_action(&mut self) -> (action: RunAction)
        requires
            old(self).wf(),
        ensures
            final(self).wf(),
            final(self)@ == old(self)@.advanced(),
            action@ == final(self)@.run.action(),
    {
        self.orchestrator.next_action()
    }

    /// Hands the run the result of the command line that was handed out.
    pub fn record_result(&mut self, result: &ExecResult)
        requires
            old(self).wf(),
        ensures
            final(self).wf(),
            final(self)@ == old(self)@.recorded(result@),
    {
        self.orchestrator.record_result(result);
    }

    /// The entry that the cursor is on.
    pub fn selected_index(&self) -> (out: usize)
        ensures
            out == self@.selected_index,
    {
        self.selected_index
    }

    /// Which part of the screen takes the keys.
    pub fn focus(&self) -> (out: Focus)
        ensures
            out == self@.focus,
    {
        self.focus
    }

    /// All tasks, in the order in which they run.
    pub fn tasks(&self) -> (out: &Vec<Task>)
        ensures
            task_views(out@) == self@.tasks,
    {
        &self.tasks
    }

    /// The run.
    pub fn orchestrator(&self) -> (out: &Orchestrator)
        ensures
            out@ == self@.run,
    {
        &self.orchestrator
    }

    /// Whether there is a credential.
    pub fn has_password(&self) -> (out: bool)
        ensures
            out == (self@.sudo_password.len() > 0),
    {
        !self.sudo_password.as_str().is_empty()
    }

    /// How many characters were typed at the password prompt.
    pub fn typed_len(&self) -> (out: usize)
        ensures
            out == self@.password_input.len(),
    {
        self.password_input.len()
    }
}

} // verus!
