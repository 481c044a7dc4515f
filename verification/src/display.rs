//! What the screens show: the text and tone of each row, decided from the
//! state. Drawing it is the caller's part.

use vstd::prelude::*;
use crate::session::AppState;
use crate::steps::{RunStep, StepStatus, StepView};
use crate::task::{Task, TaskView};

verus! {

/// The colour of a piece of text.
#[derive(Clone, Copy, Debug, PartialEq, Eq, Structural)]
pub enum Tone {
    Cyan,
    Yellow,
    White,
    DarkGray,
    Green,
    Red,
}

/// The name of the program, shown at the top.
pub open spec fn title_text() -> Seq<char> {
    "dot-setup"@
}

/// The box that stands for the choice of a task.
pub open spec fn checkbox_text(enabled: bool) -> Seq<char> {
    if enabled {
        "[x]"@
    } else {
        "[ ]"@
    }
}

/// The row of a task in the list: its box and its name.
pub open spec fn task_row_text(task: TaskView) -> Seq<char> {
    checkbox_text(task.enabled) + " "@ + task.display_name
}

/// The sign that stands for the status of a step.
pub open spec fn status_icon(status: StepStatus) -> Seq<char> {
    match status {
        StepStatus::Pending => "○"@,
        StepStatus::Running => "◐"@,
        StepStatus::Completed => "●"@,
        StepStatus::Failed => "✗"@,
    }
}

/// The colour of the sign of a step.
pub open spec fn status_tone(status: StepStatus) -> Tone {
    match status {
        StepStatus::Pending => Tone::DarkGray,
        StepStatus::Running => Tone::Yellow,
        StepStatus::Completed => Tone::Green,
        StepStatus::Failed => Tone::Red,
    }
}

/// What stands before the sign of a step: a mark on the active step, blanks
/// on the others.
pub open spec fn step_prefix(active: bool) -> Seq<char> {
    if active {
        "> "@
    } else {
        "  "@
    }
}

/// What stands after the sign of a step: a blank and its name.
pub open spec fn step_label(step: StepView) -> Seq<char> {
    " "@ + step.display_name
}

/// The keys that each state takes, as the bottom line shows them.
pub open spec fn help_line(state: AppState) -> Seq<char> {
    match state {
        AppState::GettingPassword => "Type password | Enter Submit | Esc Cancel"@,
        AppState::Selection => "↑↓ Select | Space/Enter Toggle | Esc Exit"@,
        AppState::Confirm => "←→ Switch | Enter Confirm | Esc Back"@,
        AppState::Running => "Press ESC to cancel..."@,
        AppState::Done => "Press ESC to return"@,
    }
}

/// The colour of row `index` of the task list: that of the cursor on the row
/// it is on.
pub open spec fn row_tone(index: nat, selected_index: nat) -> Tone {
    if index == selected_index {
        Tone::Yellow
    } else {
        Tone::White
    }
}

/// The name of the program, shown at the top.
pub fn title() -> (out: &'static str)
    ensures
        out@ == title_text(),
{
    "dot-setup"
}

/// The box that stands for the choice of a task.
pub fn checkbox(enabled: bool) -> (out: &'static str)
    ensures
        out@ == checkbox_text(enabled),
{
    if enabled {
        "[x]"
    } else {
        "[ ]"
    }
}

/// The row of a task in the list: its box and its name.
pub fn task_row(task: &Task) -> (out: String)
    ensures
        out@ == task_row_text(task@),
{
    let mut out = String::from_str(checkbox(task.enabled));
    out.append(" ");
    out.append(task.display_name.as_str());
    out
}

/// The colour of row `index` of the task list, and whether it is bold: the
/// row under the cursor is both yellow and bold.
pub fn row_style(index: usize, selected_index: usize) -> (out: (Tone, bool))
    ensures
        out.0 == row_tone(index as nat, selected_index as nat),
        out.1 == (index == selected_index),
{
    if index == selected_index {
        (Tone::Yellow, true)
    } else {
        (Tone::White, false)
    }
}

/// The sign that stands for the status of a step.
pub fn icon(status: StepStatus) -> (out: &'static str)
    ensures
        out@ == status_icon(status),
{
    match status {
        StepStatus::Pending => "○",
        StepStatus::Running => "◐",
        StepStatus::Completed => "●",
        StepStatus::Failed => "✗",
    }
}

/// The colour of the sign of a step.
pub fn tone(status: StepStatus) -> (out: Tone)
    ensures
        out == status_tone(status),
{
    match status {
        StepStatus::Pending => Tone::DarkGray,
        StepStatus::Running => Tone::Yellow,
        StepStatus::Completed => Tone::Green,
        StepStatus::Failed => Tone::Red,
    }
}

/// What stands before the sign of step `index`: a mark where it is the
/// active step.
pub fn prefix(index: usize, active_step: usize) -> (out: &'static str)
    ensures
        out@ == step_prefix(index == active_step),
{
    if index == active_step {
        "> "
    } else {
        "  "
    }
}

/// What stands after the sign of a step: a blank and its name.
pub fn label(step: &RunStep) -> (out: String)
    ensures
        out@ == step_label(step@),
{
    let mut out = String::from_str(" ");
    out.append(step.display_name.as_str());
    out
}

/// The keys that `state` takes, as the bottom line shows them.
pub fn help_text(state: AppState) -> (out: &'static str)
    ensures
        out@ == help_line(state),
{
    match state {
        AppState::GettingPassword => "Type password | Enter Submit | Esc Cancel",
        AppState::Selection => "↑↓ Select | Space/Enter Toggle | Esc Exit",
        AppState::Confirm => "←→ Switch | Enter Confirm | Esc Back",
        AppState::Running => "Press ESC to cancel...",
        AppState::Done => "Press ESC to return",
    }
}

/// Whether the button `button` of the confirmation (0 to confirm, 1 to go
/// back) is the one under the cursor.
pub fn button_selected(button: usize, selected_index: usize) -> (out: bool)
    ensures
        out == (button == selected_index),
{
    button == selected_index
}

} // verus!
