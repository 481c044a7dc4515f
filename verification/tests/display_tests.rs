use dot_setup::display::{
    button_selected, checkbox, help_text, icon, label, prefix, row_style, task_row, title, tone,
    Tone,
};
use dot_setup::session::AppState;
use dot_setup::steps::{RunStep, StepStatus};
use dot_setup::task::Task;

#[test]
fn title_is_the_program_name() {
    assert_eq!(title(), "dot-setup");
}

#[test]
fn task_rows_show_the_choice() {
    assert_eq!(checkbox(true), "[x]");
    assert_eq!(checkbox(false), "[ ]");
    assert_eq!(task_row(&Task::new("stow", "Stow Dotfiles", true, false)), "[x] Stow Dotfiles");
    assert_eq!(task_row(&Task::new("stow", "Stow Dotfiles", false, false)), "[ ] Stow Dotfiles");
}

#[test]
fn row_under_the_cursor_is_highlighted() {
    assert_eq!(row_style(2, 2), (Tone::Yellow, true));
    assert_eq!(row_style(1, 2), (Tone::White, false));
}

#[test]
fn each_status_has_its_sign_and_colour() {
    assert_eq!(icon(StepStatus::Pending), "○");
    assert_eq!(icon(StepStatus::Running), "◐");
    assert_eq!(icon(StepStatus::Completed), "●");
    assert_eq!(icon(StepStatus::Failed), "✗");
    assert_eq!(tone(StepStatus::Pending), Tone::DarkGray);
    assert_eq!(tone(StepStatus::Running), Tone::Yellow);
    assert_eq!(tone(StepStatus::Completed), Tone::Green);
    assert_eq!(tone(StepStatus::Failed), Tone::Red);
}

#[test]
fn active_step_is_marked() {
    assert_eq!(prefix(1, 1), "> ");
    assert_eq!(prefix(0, 1), "  ");
    let step = RunStep { display_name: "Install Docker".to_string(), status: StepStatus::Running };
    assert_eq!(label(&step), " Install Docker");
}

#[test]
fn help_text_for_each_state() {
    assert_eq!(help_text(AppState::GettingPassword), "Type password | Enter Submit | Esc Cancel");
    assert_eq!(help_text(AppState::Selection), "↑↓ Select | Space/Enter Toggle | Esc Exit");
    assert_eq!(help_text(AppState::Confirm), "←→ Switch | Enter Confirm | Esc Back");
    assert_eq!(help_text(AppState::Running), "Press ESC to cancel...");
    assert_eq!(help_text(AppState::Done), "Press ESC to return");
}

#[test]
fn one_button_is_selected() {
    assert!(button_selected(0, 0));
    assert!(!button_selected(1, 0));
    assert!(button_selected(1, 1));
}
