use dot_setup::steps::{StepStatus, StepTracker};
use dot_setup::task::{any_requires_privilege, default_tasks, get_enabled, toggle, Task};

fn names(tasks: &Vec<Task>) -> Vec<String> {
    tasks.iter().map(|t| t.id.clone()).collect()
}

#[test]
fn default_tasks_are_the_nine_known_tasks_all_enabled() {
    let tasks = default_tasks();
    assert_eq!(
        names(&tasks),
        vec!["repos", "dnf", "docker", "flatpak", "homebrew", "opencode", "cargo", "terra", "stow"]
    );
    assert!(tasks.iter().all(|t| t.enabled));
    assert_eq!(tasks[0].display_name, "Add Repositories (RPM Fusion, Docker, Terra)");
    assert_eq!(tasks[8].display_name, "Stow Dotfiles");
    assert!(tasks[..8].iter().all(|t| t.requires_privilege));
    assert!(!tasks[8].requires_privilege);
}

#[test]
fn task_ids_are_unique() {
    let ids = names(&default_tasks());
    for i in 0..ids.len() {
        for j in 0..i {
            assert_ne!(ids[i], ids[j]);
        }
    }
}

#[test]
fn toggle_flips_one_task() {
    let mut tasks = default_tasks();
    toggle(&mut tasks, 2);
    assert!(!tasks[2].enabled);
    assert!(tasks[1].enabled && tasks[3].enabled);
    assert_eq!(tasks[2].id, "docker");
    toggle(&mut tasks, 2);
    assert!(tasks[2].enabled);
}

#[test]
fn toggle_out_of_range_changes_nothing() {
    let mut tasks = default_tasks();
    toggle(&mut tasks, 9);
    toggle(&mut tasks, usize::MAX);
    assert_eq!(tasks.len(), 9);
    assert!(tasks.iter().all(|t| t.enabled));
}

#[test]
fn get_enabled_keeps_the_order() {
    let mut tasks = default_tasks();
    toggle(&mut tasks, 0);
    toggle(&mut tasks, 4);
    toggle(&mut tasks, 8);
    assert_eq!(
        names(&get_enabled(&tasks)),
        vec!["dnf", "docker", "flatpak", "opencode", "cargo", "terra"]
    );
}

#[test]
fn get_enabled_of_none_enabled_is_empty() {
    let tasks = vec![Task::new("a", "A", false, false), Task::new("b", "B", false, true)];
    assert!(get_enabled(&tasks).is_empty());
}

#[test]
fn any_requires_privilege_looks_at_every_task() {
    assert!(any_requires_privilege(&default_tasks()));
    let plain = vec![Task::new("stow", "Stow Dotfiles", true, false)];
    assert!(!any_requires_privilege(&plain));
    assert!(!any_requires_privilege(&Vec::new()));
    let last = vec![Task::new("a", "A", true, false), Task::new("b", "B", false, true)];
    assert!(any_requires_privilege(&last));
}

#[test]
fn steps_count_equals_enabled_count() {
    let mut tasks = default_tasks();
    for toggled in [1usize, 3, 5, 7] {
        toggle(&mut tasks, toggled);
        let tracker = StepTracker::for_tasks(&tasks);
        assert_eq!(tracker.len(), get_enabled(&tasks).len());
    }
    let tracker = StepTracker::for_tasks(&tasks);
    let steps = tracker.snapshot();
    let enabled = get_enabled(&tasks);
    for i in 0..steps.len() {
        assert_eq!(steps[i].display_name, enabled[i].display_name);
        assert_eq!(steps[i].status, StepStatus::Pending);
    }
}

#[test]
fn tracker_moves_through_the_life_of_a_step() {
    let tasks = vec![Task::new("a", "A", true, false), Task::new("b", "B", true, false)];
    let mut tracker = StepTracker::for_tasks(&tasks);
    assert_eq!(tracker.current(), 0);
    assert_eq!(tracker.active_step(), 0);
    assert!(!tracker.end(true));
    assert!(tracker.start());
    assert!(!tracker.start());
    assert!(!tracker.skip());
    assert_eq!(tracker.status(0), Some(StepStatus::Running));
    assert_eq!(tracker.active_step(), 0);
    assert!(tracker.end(false));
    assert_eq!(tracker.status(0), Some(StepStatus::Failed));
    assert_eq!(tracker.current(), 1);
    assert_eq!(tracker.active_step(), 0);
    assert!(tracker.skip());
    assert_eq!(tracker.status(1), Some(StepStatus::Completed));
    assert_eq!(tracker.current(), 2);
    assert_eq!(tracker.active_step(), 1);
    assert!(!tracker.start());
    assert!(!tracker.skip());
    assert_eq!(tracker.status(2), None);
    assert_eq!(tracker.current_name(), None);
}

#[test]
fn finished_is_completed_or_failed() {
    assert!(!StepStatus::Pending.is_finished());
    assert!(!StepStatus::Running.is_finished());
    assert!(StepStatus::Completed.is_finished());
    assert!(StepStatus::Failed.is_finished());
}
