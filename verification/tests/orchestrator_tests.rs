use dot_setup::config::{
    Commands, Config, FlatpakGroup, HomebrewGroup, OpenCodeGroup, PackageGroup, Packages,
    Repositories,
};
use dot_setup::executor::ExecResult;
use dot_setup::log::LogBuffer;
use dot_setup::orchestrator::{Orchestrator, RunAction};
use dot_setup::run::RunPhase;
use dot_setup::steps::StepStatus;
use dot_setup::task::Task;

fn group(packages: &[&str]) -> PackageGroup {
    PackageGroup {
        description: String::new(),
        packages: packages.iter().map(|p| p.to_string()).collect(),
        enable_service: false,
    }
}

fn config() -> Config {
    Config {
        repositories: Repositories {
            rpm_fusion_free: "free".to_string(),
            rpm_fusion_nonfree: "nonfree".to_string(),
            docker: "docker.repo".to_string(),
            terra: "terra".to_string(),
        },
        packages: Packages {
            dnf: group(&["git"]),
            docker: group(&["docker-ce"]),
            flatpak: FlatpakGroup {
                description: String::new(),
                remote: "flathub".to_string(),
                apps: vec!["app".to_string()],
            },
            terra: group(&["zed"]),
            homebrew: HomebrewGroup {
                description: String::new(),
                install_script: "install.sh".to_string(),
                packages: vec!["gh".to_string()],
            },
            cargo: group(&["bat"]),
            opencode: OpenCodeGroup { description: String::new(), url: "opencode.rpm".to_string() },
        },
        commands: Commands { update: "dnf upgrade -y".to_string(), shell_init: "brew shellenv".to_string() },
    }
}

/// Three tasks of one command each.
fn three_tasks() -> Vec<Task> {
    vec![
        Task::new("cargo", "Install Cargo Packages", true, false),
        Task::new("terra", "Install Terra Extras", true, true),
        Task::new("stow", "Stow Dotfiles", true, false),
    ]
}

fn ok() -> ExecResult {
    ExecResult::from_output("", "", Some(0))
}

fn failed() -> ExecResult {
    ExecResult::from_output("", "", Some(1))
}

fn statuses(orchestrator: &Orchestrator) -> Vec<StepStatus> {
    orchestrator.snapshot_steps().iter().map(|s| s.status).collect()
}

fn expect_execute(action: RunAction) -> String {
    match action {
        RunAction::Execute(line) => line,
        RunAction::Finished => panic!("a command was expected"),
    }
}

fn is_finished(action: &RunAction) -> bool {
    matches!(action, RunAction::Finished)
}

#[test]
fn new_orchestrator_is_idle() {
    let mut orchestrator = Orchestrator::new();
    assert_eq!(orchestrator.phase(), RunPhase::Idle);
    assert!(!orchestrator.is_active());
    assert!(!orchestrator.has_terminated());
    assert!(!orchestrator.is_complete());
    assert!(!orchestrator.cancel_requested());
    assert!(orchestrator.snapshot_steps().is_empty());
    assert!(orchestrator.snapshot_log().is_empty());
    assert!(is_finished(&orchestrator.next_action()));
    assert_eq!(orchestrator.phase(), RunPhase::Idle);
}

#[test]
fn run_starts_with_one_pending_step_per_enabled_task() {
    let mut tasks = three_tasks();
    tasks[1].enabled = false;
    let mut orchestrator = Orchestrator::new();
    assert!(orchestrator.start_run(&tasks, &config(), "pw"));
    let steps = orchestrator.snapshot_steps();
    assert_eq!(steps.len(), 2);
    assert_eq!(steps[0].display_name, "Install Cargo Packages");
    assert_eq!(steps[1].display_name, "Stow Dotfiles");
    assert_eq!(statuses(&orchestrator), vec![StepStatus::Pending, StepStatus::Pending]);
    assert_eq!(orchestrator.snapshot_log(), vec!["Starting tasks..."]);
    assert_eq!(orchestrator.phase(), RunPhase::Boundary);
    assert_eq!(orchestrator.active_step(), 0);
}

#[test]
fn all_commands_succeed() {
    let mut orchestrator = Orchestrator::new();
    orchestrator.start_run(&three_tasks(), &config(), "pw");
    let mut executed = Vec::new();
    loop {
        match orchestrator.next_action() {
            RunAction::Execute(line) => {
                executed.push(line);
                orchestrator.record_result(&ok());
            },
            RunAction::Finished => break,
        }
    }
    assert_eq!(
        executed,
        vec![
            "cargo install bat",
            "echo 'pw' | sudo -S dnf install -y zed",
            "mkdir -p $HOME/.local/bin && stow -R -t $HOME/ --dotfiles .",
        ]
    );
    assert_eq!(
        statuses(&orchestrator),
        vec![StepStatus::Completed, StepStatus::Completed, StepStatus::Completed]
    );
    assert!(orchestrator.is_complete());
    assert!(orchestrator.has_terminated());
    assert_eq!(orchestrator.phase(), RunPhase::Completed);
    assert_eq!(
        orchestrator.snapshot_log(),
        vec![
            "Starting tasks...",
            "\n=== Install Cargo Packages ===",
            "✓ Install Cargo Packages completed",
            "\n=== Install Terra Extras ===",
            "✓ Install Terra Extras completed",
            "\n=== Stow Dotfiles ===",
            "✓ Stow Dotfiles completed",
            "\n=== All tasks complete! ===",
            "Press ESC to return",
        ]
    );
}

#[test]
fn second_command_fails_and_third_still_runs() {
    let mut orchestrator = Orchestrator::new();
    orchestrator.start_run(&three_tasks(), &config(), "pw");
    expect_execute(orchestrator.next_action());
    orchestrator.record_result(&ok());
    expect_execute(orchestrator.next_action());
    orchestrator.record_result(&failed());
    assert_eq!(
        statuses(&orchestrator),
        vec![StepStatus::Completed, StepStatus::Failed, StepStatus::Pending]
    );
    let third = expect_execute(orchestrator.next_action());
    assert_eq!(third, "mkdir -p $HOME/.local/bin && stow -R -t $HOME/ --dotfiles .");
    orchestrator.record_result(&ok());
    assert!(is_finished(&orchestrator.next_action()));
    assert_eq!(
        statuses(&orchestrator),
        vec![StepStatus::Completed, StepStatus::Failed, StepStatus::Completed]
    );
    assert!(orchestrator.is_complete());
    let log = orchestrator.snapshot_log();
    assert!(log.contains(&"✗ Install Terra Extras failed".to_string()));
    assert_eq!(log[log.len() - 2], "\n=== All tasks complete! ===");
}

#[test]
fn cancel_while_second_step_runs() {
    let mut orchestrator = Orchestrator::new();
    orchestrator.start_run(&three_tasks(), &config(), "pw");
    expect_execute(orchestrator.next_action());
    orchestrator.record_result(&ok());
    expect_execute(orchestrator.next_action());
    assert_eq!(
        statuses(&orchestrator),
        vec![StepStatus::Completed, StepStatus::Running, StepStatus::Pending]
    );
    orchestrator.request_cancel();
    assert_eq!(orchestrator.phase(), RunPhase::Executing);
    assert_eq!(
        statuses(&orchestrator),
        vec![StepStatus::Completed, StepStatus::Running, StepStatus::Pending]
    );
    orchestrator.record_result(&ok());
    assert!(is_finished(&orchestrator.next_action()));
    assert_eq!(
        statuses(&orchestrator),
        vec![StepStatus::Completed, StepStatus::Completed, StepStatus::Pending]
    );
    assert_eq!(orchestrator.phase(), RunPhase::Cancelled);
    assert!(orchestrator.has_terminated());
    assert!(!orchestrator.is_complete());
    let log = orchestrator.snapshot_log();
    assert_eq!(log.last().unwrap(), "\n=== Tasks cancelled ===");
    assert!(!log.contains(&"\n=== All tasks complete! ===".to_string()));
}

#[test]
fn cancel_while_second_step_runs_and_fails() {
    let mut orchestrator = Orchestrator::new();
    orchestrator.start_run(&three_tasks(), &config(), "pw");
    expect_execute(orchestrator.next_action());
    orchestrator.record_result(&ok());
    expect_execute(orchestrator.next_action());
    orchestrator.request_cancel();
    orchestrator.record_result(&failed());
    assert!(is_finished(&orchestrator.next_action()));
    assert_eq!(
        statuses(&orchestrator),
        vec![StepStatus::Completed, StepStatus::Failed, StepStatus::Pending]
    );
    assert_eq!(orchestrator.phase(), RunPhase::Cancelled);
}

#[test]
fn cancel_before_the_first_step_leaves_all_pending() {
    let mut orchestrator = Orchestrator::new();
    orchestrator.start_run(&three_tasks(), &config(), "pw");
    orchestrator.request_cancel();
    assert!(is_finished(&orchestrator.next_action()));
    assert_eq!(
        statuses(&orchestrator),
        vec![StepStatus::Pending, StepStatus::Pending, StepStatus::Pending]
    );
    assert_eq!(
        orchestrator.snapshot_log(),
        vec!["Starting tasks...", "\n=== Tasks cancelled ==="]
    );
    assert!(!orchestrator.is_complete());
}

#[test]
fn cancel_during_the_last_step_ends_with_the_marker() {
    let tasks = vec![Task::new("stow", "Stow Dotfiles", true, false)];
    let mut orchestrator = Orchestrator::new();
    orchestrator.start_run(&tasks, &config(), "");
    expect_execute(orchestrator.next_action());
    orchestrator.request_cancel();
    orchestrator.record_result(&ok());
    assert!(is_finished(&orchestrator.next_action()));
    assert_eq!(statuses(&orchestrator), vec![StepStatus::Completed]);
    assert_eq!(orchestrator.phase(), RunPhase::Cancelled);
    assert!(!orchestrator.is_complete());
    assert_eq!(orchestrator.snapshot_log().last().unwrap(), "\n=== Tasks cancelled ===");
}

#[test]
fn ended_run_stays_as_it_is() {
    let mut orchestrator = Orchestrator::new();
    orchestrator.start_run(&three_tasks(), &config(), "pw");
    orchestrator.request_cancel();
    orchestrator.next_action();
    let steps = statuses(&orchestrator);
    let log = orchestrator.snapshot_log();
    orchestrator.record_result(&failed());
    assert!(is_finished(&orchestrator.next_action()));
    orchestrator.request_cancel();
    assert_eq!(statuses(&orchestrator), steps);
    assert_eq!(orchestrator.snapshot_log(), log);
    assert_eq!(orchestrator.phase(), RunPhase::Cancelled);
}

#[test]
fn empty_task_list_completes_at_once() {
    let mut orchestrator = Orchestrator::new();
    assert!(orchestrator.start_run(&Vec::new(), &config(), ""));
    assert!(is_finished(&orchestrator.next_action()));
    assert!(orchestrator.is_complete());
    assert!(orchestrator.snapshot_steps().is_empty());
    assert_eq!(
        orchestrator.snapshot_log(),
        vec!["Starting tasks...", "\n=== All tasks complete! ===", "Press ESC to return"]
    );
}

#[test]
fn task_without_commands_is_completed_silently() {
    let tasks = vec![
        Task::new("nothing", "Does Nothing", true, false),
        Task::new("stow", "Stow Dotfiles", true, false),
        Task::new("nothing-too", "Does Nothing Either", true, false),
    ];
    let mut orchestrator = Orchestrator::new();
    orchestrator.start_run(&tasks, &config(), "");
    let line = expect_execute(orchestrator.next_action());
    assert_eq!(line, "mkdir -p $HOME/.local/bin && stow -R -t $HOME/ --dotfiles .");
    assert_eq!(
        statuses(&orchestrator),
        vec![StepStatus::Completed, StepStatus::Running, StepStatus::Pending]
    );
    assert_eq!(orchestrator.active_step(), 1);
    orchestrator.record_result(&ok());
    assert!(is_finished(&orchestrator.next_action()));
    assert_eq!(
        statuses(&orchestrator),
        vec![StepStatus::Completed, StepStatus::Completed, StepStatus::Completed]
    );
    assert_eq!(
        orchestrator.snapshot_log(),
        vec![
            "Starting tasks...",
            "\n=== Stow Dotfiles ===",
            "✓ Stow Dotfiles completed",
            "\n=== All tasks complete! ===",
            "Press ESC to return",
        ]
    );
}

#[test]
fn first_failing_command_stops_the_task() {
    let tasks = vec![
        Task::new("repos", "Add Repositories", true, true),
        Task::new("stow", "Stow Dotfiles", true, false),
    ];
    let mut orchestrator = Orchestrator::new();
    orchestrator.start_run(&tasks, &config(), "pw");
    let first = expect_execute(orchestrator.next_action());
    assert_eq!(first, "echo 'pw' | sudo -S dnf install -y free nonfree");
    orchestrator.record_result(&ok());
    let second = expect_execute(orchestrator.next_action());
    assert!(second.contains("config-manager"));
    assert_eq!(statuses(&orchestrator), vec![StepStatus::Running, StepStatus::Pending]);
    orchestrator.record_result(&failed());
    assert_eq!(statuses(&orchestrator), vec![StepStatus::Failed, StepStatus::Pending]);
    let next = expect_execute(orchestrator.next_action());
    assert_eq!(next, "mkdir -p $HOME/.local/bin && stow -R -t $HOME/ --dotfiles .");
}

#[test]
fn commands_of_a_task_run_in_order() {
    let tasks = vec![Task::new("repos", "Add Repositories", true, true)];
    let mut orchestrator = Orchestrator::new();
    orchestrator.start_run(&tasks, &config(), "pw");
    let mut executed = Vec::new();
    loop {
        match orchestrator.next_action() {
            RunAction::Execute(line) => {
                executed.push(line);
                orchestrator.record_result(&ok());
            },
            RunAction::Finished => break,
        }
    }
    assert_eq!(executed.len(), 3);
    assert!(executed[0].contains("dnf install -y free nonfree"));
    assert!(executed[1].contains("addrepo"));
    assert!(executed[2].contains("terra-release"));
    assert_eq!(statuses(&orchestrator), vec![StepStatus::Completed]);
}

#[test]
fn command_is_handed_out_again_until_its_result_arrives() {
    let mut orchestrator = Orchestrator::new();
    orchestrator.start_run(&three_tasks(), &config(), "pw");
    let first = expect_execute(orchestrator.next_action());
    let again = expect_execute(orchestrator.next_action());
    assert_eq!(first, again);
    assert_eq!(orchestrator.snapshot_log().len(), 2);
}

#[test]
fn no_second_run_while_one_is_under_way() {
    let mut orchestrator = Orchestrator::new();
    assert!(orchestrator.start_run(&three_tasks(), &config(), "pw"));
    expect_execute(orchestrator.next_action());
    let before = statuses(&orchestrator);
    assert!(!orchestrator.start_run(&Vec::new(), &config(), ""));
    assert_eq!(statuses(&orchestrator), before);
    assert!(!orchestrator.announce("cleared"));
    assert_eq!(orchestrator.snapshot_log().len(), 2);
}

#[test]
fn new_run_after_the_end_resets_steps_and_flags() {
    let mut orchestrator = Orchestrator::new();
    orchestrator.start_run(&three_tasks(), &config(), "pw");
    orchestrator.request_cancel();
    orchestrator.next_action();
    assert!(orchestrator.start_run(&three_tasks()[..1].to_vec(), &config(), "pw"));
    assert!(!orchestrator.cancel_requested());
    assert!(!orchestrator.is_complete());
    assert_eq!(statuses(&orchestrator), vec![StepStatus::Pending]);
    assert_eq!(orchestrator.snapshot_log(), vec!["Starting tasks..."]);
}

#[test]
fn output_is_forwarded_to_the_log() {
    let tasks = vec![Task::new("stow", "Stow Dotfiles", true, false)];
    let mut orchestrator = Orchestrator::new();
    orchestrator.start_run(&tasks, &config(), "");
    expect_execute(orchestrator.next_action());
    orchestrator.record_result(&ExecResult::from_output("linked a\nlinked b\n", "warning", Some(0)));
    assert_eq!(
        orchestrator.snapshot_log(),
        vec![
            "Starting tasks...",
            "\n=== Stow Dotfiles ===",
            "linked a",
            "linked b",
            "warning",
            "✓ Stow Dotfiles completed",
        ]
    );
}

#[test]
fn spawn_failure_fails_the_step_and_logs_the_error() {
    let mut orchestrator = Orchestrator::new();
    orchestrator.start_run(&three_tasks(), &config(), "pw");
    expect_execute(orchestrator.next_action());
    orchestrator.record_result(&ExecResult::spawn_failed("sh: not found"));
    assert_eq!(
        statuses(&orchestrator),
        vec![StepStatus::Failed, StepStatus::Pending, StepStatus::Pending]
    );
    let log = orchestrator.snapshot_log();
    assert_eq!(log[2], "sh: not found");
    assert_eq!(log[3], "✗ Install Cargo Packages failed");
    expect_execute(orchestrator.next_action());
}

#[test]
fn credential_stays_out_of_the_log() {
    let tasks = vec![
        Task::new("dnf", "Install System Packages", true, true),
        Task::new("terra", "Install Terra Extras", true, true),
    ];
    let mut orchestrator = Orchestrator::new();
    orchestrator.start_run(&tasks, &config(), "hunter2");
    loop {
        match orchestrator.next_action() {
            RunAction::Execute(line) => {
                assert!(line.contains("hunter2"));
                let result = ExecResult::from_output(
                    "[sudo] password for alice: hunter2\nInstalling...\nDone\n",
                    "[sudo] password for alice: hunter2\n",
                    Some(0),
                );
                orchestrator.record_result(&result);
            },
            RunAction::Finished => break,
        }
    }
    assert!(orchestrator.is_complete());
    let log = orchestrator.snapshot_log();
    assert!(log.contains(&"Installing...".to_string()));
    for line in log {
        assert!(!line.contains("hunter2"), "{}", line);
    }
}

#[test]
fn statuses_only_move_forward() {
    fn rank(status: StepStatus) -> u8 {
        match status {
            StepStatus::Pending => 0,
            StepStatus::Running => 1,
            StepStatus::Completed | StepStatus::Failed => 2,
        }
    }
    let mut orchestrator = Orchestrator::new();
    let tasks = vec![
        Task::new("repos", "Add Repositories", true, true),
        Task::new("none", "Nothing", true, false),
        Task::new("dnf", "Install System Packages", true, true),
        Task::new("stow", "Stow Dotfiles", true, false),
    ];
    orchestrator.start_run(&tasks, &config(), "pw");
    let mut seen = statuses(&orchestrator);
    let mut count = 0;
    loop {
        let action = orchestrator.next_action();
        let now = statuses(&orchestrator);
        assert_eq!(now.len(), seen.len());
        for i in 0..now.len() {
            assert!(rank(seen[i]) <= rank(now[i]));
            if rank(seen[i]) == 2 {
                assert_eq!(seen[i], now[i]);
            }
        }
        assert!(now.iter().filter(|s| **s == StepStatus::Running).count() <= 1);
        seen = now;
        match action {
            RunAction::Execute(_) => {
                count += 1;
                let result = if count == 4 { failed() } else { ok() };
                orchestrator.record_result(&result);
            },
            RunAction::Finished => break,
        }
    }
    assert_eq!(
        statuses(&orchestrator),
        vec![StepStatus::Completed, StepStatus::Completed, StepStatus::Failed, StepStatus::Completed]
    );
}

#[test]
fn log_of_a_long_run_stays_within_its_capacity() {
    let mut orchestrator = Orchestrator::with_log(LogBuffer::with_capacity(8).unwrap());
    orchestrator.start_run(&three_tasks(), &config(), "pw");
    let mut noisy = String::new();
    for i in 0..40 {
        noisy.push_str(&format!("line {}\n", i));
    }
    loop {
        match orchestrator.next_action() {
            RunAction::Execute(_) => {
                orchestrator.record_result(&ExecResult::from_output(&noisy, "", Some(0)));
                assert!(orchestrator.snapshot_log().len() <= 8);
            },
            RunAction::Finished => break,
        }
    }
    let log = orchestrator.snapshot_log();
    assert!(log.len() <= 8 && !log.is_empty());
    assert_eq!(log.last().unwrap(), "Press ESC to return");
}

#[test]
fn follow_log_puts_the_cursor_on_the_last_line() {
    let mut orchestrator = Orchestrator::new();
    orchestrator.start_run(&three_tasks(), &config(), "pw");
    orchestrator.next_action();
    orchestrator.follow_log();
    assert_eq!(orchestrator.log_scroll(), 1);
}
