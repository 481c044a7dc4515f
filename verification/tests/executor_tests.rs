use dot_setup::executor::{
    password_prompt_marker, shell_arguments, shell_program, ExecResult, MAX_FORWARDED_LINES,
};

#[test]
fn marker_and_limit() {
    assert_eq!(password_prompt_marker(), "[sudo] password");
    assert_eq!(MAX_FORWARDED_LINES, 20);
}

#[test]
fn shell_runs_the_command_line_with_dash_c() {
    assert_eq!(shell_program(), "sh");
    assert_eq!(shell_arguments("echo hi | cat"), vec!["-c", "echo hi | cat"]);
}

#[test]
fn from_output_splits_stdout_and_classifies_success() {
    let result = ExecResult::from_output("one\ntwo\n", "", Some(0));
    assert_eq!(result.stdout_lines(), &vec!["one".to_string(), "two".to_string()]);
    assert_eq!(result.stderr_text(), "");
    assert!(result.success());
    assert_eq!(result.exit_code(), Some(0));
}

#[test]
fn nonzero_exit_is_failure() {
    let result = ExecResult::from_output("", "boom", Some(1));
    assert!(!result.success());
    assert_eq!(result.exit_code(), Some(1));
    assert_eq!(result.stderr_text(), "boom");
    let negative = ExecResult::from_output("", "", Some(-1));
    assert!(!negative.success());
}

#[test]
fn missing_exit_code_is_failure() {
    let result = ExecResult::from_output("partial\n", "", None);
    assert!(!result.success());
    assert_eq!(result.exit_code(), None);
}

#[test]
fn prompt_lines_are_filtered_from_stdout() {
    let result = ExecResult::from_output(
        "before\n[sudo] password for alice: hunter2\nafter\nx [sudo] password y\n",
        "",
        Some(0),
    );
    assert_eq!(result.stdout_lines(), &vec!["before".to_string(), "after".to_string()]);
    for line in result.log_lines() {
        assert!(!line.contains("hunter2"));
    }
}

#[test]
fn only_the_first_twenty_lines_are_forwarded() {
    let mut stdout = String::new();
    for i in 0..50 {
        stdout.push_str(&format!("line {}\n", i));
    }
    let result = ExecResult::from_output(&stdout, "", Some(0));
    assert_eq!(result.stdout_lines().len(), 50);
    let forwarded = result.log_lines();
    assert_eq!(forwarded.len(), 20);
    assert_eq!(forwarded[0], "line 0");
    assert_eq!(forwarded[19], "line 19");
}

#[test]
fn the_limit_counts_lines_after_the_filter() {
    let mut stdout = String::from("[sudo] password for bob:\n");
    for i in 0..20 {
        stdout.push_str(&format!("line {}\n", i));
    }
    let forwarded = ExecResult::from_output(&stdout, "", Some(0)).log_lines();
    assert_eq!(forwarded.len(), 20);
    assert_eq!(forwarded[19], "line 19");
}

#[test]
fn stderr_is_forwarded_as_one_block() {
    let result = ExecResult::from_output("out\n", "first\nsecond\n", Some(2));
    assert_eq!(result.log_lines(), vec!["out", "first\nsecond\n"]);
}

#[test]
fn empty_stderr_is_not_forwarded() {
    let result = ExecResult::from_output("out\n", "", Some(0));
    assert_eq!(result.log_lines(), vec!["out"]);
}

#[test]
fn stderr_with_a_prompt_is_not_forwarded() {
    let result = ExecResult::from_output("out\n", "[sudo] password for alice: \nSorry", Some(1));
    assert_eq!(result.log_lines(), vec!["out"]);
    assert_eq!(result.stderr_text(), "[sudo] password for alice: \nSorry");
}

#[test]
fn spawn_failure_is_a_failed_result_with_the_error_text() {
    let result = ExecResult::spawn_failed("No such file or directory (os error 2)");
    assert!(!result.success());
    assert_eq!(result.exit_code(), None);
    assert!(result.stdout_lines().is_empty());
    assert_eq!(result.stderr_text(), "No such file or directory (os error 2)");
    assert_eq!(result.log_lines(), vec!["No such file or directory (os error 2)"]);
}

#[test]
fn no_output_forwards_nothing() {
    assert!(ExecResult::from_output("", "", Some(0)).log_lines().is_empty());
}
