//! What comes back from one shell command: its output, cleaned of password
//! prompts, whether it succeeded, and what of it goes to the log. Running
//! the command is the caller's part.

use vstd::prelude::*;
use crate::text::{contains, has_substring, lines_of, split_lines, views};

verus! {

/// Lines of standard output that go to the log for one command.
pub const MAX_FORWARDED_LINES: usize = 20;

/// The text by which a password prompt is known.
pub open spec fn prompt_marker() -> Seq<char> {
    "[sudo] password"@
}

/// `text` shows a password prompt.
pub open spec fn shows_prompt(text: Seq<char>) -> bool {
    has_substring(text, prompt_marker())
}

/// The test that picks the lines without a password prompt.
pub open spec fn no_prompt() -> spec_fn(Seq<char>) -> bool {
    |line: Seq<char>| !shows_prompt(line)
}

/// `lines` without those that show a password prompt.
pub open spec fn without_prompts(lines: Seq<Seq<char>>) -> Seq<Seq<char>> {
    lines.filter(no_prompt())
}

/// The result of one command as plain values.
pub struct ExecView {
    /// The lines of standard output, without those that show a password
    /// prompt.
    pub stdout_lines: Seq<Seq<char>>,
    /// Standard error, as one block.
    pub stderr_text: Seq<char>,
    /// Whether the command succeeded.
    pub success: bool,
    /// The exit code, where the command ended with one.
    pub exit_code: Option<i32>,
}

impl ExecView {
    /// No line of standard output shows a password prompt, and the command
    /// succeeded just when it ended with exit code 0.
    pub open spec fn wf(self) -> bool {
        &&& forall|i: int|
            0 <= i < self.stdout_lines.len() ==> !shows_prompt(#[trigger] self.stdout_lines[i])
        &&& self.success <==> self.exit_code == Some(0i32)
    }

    /// The result of a command that ran and wrote `stdout` and `stderr`.
    pub open spec fn captured(stdout: Seq<char>, stderr: Seq<char>, exit_code: Option<i32>) -> ExecView {
        ExecView {
            stdout_lines: without_prompts(lines_of(stdout)),
            stderr_text: stderr,
            success: exit_code == Some(0i32),
            exit_code,
        }
    }

    /// The result that stands for a command that could not be started:
    /// failed, without exit code, with the error as standard error.
    pub open spec fn spawn_failed(error: Seq<char>) -> ExecView {
        ExecView {
            stdout_lines: Seq::empty(),
            stderr_text: error,
            success: false,
            exit_code: None,
        }
    }

    /// Standard error goes to the log unless it is empty or shows a password
    /// prompt.
    pub open spec fn forwards_stderr(self) -> bool {
        self.stderr_text.len() > 0 && !shows_prompt(self.stderr_text)
    }

    /// How many lines of standard output go to the log.
    pub open spec fn forwarded_count(self) -> int {
        if self.stdout_lines.len() <= MAX_FORWARDED_LINES {
            self.stdout_lines.len() as int
        } else {
            MAX_FORWARDED_LINES as int
        }
    }

    /// What goes to the log: the first lines of standard output, up to
    /// `MAX_FORWARDED_LINES`, then standard error as one entry.
    pub open spec fn forwarded(self) -> Seq<Seq<char>> {
        let head = self.stdout_lines.take(self.forwarded_count());
        if self.forwards_stderr() {
            head.push(self.stderr_text)
        } else {
            head
        }
    }
}

/// The result of one command.
#[derive(Debug)]
pub struct ExecResult {
    stdout_lines: Vec<String>,
    stderr_text: String,
    success: bool,
    exit_code: Option<i32>,
}

impl View for ExecResult {
    type V = ExecView;

    closed spec fn view(&self) -> ExecView {
        ExecView {
            stdout_lines: views(self.stdout_lines@),
            stderr_text: self.stderr_text@,
            success: self.success,
            exit_code: self.exit_code,
        }
    }
}

/// The text by which a password prompt is known.
pub fn password_prompt_marker() -> (out: &'static str)
    ensures
        out@ == prompt_marker(),
{
    "[sudo] password"
}

/// The command interpreter that runs every command line.
pub fn shell_program() -> (out: &'static str)
    ensures
        out@ == "sh"@,
{
    "sh"
}

/// The arguments with which the command interpreter runs `command_line`.
pub fn shell_arguments(command_line: &str) -> (out: Vec<String>)
    ensures
        views(out@) == seq!["-c"@, command_line@],
{
    let out = vec![String::from_str("-c"), String::from_str(command_line)];
    assert(views(out@) =~= seq!["-c"@, command_line@]);
    out
}

impl ExecResult {
    /// The invariant of a result.
    pub open spec fn wf(&self) -> bool {
        self@.wf()
    }

    /// The result of a command that ran: `stdout` split into lines, without
    /// those that show a password prompt; `stderr` as it is; success where
    /// the exit code is 0.
    pub fn from_output(stdout: &str, stderr: &str, exit_code: Option<i32>) -> (out: ExecResult)
        ensures
            out.wf(),
            out@ == ExecView::captured(stdout@, stderr@, exit_code),
    {
        let all = split_lines(stdout);
        let marker = password_prompt_marker();
        let mut kept: Vec<String> = Vec::new();
        let mut i: usize = 0;
        assert(views(all@).take(0) =~= Seq::<Seq<char>>::empty());
        assert(views(kept@) =~= Seq::<Seq<char>>::empty());
        while i < all.len()
            invariant
                i <= all.len(),
                marker@ == prompt_marker(),
                views(kept@) == without_prompts(views(all@).take(i as int)),
            decreases all.len() - i,
        {
            proof {
                let lines = views(all@);
                assert(lines.take(i + 1) =~= lines.take(i as int).push(lines[i as int]));
                lines.take(i as int).lemma_filter_push(lines[i as int], no_prompt());
            }
            if !contains(all[i].as_str(), marker) {
                let line = all[i].clone();
                assert(views(kept@.push(line)) =~= views(kept@).push(line@));
                kept.push(line);
            }
            i += 1;
        }
        assert(views(all@).take(all.len() as int) =~= views(all@));
        let success = match exit_code {
            Some(code) => code == 0,
            None => false,
        };
        let out = ExecResult {
            stdout_lines: kept,
            stderr_text: String::from_str(stderr),
            success,
            exit_code,
        };
        proof {
            lemma_captured_wf(stdout@, stderr@, exit_code);
        }
        out
    }

    /// The result that stands for a command that could not be started.
    pub fn spawn_failed(error: &str) -> (out: ExecResult)
        ensures
            out.wf(),
            out@ == ExecView::spawn_failed(error@),
    {
        let out = ExecResult {
            stdout_lines: Vec::new(),
            stderr_text: String::from_str(error),
            success: false,
            exit_code: None,
        };
        assert(views(out.stdout_lines@) =~= Seq::<Seq<char>>::empty());
        out
    }

    /// The lines of standard output, without those that show a password
    /// prompt.
    pub fn stdout_lines(&self) -> (out: &Vec<String>)
        ensures
            views(out@) == self@.stdout_lines,
    {
        &self.stdout_lines
    }

    /// Standard error, as one block.
    pub fn stderr_text(&self) -> (out: &str)
        ensures
            out@ == self@.stderr_text,
    {
        self.stderr_text.as_str()
    }

    /// Whether the command succeeded.
    pub fn success(&self) -> (out: bool)
        ensures
            out == self@.success,
    {
        self.success
    }

    /// The exit code, where the command ended with one.
    pub fn exit_code(&self) -> (out: Option<i32>)
        ensures
            out == self@.exit_code,
    {
        self.exit_code
    }

    /// What goes to the log: the first lines of standard output, up to
    /// `MAX_FORWARDED_LINES`, then standard error as one entry unless it is
    /// empty or shows a password prompt.
    pub fn log_lines(&self) -> (out: Vec<String>)
        ensures
            views(out@) == self@.forwarded(),
    {
        let count: usize = if self.stdout_lines.len() <= MAX_FORWARDED_LINES {
            self.stdout_lines.len()
        } else {
            MAX_FORWARDED_LINES
        };
        let mut out: Vec<String> = Vec::new();
        let mut i: usize = 0;
        while i < count
            invariant
                i <= count <= self.stdout_lines.len(),
                out@ == self.stdout_lines@.take(i as int),
            decreases count - i,
        {
            out.push(self.stdout_lines[i].clone());
            assert(self.stdout_lines@.take(i + 1) =~= self.stdout_lines@.take(i as int).push(
                self.stdout_lines@[i as int],
            ));
            i += 1;
        }
        assert(views(out@) =~= self@.stdout_lines.take(count as int));
        let stderr = self.stderr_text.as_str();
        if !stderr.is_empty() && !contains(stderr, password_prompt_marker()) {
            let block = self.stderr_text.clone();
            assert(views(out@.push(block)) =~= views(out@).push(block@));
            out.push(block);
        }
        out
    }
}

/// What is captured of a command is a well-formed result.
pub proof fn lemma_captured_wf(stdout: Seq<char>, stderr: Seq<char>, exit_code: Option<i32>)
    ensures
        ExecView::captured(stdout, stderr, exit_code).wf(),
        ExecView::spawn_failed(stderr).wf(),
{
    let lines = lines_of(stdout);
    let kept = without_prompts(lines);
    assert forall|i: int| 0 <= i < kept.len() implies !shows_prompt(#[trigger] kept[i]) by {
        lines.lemma_filter_pred(no_prompt(), i);
    }
}

/// At most `MAX_FORWARDED_LINES` lines and standard error go to the log, and
/// none of them shows a password prompt.
pub proof fn lemma_forwarded_bounded(result: ExecView)
    requires
        result.wf(),
    ensures
        result.forwarded().len() <= MAX_FORWARDED_LINES + 1,
        forall|i: int|
            0 <= i < result.forwarded().len() ==> !shows_prompt(#[trigger] result.forwarded()[i]),
{
}

/// Where the credential stands in the output only on lines that show a
/// password prompt, and in standard error only where that shows one, nothing
/// that goes to the log holds the credential.
pub proof fn lemma_forwarded_hides_credential(
    stdout: Seq<char>,
    stderr: Seq<char>,
    exit_code: Option<i32>,
    credential: Seq<char>,
)
    requires
        forall|i: int|
            0 <= i < lines_of(stdout).len() && has_substring(
                #[trigger] lines_of(stdout)[i],
                credential,
            ) ==> shows_prompt(lines_of(stdout)[i]),
        has_substring(stderr, credential) ==> shows_prompt(stderr),
    ensures
        forall|i: int|
            0 <= i < ExecView::captured(stdout, stderr, exit_code).forwarded().len()
                ==> !has_substring(
                #[trigger] ExecView::captured(stdout, stderr, exit_code).forwarded()[i],
                credential,
            ),
{
    let result = ExecView::captured(stdout, stderr, exit_code);
    let lines = lines_of(stdout);
    let sent = result.forwarded();
    lemma_captured_wf(stdout, stderr, exit_code);
    assert forall|i: int| 0 <= i < sent.len() implies !has_substring(
        #[trigger] sent[i],
        credential,
    ) by {
        if i < result.forwarded_count() {
            let line = result.stdout_lines[i];
            assert(sent[i] == line);
            assert(result.stdout_lines.contains(line));
            lines.lemma_filter_contains_rev(no_prompt(), line);
            let j = choose|j: int| 0 <= j < lines.len() && lines[j] == line;
            assert(!shows_prompt(lines[j]));
        } else {
            assert(sent[i] == stderr);
        }
    }
}

} // verus!
