//! The execution engine: the decisions of running one shell command as a
//! child process, as a state machine. The caller spawns, reads and waits; the
//! machine says what to do next, keeps what the process wrote, and in the end
//! hands out the result.

use std::time::Duration;
use vstd::prelude::*;
use vstd::string::*;
use crate::logging::{log_record, record_of, LogLevel, LogRecord, LogRecordView};
use crate::table::{option_view, result_view};

verus! {

// ---------------------------------------------------------------------------
// The shell
// ---------------------------------------------------------------------------
/// The kind of system that the command runs on.
#[derive(Clone, Copy, Debug, PartialEq, Eq, Structural)]
pub enum Platform {
    Android,
    Windows,
    /// Linux, macOS and every other system with `/bin/sh`.
    Unix,
}

/// The program to start and its arguments.
#[derive(Debug)]
pub struct ShellInvocation {
    pub program: String,
    pub args: Vec<String>,
}

/// The model of a `ShellInvocation`.
pub struct ShellInvocationView {
    pub program: Seq<char>,
    pub args: Seq<Seq<char>>,
}

/// The strings of `strings`, each by its view.
pub open spec fn strings_view(strings: Seq<String>) -> Seq<Seq<char>> {
    Seq::new(strings.len(), |i: int| strings[i]@)
}

impl View for ShellInvocation {
    type V = ShellInvocationView;

    open spec fn view(&self) -> ShellInvocationView {
        ShellInvocationView { program: self.program@, args: strings_view(self.args@) }
    }
}

/// How the platform's shell is asked to run `command`: the shell gets the
/// text as one argument, as it is.
pub open spec fn shell_invocation_of(platform: Platform, command: Seq<char>) -> ShellInvocationView {
    match platform {
        Platform::Android => ShellInvocationView {
            program: "/system/bin/sh"@,
            args: seq!["-c"@, command],
        },
        Platform::Windows => ShellInvocationView { program: "cmd"@, args: seq!["/C"@, command] },
        Platform::Unix => ShellInvocationView { program: "/bin/sh"@, args: seq!["-c"@, command] },
    }
}

/// The shell invocation that runs `command` on `platform`.
pub fn shell_invocation(platform: Platform, command: &str) -> (invocation: ShellInvocation)
    ensures
        invocation@ == shell_invocation_of(platform, command@),
{
    let (program, flag) = match platform {
        Platform::Android => ("/system/bin/sh", "-c"),
        Platform::Windows => ("cmd", "/C"),
        Platform::Unix => ("/bin/sh", "-c"),
    };
    let mut args: Vec<String> = Vec::new();
    args.push(flag.to_owned());
    args.push(command.to_owned());
    let invocation = ShellInvocation { program: program.to_owned(), args };
    assert(invocation@.args =~= shell_invocation_of(platform, command@).args);
    invocation
}

// ---------------------------------------------------------------------------
// Results
// ---------------------------------------------------------------------------
/// What a command that ran to its end left behind.
#[derive(Debug)]
pub struct CommandOutput {
    /// The lines of standard output, each followed by a line break.
    pub stdout: String,
    /// The lines of standard error, each followed by a line break.
    pub stderr: String,
    /// The exit code, or -1 where the system reports none.
    pub exit_code: i32,
    /// The time from the attempt to spawn to the process's exit.
    pub execution_time: Duration,
}

/// The model of a `CommandOutput`.
pub struct CommandOutputView {
    pub stdout: Seq<char>,
    pub stderr: Seq<char>,
    pub exit_code: i32,
    pub execution_time: Duration,
}

impl View for CommandOutput {
    type V = CommandOutputView;

    open spec fn view(&self) -> CommandOutputView {
        CommandOutputView {
            stdout: self.stdout@,
            stderr: self.stderr@,
            exit_code: self.exit_code,
            execution_time: self.execution_time,
        }
    }
}

/// Why a command gave no output.
#[derive(Debug)]
pub enum CommandError {
    /// The time budget ran out. The process may still be running.
    Timeout,
    /// The process could not be started or waited for; the text is the
    /// system's description of the failure.
    ExecutionFailed(String),
    /// Reading an output stream failed; the text describes the failure.
    IoError(String),
}

/// The model of a `CommandError`.
pub enum CommandErrorView {
    Timeout,
    ExecutionFailed(Seq<char>),
    IoError(Seq<char>),
}

impl View for CommandError {
    type V = CommandErrorView;

    open spec fn view(&self) -> CommandErrorView {
        match self {
            CommandError::Timeout => CommandErrorView::Timeout,
            CommandError::ExecutionFailed(why) => CommandErrorView::ExecutionFailed(why@),
            CommandError::IoError(why) => CommandErrorView::IoError(why@),
        }
    }
}

/// What `{:?}` writes for the string `s`: the text in double quotes, with
/// the characters that need it escaped.
pub uninterp spec fn debug_quoted(s: Seq<char>) -> Seq<char>;

/// `<str as Debug>::fmt` of the standard library, through `format!`. The
/// result is what `debug_quoted` names.
#[verifier::external_body]
fn debug_quote(s: &str) -> (quoted: String)
    ensures
        quoted@ == debug_quoted(s@),
{
    format!("{:?}", s)
}

/// How `{:?}` writes a variant with one field: the variant's name, then the
/// field's text in round brackets.
pub open spec fn variant_text(variant: Seq<char>, field: Seq<char>) -> Seq<char> {
    variant + "("@ + field + ")"@
}

/// The text of a variant `variant` whose one field is written as `field`.
pub fn variant_with_field(variant: &str, field: &str) -> (text: String)
    ensures
        text@ == variant_text(variant@, field@),
{
    let mut text = variant.to_owned();
    text.append("(");
    text.append(field);
    text.append(")");
    text
}

impl CommandErrorView {
    /// The error as `{:?}` writes it: `Timeout`, `ExecutionFailed("...")` or
    /// `IoError("...")`.
    pub open spec fn describe(self) -> Seq<char> {
        match self {
            CommandErrorView::Timeout => "Timeout"@,
            CommandErrorView::ExecutionFailed(why) => variant_text(
                "ExecutionFailed"@,
                debug_quoted(why),
            ),
            CommandErrorView::IoError(why) => variant_text("IoError"@, debug_quoted(why)),
        }
    }

    /// The error in words.
    pub open spec fn message(self) -> Seq<char> {
        match self {
            CommandErrorView::Timeout => "Command execution timed out"@,
            CommandErrorView::ExecutionFailed(why) => "Command execution failed: "@ + why,
            CommandErrorView::IoError(why) => "IO error: "@ + why,
        }
    }
}

impl CommandError {
    /// The error as `{:?}` writes it.
    pub fn describe(&self) -> (text: String)
        ensures
            text@ == self@.describe(),
    {
        match self {
            CommandError::Timeout => "Timeout".to_owned(),
            CommandError::ExecutionFailed(why) => variant_with_field(
                "ExecutionFailed",
                debug_quote(why.as_str()).as_str(),
            ),
            CommandError::IoError(why) => variant_with_field(
                "IoError",
                debug_quote(why.as_str()).as_str(),
            ),
        }
    }

    /// The error in words: `Command execution timed out`,
    /// `Command execution failed: ...` or `IO error: ...`.
    pub fn message(&self) -> (text: String)
        ensures
            text@ == self@.message(),
    {
        match self {
            CommandError::Timeout => "Command execution timed out".to_owned(),
            CommandError::ExecutionFailed(why) => {
                let mut text = "Command execution failed: ".to_owned();
                text.append(why.as_str());
                text
            },
            CommandError::IoError(why) => {
                let mut text = "IO error: ".to_owned();
                text.append(why.as_str());
                text
            },
        }
    }
}

// ---------------------------------------------------------------------------
// The state machine
// ---------------------------------------------------------------------------
/// What `{:?}` writes for a duration, such as `1.5s` or `30s`.
pub uninterp spec fn duration_text(d: Duration) -> Seq<char>;

/// `<Duration as Debug>::fmt` of the standard library, through `format!`.
/// The result is what `duration_text` names.
#[verifier::external_body]
fn duration_debug(d: Duration) -> (text: String)
    ensures
        text@ == duration_text(d),
{
    format!("{:?}", d)
}

/// Where an execution stands.
#[derive(Clone, Copy, Debug, PartialEq, Eq, Structural)]
pub enum Phase {
    /// The process is being started.
    Spawning,
    /// The process runs and its output streams are read.
    Draining,
    /// Both streams have ended and the process's exit is awaited.
    Waiting,
    /// The result was handed out.
    Finished,
}

/// What happened outside since the last step.
#[derive(Debug)]
pub enum Event {
    /// The process was started, with both output streams captured.
    Spawned,
    /// The process could not be started.
    SpawnFailed(String),
    /// Standard output gave a line (without its line break).
    StdoutLine(String),
    /// Standard output has ended.
    StdoutClosed,
    /// Standard error gave a line (without its line break).
    StderrLine(String),
    /// Standard error has ended.
    StderrClosed,
    /// Reading one of the streams failed.
    ReadFailed(String),
    /// The process has ended, with or without an exit code.
    Exited { code: Option<i32>, elapsed: Duration },
    /// Waiting for the process failed.
    WaitFailed(String),
    /// The time budget ran out.
    TimedOut,
}

/// The model of an `Event`.
pub enum EventView {
    Spawned,
    SpawnFailed(Seq<char>),
    StdoutLine(Seq<char>),
    StdoutClosed,
    StderrLine(Seq<char>),
    StderrClosed,
    ReadFailed(Seq<char>),
    Exited { code: Option<i32>, elapsed: Duration },
    WaitFailed(Seq<char>),
    TimedOut,
}

impl View for Event {
    type V = EventView;

    open spec fn view(&self) -> EventView {
        match self {
            Event::Spawned => EventView::Spawned,
            Event::SpawnFailed(why) => EventView::SpawnFailed(why@),
            Event::StdoutLine(line) => EventView::StdoutLine(line@),
            Event::StdoutClosed => EventView::StdoutClosed,
            Event::StderrLine(line) => EventView::StderrLine(line@),
            Event::StderrClosed => EventView::StderrClosed,
            Event::ReadFailed(why) => EventView::ReadFailed(why@),
            Event::Exited { code, elapsed } => EventView::Exited { code: *code, elapsed: *elapsed },
            Event::WaitFailed(why) => EventView::WaitFailed(why@),
            Event::TimedOut => EventView::TimedOut,
        }
    }
}

/// What the caller is to do next.
#[derive(Debug)]
pub enum Action {
    /// Start this program with both output streams captured, then report
    /// `Spawned` or `SpawnFailed`.
    Spawn(ShellInvocation),
    /// Go on reading the streams that are still open, and report each line
    /// and each end.
    Read,
    /// Wait for the process to end, then report `Exited` or `WaitFailed`.
    Wait,
    /// Stop: this is the result.
    Finish(Result<CommandOutput, CommandError>),
    /// Nothing: the event has no place in this phase and changed nothing.
    Ignored,
}

/// The model of an `Action`.
pub enum ActionView {
    Spawn(ShellInvocationView),
    Read,
    Wait,
    Finish(Result<CommandOutputView, CommandErrorView>),
    Ignored,
}

impl View for Action {
    type V = ActionView;

    open spec fn view(&self) -> ActionView {
        match self {
            Action::Spawn(invocation) => ActionView::Spawn(invocation@),
            Action::Read => ActionView::Read,
            Action::Wait => ActionView::Wait,
            Action::Finish(result) => ActionView::Finish(result_view(*result)),
            Action::Ignored => ActionView::Ignored,
        }
    }
}

/// What one step decides: the next action and, where there is something to
/// report, a record for the log.
#[derive(Debug)]
pub struct Step {
    pub action: Action,
    pub log: Option<LogRecord>,
}

/// The model of a `Step`.
pub struct StepView {
    pub action: ActionView,
    pub log: Option<LogRecordView>,
}

impl View for Step {
    type V = StepView;

    open spec fn view(&self) -> StepView {
        StepView { action: self.action@, log: option_view(self.log) }
    }
}

/// The model of an `Execution`.
pub struct ExecutionView {
    pub phase: Phase,
    pub stdout: Seq<char>,
    pub stderr: Seq<char>,
    pub stdout_open: bool,
    pub stderr_open: bool,
    pub budget: Duration,
}

/// The state in which an execution with the time budget `budget` starts.
pub open spec fn initial(budget: Duration) -> ExecutionView {
    ExecutionView {
        phase: Phase::Spawning,
        stdout: Seq::empty(),
        stderr: Seq::empty(),
        stdout_open: true,
        stderr_open: true,
        budget,
    }
}

/// The first step of an execution of `command`: spawn the platform's shell,
/// and log the start.
pub open spec fn first_step(platform: Platform, command: Seq<char>) -> StepView {
    StepView {
        action: ActionView::Spawn(shell_invocation_of(platform, command)),
        log: Some(record_of(LogLevel::Info, "Executing command: "@, command)),
    }
}

/// A step that only tells the caller what to do.
pub open spec fn quiet(action: ActionView) -> StepView {
    StepView { action, log: None }
}

/// `state` after the result was handed out.
pub open spec fn finished(state: ExecutionView) -> ExecutionView {
    ExecutionView { phase: Phase::Finished, ..state }
}

/// The execution ends with `error`, which is logged as an error.
pub open spec fn failed(state: ExecutionView, error: CommandErrorView) -> (ExecutionView, StepView) {
    (
        finished(state),
        StepView {
            action: ActionView::Finish(Err(error)),
            log: Some(record_of(LogLevel::Error, "Command execution failed: "@, error.describe())),
        },
    )
}

/// The execution ends because its time ran out. What was captured so far is
/// not handed out.
pub open spec fn timed_out(state: ExecutionView) -> (ExecutionView, StepView) {
    (
        finished(state),
        StepView {
            action: ActionView::Finish(Err(CommandErrorView::Timeout)),
            log: Some(
                record_of(
                    LogLevel::Error,
                    "Command execution timed out after "@,
                    duration_text(state.budget),
                ),
            ),
        },
    )
}

/// The output of a process that ended with `code` after `elapsed`: what was
/// captured, and the exit code or -1 where there is none.
pub open spec fn output_of(state: ExecutionView, code: Option<i32>, elapsed: Duration) -> CommandOutputView {
    CommandOutputView {
        stdout: state.stdout,
        stderr: state.stderr,
        exit_code: match code {
            Some(code) => code,
            None => -1i32,
        },
        execution_time: elapsed,
    }
}

/// The execution ends with the output of the process, and the time it took
/// is logged.
pub open spec fn succeeded(state: ExecutionView, code: Option<i32>, elapsed: Duration) -> (
    ExecutionView,
    StepView,
) {
    (
        finished(state),
        StepView {
            action: ActionView::Finish(Ok(output_of(state, code, elapsed))),
            log: Some(
                record_of(
                    LogLevel::Info,
                    "Command executed successfully in "@,
                    duration_text(elapsed),
                ),
            ),
        },
    )
}

/// After a stream has ended: wait for the process once both have, else go on
/// reading.
pub open spec fn after_close(state: ExecutionView) -> (ExecutionView, StepView) {
    if !state.stdout_open && !state.stderr_open {
        (ExecutionView { phase: Phase::Waiting, ..state }, quiet(ActionView::Wait))
    } else {
        (state, quiet(ActionView::Read))
    }
}

/// `text` with `line` and a line break added.
pub open spec fn with_line(text: Seq<char>, line: Seq<char>) -> Seq<char> {
    text + line + seq!['\n']
}

/// The state after `event` and what the caller is told. An event that has no
/// place in the phase changes nothing and is answered with `Ignored`.
pub open spec fn step_of(state: ExecutionView, event: EventView) -> (ExecutionView, StepView) {
    match event {
        EventView::TimedOut => if state.phase != Phase::Finished {
            timed_out(state)
        } else {
            (state, quiet(ActionView::Ignored))
        },
        EventView::Spawned => if state.phase == Phase::Spawning {
            (ExecutionView { phase: Phase::Draining, ..state }, quiet(ActionView::Read))
        } else {
            (state, quiet(ActionView::Ignored))
        },
        EventView::SpawnFailed(why) => if state.phase == Phase::Spawning {
            failed(state, CommandErrorView::ExecutionFailed(why))
        } else {
            (state, quiet(ActionView::Ignored))
        },
        EventView::StdoutLine(line) => if state.phase == Phase::Draining && state.stdout_open {
            (
                ExecutionView { stdout: with_line(state.stdout, line), ..state },
                StepView {
                    action: ActionView::Read,
                    log: Some(record_of(LogLevel::Info, "STDOUT: "@, line)),
                },
            )
        } else {
            (state, quiet(ActionView::Ignored))
        },
        EventView::StdoutClosed => if state.phase == Phase::Draining && state.stdout_open {
            after_close(ExecutionView { stdout_open: false, ..state })
        } else {
            (state, quiet(ActionView::Ignored))
        },
        EventView::StderrLine(line) => if state.phase == Phase::Draining && state.stderr_open {
            (
                ExecutionView { stderr: with_line(state.stderr, line), ..state },
                StepView {
                    action: ActionView::Read,
                    log: Some(record_of(LogLevel::Error, "STDERR: "@, line)),
                },
            )
        } else {
            (state, quiet(ActionView::Ignored))
        },
        EventView::StderrClosed => if state.phase == Phase::Draining && state.stderr_open {
            after_close(ExecutionView { stderr_open: false, ..state })
        } else {
            (state, quiet(ActionView::Ignored))
        },
        EventView::ReadFailed(why) => if state.phase == Phase::Draining {
            failed(state, CommandErrorView::IoError(why))
        } else {
            (state, quiet(ActionView::Ignored))
        },
        EventView::Exited { code, elapsed } => if state.phase == Phase::Waiting {
            succeeded(state, code, elapsed)
        } else {
            (state, quiet(ActionView::Ignored))
        },
        EventView::WaitFailed(why) => if state.phase == Phase::Waiting {
            failed(state, CommandErrorView::ExecutionFailed(why))
        } else {
            (state, quiet(ActionView::Ignored))
        },
    }
}

/// One execution of a command: what has been captured so far, and where the
/// execution stands.
pub struct Execution {
    phase: Phase,
    stdout: String,
    stderr: String,
    stdout_open: bool,
    stderr_open: bool,
    budget: Duration,
}

impl View for Execution {
    type V = ExecutionView;

    closed spec fn view(&self) -> ExecutionView {
        ExecutionView {
            phase: self.phase,
            stdout: self.stdout@,
            stderr: self.stderr@,
            stdout_open: self.stdout_open,
            stderr_open: self.stderr_open,
            budget: self.budget,
        }
    }
}

/// The step that ends an execution with `error`, whose `{:?}` text is
/// `description`.
pub fn failure_step(error: CommandError, description: &str) -> (step: Step)
    ensures
        step@ == (StepView {
            action: ActionView::Finish(Err(error@)),
            log: Some(record_of(LogLevel::Error, "Command execution failed: "@, description@)),
        }),
{
    Step {
        action: Action::Finish(Err(error)),
        log: Some(log_record(LogLevel::Error, "Command execution failed: ", description)),
    }
}

/// The step that ends an execution whose time ran out; `budget` is the
/// `{:?}` text of the time budget.
pub fn timeout_step(budget: &str) -> (step: Step)
    ensures
        step@ == (StepView {
            action: ActionView::Finish(Err(CommandErrorView::Timeout)),
            log: Some(record_of(LogLevel::Error, "Command execution timed out after "@, budget@)),
        }),
{
    Step {
        action: Action::Finish(Err(CommandError::Timeout)),
        log: Some(log_record(LogLevel::Error, "Command execution timed out after ", budget)),
    }
}

/// The step that ends an execution with `output`; `elapsed` is the `{:?}`
/// text of the time it took.
pub fn success_step(output: CommandOutput, elapsed: &str) -> (step: Step)
    ensures
        step@ == (StepView {
            action: ActionView::Finish(Ok(output@)),
            log: Some(record_of(LogLevel::Info, "Command executed successfully in "@, elapsed@)),
        }),
{
    Step {
        action: Action::Finish(Ok(output)),
        log: Some(log_record(LogLevel::Info, "Command executed successfully in ", elapsed)),
    }
}

impl Execution {
    /// Begins the execution of `command` on `platform` with the time budget
    /// `budget`. The step says which program to spawn.
    pub fn start(command: &str, platform: Platform, budget: Duration) -> (r: (Execution, Step))
        ensures
            r.0@ == initial(budget),
            r.1@ == first_step(platform, command@),
    {
        let execution = Execution {
            phase: Phase::Spawning,
            stdout: String::new(),
            stderr: String::new(),
            stdout_open: true,
            stderr_open: true,
            budget,
        };
        let step = Step {
            action: Action::Spawn(shell_invocation(platform, command)),
            log: Some(log_record(LogLevel::Info, "Executing command: ", command)),
        };
        (execution, step)
    }

    /// Where the execution stands.
    pub fn phase(&self) -> (phase: Phase)
        ensures
            phase == self@.phase,
    {
        self.phase
    }

    /// What standard output has given so far.
    pub fn stdout(&self) -> (text: &String)
        ensures
            text@ == self@.stdout,
    {
        &self.stdout
    }

    /// What standard error has given so far.
    pub fn stderr(&self) -> (text: &String)
        ensures
            text@ == self@.stderr,
    {
        &self.stderr
    }

    fn fail(&mut self, error: CommandError) -> (step: Step)
        ensures
            (final(self)@, step@) == failed(old(self)@, error@),
    {
        self.phase = Phase::Finished;
        let description = error.describe();
        failure_step(error, description.as_str())
    }

    fn close(&mut self) -> (step: Step)
        ensures
            (final(self)@, step@) == after_close(old(self)@),
    {
        if !self.stdout_open && !self.stderr_open {
            self.phase = Phase::Waiting;
            Step { action: Action::Wait, log: None }
        } else {
            Step { action: Action::Read, log: None }
        }
    }

    /// Takes in what happened and says what to do next.
    pub fn step(&mut self, event: Event) -> (step: Step)
        ensures
            (final(self)@, step@) == step_of(old(self)@, event@),
    {
        let ignored = Step { action: Action::Ignored, log: None };
        match event {
            Event::TimedOut => {
                if self.phase != Phase::Finished {
                    self.phase = Phase::Finished;
                    timeout_step(duration_debug(self.budget).as_str())
                } else {
                    ignored
                }
            },
            Event::Spawned => {
                if self.phase == Phase::Spawning {
                    self.phase = Phase::Draining;
                    Step { action: Action::Read, log: None }
                } else {
                    ignored
                }
            },
            Event::SpawnFailed(why) => {
                if self.phase == Phase::Spawning {
                    self.fail(CommandError::ExecutionFailed(why))
                } else {
                    ignored
                }
            },
            Event::StdoutLine(line) => {
                if self.phase == Phase::Draining && self.stdout_open {
                    self.stdout.append(line.as_str());
                    self.stdout.push('\n');
                    assert(self.stdout@ =~= with_line(old(self).stdout@, line@));
                    Step {
                        action: Action::Read,
                        log: Some(log_record(LogLevel::Info, "STDOUT: ", line.as_str())),
                    }
                } else {
                    ignored
                }
            },
            Event::StdoutClosed => {
                if self.phase == Phase::Draining && self.stdout_open {
                    self.stdout_open = false;
                    self.close()
                } else {
                    ignored
                }
            },
            Event::StderrLine(line) => {
                if self.phase == Phase::Draining && self.stderr_open {
                    self.stderr.append(line.as_str());
                    self.stderr.push('\n');
                    assert(self.stderr@ =~= with_line(old(self).stderr@, line@));
                    Step {
                        action: Action::Read,
                        log: Some(log_record(LogLevel::Error, "STDERR: ", line.as_str())),
                    }
                } else {
                    ignored
                }
            },
            Event::StderrClosed => {
                if self.phase == Phase::Draining && self.stderr_open {
                    self.stderr_open = false;
                    self.close()
                } else {
                    ignored
                }
            },
            Event::ReadFailed(why) => {
                if self.phase == Phase::Draining {
                    self.fail(CommandError::IoError(why))
                } else {
                    ignored
                }
            },
            Event::Exited { code, elapsed } => {
                if self.phase == Phase::Waiting {
                    self.phase = Phase::Finished;
                    let output = CommandOutput {
                        stdout: self.stdout.clone(),
                        stderr: self.stderr.clone(),
                        exit_code: match code {
                            Some(code) => code,
                            None => -1,
                        },
                        execution_time: elapsed,
                    };
                    success_step(output, duration_debug(elapsed).as_str())
                } else {
                    ignored
                }
            },
            Event::WaitFailed(why) => {
                if self.phase == Phase::Waiting {
                    self.fail(CommandError::ExecutionFailed(why))
                } else {
                    ignored
                }
            },
        }
    }
}

// ---------------------------------------------------------------------------
// Laws
// ---------------------------------------------------------------------------
/// The state after the events of `events` came one after the other.
pub open spec fn run(state: ExecutionView, events: Seq<EventView>) -> ExecutionView
    decreases events.len(),
{
    if events.len() == 0 {
        state
    } else {
        step_of(run(state, events.drop_last()), events.last()).0
    }
}

/// The lines of `lines`, each followed by a line break, in one text.
pub open spec fn lines_text(lines: Seq<Seq<char>>) -> Seq<char>
    decreases lines.len(),
{
    if lines.len() == 0 {
        Seq::empty()
    } else {
        with_line(lines_text(lines.drop_last()), lines.last())
    }
}

/// The lines that standard output gave among `events`, in their order.
pub open spec fn stdout_lines(events: Seq<EventView>) -> Seq<Seq<char>>
    decreases events.len(),
{
    if events.len() == 0 {
        Seq::empty()
    } else {
        match events.last() {
            EventView::StdoutLine(line) => stdout_lines(events.drop_last()).push(line),
            _ => stdout_lines(events.drop_last()),
        }
    }
}

/// The lines that standard error gave among `events`, in their order.
pub open spec fn stderr_lines(events: Seq<EventView>) -> Seq<Seq<char>>
    decreases events.len(),
{
    if events.len() == 0 {
        Seq::empty()
    } else {
        match events.last() {
            EventView::StderrLine(line) => stderr_lines(events.drop_last()).push(line),
            _ => stderr_lines(events.drop_last()),
        }
    }
}

/// Every event of `events` is a line of one of the two streams.
pub open spec fn only_lines(events: Seq<EventView>) -> bool {
    forall|i: int|
        0 <= i < events.len() ==> (#[trigger] events[i]) is StdoutLine || events[i] is StderrLine
}

/// What holds of every state that an execution can reach: before the process
/// runs nothing is captured, and the exit is awaited only when both streams
/// have ended.
pub open spec fn consistent(state: ExecutionView) -> bool {
    match state.phase {
        Phase::Spawning => state.stdout.len() == 0 && state.stderr.len() == 0 && state.stdout_open
            && state.stderr_open,
        Phase::Draining => state.stdout_open || state.stderr_open,
        Phase::Waiting => !state.stdout_open && !state.stderr_open,
        Phase::Finished => true,
    }
}

/// An execution that has not ended ends with `Timeout` when its time runs
/// out, whatever it has captured; the captured output is not in the result.
pub proof fn lemma_timeout_ends_any_phase(state: ExecutionView)
    requires
        state.phase != Phase::Finished,
    ensures
        step_of(state, EventView::TimedOut).0.phase == Phase::Finished,
        step_of(state, EventView::TimedOut).1.action == ActionView::Finish(
            Err(CommandErrorView::Timeout),
        ),
{
}

/// After the end nothing changes any more: every event is ignored.
pub proof fn lemma_finished_ignores(state: ExecutionView, event: EventView)
    requires
        state.phase == Phase::Finished,
    ensures
        step_of(state, event) == (state, quiet(ActionView::Ignored)),
{
}

/// The start is consistent, and every step keeps it so; the time budget
/// never changes.
pub proof fn lemma_step_keeps_consistent(state: ExecutionView, event: EventView)
    requires
        consistent(state),
    ensures
        consistent(step_of(state, event).0),
        step_of(state, event).0.budget == state.budget,
        forall|budget: Duration| consistent(#[trigger] initial(budget)),
{
}

/// Every state that an execution reaches from a consistent one is
/// consistent, whatever the events are and in whatever order they come.
pub proof fn lemma_run_keeps_consistent(state: ExecutionView, events: Seq<EventView>)
    requires
        consistent(state),
    ensures
        consistent(run(state, events)),
        run(state, events).budget == state.budget,
    decreases events.len(),
{
    if events.len() > 0 {
        lemma_run_keeps_consistent(state, events.drop_last());
        lemma_step_keeps_consistent(run(state, events.drop_last()), events.last());
    }
}

/// A result is handed out exactly when the execution ends: a step gives
/// `Finish` if and only if it takes the execution from another phase to
/// `Finished`.
pub proof fn lemma_finish_ends(state: ExecutionView, event: EventView)
    ensures
        step_of(state, event).1.action is Finish <==> state.phase != Phase::Finished && step_of(
            state,
            event,
        ).0.phase == Phase::Finished,
{
}

/// While the streams are read, each keeps what it had and gains its own
/// lines, each followed by a line break, in the order in which they came;
/// how the lines of the two streams were interleaved makes no difference.
pub proof fn lemma_lines_accumulate(state: ExecutionView, events: Seq<EventView>)
    requires
        state.phase == Phase::Draining,
        only_lines(events),
    ensures
        run(state, events) == (ExecutionView {
            stdout: if state.stdout_open {
                state.stdout + lines_text(stdout_lines(events))
            } else {
                state.stdout
            },
            stderr: if state.stderr_open {
                state.stderr + lines_text(stderr_lines(events))
            } else {
                state.stderr
            },
            ..state
        }),
    decreases events.len(),
{
    if events.len() == 0 {
        assert(state.stdout + lines_text(stdout_lines(events)) =~= state.stdout);
        assert(state.stderr + lines_text(stderr_lines(events)) =~= state.stderr);
    } else {
        let front = events.drop_last();
        assert forall|i: int| 0 <= i < front.len() implies (#[trigger] front[i]) is StdoutLine
            || front[i] is StderrLine by {
            assert(front[i] == events[i]);
        }
        lemma_lines_accumulate(state, front);
        let before = run(state, front);
        assert(events[events.len() - 1] is StdoutLine || events[events.len() - 1] is StderrLine);
        match events.last() {
            EventView::StdoutLine(line) => {
                let lines = stdout_lines(events);
                assert(lines.drop_last() =~= stdout_lines(front));
                assert(lines.last() == line);
                if state.stdout_open {
                    assert(with_line(state.stdout + lines_text(stdout_lines(front)), line)
                        =~= state.stdout + lines_text(lines));
                }
            },
            EventView::StderrLine(line) => {
                let lines = stderr_lines(events);
                assert(lines.drop_last() =~= stderr_lines(front));
                assert(lines.last() == line);
                if state.stderr_open {
                    assert(with_line(state.stderr + lines_text(stderr_lines(front)), line)
                        =~= state.stderr + lines_text(lines));
                }
            },
            _ => {},
        }
    }
}

/// A run to the end: the process starts, its streams give the lines of
/// `lines` in any interleaving and then end, and the process exits. The
/// result is the output with each stream's lines in order, the exit code (-1
/// where there is none) and the time that the exit reported.
pub proof fn lemma_complete_run(
    budget: Duration,
    lines: Seq<EventView>,
    code: Option<i32>,
    elapsed: Duration,
)
    requires
        only_lines(lines),
    ensures
        ({
            let spawned = step_of(initial(budget), EventView::Spawned).0;
            let drained = run(spawned, lines);
            let closed = step_of(
                step_of(drained, EventView::StdoutClosed).0,
                EventView::StderrClosed,
            ).0;
            step_of(closed, EventView::Exited { code, elapsed }).1.action == ActionView::Finish(
                Ok(
                    CommandOutputView {
                        stdout: lines_text(stdout_lines(lines)),
                        stderr: lines_text(stderr_lines(lines)),
                        exit_code: match code {
                            Some(code) => code,
                            None => -1i32,
                        },
                        execution_time: elapsed,
                    },
                ),
            )
        }),
{
    let spawned = step_of(initial(budget), EventView::Spawned).0;
    lemma_lines_accumulate(spawned, lines);
    assert(Seq::<char>::empty() + lines_text(stdout_lines(lines)) =~= lines_text(
        stdout_lines(lines),
    ));
    assert(Seq::<char>::empty() + lines_text(stderr_lines(lines)) =~= lines_text(
        stderr_lines(lines),
    ));
}

} // verus!
