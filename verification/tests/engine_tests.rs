use runrust::engine::{
    failure_step, shell_invocation, success_step, timeout_step, variant_with_field, Action, Event,
    Execution, Phase, Platform, Step,
};
use runrust::logging::{log_record, LogLevel};
use runrust::{CommandError, CommandOutput};
use std::time::Duration;

fn budget() -> Duration {
    Duration::from_secs(30)
}

fn started() -> Execution {
    Execution::start("echo ok", Platform::Unix, budget()).0
}

fn draining() -> Execution {
    let mut execution = started();
    execution.step(Event::Spawned);
    execution
}

fn waiting() -> Execution {
    let mut execution = draining();
    execution.step(Event::StdoutClosed);
    execution.step(Event::StderrClosed);
    execution
}

fn log_of(step: &Step) -> (LogLevel, String) {
    let record = step.log.as_ref().expect("a log record");
    (record.level, record.text.clone())
}

fn finished_with(step: Step) -> Result<CommandOutput, CommandError> {
    match step.action {
        Action::Finish(result) => result,
        other => panic!("not finished: {:?}", other),
    }
}

#[test]
fn unix_shell_gets_the_command_as_one_argument() {
    let invocation = shell_invocation(Platform::Unix, "ls -l | wc");
    assert_eq!(invocation.program, "/bin/sh");
    assert_eq!(invocation.args, vec!["-c".to_string(), "ls -l | wc".to_string()]);
}

#[test]
fn android_and_windows_shells() {
    let invocation = shell_invocation(Platform::Android, "id");
    assert_eq!(invocation.program, "/system/bin/sh");
    assert_eq!(invocation.args, vec!["-c".to_string(), "id".to_string()]);
    let invocation = shell_invocation(Platform::Windows, "dir");
    assert_eq!(invocation.program, "cmd");
    assert_eq!(invocation.args, vec!["/C".to_string(), "dir".to_string()]);
}

#[test]
fn start_asks_for_the_spawn_and_logs_the_command() {
    let (execution, step) = Execution::start("echo ok", Platform::Unix, budget());
    assert_eq!(execution.phase(), Phase::Spawning);
    assert_eq!(execution.stdout(), "");
    assert_eq!(execution.stderr(), "");
    assert_eq!(log_of(&step), (LogLevel::Info, "Executing command: echo ok".to_string()));
    match step.action {
        Action::Spawn(invocation) => {
            assert_eq!(invocation.program, "/bin/sh");
            assert_eq!(invocation.args, vec!["-c".to_string(), "echo ok".to_string()]);
        }
        other => panic!("unexpected action: {:?}", other),
    }
}

#[test]
fn run_to_the_end_gives_the_output() {
    let mut execution = started();
    let step = execution.step(Event::Spawned);
    assert!(matches!(step.action, Action::Read));
    assert!(step.log.is_none());
    assert_eq!(execution.phase(), Phase::Draining);

    let step = execution.step(Event::StdoutLine("ok".to_string()));
    assert!(matches!(step.action, Action::Read));
    assert_eq!(log_of(&step), (LogLevel::Info, "STDOUT: ok".to_string()));

    let step = execution.step(Event::StderrLine("warn".to_string()));
    assert!(matches!(step.action, Action::Read));
    assert_eq!(log_of(&step), (LogLevel::Error, "STDERR: warn".to_string()));

    let step = execution.step(Event::StdoutClosed);
    assert!(matches!(step.action, Action::Read));
    assert_eq!(execution.phase(), Phase::Draining);
    let step = execution.step(Event::StderrClosed);
    assert!(matches!(step.action, Action::Wait));
    assert_eq!(execution.phase(), Phase::Waiting);

    let step =
        execution.step(Event::Exited { code: Some(0), elapsed: Duration::from_millis(1500) });
    assert_eq!(execution.phase(), Phase::Finished);
    assert_eq!(
        log_of(&step),
        (LogLevel::Info, "Command executed successfully in 1.5s".to_string())
    );
    let output = finished_with(step).unwrap();
    assert_eq!(output.stdout, "ok\n");
    assert_eq!(output.stderr, "warn\n");
    assert_eq!(output.exit_code, 0);
    assert_eq!(output.execution_time, Duration::from_millis(1500));
}

#[test]
fn lines_of_the_two_streams_may_interleave() {
    let mut execution = draining();
    execution.step(Event::StderrLine("e1".to_string()));
    execution.step(Event::StdoutLine("o1".to_string()));
    execution.step(Event::StdoutLine("".to_string()));
    execution.step(Event::StderrLine("e2".to_string()));
    execution.step(Event::StdoutLine("o3".to_string()));
    assert_eq!(execution.stdout(), "o1\n\no3\n");
    assert_eq!(execution.stderr(), "e1\ne2\n");
    execution.step(Event::StderrClosed);
    execution.step(Event::StdoutLine("o4".to_string()));
    assert!(matches!(execution.step(Event::StdoutClosed).action, Action::Wait));
    let output = finished_with(
        execution.step(Event::Exited { code: Some(2), elapsed: Duration::from_secs(1) }),
    )
    .unwrap();
    assert_eq!(output.stdout, "o1\n\no3\no4\n");
    assert_eq!(output.stderr, "e1\ne2\n");
    assert_eq!(output.exit_code, 2);
}

#[test]
fn missing_exit_code_becomes_minus_one() {
    let mut execution = waiting();
    let output = finished_with(
        execution.step(Event::Exited { code: None, elapsed: Duration::from_secs(1) }),
    )
    .unwrap();
    assert_eq!(output.exit_code, -1);
}

#[test]
fn timeout_ends_every_phase_and_drops_the_output() {
    for mut execution in [started(), draining(), waiting()] {
        let step = execution.step(Event::TimedOut);
        assert_eq!(
            log_of(&step),
            (LogLevel::Error, "Command execution timed out after 30s".to_string())
        );
        assert!(matches!(finished_with(step), Err(CommandError::Timeout)));
        assert_eq!(execution.phase(), Phase::Finished);
    }
    let mut execution = draining();
    execution.step(Event::StdoutLine("partial".to_string()));
    assert!(matches!(
        finished_with(execution.step(Event::TimedOut)),
        Err(CommandError::Timeout)
    ));
}

#[test]
fn spawn_failure_is_an_execution_failure() {
    let mut execution = started();
    let step = execution.step(Event::SpawnFailed("No such file (os error 2)".to_string()));
    assert_eq!(
        log_of(&step),
        (
            LogLevel::Error,
            "Command execution failed: ExecutionFailed(\"No such file (os error 2)\")".to_string()
        )
    );
    match finished_with(step) {
        Err(CommandError::ExecutionFailed(why)) => assert_eq!(why, "No such file (os error 2)"),
        other => panic!("unexpected: {:?}", other),
    }
    assert_eq!(execution.phase(), Phase::Finished);
}

#[test]
fn wait_failure_is_an_execution_failure() {
    let mut execution = waiting();
    match finished_with(execution.step(Event::WaitFailed("gone".to_string()))) {
        Err(CommandError::ExecutionFailed(why)) => assert_eq!(why, "gone"),
        other => panic!("unexpected: {:?}", other),
    }
}

#[test]
fn read_failure_is_an_io_error() {
    let mut execution = draining();
    execution.step(Event::StdoutLine("before".to_string()));
    let step = execution.step(Event::ReadFailed("stream did not contain valid UTF-8".to_string()));
    assert_eq!(
        log_of(&step),
        (
            LogLevel::Error,
            "Command execution failed: IoError(\"stream did not contain valid UTF-8\")"
                .to_string()
        )
    );
    match finished_with(step) {
        Err(CommandError::IoError(why)) => assert_eq!(why, "stream did not contain valid UTF-8"),
        other => panic!("unexpected: {:?}", other),
    }
}

#[test]
fn events_out_of_place_change_nothing() {
    let mut execution = started();
    for event in [
        Event::StdoutLine("x".to_string()),
        Event::StderrLine("x".to_string()),
        Event::StdoutClosed,
        Event::StderrClosed,
        Event::ReadFailed("x".to_string()),
        Event::Exited { code: Some(0), elapsed: Duration::from_secs(1) },
        Event::WaitFailed("x".to_string()),
    ] {
        let step = execution.step(event);
        assert!(matches!(step.action, Action::Ignored));
        assert!(step.log.is_none());
        assert_eq!(execution.phase(), Phase::Spawning);
        assert_eq!(execution.stdout(), "");
    }
    let mut execution = draining();
    execution.step(Event::StdoutClosed);
    assert!(matches!(execution.step(Event::StdoutLine("late".to_string())).action, Action::Ignored));
    assert!(matches!(execution.step(Event::StdoutClosed).action, Action::Ignored));
    assert!(matches!(execution.step(Event::Spawned).action, Action::Ignored));
    assert_eq!(execution.stdout(), "");
    assert_eq!(execution.phase(), Phase::Draining);
}

#[test]
fn nothing_happens_after_the_end() {
    let mut execution = waiting();
    execution.step(Event::Exited { code: Some(0), elapsed: Duration::from_secs(1) });
    for event in [
        Event::TimedOut,
        Event::Spawned,
        Event::SpawnFailed("x".to_string()),
        Event::StdoutLine("x".to_string()),
        Event::Exited { code: Some(1), elapsed: Duration::from_secs(2) },
    ] {
        let step = execution.step(event);
        assert!(matches!(step.action, Action::Ignored));
        assert!(step.log.is_none());
        assert_eq!(execution.phase(), Phase::Finished);
    }
}

#[test]
fn descriptions_are_what_debug_formatting_writes() {
    let errors = [
        CommandError::Timeout,
        CommandError::ExecutionFailed("plain".to_string()),
        CommandError::ExecutionFailed("with \"quotes\" and \\ and\nnewline\ttab".to_string()),
        CommandError::IoError("ünïcödé \u{7f} \u{301}".to_string()),
        CommandError::IoError(String::new()),
    ];
    for error in errors {
        assert_eq!(error.describe(), format!("{:?}", error));
    }
    assert_eq!(CommandError::Timeout.describe(), "Timeout");
    assert_eq!(
        CommandError::ExecutionFailed("a\"b".to_string()).describe(),
        "ExecutionFailed(\"a\\\"b\")"
    );
}

#[test]
fn messages_of_the_three_errors() {
    assert_eq!(CommandError::Timeout.message(), "Command execution timed out");
    assert_eq!(
        CommandError::ExecutionFailed("no shell".to_string()).message(),
        "Command execution failed: no shell"
    );
    assert_eq!(CommandError::IoError("broken pipe".to_string()).message(), "IO error: broken pipe");
}

#[test]
fn steps_from_given_texts() {
    let step = failure_step(CommandError::Timeout, "Timeout");
    assert_eq!(log_of(&step), (LogLevel::Error, "Command execution failed: Timeout".to_string()));
    assert!(matches!(finished_with(step), Err(CommandError::Timeout)));

    let step = timeout_step("30s");
    assert_eq!(
        log_of(&step),
        (LogLevel::Error, "Command execution timed out after 30s".to_string())
    );
    assert!(matches!(finished_with(step), Err(CommandError::Timeout)));

    let output = CommandOutput {
        stdout: "ok\n".to_string(),
        stderr: String::new(),
        exit_code: 0,
        execution_time: Duration::from_millis(20),
    };
    let step = success_step(output, "20ms");
    assert_eq!(
        log_of(&step),
        (LogLevel::Info, "Command executed successfully in 20ms".to_string())
    );
    assert_eq!(finished_with(step).unwrap().stdout, "ok\n");
}

#[test]
fn small_text_builders() {
    assert_eq!(variant_with_field("IoError", "\"x\""), "IoError(\"x\")");
    let record = log_record(LogLevel::Info, "STDOUT: ", "line");
    assert_eq!(record.level, LogLevel::Info);
    assert_eq!(record.text, "STDOUT: line");
}
