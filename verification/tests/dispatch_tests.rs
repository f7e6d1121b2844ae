use runrust::config::build_config;
use runrust::dispatch::{
    execution_failed, respond, run_command, run_custom_command, Dispatch, Reply, Status,
    COMMAND_TIMEOUT_SECS,
};
use runrust::{CommandError, CommandOutput};
use std::time::Duration;

fn pairs(items: &[(&str, &str)]) -> Vec<(String, String)> {
    items.iter().map(|(k, v)| (k.to_string(), v.to_string())).collect()
}

fn output(stdout: &str, stderr: &str, exit_code: i32) -> Result<CommandOutput, CommandError> {
    Ok(CommandOutput {
        stdout: stdout.to_string(),
        stderr: stderr.to_string(),
        exit_code,
        execution_time: Duration::from_millis(5),
    })
}

fn reply_of(dispatch: Dispatch) -> Reply {
    match dispatch {
        Dispatch::Reply(reply) => reply,
        other => panic!("not a reply: {:?}", other),
    }
}

#[test]
fn exit_zero_gives_the_trimmed_output() {
    let reply = respond(&output("ok\n", "", 0));
    assert_eq!(reply.status, Status::Success);
    assert_eq!(reply.status.code(), 200);
    assert!(reply.body.success);
    assert_eq!(reply.body.message, "ok");
    assert_eq!(reply.body.details, None);
}

#[test]
fn other_exit_code_gives_code_and_trimmed_error_output() {
    let reply = respond(&output("", "boom\n", 2));
    assert_eq!(reply.status, Status::InternalServerError);
    assert_eq!(reply.status.code(), 500);
    assert!(!reply.body.success);
    assert_eq!(reply.body.message, "Command failed");
    assert_eq!(reply.body.details.as_deref(), Some("Exit code: 2, Error: boom"));
}

#[test]
fn negative_exit_code_is_written_with_its_sign() {
    let reply = respond(&output("ignored", "  killed \n", -1));
    assert_eq!(reply.body.details.as_deref(), Some("Exit code: -1, Error: killed"));
    let reply = respond(&output("", "", i32::MIN));
    assert_eq!(reply.body.details.as_deref(), Some("Exit code: -2147483648, Error: "));
}

#[test]
fn timeout_is_named_in_the_details() {
    let reply = respond(&Err(CommandError::Timeout));
    assert_eq!(reply.status, Status::InternalServerError);
    assert!(!reply.body.success);
    assert_eq!(reply.body.message, "Command execution failed");
    assert_eq!(reply.body.details.as_deref(), Some("Timeout"));
}

#[test]
fn engine_failures_are_described_in_the_details() {
    let reply = respond(&Err(CommandError::ExecutionFailed("no \"sh\"".to_string())));
    assert_eq!(reply.status.code(), 500);
    assert_eq!(reply.body.message, "Command execution failed");
    assert_eq!(reply.body.details.as_deref(), Some("ExecutionFailed(\"no \\\"sh\\\"\")"));
    let reply = respond(&Err(CommandError::IoError("bad utf-8".to_string())));
    assert_eq!(reply.body.details.as_deref(), Some("IoError(\"bad utf-8\")"));
}

#[test]
fn failure_reply_from_a_given_description() {
    let reply = execution_failed("Timeout".to_string());
    assert_eq!(reply.status, Status::InternalServerError);
    assert!(!reply.body.success);
    assert_eq!(reply.body.message, "Command execution failed");
    assert_eq!(reply.body.details.as_deref(), Some("Timeout"));
}

#[test]
fn custom_request_without_text_is_a_bad_request() {
    let reply = reply_of(run_custom_command(None));
    assert_eq!(reply.status, Status::BadRequest);
    assert_eq!(reply.status.code(), 400);
    assert!(!reply.body.success);
    assert_eq!(reply.body.message, "Missing 'custom' parameter");
    assert_eq!(reply.body.details, None);
}

#[test]
fn custom_request_runs_the_text_as_it_is() {
    match run_custom_command(Some("echo {{.root}} 'x' | wc")) {
        Dispatch::Execute { command, timeout_secs } => {
            assert_eq!(command, "echo {{.root}} 'x' | wc");
            assert_eq!(timeout_secs, 30);
        }
        other => panic!("unexpected: {:?}", other),
    }
    match run_custom_command(Some("")) {
        Dispatch::Execute { command, .. } => assert_eq!(command, ""),
        other => panic!("unexpected: {:?}", other),
    }
}

#[test]
fn registered_value_runs_its_substituted_command() {
    let config = build_config(
        Some(Vec::new()),
        Some(pairs(&[("root", "/srv")])),
        Some(pairs(&[
            ("ListName", "List"),
            ("ListValue", "list"),
            ("ListCommand", "ls {{.root}}/data"),
            ("ListDescription", "d"),
            ("UpName", "Uptime"),
            ("UpValue", "up"),
            ("UpCommand", "uptime"),
            ("UpDescription", "d"),
        ])),
    )
    .unwrap();
    match run_command(&config, "list") {
        Dispatch::Execute { command, timeout_secs } => {
            assert_eq!(command, "ls /srv/data");
            assert_eq!(timeout_secs, COMMAND_TIMEOUT_SECS);
        }
        other => panic!("unexpected: {:?}", other),
    }
    match run_command(&config, "up") {
        Dispatch::Execute { command, .. } => assert_eq!(command, "uptime"),
        other => panic!("unexpected: {:?}", other),
    }
}

#[test]
fn unknown_value_is_not_found() {
    let config = build_config(Some(Vec::new()), Some(Vec::new()), Some(Vec::new())).unwrap();
    let reply = reply_of(run_command(&config, "nope"));
    assert_eq!(reply.status, Status::NotFound);
    assert_eq!(reply.status.code(), 404);
    assert!(!reply.body.success);
    assert_eq!(reply.body.message, "Command not found");
    assert_eq!(reply.body.details.as_deref(), Some("Command with value 'nope' not found"));
}

#[test]
fn time_budget_is_thirty_seconds() {
    assert_eq!(COMMAND_TIMEOUT_SECS, 30);
}
