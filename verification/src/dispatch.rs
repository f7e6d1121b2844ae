//! The dispatch layer: from a request to the command to run, and from the
//! outcome of the run to the reply.

use vstd::prelude::*;
use vstd::string::*;
use crate::config::{find_by_value, lemma_lookup_finds_registered, Config, Registry};
use crate::engine::{CommandError, CommandErrorView, CommandOutput, CommandOutputView};
use crate::table::result_view;
use crate::text::{decimal, decimal_string, trim, trimmed};

verus! {

/// The time that a command gets, in seconds.
pub const COMMAND_TIMEOUT_SECS: u64 = 30;

// ---------------------------------------------------------------------------
// Replies
// ---------------------------------------------------------------------------
/// The status of a reply.
#[derive(Clone, Copy, Debug, PartialEq, Eq, Structural)]
pub enum Status {
    Success,
    BadRequest,
    NotFound,
    InternalServerError,
}

/// The HTTP code of a status.
pub open spec fn status_code(status: Status) -> u16 {
    match status {
        Status::Success => 200,
        Status::BadRequest => 400,
        Status::NotFound => 404,
        Status::InternalServerError => 500,
    }
}

impl Status {
    /// The HTTP code: 200, 400, 404 or 500.
    pub fn code(self) -> (code: u16)
        ensures
            code == status_code(self),
    {
        match self {
            Status::Success => 200,
            Status::BadRequest => 400,
            Status::NotFound => 404,
            Status::InternalServerError => 500,
        }
    }
}

/// The body of a reply.
#[derive(Debug)]
pub struct Response {
    /// Whether the command ran and exited with 0.
    pub success: bool,
    /// The output of the command, or what went wrong in a few words.
    pub message: String,
    /// More about a failure.
    pub details: Option<String>,
}

/// The model of a `Response`.
pub struct ResponseView {
    pub success: bool,
    pub message: Seq<char>,
    pub details: Option<Seq<char>>,
}

impl View for Response {
    type V = ResponseView;

    open spec fn view(&self) -> ResponseView {
        ResponseView {
            success: self.success,
            message: self.message@,
            details: match self.details {
                Some(text) => Some(text@),
                None => None,
            },
        }
    }
}

/// A reply: its status and its body.
#[derive(Debug)]
pub struct Reply {
    pub status: Status,
    pub body: Response,
}

/// The model of a `Reply`.
pub struct ReplyView {
    pub status: Status,
    pub body: ResponseView,
}

impl View for Reply {
    type V = ReplyView;

    open spec fn view(&self) -> ReplyView {
        ReplyView { status: self.status, body: self.body@ }
    }
}

/// What to do about a request.
#[derive(Debug)]
pub enum Dispatch {
    /// Run this shell command with this time budget, then reply with what
    /// `respond` makes of the outcome.
    Execute { command: String, timeout_secs: u64 },
    /// Reply at once.
    Reply(Reply),
}

/// The model of a `Dispatch`.
pub enum DispatchView {
    Execute { command: Seq<char>, timeout_secs: u64 },
    Reply(ReplyView),
}

impl View for Dispatch {
    type V = DispatchView;

    open spec fn view(&self) -> DispatchView {
        match self {
            Dispatch::Execute { command, timeout_secs } => DispatchView::Execute {
                command: command@,
                timeout_secs: *timeout_secs,
            },
            Dispatch::Reply(reply) => DispatchView::Reply(reply@),
        }
    }
}

// ---------------------------------------------------------------------------
// What the replies are
// ---------------------------------------------------------------------------
/// The reply to a request for a value that no command has.
pub open spec fn not_found_reply(value: Seq<char>) -> ReplyView {
    ReplyView {
        status: Status::NotFound,
        body: ResponseView {
            success: false,
            message: "Command not found"@,
            details: Some("Command with value '"@ + value + "' not found"@),
        },
    }
}

/// The reply to a custom request without command text.
pub open spec fn missing_parameter_reply() -> ReplyView {
    ReplyView {
        status: Status::BadRequest,
        body: ResponseView {
            success: false,
            message: "Missing 'custom' parameter"@,
            details: None,
        },
    }
}

/// The reply for a command that exited with 0: its trimmed output.
pub open spec fn success_reply(stdout: Seq<char>) -> ReplyView {
    ReplyView {
        status: Status::Success,
        body: ResponseView { success: true, message: trim(stdout), details: None },
    }
}

/// The reply for a command that exited with another code: the code and the
/// trimmed error output.
pub open spec fn command_failed_reply(exit_code: i32, stderr: Seq<char>) -> ReplyView {
    ReplyView {
        status: Status::InternalServerError,
        body: ResponseView {
            success: false,
            message: "Command failed"@,
            details: Some(
                "Exit code: "@ + decimal(exit_code as int) + ", Error: "@ + trim(stderr),
            ),
        },
    }
}

/// The reply for a command that gave no output at all; `description` says
/// why.
pub open spec fn execution_failed_reply(description: Seq<char>) -> ReplyView {
    ReplyView {
        status: Status::InternalServerError,
        body: ResponseView {
            success: false,
            message: "Command execution failed"@,
            details: Some(description),
        },
    }
}

/// The reply for the outcome of a run.
pub open spec fn reply_of(outcome: Result<CommandOutputView, CommandErrorView>) -> ReplyView {
    match outcome {
        Ok(output) => if output.exit_code == 0 {
            success_reply(output.stdout)
        } else {
            command_failed_reply(output.exit_code, output.stderr)
        },
        Err(error) => execution_failed_reply(error.describe()),
    }
}

/// What a request for the command with the public value `value` leads to:
/// the run of that command's shell command, or the reply that there is none.
pub open spec fn dispatch_by_value(registry: Registry, value: Seq<char>) -> DispatchView {
    match find_by_value(registry, value) {
        Some(command) => DispatchView::Execute {
            command: command.command,
            timeout_secs: COMMAND_TIMEOUT_SECS,
        },
        None => DispatchView::Reply(not_found_reply(value)),
    }
}

/// What a custom request leads to: the run of the text as it is, or the
/// reply that it is missing.
pub open spec fn dispatch_custom(custom: Option<Seq<char>>) -> DispatchView {
    match custom {
        Some(command) => DispatchView::Execute { command, timeout_secs: COMMAND_TIMEOUT_SECS },
        None => DispatchView::Reply(missing_parameter_reply()),
    }
}

// ---------------------------------------------------------------------------
// Dispatching
// ---------------------------------------------------------------------------
/// Resolves a request for the registered command with the public value
/// `command_value`.
pub fn run_command(config: &Config, command_value: &str) -> (dispatch: Dispatch)
    ensures
        dispatch@ == dispatch_by_value(config.commands@, command_value@),
{
    match config.get_command_by_value(command_value) {
        Some(command) => Dispatch::Execute {
            command: command.command.clone(),
            timeout_secs: COMMAND_TIMEOUT_SECS,
        },
        None => {
            let mut details = "Command with value '".to_owned();
            details.append(command_value);
            details.append("' not found");
            Dispatch::Reply(
                Reply {
                    status: Status::NotFound,
                    body: Response {
                        success: false,
                        message: "Command not found".to_owned(),
                        details: Some(details),
                    },
                },
            )
        },
    }
}

/// Resolves a request to run the text `custom` as it is.
pub fn run_custom_command(custom: Option<&str>) -> (dispatch: Dispatch)
    ensures
        dispatch@ == dispatch_custom(
            match custom {
                Some(text) => Some(text@),
                None => None,
            },
        ),
{
    match custom {
        Some(command) => Dispatch::Execute {
            command: command.to_owned(),
            timeout_secs: COMMAND_TIMEOUT_SECS,
        },
        None => Dispatch::Reply(
            Reply {
                status: Status::BadRequest,
                body: Response {
                    success: false,
                    message: "Missing 'custom' parameter".to_owned(),
                    details: None,
                },
            },
        ),
    }
}

/// The reply for a command that gave no output at all; `description` says
/// why.
pub fn execution_failed(description: String) -> (reply: Reply)
    ensures
        reply@ == execution_failed_reply(description@),
{
    Reply {
        status: Status::InternalServerError,
        body: Response {
            success: false,
            message: "Command execution failed".to_owned(),
            details: Some(description),
        },
    }
}

/// The reply for the outcome of a run.
pub fn respond(outcome: &Result<CommandOutput, CommandError>) -> (reply: Reply)
    ensures
        reply@ == reply_of(result_view(*outcome)),
{
    match outcome {
        Ok(output) => {
            if output.exit_code == 0 {
                Reply {
                    status: Status::Success,
                    body: Response {
                        success: true,
                        message: trimmed(output.stdout.as_str()),
                        details: None,
                    },
                }
            } else {
                let mut details = "Exit code: ".to_owned();
                details.append(decimal_string(output.exit_code).as_str());
                details.append(", Error: ");
                details.append(trimmed(output.stderr.as_str()).as_str());
                Reply {
                    status: Status::InternalServerError,
                    body: Response {
                        success: false,
                        message: "Command failed".to_owned(),
                        details: Some(details),
                    },
                }
            }
        },
        Err(error) => execution_failed(error.describe()),
    }
}

// ---------------------------------------------------------------------------
// Laws
// ---------------------------------------------------------------------------
/// A request for the public value of a registered command leads to the run of
/// exactly that command's shell command, provided that no command before it
/// in the registry has the same value.
pub proof fn lemma_registered_value_runs_its_command(registry: Registry, i: int)
    requires
        0 <= i < registry.len(),
        forall|j: int| 0 <= j < i ==> (#[trigger] registry[j]).1.value != registry[i].1.value,
    ensures
        dispatch_by_value(registry, registry[i].1.value) == (DispatchView::Execute {
            command: registry[i].1.command,
            timeout_secs: COMMAND_TIMEOUT_SECS,
        }),
{
    lemma_lookup_finds_registered(registry, i);
}

/// A reply says `success` exactly for a run that exited with 0, and then it
/// has status 200 and no details; every other reply to a run has status 500
/// and details.
pub proof fn lemma_success_means_exit_zero(outcome: Result<CommandOutputView, CommandErrorView>)
    ensures
        reply_of(outcome).body.success <==> (outcome matches Ok(output) && output.exit_code == 0),
        reply_of(outcome).body.success ==> reply_of(outcome).status == Status::Success && reply_of(
            outcome,
        ).body.details is None,
        !reply_of(outcome).body.success ==> reply_of(outcome).status
            == Status::InternalServerError && reply_of(outcome).body.details is Some,
{
}

/// A run whose time ran out is answered with the failure reply whose details
/// are `Timeout`.
pub proof fn lemma_timeout_reply()
    ensures
        reply_of(Err(CommandErrorView::Timeout)) == execution_failed_reply("Timeout"@),
{
}

} // verus!
