//! The HTTP surface as decisions: what each request is answered with, and
//! when a command is run for it.

use vstd::prelude::*;
use vstd::utf8::{decode_utf8, valid_utf8};
use crate::auth::{
    check_credential, credential_check, decision_for, header_bytes, AuthDecision, AuthError,
};
use crate::command::{command_of, is_blank, parse_command, CommandLine, CommandLineView};
use crate::output::{output_text, selected_stream, utf8_lossy, ProcessOutput};

verus! {

/// Port the service listens on.
pub const DEFAULT_APP_PORT: u16 = 6769;

/// Address the service binds to: loopback only.
pub const BIND_ADDRESS: &'static str = "127.0.0.1";

/// Request header that carries the credential.
pub const TOKEN_HEADER: &'static str = "x-astra-token";

/// Answer of the liveness check.
pub const HEALTHY: &'static str = "AstraCore receiver script is healthy and running.";

/// Said to a caller without the right credential.
pub const UNAUTHORIZED: &'static str = "Unauthorized.";

/// Said to a caller whose command line is blank.
pub const BAD_REQUEST: &'static str = "Request body is incorrect.";

/// Said to a caller whose command could not be started.
pub const SPAWN_FAILED: &'static str = "Failed to execute command.";

/// Status of an answer that carries what was asked for.
pub const STATUS_OK: u16 = 200;

/// Status of an answer to a blank command line.
pub const STATUS_BAD_REQUEST: u16 = 400;

/// Status of an answer to a caller without the right credential.
pub const STATUS_UNAUTHORIZED: u16 = 401;

/// Status of an answer to a command that could not be started.
pub const STATUS_SERVER_ERROR: u16 = 500;

/// Body of an execution request.
#[derive(Clone, Debug, PartialEq, Eq)]
pub struct ExecCommand {
    /// The command line to run, as the caller wrote it.
    pub syntax: String,
}

/// An answer to a request: status code and plain-text body.
#[derive(Clone, Debug, PartialEq, Eq)]
pub struct Response {
    /// HTTP status code.
    pub status: u16,
    /// Body, sent as plain text.
    pub body: String,
}

/// What a `Response` holds.
pub ghost struct ResponseView {
    pub status: u16,
    pub body: Seq<char>,
}

impl View for Response {
    type V = ResponseView;

    open spec fn view(&self) -> ResponseView {
        ResponseView { status: self.status, body: self.body@ }
    }
}

/// What is done with an execution request once it has been looked at.
#[derive(Clone, Debug, PartialEq, Eq)]
pub enum ExecuteStep {
    /// Answer at once; nothing is run.
    Reply(Response),
    /// Run this command and answer with what it gives.
    Run(CommandLine),
}

/// What an `ExecuteStep` holds.
pub ghost enum ExecuteStepView {
    Reply(ResponseView),
    Run(CommandLineView),
}

impl View for ExecuteStep {
    type V = ExecuteStepView;

    open spec fn view(&self) -> ExecuteStepView {
        match self {
            ExecuteStep::Reply(response) => ExecuteStepView::Reply(response@),
            ExecuteStep::Run(command) => ExecuteStepView::Run(command@),
        }
    }
}

/// How an attempt to run a command ended.
#[derive(Clone, Debug, PartialEq, Eq)]
pub enum RunOutcome {
    /// The program was not found or could not be started.
    SpawnFailed,
    /// The program ran to its end.
    Completed(ProcessOutput),
}

/// What can go wrong with an execution request.
#[derive(Clone, Copy, Debug, PartialEq, Eq, Structural)]
pub enum RequestError {
    /// The credential header is absent, or does not read as plain text.
    MissingCredential,
    /// The credential header is not the stored token.
    InvalidCredential,
    /// The command line is blank.
    EmptyCommand,
    /// The program was not found or could not be started.
    ProcessSpawn,
}

/// The answer of the liveness check.
pub open spec fn healthy() -> ResponseView {
    ResponseView { status: STATUS_OK, body: HEALTHY@ }
}

/// The answer to a caller without the right credential.
pub open spec fn unauthorized() -> ResponseView {
    ResponseView { status: STATUS_UNAUTHORIZED, body: UNAUTHORIZED@ }
}

/// The answer to a blank command line.
pub open spec fn bad_request() -> ResponseView {
    ResponseView { status: STATUS_BAD_REQUEST, body: BAD_REQUEST@ }
}

/// The answer for a command that could not be started.
pub open spec fn spawn_failure() -> ResponseView {
    ResponseView { status: STATUS_SERVER_ERROR, body: SPAWN_FAILED@ }
}

/// The answer that carries `text`.
pub open spec fn success(text: Seq<char>) -> ResponseView {
    ResponseView { status: STATUS_OK, body: text }
}

/// The answer that each error is surfaced as. Nothing of the request goes
/// into it: the credential that was tried is not repeated.
pub open spec fn error_answer(error: RequestError) -> ResponseView {
    match error {
        RequestError::MissingCredential => unauthorized(),
        RequestError::InvalidCredential => unauthorized(),
        RequestError::EmptyCommand => bad_request(),
        RequestError::ProcessSpawn => spawn_failure(),
    }
}

/// What is found of an execution request. The credential is looked at first:
/// without the right one the request is refused whatever its body holds. A
/// blank command line is turned down; any other is taken apart to be run.
pub open spec fn request_check(
    token: Seq<char>,
    header: Option<Seq<u8>>,
    syntax: Seq<char>,
) -> Result<CommandLineView, RequestError> {
    match credential_check(token, header) {
        Err(AuthError::MissingCredential) => Err(RequestError::MissingCredential),
        Err(AuthError::InvalidCredential) => Err(RequestError::InvalidCredential),
        Ok(_) => if is_blank(syntax) {
            Err(RequestError::EmptyCommand)
        } else {
            Ok(command_of(syntax))
        },
    }
}

/// What a checked request holds.
pub open spec fn checked_view(checked: Result<CommandLine, RequestError>) -> Result<
    CommandLineView,
    RequestError,
> {
    match checked {
        Ok(line) => Ok(line@),
        Err(error) => Err(error),
    }
}

/// The step owed to an execution request: run the command of a request that
/// passes, answer any other with its error.
pub open spec fn step_for(
    token: Seq<char>,
    header: Option<Seq<u8>>,
    syntax: Seq<char>,
) -> ExecuteStepView {
    match request_check(token, header, syntax) {
        Ok(command) => ExecuteStepView::Run(command),
        Err(error) => ExecuteStepView::Reply(error_answer(error)),
    }
}

/// The credential goes first. A caller without the right one is refused
/// whatever the command line holds, blank or not; a caller with the right one
/// who sends a blank command line gets a bad request, and nothing is run.
pub proof fn lemma_credential_goes_first(
    token: Seq<char>,
    header: Option<Seq<u8>>,
    syntax: Seq<char>,
)
    ensures
        decision_for(token, header) == AuthDecision::Denied ==> step_for(token, header, syntax)
            == ExecuteStepView::Reply(unauthorized()),
        decision_for(token, header) == AuthDecision::Authorized && is_blank(syntax) ==> step_for(
            token,
            header,
            syntax,
        ) == ExecuteStepView::Reply(bad_request()),
        decision_for(token, header) == AuthDecision::Authorized && !is_blank(syntax) ==> step_for(
            token,
            header,
            syntax,
        ) == ExecuteStepView::Run(command_of(syntax)),
{
}

/// Answers the liveness check. No credential is asked for.
pub fn hello() -> (response: Response)
    ensures
        response@ == healthy(),
{
    Response { status: STATUS_OK, body: HEALTHY.to_owned() }
}

/// The answer that an error is surfaced as: a status and a short message.
pub fn error_response(error: RequestError) -> (response: Response)
    ensures
        response@ == error_answer(error),
{
    match error {
        RequestError::MissingCredential => Response {
            status: STATUS_UNAUTHORIZED,
            body: UNAUTHORIZED.to_owned(),
        },
        RequestError::InvalidCredential => Response {
            status: STATUS_UNAUTHORIZED,
            body: UNAUTHORIZED.to_owned(),
        },
        RequestError::EmptyCommand => Response {
            status: STATUS_BAD_REQUEST,
            body: BAD_REQUEST.to_owned(),
        },
        RequestError::ProcessSpawn => Response {
            status: STATUS_SERVER_ERROR,
            body: SPAWN_FAILED.to_owned(),
        },
    }
}

/// Looks at an execution request: first at the credential, then at the
/// command line. A request that passes gives the command to run.
pub fn check_request(
    token: &str,
    header: Option<&[u8]>,
    command: &ExecCommand,
) -> (checked: Result<CommandLine, RequestError>)
    ensures
        checked_view(checked) == request_check(token@, header_bytes(header), command.syntax@),
{
    match check_credential(token, header) {
        Err(AuthError::MissingCredential) => Err(RequestError::MissingCredential),
        Err(AuthError::InvalidCredential) => Err(RequestError::InvalidCredential),
        Ok(_) => match parse_command(command.syntax.as_str()) {
            Err(_) => Err(RequestError::EmptyCommand),
            Ok(line) => Ok(line),
        },
    }
}

/// Looks at an execution request and says what to do with it.
pub fn begin_execute(
    token: &str,
    header: Option<&[u8]>,
    command: &ExecCommand,
) -> (step: ExecuteStep)
    ensures
        step@ == step_for(token@, header_bytes(header), command.syntax@),
{
    match check_request(token, header, command) {
        Ok(line) => ExecuteStep::Run(line),
        Err(error) => ExecuteStep::Reply(error_response(error)),
    }
}

/// Wraps the text drawn from a command that ran into the answer.
pub fn text_response(text: String) -> (response: Response)
    ensures
        response@ == success(text@),
{
    Response { status: STATUS_OK, body: text }
}

/// Answers an execution request whose command has been tried. A command that
/// ran is answered with its standard output if it succeeded and with its
/// standard error if it failed, in both cases as a success of the request.
/// A command that could not be started is a server error.
pub fn finish_execute(outcome: &RunOutcome) -> (response: Response)
    ensures
        outcome is SpawnFailed ==> response@ == error_answer(RequestError::ProcessSpawn),
        outcome matches RunOutcome::Completed(output) ==> {
            &&& response@ == success(utf8_lossy(selected_stream(*output)))
            &&& output.success ==> response.body@ == utf8_lossy(output.stdout@)
            &&& !output.success ==> response.body@ == utf8_lossy(output.stderr@)
            &&& valid_utf8(selected_stream(*output)) ==> response.body@ == decode_utf8(
                selected_stream(*output),
            )
        },
{
    match outcome {
        RunOutcome::SpawnFailed => error_response(RequestError::ProcessSpawn),
        RunOutcome::Completed(output) => text_response(output_text(output)),
    }
}

} // verus!
