use vstd::prelude::*;

use crate::config::{Config, ConfigView};
use crate::path::resolve;

verus! {

/// An inbound request: the client to log for and the message to log.
pub struct LogRequest {
    pub client_id: String,
    pub message: String,
}

impl LogRequest {
    pub fn new(client_id: String, message: String) -> (r: LogRequest)
        ensures
            r.client_id@ == client_id@,
            r.message@ == message@,
    {
        LogRequest { client_id, message }
    }
}

/// The configuration could not be read or did not have the expected shape.
#[derive(Debug, Clone, Copy, PartialEq, Eq)]
pub struct ConfigError;

/// Opening or writing the log file failed.
#[derive(Debug, Clone, Copy, PartialEq, Eq)]
pub struct AppendError;

/// How a request ends.
#[derive(Debug, Clone, Copy, PartialEq, Eq, Structural)]
pub enum Response {
    /// The message was appended.
    Logged,
    /// The configuration could not be loaded.
    ConfigUnreadable,
    /// The request named a client that is not registered.
    UnknownClient,
    /// The append to the log file failed.
    AppendFailed,
}

/// Whether a failure is the caller's to correct or the server's.
#[derive(Debug, Clone, Copy, PartialEq, Eq, Structural)]
pub enum FaultKind {
    Client,
    Server,
}

/// The fault behind a response; none for success.
pub open spec fn fault_of(r: Response) -> Option<FaultKind> {
    match r {
        Response::Logged => None,
        Response::UnknownClient => Some(FaultKind::Client),
        Response::ConfigUnreadable | Response::AppendFailed => Some(FaultKind::Server),
    }
}

/// The HTTP status code of a response.
pub open spec fn status_of(r: Response) -> u16 {
    match r {
        Response::Logged => 200,
        Response::UnknownClient => 400,
        Response::ConfigUnreadable | Response::AppendFailed => 500,
    }
}

/// The body sent with a response. It names the category only, never the
/// underlying error.
pub open spec fn body_of(r: Response) -> Seq<char> {
    match r {
        Response::Logged => "Logged"@,
        Response::ConfigUnreadable => "Failed to read config"@,
        Response::UnknownClient => "Invalid client ID"@,
        Response::AppendFailed => "Failed to log message"@,
    }
}

impl Response {
    pub fn is_success(&self) -> (r: bool)
        ensures
            r == (*self == Response::Logged),
    {
        match self {
            Response::Logged => true,
            _ => false,
        }
    }

    pub fn fault(&self) -> (r: Option<FaultKind>)
        ensures
            r == fault_of(*self),
    {
        match self {
            Response::Logged => None,
            Response::UnknownClient => Some(FaultKind::Client),
            Response::ConfigUnreadable | Response::AppendFailed => Some(FaultKind::Server),
        }
    }

    pub fn status(&self) -> (r: u16)
        ensures
            r == status_of(*self),
    {
        match self {
            Response::Logged => 200,
            Response::UnknownClient => 400,
            Response::ConfigUnreadable | Response::AppendFailed => 500,
        }
    }

    pub fn body(&self) -> (r: &'static str)
        ensures
            r@ == body_of(*self),
    {
        match self {
            Response::Logged => "Logged",
            Response::ConfigUnreadable => "Failed to read config",
            Response::UnknownClient => "Invalid client ID",
            Response::AppendFailed => "Failed to log message",
        }
    }
}

/// The text appended for a message: the message and one newline, nothing
/// else.
pub open spec fn line_of(message: Seq<char>) -> Seq<char> {
    message + "\n"@
}

/// What the caller does next with a request.
pub enum Step {
    /// Append `line` to the file at `path` (creating the file, not its
    /// directory), then pass the outcome to `finish`.
    Append { path: String, line: String },
    /// Send this response; nothing is written.
    Reply(Response),
}

pub enum StepView {
    Append { path: Seq<char>, line: Seq<char> },
    Reply(Response),
}

impl View for Step {
    type V = StepView;

    open spec fn view(&self) -> StepView {
        match self {
            Step::Append { path, line } => StepView::Append { path: path@, line: line@ },
            Step::Reply(r) => StepView::Reply(*r),
        }
    }
}

/// The configuration as loaded: none where loading failed.
pub open spec fn loaded(config: &Result<Config, ConfigError>) -> Option<ConfigView> {
    match config {
        Ok(c) => Some(c@),
        Err(_) => None,
    }
}

/// The step for a request, given the configuration as loaded.
pub open spec fn plan(
    config: Option<ConfigView>,
    client_id: Seq<char>,
    message: Seq<char>,
) -> StepView {
    match config {
        None => StepView::Reply(Response::ConfigUnreadable),
        Some(c) => if c.clients.contains_key(client_id) {
            StepView::Append { path: c.log_path(client_id), line: line_of(message) }
        } else {
            StepView::Reply(Response::UnknownClient)
        },
    }
}

/// The response once `step` is carried out, where `appended` tells whether
/// an append it asked for succeeded.
pub open spec fn response_after(step: StepView, appended: bool) -> Response {
    match step {
        StepView::Reply(r) => r,
        StepView::Append { .. } => if appended {
            Response::Logged
        } else {
            Response::AppendFailed
        },
    }
}

/// Decides what to do with a request: reply at once when the configuration
/// failed to load or the client is unknown, else append the message to the
/// client's log file.
pub fn begin(config: &Result<Config, ConfigError>, request: &LogRequest) -> (r: Step)
    ensures
        r@ == plan(loaded(config), request.client_id@, request.message@),
{
    let config = match config {
        Ok(c) => c,
        Err(_) => return Step::Reply(Response::ConfigUnreadable),
    };
    match resolve(config, &request.client_id) {
        Ok(path) => {
            let mut line = request.message.clone();
            line.append("\n");
            Step::Append { path, line }
        },
        Err(_) => Step::Reply(Response::UnknownClient),
    }
}

/// The response to a request whose append has been attempted.
pub fn finish(appended: Result<(), AppendError>) -> (r: Response)
    ensures
        r == (if appended is Ok {
            Response::Logged
        } else {
            Response::AppendFailed
        }),
{
    match appended {
        Ok(()) => Response::Logged,
        Err(_) => Response::AppendFailed,
    }
}

} // verus!
