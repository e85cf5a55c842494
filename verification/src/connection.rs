//! The conversation with one client: read a request, carry it out, answer.

use crate::json::{encode_response, response_json};
use crate::protocol::{
    cancelled_response, invalid_response, not_found_response, registered_response, CancelRequest,
    CommandPayload, CommandView, PipelineKey, PipelineName, RegisterRequest, Response, ResponseView,
};
use crate::registry::{lookup, Registry, TaskTable};
use crate::text::{from_utf8_lossy, lossy_text};
use vstd::prelude::*;
use vstd::string::*;

verus! {

/// How many bytes are read of a request.
pub const REQUEST_LIMIT: usize = 1024;

/// The answer to a cancellation, by whether a task was found.
pub open spec fn cancel_response(held: Option<u64>, key: PipelineName) -> ResponseView {
    match held {
        Some(_) => cancelled_response(),
        None => not_found_response(key),
    }
}

/// Makes way for a new task: takes out the task that watches the request's
/// pipeline, if there is one, and returns it; it is to be aborted.
pub fn displace_task(registry: &mut Registry, payload: &RegisterRequest) -> (held: Option<u64>)
    ensures
        final(registry)@ == old(registry)@.remove((payload.project_id@, payload.merge_request_id@)),
        held == lookup(old(registry)@, (payload.project_id@, payload.merge_request_id@)),
{
    let key = payload.pipeline_key();
    registry.remove(&key)
}

/// Enters the task that was started for a registration, and words the answer.
pub fn handle_register_ci(
    registry: &mut Registry,
    payload: &RegisterRequest,
    task: u64,
) -> (response: Response)
    ensures
        final(registry)@ == old(registry)@.insert(
            (payload.project_id@, payload.merge_request_id@),
            task,
        ),
        response@ == registered_response((payload.project_id@, payload.merge_request_id@)),
{
    let key = payload.pipeline_key();
    registry.insert(&key, task);
    Response::registered(&key)
}

/// Takes out the task that watches the request's pipeline and words the
/// answer. The task that is returned is to be aborted.
pub fn handle_cancel_ci(registry: &mut Registry, payload: &CancelRequest) -> (outcome: (
    Option<u64>,
    Response,
))
    ensures
        final(registry)@ == old(registry)@.remove((payload.project_id@, payload.merge_request_id@)),
        outcome.0 == lookup(old(registry)@, (payload.project_id@, payload.merge_request_id@)),
        outcome.1@ == cancel_response(
            outcome.0,
            (payload.project_id@, payload.merge_request_id@),
        ),
{
    let key = payload.pipeline_key();
    match registry.remove(&key) {
        Some(task) => (Some(task), Response::cancelled()),
        None => (None, Response::not_found(&key)),
    }
}

/// How far the conversation with a client has come.
#[derive(Debug, PartialEq, Eq)]
pub enum ClientConnection {
    /// The request is awaited.
    Reading,
    /// A request has come and is to be decoded.
    Decoding { text: String },
    /// The task that watched the pipeline so far is to be aborted.
    Replacing { request: RegisterRequest, task: u64 },
    /// A polling task is to be started.
    Starting { request: RegisterRequest },
    /// A task is to be aborted for good; then the answer goes out.
    Cancelling { task: u64, response: Response },
    /// The answer is to be sent.
    Answering { json: String },
    /// The conversation is over.
    Closed,
}

/// The same with texts as character sequences.
pub enum ConnectionView {
    Reading,
    Decoding { text: Seq<char> },
    Replacing { key: PipelineName, pane: Seq<char>, task: u64 },
    Starting { key: PipelineName, pane: Seq<char> },
    Cancelling { task: u64, response: ResponseView },
    Answering { json: Seq<char> },
    Closed,
}

impl View for ClientConnection {
    type V = ConnectionView;

    open spec fn view(&self) -> ConnectionView {
        match self {
            ClientConnection::Reading => ConnectionView::Reading,
            ClientConnection::Decoding { text } => ConnectionView::Decoding { text: text@ },
            ClientConnection::Replacing { request, task } => ConnectionView::Replacing {
                key: (request.project_id@, request.merge_request_id@),
                pane: request.tmux_pane_id@,
                task: *task,
            },
            ClientConnection::Starting { request } => ConnectionView::Starting {
                key: (request.project_id@, request.merge_request_id@),
                pane: request.tmux_pane_id@,
            },
            ClientConnection::Cancelling { task, response } => ConnectionView::Cancelling {
                task: *task,
                response: response@,
            },
            ClientConnection::Answering { json } => ConnectionView::Answering { json: json@ },
            ClientConnection::Closed => ConnectionView::Closed,
        }
    }
}

/// What is to be done next for a client.
#[derive(Debug, PartialEq, Eq)]
pub enum ClientAction {
    /// Read at most this many bytes from the client.
    Read { limit: usize },
    /// Decode the request from JSON.
    Decode { text: String },
    /// Abort the task.
    Abort { task: u64 },
    /// Start a polling task for the pipeline and the pane.
    Start { key: PipelineKey, pane: String },
    /// Send the text to the client.
    Send { json: String },
    /// Nothing is left to be done.
    Close,
}

/// The same with texts as character sequences.
pub enum ClientActionView {
    Read { limit: usize },
    Decode { text: Seq<char> },
    Abort { task: u64 },
    Start { key: PipelineName, pane: Seq<char> },
    Send { json: Seq<char> },
    Close,
}

impl View for ClientAction {
    type V = ClientActionView;

    open spec fn view(&self) -> ClientActionView {
        match self {
            ClientAction::Read { limit } => ClientActionView::Read { limit: *limit },
            ClientAction::Decode { text } => ClientActionView::Decode { text: text@ },
            ClientAction::Abort { task } => ClientActionView::Abort { task: *task },
            ClientAction::Start { key, pane } => ClientActionView::Start {
                key: key@,
                pane: pane@,
            },
            ClientAction::Send { json } => ClientActionView::Send { json: json@ },
            ClientAction::Close => ClientActionView::Close,
        }
    }
}

/// What came of an action.
#[derive(Debug, PartialEq, Eq)]
pub enum ClientEvent {
    /// The bytes were read; none if the client has hung up.
    Received { bytes: Vec<u8> },
    /// Nothing could be read.
    ReadFailed,
    /// The request, or nothing if it is no JSON or no command.
    Decoded { command: Option<CommandPayload> },
    /// The task was told to stop.
    Aborted,
    /// A polling task was started and got this number.
    Started { task: u64 },
    /// The answer was sent, or could not be.
    Sent,
}

/// The same with texts as character sequences.
pub enum ClientEventView {
    Received { bytes: Seq<u8> },
    ReadFailed,
    Decoded { command: Option<CommandView> },
    Aborted,
    Started { task: u64 },
    Sent,
}

impl View for ClientEvent {
    type V = ClientEventView;

    open spec fn view(&self) -> ClientEventView {
        match self {
            ClientEvent::Received { bytes } => ClientEventView::Received { bytes: bytes@ },
            ClientEvent::ReadFailed => ClientEventView::ReadFailed,
            ClientEvent::Decoded { command } => ClientEventView::Decoded {
                command: match command {
                    Some(c) => Some(c@),
                    None => None,
                },
            },
            ClientEvent::Aborted => ClientEventView::Aborted,
            ClientEvent::Started { task } => ClientEventView::Started { task: *task },
            ClientEvent::Sent => ClientEventView::Sent,
        }
    }
}

/// The action that a conversation waits for.
pub open spec fn connection_action(state: ConnectionView) -> ClientActionView {
    match state {
        ConnectionView::Reading => ClientActionView::Read { limit: REQUEST_LIMIT },
        ConnectionView::Decoding { text } => ClientActionView::Decode { text },
        ConnectionView::Replacing { task, .. } => ClientActionView::Abort { task },
        ConnectionView::Starting { key, pane } => ClientActionView::Start { key, pane },
        ConnectionView::Cancelling { task, .. } => ClientActionView::Abort { task },
        ConnectionView::Answering { json } => ClientActionView::Send { json },
        ConnectionView::Closed => ClientActionView::Close,
    }
}

/// What a decoded request leads to, given the tasks that are running.
pub open spec fn carry_out(command: Option<CommandView>, tasks: TaskTable) -> (
    ConnectionView,
    TaskTable,
) {
    match command {
        Some(CommandView::RegisterCi { key, pane }) => match lookup(tasks, key) {
            Some(task) => (ConnectionView::Replacing { key, pane, task }, tasks.remove(key)),
            None => (ConnectionView::Starting { key, pane }, tasks),
        },
        Some(CommandView::CancelCi { key }) => match lookup(tasks, key) {
            Some(task) => (
                ConnectionView::Cancelling { task, response: cancelled_response() },
                tasks.remove(key),
            ),
            None => (
                ConnectionView::Answering { json: response_json(not_found_response(key)) },
                tasks,
            ),
        },
        None => (ConnectionView::Answering { json: response_json(invalid_response()) }, tasks),
    }
}

/// How an event moves a conversation on, and what it does to the tasks. An
/// event that the conversation does not wait for changes nothing.
pub open spec fn connection_next(
    state: ConnectionView,
    event: ClientEventView,
    tasks: TaskTable,
) -> (ConnectionView, TaskTable) {
    match (state, event) {
        (ConnectionView::Reading, ClientEventView::Received { bytes }) => if bytes.len() > 0 {
            (ConnectionView::Decoding { text: lossy_text(bytes) }, tasks)
        } else {
            (ConnectionView::Closed, tasks)
        },
        (ConnectionView::Reading, ClientEventView::ReadFailed) => (ConnectionView::Closed, tasks),
        (ConnectionView::Decoding { .. }, ClientEventView::Decoded { command }) => carry_out(
            command,
            tasks,
        ),
        (ConnectionView::Replacing { key, pane, .. }, ClientEventView::Aborted) => (
            ConnectionView::Starting { key, pane },
            tasks,
        ),
        (ConnectionView::Starting { key, .. }, ClientEventView::Started { task }) => (
            ConnectionView::Answering { json: response_json(registered_response(key)) },
            tasks.insert(key, task),
        ),
        (ConnectionView::Cancelling { response, .. }, ClientEventView::Aborted) => (
            ConnectionView::Answering { json: response_json(response) },
            tasks,
        ),
        (ConnectionView::Answering { .. }, ClientEventView::Sent) => (
            ConnectionView::Closed,
            tasks,
        ),
        _ => (state, tasks),
    }
}

impl ClientConnection {
    /// A conversation that has not begun.
    pub fn new() -> (connection: ClientConnection)
        ensures
            connection@ == ConnectionView::Reading,
    {
        ClientConnection::Reading
    }

    /// What is to be done next.
    pub fn action(&self) -> (action: ClientAction)
        ensures
            action@ == connection_action(self@),
    {
        match self {
            ClientConnection::Reading => ClientAction::Read { limit: REQUEST_LIMIT },
            ClientConnection::Decoding { text } => ClientAction::Decode { text: text.clone() },
            ClientConnection::Replacing { task, .. } => ClientAction::Abort { task: *task },
            ClientConnection::Starting { request } => ClientAction::Start {
                key: request.pipeline_key(),
                pane: request.tmux_pane_id.clone(),
            },
            ClientConnection::Cancelling { task, .. } => ClientAction::Abort { task: *task },
            ClientConnection::Answering { json } => ClientAction::Send { json: json.clone() },
            ClientConnection::Closed => ClientAction::Close,
        }
    }

    /// Carries out a request: takes what task it displaces or cancels out of
    /// the registry, and says how the conversation goes on.
    fn accept(command: Option<CommandPayload>, registry: &mut Registry) -> (next: ClientConnection)
        ensures
            (next@, final(registry)@) == carry_out(
                match command {
                    Some(c) => Some(c@),
                    None => None,
                },
                old(registry)@,
            ),
    {
        match command {
            Some(CommandPayload::RegisterCi(request)) => {
                match displace_task(registry, &request) {
                    Some(task) => ClientConnection::Replacing { request, task },
                    None => {
                        assert(registry@ =~= old(registry)@);
                        ClientConnection::Starting { request }
                    },
                }
            },
            Some(CommandPayload::CancelCi(request)) => {
                let (held, response) = handle_cancel_ci(registry, &request);
                match held {
                    Some(task) => ClientConnection::Cancelling { task, response },
                    None => {
                        assert(registry@ =~= old(registry)@);
                        ClientConnection::Answering { json: encode_response(&response) }
                    },
                }
            },
            None => ClientConnection::Answering { json: encode_response(&Response::invalid()) },
        }
    }

    /// Moves the conversation on by what came of the action.
    pub fn advance(self, event: ClientEvent, registry: &mut Registry) -> (next: ClientConnection)
        ensures
            (next@, final(registry)@) == connection_next(self@, event@, old(registry)@),
    {
        match (self, event) {
            (ClientConnection::Reading, ClientEvent::Received { bytes }) => {
                if bytes.len() > 0 {
                    ClientConnection::Decoding { text: from_utf8_lossy(bytes.as_slice()) }
                } else {
                    ClientConnection::Closed
                }
            },
            (ClientConnection::Reading, ClientEvent::ReadFailed) => ClientConnection::Closed,
            (ClientConnection::Decoding { .. }, ClientEvent::Decoded { command }) => {
                ClientConnection::accept(command, registry)
            },
            (ClientConnection::Replacing { request, .. }, ClientEvent::Aborted) => {
                ClientConnection::Starting { request }
            },
            (ClientConnection::Starting { request }, ClientEvent::Started { task }) => {
                let response = handle_register_ci(registry, &request, task);
                ClientConnection::Answering { json: encode_response(&response) }
            },
            (ClientConnection::Cancelling { response, .. }, ClientEvent::Aborted) => {
                ClientConnection::Answering { json: encode_response(&response) }
            },
            (ClientConnection::Answering { .. }, ClientEvent::Sent) => ClientConnection::Closed,
            (state, _) => state,
        }
    }
}

} // verus!
