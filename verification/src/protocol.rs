//! Requests of the clients, and the responses they get.

use vstd::prelude::*;
use vstd::string::*;

verus! {

/// The two parts of a pipeline's name: project and merge request.
pub type PipelineName = (Seq<char>, Seq<char>);

/// Names one pipeline: that of a merge request of a project.
#[derive(Debug, PartialEq, Eq, Hash)]
pub struct PipelineKey {
    pub project_id: String,
    pub merge_request_id: String,
}

impl View for PipelineKey {
    type V = PipelineName;

    open spec fn view(&self) -> PipelineName {
        (self.project_id@, self.merge_request_id@)
    }
}

impl Clone for PipelineKey {
    fn clone(&self) -> (key: Self)
        ensures
            key == *self,
    {
        PipelineKey {
            project_id: self.project_id.clone(),
            merge_request_id: self.merge_request_id.clone(),
        }
    }
}

/// Asks for a pipeline to be watched on behalf of a tmux pane.
#[derive(Debug, PartialEq, Eq)]
pub struct RegisterRequest {
    pub project_id: String,
    pub merge_request_id: String,
    pub tmux_pane_id: String,
}

impl RegisterRequest {
    /// The pipeline that the request names.
    pub fn pipeline_key(&self) -> (key: PipelineKey)
        ensures
            key@ == (self.project_id@, self.merge_request_id@),
    {
        PipelineKey {
            project_id: self.project_id.clone(),
            merge_request_id: self.merge_request_id.clone(),
        }
    }
}

/// Asks for a pipeline to be watched no longer.
#[derive(Debug, PartialEq, Eq)]
pub struct CancelRequest {
    pub project_id: String,
    pub merge_request_id: String,
}

impl CancelRequest {
    /// The pipeline that the request names.
    pub fn pipeline_key(&self) -> (key: PipelineKey)
        ensures
            key@ == (self.project_id@, self.merge_request_id@),
    {
        PipelineKey {
            project_id: self.project_id.clone(),
            merge_request_id: self.merge_request_id.clone(),
        }
    }
}

/// A request as a client states it.
#[derive(Debug, PartialEq, Eq)]
pub enum CommandPayload {
    RegisterCi(RegisterRequest),
    CancelCi(CancelRequest),
}

/// A request with its texts as character sequences.
pub enum CommandView {
    RegisterCi { key: PipelineName, pane: Seq<char> },
    CancelCi { key: PipelineName },
}

impl View for CommandPayload {
    type V = CommandView;

    open spec fn view(&self) -> CommandView {
        match self {
            CommandPayload::RegisterCi(request) => CommandView::RegisterCi {
                key: (request.project_id@, request.merge_request_id@),
                pane: request.tmux_pane_id@,
            },
            CommandPayload::CancelCi(request) => CommandView::CancelCi {
                key: (request.project_id@, request.merge_request_id@),
            },
        }
    }
}

/// What a client is told.
#[derive(Debug, PartialEq, Eq)]
pub struct Response {
    pub status: String,
    pub message: String,
    pub task_id: Option<String>,
}

/// A response with its texts as character sequences.
#[verifier::ext_equal]
pub struct ResponseView {
    pub status: Seq<char>,
    pub message: Seq<char>,
    pub task_id: Option<Seq<char>>,
}

impl View for Response {
    type V = ResponseView;

    open spec fn view(&self) -> ResponseView {
        ResponseView {
            status: self.status@,
            message: self.message@,
            task_id: match self.task_id {
                Some(id) => Some(id@),
                None => None,
            },
        }
    }
}

/// The task identifier that a client is given for a pipeline.
pub open spec fn task_id_text(key: PipelineName) -> Seq<char> {
    key.0 + "-"@ + key.1
}

/// The response to a registration.
pub open spec fn registered_response(key: PipelineName) -> ResponseView {
    ResponseView {
        status: "success"@,
        message: "CI monitoring task registered."@,
        task_id: Some(task_id_text(key)),
    }
}

/// The response to a cancellation that found a task.
pub open spec fn cancelled_response() -> ResponseView {
    ResponseView { status: "success"@, message: "Cancelled matching task."@, task_id: None }
}

/// The response to a cancellation that found no task.
pub open spec fn not_found_response(key: PipelineName) -> ResponseView {
    ResponseView {
        status: "error"@,
        message: "No active polling task found for MR "@ + key.1 + " and Project "@ + key.0,
        task_id: None,
    }
}

/// The response to a request that could not be decoded.
pub open spec fn invalid_response() -> ResponseView {
    ResponseView {
        status: "error"@,
        message: "Invalid JSON or unknown command"@,
        task_id: None,
    }
}

impl Response {
    /// Tells a client that its pipeline is now watched, and under what name.
    pub fn registered(key: &PipelineKey) -> (response: Response)
        ensures
            response@ == registered_response(key@),
    {
        Response {
            status: "success".to_string(),
            message: "CI monitoring task registered.".to_string(),
            task_id: Some(key.project_id.clone().concat("-").concat(key.merge_request_id.as_str())),
        }
    }

    /// Tells a client that its pipeline is watched no longer.
    pub fn cancelled() -> (response: Response)
        ensures
            response@ == cancelled_response(),
    {
        Response {
            status: "success".to_string(),
            message: "Cancelled matching task.".to_string(),
            task_id: None,
        }
    }

    /// Tells a client that its pipeline was not watched.
    pub fn not_found(key: &PipelineKey) -> (response: Response)
        ensures
            response@ == not_found_response(key@),
    {
        let message = "No active polling task found for MR ".to_string().concat(
            key.merge_request_id.as_str(),
        ).concat(" and Project ").concat(key.project_id.as_str());
        Response { status: "error".to_string(), message, task_id: None }
    }

    /// Tells a client that its request made no sense.
    pub fn invalid() -> (response: Response)
        ensures
            response@ == invalid_response(),
    {
        Response {
            status: "error".to_string(),
            message: "Invalid JSON or unknown command".to_string(),
            task_id: None,
        }
    }
}

} // verus!
