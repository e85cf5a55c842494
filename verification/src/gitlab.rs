//! Asking GitLab for the status of a pipeline.

use vstd::prelude::*;
use vstd::string::*;

verus! {

/// How long GitLab gets to answer.
pub const REQUEST_TIMEOUT_SECS: u64 = 15;

/// A pipeline as GitLab describes it.
#[derive(Debug, PartialEq, Eq)]
pub struct Pipeline {
    pub status: String,
}

/// A merge request as GitLab describes it.
#[derive(Debug, PartialEq, Eq)]
pub struct GitLabMergeRequest {
    pub head_pipeline: Option<Pipeline>,
}

/// The status of a merge request's pipeline; nothing if it has no pipeline.
pub open spec fn head_status(merge_request: GitLabMergeRequest) -> Option<Seq<char>> {
    match merge_request.head_pipeline {
        Some(pipeline) => Some(pipeline.status@),
        None => None,
    }
}

/// Chooses where GitLab's API is: where the environment says, else at the
/// public server.
pub fn api_url(configured: Option<String>) -> (url: String)
    ensures
        url@ == (match configured {
            Some(u) => u@,
            None => "https://gitlab.com/api/v4"@,
        }),
{
    match configured {
        Some(u) => u,
        None => "https://gitlab.com/api/v4".to_string(),
    }
}

/// What is asked of GitLab, and how.
#[derive(Debug, PartialEq, Eq)]
pub struct StatusQuery {
    /// The method of the HTTP request.
    pub method: String,
    /// The address of the merge request.
    pub url: String,
    /// The header that carries the token.
    pub header: String,
    /// The token.
    pub token: String,
    /// How long to wait for the answer.
    pub timeout_secs: u64,
}

/// The same with texts as character sequences.
#[verifier::ext_equal]
pub struct StatusQueryView {
    pub method: Seq<char>,
    pub url: Seq<char>,
    pub header: Seq<char>,
    pub token: Seq<char>,
    pub timeout_secs: u64,
}

impl View for StatusQuery {
    type V = StatusQueryView;

    open spec fn view(&self) -> StatusQueryView {
        StatusQueryView {
            method: self.method@,
            url: self.url@,
            header: self.header@,
            token: self.token@,
            timeout_secs: self.timeout_secs,
        }
    }
}

impl Clone for StatusQuery {
    fn clone(&self) -> (query: Self)
        ensures
            query == *self,
    {
        StatusQuery {
            method: self.method.clone(),
            url: self.url.clone(),
            header: self.header.clone(),
            token: self.token.clone(),
            timeout_secs: self.timeout_secs,
        }
    }
}

/// The address of a merge request.
pub open spec fn merge_request_url(
    base: Seq<char>,
    project_id: Seq<char>,
    merge_request_iid: Seq<char>,
) -> Seq<char> {
    base + "/projects/"@ + project_id + "/merge_requests/"@ + merge_request_iid
}

/// Why the status of a pipeline could not be had.
#[derive(Debug, PartialEq, Eq)]
pub enum StatusError {
    /// There is no token.
    NoToken,
    /// GitLab could not be reached.
    Network,
    /// GitLab refused, with this status line and this body.
    Refused { status: String, body: String },
    /// The answer could not be read, for this reason.
    Unreadable { reason: String },
}

/// The same with texts as character sequences.
pub enum StatusErrorView {
    NoToken,
    Network,
    Refused { status: Seq<char>, body: Seq<char> },
    Unreadable { reason: Seq<char> },
}

impl View for StatusError {
    type V = StatusErrorView;

    open spec fn view(&self) -> StatusErrorView {
        match self {
            StatusError::NoToken => StatusErrorView::NoToken,
            StatusError::Network => StatusErrorView::Network,
            StatusError::Refused { status, body } => StatusErrorView::Refused {
                status: status@,
                body: body@,
            },
            StatusError::Unreadable { reason } => StatusErrorView::Unreadable { reason: reason@ },
        }
    }
}

/// How an error of asking for a status is worded.
pub open spec fn status_error_text(error: StatusErrorView) -> Seq<char> {
    match error {
        StatusErrorView::NoToken => "GITLAB_TOKEN environment variable not set"@,
        StatusErrorView::Network => "Network error fetching MR data"@,
        StatusErrorView::Refused { status, body } => "GitLab API returned an error: "@ + status
            + " - "@ + body,
        StatusErrorView::Unreadable { reason } => reason,
    }
}

impl StatusError {
    /// The error in words.
    pub fn message(&self) -> (text: String)
        ensures
            text@ == status_error_text(self@),
    {
        match self {
            StatusError::NoToken => "GITLAB_TOKEN environment variable not set".to_string(),
            StatusError::Network => "Network error fetching MR data".to_string(),
            StatusError::Refused { status, body } => {
                "GitLab API returned an error: ".to_string().concat(status.as_str()).concat(
                    " - ",
                ).concat(body.as_str())
            },
            StatusError::Unreadable { reason } => reason.clone(),
        }
    }
}

/// Whether an HTTP status reports success.
pub open spec fn is_success(code: u16) -> bool {
    200 <= code < 300
}

/// `reqwest::StatusCode::is_success` on the status with this number, of which
/// is believed that it holds of the numbers from 200 to 299.
#[verifier::external_body]
fn status_is_success(code: u16) -> (success: bool)
    ensures
        success == is_success(code),
{
    reqwest::StatusCode::from_u16(code).is_ok_and(|status| status.is_success())
}

/// Whether a number is that of an HTTP status.
pub open spec fn is_http_status(code: u16) -> bool {
    100 <= code < 1000
}

/// How `reqwest::StatusCode` shows the status with this number: the number
/// and its customary reason.
pub uninterp spec fn status_line(code: u16) -> Seq<char>;

/// `reqwest::StatusCode`'s `Display`, of which is believed that the text
/// depends on the number alone. The numbers from 100 to 999 are those of a
/// status; any other gives nothing.
#[verifier::external_body]
fn show_status(code: u16) -> (line: Option<String>)
    ensures
        line is Some <==> is_http_status(code),
        line matches Some(text) ==> text@ == status_line(code),
{
    reqwest::StatusCode::from_u16(code).ok().map(|status| format!("{}", status))
}

/// How far asking for a status has come.
#[derive(Debug, PartialEq, Eq)]
pub enum StatusFetch {
    /// GitLab is to be asked.
    Asking { query: StatusQuery },
    /// GitLab has refused with this status; its reasons are to be read.
    ReadingRefusal { status: String },
    /// The merge request is to be read from the answer.
    ReadingAnswer,
    /// Asking is over.
    Finished { outcome: Result<Option<String>, StatusError> },
}

/// The same with texts as character sequences.
pub enum StatusFetchView {
    Asking { query: StatusQueryView },
    ReadingRefusal { status: Seq<char> },
    ReadingAnswer,
    Finished { outcome: Result<Option<Seq<char>>, StatusErrorView> },
}

impl View for StatusFetch {
    type V = StatusFetchView;

    open spec fn view(&self) -> StatusFetchView {
        match self {
            StatusFetch::Asking { query } => StatusFetchView::Asking { query: query@ },
            StatusFetch::ReadingRefusal { status } => StatusFetchView::ReadingRefusal {
                status: status@,
            },
            StatusFetch::ReadingAnswer => StatusFetchView::ReadingAnswer,
            StatusFetch::Finished { outcome } => StatusFetchView::Finished {
                outcome: match outcome {
                    Ok(Some(status)) => Ok(Some(status@)),
                    Ok(None) => Ok(None),
                    Err(error) => Err(error@),
                },
            },
        }
    }
}

/// What is to be done next to learn a status.
#[derive(Debug, PartialEq, Eq)]
pub enum FetchAction {
    /// Send the query.
    Send { query: StatusQuery },
    /// Read the body of the answer as text.
    ReadText,
    /// Read the body of the answer as a merge request.
    ReadMergeRequest,
    /// Nothing is left to be done.
    Stop,
}

/// The same with texts as character sequences.
pub enum FetchActionView {
    Send { query: StatusQueryView },
    ReadText,
    ReadMergeRequest,
    Stop,
}

impl View for FetchAction {
    type V = FetchActionView;

    open spec fn view(&self) -> FetchActionView {
        match self {
            FetchAction::Send { query } => FetchActionView::Send { query: query@ },
            FetchAction::ReadText => FetchActionView::ReadText,
            FetchAction::ReadMergeRequest => FetchActionView::ReadMergeRequest,
            FetchAction::Stop => FetchActionView::Stop,
        }
    }
}

/// What came of an action.
#[derive(Debug, PartialEq, Eq)]
pub enum FetchEvent {
    /// GitLab has answered with this status.
    Answered { code: u16 },
    /// GitLab could not be reached.
    NotReached,
    /// The body as text, if it could be read.
    Text { body: Option<String> },
    /// The body as a merge request.
    MergeRequest { merge_request: GitLabMergeRequest },
    /// The body is no merge request, for this reason.
    Unreadable { reason: String },
}

/// The action that asking waits for.
pub open spec fn fetch_action(fetch: StatusFetchView) -> FetchActionView {
    match fetch {
        StatusFetchView::Asking { query } => FetchActionView::Send { query },
        StatusFetchView::ReadingRefusal { .. } => FetchActionView::ReadText,
        StatusFetchView::ReadingAnswer => FetchActionView::ReadMergeRequest,
        StatusFetchView::Finished { .. } => FetchActionView::Stop,
    }
}

/// How an event moves asking on. An event that it does not wait for changes
/// nothing, and so does a number that is that of no HTTP status.
pub open spec fn fetch_next(fetch: StatusFetchView, event: FetchEvent) -> StatusFetchView {
    match (fetch, event) {
        (StatusFetchView::Asking { .. }, FetchEvent::Answered { code }) => if is_success(code) {
            StatusFetchView::ReadingAnswer
        } else if is_http_status(code) {
            StatusFetchView::ReadingRefusal { status: status_line(code) }
        } else {
            fetch
        },
        (StatusFetchView::Asking { .. }, FetchEvent::NotReached) => StatusFetchView::Finished {
            outcome: Err(StatusErrorView::Network),
        },
        (StatusFetchView::ReadingRefusal { status }, FetchEvent::Text { body }) => {
            StatusFetchView::Finished {
                outcome: Err(
                    StatusErrorView::Refused {
                        status,
                        body: match body {
                            Some(text) => text@,
                            None => ""@,
                        },
                    },
                ),
            }
        },
        (StatusFetchView::ReadingAnswer, FetchEvent::MergeRequest { merge_request }) => {
            StatusFetchView::Finished { outcome: Ok(head_status(merge_request)) }
        },
        (StatusFetchView::ReadingAnswer, FetchEvent::Unreadable { reason }) => {
            StatusFetchView::Finished {
                outcome: Err(StatusErrorView::Unreadable { reason: reason@ }),
            }
        },
        _ => fetch,
    }
}

impl StatusFetch {
    /// Begins to ask for the status of a merge request's pipeline; without a
    /// token nothing is asked.
    pub fn new(
        token: Option<String>,
        base: &str,
        project_id: &str,
        merge_request_iid: &str,
    ) -> (fetch: StatusFetch)
        ensures
            fetch@ == (match token {
                Some(t) => StatusFetchView::Asking {
                    query: StatusQueryView {
                        method: "GET"@,
                        url: merge_request_url(base@, project_id@, merge_request_iid@),
                        header: "PRIVATE-TOKEN"@,
                        token: t@,
                        timeout_secs: REQUEST_TIMEOUT_SECS,
                    },
                },
                None => StatusFetchView::Finished { outcome: Err(StatusErrorView::NoToken) },
            }),
    {
        match token {
            Some(t) => StatusFetch::Asking {
                query: StatusQuery {
                    method: "GET".to_string(),
                    url: base.to_string().concat("/projects/").concat(project_id).concat(
                        "/merge_requests/",
                    ).concat(merge_request_iid),
                    header: "PRIVATE-TOKEN".to_string(),
                    token: t,
                    timeout_secs: REQUEST_TIMEOUT_SECS,
                },
            },
            None => StatusFetch::Finished { outcome: Err(StatusError::NoToken) },
        }
    }

    /// What is to be done next.
    pub fn action(&self) -> (action: FetchAction)
        ensures
            action@ == fetch_action(self@),
    {
        match self {
            StatusFetch::Asking { query } => FetchAction::Send { query: query.clone() },
            StatusFetch::ReadingRefusal { .. } => FetchAction::ReadText,
            StatusFetch::ReadingAnswer => FetchAction::ReadMergeRequest,
            StatusFetch::Finished { .. } => FetchAction::Stop,
        }
    }

    /// Moves asking on by what came of the action.
    pub fn advance(self, event: FetchEvent) -> (next: StatusFetch)
        ensures
            next@ == fetch_next(self@, event),
    {
        match (self, event) {
            (StatusFetch::Asking { query }, FetchEvent::Answered { code }) => {
                if status_is_success(code) {
                    StatusFetch::ReadingAnswer
                } else {
                    match show_status(code) {
                        Some(status) => StatusFetch::ReadingRefusal { status },
                        None => StatusFetch::Asking { query },
                    }
                }
            },
            (StatusFetch::Asking { .. }, FetchEvent::NotReached) => StatusFetch::Finished {
                outcome: Err(StatusError::Network),
            },
            (StatusFetch::ReadingRefusal { status }, FetchEvent::Text { body }) => {
                let body = match body {
                    Some(text) => text,
                    None => "".to_string(),
                };
                StatusFetch::Finished { outcome: Err(StatusError::Refused { status, body }) }
            },
            (StatusFetch::ReadingAnswer, FetchEvent::MergeRequest { merge_request }) => {
                let status = match merge_request.head_pipeline {
                    Some(pipeline) => Some(pipeline.status),
                    None => None,
                };
                StatusFetch::Finished { outcome: Ok(status) }
            },
            (StatusFetch::ReadingAnswer, FetchEvent::Unreadable { reason }) => {
                StatusFetch::Finished { outcome: Err(StatusError::Unreadable { reason }) }
            },
            (fetch, _) => fetch,
        }
    }
}

} // verus!
