//! What is asked of GitLab, and what is made of the answer.

use crate::gitlab::{
    api_url, status_line, FetchAction, FetchEvent, GitLabMergeRequest, Pipeline, StatusError,
    StatusFetch, StatusQuery,
};
use vstd::prelude::*;
use vstd::string::*;

verus! {

/// A configured address is used as it is; without one it is the public server.
pub proof fn law_configured_address_is_used(configured: Option<String>, url: String)
    requires
        call_ensures(api_url, (configured,), url),
    ensures
        configured matches Some(address) ==> url@ == address@,
        configured is None ==> url@ == "https://gitlab.com/api/v4"@,
{
}

/// The first thing that is done with a token is to ask for the very merge
/// request, at the address of the server, with the very token.
pub proof fn law_query_names_server_project_and_merge_request(
    token: String,
    base: &str,
    project_id: &str,
    merge_request_iid: &str,
    fetch: StatusFetch,
    action: FetchAction,
)
    requires
        call_ensures(StatusFetch::new, (Some(token), base, project_id, merge_request_iid), fetch),
        call_ensures(StatusFetch::action, (&fetch,), action),
    ensures
        action matches FetchAction::Send { query } && {
            &&& query.method@ == "GET"@
            &&& query.header@ == "PRIVATE-TOKEN"@
            &&& query.token@ == token@
            &&& query.timeout_secs == 15
            &&& query.url@ == base@ + "/projects/"@ + project_id@ + "/merge_requests/"@
                + merge_request_iid@
        },
{
}

/// Without a token nothing is asked, and that is the error.
pub proof fn law_nothing_is_asked_without_a_token(
    base: &str,
    project_id: &str,
    merge_request_iid: &str,
    fetch: StatusFetch,
    action: FetchAction,
)
    requires
        call_ensures(
            StatusFetch::new,
            (None::<String>, base, project_id, merge_request_iid),
            fetch,
        ),
        call_ensures(StatusFetch::action, (&fetch,), action),
    ensures
        action is Stop,
        fetch matches StatusFetch::Finished { outcome: Err(error) } && error is NoToken,
{
}

/// An answer with success makes the merge request be read, any other answer of
/// a server its text, and no answer at all is a network error.
pub proof fn law_answer_decides_what_is_read(
    query: StatusQuery,
    event: FetchEvent,
    next: StatusFetch,
    action: FetchAction,
)
    requires
        call_ensures(StatusFetch::advance, (StatusFetch::Asking { query }, event), next),
        call_ensures(StatusFetch::action, (&next,), action),
    ensures
        event matches FetchEvent::Answered { code } ==> {
            &&& 200 <= code <= 299 <==> action is ReadMergeRequest
            &&& 100 <= code <= 199 || 300 <= code <= 999 <==> action is ReadText
            &&& action is ReadText ==> (next matches StatusFetch::ReadingRefusal { status }
                && status@ == status_line(code))
            &&& !(100 <= code <= 999) ==> next@ == (StatusFetch::Asking { query })@
        },
        event is NotReached <==> (next matches StatusFetch::Finished { outcome: Err(error) }
            && error is Network),
        event is NotReached ==> action is Stop,
        event is Text || event is MergeRequest || event is Unreadable ==> next@ == (
        StatusFetch::Asking { query })@,
{
}

/// The status that is had is that of the head pipeline, character by
/// character, whatever it is; without a head pipeline there is none. Nothing is
/// left to be done then.
pub proof fn law_head_pipeline_status_is_kept(
    merge_request: GitLabMergeRequest,
    next: StatusFetch,
    action: FetchAction,
)
    requires
        call_ensures(
            StatusFetch::advance,
            (StatusFetch::ReadingAnswer, FetchEvent::MergeRequest { merge_request }),
            next,
        ),
        call_ensures(StatusFetch::action, (&next,), action),
    ensures
        action is Stop,
        merge_request.head_pipeline matches Some(pipeline) ==> {
            &&& next matches StatusFetch::Finished { outcome: Ok(Some(status)) }
            &&& status@.len() == pipeline.status@.len()
            &&& forall|i: int|
                0 <= i < status@.len() ==> #[trigger] status@[i] == pipeline.status@[i]
        },
        merge_request.head_pipeline is None ==> (next matches StatusFetch::Finished {
            outcome: Ok(status),
        } && status is None),
{
}

/// Two merge requests lead to the same status only if their head pipelines have
/// it, from the query on.
pub proof fn law_statuses_are_told_apart(
    query: StatusQuery,
    code: u16,
    a: Pipeline,
    b: Pipeline,
    answered: StatusFetch,
    end_a: StatusFetch,
    end_b: StatusFetch,
)
    requires
        200 <= code <= 299,
        call_ensures(
            StatusFetch::advance,
            (StatusFetch::Asking { query }, FetchEvent::Answered { code }),
            answered,
        ),
        call_ensures(
            StatusFetch::advance,
            (
                answered,
                FetchEvent::MergeRequest {
                    merge_request: GitLabMergeRequest { head_pipeline: Some(a) },
                },
            ),
            end_a,
        ),
        call_ensures(
            StatusFetch::advance,
            (
                answered,
                FetchEvent::MergeRequest {
                    merge_request: GitLabMergeRequest { head_pipeline: Some(b) },
                },
            ),
            end_b,
        ),
    ensures
        end_a matches StatusFetch::Finished { outcome: Ok(Some(s)) } && s@ == a.status@,
        end_b matches StatusFetch::Finished { outcome: Ok(Some(s)) } && s@ == b.status@,
        end_a@ == end_b@ <==> a.status@ == b.status@,
{
}

/// A body that is no merge request is an error with the very reason; nothing
/// else ends the reading.
pub proof fn law_unreadable_answer_is_an_error(event: FetchEvent, next: StatusFetch)
    requires
        call_ensures(StatusFetch::advance, (StatusFetch::ReadingAnswer, event), next),
    ensures
        event matches FetchEvent::Unreadable { reason } ==> (next matches StatusFetch::Finished {
            outcome: Err(StatusError::Unreadable { reason: r }),
        } && r@ == reason@),
        event is Answered || event is NotReached || event is Text ==> next is ReadingAnswer,
{
}

/// A refusal is reported with its status and its text, or with an empty text if
/// that cannot be read; nothing else ends the reading.
pub proof fn law_refusal_keeps_status_and_text(
    status: String,
    event: FetchEvent,
    next: StatusFetch,
    action: FetchAction,
)
    requires
        call_ensures(StatusFetch::advance, (StatusFetch::ReadingRefusal { status }, event), next),
        call_ensures(StatusFetch::action, (&next,), action),
    ensures
        event matches FetchEvent::Text { body } ==> {
            &&& action is Stop
            &&& next matches StatusFetch::Finished {
                outcome: Err(StatusError::Refused { status: s, body: b }),
            }
            &&& s@ == status@
            &&& body matches Some(text) ==> b@ == text@
            &&& body is None ==> b@.len() == 0
        },
        !(event is Text) ==> action is ReadText && (next matches StatusFetch::ReadingRefusal {
            status: s,
        } && s@ == status@),
{
    reveal_strlit("");
}

/// What is over stays as it is.
pub proof fn law_finished_query_stays(
    outcome: Result<Option<String>, StatusError>,
    event: FetchEvent,
    next: StatusFetch,
)
    requires
        call_ensures(StatusFetch::advance, (StatusFetch::Finished { outcome }, event), next),
    ensures
        outcome matches Ok(Some(s)) ==> (next matches StatusFetch::Finished {
            outcome: Ok(Some(t)),
        } && t@ == s@),
        outcome matches Ok(None) ==> (next matches StatusFetch::Finished { outcome: Ok(t) }
            && t is None),
        outcome matches Err(e) ==> (next matches StatusFetch::Finished { outcome: Err(f) }
            && f@ == e@),
{
}

/// What an error of asking says.
pub proof fn law_status_error_says_what_is_wrong(error: StatusError, text: String)
    requires
        call_ensures(StatusError::message, (&error,), text),
    ensures
        error is NoToken ==> text@ == "GITLAB_TOKEN environment variable not set"@,
        error is Network ==> text@ == "Network error fetching MR data"@,
        error matches StatusError::Unreadable { reason } ==> text@ == reason@,
        error matches StatusError::Refused { status, body } ==> text@
            == "GitLab API returned an error: "@ + status@ + " - "@ + body@,
{
}

/// A query is copied whole.
pub proof fn law_query_copy_is_the_same(query: StatusQuery, copy: StatusQuery)
    requires
        call_ensures(<StatusQuery as Clone>::clone, (&query,), copy),
    ensures
        copy.method@ == query.method@,
        copy.url@ == query.url@,
        copy.header@ == query.header@,
        copy.token@ == query.token@,
        copy.timeout_secs == query.timeout_secs,
{
}

} // verus!
