use ci_monitor::gitlab::{
    api_url, FetchAction, FetchEvent, GitLabMergeRequest, Pipeline, StatusError, StatusFetch,
    StatusQuery,
};

fn asking() -> StatusFetch {
    StatusFetch::new(Some("t".to_string()), "https://gitlab.com/api/v4", "6576720", "42")
}

fn error(fetch: StatusFetch) -> StatusError {
    match fetch {
        StatusFetch::Finished { outcome } => outcome.unwrap_err(),
        other => panic!("{:?}", other),
    }
}

#[test]
fn api_url_has_a_default() {
    assert_eq!(api_url(None), "https://gitlab.com/api/v4");
    assert_eq!(api_url(Some("http://host/api".to_string())), "http://host/api");
    assert_eq!(api_url(Some(String::new())), "");
}

#[test]
fn query_names_the_merge_request() {
    assert_eq!(
        asking().action(),
        FetchAction::Send {
            query: StatusQuery {
                method: "GET".to_string(),
                url: "https://gitlab.com/api/v4/projects/6576720/merge_requests/42".to_string(),
                header: "PRIVATE-TOKEN".to_string(),
                token: "t".to_string(),
                timeout_secs: 15,
            }
        }
    );
}

#[test]
fn nothing_is_asked_without_a_token() {
    let fetch = StatusFetch::new(None, "b", "p", "m");
    assert_eq!(fetch.action(), FetchAction::Stop);
    let error = error(fetch);
    assert_eq!(error, StatusError::NoToken);
    assert_eq!(error.message(), "GITLAB_TOKEN environment variable not set");
}

#[test]
fn status_comes_from_the_head_pipeline() {
    let fetch = asking().advance(FetchEvent::Answered { code: 200 });
    assert_eq!(fetch.action(), FetchAction::ReadMergeRequest);
    let merge_request =
        GitLabMergeRequest { head_pipeline: Some(Pipeline { status: "running".to_string() }) };
    assert_eq!(
        fetch.advance(FetchEvent::MergeRequest { merge_request }),
        StatusFetch::Finished { outcome: Ok(Some("running".to_string())) }
    );
    let merge_request = GitLabMergeRequest { head_pipeline: None };
    assert_eq!(
        asking()
            .advance(FetchEvent::Answered { code: 204 })
            .advance(FetchEvent::MergeRequest { merge_request }),
        StatusFetch::Finished { outcome: Ok(None) }
    );
}

#[test]
fn only_success_is_read() {
    for code in [100u16, 199, 300, 404, 500, 599, 999] {
        assert_eq!(
            asking().advance(FetchEvent::Answered { code }).action(),
            FetchAction::ReadText
        );
    }
    for code in 200u16..300 {
        assert_eq!(
            asking().advance(FetchEvent::Answered { code }).action(),
            FetchAction::ReadMergeRequest
        );
    }
}

#[test]
fn refusal_is_reported_with_its_body() {
    let error = error(
        asking()
            .advance(FetchEvent::Answered { code: 404 })
            .advance(FetchEvent::Text { body: Some("{\"message\":\"404\"}".to_string()) }),
    );
    assert_eq!(
        error.message(),
        "GitLab API returned an error: 404 Not Found - {\"message\":\"404\"}"
    );
}

#[test]
fn refusal_without_a_readable_body() {
    let error = error(
        asking()
            .advance(FetchEvent::Answered { code: 599 })
            .advance(FetchEvent::Text { body: None }),
    );
    assert_eq!(
        error.message(),
        "GitLab API returned an error: 599 <unknown status code> - "
    );
}

#[test]
fn network_and_body_errors() {
    let unreached = error(asking().advance(FetchEvent::NotReached));
    assert_eq!(unreached.message(), "Network error fetching MR data");
    let unreadable = error(
        asking()
            .advance(FetchEvent::Answered { code: 200 })
            .advance(FetchEvent::Unreadable { reason: "no JSON".to_string() }),
    );
    assert_eq!(unreadable.message(), "no JSON");
}

#[test]
fn numbers_of_no_status_are_no_answer() {
    for code in [0u16, 99, 1000, u16::MAX] {
        assert_eq!(asking().advance(FetchEvent::Answered { code }), asking());
    }
}
