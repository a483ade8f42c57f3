use github_app::pull_request::{default_context, last_status_for_context, pull_requests_url};
use github_app::request::{
    authenticated_request, authorization_header, installation_url, installations_url,
    pull_request_url, response_body, Method, Scheme,
};
use github_app::GithubError;
use github_app::text::decimal_string;
use github_app::{PullRequestState, State, Status};

fn status(state: State, context: &str, description: &str) -> Status {
    Status {
        state,
        target_url: "https://example.com".to_string(),
        description: description.to_string(),
        context: context.to_string(),
    }
}

#[test]
fn authorization_header_names_scheme() {
    assert_eq!(authorization_header(Scheme::Bearer, "jwt"), "Authorization: Bearer jwt");
    assert_eq!(authorization_header(Scheme::Token, "abc"), "Authorization: token abc");
}

#[test]
fn installation_request_headers_are_fixed() {
    let q = authenticated_request(Method::Post, "https://x/y", Scheme::Token, "abc", Some(vec![1, 2]));
    assert_eq!(q.method, Method::Post);
    assert_eq!(q.url, "https://x/y");
    assert_eq!(
        q.headers,
        vec![
            "Authorization: token abc".to_string(),
            "User-Agent: Github App - Rust".to_string(),
            "Accept: application/vnd.github.machine-man-preview+json".to_string(),
        ]
    );
    assert_eq!(q.body, Some(vec![1, 2]));
}

#[test]
fn endpoint_urls() {
    assert_eq!(installations_url(), "https://api.github.com/app/installations");
    assert_eq!(installation_url(42), "https://api.github.com/app/installations/42");
    assert_eq!(installation_url(0), "https://api.github.com/app/installations/0");
    assert_eq!(pull_request_url("o/r/pulls/7"), "https://api.github.com/repos/o/r/pulls/7");
}

#[test]
fn decimal_notation() {
    assert_eq!(decimal_string(0), "0");
    assert_eq!(decimal_string(9), "9");
    assert_eq!(decimal_string(10), "10");
    assert_eq!(decimal_string(u64::MAX), "18446744073709551615");
}

#[test]
fn pull_request_listing_urls() {
    let template = "https://api.github.com/repos/o/r/pulls{/number}";
    assert_eq!(
        pull_requests_url(template, Some(PullRequestState::Open)),
        "https://api.github.com/repos/o/r/pulls?&state=open"
    );
    assert_eq!(
        pull_requests_url(template, Some(PullRequestState::Closed)),
        "https://api.github.com/repos/o/r/pulls?&state=closed"
    );
    assert_eq!(pull_requests_url(template, None), "https://api.github.com/repos/o/r/pulls?&state=all");
}

#[test]
fn status_context_defaults() {
    assert_eq!(default_context(), "default");
}

#[test]
fn first_status_of_context_is_returned() {
    let statuses = vec![
        status(State::Success, "build", "first"),
        status(State::Pending, "ci", "second"),
        status(State::Failure, "ci", "third"),
    ];
    let found = last_status_for_context(statuses, "ci").unwrap();
    assert_eq!(found.state, State::Pending);
    assert_eq!(found.description, "second");
}

#[test]
fn pending_status_set_for_ci_is_found() {
    let statuses = vec![status(State::Pending, "ci", "set")];
    let found = last_status_for_context(statuses, "ci").unwrap();
    assert_eq!(found.state, State::Pending);
    assert_eq!(found.context, "ci");
}

#[test]
fn missing_context_gives_none() {
    let statuses = vec![status(State::Error, "build", "x")];
    assert!(last_status_for_context(statuses, "ci").is_none());
    assert!(last_status_for_context(Vec::new(), "ci").is_none());
}

#[test]
fn only_success_statuses_yield_a_body() {
    assert_eq!(response_body(200, vec![1]), Ok(vec![1]));
    assert_eq!(response_body(299, vec![]), Ok(vec![]));
    assert_eq!(response_body(199, vec![1]), Err(GithubError::TransportError));
    assert_eq!(response_body(300, vec![1]), Err(GithubError::TransportError));
    assert_eq!(response_body(401, vec![1]), Err(GithubError::TransportError));
}
