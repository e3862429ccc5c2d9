use linear_sync::client::{
    check_issue_state, created_comment_of, created_issue_of, first_user, payload, read_reply,
    reply_data, team_nodes_of, user_nodes_of, viewer_of, CREATE_COMMENT_QUERY,
    CREATE_ISSUE_QUERY, SET_ISSUE_STATE_QUERY, TEAMS_QUERY, UPDATE_COMMENT_QUERY,
    UPDATE_ISSUE_QUERY, USER_BY_EMAIL_QUERY, VIEWER_QUERY,
};
use linear_sync::json::{parse_json, Json};
use linear_sync::{ApiError, ApiRequest, LinearClient, LinearUser};

fn client() -> LinearClient {
    LinearClient::new("secret".to_string())
}

/// Checks what all requests have in common and gives the variables as text.
fn variables(request: ApiRequest, query: &str) -> String {
    assert_eq!(request.url, "https://api.linear.app/graphql");
    assert_eq!(request.authorization, "secret");
    assert_eq!(request.content_type, "application/json");
    let body = parse_json(&request.body).unwrap();
    assert_eq!(body.member_text("query"), Some(query));
    body.into_member("variables").print()
}

#[test]
fn viewer_request() {
    let request = client().get_viewer();
    assert_eq!(
        request.body,
        r#"{"query":"{ viewer { id name email } }","variables":{}}"#
    );
    assert_eq!(variables(request, VIEWER_QUERY), "{}");
}

#[test]
fn user_request() {
    let request = client().find_user_by_email("a\"b@c.d");
    assert_eq!(variables(request, USER_BY_EMAIL_QUERY), r#"{"email":"a\"b@c.d"}"#);
}

#[test]
fn teams_request() {
    assert_eq!(variables(client().get_teams(), TEAMS_QUERY), "{}");
}

#[test]
fn create_issue_request() {
    let request = client().create_issue("T", Some("D"), "team", "me");
    assert_eq!(
        variables(request, CREATE_ISSUE_QUERY),
        r#"{"assigneeId":"me","description":"D","teamId":"team","title":"T"}"#
    );
    let request = client().create_issue("T", None, "team", "me");
    assert_eq!(
        variables(request, CREATE_ISSUE_QUERY),
        r#"{"assigneeId":"me","description":null,"teamId":"team","title":"T"}"#
    );
}

#[test]
fn update_issue_request() {
    let request = client().update_issue("i", Some("T"), None);
    assert_eq!(
        variables(request, UPDATE_ISSUE_QUERY),
        r#"{"description":null,"id":"i","title":"T"}"#
    );
    let request = client().update_issue("i", None, Some("D"));
    assert_eq!(
        variables(request, UPDATE_ISSUE_QUERY),
        r#"{"description":"D","id":"i","title":null}"#
    );
}

#[test]
fn state_and_comment_requests() {
    assert_eq!(
        variables(client().set_issue_state("i", "s"), SET_ISSUE_STATE_QUERY),
        r#"{"id":"i","stateId":"s"}"#
    );
    assert_eq!(
        variables(client().create_comment("i", "hello"), CREATE_COMMENT_QUERY),
        r#"{"body":"hello","issueId":"i"}"#
    );
    assert_eq!(
        variables(client().update_comment("c", "hello"), UPDATE_COMMENT_QUERY),
        r#"{"body":"hello","id":"c"}"#
    );
}

#[test]
fn queries_ask_for_what_is_read() {
    assert!(TEAMS_QUERY.contains("teams { nodes { id name states { nodes { id name type } } } }"));
    assert!(CREATE_ISSUE_QUERY.contains("issue { id identifier url }"));
    assert!(CREATE_COMMENT_QUERY.contains("comment { id }"));
    assert!(SET_ISSUE_STATE_QUERY.contains("issueUpdate(id: $id, input: { stateId: $stateId })"));
    assert!(USER_BY_EMAIL_QUERY.contains("users(filter: { email: { eq: $email } })"));
    assert!(UPDATE_COMMENT_QUERY.contains("commentUpdate(id: $id, input: { body: $body })"));
}

#[test]
fn payload_holds_query_and_variables() {
    let json = payload("q", Json::string("v"));
    assert_eq!(json.print(), r#"{"query":"q","variables":"v"}"#);
}

#[test]
fn reply_with_data() {
    let data = read_reply(br#"{"data":{"viewer":{"id":"1"}}}"#).unwrap();
    assert_eq!(viewer_of(data).print(), r#"{"id":"1"}"#);
}

#[test]
fn reply_without_data_is_null() {
    assert_eq!(read_reply(b"{}").unwrap(), Json::Null);
    assert_eq!(read_reply(b"[1]").unwrap(), Json::Null);
}

#[test]
fn reply_with_errors_is_refused() {
    let error = read_reply(br#"{"data":{"x":1},"errors":[{"message":"no"}]}"#).unwrap_err();
    assert_eq!(error.message(), r#"Linear API error: [{"message":"no"}]"#);
    assert!(matches!(error, ApiError::Refused(_)));
    let body = parse_json(r#"{"errors":null,"data":1}"#).unwrap();
    assert_eq!(reply_data(body).unwrap_err().message(), "Linear API error: null");
}

#[test]
fn reply_that_is_no_json() {
    let error = read_reply(b"<html>").unwrap_err();
    assert!(matches!(error, ApiError::Undecodable(_)));
    assert_eq!(error.message(), "Failed to decode Linear response");
}

#[test]
fn parts_of_replies() {
    let read = |text: &str| parse_json(text).unwrap();
    assert_eq!(user_nodes_of(read(r#"{"users":{"nodes":[1]}}"#)).print(), "[1]");
    assert_eq!(team_nodes_of(read(r#"{"teams":{"nodes":[2]}}"#)).print(), "[2]");
    assert_eq!(created_issue_of(read(r#"{"issueCreate":{"issue":{"id":"i"}}}"#)).print(), r#"{"id":"i"}"#);
    assert_eq!(created_comment_of(read(r#"{"commentCreate":{"comment":3}}"#)).print(), "3");
    assert_eq!(created_comment_of(read(r#"{"commentCreate":null}"#)), Json::Null);
}

#[test]
fn moved_issue_must_say_so() {
    let read = |text: &str| parse_json(text).unwrap();
    assert!(check_issue_state(read(r#"{"issueUpdate":{"success":true}}"#)).is_ok());
    for text in [
        r#"{"issueUpdate":{"success":false}}"#,
        r#"{"issueUpdate":{"success":"true"}}"#,
        r#"{"issueUpdate":{}}"#,
        "null",
    ] {
        let error = check_issue_state(read(text)).unwrap_err();
        assert_eq!(error.message(), "issueUpdate returned success=false");
    }
}

#[test]
fn first_user_is_picked() {
    let user = |id: &str| LinearUser {
        id: id.to_string(),
        name: "n".to_string(),
        email: "e".to_string(),
    };
    assert_eq!(first_user(vec![user("1"), user("2"), user("3")]), Some(user("1")));
    assert_eq!(first_user(vec![]), None);
}
