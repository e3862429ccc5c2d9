//! The requests that Linear is sent, and what its replies mean.
use crate::json::{
    json_of_bytes, json_of_text, nesting_limit, optional_view, parse_json_bytes, text_of_json,
    Json, JsonView,
};
use crate::model::LinearUser;
use crate::text::{contains_text, optional_str};
use vstd::prelude::*;

verus! {

/// Where requests go.
pub const LINEAR_API: &'static str = "https://api.linear.app/graphql";

/// The content type of every request.
pub const CONTENT_TYPE: &'static str = "application/json";

/// Asks who the token belongs to.
pub const VIEWER_QUERY: &'static str = "{ viewer { id name email } }";

/// Asks for the users with an email address.
pub const USER_BY_EMAIL_QUERY: &'static str = r#"
            query($email: String!) {
                users(filter: { email: { eq: $email } }) {
                    nodes { id name email }
                }
            }
        "#;

/// Asks for all teams with their states.
pub const TEAMS_QUERY: &'static str = r#"
            { teams { nodes { id name states { nodes { id name type } } } } }
        "#;

/// Creates an issue.
pub const CREATE_ISSUE_QUERY: &'static str = r#"
            mutation($title: String!, $teamId: String!, $assigneeId: String, $description: String) {
                issueCreate(input: {
                    title: $title
                    teamId: $teamId
                    assigneeId: $assigneeId
                    description: $description
                }) {
                    success
                    issue { id identifier url }
                }
            }
        "#;

/// Changes the title or the description of an issue.
pub const UPDATE_ISSUE_QUERY: &'static str = r#"
            mutation($id: String!, $title: String, $description: String) {
                issueUpdate(id: $id, input: { title: $title, description: $description }) {
                    success
                }
            }
        "#;

/// Moves an issue to a state.
pub const SET_ISSUE_STATE_QUERY: &'static str = r#"
            mutation($id: String!, $stateId: String!) {
                issueUpdate(id: $id, input: { stateId: $stateId }) {
                    success
                }
            }
        "#;

/// Adds a comment to an issue.
pub const CREATE_COMMENT_QUERY: &'static str = r#"
            mutation($issueId: String!, $body: String!) {
                commentCreate(input: { issueId: $issueId, body: $body }) {
                    success
                    comment { id }
                }
            }
        "#;

/// Changes the body of a comment.
pub const UPDATE_COMMENT_QUERY: &'static str = r#"
            mutation($id: String!, $body: String!) {
                commentUpdate(id: $id, input: { body: $body }) {
                    success
                }
            }
        "#;

/// A request, ready to be posted.
#[derive(Debug, PartialEq, Eq)]
pub struct ApiRequest {
    pub url: String,
    pub authorization: String,
    pub content_type: String,
    pub body: String,
}

/// What a request holds.
pub struct ApiRequestView {
    pub url: Seq<char>,
    pub authorization: Seq<char>,
    pub content_type: Seq<char>,
    pub body: Seq<char>,
}

impl View for ApiRequest {
    type V = ApiRequestView;

    open spec fn view(&self) -> ApiRequestView {
        ApiRequestView {
            url: self.url@,
            authorization: self.authorization@,
            content_type: self.content_type@,
            body: self.body@,
        }
    }
}

/// An object without members.
pub open spec fn no_variables() -> JsonView {
    JsonView::Object(Map::empty())
}

/// The object that a request carries.
pub open spec fn payload_view(query: Seq<char>, variables: JsonView) -> JsonView {
    no_variables().with("query"@, JsonView::Text(query)).with("variables"@, variables)
}

/// The request that posts a query with its variables.
pub open spec fn request_view(
    token: Seq<char>,
    query: Seq<char>,
    variables: JsonView,
) -> ApiRequestView {
    ApiRequestView {
        url: LINEAR_API@,
        authorization: token,
        content_type: CONTENT_TYPE@,
        body: text_of_json(payload_view(query, variables)),
    }
}

/// The variables that look a user up.
pub open spec fn email_variables(email: Seq<char>) -> JsonView {
    no_variables().with("email"@, JsonView::Text(email))
}

/// The variables that create an issue.
pub open spec fn create_issue_variables(
    title: Seq<char>,
    description: Option<Seq<char>>,
    team_id: Seq<char>,
    assignee_id: Seq<char>,
) -> JsonView {
    no_variables().with("title"@, JsonView::Text(title)).with(
        "teamId"@,
        JsonView::Text(team_id),
    ).with("assigneeId"@, JsonView::Text(assignee_id)).with(
        "description"@,
        optional_view(description),
    )
}

/// The variables that change an issue.
pub open spec fn update_issue_variables(
    issue_id: Seq<char>,
    title: Option<Seq<char>>,
    description: Option<Seq<char>>,
) -> JsonView {
    no_variables().with("id"@, JsonView::Text(issue_id)).with(
        "title"@,
        optional_view(title),
    ).with("description"@, optional_view(description))
}

/// The variables that move an issue.
pub open spec fn issue_state_variables(issue_id: Seq<char>, state_id: Seq<char>) -> JsonView {
    no_variables().with("id"@, JsonView::Text(issue_id)).with(
        "stateId"@,
        JsonView::Text(state_id),
    )
}

/// The variables that add a comment.
pub open spec fn create_comment_variables(issue_id: Seq<char>, body: Seq<char>) -> JsonView {
    no_variables().with("issueId"@, JsonView::Text(issue_id)).with(
        "body"@,
        JsonView::Text(body),
    )
}

/// The variables that change a comment.
pub open spec fn update_comment_variables(comment_id: Seq<char>, body: Seq<char>) -> JsonView {
    no_variables().with("id"@, JsonView::Text(comment_id)).with("body"@, JsonView::Text(body))
}

/// Whether `request` posts `query` with `variables`: it is the request that does, and reading
/// its body back gives the two.
pub open spec fn posts(
    request: ApiRequest,
    token: Seq<char>,
    query: Seq<char>,
    variables: JsonView,
) -> bool {
    &&& request@ == request_view(token, query, variables)
    &&& json_of_text(request.body@) == Some(payload_view(query, variables))
}

/// Whether `variables` is an object of strings and nulls.
spec fn is_flat(variables: JsonView) -> bool {
    variables matches JsonView::Object(members) && forall|name: Seq<char>|
        members.contains_key(name) ==> (#[trigger] members[name] is Text || members[name] is Null)
}

proof fn lemma_payload_is_plain(query: Seq<char>, variables: JsonView)
    requires
        variables.is_plain((nesting_limit() - 1) as nat),
    ensures
        payload_view(query, variables).is_plain(nesting_limit()),
{
    assert(JsonView::Text(query).is_plain((nesting_limit() - 1) as nat));
}

proof fn lemma_flat_is_plain(variables: JsonView)
    requires
        is_flat(variables),
    ensures
        variables.is_plain((nesting_limit() - 1) as nat),
{
    let members = variables->Object_0;
    assert forall|name: Seq<char>| members.contains_key(name) implies (
    #[trigger] members[name]).is_plain((nesting_limit() - 2) as nat) by {
        assert(members[name] is Text || members[name] is Null);
    }
}

/// Makes the object that a request carries.
pub fn payload(query: &str, variables: Json) -> (r: Json)
    ensures
        r@ == payload_view(query@, variables@),
{
    Json::object().with("query", Json::string(query)).with("variables", variables)
}

/// Makes the requests of one token.
#[derive(Debug)]
pub struct LinearClient {
    token: String,
}

impl LinearClient {
    /// The token that goes into every request.
    pub closed spec fn token(&self) -> Seq<char> {
        self.token@
    }

    /// A client for `token`.
    pub fn new(token: String) -> (r: Self)
        ensures
            r.token() == token@,
    {
        LinearClient { token }
    }

    /// The request that posts `query` with `variables`. Reading the body back gives the query
    /// and the variables, if these hold no number and do not nest too deep.
    pub fn graphql(&self, query: &str, variables: Json) -> (r: ApiRequest)
        ensures
            r@ == request_view(self.token(), query@, variables@),
            variables@.is_plain((nesting_limit() - 1) as nat) ==> json_of_text(r.body@) == Some(
                payload_view(query@, variables@),
            ),
    {
        proof {
            if variables@.is_plain((nesting_limit() - 1) as nat) {
                lemma_payload_is_plain(query@, variables@);
            }
        }
        ApiRequest {
            url: LINEAR_API.to_owned(),
            authorization: self.token.clone(),
            content_type: CONTENT_TYPE.to_owned(),
            body: payload(query, variables).print(),
        }
    }

    /// Asks who the token belongs to; [`viewer_of`] reads the reply.
    pub fn get_viewer(&self) -> (r: ApiRequest)
        ensures
            posts(r, self.token(), VIEWER_QUERY@, no_variables()),
    {
        let variables = Json::object();
        proof {
            lemma_flat_is_plain(variables@);
        }
        self.graphql(VIEWER_QUERY, variables)
    }

    /// Asks for the users with the address `email`; [`user_nodes_of`] reads the reply and
    /// [`first_user`] picks the user.
    pub fn find_user_by_email(&self, email: &str) -> (r: ApiRequest)
        ensures
            posts(r, self.token(), USER_BY_EMAIL_QUERY@, email_variables(email@)),
    {
        let variables = Json::object().with("email", Json::string(email));
        proof {
            lemma_flat_is_plain(variables@);
        }
        self.graphql(USER_BY_EMAIL_QUERY, variables)
    }

    /// Asks for all teams; [`team_nodes_of`] reads the reply.
    pub fn get_teams(&self) -> (r: ApiRequest)
        ensures
            posts(r, self.token(), TEAMS_QUERY@, no_variables()),
    {
        let variables = Json::object();
        proof {
            lemma_flat_is_plain(variables@);
        }
        self.graphql(TEAMS_QUERY, variables)
    }

    /// Creates an issue; [`created_issue_of`] reads the reply.
    pub fn create_issue(
        &self,
        title: &str,
        description: Option<&str>,
        team_id: &str,
        assignee_id: &str,
    ) -> (r: ApiRequest)
        ensures
            posts(
                r,
                self.token(),
                CREATE_ISSUE_QUERY@,
                create_issue_variables(
                    title@,
                    optional_str(description),
                    team_id@,
                    assignee_id@,
                ),
            ),
    {
        let variables = Json::object().with("title", Json::string(title)).with(
            "teamId",
            Json::string(team_id),
        ).with("assigneeId", Json::string(assignee_id)).with(
            "description",
            Json::optional_string(description),
        );
        proof {
            lemma_flat_is_plain(variables@);
        }
        self.graphql(CREATE_ISSUE_QUERY, variables)
    }

    /// Changes the title or the description of an issue; what is `None` goes out as null.
    pub fn update_issue(
        &self,
        issue_id: &str,
        title: Option<&str>,
        description: Option<&str>,
    ) -> (r: ApiRequest)
        ensures
            posts(
                r,
                self.token(),
                UPDATE_ISSUE_QUERY@,
                update_issue_variables(issue_id@, optional_str(title), optional_str(description)),
            ),
    {
        let variables = Json::object().with("id", Json::string(issue_id)).with(
            "title",
            Json::optional_string(title),
        ).with("description", Json::optional_string(description));
        proof {
            lemma_flat_is_plain(variables@);
        }
        self.graphql(UPDATE_ISSUE_QUERY, variables)
    }

    /// Moves an issue to a state; [`check_issue_state`] reads the reply.
    pub fn set_issue_state(&self, issue_id: &str, state_id: &str) -> (r: ApiRequest)
        ensures
            posts(
                r,
                self.token(),
                SET_ISSUE_STATE_QUERY@,
                issue_state_variables(issue_id@, state_id@),
            ),
    {
        let variables = Json::object().with("id", Json::string(issue_id)).with(
            "stateId",
            Json::string(state_id),
        );
        proof {
            lemma_flat_is_plain(variables@);
        }
        self.graphql(SET_ISSUE_STATE_QUERY, variables)
    }

    /// Adds a comment to an issue; [`created_comment_of`] reads the reply.
    pub fn create_comment(&self, issue_id: &str, body: &str) -> (r: ApiRequest)
        ensures
            posts(
                r,
                self.token(),
                CREATE_COMMENT_QUERY@,
                create_comment_variables(issue_id@, body@),
            ),
    {
        let variables = Json::object().with("issueId", Json::string(issue_id)).with(
            "body",
            Json::string(body),
        );
        proof {
            lemma_flat_is_plain(variables@);
        }
        self.graphql(CREATE_COMMENT_QUERY, variables)
    }

    /// Changes the body of a comment.
    pub fn update_comment(&self, comment_id: &str, body: &str) -> (r: ApiRequest)
        ensures
            posts(
                r,
                self.token(),
                UPDATE_COMMENT_QUERY@,
                update_comment_variables(comment_id@, body@),
            ),
    {
        let variables = Json::object().with("id", Json::string(comment_id)).with(
            "body",
            Json::string(body),
        );
        proof {
            lemma_flat_is_plain(variables@);
        }
        self.graphql(UPDATE_COMMENT_QUERY, variables)
    }
}

/// Why a reply is no answer.
#[derive(Debug)]
pub enum ApiError {
    /// The reply is no JSON.
    Undecodable(serde_json::Error),
    /// The reply reports errors; their JSON text.
    Refused(String),
    /// An issue was not moved.
    NotUpdated,
}

impl ApiError {
    /// The text of [`ApiError::message`].
    pub open spec fn message_text(self) -> Seq<char> {
        match self {
            ApiError::Undecodable(_) => "Failed to decode Linear response"@,
            ApiError::Refused(errors) => "Linear API error: "@ + errors@,
            ApiError::NotUpdated => "issueUpdate returned success=false"@,
        }
    }

    /// What the user is told.
    pub fn message(&self) -> (r: String)
        ensures
            r@ == self.message_text(),
    {
        match self {
            ApiError::Undecodable(_) => "Failed to decode Linear response".to_owned(),
            ApiError::Refused(errors) => "Linear API error: ".to_owned().concat(
                errors.as_str(),
            ),
            ApiError::NotUpdated => "issueUpdate returned success=false".to_owned(),
        }
    }
}

/// Whether `r` is what a reply with the body `body` means: its errors, if it has the member,
/// and otherwise its data.
pub open spec fn is_reply_data(body: JsonView, r: Result<Json, ApiError>) -> bool {
    match body.get("errors"@) {
        Some(errors) => r matches Err(ApiError::Refused(text)) && text@ == text_of_json(errors),
        None => r matches Ok(data) && data@ == body.member("data"@),
    }
}

/// Takes the data out of the body of a reply.
pub fn reply_data(body: Json) -> (r: Result<Json, ApiError>)
    ensures
        is_reply_data(body@, r),
{
    if body.get("errors").is_some() {
        Err(ApiError::Refused(body.into_member("errors").print()))
    } else {
        Ok(body.into_member("data"))
    }
}

/// Reads a reply.
pub fn read_reply(bytes: &[u8]) -> (r: Result<Json, ApiError>)
    ensures
        match json_of_bytes(bytes@) {
            Some(body) => is_reply_data(body, r),
            None => r matches Err(ApiError::Undecodable(_)),
        },
{
    match parse_json_bytes(bytes) {
        Ok(body) => reply_data(body),
        Err(error) => Err(ApiError::Undecodable(error)),
    }
}

/// The user in the data of a reply to [`LinearClient::get_viewer`].
pub fn viewer_of(data: Json) -> (r: Json)
    ensures
        r@ == data@.member("viewer"@),
{
    data.into_member("viewer")
}

/// The users in the data of a reply to [`LinearClient::find_user_by_email`].
pub fn user_nodes_of(data: Json) -> (r: Json)
    ensures
        r@ == data@.member("users"@).member("nodes"@),
{
    data.into_member("users").into_member("nodes")
}

/// The first user, if there is one.
pub fn first_user(users: Vec<LinearUser>) -> (r: Option<LinearUser>)
    ensures
        match r {
            Some(user) => users@.len() > 0 && user == users@[0],
            None => users@.len() == 0,
        },
{
    let mut rest = users;
    if rest.len() == 0 {
        None
    } else {
        Some(rest.swap_remove(0))
    }
}

/// The teams in the data of a reply to [`LinearClient::get_teams`].
pub fn team_nodes_of(data: Json) -> (r: Json)
    ensures
        r@ == data@.member("teams"@).member("nodes"@),
{
    data.into_member("teams").into_member("nodes")
}

/// The issue in the data of a reply to [`LinearClient::create_issue`].
pub fn created_issue_of(data: Json) -> (r: Json)
    ensures
        r@ == data@.member("issueCreate"@).member("issue"@),
{
    data.into_member("issueCreate").into_member("issue")
}

/// The comment in the data of a reply to [`LinearClient::create_comment`].
pub fn created_comment_of(data: Json) -> (r: Json)
    ensures
        r@ == data@.member("commentCreate"@).member("comment"@),
{
    data.into_member("commentCreate").into_member("comment")
}

/// Whether the data of a reply to [`LinearClient::set_issue_state`] says that it was done.
pub fn check_issue_state(data: Json) -> (r: Result<(), ApiError>)
    ensures
        match r {
            Ok(_) => data@.member("issueUpdate"@).member("success"@) == JsonView::Bool(true),
            Err(error) => error is NotUpdated && data@.member("issueUpdate"@).member("success"@)
                != JsonView::Bool(true),
        },
{
    match data.into_member("issueUpdate").into_member("success") {
        Json::Bool(true) => Ok(()),
        _ => Err(ApiError::NotUpdated),
    }
}

// ---- laws ----

/// What a request asks.
pub open spec fn sent_query(request: ApiRequest) -> Option<JsonView> {
    match json_of_text(request.body@) {
        Some(payload) => payload.get("query"@),
        None => None,
    }
}

/// A variable that goes with it.
pub open spec fn sent_variable(request: ApiRequest, name: Seq<char>) -> Option<JsonView> {
    match json_of_text(request.body@) {
        Some(payload) => match payload.get("variables"@) {
            Some(variables) => variables.get(name),
            None => None,
        },
        None => None,
    }
}

/// Whether a request goes to Linear in the name of a token and asks this, in JSON.
pub open spec fn is_sent(request: ApiRequest, token: Seq<char>, query: Seq<char>) -> bool {
    &&& request.url@ == "https://api.linear.app/graphql"@
    &&& request.content_type@ == "application/json"@
    &&& request.authorization@ == token
    &&& sent_query(request) == Some(JsonView::Text(query))
}

/// Whether a query declares the variable `name` as text and hands it on under its own name.
pub open spec fn takes_variable(query: Seq<char>, name: Seq<char>) -> bool {
    &&& contains_text(query, "$"@ + name + ": String"@)
    &&& contains_text(query, name + ": $"@ + name)
}

/// The names in a request differ in length, where they stand side by side.
pub proof fn lemma_name_lengths()
    ensures
        "query"@.len() == 5,
        "variables"@.len() == 9,
        "email"@.len() == 5,
        "title"@.len() == 5,
        "teamId"@.len() == 6,
        "assigneeId"@.len() == 10,
        "description"@.len() == 11,
        "id"@.len() == 2,
        "stateId"@.len() == 7,
        "issueId"@.len() == 7,
        "body"@.len() == 4,
{
    reveal_strlit("query");
    reveal_strlit("variables");
    reveal_strlit("email");
    reveal_strlit("title");
    reveal_strlit("teamId");
    reveal_strlit("assigneeId");
    reveal_strlit("description");
    reveal_strlit("id");
    reveal_strlit("stateId");
    reveal_strlit("issueId");
    reveal_strlit("body");
}

proof fn lemma_stands_at(text: Seq<char>, part: Seq<char>, i: int)
    requires
        0 <= i,
        i + part.len() <= text.len(),
        text.subrange(i, i + part.len()) == part,
    ensures
        contains_text(text, part),
{
}

/// The token that a client is made with is the one that it uses.
pub proof fn law_client_uses_its_token(token: String, client: LinearClient)
    requires
        call_ensures(LinearClient::new, (token,), client),
    ensures
        client.token() == token@,
{
}

/// The question who the token belongs to goes out without variables.
pub proof fn law_viewer_is_asked_for(
    client: &LinearClient,
    r: ApiRequest,
    name: Seq<char>,
)
    requires
        call_ensures(LinearClient::get_viewer, (client,), r),
    ensures
        is_sent(r, client.token(), "{ viewer { id name email } }"@),
        sent_variable(r, name) is None,
{
    lemma_name_lengths();
}

proof fn lemma_user_by_email_takes()
    ensures
        contains_text(USER_BY_EMAIL_QUERY@, "$email: String"@),
        contains_text(USER_BY_EMAIL_QUERY@, "users(filter: { email: { eq: $email } })"@),
        contains_text(USER_BY_EMAIL_QUERY@, "nodes { id name email }"@),
{
    reveal_strlit(r#"
            query($email: String!) {
                users(filter: { email: { eq: $email } }) {
                    nodes { id name email }
                }
            }
        "#);
    reveal_strlit("$email: String");
    reveal_strlit("users(filter: { email: { eq: $email } })");
    reveal_strlit("nodes { id name email }");
    assert(USER_BY_EMAIL_QUERY@.subrange(19, 33) =~= "$email: String"@);
    lemma_stands_at(USER_BY_EMAIL_QUERY@, "$email: String"@, 19);
    assert(USER_BY_EMAIL_QUERY@.subrange(54, 94) =~= "users(filter: { email: { eq: $email } })"@);
    lemma_stands_at(USER_BY_EMAIL_QUERY@, "users(filter: { email: { eq: $email } })"@, 54);
    assert(USER_BY_EMAIL_QUERY@.subrange(117, 140) =~= "nodes { id name email }"@);
    lemma_stands_at(USER_BY_EMAIL_QUERY@, "nodes { id name email }"@, 117);
}

/// The question for a user goes out with the address, by which the users are filtered.
pub proof fn law_user_is_asked_for(
    client: &LinearClient,
    email: &str,
    r: ApiRequest,
    name: Seq<char>,
)
    requires
        call_ensures(LinearClient::find_user_by_email, (client, email), r),
    ensures
        is_sent(r, client.token(), USER_BY_EMAIL_QUERY@),
        sent_variable(r, "email"@) == Some(JsonView::Text(email@)),
        sent_variable(r, name) is Some ==> name == "email"@,
        contains_text(USER_BY_EMAIL_QUERY@, "$email: String"@),
        contains_text(USER_BY_EMAIL_QUERY@, "users(filter: { email: { eq: $email } })"@),
        contains_text(USER_BY_EMAIL_QUERY@, "nodes { id name email }"@),
{
    lemma_name_lengths();
    lemma_user_by_email_takes();
}

proof fn lemma_teams_takes()
    ensures
        contains_text(TEAMS_QUERY@, "{ teams { nodes { id name states { nodes { id name type } } } } }"@),
{
    reveal_strlit(r#"
            { teams { nodes { id name states { nodes { id name type } } } } }
        "#);
    reveal_strlit("{ teams { nodes { id name states { nodes { id name type } } } } }");
    assert(TEAMS_QUERY@.subrange(13, 78) =~= "{ teams { nodes { id name states { nodes { id name type } } } } }"@);
    lemma_stands_at(TEAMS_QUERY@, "{ teams { nodes { id name states { nodes { id name type } } } } }"@, 13);
}

/// The question for the teams goes out without variables and names all that is read.
pub proof fn law_teams_are_asked_for(
    client: &LinearClient,
    r: ApiRequest,
    name: Seq<char>,
)
    requires
        call_ensures(LinearClient::get_teams, (client,), r),
    ensures
        is_sent(r, client.token(), TEAMS_QUERY@),
        sent_variable(r, name) is None,
        contains_text(TEAMS_QUERY@, "{ teams { nodes { id name states { nodes { id name type } } } } }"@),
{
    lemma_name_lengths();
    lemma_teams_takes();
}

proof fn lemma_create_issue_takes()
    ensures
        takes_variable(CREATE_ISSUE_QUERY@, "title"@),
        takes_variable(CREATE_ISSUE_QUERY@, "teamId"@),
        takes_variable(CREATE_ISSUE_QUERY@, "assigneeId"@),
        takes_variable(CREATE_ISSUE_QUERY@, "description"@),
        contains_text(CREATE_ISSUE_QUERY@, "issueCreate(input: {"@),
        contains_text(CREATE_ISSUE_QUERY@, "issue { id identifier url }"@),
{
    reveal_strlit(r#"
            mutation($title: String!, $teamId: String!, $assigneeId: String, $description: String) {
                issueCreate(input: {
                    title: $title
                    teamId: $teamId
                    assigneeId: $assigneeId
                    description: $description
                }) {
                    success
                    issue { id identifier url }
                }
            }
        "#);
    reveal_strlit("$");
    reveal_strlit(": String");
    reveal_strlit(": $");
    reveal_strlit("title");
    reveal_strlit("teamId");
    reveal_strlit("assigneeId");
    reveal_strlit("description");
    reveal_strlit("issueCreate(input: {");
    reveal_strlit("issue { id identifier url }");
    assert(CREATE_ISSUE_QUERY@.subrange(22, 36) =~= "$"@ + "title"@ + ": String"@);
    lemma_stands_at(CREATE_ISSUE_QUERY@, "$"@ + "title"@ + ": String"@, 22);
    assert(CREATE_ISSUE_QUERY@.subrange(159, 172) =~= "title"@ + ": $"@ + "title"@);
    lemma_stands_at(CREATE_ISSUE_QUERY@, "title"@ + ": $"@ + "title"@, 159);
    assert(CREATE_ISSUE_QUERY@.subrange(39, 54) =~= "$"@ + "teamId"@ + ": String"@);
    lemma_stands_at(CREATE_ISSUE_QUERY@, "$"@ + "teamId"@ + ": String"@, 39);
    assert(CREATE_ISSUE_QUERY@.subrange(193, 208) =~= "teamId"@ + ": $"@ + "teamId"@);
    lemma_stands_at(CREATE_ISSUE_QUERY@, "teamId"@ + ": $"@ + "teamId"@, 193);
    assert(CREATE_ISSUE_QUERY@.subrange(57, 76) =~= "$"@ + "assigneeId"@ + ": String"@);
    lemma_stands_at(CREATE_ISSUE_QUERY@, "$"@ + "assigneeId"@ + ": String"@, 57);
    assert(CREATE_ISSUE_QUERY@.subrange(229, 252) =~= "assigneeId"@ + ": $"@ + "assigneeId"@);
    lemma_stands_at(CREATE_ISSUE_QUERY@, "assigneeId"@ + ": $"@ + "assigneeId"@, 229);
    assert(CREATE_ISSUE_QUERY@.subrange(78, 98) =~= "$"@ + "description"@ + ": String"@);
    lemma_stands_at(CREATE_ISSUE_QUERY@, "$"@ + "description"@ + ": String"@, 78);
    assert(CREATE_ISSUE_QUERY@.subrange(273, 298) =~= "description"@ + ": $"@ + "description"@);
    lemma_stands_at(CREATE_ISSUE_QUERY@, "description"@ + ": $"@ + "description"@, 273);
    assert(CREATE_ISSUE_QUERY@.subrange(118, 138) =~= "issueCreate(input: {"@);
    lemma_stands_at(CREATE_ISSUE_QUERY@, "issueCreate(input: {"@, 118);
    assert(CREATE_ISSUE_QUERY@.subrange(368, 395) =~= "issue { id identifier url }"@);
    lemma_stands_at(CREATE_ISSUE_QUERY@, "issue { id identifier url }"@, 368);
}

/// An issue is asked for with the title, the description, the team and the assignee, each under
/// its own name; without a description it goes out as null. The query takes each of them.
pub proof fn law_issue_is_asked_for(
    client: &LinearClient,
    title: &str,
    description: Option<&str>,
    team_id: &str,
    assignee_id: &str,
    r: ApiRequest,
    name: Seq<char>,
)
    requires
        call_ensures(LinearClient::create_issue, (client, title, description, team_id, assignee_id), r),
    ensures
        is_sent(r, client.token(), CREATE_ISSUE_QUERY@),
        sent_variable(r, "title"@) == Some(JsonView::Text(title@)),
        sent_variable(r, "teamId"@) == Some(JsonView::Text(team_id@)),
        sent_variable(r, "assigneeId"@) == Some(JsonView::Text(assignee_id@)),
        sent_variable(r, "description"@) == Some(match description { Some(t) => JsonView::Text(t@), None => JsonView::Null }),
        sent_variable(r, name) is Some ==> name == "title"@ || name == "teamId"@ || name == "assigneeId"@ || name == "description"@,
        sent_variable(r, name) is Some ==> takes_variable(CREATE_ISSUE_QUERY@, name),
        contains_text(CREATE_ISSUE_QUERY@, "issueCreate(input: {"@),
        contains_text(CREATE_ISSUE_QUERY@, "issue { id identifier url }"@),
{
    lemma_name_lengths();
    lemma_create_issue_takes();
}

proof fn lemma_update_issue_takes()
    ensures
        takes_variable(UPDATE_ISSUE_QUERY@, "id"@),
        takes_variable(UPDATE_ISSUE_QUERY@, "title"@),
        takes_variable(UPDATE_ISSUE_QUERY@, "description"@),
        contains_text(UPDATE_ISSUE_QUERY@, "issueUpdate(id: $id, input: { title: $title, description: $description })"@),
{
    reveal_strlit(r#"
            mutation($id: String!, $title: String, $description: String) {
                issueUpdate(id: $id, input: { title: $title, description: $description }) {
                    success
                }
            }
        "#);
    reveal_strlit("$");
    reveal_strlit(": String");
    reveal_strlit(": $");
    reveal_strlit("id");
    reveal_strlit("title");
    reveal_strlit("description");
    reveal_strlit("issueUpdate(id: $id, input: { title: $title, description: $description })");
    assert(UPDATE_ISSUE_QUERY@.subrange(22, 33) =~= "$"@ + "id"@ + ": String"@);
    lemma_stands_at(UPDATE_ISSUE_QUERY@, "$"@ + "id"@ + ": String"@, 22);
    assert(UPDATE_ISSUE_QUERY@.subrange(104, 111) =~= "id"@ + ": $"@ + "id"@);
    lemma_stands_at(UPDATE_ISSUE_QUERY@, "id"@ + ": $"@ + "id"@, 104);
    assert(UPDATE_ISSUE_QUERY@.subrange(36, 50) =~= "$"@ + "title"@ + ": String"@);
    lemma_stands_at(UPDATE_ISSUE_QUERY@, "$"@ + "title"@ + ": String"@, 36);
    assert(UPDATE_ISSUE_QUERY@.subrange(122, 135) =~= "title"@ + ": $"@ + "title"@);
    lemma_stands_at(UPDATE_ISSUE_QUERY@, "title"@ + ": $"@ + "title"@, 122);
    assert(UPDATE_ISSUE_QUERY@.subrange(52, 72) =~= "$"@ + "description"@ + ": String"@);
    lemma_stands_at(UPDATE_ISSUE_QUERY@, "$"@ + "description"@ + ": String"@, 52);
    assert(UPDATE_ISSUE_QUERY@.subrange(137, 162) =~= "description"@ + ": $"@ + "description"@);
    lemma_stands_at(UPDATE_ISSUE_QUERY@, "description"@ + ": $"@ + "description"@, 137);
    assert(UPDATE_ISSUE_QUERY@.subrange(92, 165) =~= "issueUpdate(id: $id, input: { title: $title, description: $description })"@);
    lemma_stands_at(UPDATE_ISSUE_QUERY@, "issueUpdate(id: $id, input: { title: $title, description: $description })"@, 92);
}

/// A change of an issue goes out with its title and description, what is left out as null, and
/// under the id of the issue. The query takes each of them.
pub proof fn law_issue_change_goes_out(
    client: &LinearClient,
    issue_id: &str,
    title: Option<&str>,
    description: Option<&str>,
    r: ApiRequest,
    name: Seq<char>,
)
    requires
        call_ensures(LinearClient::update_issue, (client, issue_id, title, description), r),
    ensures
        is_sent(r, client.token(), UPDATE_ISSUE_QUERY@),
        sent_variable(r, "id"@) == Some(JsonView::Text(issue_id@)),
        sent_variable(r, "title"@) == Some(match title { Some(t) => JsonView::Text(t@), None => JsonView::Null }),
        sent_variable(r, "description"@) == Some(match description { Some(t) => JsonView::Text(t@), None => JsonView::Null }),
        sent_variable(r, name) is Some ==> name == "id"@ || name == "title"@ || name == "description"@,
        sent_variable(r, name) is Some ==> takes_variable(UPDATE_ISSUE_QUERY@, name),
        contains_text(UPDATE_ISSUE_QUERY@, "issueUpdate(id: $id, input: { title: $title, description: $description })"@),
{
    lemma_name_lengths();
    lemma_update_issue_takes();
}

proof fn lemma_set_issue_state_takes()
    ensures
        takes_variable(SET_ISSUE_STATE_QUERY@, "id"@),
        takes_variable(SET_ISSUE_STATE_QUERY@, "stateId"@),
        contains_text(SET_ISSUE_STATE_QUERY@, "issueUpdate(id: $id, input: { stateId: $stateId })"@),
        contains_text(SET_ISSUE_STATE_QUERY@, "success"@),
{
    reveal_strlit(r#"
            mutation($id: String!, $stateId: String!) {
                issueUpdate(id: $id, input: { stateId: $stateId }) {
                    success
                }
            }
        "#);
    reveal_strlit("$");
    reveal_strlit(": String");
    reveal_strlit(": $");
    reveal_strlit("id");
    reveal_strlit("stateId");
    reveal_strlit("issueUpdate(id: $id, input: { stateId: $stateId })");
    reveal_strlit("success");
    assert(SET_ISSUE_STATE_QUERY@.subrange(22, 33) =~= "$"@ + "id"@ + ": String"@);
    lemma_stands_at(SET_ISSUE_STATE_QUERY@, "$"@ + "id"@ + ": String"@, 22);
    assert(SET_ISSUE_STATE_QUERY@.subrange(85, 92) =~= "id"@ + ": $"@ + "id"@);
    lemma_stands_at(SET_ISSUE_STATE_QUERY@, "id"@ + ": $"@ + "id"@, 85);
    assert(SET_ISSUE_STATE_QUERY@.subrange(36, 52) =~= "$"@ + "stateId"@ + ": String"@);
    lemma_stands_at(SET_ISSUE_STATE_QUERY@, "$"@ + "stateId"@ + ": String"@, 36);
    assert(SET_ISSUE_STATE_QUERY@.subrange(103, 120) =~= "stateId"@ + ": $"@ + "stateId"@);
    lemma_stands_at(SET_ISSUE_STATE_QUERY@, "stateId"@ + ": $"@ + "stateId"@, 103);
    assert(SET_ISSUE_STATE_QUERY@.subrange(73, 123) =~= "issueUpdate(id: $id, input: { stateId: $stateId })"@);
    lemma_stands_at(SET_ISSUE_STATE_QUERY@, "issueUpdate(id: $id, input: { stateId: $stateId })"@, 73);
    assert(SET_ISSUE_STATE_QUERY@.subrange(146, 153) =~= "success"@);
    lemma_stands_at(SET_ISSUE_STATE_QUERY@, "success"@, 146);
}

/// A move of an issue goes out with the ids of the issue and of the state, and the query takes
/// both and asks whether it was done.
pub proof fn law_issue_move_goes_out(
    client: &LinearClient,
    issue_id: &str,
    state_id: &str,
    r: ApiRequest,
    name: Seq<char>,
)
    requires
        call_ensures(LinearClient::set_issue_state, (client, issue_id, state_id), r),
    ensures
        is_sent(r, client.token(), SET_ISSUE_STATE_QUERY@),
        sent_variable(r, "id"@) == Some(JsonView::Text(issue_id@)),
        sent_variable(r, "stateId"@) == Some(JsonView::Text(state_id@)),
        sent_variable(r, name) is Some ==> name == "id"@ || name == "stateId"@,
        sent_variable(r, name) is Some ==> takes_variable(SET_ISSUE_STATE_QUERY@, name),
        contains_text(SET_ISSUE_STATE_QUERY@, "issueUpdate(id: $id, input: { stateId: $stateId })"@),
        contains_text(SET_ISSUE_STATE_QUERY@, "success"@),
{
    lemma_name_lengths();
    lemma_set_issue_state_takes();
}

proof fn lemma_create_comment_takes()
    ensures
        takes_variable(CREATE_COMMENT_QUERY@, "issueId"@),
        takes_variable(CREATE_COMMENT_QUERY@, "body"@),
        contains_text(CREATE_COMMENT_QUERY@, "commentCreate(input: { issueId: $issueId, body: $body })"@),
        contains_text(CREATE_COMMENT_QUERY@, "comment { id }"@),
{
    reveal_strlit(r#"
            mutation($issueId: String!, $body: String!) {
                commentCreate(input: { issueId: $issueId, body: $body }) {
                    success
                    comment { id }
                }
            }
        "#);
    reveal_strlit("$");
    reveal_strlit(": String");
    reveal_strlit(": $");
    reveal_strlit("issueId");
    reveal_strlit("body");
    reveal_strlit("commentCreate(input: { issueId: $issueId, body: $body })");
    reveal_strlit("comment { id }");
    assert(CREATE_COMMENT_QUERY@.subrange(22, 38) =~= "$"@ + "issueId"@ + ": String"@);
    lemma_stands_at(CREATE_COMMENT_QUERY@, "$"@ + "issueId"@ + ": String"@, 22);
    assert(CREATE_COMMENT_QUERY@.subrange(98, 115) =~= "issueId"@ + ": $"@ + "issueId"@);
    lemma_stands_at(CREATE_COMMENT_QUERY@, "issueId"@ + ": $"@ + "issueId"@, 98);
    assert(CREATE_COMMENT_QUERY@.subrange(41, 54) =~= "$"@ + "body"@ + ": String"@);
    lemma_stands_at(CREATE_COMMENT_QUERY@, "$"@ + "body"@ + ": String"@, 41);
    assert(CREATE_COMMENT_QUERY@.subrange(117, 128) =~= "body"@ + ": $"@ + "body"@);
    lemma_stands_at(CREATE_COMMENT_QUERY@, "body"@ + ": $"@ + "body"@, 117);
    assert(CREATE_COMMENT_QUERY@.subrange(75, 131) =~= "commentCreate(input: { issueId: $issueId, body: $body })"@);
    lemma_stands_at(CREATE_COMMENT_QUERY@, "commentCreate(input: { issueId: $issueId, body: $body })"@, 75);
    assert(CREATE_COMMENT_QUERY@.subrange(182, 196) =~= "comment { id }"@);
    lemma_stands_at(CREATE_COMMENT_QUERY@, "comment { id }"@, 182);
}

/// A comment goes out with the id of its issue and its body, and the query takes both and asks
/// for the comment.
pub proof fn law_comment_goes_out(
    client: &LinearClient,
    issue_id: &str,
    body: &str,
    r: ApiRequest,
    name: Seq<char>,
)
    requires
        call_ensures(LinearClient::create_comment, (client, issue_id, body), r),
    ensures
        is_sent(r, client.token(), CREATE_COMMENT_QUERY@),
        sent_variable(r, "issueId"@) == Some(JsonView::Text(issue_id@)),
        sent_variable(r, "body"@) == Some(JsonView::Text(body@)),
        sent_variable(r, name) is Some ==> name == "issueId"@ || name == "body"@,
        sent_variable(r, name) is Some ==> takes_variable(CREATE_COMMENT_QUERY@, name),
        contains_text(CREATE_COMMENT_QUERY@, "commentCreate(input: { issueId: $issueId, body: $body })"@),
        contains_text(CREATE_COMMENT_QUERY@, "comment { id }"@),
{
    lemma_name_lengths();
    lemma_create_comment_takes();
}

proof fn lemma_update_comment_takes()
    ensures
        takes_variable(UPDATE_COMMENT_QUERY@, "id"@),
        takes_variable(UPDATE_COMMENT_QUERY@, "body"@),
        contains_text(UPDATE_COMMENT_QUERY@, "commentUpdate(id: $id, input: { body: $body })"@),
{
    reveal_strlit(r#"
            mutation($id: String!, $body: String!) {
                commentUpdate(id: $id, input: { body: $body }) {
                    success
                }
            }
        "#);
    reveal_strlit("$");
    reveal_strlit(": String");
    reveal_strlit(": $");
    reveal_strlit("id");
    reveal_strlit("body");
    reveal_strlit("commentUpdate(id: $id, input: { body: $body })");
    assert(UPDATE_COMMENT_QUERY@.subrange(22, 33) =~= "$"@ + "id"@ + ": String"@);
    lemma_stands_at(UPDATE_COMMENT_QUERY@, "$"@ + "id"@ + ": String"@, 22);
    assert(UPDATE_COMMENT_QUERY@.subrange(84, 91) =~= "id"@ + ": $"@ + "id"@);
    lemma_stands_at(UPDATE_COMMENT_QUERY@, "id"@ + ": $"@ + "id"@, 84);
    assert(UPDATE_COMMENT_QUERY@.subrange(36, 49) =~= "$"@ + "body"@ + ": String"@);
    lemma_stands_at(UPDATE_COMMENT_QUERY@, "$"@ + "body"@ + ": String"@, 36);
    assert(UPDATE_COMMENT_QUERY@.subrange(102, 113) =~= "body"@ + ": $"@ + "body"@);
    lemma_stands_at(UPDATE_COMMENT_QUERY@, "body"@ + ": $"@ + "body"@, 102);
    assert(UPDATE_COMMENT_QUERY@.subrange(70, 116) =~= "commentUpdate(id: $id, input: { body: $body })"@);
    lemma_stands_at(UPDATE_COMMENT_QUERY@, "commentUpdate(id: $id, input: { body: $body })"@, 70);
}

/// A change of a comment goes out with the id of the comment and its body, and the query takes
/// both.
pub proof fn law_comment_change_goes_out(
    client: &LinearClient,
    comment_id: &str,
    body: &str,
    r: ApiRequest,
    name: Seq<char>,
)
    requires
        call_ensures(LinearClient::update_comment, (client, comment_id, body), r),
    ensures
        is_sent(r, client.token(), UPDATE_COMMENT_QUERY@),
        sent_variable(r, "id"@) == Some(JsonView::Text(comment_id@)),
        sent_variable(r, "body"@) == Some(JsonView::Text(body@)),
        sent_variable(r, name) is Some ==> name == "id"@ || name == "body"@,
        sent_variable(r, name) is Some ==> takes_variable(UPDATE_COMMENT_QUERY@, name),
        contains_text(UPDATE_COMMENT_QUERY@, "commentUpdate(id: $id, input: { body: $body })"@),
{
    lemma_name_lengths();
    lemma_update_comment_takes();
}

/// Any query goes out as it is, with its variables, wherever these hold no number and do not nest
/// too deep.
pub proof fn law_any_query_goes_out(
    client: &LinearClient,
    query: &str,
    variables: Json,
    r: ApiRequest,
    name: Seq<char>,
)
    requires
        call_ensures(LinearClient::graphql, (client, query, variables), r),
        variables@.is_plain(126),
    ensures
        is_sent(r, client.token(), query@),
        sent_variable(r, name) == variables@.get(name),
{
    lemma_name_lengths();
}

/// A reply with errors is refused, with all that they say; any other gives its data, or null
/// where it has none.
pub proof fn law_reply_gives_its_data(body: Json, r: Result<Json, ApiError>)
    requires
        call_ensures(reply_data, (body,), r),
    ensures
        r is Err <==> body@.get("errors"@) is Some,
        body@.get("errors"@) matches Some(errors) ==> (r matches Err(ApiError::Refused(text))
            && text@ == text_of_json(errors)),
        r matches Ok(data) ==> data@ == (match body@.get("data"@) {
            Some(value) => value,
            None => JsonView::Null,
        }),
{
}

/// The bytes of a reply are refused where they are no JSON or report errors, and otherwise give
/// their data.
pub proof fn law_reply_is_read(bytes: &[u8], r: Result<Json, ApiError>)
    requires
        call_ensures(read_reply, (bytes,), r),
    ensures
        r matches Err(ApiError::Undecodable(_)) <==> json_of_bytes(bytes@) is None,
        r is Ok <==> (json_of_bytes(bytes@) matches Some(body) && body.get("errors"@) is None),
        r matches Ok(data) ==> data@ == (match (json_of_bytes(bytes@)->0).get("data"@) {
            Some(value) => value,
            None => JsonView::Null,
        }),
        r matches Err(ApiError::Refused(text)) ==> Some(text@) == (match (json_of_bytes(
            bytes@,
        )->0).get("errors"@) {
            Some(errors) => Some(text_of_json(errors)),
            None => None,
        }),
        !(r matches Err(ApiError::NotUpdated)),
{
}

/// The member `inner` of the member `outer` of a value, and null where there is none.
pub open spec fn part_of(data: JsonView, outer: Seq<char>, inner: Seq<char>) -> JsonView {
    match data.get(outer) {
        Some(value) => match value.get(inner) {
            Some(part) => part,
            None => JsonView::Null,
        },
        None => JsonView::Null,
    }
}

/// What the data of a reply holds is taken from where the query puts it; null stands for what is
/// missing.
pub proof fn law_parts_of_replies(
    data: Json,
    viewer: Json,
    users: Json,
    teams: Json,
    issue: Json,
    comment: Json,
)
    requires
        call_ensures(viewer_of, (data,), viewer),
        call_ensures(user_nodes_of, (data,), users),
        call_ensures(team_nodes_of, (data,), teams),
        call_ensures(created_issue_of, (data,), issue),
        call_ensures(created_comment_of, (data,), comment),
    ensures
        data@.get("viewer"@) matches Some(value) ==> viewer@ == value,
        data@.get("viewer"@) is None ==> viewer@ is Null,
        users@ == part_of(data@, "users"@, "nodes"@),
        teams@ == part_of(data@, "teams"@, "nodes"@),
        issue@ == part_of(data@, "issueCreate"@, "issue"@),
        comment@ == part_of(data@, "commentCreate"@, "comment"@),
{
}

/// A move of an issue was done exactly where the reply says `true`.
pub proof fn law_move_must_be_confirmed(data: Json, r: Result<(), ApiError>)
    requires
        call_ensures(check_issue_state, (data,), r),
    ensures
        r is Ok <==> (data@.get("issueUpdate"@) matches Some(update) && update.get("success"@)
            == Some(JsonView::Bool(true))),
        r is Err ==> r->Err_0 is NotUpdated,
{
}

/// Of the users that are found the first is taken.
pub proof fn law_first_user_is_taken(users: Vec<LinearUser>, r: Option<LinearUser>)
    requires
        call_ensures(first_user, (users,), r),
    ensures
        r is None <==> users@.len() == 0,
        r is Some ==> r->0 == users@[0],
{
}

/// The user is told why a reply is no answer, and all that it reports.
pub proof fn law_api_errors_are_told(error: &ApiError, r: String)
    requires
        call_ensures(ApiError::message, (error,), r),
    ensures
        match *error {
            ApiError::Undecodable(_) => r@ == "Failed to decode Linear response"@,
            ApiError::Refused(errors) => r@ == "Linear API error: "@ + errors@,
            ApiError::NotUpdated => r@ == "issueUpdate returned success=false"@,
        },
{
}

/// The body of a request is that of an object with the query and the variables, whatever these
/// hold, and nothing else.
pub proof fn law_body_is_query_and_variables(
    client: &LinearClient,
    query: &str,
    variables: Json,
    r: ApiRequest,
    whole: Json,
    printed: String,
    name: Seq<char>,
)
    requires
        call_ensures(LinearClient::graphql, (client, query, variables), r),
        call_ensures(payload, (query, variables), whole),
        call_ensures(Json::print, (whole,), printed),
    ensures
        r.body@ == printed@,
        r.url@ == "https://api.linear.app/graphql"@,
        r.content_type@ == "application/json"@,
        r.authorization@ == client.token(),
        whole@.get("query"@) == Some(JsonView::Text(query@)),
        whole@.get("variables"@) == Some(variables@),
        name != "query"@ && name != "variables"@ ==> whole@.get(name) is None,
{
    lemma_name_lengths();
}

} // verus!
