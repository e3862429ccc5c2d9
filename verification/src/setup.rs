//! The dialogue that makes the settings.
//!
//! The dialogue is a machine: it asks for one thing at a time, gets the answer as an event,
//! and in the end hands out the settings. If the token may read, the ids are looked up;
//! otherwise they are asked for one by one.
use crate::config::{Config, ConfigView};
use crate::model::{LinearTeam, LinearUser, WorkflowState};
use crate::prompt::{
    answer_view, prompt_answer, prompt_text, prompt_view, required_text, PromptError,
};
use crate::text::{
    decimal, decimal_text, lemma_decimal_reads_back, number_value, read_number, same_text, texts,
    trim, trimmed,
};
use std::num::ParseIntError;
use vstd::pervasive::unreached;
use vstd::prelude::*;

verus! {

/// The question for the token.
pub const TOKEN_LABEL: &'static str = "API token";

/// The question for the address of the assignee.
pub const EMAIL_LABEL: &'static str = "Assignee email";

/// The question for the id of the assignee.
pub const ASSIGNEE_LABEL: &'static str =
    "Your Linear user ID  (viewer.id from the query above)";

/// The question for the id of the team.
pub const TEAM_LABEL: &'static str = "Team ID              (teams.nodes[n].id)";

/// The question for the id of the state of finished issues.
pub const DONE_LABEL: &'static str =
    "Done workflow state ID  (the node where type==\"completed\")";

/// The question for the id of the state of started issues.
pub const IN_PROGRESS_LABEL: &'static str = "In-progress workflow state ID";

/// How far the dialogue is.
#[derive(Debug, PartialEq, Eq)]
pub enum SetupState {
    /// Waits for the token.
    Token,
    /// Waits for the user that the token belongs to.
    Viewer { token: String },
    /// Waits for the address of the assignee.
    Email { token: String, viewer_email: String },
    /// Waits for the user with that address.
    User { token: String, email: String },
    /// Waits for the teams.
    Teams { token: String, assignee_id: String },
    /// Waits for the number of a team.
    Team { token: String, assignee_id: String, teams: Vec<LinearTeam> },
    /// Waits for the id of the assignee.
    ManualAssignee { token: String },
    /// Waits for the id of the team.
    ManualTeam { token: String, assignee_id: String },
    /// Waits for the id of the state of finished issues.
    ManualDone { token: String, assignee_id: String, team_id: String },
    /// Waits for the id of the state of started issues.
    ManualInProgress {
        token: String,
        assignee_id: String,
        team_id: String,
        done_state_id: String,
    },
    /// Is over.
    Done,
}

/// What the dialogue gets to know.
#[derive(Debug, PartialEq, Eq)]
pub enum SetupEvent {
    /// A line was typed.
    Line(String),
    /// The user that the token belongs to; `None` if the token may not read.
    Viewer(Option<LinearUser>),
    /// The user that was looked up, if there is one.
    User(Option<LinearUser>),
    /// The teams.
    Teams(Vec<LinearTeam>),
}

/// What is to be done for the dialogue.
#[derive(Debug, PartialEq, Eq)]
pub enum SetupAction {
    /// Show this and read a line.
    Ask(String),
    /// Show this and read a line; a line that cannot be read counts as blank.
    AskOptional(String),
    /// Look up the user that the token belongs to.
    FetchViewer { token: String },
    /// Look up the user with this address.
    FindUser { token: String, email: String },
    /// Look up the teams.
    FetchTeams { token: String },
    /// Save the settings.
    Save(Config),
}

/// Why the dialogue fails.
#[derive(Debug, PartialEq, Eq)]
pub enum SetupError {
    /// A question was left open.
    Required(PromptError),
    /// Nobody has this address.
    NoUser { email: String },
    /// The answer is no number.
    NotANumber(ParseIntError),
    /// No team has this number.
    OutOfRange,
    /// The team of this name has no state for finished issues.
    NoDoneState { team: String },
}

/// How the dialogue goes on.
#[derive(Debug, PartialEq, Eq)]
pub enum SetupTurn {
    Go(SetupState, SetupAction),
    Fail(SetupError),
}

/// One step of the dialogue: the lines to show, and then how it goes on.
#[derive(Debug, PartialEq, Eq)]
pub struct SetupStep {
    pub notes: Vec<String>,
    pub turn: SetupTurn,
}

// ---- views ----

/// What a state of the dialogue is.
pub enum SetupStateView {
    Token,
    Viewer { token: Seq<char> },
    Email { token: Seq<char>, viewer_email: Seq<char> },
    User { token: Seq<char>, email: Seq<char> },
    Teams { token: Seq<char>, assignee_id: Seq<char> },
    Team { token: Seq<char>, assignee_id: Seq<char>, teams: Seq<LinearTeam> },
    ManualAssignee { token: Seq<char> },
    ManualTeam { token: Seq<char>, assignee_id: Seq<char> },
    ManualDone { token: Seq<char>, assignee_id: Seq<char>, team_id: Seq<char> },
    ManualInProgress {
        token: Seq<char>,
        assignee_id: Seq<char>,
        team_id: Seq<char>,
        done_state_id: Seq<char>,
    },
    Done,
}

/// What an action is.
pub enum SetupActionView {
    Ask(Seq<char>),
    AskOptional(Seq<char>),
    FetchViewer { token: Seq<char> },
    FindUser { token: Seq<char>, email: Seq<char> },
    FetchTeams { token: Seq<char> },
    Save(ConfigView),
}

/// What an error is.
pub enum SetupErrorView {
    Required { label: Seq<char> },
    NoUser { email: Seq<char> },
    NotANumber,
    OutOfRange,
    NoDoneState { team: Seq<char> },
}

/// What a turn is.
pub enum SetupTurnView {
    Go(SetupStateView, SetupActionView),
    Fail(SetupErrorView),
}

/// What a step is.
pub struct SetupStepView {
    pub notes: Seq<Seq<char>>,
    pub turn: SetupTurnView,
}

impl View for SetupState {
    type V = SetupStateView;

    open spec fn view(&self) -> SetupStateView {
        match self {
            SetupState::Token => SetupStateView::Token,
            SetupState::Viewer { token } => SetupStateView::Viewer { token: token@ },
            SetupState::Email { token, viewer_email } => SetupStateView::Email {
                token: token@,
                viewer_email: viewer_email@,
            },
            SetupState::User { token, email } => SetupStateView::User {
                token: token@,
                email: email@,
            },
            SetupState::Teams { token, assignee_id } => SetupStateView::Teams {
                token: token@,
                assignee_id: assignee_id@,
            },
            SetupState::Team { token, assignee_id, teams } => SetupStateView::Team {
                token: token@,
                assignee_id: assignee_id@,
                teams: teams@,
            },
            SetupState::ManualAssignee { token } => SetupStateView::ManualAssignee {
                token: token@,
            },
            SetupState::ManualTeam { token, assignee_id } => SetupStateView::ManualTeam {
                token: token@,
                assignee_id: assignee_id@,
            },
            SetupState::ManualDone { token, assignee_id, team_id } => SetupStateView::ManualDone {
                token: token@,
                assignee_id: assignee_id@,
                team_id: team_id@,
            },
            SetupState::ManualInProgress { token, assignee_id, team_id, done_state_id } => {
                SetupStateView::ManualInProgress {
                    token: token@,
                    assignee_id: assignee_id@,
                    team_id: team_id@,
                    done_state_id: done_state_id@,
                }
            },
            SetupState::Done => SetupStateView::Done,
        }
    }
}

impl View for SetupAction {
    type V = SetupActionView;

    open spec fn view(&self) -> SetupActionView {
        match self {
            SetupAction::Ask(text) => SetupActionView::Ask(text@),
            SetupAction::AskOptional(text) => SetupActionView::AskOptional(text@),
            SetupAction::FetchViewer { token } => SetupActionView::FetchViewer { token: token@ },
            SetupAction::FindUser { token, email } => SetupActionView::FindUser {
                token: token@,
                email: email@,
            },
            SetupAction::FetchTeams { token } => SetupActionView::FetchTeams { token: token@ },
            SetupAction::Save(config) => SetupActionView::Save(config@),
        }
    }
}

impl View for SetupError {
    type V = SetupErrorView;

    open spec fn view(&self) -> SetupErrorView {
        match self {
            SetupError::Required(error) => SetupErrorView::Required { label: error.label@ },
            SetupError::NoUser { email } => SetupErrorView::NoUser { email: email@ },
            SetupError::NotANumber(_) => SetupErrorView::NotANumber,
            SetupError::OutOfRange => SetupErrorView::OutOfRange,
            SetupError::NoDoneState { team } => SetupErrorView::NoDoneState { team: team@ },
        }
    }
}

impl View for SetupStep {
    type V = SetupStepView;

    open spec fn view(&self) -> SetupStepView {
        SetupStepView {
            notes: texts(self.notes@),
            turn: match self.turn {
                SetupTurn::Go(state, action) => SetupTurnView::Go(state@, action@),
                SetupTurn::Fail(error) => SetupTurnView::Fail(error@),
            },
        }
    }
}

impl SetupErrorView {
    /// What the user is told.
    pub open spec fn message(self) -> Seq<char> {
        match self {
            SetupErrorView::Required { label } => required_text(label),
            SetupErrorView::NoUser { email } => "No Linear user found with email '"@ + email
                + "'"@,
            SetupErrorView::NotANumber => "Expected a number"@,
            SetupErrorView::OutOfRange => "Index out of range"@,
            SetupErrorView::NoDoneState { team } => "No completed state in team '"@ + team + "'"@,
        }
    }
}

impl SetupError {
    /// What the user is told.
    pub fn message(&self) -> (r: String)
        ensures
            r@ == self@.message(),
    {
        match self {
            SetupError::Required(error) => error.message(),
            SetupError::NoUser { email } => "No Linear user found with email '".to_owned().concat(
                email.as_str(),
            ).concat("'"),
            SetupError::NotANumber(_) => "Expected a number".to_owned(),
            SetupError::OutOfRange => "Index out of range".to_owned(),
            SetupError::NoDoneState { team } => "No completed state in team '".to_owned().concat(
                team.as_str(),
            ).concat("'"),
        }
    }
}

// ---- the pieces of the dialogue ----

/// `name (id)`, between two texts.
pub open spec fn named_text(
    head: Seq<char>,
    name: Seq<char>,
    id: Seq<char>,
    tail: Seq<char>,
) -> Seq<char> {
    head + name + " ("@ + id + ")"@ + tail
}

/// `name (id)`, between two texts.
fn named(head: &str, name: &str, id: &str, tail: &str) -> (r: String)
    ensures
        r@ == named_text(head@, name@, id@, tail@),
{
    head.to_owned().concat(name).concat(" (").concat(id).concat(")").concat(tail)
}

/// A list of one text.
fn single(text: String) -> (r: Vec<String>)
    ensures
        texts(r@) == seq![text@],
{
    let mut list: Vec<String> = Vec::new();
    list.push(text);
    assert(texts(list@) =~= seq![text@]);
    list
}

/// Adds a text to a list.
fn push_text(list: &mut Vec<String>, text: String)
    ensures
        texts(final(list)@) == texts(old(list)@).push(text@),
{
    list.push(text);
    assert(texts(list@) =~= texts(old(list)@).push(text@));
}

/// The lines that open the dialogue.
pub open spec fn intro_texts() -> Seq<Seq<char>> {
    seq![
        "=== linear-sync setup ===\n"@,
        "Go to Linear → Settings → API → Personal API Keys and create a token."@,
        "Minimum required scopes: Create Issues + Create Comments.\n"@,
    ]
}

/// The lines for a token that may not read.
pub open spec fn manual_texts() -> Seq<Seq<char>> {
    seq![
        "  ✓ Token accepted (no read scope — entering IDs manually)\n"@,
        "  Tip: find your IDs by running this query in the Linear GraphQL playground"@,
        "  (linear.app → Help → API → Playground):\n"@,
        "    { viewer { id } teams { nodes { id name states { nodes { id name type } } } } }\n"@,
    ]
}

/// The first state of a kind.
pub open spec fn first_of_kind(states: Seq<WorkflowState>, kind: Seq<char>) -> Option<
    WorkflowState,
>
    decreases states.len(),
{
    if states.len() == 0 {
        None
    } else if states.first().kind@ == kind {
        Some(states.first())
    } else {
        first_of_kind(states.drop_first(), kind)
    }
}

/// Finds the first state of a kind.
fn find_kind<'a>(states: &'a Vec<WorkflowState>, kind: &str) -> (r: Option<&'a WorkflowState>)
    ensures
        match r {
            Some(state) => first_of_kind(states@, kind@) == Some(*state),
            None => first_of_kind(states@, kind@) is None,
        },
{
    let mut i: usize = 0;
    assert(states@.skip(0) =~= states@);
    while i < states.len()
        invariant
            i <= states@.len(),
            first_of_kind(states@.skip(i as int), kind@) == first_of_kind(states@, kind@),
        decreases states@.len() - i,
    {
        assert(states@.skip(i as int).first() == states@[i as int]);
        if same_text(states[i].kind.as_str(), kind) {
            return Some(&states[i]);
        }
        assert(states@.skip(i as int).drop_first() =~= states@.skip(i + 1));
        i = i + 1;
    }
    None
}

/// The lines that list the teams by number.
pub open spec fn menu_texts(teams: Seq<LinearTeam>) -> Seq<Seq<char>>
    decreases teams.len(),
{
    if teams.len() == 0 {
        seq!["  Available teams:"@]
    } else {
        menu_texts(teams.drop_last()).push(
            "    "@ + decimal_text(teams.len()) + ". "@ + teams.last().name@,
        )
    }
}

/// The question for the number of a team.
pub open spec fn select_text(count: nat) -> Seq<char> {
    "  Select team [1-"@ + decimal_text(count) + "]: "@
}

/// The lines that list the teams by number.
fn menu(teams: &Vec<LinearTeam>) -> (r: Vec<String>)
    ensures
        texts(r@) == menu_texts(teams@),
{
    let mut lines = single("  Available teams:".to_owned());
    let mut i: usize = 0;
    assert(teams@.take(0) =~= Seq::empty());
    while i < teams.len()
        invariant
            i <= teams@.len(),
            texts(lines@) == menu_texts(teams@.take(i as int)),
        decreases teams@.len() - i,
    {
        assert(teams@.take(i + 1).drop_last() =~= teams@.take(i as int));
        push_text(
            &mut lines,
            "    ".to_owned().concat(decimal(i + 1).as_str()).concat(". ").concat(
                teams[i].name.as_str(),
            ),
        );
        i = i + 1;
    }
    assert(teams@.take(teams@.len() as int) =~= teams@);
    lines
}

/// The position that an answer to the menu means: numbers start at one, and zero means the
/// first, too. `None` if the answer is no number, or too great for one.
pub open spec fn menu_index(line: Seq<char>) -> Option<nat> {
    match number_value(trimmed(line)) {
        Some(n) => if n > usize::MAX {
            None
        } else if n == 0 {
            Some(0)
        } else {
            Some((n - 1) as nat)
        },
        None => None,
    }
}

/// The team that is picked: the only one, whatever the answer, and otherwise the one that the
/// answer to the menu means.
pub fn pick_team<'a>(teams: &'a Vec<LinearTeam>, line: &str) -> (r: Result<
    &'a LinearTeam,
    SetupError,
>)
    ensures
        teams@.len() == 1 ==> r == Ok::<&LinearTeam, SetupError>(&teams@[0]),
        teams@.len() != 1 ==> match menu_index(line@) {
            Some(i) => if i < teams@.len() {
                r == Ok::<&LinearTeam, SetupError>(&teams@[i as int])
            } else {
                r == Err::<&LinearTeam, SetupError>(SetupError::OutOfRange)
            },
            None => r matches Err(SetupError::NotANumber(_)),
        },
{
    if teams.len() == 1 {
        return Ok(&teams[0]);
    }
    match read_number(trim(line)) {
        Ok(n) => {
            let i: usize = n.saturating_sub(1);
            if i < teams.len() {
                Ok(&teams[i])
            } else {
                Err(SetupError::OutOfRange)
            }
        },
        Err(error) => Err(SetupError::NotANumber(error)),
    }
}

/// The settings for a team with a state for finished issues.
pub open spec fn team_config(
    token: Seq<char>,
    assignee_id: Seq<char>,
    team: LinearTeam,
) -> ConfigView {
    ConfigView {
        api_token: token,
        team_id: team.id@,
        assignee_id,
        done_state_id: (first_of_kind(team.states.nodes@, "completed"@)->0).id@,
        in_progress_state_id: match first_of_kind(team.states.nodes@, "started"@) {
            Some(state) => Some(state.id@),
            None => None,
        },
    }
}

/// The last step of a dialogue that looked the ids up: takes the states from the team.
pub open spec fn team_step(
    notes: Seq<Seq<char>>,
    token: Seq<char>,
    assignee_id: Seq<char>,
    team: LinearTeam,
) -> SetupStepView {
    match first_of_kind(team.states.nodes@, "completed"@) {
        None => SetupStepView {
            notes,
            turn: SetupTurnView::Fail(SetupErrorView::NoDoneState { team: team.name@ }),
        },
        Some(done) => {
            let started = first_of_kind(team.states.nodes@, "started"@);
            SetupStepView {
                notes: notes.push(named_text("  Done state: "@, done.name@, done.id@, ""@)).push(
                    match started {
                        Some(state) => named_text(
                            "  In-progress state: "@,
                            state.name@,
                            state.id@,
                            "\n"@,
                        ),
                        None => "  No 'started'-type state found — in-progress sync disabled\n"@,
                    },
                ),
                turn: SetupTurnView::Go(
                    SetupStateView::Done,
                    SetupActionView::Save(team_config(token, assignee_id, team)),
                ),
            }
        },
    }
}

/// The last step of a dialogue that looked the ids up.
fn choose_team(notes: Vec<String>, token: String, assignee_id: String, team: &LinearTeam) -> (r:
    SetupStep)
    ensures
        r@ == team_step(texts(notes@), token@, assignee_id@, *team),
{
    let mut lines = notes;
    let done = match find_kind(&team.states.nodes, "completed") {
        Some(state) => state,
        None => {
            return SetupStep {
                notes: lines,
                turn: SetupTurn::Fail(SetupError::NoDoneState { team: team.name.clone() }),
            };
        },
    };
    push_text(&mut lines, named("  Done state: ", done.name.as_str(), done.id.as_str(), ""));
    let in_progress_state_id: Option<String> = match find_kind(&team.states.nodes, "started") {
        Some(state) => {
            push_text(
                &mut lines,
                named("  In-progress state: ", state.name.as_str(), state.id.as_str(), "\n"),
            );
            Some(state.id.clone())
        },
        None => {
            push_text(
                &mut lines,
                "  No 'started'-type state found — in-progress sync disabled\n".to_owned(),
            );
            None
        },
    };
    SetupStep {
        notes: lines,
        turn: SetupTurn::Go(
            SetupState::Done,
            SetupAction::Save(
                Config {
                    api_token: token,
                    team_id: team.id.clone(),
                    assignee_id,
                    done_state_id: done.id.clone(),
                    in_progress_state_id,
                },
            ),
        ),
    }
}

// ---- the dialogue ----

/// A step without lines that goes on.
pub open spec fn go(state: SetupStateView, action: SetupActionView) -> SetupStepView {
    SetupStepView { notes: seq![], turn: SetupTurnView::Go(state, action) }
}

/// A step without lines that fails.
pub open spec fn fail(error: SetupErrorView) -> SetupStepView {
    SetupStepView { notes: seq![], turn: SetupTurnView::Fail(error) }
}

/// The first step: asks for the token.
pub open spec fn first_step() -> SetupStepView {
    SetupStepView {
        notes: intro_texts(),
        turn: SetupTurnView::Go(
            SetupStateView::Token,
            SetupActionView::Ask(prompt_view(TOKEN_LABEL@, None)),
        ),
    }
}

/// Whether the dialogue waits for such an event.
pub open spec fn fits(state: SetupStateView, event: SetupEvent) -> bool {
    match state {
        SetupStateView::Viewer { .. } => event is Viewer,
        SetupStateView::User { .. } => event is User,
        SetupStateView::Teams { .. } => event is Teams,
        SetupStateView::Done => false,
        _ => event is Line,
    }
}

/// What follows on an event that the dialogue waits for.
pub open spec fn next_step(state: SetupStateView, event: SetupEvent) -> SetupStepView
    recommends
        fits(state, event),
{
    match (state, event) {
        (SetupStateView::Token, SetupEvent::Line(line)) => match answer_view(None, line@) {
            Some(token) => go(
                SetupStateView::Viewer { token },
                SetupActionView::FetchViewer { token },
            ),
            None => fail(SetupErrorView::Required { label: TOKEN_LABEL@ }),
        },
        (SetupStateView::Viewer { token }, SetupEvent::Viewer(Some(viewer))) => SetupStepView {
            notes: seq![named_text("  ✓ Authenticated as "@, viewer.name@, viewer.email@, "\n"@)],
            turn: SetupTurnView::Go(
                SetupStateView::Email { token, viewer_email: viewer.email@ },
                SetupActionView::Ask(prompt_view(EMAIL_LABEL@, Some(viewer.email@))),
            ),
        },
        (SetupStateView::Viewer { token }, SetupEvent::Viewer(None)) => SetupStepView {
            notes: manual_texts(),
            turn: SetupTurnView::Go(
                SetupStateView::ManualAssignee { token },
                SetupActionView::Ask(prompt_view(ASSIGNEE_LABEL@, None)),
            ),
        },
        (SetupStateView::Email { token, viewer_email }, SetupEvent::Line(line)) => {
            let email = answer_view(Some(viewer_email), line@)->0;
            go(SetupStateView::User { token, email }, SetupActionView::FindUser { token, email })
        },
        (SetupStateView::User { token, email }, SetupEvent::User(Some(user))) => SetupStepView {
            notes: seq![named_text("  Assignee: "@, user.name@, user.id@, "\n"@)],
            turn: SetupTurnView::Go(
                SetupStateView::Teams { token, assignee_id: user.id@ },
                SetupActionView::FetchTeams { token },
            ),
        },
        (SetupStateView::User { token, email }, SetupEvent::User(None)) => fail(
            SetupErrorView::NoUser { email },
        ),
        (SetupStateView::Teams { token, assignee_id }, SetupEvent::Teams(teams)) => {
            if teams@.len() == 1 {
                team_step(
                    seq![named_text("  Team: "@, teams@[0].name@, teams@[0].id@, "\n"@)],
                    token,
                    assignee_id,
                    teams@[0],
                )
            } else {
                SetupStepView {
                    notes: menu_texts(teams@),
                    turn: SetupTurnView::Go(
                        SetupStateView::Team { token, assignee_id, teams: teams@ },
                        SetupActionView::Ask(select_text(teams@.len())),
                    ),
                }
            }
        },
        (SetupStateView::Team { token, assignee_id, teams }, SetupEvent::Line(line)) => {
            if teams.len() == 1 {
                team_step(seq![], token, assignee_id, teams[0])
            } else {
                match menu_index(line@) {
                    Some(i) => if i < teams.len() {
                        team_step(seq![], token, assignee_id, teams[i as int])
                    } else {
                        fail(SetupErrorView::OutOfRange)
                    },
                    None => fail(SetupErrorView::NotANumber),
                }
            }
        },
        (SetupStateView::ManualAssignee { token }, SetupEvent::Line(line)) => {
            match answer_view(None, line@) {
                Some(assignee_id) => go(
                    SetupStateView::ManualTeam { token, assignee_id },
                    SetupActionView::Ask(prompt_view(TEAM_LABEL@, None)),
                ),
                None => fail(SetupErrorView::Required { label: ASSIGNEE_LABEL@ }),
            }
        },
        (SetupStateView::ManualTeam { token, assignee_id }, SetupEvent::Line(line)) => {
            match answer_view(None, line@) {
                Some(team_id) => go(
                    SetupStateView::ManualDone { token, assignee_id, team_id },
                    SetupActionView::Ask(prompt_view(DONE_LABEL@, None)),
                ),
                None => fail(SetupErrorView::Required { label: TEAM_LABEL@ }),
            }
        },
        (SetupStateView::ManualDone { token, assignee_id, team_id }, SetupEvent::Line(line)) => {
            match answer_view(None, line@) {
                Some(done_state_id) => SetupStepView {
                    notes: seq![
                        "  (optional) In-progress workflow state ID — leave blank to skip"@,
                    ],
                    turn: SetupTurnView::Go(
                        SetupStateView::ManualInProgress {
                            token,
                            assignee_id,
                            team_id,
                            done_state_id,
                        },
                        SetupActionView::AskOptional(prompt_view(IN_PROGRESS_LABEL@, Some(""@))),
                    ),
                },
                None => fail(SetupErrorView::Required { label: DONE_LABEL@ }),
            }
        },
        (
            SetupStateView::ManualInProgress { token, assignee_id, team_id, done_state_id },
            SetupEvent::Line(line),
        ) => go(
            SetupStateView::Done,
            SetupActionView::Save(
                ConfigView {
                    api_token: token,
                    team_id,
                    assignee_id,
                    done_state_id,
                    in_progress_state_id: answer_view(None, line@),
                },
            ),
        ),
        _ => arbitrary(),
    }
}

/// A step without lines that goes on.
fn going(state: SetupState, action: SetupAction) -> (r: SetupStep)
    ensures
        r@ == go(state@, action@),
{
    let step = SetupStep { notes: Vec::new(), turn: SetupTurn::Go(state, action) };
    assert(step@.notes =~= seq![]);
    step
}

/// A step without lines that fails.
fn failing(error: SetupError) -> (r: SetupStep)
    ensures
        r@ == fail(error@),
{
    let step = SetupStep { notes: Vec::new(), turn: SetupTurn::Fail(error) };
    assert(step@.notes =~= seq![]);
    step
}

/// The first step: asks for the token.
pub fn start_setup() -> (r: SetupStep)
    ensures
        r@ == first_step(),
{
    let mut notes: Vec<String> = Vec::new();
    notes.push("=== linear-sync setup ===\n".to_owned());
    notes.push("Go to Linear → Settings → API → Personal API Keys and create a token.".to_owned());
    notes.push("Minimum required scopes: Create Issues + Create Comments.\n".to_owned());
    assert(texts(notes@) =~= intro_texts());
    SetupStep {
        notes,
        turn: SetupTurn::Go(SetupState::Token, SetupAction::Ask(prompt_text(TOKEN_LABEL, None))),
    }
}

/// The lines for a token that may not read.
fn manual_notes() -> (r: Vec<String>)
    ensures
        texts(r@) == manual_texts(),
{
    let mut notes: Vec<String> = Vec::new();
    notes.push("  ✓ Token accepted (no read scope — entering IDs manually)\n".to_owned());
    notes.push(
        "  Tip: find your IDs by running this query in the Linear GraphQL playground".to_owned(),
    );
    notes.push("  (linear.app → Help → API → Playground):\n".to_owned());
    notes.push(
        "    { viewer { id } teams { nodes { id name states { nodes { id name type } } } } }\n".to_owned(),
    );
    assert(texts(notes@) =~= manual_texts());
    notes
}

/// Goes on with the user that the token belongs to.
fn meet_viewer(token: String, viewer: Option<LinearUser>) -> (r: SetupStep)
    ensures
        r@ == next_step(SetupStateView::Viewer { token: token@ }, SetupEvent::Viewer(viewer)),
{
    match viewer {
        Some(viewer) => SetupStep {
            notes: single(
                named(
                    "  ✓ Authenticated as ",
                    viewer.name.as_str(),
                    viewer.email.as_str(),
                    "\n",
                ),
            ),
            turn: SetupTurn::Go(
                SetupState::Email { token, viewer_email: viewer.email.clone() },
                SetupAction::Ask(prompt_text(EMAIL_LABEL, Some(viewer.email.as_str()))),
            ),
        },
        None => SetupStep {
            notes: manual_notes(),
            turn: SetupTurn::Go(
                SetupState::ManualAssignee { token },
                SetupAction::Ask(prompt_text(ASSIGNEE_LABEL, None)),
            ),
        },
    }
}

/// Goes on with the user that was looked up.
fn meet_user(token: String, email: String, user: Option<LinearUser>) -> (r: SetupStep)
    ensures
        r@ == next_step(
            SetupStateView::User { token: token@, email: email@ },
            SetupEvent::User(user),
        ),
{
    match user {
        Some(user) => SetupStep {
            notes: single(named("  Assignee: ", user.name.as_str(), user.id.as_str(), "\n")),
            turn: SetupTurn::Go(
                SetupState::Teams { token: token.clone(), assignee_id: user.id },
                SetupAction::FetchTeams { token },
            ),
        },
        None => failing(SetupError::NoUser { email }),
    }
}

/// Goes on with the teams.
fn see_teams(token: String, assignee_id: String, teams: Vec<LinearTeam>) -> (r: SetupStep)
    ensures
        r@ == next_step(
            SetupStateView::Teams { token: token@, assignee_id: assignee_id@ },
            SetupEvent::Teams(teams),
        ),
{
    if teams.len() == 1 {
        let notes = single(named("  Team: ", teams[0].name.as_str(), teams[0].id.as_str(), "\n"));
        choose_team(notes, token, assignee_id, &teams[0])
    } else {
        let notes = menu(&teams);
        let question = "  Select team [1-".to_owned().concat(
            decimal(teams.len()).as_str(),
        ).concat("]: ");
        SetupStep {
            notes,
            turn: SetupTurn::Go(
                SetupState::Team { token, assignee_id, teams },
                SetupAction::Ask(question),
            ),
        }
    }
}

impl SetupState {
    /// Whether the dialogue waits for such an event.
    pub fn expects(&self, event: &SetupEvent) -> (r: bool)
        ensures
            r == fits(self@, *event),
    {
        match self {
            SetupState::Viewer { .. } => matches!(event, SetupEvent::Viewer(_)),
            SetupState::User { .. } => matches!(event, SetupEvent::User(_)),
            SetupState::Teams { .. } => matches!(event, SetupEvent::Teams(_)),
            SetupState::Done => false,
            _ => matches!(event, SetupEvent::Line(_)),
        }
    }

    /// Goes on with an event that the dialogue waits for.
    pub fn advance(self, event: SetupEvent) -> (r: SetupStep)
        requires
            fits(self@, event),
        ensures
            r@ == next_step(self@, event),
    {
        match (self, event) {
            (SetupState::Viewer { token }, SetupEvent::Viewer(viewer)) => meet_viewer(
                token,
                viewer,
            ),
            (SetupState::User { token, email }, SetupEvent::User(user)) => meet_user(
                token,
                email,
                user,
            ),
            (SetupState::Teams { token, assignee_id }, SetupEvent::Teams(teams)) => see_teams(
                token,
                assignee_id,
                teams,
            ),
            (state, SetupEvent::Line(line)) => state.read_line(line),
            _ => unreached(),
        }
    }

    /// Goes on with a line that was typed.
    fn read_line(self, line: String) -> (r: SetupStep)
        requires
            fits(self@, SetupEvent::Line(line)),
        ensures
            r@ == next_step(self@, SetupEvent::Line(line)),
    {
        match self {
            SetupState::Token => match prompt_answer(TOKEN_LABEL, None, line.as_str()) {
                Ok(token) => going(
                    SetupState::Viewer { token: token.clone() },
                    SetupAction::FetchViewer { token },
                ),
                Err(error) => failing(SetupError::Required(error)),
            },
            SetupState::Email { token, viewer_email } => match prompt_answer(
                EMAIL_LABEL,
                Some(viewer_email.as_str()),
                line.as_str(),
            ) {
                Ok(email) => going(
                    SetupState::User { token: token.clone(), email: email.clone() },
                    SetupAction::FindUser { token, email },
                ),
                Err(error) => failing(SetupError::Required(error)),
            },
            SetupState::Team { token, assignee_id, teams } => match pick_team(
                &teams,
                line.as_str(),
            ) {
                Ok(team) => {
                    let notes: Vec<String> = Vec::new();
                    assert(texts(notes@) =~= seq![]);
                    choose_team(notes, token, assignee_id, team)
                },
                Err(error) => failing(error),
            },
            SetupState::ManualAssignee { token } => match prompt_answer(
                ASSIGNEE_LABEL,
                None,
                line.as_str(),
            ) {
                Ok(assignee_id) => going(
                    SetupState::ManualTeam { token, assignee_id },
                    SetupAction::Ask(prompt_text(TEAM_LABEL, None)),
                ),
                Err(error) => failing(SetupError::Required(error)),
            },
            SetupState::ManualTeam { token, assignee_id } => match prompt_answer(
                TEAM_LABEL,
                None,
                line.as_str(),
            ) {
                Ok(team_id) => going(
                    SetupState::ManualDone { token, assignee_id, team_id },
                    SetupAction::Ask(prompt_text(DONE_LABEL, None)),
                ),
                Err(error) => failing(SetupError::Required(error)),
            },
            SetupState::ManualDone { token, assignee_id, team_id } => match prompt_answer(
                DONE_LABEL,
                None,
                line.as_str(),
            ) {
                Ok(done_state_id) => SetupStep {
                    notes: single(
                        "  (optional) In-progress workflow state ID — leave blank to skip".to_owned(),
                    ),
                    turn: SetupTurn::Go(
                        SetupState::ManualInProgress { token, assignee_id, team_id, done_state_id },
                        SetupAction::AskOptional(prompt_text(IN_PROGRESS_LABEL, Some(""))),
                    ),
                },
                Err(error) => failing(SetupError::Required(error)),
            },
            SetupState::ManualInProgress { token, assignee_id, team_id, done_state_id } => {
                let in_progress_state_id: Option<String> = match prompt_answer(
                    IN_PROGRESS_LABEL,
                    Some(""),
                    line.as_str(),
                ) {
                    Ok(id) => if id.as_str().is_empty() {
                        None
                    } else {
                        Some(id)
                    },
                    Err(_) => None,
                };
                proof {
                    reveal_strlit("");
                }
                going(
                    SetupState::Done,
                    SetupAction::Save(
                        Config {
                            api_token: token,
                            team_id,
                            assignee_id,
                            done_state_id,
                            in_progress_state_id,
                        },
                    ),
                )
            },
            _ => unreached(),
        }
    }
}

/// What the user is told once the settings are in the file at `path`.
pub fn saved_notes(path: &str) -> (r: Vec<String>)
    ensures
        texts(r@) == seq![
            "\n  ✓ Config saved to "@ + path@,
            "    Run `linear-sync install-hooks` to wire up taskwarrior."@,
        ],
{
    let mut notes = single("\n  ✓ Config saved to ".to_owned().concat(path));
    push_text(
        &mut notes,
        "    Run `linear-sync install-hooks` to wire up taskwarrior.".to_owned(),
    );
    assert(texts(notes@) =~= seq![
        "\n  ✓ Config saved to "@ + path@,
        "    Run `linear-sync install-hooks` to wire up taskwarrior."@,
    ]);
    notes
}

// ---- laws ----

/// The token that a state carries.
pub open spec fn token_of(state: SetupStateView) -> Option<Seq<char>> {
    match state {
        SetupStateView::Token => None,
        SetupStateView::Viewer { token } => Some(token),
        SetupStateView::Email { token, .. } => Some(token),
        SetupStateView::User { token, .. } => Some(token),
        SetupStateView::Teams { token, .. } => Some(token),
        SetupStateView::Team { token, .. } => Some(token),
        SetupStateView::ManualAssignee { token } => Some(token),
        SetupStateView::ManualTeam { token, .. } => Some(token),
        SetupStateView::ManualDone { token, .. } => Some(token),
        SetupStateView::ManualInProgress { token, .. } => Some(token),
        SetupStateView::Done => None,
    }
}

/// The token that an action uses.
pub open spec fn token_used(action: SetupActionView) -> Option<Seq<char>> {
    match action {
        SetupActionView::Ask(_) => None,
        SetupActionView::AskOptional(_) => None,
        SetupActionView::FetchViewer { token } => Some(token),
        SetupActionView::FindUser { token, .. } => Some(token),
        SetupActionView::FetchTeams { token } => Some(token),
        SetupActionView::Save(config) => Some(config.api_token),
    }
}

/// How many events the dialogue can still take.
pub open spec fn events_left(state: SetupStateView) -> nat {
    match state {
        SetupStateView::Token => 6,
        SetupStateView::Viewer { .. } => 5,
        SetupStateView::Email { .. } => 4,
        SetupStateView::User { .. } => 3,
        SetupStateView::Teams { .. } => 2,
        SetupStateView::Team { .. } => 1,
        SetupStateView::ManualAssignee { .. } => 4,
        SetupStateView::ManualTeam { .. } => 3,
        SetupStateView::ManualDone { .. } => 2,
        SetupStateView::ManualInProgress { .. } => 1,
        SetupStateView::Done => 0,
    }
}

/// The token that was typed is the one that every lookup uses and that is saved.
pub proof fn law_token_is_kept(state: SetupStateView, event: SetupEvent)
    requires
        fits(state, event),
        token_of(state) is Some,
    ensures
        next_step(state, event).turn matches SetupTurnView::Go(next, action) ==> {
            &&& next !is Done ==> token_of(next) == token_of(state)
            &&& token_used(action) is Some ==> token_used(action) == token_of(state)
        },
{
}

/// Each event brings the dialogue nearer to its end.
pub proof fn law_dialogue_ends(state: SetupStateView, event: SetupEvent)
    requires
        fits(state, event),
    ensures
        next_step(state, event).turn matches SetupTurnView::Go(next, _) ==> events_left(next)
            < events_left(state),
{
}

/// Whether what is to be done brings the event that the dialogue waits for, or ends it.
pub open spec fn brings_event(action: SetupActionView, state: SetupStateView) -> bool {
    match action {
        SetupActionView::Ask(_) => forall|line: String| #[trigger]
            fits(state, SetupEvent::Line(line)),
        SetupActionView::AskOptional(_) => forall|line: String| #[trigger]
            fits(state, SetupEvent::Line(line)),
        SetupActionView::FetchViewer { .. } => forall|viewer: Option<LinearUser>| #[trigger]
            fits(state, SetupEvent::Viewer(viewer)),
        SetupActionView::FindUser { .. } => forall|user: Option<LinearUser>| #[trigger]
            fits(state, SetupEvent::User(user)),
        SetupActionView::FetchTeams { .. } => forall|teams: Vec<LinearTeam>| #[trigger]
            fits(state, SetupEvent::Teams(teams)),
        SetupActionView::Save(_) => state is Done,
    }
}

/// The dialogue waits for what it asked for, from its first step on.
pub proof fn law_dialogue_waits_for_what_it_asks(state: SetupStateView, event: SetupEvent)
    requires
        fits(state, event),
    ensures
        first_step().turn matches SetupTurnView::Go(next, action) && brings_event(action, next),
        next_step(state, event).turn matches SetupTurnView::Go(next, action) ==> brings_event(
            action,
            next,
        ),
{
}

/// A dialogue with a token that may not read saves what was typed, without the white space
/// around it; a blank last answer leaves the state of started issues out.
pub proof fn law_typed_ids_are_saved(
    token: String,
    assignee: String,
    team: String,
    done: String,
    in_progress: String,
)
    requires
        trimmed(token@).len() > 0,
        trimmed(assignee@).len() > 0,
        trimmed(team@).len() > 0,
        trimmed(done@).len() > 0,
    ensures
        ({
            let s1 = next_step(SetupStateView::Token, SetupEvent::Line(token)).turn->Go_0;
            let s2 = next_step(s1, SetupEvent::Viewer(None)).turn->Go_0;
            let s3 = next_step(s2, SetupEvent::Line(assignee)).turn->Go_0;
            let s4 = next_step(s3, SetupEvent::Line(team)).turn->Go_0;
            let s5 = next_step(s4, SetupEvent::Line(done)).turn->Go_0;
            next_step(s5, SetupEvent::Line(in_progress)).turn == SetupTurnView::Go(
                SetupStateView::Done,
                SetupActionView::Save(
                    ConfigView {
                        api_token: trimmed(token@),
                        team_id: trimmed(team@),
                        assignee_id: trimmed(assignee@),
                        done_state_id: trimmed(done@),
                        in_progress_state_id: if trimmed(in_progress@).len() == 0 {
                            None
                        } else {
                            Some(trimmed(in_progress@))
                        },
                    },
                ),
            )
        }),
{
}

/// A dialogue with a token that may read saves what was looked up: the user with the address
/// that was typed, the only team or the one that was picked, and the states of that team.
pub proof fn law_looked_up_ids_are_saved(
    token: String,
    viewer: LinearUser,
    email: String,
    user: LinearUser,
    teams: Vec<LinearTeam>,
    answer: String,
    i: int,
)
    requires
        trimmed(token@).len() > 0,
        0 <= i < teams@.len(),
        teams@.len() > 1 ==> menu_index(answer@) == Some(i as nat),
        first_of_kind(teams@[i].states.nodes@, "completed"@) is Some,
    ensures
        ({
            let s1 = next_step(SetupStateView::Token, SetupEvent::Line(token)).turn->Go_0;
            let s2 = next_step(s1, SetupEvent::Viewer(Some(viewer))).turn->Go_0;
            let s3 = next_step(s2, SetupEvent::Line(email)).turn->Go_0;
            let s4 = next_step(s3, SetupEvent::User(Some(user))).turn->Go_0;
            let shown = next_step(s4, SetupEvent::Teams(teams)).turn;
            let last = if teams@.len() == 1 {
                shown
            } else {
                next_step(shown->Go_0, SetupEvent::Line(answer)).turn
            };
            last == SetupTurnView::Go(
                SetupStateView::Done,
                SetupActionView::Save(team_config(trimmed(token@), user.id@, teams@[i])),
            )
        }),
{
}

/// The state that is found for a kind is the first of the team with that kind, and none is
/// found only where the team has none.
pub proof fn law_first_state_of_a_kind(states: Seq<WorkflowState>, kind: Seq<char>)
    ensures
        match first_of_kind(states, kind) {
            Some(state) => exists|i: int|
                0 <= i < states.len() && #[trigger] states[i] == state && state.kind@ == kind
                    && forall|j: int| 0 <= j < i ==> (#[trigger] states[j]).kind@ != kind,
            None => forall|i: int| 0 <= i < states.len() ==> (#[trigger] states[i]).kind@ != kind,
        },
    decreases states.len(),
{
    if states.len() > 0 {
        let rest = states.drop_first();
        assert(states[0] == states.first());
        if states.first().kind@ != kind {
            law_first_state_of_a_kind(rest, kind);
            match first_of_kind(rest, kind) {
                Some(state) => {
                    let i = choose|i: int|
                        0 <= i < rest.len() && #[trigger] rest[i] == state && state.kind@ == kind
                            && forall|j: int| 0 <= j < i ==> (#[trigger] rest[j]).kind@ != kind;
                    assert(states[i + 1] == state);
                    assert forall|j: int| 0 <= j < i + 1 implies (#[trigger] states[j]).kind@
                        != kind by {
                        if j > 0 {
                            assert(states[j] == rest[j - 1]);
                        }
                    }
                },
                None => {
                    assert forall|j: int| 0 <= j < states.len() implies (#[trigger] states[j]).kind@
                        != kind by {
                        if j > 0 {
                            assert(states[j] == rest[j - 1]);
                        }
                    }
                },
            }
        }
    }
}

/// Where there is only one team nothing is asked: it is taken at once.
pub proof fn law_only_team_is_taken(token: Seq<char>, assignee_id: Seq<char>, teams: Vec<LinearTeam>)
    requires
        teams@.len() == 1,
    ensures
        ({
            let turn = next_step(
                SetupStateView::Teams { token, assignee_id },
                SetupEvent::Teams(teams),
            ).turn;
            match first_of_kind(teams@[0].states.nodes@, "completed"@) {
                Some(_) => turn == SetupTurnView::Go(
                    SetupStateView::Done,
                    SetupActionView::Save(team_config(token, assignee_id, teams@[0])),
                ),
                None => turn == SetupTurnView::Fail(
                    SetupErrorView::NoDoneState { team: teams@[0].name@ },
                ),
            }
        }),
{
}

/// The number that the menu shows for a team picks that team.
pub proof fn law_menu_number_picks_its_team(teams: Seq<LinearTeam>, i: int)
    requires
        0 <= i < teams.len(),
        teams.len() <= usize::MAX,
    ensures
        menu_index(decimal_text((i + 1) as nat)) == Some(i as nat),
        menu_texts(teams)[i + 1] == "    "@ + decimal_text((i + 1) as nat) + ". "@ + teams[i].name@,
{
    lemma_menu_line(teams, i);
    lemma_decimal_reads_back((i + 1) as nat);
}

proof fn lemma_menu_line(teams: Seq<LinearTeam>, i: int)
    requires
        0 <= i < teams.len(),
    ensures
        menu_texts(teams).len() == teams.len() + 1,
        menu_texts(teams)[i + 1] == "    "@ + decimal_text((i + 1) as nat) + ". "@ + teams[i].name@,
    decreases teams.len(),
{
    reveal_with_fuel(menu_texts, 2);
    if i < teams.len() - 1 {
        lemma_menu_line(teams.drop_last(), i);
    } else if teams.len() > 1 {
        lemma_menu_line(teams.drop_last(), 0);
    }
}

// ---- laws on single steps ----

proof fn lemma_notes(step: SetupStep)
    ensures
        step@.notes.len() == step.notes@.len(),
        forall|i: int| 0 <= i < step.notes@.len() ==> step@.notes[i] == (#[trigger] step.notes@[i])@,
{
}

/// The dialogue opens with its introduction and asks for the token.
pub proof fn law_dialogue_opens(step: SetupStep)
    requires
        call_ensures(start_setup, (), step),
    ensures
        step.notes@.len() == 3,
        step.notes@[0]@ == "=== linear-sync setup ===\n"@,
        step.notes@[1]@
            == "Go to Linear → Settings → API → Personal API Keys and create a token."@,
        step.notes@[2]@ == "Minimum required scopes: Create Issues + Create Comments.\n"@,
        step.turn matches SetupTurn::Go(state, SetupAction::Ask(question)) && state is Token
            && question@ == "API token"@ + ": "@,
{
    lemma_notes(step);
}

/// The token that was typed, without white space around it, is tried and kept; a blank answer is
/// an error.
pub proof fn law_typed_token_is_tried(line: String, step: SetupStep)
    requires
        call_ensures(SetupState::advance, (SetupState::Token, SetupEvent::Line(line)), step),
    ensures
        trimmed(line@).len() > 0 ==> (step.turn matches SetupTurn::Go(
            SetupState::Viewer { token },
            SetupAction::FetchViewer { token: tried },
        ) && token@ == trimmed(line@) && tried@ == trimmed(line@)),
        trimmed(line@).len() == 0 ==> (step.turn matches SetupTurn::Fail(
            SetupError::Required(error),
        ) && error.label@ == "API token"@),
        step.notes@.len() == 0,
{
    lemma_notes(step);
}

/// A token that may read is greeted with the name of its user, whose address is proposed.
pub proof fn law_viewer_is_greeted(token: String, viewer: LinearUser, step: SetupStep)
    requires
        call_ensures(
            SetupState::advance,
            (SetupState::Viewer { token }, SetupEvent::Viewer(Some(viewer))),
            step,
        ),
    ensures
        step.notes@.len() == 1,
        step.notes@[0]@ == "  ✓ Authenticated as "@ + viewer.name@ + " ("@ + viewer.email@ + ")"@
            + "\n"@,
        step.turn matches SetupTurn::Go(
            SetupState::Email { token: kept, viewer_email },
            SetupAction::Ask(question),
        ) && kept@ == token@ && viewer_email@ == viewer.email@ && question@ == "Assignee email"@
            + " ["@ + viewer.email@ + "]: "@,
{
    lemma_notes(step);
}

/// With a token that may not read the ids are asked for, after four lines that say how to find
/// them.
pub proof fn law_ids_are_asked_for(token: String, step: SetupStep)
    requires
        call_ensures(
            SetupState::advance,
            (SetupState::Viewer { token }, SetupEvent::Viewer(None)),
            step,
        ),
    ensures
        step.notes@.len() == 4,
        step.notes@[0]@ == "  ✓ Token accepted (no read scope — entering IDs manually)\n"@,
        step.notes@[1]@
            == "  Tip: find your IDs by running this query in the Linear GraphQL playground"@,
        step.notes@[2]@ == "  (linear.app → Help → API → Playground):\n"@,
        step.notes@[3]@
            == "    { viewer { id } teams { nodes { id name states { nodes { id name type } } } } }\n"@,
        step.turn matches SetupTurn::Go(
            SetupState::ManualAssignee { token: kept },
            SetupAction::Ask(question),
        ) && kept@ == token@ && question@
            == "Your Linear user ID  (viewer.id from the query above)"@ + ": "@,
{
    lemma_notes(step);
}

/// The address that was typed, without white space around it, is the one that is looked up; where
/// nothing was typed it is the address of the user that the token belongs to.
pub proof fn law_typed_address_is_looked_up(
    token: String,
    viewer_email: String,
    line: String,
    step: SetupStep,
)
    requires
        call_ensures(
            SetupState::advance,
            (SetupState::Email { token, viewer_email }, SetupEvent::Line(line)),
            step,
        ),
    ensures
        step.turn matches SetupTurn::Go(
            SetupState::User { token: kept, email: remembered },
            SetupAction::FindUser { token: used, email },
        ) && kept@ == token@ && used@ == token@ && remembered@ == email@ && (if trimmed(
            line@,
        ).len() > 0 {
            email@ == trimmed(line@)
        } else {
            email@ == viewer_email@
        }),
        step.notes@.len() == 0,
{
    lemma_notes(step);
}

/// The user that was found is the assignee, and the teams are looked up next.
pub proof fn law_found_user_is_assignee(
    token: String,
    email: String,
    user: LinearUser,
    step: SetupStep,
)
    requires
        call_ensures(
            SetupState::advance,
            (SetupState::User { token, email }, SetupEvent::User(Some(user))),
            step,
        ),
    ensures
        step.notes@.len() == 1,
        step.notes@[0]@ == "  Assignee: "@ + user.name@ + " ("@ + user.id@ + ")"@ + "\n"@,
        step.turn matches SetupTurn::Go(
            SetupState::Teams { token: kept, assignee_id },
            SetupAction::FetchTeams { token: used },
        ) && kept@ == token@ && used@ == token@ && assignee_id@ == user.id@,
{
    lemma_notes(step);
}

/// An address that nobody has is an error that names it.
pub proof fn law_unknown_address_is_an_error(token: String, email: String, step: SetupStep)
    requires
        call_ensures(
            SetupState::advance,
            (SetupState::User { token, email }, SetupEvent::User(None)),
            step,
        ),
    ensures
        step.turn matches SetupTurn::Fail(SetupError::NoUser { email: named }) && named@ == email@,
        step.notes@.len() == 0,
{
    lemma_notes(step);
}

/// Whether the state `i` is the first of its kind.
pub open spec fn is_first_of_kind(states: Seq<WorkflowState>, kind: Seq<char>, i: int) -> bool {
    &&& 0 <= i < states.len()
    &&& states[i].kind@ == kind
    &&& forall|j: int| 0 <= j < i ==> (#[trigger] states[j]).kind@ != kind
}

/// Whether none of the states is of this kind.
pub open spec fn has_no_kind(states: Seq<WorkflowState>, kind: Seq<char>) -> bool {
    forall|i: int| 0 <= i < states.len() ==> (#[trigger] states[i]).kind@ != kind
}

/// Whether a turn ends the dialogue with the settings for a team: the token and the assignee as
/// they are, the team, its first completed state, and its first started state if it has one; or
/// with an error that names the team, where it has no completed state.
pub open spec fn settles_on(
    turn: SetupTurn,
    token: Seq<char>,
    assignee_id: Seq<char>,
    team: LinearTeam,
) -> bool {
    let states = team.states.nodes@;
    if has_no_kind(states, "completed"@) {
        turn matches SetupTurn::Fail(SetupError::NoDoneState { team: named }) && named@
            == team.name@
    } else {
        &&& turn matches SetupTurn::Go(SetupState::Done, SetupAction::Save(config))
        &&& config.api_token@ == token
        &&& config.assignee_id@ == assignee_id
        &&& config.team_id@ == team.id@
        &&& forall|i: int|
            #![trigger states[i]]
            is_first_of_kind(states, "completed"@, i) ==> config.done_state_id@ == states[i].id@
        &&& forall|i: int|
            #![trigger states[i]]
            is_first_of_kind(states, "started"@, i) ==> config.in_progress_state_id is Some && (
            config.in_progress_state_id->0)@ == states[i].id@
        &&& has_no_kind(states, "started"@) ==> config.in_progress_state_id is None
    }
}

proof fn lemma_team_step_settles(
    notes: Seq<Seq<char>>,
    token: Seq<char>,
    assignee_id: Seq<char>,
    team: LinearTeam,
    step: SetupStep,
)
    requires
        step@ == team_step(notes, token, assignee_id, team),
    ensures
        settles_on(step.turn, token, assignee_id, team),
{
    let states = team.states.nodes@;
    lemma_first_is_found(states, "completed"@);
    lemma_first_is_found(states, "started"@);
}

proof fn lemma_first_is_found(states: Seq<WorkflowState>, kind: Seq<char>)
    ensures
        has_no_kind(states, kind) <==> first_of_kind(states, kind) is None,
        forall|i: int|
            #![trigger states[i]]
            is_first_of_kind(states, kind, i) ==> first_of_kind(states, kind) == Some(states[i]),
{
    law_first_state_of_a_kind(states, kind);
    if let Some(state) = first_of_kind(states, kind) {
        let k = choose|k: int|
            0 <= k < states.len() && #[trigger] states[k] == state && state.kind@ == kind
                && forall|j: int| 0 <= j < k ==> (#[trigger] states[j]).kind@ != kind;
        assert forall|i: int|
            #![trigger states[i]]
            is_first_of_kind(states, kind, i) implies first_of_kind(states, kind) == Some(
            states[i],
        ) by {
            if i < k {
                assert(states[i].kind@ != kind);
            } else if k < i {
                assert(states[k].kind@ != kind);
            }
        }
    }
}

/// Of several teams, or none, the number is asked for, after a list that numbers all of them; a
/// single team is shown and taken at once.
pub proof fn law_teams_are_shown(
    token: String,
    assignee_id: String,
    teams: Vec<LinearTeam>,
    step: SetupStep,
)
    requires
        call_ensures(
            SetupState::advance,
            (SetupState::Teams { token, assignee_id }, SetupEvent::Teams(teams)),
            step,
        ),
    ensures
        teams@.len() == 1 ==> {
            &&& settles_on(step.turn, token@, assignee_id@, teams@[0])
            &&& step.notes@.len() > 0
            &&& step.notes@[0]@ == "  Team: "@ + teams@[0].name@ + " ("@ + teams@[0].id@ + ")"@
                + "\n"@
        },
        teams@.len() != 1 ==> {
            &&& step.turn matches SetupTurn::Go(
                SetupState::Team { token: kept, assignee_id: assigned, teams: shown },
                SetupAction::Ask(question),
            )
            &&& kept@ == token@
            &&& assigned@ == assignee_id@
            &&& shown@ == teams@
            &&& question@ == "  Select team [1-"@ + decimal_text(teams@.len()) + "]: "@
            &&& step.notes@.len() == teams@.len() + 1
            &&& step.notes@[0]@ == "  Available teams:"@
            &&& forall|i: int|
                0 <= i < teams@.len() ==> (#[trigger] step.notes@[i + 1])@ == "    "@ + decimal_text(
                    (i + 1) as nat,
                ) + ". "@ + teams@[i].name@
        },
{
    lemma_notes(step);
    if teams@.len() == 1 {
        let notes = seq![named_text("  Team: "@, teams@[0].name@, teams@[0].id@, "\n"@)];
        lemma_team_step_settles(notes, token@, assignee_id@, teams@[0], step);
    } else {
        lemma_menu_head(teams@);
        assert forall|i: int| 0 <= i < teams@.len() implies (#[trigger] step.notes@[i + 1])@
            == "    "@ + decimal_text((i + 1) as nat) + ". "@ + teams@[i].name@ by {
            lemma_menu_line(teams@, i);
        }
    }
}

proof fn lemma_menu_head(teams: Seq<LinearTeam>)
    ensures
        menu_texts(teams).len() == teams.len() + 1,
        menu_texts(teams)[0] == "  Available teams:"@,
    decreases teams.len(),
{
    if teams.len() > 0 {
        lemma_menu_head(teams.drop_last());
    }
}

/// The team that is picked gives the settings; an answer that is no number, or the number of no
/// team, is an error.
pub proof fn law_picked_team_gives_the_settings(
    token: String,
    assignee_id: String,
    teams: Vec<LinearTeam>,
    line: String,
    answer: &str,
    picked: Result<&LinearTeam, SetupError>,
    step: SetupStep,
)
    requires
        call_ensures(
            SetupState::advance,
            (SetupState::Team { token, assignee_id, teams }, SetupEvent::Line(line)),
            step,
        ),
        answer@ == line@,
        call_ensures(pick_team, (&teams, answer), picked),
    ensures
        picked matches Ok(team) ==> settles_on(step.turn, token@, assignee_id@, *team),
        picked matches Err(SetupError::OutOfRange) ==> step.turn matches SetupTurn::Fail(
            SetupError::OutOfRange,
        ),
        picked matches Err(SetupError::NotANumber(_)) ==> step.turn matches SetupTurn::Fail(
            SetupError::NotANumber(_),
        ),
{
    if let Ok(team) = picked {
        lemma_team_step_settles(seq![], token@, assignee_id@, *team, step);
    }
}

/// Of several teams the number picks the team: one the first, and zero the first, too. A number
/// beyond the last team, and an answer that is no number, are errors. A single team is picked
/// whatever the answer.
pub proof fn law_number_picks_the_team(
    teams: &Vec<LinearTeam>,
    line: &str,
    r: Result<&LinearTeam, SetupError>,
    n: nat,
)
    requires
        call_ensures(pick_team, (teams, line), r),
    ensures
        teams@.len() == 1 ==> r is Ok && *(r->Ok_0) == teams@[0],
        teams@.len() != 1 && number_value(trimmed(line@)) == Some(n) && 1 <= n <= teams@.len()
            ==> r is Ok && *(r->Ok_0) == teams@[n - 1],
        teams@.len() > 1 && number_value(trimmed(line@)) == Some(0nat) ==> r is Ok && *(r->Ok_0)
            == teams@[0],
        teams@.len() != 1 && number_value(trimmed(line@)) == Some(n) && teams@.len() < n
            <= usize::MAX ==> r matches Err(SetupError::OutOfRange),
        teams@.len() == 0 && number_value(trimmed(line@)) == Some(0nat) ==> r matches Err(
            SetupError::OutOfRange,
        ),
        teams@.len() != 1 && number_value(trimmed(line@)) is None ==> r matches Err(
            SetupError::NotANumber(_),
        ),
        teams@.len() != 1 && number_value(trimmed(line@)) == Some(n) && n > usize::MAX
            ==> r matches Err(SetupError::NotANumber(_)),
{
    assert(teams@.len() == teams.len());
}

/// Whether the lines from `from` on show the states of a team, and nothing else: the completed
/// one, and the started one or that there is none. A team without a completed state has no lines.
pub open spec fn shows_states(notes: Seq<String>, from: int, team: LinearTeam) -> bool {
    let states = team.states.nodes@;
    if has_no_kind(states, "completed"@) {
        notes.len() == from
    } else {
        &&& notes.len() == from + 2
        &&& forall|i: int|
            #![trigger states[i]]
            is_first_of_kind(states, "completed"@, i) ==> notes[from]@ == "  Done state: "@
                + states[i].name@ + " ("@ + states[i].id@ + ")"@ + ""@
        &&& forall|i: int|
            #![trigger states[i]]
            is_first_of_kind(states, "started"@, i) ==> notes[from + 1]@
                == "  In-progress state: "@ + states[i].name@ + " ("@ + states[i].id@ + ")"@
                + "\n"@
        &&& has_no_kind(states, "started"@) ==> notes[from + 1]@
            == "  No 'started'-type state found — in-progress sync disabled\n"@
    }
}

proof fn lemma_states_are_shown(
    notes: Seq<Seq<char>>,
    token: Seq<char>,
    assignee_id: Seq<char>,
    team: LinearTeam,
    step: SetupStep,
)
    requires
        step@ == team_step(notes, token, assignee_id, team),
    ensures
        shows_states(step.notes@, notes.len() as int, team),
{
    lemma_notes(step);
    let states = team.states.nodes@;
    lemma_first_is_found(states, "completed"@);
    lemma_first_is_found(states, "started"@);
}

/// The states of the team that is taken, at once or by its number, are shown.
pub proof fn law_states_are_shown(
    token: String,
    assignee_id: String,
    teams: Vec<LinearTeam>,
    only: SetupStep,
    line: String,
    answer: &str,
    team: &LinearTeam,
    picked: SetupStep,
)
    requires
        call_ensures(
            SetupState::advance,
            (SetupState::Teams { token, assignee_id }, SetupEvent::Teams(teams)),
            only,
        ),
        call_ensures(
            SetupState::advance,
            (SetupState::Team { token, assignee_id, teams }, SetupEvent::Line(line)),
            picked,
        ),
        answer@ == line@,
        call_ensures(pick_team, (&teams, answer), Ok(team)),
    ensures
        teams@.len() == 1 ==> shows_states(only.notes@, 1, teams@[0]),
        shows_states(picked.notes@, 0, *team),
{
    if teams@.len() == 1 {
        let notes = seq![named_text("  Team: "@, teams@[0].name@, teams@[0].id@, "\n"@)];
        lemma_states_are_shown(notes, token@, assignee_id@, teams@[0], only);
    }
    lemma_states_are_shown(seq![], token@, assignee_id@, *team, picked);
}

/// Each id that is typed, without white space around it, is kept beside those before it; one that
/// is left out is an error.
pub proof fn law_typed_assignee_is_kept(token: String, line: String, step: SetupStep)
    requires
        call_ensures(
            SetupState::advance,
            (SetupState::ManualAssignee { token }, SetupEvent::Line(line)),
            step,
        ),
    ensures
        trimmed(line@).len() > 0 ==> (step.turn matches SetupTurn::Go(
            SetupState::ManualTeam { token: kept, assignee_id },
            SetupAction::Ask(question),
        ) && kept@ == token@ && assignee_id@ == trimmed(line@) && question@
            == "Team ID              (teams.nodes[n].id)"@ + ": "@),
        trimmed(line@).len() == 0 ==> (step.turn matches SetupTurn::Fail(
            SetupError::Required(error),
        ) && error.label@ == "Your Linear user ID  (viewer.id from the query above)"@),
        step.notes@.len() == 0,
{
    lemma_notes(step);
}

/// The team that is typed is kept beside the token and the assignee; one that is left out is an
/// error.
pub proof fn law_typed_team_is_kept(
    token: String,
    assignee_id: String,
    line: String,
    step: SetupStep,
)
    requires
        call_ensures(
            SetupState::advance,
            (SetupState::ManualTeam { token, assignee_id }, SetupEvent::Line(line)),
            step,
        ),
    ensures
        trimmed(line@).len() > 0 ==> (step.turn matches SetupTurn::Go(
            SetupState::ManualDone { token: kept, assignee_id: assigned, team_id },
            SetupAction::Ask(question),
        ) && kept@ == token@ && assigned@ == assignee_id@ && team_id@ == trimmed(line@)
            && question@ == "Done workflow state ID  (the node where type==\"completed\")"@
            + ": "@),
        trimmed(line@).len() == 0 ==> (step.turn matches SetupTurn::Fail(
            SetupError::Required(error),
        ) && error.label@ == "Team ID              (teams.nodes[n].id)"@),
        step.notes@.len() == 0,
{
    lemma_notes(step);
}

/// The state of finished issues that is typed is kept beside the rest; one that is left out is an
/// error.
pub proof fn law_typed_done_state_is_kept(
    token: String,
    assignee_id: String,
    team_id: String,
    line: String,
    step: SetupStep,
)
    requires
        call_ensures(
            SetupState::advance,
            (SetupState::ManualDone { token, assignee_id, team_id }, SetupEvent::Line(line)),
            step,
        ),
    ensures
        trimmed(line@).len() > 0 ==> (step.turn matches SetupTurn::Go(
            SetupState::ManualInProgress {
                token: kept,
                assignee_id: assigned,
                team_id: team,
                done_state_id,
            },
            SetupAction::AskOptional(question),
        ) && kept@ == token@ && assigned@ == assignee_id@ && team@ == team_id@ && done_state_id@
            == trimmed(line@) && question@ == "In-progress workflow state ID"@ + " ["@ + ""@
            + "]: "@ && step.notes@.len() == 1 && step.notes@[0]@
            == "  (optional) In-progress workflow state ID — leave blank to skip"@),
        trimmed(line@).len() == 0 ==> (step.turn matches SetupTurn::Fail(
            SetupError::Required(error),
        ) && error.label@ == "Done workflow state ID  (the node where type==\"completed\")"@),
{
    lemma_notes(step);
}

/// The settings hold all that was typed; a blank last answer leaves the state of started issues
/// out.
pub proof fn law_typed_settings_are_saved(
    token: String,
    assignee_id: String,
    team_id: String,
    done_state_id: String,
    line: String,
    step: SetupStep,
)
    requires
        call_ensures(
            SetupState::advance,
            (
                SetupState::ManualInProgress { token, assignee_id, team_id, done_state_id },
                SetupEvent::Line(line),
            ),
            step,
        ),
    ensures
        step.turn matches SetupTurn::Go(SetupState::Done, SetupAction::Save(config))
            && config.api_token@ == token@ && config.assignee_id@ == assignee_id@
            && config.team_id@ == team_id@ && config.done_state_id@ == done_state_id@ && (if trimmed(
            line@,
        ).len() > 0 {
            config.in_progress_state_id is Some && (config.in_progress_state_id->0)@ == trimmed(
                line@,
            )
        } else {
            config.in_progress_state_id is None
        }),
        step.notes@.len() == 0,
{
    lemma_notes(step);
}

/// An event is waited for exactly where its kind is the one that was asked for.
pub proof fn law_expected_events(state: &SetupState, event: &SetupEvent, r: bool)
    requires
        call_ensures(SetupState::expects, (state, event), r),
    ensures
        r <==> match *state {
            SetupState::Viewer { .. } => *event is Viewer,
            SetupState::User { .. } => *event is User,
            SetupState::Teams { .. } => *event is Teams,
            SetupState::Done => false,
            _ => *event is Line,
        },
{
}

/// The user is told what failed, and for whom.
pub proof fn law_setup_errors_are_told(error: &SetupError, r: String)
    requires
        call_ensures(SetupError::message, (error,), r),
    ensures
        match *error {
            SetupError::Required(open) => r@ == open.label@ + " is required"@,
            SetupError::NoUser { email } => r@ == "No Linear user found with email '"@ + email@
                + "'"@,
            SetupError::NotANumber(_) => r@ == "Expected a number"@,
            SetupError::OutOfRange => r@ == "Index out of range"@,
            SetupError::NoDoneState { team } => r@ == "No completed state in team '"@ + team@
                + "'"@,
        },
{
}

/// The user is told where the settings are and what to do next.
pub proof fn law_saved_settings_are_told(path: &str, notes: Vec<String>)
    requires
        call_ensures(saved_notes, (path,), notes),
    ensures
        notes@.len() == 2,
        notes@[0]@ == "\n  ✓ Config saved to "@ + path@,
        notes@[1]@ == "    Run `linear-sync install-hooks` to wire up taskwarrior."@,
{
    assert(texts(notes@).len() == notes@.len());
    assert(texts(notes@)[0] == notes@[0]@);
    assert(texts(notes@)[1] == notes@[1]@);
}

} // verus!
