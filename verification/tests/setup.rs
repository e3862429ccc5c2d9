use linear_sync::config::Config;
use linear_sync::prompt::{prompt_answer, prompt_text};
use linear_sync::setup::{
    pick_team, saved_notes, start_setup, SetupAction, SetupError, SetupEvent, SetupState,
    SetupStep, SetupTurn,
};
use linear_sync::{LinearTeam, LinearUser, WorkflowState, WorkflowStateConnection};

fn text(s: &str) -> String {
    s.to_string()
}

fn user() -> LinearUser {
    LinearUser {
        id: text("U1"),
        name: text("Ada"),
        email: text("ada@x.y"),
    }
}

fn state(id: &str, kind: &str) -> WorkflowState {
    WorkflowState {
        id: text(id),
        name: format!("state {}", id),
        kind: text(kind),
    }
}

fn team(id: &str, states: Vec<WorkflowState>) -> LinearTeam {
    LinearTeam {
        id: text(id),
        name: format!("team {}", id),
        states: WorkflowStateConnection { nodes: states },
    }
}

fn full_team(id: &str) -> LinearTeam {
    team(
        id,
        vec![
            state("todo", "unstarted"),
            state("doing", "started"),
            state("review", "started"),
            state("done", "completed"),
            state("shipped", "completed"),
        ],
    )
}

fn line(s: &str) -> SetupEvent {
    SetupEvent::Line(text(s))
}

fn go(step: SetupStep) -> (SetupState, SetupAction) {
    match step.turn {
        SetupTurn::Go(state, action) => (state, action),
        SetupTurn::Fail(error) => panic!("{}", error.message()),
    }
}

fn failure(step: SetupStep) -> String {
    match step.turn {
        SetupTurn::Go(_, action) => panic!("{:?}", action),
        SetupTurn::Fail(error) => error.message(),
    }
}

fn follow(events: Vec<SetupEvent>) -> SetupStep {
    let mut step = start_setup();
    for event in events {
        let (state, _) = go(step);
        assert!(state.expects(&event));
        step = state.advance(event);
    }
    step
}

#[test]
fn questions_and_answers() {
    assert_eq!(prompt_text("Name", None), "Name: ");
    assert_eq!(prompt_text("Name", Some("x")), "Name [x]: ");
    assert_eq!(prompt_text("Name", Some("")), "Name []: ");
    assert_eq!(prompt_answer("Name", None, " a b \n"), Ok(text("a b")));
    assert_eq!(prompt_answer("Name", Some("x"), "\n"), Ok(text("x")));
    assert_eq!(prompt_answer("Name", Some("x"), "y\n"), Ok(text("y")));
    let error = prompt_answer("Name", None, " \n").unwrap_err();
    assert_eq!(error.message(), "Name is required");
}

#[test]
fn setup_asks_for_the_token_first() {
    let step = start_setup();
    assert_eq!(
        step.notes,
        vec![
            text("=== linear-sync setup ===\n"),
            text("Go to Linear → Settings → API → Personal API Keys and create a token."),
            text("Minimum required scopes: Create Issues + Create Comments.\n"),
        ]
    );
    let (state, action) = go(step);
    assert_eq!(action, SetupAction::Ask(text("API token: ")));
    assert!(!state.expects(&SetupEvent::Viewer(None)));
    assert_eq!(failure(state.advance(line(" \n"))), "API token is required");
}

#[test]
fn setup_with_a_token_that_may_read() {
    let (state, action) = go(follow(vec![line(" tok \n")]));
    assert_eq!(action, SetupAction::FetchViewer { token: text("tok") });
    let step = state.advance(SetupEvent::Viewer(Some(user())));
    assert_eq!(step.notes, vec![text("  ✓ Authenticated as Ada (ada@x.y)\n")]);
    let (state, action) = go(step);
    assert_eq!(action, SetupAction::Ask(text("Assignee email [ada@x.y]: ")));
    let (state, action) = go(state.advance(line("\n")));
    assert_eq!(
        action,
        SetupAction::FindUser {
            token: text("tok"),
            email: text("ada@x.y")
        }
    );
    let step = state.advance(SetupEvent::User(Some(user())));
    assert_eq!(step.notes, vec![text("  Assignee: Ada (U1)\n")]);
    let (state, action) = go(step);
    assert_eq!(action, SetupAction::FetchTeams { token: text("tok") });
    let step = state.advance(SetupEvent::Teams(vec![full_team("T1")]));
    assert_eq!(
        step.notes,
        vec![
            text("  Team: team T1 (T1)\n"),
            text("  Done state: state done (done)"),
            text("  In-progress state: state doing (doing)\n"),
        ]
    );
    let (state, action) = go(step);
    assert_eq!(state, SetupState::Done);
    assert!(!state.expects(&line("x")));
    assert_eq!(
        action,
        SetupAction::Save(Config {
            api_token: text("tok"),
            team_id: text("T1"),
            assignee_id: text("U1"),
            done_state_id: text("done"),
            in_progress_state_id: Some(text("doing")),
        })
    );
}

fn choosing(teams: Vec<LinearTeam>) -> SetupStep {
    follow(vec![
        line("tok"),
        SetupEvent::Viewer(Some(user())),
        line("bob@x.y"),
        SetupEvent::User(Some(user())),
        SetupEvent::Teams(teams),
    ])
}

#[test]
fn setup_with_several_teams() {
    let step = choosing(vec![full_team("T1"), full_team("T2")]);
    assert_eq!(
        step.notes,
        vec![
            text("  Available teams:"),
            text("    1. team T1"),
            text("    2. team T2"),
        ]
    );
    let (state, action) = go(step);
    assert_eq!(action, SetupAction::Ask(text("  Select team [1-2]: ")));
    let step = state.advance(line(" 2 \n"));
    assert_eq!(step.notes.len(), 2);
    match go(step).1 {
        SetupAction::Save(config) => assert_eq!(config.team_id, "T2"),
        action => panic!("{:?}", action),
    }
}

#[test]
fn setup_without_teams() {
    let step = choosing(vec![]);
    assert_eq!(step.notes, vec![text("  Available teams:")]);
    let (state, action) = go(step);
    assert_eq!(action, SetupAction::Ask(text("  Select team [1-0]: ")));
    assert_eq!(failure(state.advance(line("1"))), "Index out of range");
}

#[test]
fn setup_failures() {
    let nobody = follow(vec![
        line("tok"),
        SetupEvent::Viewer(Some(user())),
        line("bob@x.y"),
        SetupEvent::User(None),
    ]);
    assert_eq!(failure(nobody), "No Linear user found with email 'bob@x.y'");
    let step = choosing(vec![team("T1", vec![state("doing", "started")])]);
    assert_eq!(step.notes, vec![text("  Team: team T1 (T1)\n")]);
    assert_eq!(failure(step), "No completed state in team 'team T1'");
    let (chooser, _) = go(choosing(vec![full_team("T1"), full_team("T2")]));
    assert_eq!(failure(chooser.advance(line("two"))), "Expected a number");
}

#[test]
fn setup_without_a_started_state() {
    let step = choosing(vec![team("T1", vec![state("done", "completed")])]);
    assert_eq!(
        step.notes[2],
        "  No 'started'-type state found — in-progress sync disabled\n"
    );
    match go(step).1 {
        SetupAction::Save(config) => assert_eq!(config.in_progress_state_id, None),
        action => panic!("{:?}", action),
    }
}

#[test]
fn numbers_of_teams() {
    let teams = vec![full_team("T1"), full_team("T2"), full_team("T3")];
    for (answer, id) in [("1", "T1"), ("3\n", "T3"), ("+2", "T2"), ("0", "T1"), ("002", "T2")] {
        assert_eq!(pick_team(&teams, answer).unwrap().id, id);
    }
    assert_eq!(pick_team(&teams, "4"), Err(SetupError::OutOfRange));
    for answer in ["", "-1", "1.0", "x", "1 2", "+", "1_0", "99999999999999999999999"] {
        assert!(matches!(pick_team(&teams, answer), Err(SetupError::NotANumber(_))));
    }
}

#[test]
fn only_team_is_picked_whatever_is_typed() {
    let teams = vec![full_team("T1")];
    for answer in ["", "1", "0", "2", "x", "99999999999999999999999"] {
        assert_eq!(pick_team(&teams, answer).unwrap().id, "T1");
    }
    assert_eq!(pick_team(&vec![], "1"), Err(SetupError::OutOfRange));
    assert!(matches!(pick_team(&vec![], ""), Err(SetupError::NotANumber(_))));
    let chooser = SetupState::Team {
        token: text("tok"),
        assignee_id: text("U1"),
        teams,
    };
    match go(chooser.advance(line("x"))).1 {
        SetupAction::Save(config) => assert_eq!(config.team_id, "T1"),
        action => panic!("{:?}", action),
    }
}

#[test]
fn setup_with_typed_ids() {
    let step = follow(vec![line("tok"), SetupEvent::Viewer(None)]);
    assert_eq!(
        step.notes,
        vec![
            text("  ✓ Token accepted (no read scope — entering IDs manually)\n"),
            text("  Tip: find your IDs by running this query in the Linear GraphQL playground"),
            text("  (linear.app → Help → API → Playground):\n"),
            text("    { viewer { id } teams { nodes { id name states { nodes { id name type } } } } }\n"),
        ]
    );
    let (state, action) = go(step);
    assert_eq!(
        action,
        SetupAction::Ask(text("Your Linear user ID  (viewer.id from the query above): "))
    );
    let (state, action) = go(state.advance(line(" me \n")));
    assert_eq!(
        action,
        SetupAction::Ask(text("Team ID              (teams.nodes[n].id): "))
    );
    let (state, action) = go(state.advance(line("team")));
    assert_eq!(
        action,
        SetupAction::Ask(text(
            "Done workflow state ID  (the node where type==\"completed\"): "
        ))
    );
    let step = state.advance(line("done"));
    assert_eq!(
        step.notes,
        vec![text("  (optional) In-progress workflow state ID — leave blank to skip")]
    );
    let (state, action) = go(step);
    assert_eq!(
        action,
        SetupAction::AskOptional(text("In-progress workflow state ID []: "))
    );
    match go(state.advance(line("doing\n"))).1 {
        SetupAction::Save(config) => assert_eq!(
            config,
            Config {
                api_token: text("tok"),
                team_id: text("team"),
                assignee_id: text("me"),
                done_state_id: text("done"),
                in_progress_state_id: Some(text("doing")),
            }
        ),
        action => panic!("{:?}", action),
    }
}

#[test]
fn blank_answers_to_typed_ids() {
    let start = || vec![line("tok"), SetupEvent::Viewer(None)];
    let mut events = start();
    events.push(line(""));
    assert_eq!(
        failure(follow(events)),
        "Your Linear user ID  (viewer.id from the query above) is required"
    );
    let mut events = start();
    events.push(line("me"));
    events.push(line(""));
    assert_eq!(
        failure(follow(events)),
        "Team ID              (teams.nodes[n].id) is required"
    );
    let mut events = start();
    events.push(line("me"));
    events.push(line("team"));
    events.push(line(""));
    assert_eq!(
        failure(follow(events)),
        "Done workflow state ID  (the node where type==\"completed\") is required"
    );
    let mut events = start();
    for answer in ["me", "team", "done", "  "] {
        events.push(line(answer));
    }
    match go(follow(events)).1 {
        SetupAction::Save(config) => assert_eq!(config.in_progress_state_id, None),
        action => panic!("{:?}", action),
    }
}

#[test]
fn notes_after_saving() {
    assert_eq!(
        saved_notes("/c/config.toml"),
        vec![
            text("\n  ✓ Config saved to /c/config.toml"),
            text("    Run `linear-sync install-hooks` to wire up taskwarrior."),
        ]
    );
}
