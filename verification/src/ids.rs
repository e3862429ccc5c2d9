//! The report of ids that a configuration needs.
use crate::model::{LinearTeam, LinearUser, WorkflowState};
use crate::text::{pad_with_dots, padded, texts};
use vstd::prelude::*;

verus! {

/// The question for a token that may read.
pub const READ_TOKEN_LABEL: &'static str = "Read-scope API token";

/// What the user is told of a token that may not.
pub const NOT_AUTHENTICATED_MESSAGE: &'static str =
    "Authentication failed — this command needs a token with 'read' scope";

/// The lines on the user that a token belongs to.
pub open spec fn viewer_texts(viewer: LinearUser) -> Seq<Seq<char>> {
    seq![
        "\n── You ──────────────────────────────────"@,
        "  user id : "@ + viewer.id@,
        "  name    : "@ + viewer.name@,
        "  email   : "@ + viewer.email@,
    ]
}

/// The line on a state: its name, with dots up to a common column, its id and its kind.
pub open spec fn state_text(state: WorkflowState) -> Seq<char> {
    "    "@ + padded(state.name@ + " "@, '.', 40) + " id: "@ + state.id@ + "  type: "@
        + state.kind@
}

/// The lines on a team and its states.
pub open spec fn team_texts(team: LinearTeam) -> Seq<Seq<char>> {
    seq![
        "\n── Team: "@ + team.name@ + " ─────────────────────────────"@,
        "  team id : "@ + team.id@,
        "  workflow states:"@,
    ] + team.states.nodes@.map_values(|state: WorkflowState| state_text(state))
}

/// The lines on the user that a token belongs to.
pub fn viewer_report(viewer: &LinearUser) -> (lines: Vec<String>)
    ensures
        texts(lines@) == viewer_texts(*viewer),
{
    let mut lines: Vec<String> = Vec::new();
    lines.push("\n── You ──────────────────────────────────".to_owned());
    lines.push("  user id : ".to_owned().concat(viewer.id.as_str()));
    lines.push("  name    : ".to_owned().concat(viewer.name.as_str()));
    lines.push("  email   : ".to_owned().concat(viewer.email.as_str()));
    assert(texts(lines@) =~= viewer_texts(*viewer));
    lines
}

/// The line on a state.
fn state_line(state: &WorkflowState) -> (line: String)
    ensures
        line@ == state_text(*state),
{
    let name = pad_with_dots(state.name.clone().concat(" "), 40);
    "    ".to_owned().concat(name.as_str()).concat(" id: ").concat(state.id.as_str()).concat(
        "  type: ",
    ).concat(state.kind.as_str())
}

/// The lines on a team and its states.
pub fn team_report(team: &LinearTeam) -> (lines: Vec<String>)
    ensures
        texts(lines@) == team_texts(*team),
{
    let mut lines: Vec<String> = Vec::new();
    lines.push(
        "\n── Team: ".to_owned().concat(team.name.as_str()).concat(
            " ─────────────────────────────",
        ),
    );
    lines.push("  team id : ".to_owned().concat(team.id.as_str()));
    lines.push("  workflow states:".to_owned());
    let ghost head = texts(lines@);
    let ghost states = team.states.nodes@.map_values(|state: WorkflowState| state_text(state));
    let mut i: usize = 0;
    while i < team.states.nodes.len()
        invariant
            i <= team.states.nodes@.len(),
            states == team.states.nodes@.map_values(|state: WorkflowState| state_text(state)),
            texts(lines@) =~= head + states.take(i as int),
        decreases team.states.nodes@.len() - i,
    {
        let ghost before = lines@;
        let line = state_line(&team.states.nodes[i]);
        lines.push(line);
        assert(texts(lines@) =~= texts(before).push(line@));
        i = i + 1;
    }
    assert(texts(lines@) =~= team_texts(*team));
    lines
}

// ---- laws ----

/// The report on a user has four lines and shows the id, the name and the address.
pub proof fn law_report_shows_the_user(viewer: &LinearUser, lines: Vec<String>)
    requires
        call_ensures(viewer_report, (viewer,), lines),
    ensures
        lines@.len() == 4,
        lines@[0]@ == "\n── You ──────────────────────────────────"@,
        lines@[1]@ == "  user id : "@ + viewer.id@,
        lines@[2]@ == "  name    : "@ + viewer.name@,
        lines@[3]@ == "  email   : "@ + viewer.email@,
{
    assert(texts(lines@) == viewer_texts(*viewer));
    assert(texts(lines@).len() == lines@.len());
    assert(texts(lines@)[0] == lines@[0]@);
    assert(texts(lines@)[1] == lines@[1]@);
    assert(texts(lines@)[2] == lines@[2]@);
    assert(texts(lines@)[3] == lines@[3]@);
}

/// Whether `line` shows the name of a state, dots up to the common column, its id and its kind.
pub open spec fn shows_state(line: Seq<char>, state: WorkflowState) -> bool {
    exists|dots: Seq<char>|
        line == #[trigger] ("    "@ + state.name@ + " "@ + dots) + " id: "@ + state.id@
            + "  type: "@ + state.kind@ && (forall|i: int|
            0 <= i < dots.len() ==> #[trigger] dots[i] == '.') && dots.len() == (if state.name@.len()
            < 39 {
            39 - state.name@.len()
        } else {
            0
        })
}

/// The report on a team has three lines on the team and then one line for each of its states, all
/// of them and in order.
pub proof fn law_report_shows_all_states(team: &LinearTeam, lines: Vec<String>)
    requires
        call_ensures(team_report, (team,), lines),
    ensures
        lines@.len() == team.states.nodes@.len() + 3,
        lines@[0]@ == "\n── Team: "@ + team.name@ + " ─────────────────────────────"@,
        lines@[1]@ == "  team id : "@ + team.id@,
        lines@[2]@ == "  workflow states:"@,
        forall|i: int|
            0 <= i < team.states.nodes@.len() ==> shows_state(
                (#[trigger] lines@[i + 3])@,
                team.states.nodes@[i],
            ),
{
    let shown = texts(lines@);
    assert(shown == team_texts(*team));
    assert(shown.len() == lines@.len());
    assert(shown[0] == lines@[0]@);
    assert(shown[1] == lines@[1]@);
    assert(shown[2] == lines@[2]@);
    assert forall|i: int| 0 <= i < team.states.nodes@.len() implies shows_state(
        (#[trigger] lines@[i + 3])@,
        team.states.nodes@[i],
    ) by {
        let state = team.states.nodes@[i];
        assert(shown[i + 3] == lines@[i + 3]@);
        assert(shown[i + 3] == state_text(state));
        reveal_strlit(" ");
        let name = state.name@ + " "@;
        assert(name.len() == state.name@.len() + 1);
        let dots = Seq::new(
            if name.len() < 40 {
                (40 - name.len()) as nat
            } else {
                0
            },
            |i: int| '.',
        );
        assert("    "@ + padded(name, '.', 40) =~= "    "@ + state.name@ + " "@ + dots);
        assert(lines@[i + 3]@ == ("    "@ + state.name@ + " "@ + dots) + " id: "@ + state.id@
            + "  type: "@ + state.kind@);
    }
}

/// The report asks for a token that may read, and says so where it may not.
pub proof fn law_report_needs_a_reading_token()
    ensures
        READ_TOKEN_LABEL@ == "Read-scope API token"@,
        NOT_AUTHENTICATED_MESSAGE@
            == "Authentication failed — this command needs a token with 'read' scope"@,
{
}

} // verus!
