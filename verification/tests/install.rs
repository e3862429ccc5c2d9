use linear_sync::action::Action;
use linear_sync::ids::{team_report, viewer_report};
use linear_sync::install::{
    added_notice, cannot_open_message, hook_scripts, installed_notice, missing_udas,
    taskrc_addition, uda_lines, HOOK_MODE,
};
use linear_sync::{LinearTeam, LinearUser, WorkflowState, WorkflowStateConnection};

#[test]
fn scripts_run_the_program() {
    let scripts = hook_scripts("/opt/my bin/linear-sync");
    assert_eq!(scripts.len(), 2);
    assert_eq!(scripts[0].name, "on-add-linear");
    assert_eq!(
        scripts[0].script,
        "#!/bin/sh\nexec \"/opt/my bin/linear-sync\" on-add\n"
    );
    assert_eq!(scripts[1].name, "on-modify-linear");
    assert_eq!(
        scripts[1].script,
        "#!/bin/sh\nexec \"/opt/my bin/linear-sync\" on-modify\n"
    );
    assert_eq!(HOOK_MODE, 0o755);
}

#[test]
fn empty_taskrc_gets_all_lines() {
    assert_eq!(
        taskrc_addition("").unwrap(),
        "\n# linear-sync UDAs\n\
         uda.linearid.type=string\n\
         uda.linearid.label=Linear Issue ID\n\
         uda.linearurl.type=string\n\
         uda.linearurl.label=Linear Issue URL\n\
         uda.linearidentifier.type=string\n\
         uda.linearidentifier.label=Linear Identifier\n\
         uda.lineardescription.type=string\n\
         uda.lineardescription.label=Linear Description\n\
         uda.linearcomment.type=string\n\
         uda.linearcomment.label=Linear Comment\n"
    );
}

#[test]
fn only_missing_lines_are_added() {
    let existing = "x=1\n  uda.linearid.type=string # mine\nuda.linearurl.label=Linear Issue URLs";
    let missing = missing_udas(existing);
    assert_eq!(missing.len(), 8);
    assert!(!missing.contains(&"uda.linearid.type=string".to_string()));
    assert!(!missing.contains(&"uda.linearurl.label=Linear Issue URL".to_string()));
    assert_eq!(missing[0], "uda.linearid.label=Linear Issue ID");
    assert_eq!(missing[1], "uda.linearurl.type=string");
}

#[test]
fn installing_twice_adds_nothing() {
    for start in ["", "data.location=~/.task", "uda.linearcomment.type=string"] {
        let mut taskrc = start.to_string();
        taskrc.push_str(&taskrc_addition(start).unwrap());
        assert_eq!(taskrc_addition(&taskrc), None);
        assert_eq!(missing_udas(&taskrc), Vec::<String>::new());
    }
    assert_eq!(taskrc_addition(&uda_lines().join("\n")), None);
}

#[test]
fn notices_of_the_installation() {
    assert_eq!(installed_notice("/h/on-add"), "Installed: /h/on-add");
    assert_eq!(added_notice("/h/.taskrc"), "Added UDA definitions to /h/.taskrc");
    assert_eq!(cannot_open_message("/h/.taskrc"), "Cannot open /h/.taskrc");
}

#[test]
fn report_of_ids() {
    let viewer = LinearUser {
        id: "U1".to_string(),
        name: "Ada".to_string(),
        email: "ada@x.y".to_string(),
    };
    assert_eq!(
        viewer_report(&viewer),
        vec![
            "\n── You ──────────────────────────────────".to_string(),
            "  user id : U1".to_string(),
            "  name    : Ada".to_string(),
            "  email   : ada@x.y".to_string(),
        ]
    );
    let state = |id: &str, name: &str, kind: &str| WorkflowState {
        id: id.to_string(),
        name: name.to_string(),
        kind: kind.to_string(),
    };
    let long = "a state with a name that is longer than the column";
    let team = LinearTeam {
        id: "T1".to_string(),
        name: "Core".to_string(),
        states: WorkflowStateConnection {
            nodes: vec![state("s1", "Erledigt ✓", "completed"), state("s2", long, "started")],
        },
    };
    assert_eq!(
        team_report(&team),
        vec![
            "\n── Team: Core ─────────────────────────────".to_string(),
            "  team id : T1".to_string(),
            "  workflow states:".to_string(),
            format!("    {:.<40} id: {}  type: {}", "Erledigt ✓ ", "s1", "completed"),
            format!("    {:.<40} id: {}  type: {}", format!("{} ", long), "s2", "started"),
        ]
    );
}

#[test]
fn actions_differ() {
    assert_eq!(Action::AddLinear, Action::AddLinear);
    assert_ne!(Action::Add, Action::AddLinear);
}
