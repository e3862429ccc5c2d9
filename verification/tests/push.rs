use linear_sync::config::Config;
use linear_sync::hooks::{on_modify, ModifyStart};
use linear_sync::json::{parse_json, Json};
use linear_sync::push::{
    check_uuid, first_task, link_task, linked_text, plan_push, read_export, read_export_text, start_push,
    PushAction, PushError, PushEvent, PushPlan, PushState, PushStep, PushTurn,
};
use linear_sync::{LinearClient, LinearIssue};

const UUID: &str = "67e55044-10b1-426f-9247-bb680e5fe0c8";

fn read(text: &str) -> Json {
    parse_json(text).unwrap()
}

fn issue() -> LinearIssue {
    LinearIssue {
        id: "L1".to_string(),
        identifier: "ENG-7".to_string(),
        url: "https://linear.app/i/ENG-7".to_string(),
    }
}

fn config() -> Config {
    Config {
        api_token: "token".to_string(),
        team_id: "team".to_string(),
        assignee_id: "me".to_string(),
        done_state_id: "done".to_string(),
        in_progress_state_id: None,
    }
}

fn go(step: PushStep) -> (PushState, PushAction) {
    match step.turn {
        PushTurn::Go(state, action) => (state, action),
        PushTurn::Fail(error) => panic!("{}", error.message()),
    }
}

fn failure(step: PushStep) -> String {
    match step.turn {
        PushTurn::Go(_, action) => panic!("{:?}", action),
        PushTurn::Fail(error) => error.message(),
    }
}

fn exported(printed: &str) -> PushEvent {
    PushEvent::Exported {
        success: true,
        printed: printed.as_bytes().to_vec(),
        complaint: vec![],
    }
}

#[test]
fn forms_of_uuids() {
    for text in [
        UUID,
        "67E55044-10B1-426F-9247-BB680E5FE0C8",
        "67e5504410b1426f9247bb680e5fe0c8",
        "{67e55044-10b1-426f-9247-bb680e5fe0c8}",
        "urn:uuid:67e55044-10b1-426f-9247-bb680e5fe0c8",
        "URN:Uuid:67e55044-10b1-426f-9247-bb680e5fe0c8",
    ] {
        assert!(check_uuid(text).is_ok(), "{}", text);
    }
    for text in [
        "",
        "67e55044",
        "67e55044-10b1-426f-9247-bb680e5fe0cg",
        "67e55044-10b1-426f-9247-bb680e5fe0c88",
        "67e55044010b1-426f-9247-bb680e5fe0c8",
        "67e5504-410b1-426f-9247-bb680e5fe0c8",
        "{67e5504410b1426f9247bb680e5fe0c8}",
        "(67e55044-10b1-426f-9247-bb680e5fe0c8)",
        "urn-uuid-67e55044-10b1-426f-9247-bb680e5fe0c8",
        " 67e55044-10b1-426f-9247-bb680e5fe0c8",
        "é7e55044-10b1-426f-9247-bb680e5fe0c",
        "status:pending",
    ] {
        assert!(matches!(check_uuid(text), Err(PushError::InvalidUuid(_))), "{}", text);
    }
}

#[test]
fn exports_are_read() {
    let task = read_export_text(true, r#"[{"uuid":"a"},{"uuid":"b"}]"#, "").unwrap();
    assert_eq!(task, read(r#"{"uuid":"a"}"#));
    let error = read_export_text(false, "[]", "No matches.").unwrap_err();
    assert_eq!(error.message(), "task export failed: No matches.");
    let error = read_export_text(true, "[", "").unwrap_err();
    assert!(matches!(error, PushError::BadExport(_)));
    assert_eq!(error.message(), "Failed to parse task export JSON");
    let error = read_export_text(true, "{}", "").unwrap_err();
    assert!(matches!(error, PushError::ExportNotList));
    assert_eq!(error.message(), "Failed to parse task export JSON");
    let error = read_export_text(true, "[]", "").unwrap_err();
    assert!(matches!(error, PushError::NoTask));
    assert_eq!(error.message(), "No task found with that UUID");
    assert_eq!(first_task(read("[1,2,3]")).unwrap(), read("1"));
}

#[test]
fn exports_are_read_from_bytes() {
    let task = read_export(true, "[{\"description\":\"é日😀\"}]".as_bytes(), b"").unwrap();
    assert_eq!(task.member_text("description"), Some("é日😀"));
    let task = read_export(true, b"[\"a\xffb\"]", b"").unwrap();
    assert_eq!(task, Json::string("a\u{fffd}b"));
    let error = read_export(false, b"[]", b"bad \xc3\x28").unwrap_err();
    assert_eq!(error.message(), "task export failed: bad \u{fffd}(");
}

#[test]
fn plans_for_tasks() {
    assert_eq!(plan_push(&read(r#"{"linearid":"x"}"#)), PushPlan::AlreadyLinked);
    assert_eq!(
        plan_push(&read(r#"{"description":"T","lineardescription":"D"}"#)),
        PushPlan::Create {
            title: "T".to_string(),
            description: Some("D".to_string())
        }
    );
    assert_eq!(
        plan_push(&read(r#"{"linearid":null,"description":5}"#)),
        PushPlan::Create {
            title: "Untitled task".to_string(),
            description: None
        }
    );
}

#[test]
fn issue_is_noted_in_the_task() {
    let task = r#"{"description":"T","id":3,"linearurl":"old"}"#;
    assert_eq!(
        linked_text(read(task), &issue()),
        r#"{"description":"T","id":3,"linearid":"L1","linearidentifier":"ENG-7","linearurl":"https://linear.app/i/ENG-7"}"#
    );
    assert_eq!(link_task(read("[1]"), &issue()), read("[1]"));
}

#[test]
fn linked_task_gets_no_second_issue() {
    let linked = link_task(read(r#"{"description":"T"}"#), &issue());
    assert_eq!(plan_push(&linked), PushPlan::AlreadyLinked);
}

#[test]
fn imported_text_names_the_issue() {
    let text = linked_text(read(r#"{"description":"T","urgency":0.1,"id":12}"#), &issue());
    let back = read(&text);
    assert_eq!(back.member_text("linearid"), Some("L1"));
    assert_eq!(back.member_text("linearurl"), Some("https://linear.app/i/ENG-7"));
    assert_eq!(back.member_text("linearidentifier"), Some("ENG-7"));
    assert_eq!(back.member_text("description"), Some("T"));
    assert_eq!(plan_push(&back), PushPlan::AlreadyLinked);
}

#[test]
fn linked_task_is_kept_in_step() {
    let text = linked_text(read(r#"{"description":"T"}"#), &issue());
    match on_modify(Some("{}"), Some(&text)).unwrap() {
        ModifyStart::Sync(modification) => assert_eq!(modification.issue_id, "L1"),
        ModifyStart::PassThrough(_) => panic!("the task has an issue"),
    }
}

#[test]
fn push_from_start_to_end() {
    let step = start_push(UUID);
    assert_eq!(step.notes, Vec::<String>::new());
    let (state, action) = go(step);
    assert_eq!(action, PushAction::Export);

    let event = exported(r#"[{"description":"T","lineardescription":"D","urgency":1.5}]"#);
    assert!(state.expects(&event));
    let step = state.advance(event);
    assert_eq!(step.notes, Vec::<String>::new());
    let (state, action) = go(step);
    assert_eq!(action, PushAction::LoadConfig);

    let event = PushEvent::Configured(config());
    assert!(state.expects(&event));
    let (state, action) = go(state.advance(event));
    let client = LinearClient::new("token".to_string());
    assert_eq!(
        action,
        PushAction::Send(client.create_issue("T", Some("D"), "team", "me"))
    );

    let event = PushEvent::Created(issue());
    assert!(state.expects(&event));
    let step = state.advance(event);
    assert_eq!(
        step.notes,
        vec!["linear-sync: created ENG-7 — https://linear.app/i/ENG-7".to_string()]
    );
    let (state, action) = go(step);
    assert_eq!(
        action,
        PushAction::Import(
            r#"{"description":"T","lineardescription":"D","linearid":"L1","linearidentifier":"ENG-7","linearurl":"https://linear.app/i/ENG-7","urgency":1.5}"#
                .to_string()
        )
    );

    let event = PushEvent::Imported { success: true };
    assert!(state.expects(&event));
    assert!(!state.expects(&PushEvent::Configured(config())));
    let step = state.advance(event);
    assert_eq!(
        step.notes,
        vec!["linear-sync: task updated with Linear IDs".to_string()]
    );
    let (state, action) = go(step);
    assert_eq!(action, PushAction::Stop);
    assert_eq!(state, PushState::Done);
    assert!(!state.expects(&PushEvent::Imported { success: true }));
}

#[test]
fn push_stops_at_a_linked_task() {
    let (state, _) = go(start_push(UUID));
    let step = state.advance(exported(r#"[{"linearid":"x"}]"#));
    assert_eq!(
        step.notes,
        vec!["linear-sync: task already has a Linear issue, skipping".to_string()]
    );
    let (state, action) = go(step);
    assert_eq!(action, PushAction::Stop);
    assert_eq!(state, PushState::Done);
}

#[test]
fn push_failures() {
    assert_eq!(failure(start_push("nonsense")), "Invalid UUID");
    let (state, _) = go(start_push(UUID));
    assert_eq!(failure(state.advance(exported("[]"))), "No task found with that UUID");
    let failed = PushState::Importing.advance(PushEvent::Imported { success: false });
    assert_eq!(failure(failed), "task import failed");
}
