use linear_sync::config::Config;
use linear_sync::hooks::{
    finish_modify, on_add, on_modify, plan_calls, settled_task, skip_notice, start_modify, Change,
    HookError, ModifyPlan, ModifyStart, SyncCall,
};
use linear_sync::json::{parse_json, Json};
use linear_sync::task::annotations_set;
use linear_sync::LinearClient;

fn config() -> Config {
    Config {
        api_token: "token".to_string(),
        team_id: "team".to_string(),
        assignee_id: "me".to_string(),
        done_state_id: "done".to_string(),
        in_progress_state_id: Some("doing".to_string()),
    }
}

fn read(text: &str) -> Json {
    parse_json(text).unwrap()
}

fn call(change: Change) -> SyncCall {
    SyncCall {
        issue_id: "L1".to_string(),
        change,
    }
}

fn calls(old: &str, new: &str) -> Vec<SyncCall> {
    plan_calls(&read(old), &read(new), "L1", &config())
}

fn comment(body: &str) -> SyncCall {
    call(Change::Comment {
        body: body.to_string(),
    })
}

fn run(old: &str, new: &str) -> ModifyPlan {
    match on_modify(Some(old), Some(new)).unwrap() {
        ModifyStart::Sync(modification) => finish_modify(modification, Some(&config())),
        ModifyStart::PassThrough(_) => panic!("the task has an issue"),
    }
}

#[test]
fn added_task_passes_unchanged() {
    assert_eq!(on_add("{\"description\":\"a  b\"}\n"), "{\"description\":\"a  b\"}");
    assert_eq!(on_add(""), "");
    assert_eq!(on_add(" \t\r\n"), "");
}

#[test]
fn white_space_is_what_unicode_says() {
    let white = [
        '\u{9}', '\u{a}', '\u{b}', '\u{c}', '\u{d}', '\u{20}', '\u{85}', '\u{a0}', '\u{1680}',
        '\u{2000}', '\u{2001}', '\u{2002}', '\u{2003}', '\u{2004}', '\u{2005}', '\u{2006}',
        '\u{2007}', '\u{2008}', '\u{2009}', '\u{200a}', '\u{2028}', '\u{2029}', '\u{202f}',
        '\u{205f}', '\u{3000}',
    ];
    let mut found: Vec<char> = Vec::new();
    for n in 0..=0x10ffffu32 {
        if let Some(c) = char::from_u32(n) {
            let line = format!("{}x{}", c, c);
            if on_add(&line) == "x" {
                found.push(c);
            } else {
                assert_eq!(on_add(&line), line);
            }
        }
    }
    assert_eq!(found, white);
}

#[test]
fn task_without_issue_passes_unchanged() {
    let old = r#"{"status":"pending"}"#;
    let new = r#" {"status": "completed", "linearcomment":"x"} "#;
    assert_eq!(
        on_modify(Some(old), Some(new)).unwrap(),
        ModifyStart::PassThrough(r#"{"status": "completed", "linearcomment":"x"}"#.to_string())
    );
    assert_eq!(
        on_modify(Some("{}"), Some(r#"{"linearid":7}"#)).unwrap(),
        ModifyStart::PassThrough(r#"{"linearid":7}"#.to_string())
    );
    assert_eq!(
        start_modify(Json::Null, read("[]"), "line".to_string()),
        ModifyStart::PassThrough("line".to_string())
    );
}

#[test]
fn empty_issue_id_is_an_issue() {
    match on_modify(Some("{}"), Some(r#"{"linearid":""}"#)).unwrap() {
        ModifyStart::Sync(modification) => assert_eq!(modification.issue_id, ""),
        ModifyStart::PassThrough(_) => panic!("the task names an issue"),
    }
}

#[test]
fn lines_that_are_missing_or_broken() {
    let error = on_modify(None, None).unwrap_err();
    assert!(matches!(error, HookError::MissingOriginal));
    assert_eq!(error.message(), "Missing original task JSON");
    let error = on_modify(Some("{"), None).unwrap_err();
    assert!(matches!(error, HookError::MissingModified));
    assert_eq!(error.message(), "Missing modified task JSON");
    let error = on_modify(Some("{"), Some("{")).unwrap_err();
    assert!(matches!(error, HookError::BadOriginal(_)));
    assert_eq!(error.message(), "Failed to parse original task");
    let error = on_modify(Some("{}"), Some("{")).unwrap_err();
    assert!(matches!(error, HookError::BadModified(_)));
    assert_eq!(error.message(), "Failed to parse modified task");
}

#[test]
fn without_settings_the_line_passes() {
    let new = r#"{"linearid":"L1", "linearcomment":"x"}"#;
    match on_modify(Some("{}"), Some(new)).unwrap() {
        ModifyStart::Sync(modification) => {
            let plan = finish_modify(modification, None);
            assert_eq!(plan.calls, vec![]);
            assert_eq!(plan.output, new);
        }
        ModifyStart::PassThrough(_) => panic!("the task has an issue"),
    }
    assert_eq!(skip_notice("why"), "linear-sync: skipping on-modify (why)");
}

#[test]
fn completion_is_sent_when_the_task_becomes_completed() {
    let done = call(Change::Complete {
        state_id: "done".to_string(),
    });
    assert_eq!(
        calls(r#"{"status":"pending"}"#, r#"{"status":"completed"}"#),
        vec![done]
    );
    assert_eq!(calls(r#"{"status":"completed"}"#, r#"{"status":"completed"}"#), vec![]);
    assert_eq!(calls(r#"{"status":"completed"}"#, r#"{"status":"pending"}"#), vec![]);
    assert_eq!(calls("{}", r#"{"status":"completed"}"#).len(), 1);
}

#[test]
fn start_is_sent_when_the_task_is_started() {
    let started = call(Change::Start {
        state_id: "doing".to_string(),
    });
    assert_eq!(calls("{}", r#"{"start":"20260101T000000Z"}"#), vec![started]);
    assert_eq!(calls(r#"{"start":"a"}"#, r#"{"start":"b"}"#), vec![]);
    assert_eq!(calls(r#"{"start":"a"}"#, "{}"), vec![]);
    let mut without = config();
    without.in_progress_state_id = None;
    assert_eq!(
        plan_calls(&read("{}"), &read(r#"{"start":"a"}"#), "L1", &without),
        vec![]
    );
}

#[test]
fn changed_texts_are_sent() {
    let title = call(Change::Title {
        title: "new".to_string(),
    });
    assert_eq!(
        calls(r#"{"description":"old"}"#, r#"{"description":"new"}"#),
        vec![title]
    );
    assert_eq!(calls(r#"{"description":"old"}"#, r#"{"description":""}"#), vec![]);
    assert_eq!(calls(r#"{"description":"old"}"#, "{}"), vec![]);
    let description = call(Change::Description {
        description: "new".to_string(),
    });
    assert_eq!(calls("{}", r#"{"lineardescription":"new"}"#), vec![description]);
    assert_eq!(calls(r#"{"lineardescription":"old"}"#, "{}"), vec![]);
}

#[test]
fn waiting_comment_is_posted_and_cleared() {
    let plan = run(
        r#"{"linearid":"L1"}"#,
        r#"{"linearid":"L1","linearcomment":"hi","urgency":8.3}"#,
    );
    assert_eq!(plan.calls, vec![comment("hi")]);
    assert_eq!(plan.output, r#"{"linearid":"L1","urgency":8.3}"#);
    let plan = run(
        r#"{"linearid":"L1"}"#,
        r#"{"linearid":"L1","linearcomment":""}"#,
    );
    assert_eq!(plan.calls, vec![]);
    assert_eq!(plan.output, r#"{"linearcomment":"","linearid":"L1"}"#);
    assert_eq!(settled_task(read(r#"{"linearcomment":5}"#)).print(), r#"{"linearcomment":5}"#);
}

#[test]
fn new_annotations_are_posted() {
    let old = r#"{"annotations":[{"entry":"1","description":"one"}]}"#;
    let new = r#"{"annotations":[
        {"entry":"1","description":"one, edited"},
        {"entry":"2","description":"two"},
        {"entry":"3","description":"three"},
        {"entry":"4"},
        {"description":"no entry"},
        "text",
        {"entry":5,"description":"number"}
    ]}"#;
    assert_eq!(calls(old, new), vec![comment("two"), comment("three")]);
    assert_eq!(calls(new, old), vec![]);
    assert_eq!(calls("{}", r#"{"annotations":{"entry":"1","description":"x"}}"#), vec![]);
}

#[test]
fn later_annotation_of_an_entry_counts() {
    let task = read(
        r#"{"annotations":[
        {"entry":"1","description":"first"},
        {"entry":"2","description":"other"},
        {"entry":"1","description":"second"}]}"#,
    );
    let pair = |a: &str, b: &str| (a.to_string(), b.to_string());
    assert_eq!(annotations_set(&task), vec![pair("2", "other"), pair("1", "second")]);
    assert_eq!(annotations_set(&read("{}")), vec![]);
    assert_eq!(annotations_set(&read(r#"{"annotations":"x"}"#)), vec![]);
}

#[test]
fn all_changes_at_once_come_in_order() {
    let old = r#"{"status":"pending","description":"a"}"#;
    let new = r#"{"status":"completed","start":"s","description":"b","lineardescription":"d",
        "linearcomment":"c","annotations":[{"entry":"1","description":"n"}]}"#;
    assert_eq!(
        calls(old, new),
        vec![
            call(Change::Complete {
                state_id: "done".to_string()
            }),
            call(Change::Start {
                state_id: "doing".to_string()
            }),
            call(Change::Title {
                title: "b".to_string()
            }),
            call(Change::Description {
                description: "d".to_string()
            }),
            comment("c"),
            comment("n"),
        ]
    );
}

#[test]
fn output_fed_back_asks_for_nothing() {
    let first = run(
        r#"{"linearid":"L1","status":"pending"}"#,
        r#"{"linearid":"L1","status":"completed","start":"s","linearcomment":"c",
            "annotations":[{"entry":"1","description":"n"}],"urgency":11.3,"id":4}"#,
    );
    assert_eq!(first.calls.len(), 4);
    let second = run(&first.output, &first.output);
    assert_eq!(second.calls, vec![]);
    assert_eq!(second.output, first.output);
}

#[test]
fn printed_task_is_one_line() {
    let plan = run(
        r#"{"linearid":"L1"}"#,
        r#"{"linearid":"L1","description":"a\nb\r\n","x":[{"k\n":1}]}"#,
    );
    assert!(!plan.output.contains('\n'));
    assert!(!plan.output.contains('\r'));
    let back = read(&plan.output);
    assert_eq!(back.member_text("description"), Some("a\nb\r\n"));
    assert!(!on_add(" {\"a\":1}\r\n").contains('\n'));
    match on_modify(Some("{}"), Some(" {\"a\":1} \r")).unwrap() {
        ModifyStart::PassThrough(output) => assert_eq!(output, "{\"a\":1}"),
        ModifyStart::Sync(_) => panic!("the task has no issue"),
    }
}

#[test]
fn numbers_make_no_difference() {
    let old = r#"{"status":"pending","urgency":1.5,"id":1}"#;
    let new = r#"{"status":"completed","urgency":0,"id":0}"#;
    let other_old = r#"{"status":"pending","urgency":7,"id":2.5}"#;
    let other_new = r#"{"status":"completed","urgency":-3e5,"id":9}"#;
    assert_eq!(calls(old, new), calls(other_old, other_new));
    assert_eq!(calls(old, new).len(), 1);
}

#[test]
fn requests_of_calls() {
    let client = LinearClient::new("token".to_string());
    let complete = call(Change::Complete {
        state_id: "done".to_string(),
    });
    assert_eq!(complete.request(&client), client.set_issue_state("L1", "done"));
    let start = call(Change::Start {
        state_id: "doing".to_string(),
    });
    assert_eq!(start.request(&client), client.set_issue_state("L1", "doing"));
    let title = call(Change::Title {
        title: "t".to_string(),
    });
    assert_eq!(title.request(&client), client.update_issue("L1", Some("t"), None));
    let description = call(Change::Description {
        description: "d".to_string(),
    });
    assert_eq!(description.request(&client), client.update_issue("L1", None, Some("d")));
    assert_eq!(comment("c").request(&client), client.create_comment("L1", "c"));
}

#[test]
fn replies_to_calls() {
    let complete = call(Change::Complete {
        state_id: "done".to_string(),
    });
    let moved = r#"{"issueUpdate":{"success":true}}"#;
    assert_eq!(complete.settle(read(moved)).unwrap(), None);
    assert_eq!(
        complete.settle(read("{}")).unwrap_err().message(),
        "issueUpdate returned success=false"
    );
    let title = call(Change::Title {
        title: "t".to_string(),
    });
    assert_eq!(title.settle(Json::Null).unwrap(), None);
    let made = r#"{"commentCreate":{"comment":{"id":"C9"}}}"#;
    assert_eq!(
        comment("c").settle(read(made)).unwrap().unwrap().member_text("id"),
        Some("C9")
    );
}

#[test]
fn notices_of_calls() {
    let complete = call(Change::Complete {
        state_id: "s".to_string(),
    });
    let start = call(Change::Start {
        state_id: "s".to_string(),
    });
    let title = call(Change::Title {
        title: "t".to_string(),
    });
    let description = call(Change::Description {
        description: "d".to_string(),
    });
    assert_eq!(complete.done_notice(""), "linear-sync: marked Linear issue as completed");
    assert_eq!(start.done_notice(""), "linear-sync: moved Linear issue to in-progress");
    assert_eq!(title.done_notice(""), "linear-sync: updated Linear issue title");
    assert_eq!(description.done_notice(""), "linear-sync: updated Linear issue description");
    assert_eq!(
        comment("c").done_notice("C9"),
        "linear-sync: added comment C9 to Linear issue"
    );
    assert_eq!(complete.failed_notice("e"), "linear-sync: failed to complete Linear issue: e");
    assert_eq!(start.failed_notice("e"), "linear-sync: failed to set in-progress state: e");
    assert_eq!(title.failed_notice("e"), "linear-sync: failed to update Linear issue title: e");
    assert_eq!(
        description.failed_notice("e"),
        "linear-sync: failed to update Linear issue description: e"
    );
    assert_eq!(
        comment("c").failed_notice("e"),
        "linear-sync: failed to create Linear comment: e"
    );
}
