use linear_sync::json::{parse_json, parse_json_bytes, Json};

fn read(text: &str) -> Json {
    parse_json(text).unwrap()
}

#[test]
fn reads_every_kind_of_value() {
    let json = read(r#" {"n":null,"b":true,"t":"x","a":["y",false],"o":{"k":"v"}} "#);
    assert_eq!(json.get("n"), Some(&Json::Null));
    assert_eq!(json.get("b"), Some(&Json::Bool(true)));
    assert_eq!(json.get("t"), Some(&Json::Text("x".to_string())));
    assert_eq!(
        json.get("a"),
        Some(&Json::Array(vec![Json::Text("y".to_string()), Json::Bool(false)]))
    );
    assert_eq!(json.get("o").unwrap().member_text("k"), Some("v"));
    assert_eq!(json.get("missing"), None);
}

#[test]
fn refuses_what_is_no_json() {
    assert!(parse_json("").is_err());
    assert!(parse_json("{").is_err());
    assert!(parse_json("{} {}").is_err());
    assert!(parse_json("{'a':1}").is_err());
    assert!(parse_json("undefined").is_err());
}

#[test]
fn prints_compact_text_with_sorted_names() {
    let json = read(r#"{ "b" : [ 1, "two", null ], "a" : { "z" : true, "y" : {} } }"#);
    assert_eq!(json.print(), r#"{"a":{"y":{},"z":true},"b":[1,"two",null]}"#);
}

#[test]
fn later_member_of_a_name_counts() {
    assert_eq!(read(r#"{"a":"first","a":"second"}"#).member_text("a"), Some("second"));
    let listed = Json::Object(vec![
        ("a".to_string(), Json::string("first")),
        ("b".to_string(), Json::Null),
        ("a".to_string(), Json::string("second")),
    ]);
    assert_eq!(listed.member_text("a"), Some("second"));
    assert_eq!(listed.print(), r#"{"a":"second","b":null}"#);
}

#[test]
fn numbers_pass_unchanged() {
    let text = "[0,-7,18446744073709551615,8.3,0.1,1e300,-0.0]";
    assert_eq!(read(text).print(), "[0,-7,18446744073709551615,8.3,0.1,1e+300,-0.0]");
}

#[test]
fn strings_are_escaped_and_read_back() {
    let text = "quote \" slash \\ line\nbreak tab\t bell\u{7} é 日 😀";
    let printed = Json::string(text).print();
    assert_eq!(
        printed,
        "\"quote \\\" slash \\\\ line\\nbreak tab\\t bell\\u0007 é 日 😀\""
    );
    assert_eq!(read(&printed), Json::Text(text.to_string()));
}

#[test]
fn plain_values_read_back_as_they_were() {
    let text = r#"{"a":["x",{"b":null}],"c":true}"#;
    assert_eq!(read(&read(text).print()), read(text));
}

fn nested(depth: usize) -> String {
    let mut text = String::new();
    for _ in 0..depth {
        text.push('[');
    }
    for _ in 0..depth {
        text.push(']');
    }
    text
}

#[test]
fn nesting_is_read_up_to_its_limit() {
    let deepest = nested(127);
    assert_eq!(read(&deepest).print(), deepest);
    assert!(parse_json(&nested(128)).is_err());
    let mut json = Json::Null;
    for _ in 0..127 {
        json = Json::object().with("a", json);
    }
    let text = json.print();
    assert_eq!(read(&text).print(), text);
}

#[test]
fn bytes_are_read_like_text() {
    assert_eq!(parse_json_bytes(b"[\"a\",1]").unwrap(), read("[\"a\",1]"));
    assert!(parse_json_bytes(b"[").is_err());
    assert!(parse_json_bytes(&[b'"', 0xff, b'"']).is_err());
}

#[test]
fn members_are_set_and_removed() {
    let json = read(r#"{"a":"1","b":"2"}"#);
    let json = json.with("b", Json::Bool(true)).with("c", Json::Null).without("a").without("x");
    assert_eq!(json.print(), r#"{"b":true,"c":null}"#);
}

#[test]
fn values_without_members_stay_as_they_are() {
    assert_eq!(Json::string("x").with("a", Json::Null), Json::string("x"));
    assert_eq!(read("[1]").without("a"), read("[1]"));
    assert_eq!(Json::Null.get("a"), None);
    assert_eq!(Json::Null.member_text("a"), None);
}

#[test]
fn texts_of_members() {
    let json = read(r#"{"t":"x","n":5,"e":""}"#);
    assert_eq!(json.member_text("t"), Some("x"));
    assert_eq!(json.member_text("n"), None);
    assert_eq!(json.member_text("e"), Some(""));
    assert_eq!(json.text_or_empty("t"), "x");
    assert_eq!(json.text_or_empty("n"), "");
    assert_eq!(json.text_or_empty("missing"), "");
}

#[test]
fn members_are_taken_out() {
    assert_eq!(read(r#"{"a":{"b":"c"}}"#).into_member("a").into_member("b"), Json::string("c"));
    assert_eq!(read(r#"{"a":1}"#).into_member("b"), Json::Null);
    assert_eq!(read("[1]").into_member("a"), Json::Null);
    let listed = Json::Object(vec![
        ("a".to_string(), Json::string("first")),
        ("a".to_string(), Json::string("second")),
    ]);
    assert_eq!(listed.into_member("a"), Json::string("second"));
}

#[test]
fn optional_strings() {
    assert_eq!(Json::optional_string(Some("x")), Json::string("x"));
    assert_eq!(Json::optional_string(None), Json::Null);
    assert_eq!(Json::object().print(), "{}");
}
