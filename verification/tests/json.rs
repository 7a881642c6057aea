use job_runner::json::{
    error_message, first_text, status, string_reply, task_id, text_at, told_or,
};
use serde_json::Value;

fn value(text: &str) -> Value {
    serde_json::from_str(text).unwrap()
}

#[test]
fn strings_are_read_from_objects() {
    let v = value(r#"{"a": "x", "b": 1, "c": null}"#);
    assert_eq!(text_at(&v, "a"), Some("x".to_string()));
    assert_eq!(text_at(&v, "b"), None);
    assert_eq!(text_at(&v, "c"), None);
    assert_eq!(text_at(&v, "d"), None);
    assert_eq!(text_at(&value(r#"["a"]"#), "a"), None);
    assert_eq!(text_at(&value(r#""a""#), "a"), None);
}

#[test]
fn token_reply_must_be_a_string() {
    assert_eq!(string_reply(&value(r#""token""#)), Some("token".to_string()));
    assert_eq!(string_reply(&value(r#"{"token": "t"}"#)), None);
    assert_eq!(string_reply(&value("null")), None);
    assert_eq!(string_reply(&value("7")), None);
}

#[test]
fn task_id_stands_alone_or_in_an_object() {
    assert_eq!(task_id(&value(r#""t-1""#)), Some("t-1".to_string()));
    assert_eq!(task_id(&value(r#"{"SubmitJob": "t-2"}"#)), Some("t-2".to_string()));
    assert_eq!(task_id(&value(r#"{"SubmitJob": 2}"#)), None);
    assert_eq!(task_id(&value(r#"{"other": "t"}"#)), None);
    assert_eq!(task_id(&value(r#"["t"]"#)), None);
    assert_eq!(task_id(&value("null")), None);
}

#[test]
fn status_is_unknown_where_none_is_told() {
    assert_eq!(status(&value(r#"{"status": "done"}"#)), "done");
    assert_eq!(status(&value(r#"{"status": 3}"#)), "unknown");
    assert_eq!(status(&value("{}")), "unknown");
    assert_eq!(status(&value(r#""done""#)), "unknown");
}

#[test]
fn error_comes_from_the_first_place_that_tells_it() {
    assert_eq!(error_message(&value(r#"{"error": "e", "stderr": "s"}"#)), "e");
    assert_eq!(
        error_message(&value(r#"{"error": {"reason": "r", "message": "m"}, "stderr": "s"}"#)),
        "r"
    );
    assert_eq!(error_message(&value(r#"{"error": {"reason": 1, "message": "m"}}"#)), "m");
    assert_eq!(error_message(&value(r#"{"error": {}, "stderr": "s", "message": "m"}"#)), "s");
    assert_eq!(error_message(&value(r#"{"error": 5, "message": "m", "details": "d"}"#)), "m");
    assert_eq!(error_message(&value(r#"{"stderr": null, "details": "d"}"#)), "d");
    assert_eq!(error_message(&value("{}")), "Unknown error");
    assert_eq!(error_message(&value("[]")), "Unknown error");
}

#[test]
fn first_told_text_wins() {
    let a = || Some("a".to_string());
    let b = || Some("b".to_string());
    assert_eq!(first_text(a(), b()), a());
    assert_eq!(first_text(None, b()), b());
    assert_eq!(first_text(None, None), None);
    assert_eq!(told_or(a(), "c"), "a");
    assert_eq!(told_or(None, "c"), "c");
}
