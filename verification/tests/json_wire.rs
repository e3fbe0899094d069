use graphql_gateway::json::{to_json_string, wf_check, JsonVal};
use graphql_gateway::result::{ErrorLocation, ExecError, ExecutionResult};

#[test]
fn scalars_encode_exactly() {
    assert_eq!(to_json_string(&JsonVal::Null), "null");
    assert_eq!(to_json_string(&JsonVal::Bool(true)), "true");
    assert_eq!(to_json_string(&JsonVal::Bool(false)), "false");
    assert_eq!(to_json_string(&JsonVal::Int(0)), "0");
    assert_eq!(to_json_string(&JsonVal::Int(42)), "42");
    assert_eq!(to_json_string(&JsonVal::Int(-7)), "-7");
    assert_eq!(to_json_string(&JsonVal::Int(i64::MAX)), "9223372036854775807");
    assert_eq!(to_json_string(&JsonVal::Int(i64::MIN)), "-9223372036854775808");
    assert_eq!(to_json_string(&JsonVal::Num("3.25e2".to_string())), "3.25e2");
}

#[test]
fn strings_escape_exactly() {
    assert_eq!(to_json_string(&JsonVal::Text(String::new())), "\"\"");
    assert_eq!(
        to_json_string(&JsonVal::Text("a\"b\\c\nd\te\rf".to_string())),
        "\"a\\\"b\\\\c\\nd\\te\\rf\""
    );
    assert_eq!(
        to_json_string(&JsonVal::Text("\u{1}\u{1f}".to_string())),
        "\"\\u0001\\u001f\""
    );
    assert_eq!(to_json_string(&JsonVal::Text("héllo".to_string())), "\"héllo\"");
}

#[test]
fn composites_encode_exactly() {
    assert_eq!(to_json_string(&JsonVal::Arr(vec![])), "[]");
    assert_eq!(to_json_string(&JsonVal::Obj(vec![])), "{}");
    let v = JsonVal::Obj(vec![
        ("a".to_string(), JsonVal::Arr(vec![JsonVal::Int(1), JsonVal::Null])),
        ("b".to_string(), JsonVal::Text("x".to_string())),
    ]);
    assert_eq!(to_json_string(&v), "{\"a\":[1,null],\"b\":\"x\"}");
}

#[test]
fn encoder_output_reparses() {
    let v = JsonVal::Obj(vec![
        ("msg".to_string(), JsonVal::Text("line1\nline2 \"quoted\"".to_string())),
        ("n".to_string(), JsonVal::Int(-12)),
        ("f".to_string(), JsonVal::Num("1.5".to_string())),
        ("l".to_string(), JsonVal::Arr(vec![JsonVal::Bool(true), JsonVal::Null])),
    ]);
    let text = to_json_string(&v);
    let parsed: serde_json::Value = serde_json::from_str(&text).unwrap();
    assert_eq!(parsed["msg"].as_str().unwrap(), "line1\nline2 \"quoted\"");
    assert_eq!(parsed["n"].as_i64().unwrap(), -12);
    assert_eq!(parsed["f"].as_f64().unwrap(), 1.5);
    assert_eq!(parsed["l"][0].as_bool().unwrap(), true);
    assert!(parsed["l"][1].is_null());
}

#[test]
fn wf_accepts_plausible_numbers_only() {
    assert!(wf_check(&JsonVal::Num("-1.25e-3".to_string())));
    assert!(!wf_check(&JsonVal::Num(String::new())));
    assert!(!wf_check(&JsonVal::Num("abc".to_string())));
    assert!(!wf_check(&JsonVal::Num("+1".to_string())));
    assert!(!wf_check(&JsonVal::Arr(vec![JsonVal::Num("x".to_string())])));
    assert!(wf_check(&JsonVal::Obj(vec![("k".to_string(), JsonVal::Num("10".to_string()))])));
}

#[test]
fn result_with_no_errors_omits_error_list() {
    let res = ExecutionResult { data: Some(JsonVal::Obj(vec![(
        "apiVersion".to_string(),
        JsonVal::Text("1.0".to_string()),
    )])), errors: vec![] };
    assert_eq!(
        res.render_body().unwrap(),
        "{\"data\":{\"apiVersion\":\"1.0\"}}"
    );
}

#[test]
fn result_with_errors_keeps_data_and_errors() {
    let res = ExecutionResult {
        data: Some(JsonVal::Null),
        errors: vec![ExecError {
            message: "boom".to_string(),
            locations: vec![ErrorLocation { line: 2, column: 5 }],
            path: vec!["a".to_string(), "b".to_string()],
        }],
    };
    assert_eq!(
        res.render_body().unwrap(),
        "{\"data\":null,\"errors\":[{\"message\":\"boom\",\"locations\":[{\"line\":2,\"column\":5}],\"path\":[\"a\",\"b\"]}]}"
    );
}

#[test]
fn absent_data_renders_null() {
    let res = ExecutionResult { data: None, errors: vec![] };
    assert_eq!(res.render_body().unwrap(), "{\"data\":null}");
}

#[test]
fn implausible_number_is_a_serialization_failure() {
    let res = ExecutionResult {
        data: Some(JsonVal::Num("not a number".to_string())),
        errors: vec![],
    };
    assert!(res.render_body().is_none());
}
