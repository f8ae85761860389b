use cc_switch::args::{
    opt, opt_bool, opt_i64, opt_str, opt_str_list, opt_u64, req, req_bool, req_str, req_u32,
    req_usize,
};
use cc_switch::json::{get_field, JsonNumber, JsonValue};

fn s(text: &str) -> JsonValue {
    JsonValue::Str(text.to_string())
}

fn obj(members: Vec<(&str, JsonValue)>) -> Option<JsonValue> {
    Some(JsonValue::Object(
        members.into_iter().map(|(k, v)| (k.to_string(), v)).collect(),
    ))
}

fn num(n: u64) -> JsonValue {
    JsonValue::Number(JsonNumber::PosInt(n))
}

#[test]
fn req_str_reads_a_string_member() {
    let args = obj(vec![("app", s("gemini")), ("id", num(3))]);
    assert_eq!(req_str(&args, "app"), Ok("gemini".to_string()));
}

#[test]
fn req_str_refuses_a_missing_or_non_string_member() {
    let args = obj(vec![("id", num(3))]);
    assert_eq!(
        req_str(&args, "app"),
        Err("Missing required string field: app".to_string())
    );
    assert_eq!(
        req_str(&args, "id"),
        Err("Missing required string field: id".to_string())
    );
    assert_eq!(
        req_str(&None, "app"),
        Err("Missing required string field: app".to_string())
    );
}

#[test]
fn members_are_only_read_from_objects() {
    let args = Some(JsonValue::Array(vec![s("app")]));
    assert!(get_field(&args, "app").is_none());
    assert_eq!(opt_str(&args, "app"), None);
}

#[test]
fn first_member_of_a_name_is_read() {
    let args = obj(vec![("k", s("first")), ("k", s("second"))]);
    assert_eq!(opt_str(&args, "k"), Some("first".to_string()));
}

#[test]
fn optional_readers_give_nothing_on_wrong_types() {
    let args = obj(vec![("flag", s("true")), ("n", s("5")), ("list", num(1))]);
    assert_eq!(opt_bool(&args, "flag"), None);
    assert_eq!(opt_i64(&args, "n"), None);
    assert_eq!(opt_u64(&args, "n"), None);
    assert_eq!(opt_str_list(&args, "list"), None);
    assert_eq!(opt_str(&args, "missing"), None);
}

#[test]
fn bool_members_are_read() {
    let args = obj(vec![("enabled", JsonValue::Bool(false))]);
    assert_eq!(opt_bool(&args, "enabled"), Some(false));
    assert_eq!(req_bool(&args, "enabled"), Ok(false));
    assert_eq!(
        req_bool(&args, "official"),
        Err("Missing required bool field: official".to_string())
    );
}

#[test]
fn integers_are_read_by_range() {
    let args = obj(vec![
        ("big", num(u64::MAX)),
        ("neg", JsonValue::Number(JsonNumber::NegInt(-7))),
        ("small", num(42)),
        ("frac", JsonValue::Number(JsonNumber::Float("1.5".to_string()))),
    ]);
    assert_eq!(opt_i64(&args, "big"), None);
    assert_eq!(opt_i64(&args, "neg"), Some(-7));
    assert_eq!(opt_i64(&args, "small"), Some(42));
    assert_eq!(opt_i64(&args, "frac"), None);
    assert_eq!(opt_u64(&args, "big"), Some(u64::MAX));
    assert_eq!(opt_u64(&args, "neg"), None);
    assert_eq!(opt_u64(&args, "frac"), None);
}

#[test]
fn req_u32_keeps_the_low_bits() {
    let args = obj(vec![("page", num(4_294_967_298)), ("size", num(20))]);
    assert_eq!(req_u32(&args, "page"), Ok(2));
    assert_eq!(req_u32(&args, "size"), Ok(20));
    assert_eq!(
        req_u32(&args, "pageSize"),
        Err("Missing required integer field: pageSize".to_string())
    );
}

#[test]
fn req_usize_reads_non_negative_integers() {
    let args = obj(vec![("limit", num(10)), ("offset", JsonValue::Number(JsonNumber::NegInt(-1)))]);
    assert_eq!(req_usize(&args, "limit"), Ok(10));
    assert_eq!(
        req_usize(&args, "offset"),
        Err("Missing required integer field: offset".to_string())
    );
}

#[test]
fn string_lists_need_every_element_a_string() {
    let args = obj(vec![
        ("tools", JsonValue::Array(vec![s("gemini"), s("codex")])),
        ("mixed", JsonValue::Array(vec![s("gemini"), num(1)])),
    ]);
    assert_eq!(
        opt_str_list(&args, "tools"),
        Some(vec!["gemini".to_string(), "codex".to_string()])
    );
    assert_eq!(opt_str_list(&args, "mixed"), None);
}

#[test]
fn typed_members_report_missing_and_rejected_values() {
    let args = obj(vec![("provider", obj(vec![("id", s("p1"))]).unwrap())]);
    assert!(matches!(req(&args, "provider", &None), Ok(JsonValue::Object(_))));
    assert_eq!(
        req(&args, "provider", &Some("missing field `name`".to_string())).err(),
        Some("Invalid provider: missing field `name`".to_string())
    );
    assert_eq!(
        req(&args, "config", &None).err(),
        Some("Missing required field: config".to_string())
    );
    assert!(opt(&args, "provider", false).is_some());
    assert!(opt(&args, "provider", true).is_none());
    assert!(opt(&args, "other", false).is_none());
}
