use xrpl::helpers::to_value_skip_nulls;
use xrpl::json::{json_eq, members_put, strip_nulls, JsonNumber, JsonValue};

fn s(t: &str) -> JsonValue {
    JsonValue::String(t.to_string())
}

fn obj(members: Vec<(&str, JsonValue)>) -> JsonValue {
    JsonValue::Object(members.into_iter().map(|(k, v)| (k.to_string(), v)).collect())
}

fn num(n: u64) -> JsonValue {
    JsonValue::Number(JsonNumber::PosInt(n))
}

#[test]
fn strip_nulls_removes_null_members_at_every_depth() {
    let v = obj(vec![
        ("a", JsonValue::Null),
        ("b", JsonValue::Array(vec![JsonValue::Null, obj(vec![("c", JsonValue::Null), ("d", num(1))])])),
        ("e", obj(vec![("f", JsonValue::Null)])),
        ("g", s("x")),
    ]);
    let expected = obj(vec![
        ("b", JsonValue::Array(vec![JsonValue::Null, obj(vec![("d", num(1))])])),
        ("e", obj(vec![])),
        ("g", s("x")),
    ]);
    assert!(json_eq(&strip_nulls(v.clone()), &expected));
    assert!(json_eq(&to_value_skip_nulls(v), &expected));
}

#[test]
fn strip_nulls_leaves_other_values_alone() {
    let v = JsonValue::Array(vec![JsonValue::Null, JsonValue::Bool(false), s("")]);
    assert!(json_eq(&strip_nulls(v.clone()), &v));
    assert!(json_eq(&strip_nulls(JsonValue::Null), &JsonValue::Null));
    let once = strip_nulls(obj(vec![("a", JsonValue::Null), ("b", num(2))]));
    let twice = strip_nulls(once.clone());
    assert!(json_eq(&once, &twice));
}

#[test]
fn get_finds_the_first_member_with_the_key() {
    let v = obj(vec![("id", s("one")), ("id", s("two")), ("n", num(3))]);
    assert_eq!(v.get("id").and_then(|x| x.as_str()), Some("one"));
    assert!(json_eq(v.get("n").unwrap(), &num(3)));
    assert!(v.get("missing").is_none());
    assert!(s("id").get("id").is_none());
    assert!(JsonValue::Array(vec![s("id")]).get("id").is_none());
}

#[test]
fn as_str_and_is_null() {
    assert_eq!(s("abc").as_str(), Some("abc"));
    assert_eq!(num(1).as_str(), None);
    assert!(JsonValue::Null.is_null());
    assert!(!JsonValue::Bool(false).is_null());
}

#[test]
fn members_put_replaces_or_appends() {
    let mut m: Vec<(String, JsonValue)> = vec![("a".to_string(), num(1)), ("b".to_string(), num(2))];
    members_put(&mut m, "a".to_string(), s("new"));
    assert_eq!(m.len(), 2);
    assert_eq!(m[0].0, "a");
    assert_eq!(m[0].1.as_str(), Some("new"));
    members_put(&mut m, "c".to_string(), num(3));
    assert_eq!(m.len(), 3);
    assert_eq!(m[2].0, "c");
    let v = JsonValue::Object(m);
    assert_eq!(v.get("a").and_then(|x| x.as_str()), Some("new"));
    assert!(json_eq(v.get("b").unwrap(), &num(2)));
    assert!(json_eq(v.get("c").unwrap(), &num(3)));
}

#[test]
fn json_eq_compares_as_serde_json_does() {
    assert!(json_eq(&num(5), &num(5)));
    assert!(json_eq(&num(5), &JsonValue::Number(JsonNumber::NegInt(5))));
    assert!(!json_eq(&num(5), &JsonValue::Number(JsonNumber::NegInt(-5))));
    assert!(!json_eq(&num(5), &s("5")));
    assert!(!json_eq(&num(5), &JsonValue::Number(JsonNumber::Float("5.0".to_string()))));
    let ab = obj(vec![("a", num(1)), ("b", num(2))]);
    let ba = obj(vec![("b", num(2)), ("a", num(1))]);
    assert!(json_eq(&ab, &ab.clone()));
    assert!(json_eq(&ab, &ba));
    assert!(!json_eq(&ab, &obj(vec![("a", num(1))])));
    assert!(!json_eq(&obj(vec![("a", num(1))]), &ab));
    assert!(!json_eq(&ab, &obj(vec![("a", num(1)), ("b", num(3))])));
    assert!(!json_eq(&JsonValue::Array(vec![num(1)]), &JsonValue::Array(vec![num(1), num(1)])));
    assert!(!json_eq(&JsonValue::Array(vec![num(1), num(2)]), &JsonValue::Array(vec![num(2), num(1)])));
}

fn float(t: &str) -> JsonValue {
    JsonValue::Number(JsonNumber::Float(t.to_string()))
}

#[test]
fn floats_compare_by_value() {
    assert!(json_eq(&float("0.0"), &float("-0.0")));
    assert!(json_eq(&float("1.5"), &float("1.50")));
    assert!(json_eq(&float("1e2"), &float("100.0")));
    assert!(!json_eq(&float("1.5"), &float("1.25")));
    assert!(!json_eq(&float("not a number"), &float("0.0")));
    assert!(json_eq(&float("not a number"), &float("not a number")));
}
