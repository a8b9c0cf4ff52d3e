use eip1193::Value;

fn text(s: &str) -> Value {
    Value::String(s.to_string())
}

fn sample_object() -> Value {
    Value::Object(vec![
        ("name".to_string(), text("first")),
        ("count".to_string(), Value::Integer(3)),
        ("name".to_string(), text("second")),
    ])
}

#[test]
fn only_an_array_is_an_array() {
    assert!(Value::Array(vec![]).is_array());
    assert!(Value::Array(vec![Value::Null, Value::Bool(true)]).is_array());
    assert!(!Value::Null.is_array());
    assert!(!Value::Bool(false).is_array());
    assert!(!Value::Integer(0).is_array());
    assert!(!Value::Decimal("1.5".to_string()).is_array());
    assert!(!text("[]").is_array());
    assert!(!Value::Object(vec![]).is_array());
}

#[test]
fn member_finds_a_member_by_its_name() {
    let object = sample_object();
    assert_eq!(object.member("count"), Some(&Value::Integer(3)));
}

#[test]
fn member_takes_the_later_of_two_with_one_name() {
    let object = sample_object();
    assert_eq!(object.member("name"), Some(&text("second")));
}

#[test]
fn member_finds_nothing_under_an_unknown_name() {
    let object = sample_object();
    assert_eq!(object.member("Name"), None);
    assert_eq!(object.member(""), None);
    assert_eq!(Value::Object(vec![]).member("name"), None);
}

#[test]
fn member_finds_nothing_in_what_is_no_object() {
    assert_eq!(Value::Null.member("name"), None);
    assert_eq!(text("name").member("name"), None);
    assert_eq!(Value::Array(vec![sample_object()]).member("name"), None);
}

#[test]
fn clone_copies_every_level() {
    let value = Value::Array(vec![
        Value::Null,
        Value::Bool(true),
        Value::Integer(-7),
        Value::Decimal("2.5e3".to_string()),
        text("0xabc"),
        Value::Array(vec![Value::Array(vec![]), Value::Integer(i64::MAX)]),
        sample_object(),
    ]);
    let copy = value.clone();
    assert_eq!(copy, value);
}

#[test]
fn into_sequence_keeps_a_sequence_in_order() {
    let items = vec![Value::Integer(1), text("a"), Value::Null, Value::Integer(1)];
    assert_eq!(Value::Array(items.clone()).into_sequence(), Value::Array(items));
    assert_eq!(Value::Array(vec![]).into_sequence(), Value::Array(vec![]));
}

#[test]
fn into_sequence_empties_what_is_no_sequence() {
    let empty = Value::Array(vec![]);
    assert_eq!(Value::Null.into_sequence(), empty);
    assert_eq!(Value::Bool(true).into_sequence(), empty);
    assert_eq!(Value::Integer(5).into_sequence(), empty);
    assert_eq!(Value::Decimal("0.1".to_string()).into_sequence(), empty);
    assert_eq!(text("[1,2]").into_sequence(), empty);
    assert_eq!(sample_object().into_sequence(), empty);
}
