use mediasoup_server::json::{clone_opt_value, push_member, Number, Value};

fn sample_object() -> Value {
    Value::Object(vec![
        ("name".to_string(), Value::String("first".to_string())),
        ("flag".to_string(), Value::Bool(true)),
        ("name".to_string(), Value::String("second".to_string())),
        ("nothing".to_string(), Value::Null),
        ("count".to_string(), Value::Number(Number::PosInt(3))),
    ])
}

#[test]
fn get_finds_the_first_member_with_the_key() {
    let v = sample_object();
    assert_eq!(v.get("name"), Some(&Value::String("first".to_string())));
    assert_eq!(v.get("flag"), Some(&Value::Bool(true)));
    assert_eq!(v.get("nothing"), Some(&Value::Null));
    assert_eq!(v.get("missing"), None);
}

#[test]
fn get_on_a_value_that_is_no_object_finds_nothing() {
    assert_eq!(Value::String("name".to_string()).get("name"), None);
    assert_eq!(Value::Array(vec![sample_object()]).get("name"), None);
    assert_eq!(Value::Null.get("name"), None);
}

#[test]
fn as_str_and_as_bool_read_only_their_own_kind() {
    assert_eq!(Value::String("abc".to_string()).as_str(), Some("abc"));
    assert_eq!(Value::Bool(false).as_str(), None);
    assert_eq!(Value::Bool(false).as_bool(), Some(false));
    assert_eq!(Value::String("true".to_string()).as_bool(), None);
    assert!(Value::Null.is_null());
    assert!(!Value::Bool(false).is_null());
}

#[test]
fn get_text_wants_a_string_member() {
    let v = sample_object();
    assert_eq!(v.get_text("name"), Some("first"));
    assert_eq!(v.get_text("flag"), None);
    assert_eq!(v.get_text("missing"), None);
}

#[test]
fn get_present_takes_null_for_absent() {
    let v = sample_object();
    assert_eq!(v.get_present("nothing"), None);
    assert_eq!(v.get_present("missing"), None);
    assert_eq!(v.get_present("count"), Some(&Value::Number(Number::PosInt(3))));
}

#[test]
fn clone_copies_a_nested_value() {
    let v = Value::Array(vec![
        sample_object(),
        Value::Number(Number::NegInt(-7)),
        Value::Number(Number::Float("1.5".to_string())),
        Value::Array(vec![]),
    ]);
    assert_eq!(v.clone(), v);
    assert_eq!(clone_opt_value(&Some(v.clone())), Some(v));
    assert_eq!(clone_opt_value(&None), None);
}

#[test]
fn builders_make_strings_and_objects() {
    assert_eq!(Value::text("abc"), Value::String("abc".to_string()));
    assert_eq!(Value::empty_object(), Value::Object(vec![]));
    let mut members = Vec::new();
    push_member(&mut members, "a", Value::Bool(true));
    push_member(&mut members, "b", Value::Null);
    assert_eq!(
        Value::object(members),
        Value::Object(vec![
            ("a".to_string(), Value::Bool(true)),
            ("b".to_string(), Value::Null),
        ])
    );
}
