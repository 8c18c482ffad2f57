use turn_render::interchange::{
    bool_at, finish_list, finish_object, key_is, number_at, push_field, start_object, str_eq,
    text_at, text_value, InterchangeValue,
};

fn text(s: &str) -> InterchangeValue {
    InterchangeValue::Text(s.to_string())
}

fn sample() -> InterchangeValue {
    InterchangeValue::Object(vec![
        ("type".to_string(), text("sample")),
        ("count".to_string(), InterchangeValue::Number(7)),
        ("flag".to_string(), InterchangeValue::Bool(true)),
        ("type".to_string(), text("shadowed")),
        ("nothing".to_string(), InterchangeValue::Null),
        ("items".to_string(), InterchangeValue::List(vec![text("a"), InterchangeValue::Null])),
    ])
}

#[test]
fn get_finds_the_first_field_of_that_name() {
    let value = sample();
    assert_eq!(value.get("type"), Some(&text("sample")));
    assert_eq!(value.get("count"), Some(&InterchangeValue::Number(7)));
    assert_eq!(value.get("nothing"), Some(&InterchangeValue::Null));
    assert_eq!(value.get("missing"), None);
    assert_eq!(value.get(""), None);
    assert_eq!(value.get("Type"), None);
}

#[test]
fn get_on_what_is_not_an_object_finds_nothing() {
    assert_eq!(InterchangeValue::Null.get("type"), None);
    assert_eq!(text("type").get("type"), None);
    assert_eq!(InterchangeValue::List(vec![sample()]).get("type"), None);
    assert_eq!(InterchangeValue::Object(vec![]).get("type"), None);
}

#[test]
fn depth_counts_levels_of_nesting() {
    assert!(InterchangeValue::Null.within_depth(1));
    assert!(!InterchangeValue::Null.within_depth(0));
    assert!(text("a").within_depth(1));
    assert!(InterchangeValue::List(vec![]).within_depth(1));
    assert!(InterchangeValue::Object(vec![]).within_depth(1));
    assert!(!InterchangeValue::List(vec![text("a")]).within_depth(1));
    assert!(InterchangeValue::List(vec![text("a")]).within_depth(2));
    let value = sample();
    assert!(!value.within_depth(2));
    assert!(value.within_depth(3));
    assert!(value.within_depth(usize::MAX));
}

#[test]
fn clone_copies_the_whole_value() {
    let value = sample();
    let copy = value.clone();
    assert_eq!(copy, value);
    let nested = InterchangeValue::List(vec![value.clone(), InterchangeValue::List(vec![value])]);
    assert_eq!(nested.clone(), nested);
}

#[test]
fn str_eq_compares_characters() {
    assert!(str_eq("", ""));
    assert!(str_eq("type", "type"));
    assert!(!str_eq("type", "typ"));
    assert!(!str_eq("type", "Type"));
    assert!(str_eq("∇²", "∇²"));
    assert!(!str_eq("∇²", "∇2"));
}

#[test]
fn objects_are_built_in_the_order_of_the_pushes() {
    let mut fields = start_object("kind", &"n1".to_string());
    push_field(&mut fields, "b", InterchangeValue::Number(2));
    push_field(&mut fields, "a", InterchangeValue::Number(1));
    assert_eq!(
        finish_object(fields),
        InterchangeValue::Object(vec![
            ("type".to_string(), text("kind")),
            ("id".to_string(), text("n1")),
            ("b".to_string(), InterchangeValue::Number(2)),
            ("a".to_string(), InterchangeValue::Number(1)),
        ])
    );
    assert_eq!(text_value("x"), text("x"));
    assert_eq!(finish_list(vec![text("x")]), InterchangeValue::List(vec![text("x")]));
}

#[test]
fn field_readers_check_position_name_and_kind() {
    let fields = match sample() {
        InterchangeValue::Object(fields) => fields,
        _ => unreachable!(),
    };
    assert!(key_is(&fields, 0, "type"));
    assert!(!key_is(&fields, 1, "type"));
    assert_eq!(text_at(&fields, 0, "type"), Some(&"sample".to_string()));
    assert_eq!(text_at(&fields, 0, "id"), None);
    assert_eq!(text_at(&fields, 1, "count"), None);
    assert_eq!(text_at(&fields, 99, "type"), None);
    assert_eq!(number_at(&fields, 1, "count"), Some(7));
    assert_eq!(number_at(&fields, 1, "flag"), None);
    assert_eq!(number_at(&fields, 2, "flag"), None);
    assert_eq!(number_at(&fields, 6, "count"), None);
    assert_eq!(bool_at(&fields, 2, "flag"), Some(true));
    assert_eq!(bool_at(&fields, 1, "count"), None);
    assert_eq!(bool_at(&fields, 2, "count"), None);
}
