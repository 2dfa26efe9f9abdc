use web_service::attribute::{AttributeValue, Item};

fn s(text: &str) -> AttributeValue {
    AttributeValue::S(text.to_string())
}

fn text_of(value: Option<&AttributeValue>) -> Option<String> {
    match value {
        Some(AttributeValue::S(t)) => Some(t.clone()),
        _ => None,
    }
}

#[test]
fn read_after_write_gives_the_value_written() {
    let mut item = Item::new();
    item.insert("a".to_string(), s("one"));
    item.insert("b".to_string(), AttributeValue::Bool(true));
    assert_eq!(text_of(item.get("a")), Some("one".to_string()));
    assert!(matches!(item.get("b"), Some(AttributeValue::Bool(true))));
    assert!(item.get("c").is_none());
}

#[test]
fn writing_a_name_again_replaces_its_value_only() {
    let mut item = Item::new();
    item.insert("a".to_string(), s("one"));
    item.insert("b".to_string(), s("two"));
    item.insert("a".to_string(), s("three"));
    assert_eq!(text_of(item.get("a")), Some("three".to_string()));
    assert_eq!(text_of(item.get("b")), Some("two".to_string()));
    assert_eq!(item.into_entries().len(), 2);
}

#[test]
fn from_entries_lets_a_later_pair_win() {
    let item = Item::from_entries(vec![
        ("k".to_string(), s("first")),
        ("n".to_string(), AttributeValue::N("7".to_string())),
        ("k".to_string(), s("second")),
    ]);
    assert_eq!(text_of(item.get("k")), Some("second".to_string()));
    assert!(matches!(item.get("n"), Some(AttributeValue::N(n)) if n == "7"));
    assert_eq!(item.into_entries().len(), 2);
}

#[test]
fn extend_writes_the_other_item_over() {
    let mut item = Item::from_entries(vec![("a".to_string(), s("1")), ("b".to_string(), s("2"))]);
    let other = Item::from_entries(vec![("b".to_string(), s("20")), ("c".to_string(), s("30"))]);
    item.extend(other);
    assert_eq!(text_of(item.get("a")), Some("1".to_string()));
    assert_eq!(text_of(item.get("b")), Some("20".to_string()));
    assert_eq!(text_of(item.get("c")), Some("30".to_string()));
    assert_eq!(item.into_entries().len(), 3);
}

#[test]
fn entries_round_trip() {
    let item = Item::from_entries(vec![("x".to_string(), AttributeValue::Null(true)), ("y".to_string(), s("v"))]);
    let again = Item::from_entries(item.into_entries());
    assert!(matches!(again.get("x"), Some(AttributeValue::Null(true))));
    assert_eq!(text_of(again.get("y")), Some("v".to_string()));
}

#[test]
fn empty_item_has_nothing() {
    let item = Item::new();
    assert!(item.get("partition").is_none());
    assert!(item.into_entries().is_empty());
}
