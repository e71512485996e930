use jiuziai_validator::patterns::{regexes_static_gen, Item, PatternId, PatternRegistry};
use jiuziai_validator::schema::attributes::ArgValue;
use jiuziai_validator::schema::error::SchemaErrorKind;
use jiuziai_validator::schema::value::Value;

fn constant(name: &str, source: &str) -> Item {
    Item::Const {
        ident: name.to_string(),
        value: ArgValue::Literal(Value::Text(source.to_string())),
    }
}

fn patterns() -> PatternRegistry {
    regexes_static_gen(&vec![
        constant("EMAIL", r"^[\w.+-]+@[\w.-]+\.[a-zA-Z]{2,}$"),
        constant("DIGITS", r"^\d+$"),
        constant("HEX_VALUE", r"^[0-9a-fA-F]+$"),
    ])
    .ok()
    .unwrap()
}

#[test]
fn test_regex_static() {
    let registry = patterns();
    let hex = registry.from_name("HEX_VALUE").unwrap();
    let ok = registry.regex(hex).is_match("foo@example.com");
    println!("email ok: {}", ok);
    assert!(!ok);

    if let Some(p) = registry.from_name("DIGITS") {
        println!("123 matches DIGITS: {}", registry.regex(p).is_match("123"));
        assert!(registry.regex(p).is_match("123"));
    }

    println!("names: {:?}", registry.names());
    assert_eq!(registry.names(), ["EMAIL", "DIGITS", "HEX_VALUE"]);
}

#[test]
fn the_names_come_back_as_they_went_in() {
    let registry = regexes_static_gen(&vec![
        Item::Other,
        constant("B", "b"),
        Item::Other,
        constant("A", "a"),
        constant("C", "c"),
    ])
    .ok()
    .unwrap();
    assert_eq!(registry.names(), ["B", "A", "C"]);
    assert_eq!(registry.len(), 3);
    assert_eq!(registry.from_name("B"), Some(PatternId { index: 0 }));
    assert_eq!(registry.from_name("A"), Some(PatternId { index: 1 }));
    assert_eq!(registry.from_name("C"), Some(PatternId { index: 2 }));
    assert_eq!(registry.from_name("D"), None);
    assert_eq!(registry.from_name("b"), None);
    assert_eq!(registry.source(PatternId { index: 1 }), "a");
}

#[test]
fn a_module_without_constants_gives_an_empty_registry() {
    let registry = regexes_static_gen(&vec![Item::Other]).ok().unwrap();
    assert_eq!(registry.len(), 0);
    assert!(registry.names().is_empty());
    assert_eq!(registry.from_name(""), None);
    assert!(registry.try_regex(PatternId { index: 0 }).is_none());
}

#[test]
fn a_constant_must_be_a_string_literal_and_its_name_new() {
    let e = regexes_static_gen(&vec![
        constant("A", "a"),
        Item::Const { ident: "N".to_string(), value: ArgValue::Literal(Value::Integer(1)) },
        constant("A", "b"),
    ])
    .err()
    .unwrap();
    assert_eq!((e.kind, e.field.as_str(), e.rule), (SchemaErrorKind::NotStringLiteral, "N", None));
    let e = regexes_static_gen(&vec![
        constant("A", "a"),
        constant("B", "a"),
        constant("A", "b"),
        Item::Const { ident: "N".to_string(), value: ArgValue::Expr("other()".to_string()) },
    ])
    .err()
    .unwrap();
    assert_eq!((e.kind, e.field.as_str(), e.rule), (SchemaErrorKind::DuplicateName, "A", None));
}

#[test]
fn a_pattern_is_compiled_once_and_shared() {
    let registry = patterns();
    let id = registry.from_name("DIGITS").unwrap();
    let first = registry.regex(id);
    let second = registry.regex(id);
    let third = registry.try_regex(id).unwrap();
    assert!(std::ptr::eq(first, second));
    assert!(std::ptr::eq(first, third));
    assert_eq!(first.as_str(), r"^\d+$");
    assert!(first.is_match("42"));
    assert!(!first.is_match("4 2"));
    let other = registry.regex(registry.from_name("EMAIL").unwrap());
    assert!(!std::ptr::eq(first, other));
    assert!(other.is_match("foo@example.com"));
}

#[test]
fn a_text_that_is_no_pattern_shows_at_first_use() {
    let registry = regexes_static_gen(&vec![constant("GOOD", "a+"), constant("BAD", "(")])
        .ok()
        .unwrap();
    assert_eq!(registry.names(), ["GOOD", "BAD"]);
    let bad = registry.from_name("BAD").unwrap();
    assert!(registry.try_regex(bad).is_none());
    assert!(registry.try_regex(bad).is_none());
    let good = registry.from_name("GOOD").unwrap();
    assert!(registry.try_regex(good).unwrap().is_match("caab"));
}
