use jiuziai_validator::types::e::E;
use jiuziai_validator::validate::helper::ValidationUtils;
use jiuziai_validator::validate::helpers as owned;
use jiuziai_validator::validation::helpers::{
    validate_enum, validate_enum_try_from, validate_func, validate_len_str, validate_no_space,
    validate_not_blank, validate_not_empty_str, validate_range_i128, validate_regex,
    validate_size_len,
};
use std::collections::{HashMap, HashSet};

#[derive(Debug, PartialEq)]
enum Letter {
    A,
    B,
}

impl std::convert::TryFrom<u8> for Letter {
    type Error = ();

    fn try_from(v: u8) -> Result<Self, Self::Error> {
        match v {
            1 => Ok(Letter::A),
            2 => Ok(Letter::B),
            _ => Err(()),
        }
    }
}

#[test]
fn macro_rules_test() {
    let e1 = E::new("E0001", "错误消息");
    println!("{}-{}", e1.get_code(), e1.get_desc());
    assert_eq!(e1.get_code(), "E0001");
    assert_eq!(e1.get_desc(), "E0001");
    assert_eq!(e1.desc, "错误消息");
}

#[test]
fn test_len() {
    assert!(validate_len_str("abc", Some(1), Some(5), "err").is_ok());
    assert!(validate_len_str("", Some(1), None, "err").is_err());
}

#[test]
fn mod_test_range() {
    assert!(validate_range_i128(10i32, Some(5), Some(20), "err").is_ok());
    assert!(validate_range_i128(1i32, Some(5), None, "err").is_err());
}

#[test]
fn test_regex() {
    assert!(validate_regex("12345", r"^[0-9]+$", "err").is_ok());
    assert!(validate_regex("abc", r"^[0-9]+$", "err").is_err());
}

#[test]
fn test_enum_try_from() {
    assert!(validate_enum_try_from::<Letter, u8>(1u8, "err").is_ok());
    assert!(validate_enum_try_from::<Letter, u8>(3u8, "err").is_err());
}

#[test]
fn a_failed_check_returns_the_message_given() {
    assert_eq!(validate_len_str("abcdef", None, Some(5), "too long"), Err("too long".to_string()));
    assert_eq!(validate_range_i128(21i64, Some(5), Some(20), "out"), Err("out".to_string()));
    assert_eq!(validate_size_len(0, Some(1), None, "empty"), Err("empty".to_string()));
    assert_eq!(validate_no_space("a b", "space"), Err("space".to_string()));
    assert_eq!(validate_not_empty_str("", "empty"), Err("empty".to_string()));
    assert_eq!(validate_not_blank(" \t\n", "blank"), Err("blank".to_string()));
    assert_eq!(validate_func(&3, |n: &i32| *n > 5, "small"), Err("small".to_string()));
    assert_eq!(validate_enum(&3, &[1, 2], "not listed"), Err("not listed".to_string()));
    assert_eq!(validate_regex("abc", r"^\d+$", "digits"), Err("digits".to_string()));
}

#[test]
fn a_passed_check_returns_ok_true() {
    assert_eq!(validate_len_str("abc", None, None, "m"), Ok(true));
    assert_eq!(validate_len_str("abcde", Some(5), Some(5), "m"), Ok(true));
    assert_eq!(validate_range_i128(5u8, Some(5), Some(5), "m"), Ok(true));
    assert_eq!(validate_size_len(3, Some(1), Some(3), "m"), Ok(true));
    assert_eq!(validate_no_space("ab", "m"), Ok(true));
    assert_eq!(validate_not_empty_str(" ", "m"), Ok(true));
    assert_eq!(validate_not_blank(" a ", "m"), Ok(true));
    assert_eq!(validate_func(&7, |n: &i32| *n > 5, "m"), Ok(true));
    assert_eq!(validate_enum(&2, &[1, 2], "m"), Ok(true));
    assert_eq!(validate_regex("x12y", r"\d+", "m"), Ok(true));
}

#[test]
fn length_is_counted_in_characters() {
    assert_eq!(validate_len_str("错误消息", Some(4), Some(4), "m"), Ok(true));
    assert_eq!(validate_len_str("错误消息", Some(5), None, "m"), Err("m".to_string()));
    assert_eq!(ValidationUtils::string_length("错误消息"), 4);
    assert!(ValidationUtils::validate_size("错误消息", Some(12), Some(12)));
    assert!(!ValidationUtils::validate_size("错误消息", Some(4), Some(4)));
}

#[test]
fn a_pattern_that_does_not_compile_is_an_error_of_its_own() {
    let r = validate_regex("abc", "(", "message");
    let text = r.unwrap_err();
    assert!(text.starts_with("regex compile error: "), "{}", text);
    assert!(text.len() > "regex compile error: ".len());
    assert_ne!(text, "message");
}

#[test]
fn white_space_is_more_than_the_blank() {
    assert!(ValidationUtils::has_space_string("a\u{3000}b"));
    assert!(ValidationUtils::has_space_string("a\tb"));
    assert!(!ValidationUtils::has_space_string("a_b"));
    assert!(ValidationUtils::is_blank_string(""));
    assert!(ValidationUtils::is_blank_string(" \u{a0}\n"));
    assert!(!ValidationUtils::is_blank_string(" . "));
    assert!(ValidationUtils::is_empty_string(""));
    assert!(!ValidationUtils::is_empty_string(" "));
}

#[test]
fn ranges_include_their_bounds() {
    assert!(ValidationUtils::in_range_i8(-3, Some(-3), Some(5)));
    assert!(ValidationUtils::in_range_i8(5, Some(-3), Some(5)));
    assert!(!ValidationUtils::in_range_i8(6, Some(-3), Some(5)));
    assert!(!ValidationUtils::in_range_i8(-4, Some(-3), Some(5)));
    assert!(ValidationUtils::in_range_i16(7, None, None));
    assert!(ValidationUtils::in_range_i32(7, Some(7), None));
    assert!(!ValidationUtils::in_range_i64(7, Some(8), None));
    assert!(ValidationUtils::in_range_i128(i128::MIN, None, Some(0)));
    assert!(ValidationUtils::in_range_u8(0, Some(0), Some(0)));
    assert!(!ValidationUtils::in_range_u16(9, None, Some(8)));
    assert!(ValidationUtils::in_range_u32(9, Some(1), Some(9)));
    assert!(ValidationUtils::in_range_u64(u64::MAX, Some(1), None));
    assert!(!ValidationUtils::in_range_u128(0, Some(1), None));
    assert!(ValidationUtils::in_range_generic(&"b", Some(&"a"), Some(&"c")));
    assert!(!ValidationUtils::in_range_generic(&"d", Some(&"a"), Some(&"c")));
}

#[test]
fn lists_are_searched_by_equality() {
    assert!(ValidationUtils::is_within(&"b", &["a", "b"]));
    assert!(!ValidationUtils::is_within(&"c", &["a", "b"]));
    assert!(ValidationUtils::is_excluded(&"c", &["a", "b"]));
    assert!(!ValidationUtils::is_excluded(&"a", &["a", "b"]));
    assert!(!ValidationUtils::is_within(&1, &[]));
    assert!(ValidationUtils::call_validator_func(&4, |n: &i32| n % 2 == 0));
    assert!(!ValidationUtils::call_validator_func(&5, |n: &i32| n % 2 == 0));
}

#[test]
fn collections_are_sized_by_their_elements() {
    let empty: Vec<u8> = Vec::new();
    assert!(ValidationUtils::is_empty_vec(&empty));
    assert!(!ValidationUtils::is_empty_vec(&[1, 2]));
    assert_eq!(ValidationUtils::vec_length(&[1, 2, 3]), 3);
    let mut set: HashSet<u32> = HashSet::new();
    assert!(ValidationUtils::is_empty_hashset(&set));
    set.insert(1);
    set.insert(1);
    set.insert(2);
    assert!(!ValidationUtils::is_empty_hashset(&set));
    assert_eq!(ValidationUtils::hashset_length(&set), 2);
    let mut map: HashMap<u32, u32> = HashMap::new();
    assert!(ValidationUtils::is_empty_hashmap(&map));
    map.insert(1, 10);
    assert_eq!(ValidationUtils::hashmap_length(&map), 1);
    assert!(ValidationUtils::validate_collection_size(&[1, 2, 3], Some(3), Some(3)));
    assert!(!ValidationUtils::validate_collection_size(&[1, 2, 3], Some(4), None));
    assert!(ValidationUtils::validate_hashset_size(&set, Some(1), Some(2)));
    assert!(!ValidationUtils::validate_hashset_size(&set, None, Some(1)));
    assert!(ValidationUtils::validate_hashmap_size(&map, Some(1), None));
    assert!(!ValidationUtils::validate_hashmap_size(&map, Some(2), None));
}

#[test]
fn a_compiled_pattern_is_matched_anywhere_in_the_text() {
    let re = regex::Regex::new(r"\d{3}").unwrap();
    assert!(ValidationUtils::matches_regex("ab123cd", &re));
    assert!(!ValidationUtils::matches_regex("ab12cd", &re));
    assert_eq!(
        jiuziai_validator::validate::helpers::validate_regex("ab12cd", &re, "no digits"),
        Err("no digits".to_string())
    );
    assert_eq!(
        jiuziai_validator::validate::helpers::validate_regex("ab123cd", &re, "no digits"),
        Ok(true)
    );
}

#[test]
fn the_checks_on_owned_strings_agree_with_those_on_slices() {
    let s = "ab cd".to_string();
    assert_eq!(owned::validate_len(&s, Some(5), Some(5), "m"), Ok(true));
    assert_eq!(owned::validate_len(&s, Some(6), None, "m"), Err("m".to_string()));
    assert_eq!(owned::validate_no_space(&s, "m"), Err("m".to_string()));
    assert_eq!(owned::validate_not_empty(&s, "m"), Ok(true));
    assert_eq!(owned::validate_not_empty(&String::new(), "m"), Err("m".to_string()));
    assert_eq!(owned::validate_not_blank(&"  ".to_string(), "m"), Err("m".to_string()));
    assert_eq!(owned::validate_range(3i8, Some(4), None, "m"), Err("m".to_string()));
    assert_eq!(owned::validate_range(4i8, Some(4), Some(4), "m"), Ok(true));
    assert_eq!(owned::validate_func(&s, |t: &String| t.len() == 5, "m"), Ok(true));
    assert_eq!(owned::validate_enum(&'x', &['y'], "m"), Err("m".to_string()));
}
