use jiuziai_validator::schema::check_able::{
    len_able, no_space, not_blank_able, not_empty_able, range_able, regex_able,
};

#[test]
fn check_able_test_range() {
    assert!(range_able("i32"));
    assert!(range_able("u64"));
    assert!(range_able("f64"));
    assert!(range_able("char"));
    assert!(range_able("Decimal"));
    assert!(!range_able("String"));
    assert!(!range_able("Vec"));
}

#[test]
fn test_len_and_empty() {
    assert!(len_able("String"));
    assert!(len_able("str"));
    assert!(len_able("Vec"));
    assert!(!len_able("i32"));
    assert!(not_empty_able("Vec"));
    assert!(!not_empty_able("i32"));
}

#[test]
fn test_string_checks() {
    assert!(no_space("String"));
    assert!(no_space("str"));
    assert!(no_space("char"));
    assert!(!no_space("i64"));

    assert!(not_blank_able("String"));
    assert!(!not_blank_able("Vec"));

    assert!(regex_able("str"));
    assert!(regex_able("String"));
    assert!(!regex_able("i32"));
}

#[test]
fn every_integer_and_float_name_is_range_able() {
    for name in [
        "i8", "i16", "i64", "i128", "isize", "u8", "u16", "u32", "u128", "usize", "f32",
    ] {
        assert!(range_able(name), "{}", name);
    }
    assert!(!range_able("bool"));
    assert!(!range_able(""));
}

#[test]
fn every_container_name_is_len_able() {
    for name in [
        "Cow", "VecDeque", "LinkedList", "BinaryHeap", "HashMap", "HashSet", "BTreeMap",
        "BTreeSet", "SmallVec", "IndexMap", "IndexSet",
    ] {
        assert!(len_able(name), "{}", name);
        assert!(not_empty_able(name), "{}", name);
    }
    assert!(!len_able("char"));
    assert!(!regex_able("char"));
    assert!(!not_blank_able("char"));
}
