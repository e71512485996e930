use jiuziai_validator::patterns::{regexes_static_gen, Item, PatternRegistry};
use jiuziai_validator::schema::attributes::{
    ArgValue, Attribute, AttributeArgs, Data, DeriveInput, Field, Fields, MetaArg,
};
use jiuziai_validator::schema::codegen::{
    derive_validate, generate_validate_impl, RecordSchema, Validator,
};
use jiuziai_validator::schema::declared::DeclaredType;
use jiuziai_validator::schema::metadata::{
    BoolOptions, FieldValidation, FuncOptions, RangeOptions, RegexOptions, Rule, SizeOptions,
    VecOptions,
};
use jiuziai_validator::schema::outcome::ValidationOutcome;
use jiuziai_validator::schema::value::Value;
use jiuziai_validator::validation::Validate;
use std::cell::Cell;

fn text(s: &str) -> Value {
    Value::Text(s.to_string())
}

fn present(v: Value) -> Value {
    Value::Present(Box::new(v))
}

fn some(s: &str) -> Option<String> {
    Some(s.to_string())
}

fn named(name: &str) -> DeclaredType {
    DeclaredType::named(name)
}

fn wrap(name: &str, inner: DeclaredType) -> DeclaredType {
    DeclaredType::wrapping(name, inner)
}

fn described(
    name: &str,
    ty: DeclaredType,
    rules: Vec<Rule>,
    message: Option<&str>,
) -> FieldValidation {
    FieldValidation {
        ident: name.to_string(),
        field_type: ty,
        rules,
        message: message.map(|m| m.to_string()),
    }
}

fn registry() -> PatternRegistry {
    regexes_static_gen(&vec![
        Item::Const {
            ident: "DIGITS".to_string(),
            value: ArgValue::Literal(Value::Text(r"^\d+$".to_string())),
        },
        Item::Const {
            ident: "BROKEN".to_string(),
            value: ArgValue::Literal(Value::Text("(".to_string())),
        },
    ])
    .ok()
    .unwrap()
}

fn validator(records: Vec<(&str, Vec<FieldValidation>)>) -> Validator {
    let records = records
        .into_iter()
        .map(|(name, fields)| RecordSchema { name: name.to_string(), fields })
        .collect();
    generate_validate_impl(records, registry()).ok().unwrap()
}

fn one_field(ty: DeclaredType, rules: Vec<Rule>, message: Option<&str>) -> Validator {
    validator(vec![("T", vec![described("f", ty, rules, message)])])
}

fn never(_: &str, _: &Value) -> bool {
    false
}

fn outcome(v: &Validator, value: Value) -> Result<bool, String> {
    v.check(0, &vec![value], &never).into_result()
}

fn fail(m: &str) -> Result<bool, String> {
    Err(m.to_string())
}

fn attr(name: &str, message: &str) -> Attribute {
    Attribute {
        name: name.to_string(),
        args: AttributeArgs::List(vec![MetaArg {
            key: "message".to_string(),
            value: ArgValue::Literal(Value::Text(message.to_string())),
        }]),
    }
}

fn item(name: &str, fields: Vec<Field>) -> DeriveInput {
    DeriveInput { ident: name.to_string(), data: Data::Struct(Fields::Named(fields)) }
}

fn simple_user() -> Validator {
    let input = item(
        "SimpleUser",
        vec![Field {
            ident: some("name"),
            ty: wrap("Option", named("String")),
            attrs: vec![attr("required", "名字必填")],
        }],
    );
    derive_validate(vec![input], registry()).ok().unwrap()
}

#[test]
fn test_simple() {
    let v = simple_user();
    let result = v.check(0, &vec![present(text("test"))], &never).into_result();
    match &result {
        Ok(ok) => println!("result: {:?}", ok.to_string()),
        Err(err) => println!("error: {:?}", err),
    }
    assert_eq!(result, Ok(true));
}

#[test]
fn test_required_fail() {
    let v = simple_user();
    let result = v.check(0, &vec![Value::Absent], &never).into_result();
    assert!(result.is_err());
    assert_eq!(result, fail("名字必填"));
}

#[test]
fn option_require_fails() {
    let input = item(
        "OptReq",
        vec![Field {
            ident: some("id"),
            ty: wrap("Option", named("i32")),
            attrs: vec![attr("required", "id required")],
        }],
    );
    let v = derive_validate(vec![input], registry()).ok().unwrap();
    let res = v.check(0, &vec![Value::Absent], &never).into_result();
    assert!(res.is_err());
    assert_eq!(res.unwrap_err(), "id required");
}

#[test]
fn vec_nested_validate_failure() {
    let inner = item(
        "Inner",
        vec![Field {
            ident: some("name"),
            ty: named("String"),
            attrs: vec![attr("not_blank", "name blank")],
        }],
    );
    let outer = item(
        "Outer",
        vec![Field { ident: some("inners"), ty: wrap("Vec", named("Inner")), attrs: vec![] }],
    );
    let v = derive_validate(vec![inner, outer], registry()).ok().unwrap();
    let o = vec![Value::List(vec![Value::Record(vec![text("")])])];
    let res = v.check(v.record("Outer").unwrap(), &o, &never).into_result();
    assert!(res.is_err());
    assert_eq!(res.unwrap_err(), "name blank");
}

fn code_rules() -> Vec<Rule> {
    vec![
        Rule::Size(SizeOptions { min: Some(5), max: Some(10), message: some("size bad") }),
        Rule::NoSpace(BoolOptions { message: some("no space") }),
    ]
}

#[test]
fn the_rules_of_a_field_are_asked_in_the_order_of_declaration() {
    let v = one_field(named("String"), code_rules(), None);
    assert_eq!(outcome(&v, text("ab")), fail("size bad"));
    assert_eq!(outcome(&v, text("abcdef ab")), fail("no space"));
    assert_eq!(outcome(&v, text("a b")), fail("size bad"));
    assert_eq!(outcome(&v, text("abcdefghij k")), fail("size bad"));
    assert_eq!(outcome(&v, text("abcdef")), Ok(true));
    let mut turned = code_rules();
    turned.reverse();
    let v = one_field(named("String"), turned, None);
    assert_eq!(outcome(&v, text("a b")), fail("no space"));
    assert_eq!(outcome(&v, text("ab")), fail("size bad"));
}

fn counting(names: &[&str]) -> Vec<Rule> {
    names
        .iter()
        .map(|n| Rule::Func(FuncOptions { func: n.to_string(), message: Some(format!("{} failed", n)) }))
        .collect()
}

#[test]
fn no_rule_is_asked_behind_the_first_that_fails() {
    let v = one_field(named("u8"), counting(&["a", "b", "c", "d"]), None);
    for failing in ["a", "b", "c", "d"] {
        let asked = Cell::new(0u32);
        let predicates = |name: &str, value: &Value| {
            asked.set(asked.get() + 1);
            assert!(matches!(value, Value::Integer(7)));
            name != failing
        };
        let r = v.check(0, &vec![Value::Integer(7)], &predicates).into_result();
        assert_eq!(r, Err(format!("{} failed", failing)));
        let place = ["a", "b", "c", "d"].iter().position(|n| *n == failing).unwrap() as u32 + 1;
        assert_eq!(asked.get(), place);
    }
    let asked = Cell::new(0u32);
    let all = |_: &str, _: &Value| {
        asked.set(asked.get() + 1);
        true
    };
    assert_eq!(v.check(0, &vec![Value::Integer(7)], &all).into_result(), Ok(true));
    assert_eq!(asked.get(), 4);
}

fn any_rules() -> Vec<Rule> {
    vec![
        Rule::Size(SizeOptions { min: Some(5), max: None, message: None }),
        Rule::NoSpace(BoolOptions { message: None }),
        Rule::NotBlank(BoolOptions { message: None }),
    ]
}

#[test]
fn a_field_with_a_message_passes_if_one_rule_holds() {
    let v = one_field(named("String"), any_rules(), Some("all failed"));
    assert_eq!(outcome(&v, text("abcdef")), Ok(true));
    assert_eq!(outcome(&v, text("a b")), Ok(true));
    assert_eq!(outcome(&v, text("ab")), Ok(true));
    assert_eq!(outcome(&v, text("      ")), Ok(true));
    assert_eq!(outcome(&v, text("  ")), fail("all failed"));
    assert_eq!(outcome(&v, text(" \t ")), fail("all failed"));
}

#[test]
fn a_field_with_a_message_and_no_rule_always_fails() {
    let v = one_field(named("String"), vec![], Some("nothing holds"));
    assert_eq!(outcome(&v, text("abc")), fail("nothing holds"));
    let v = one_field(named("String"), vec![Rule::GroupTag(vec![])], Some("nothing holds"));
    assert_eq!(outcome(&v, text("abc")), fail("nothing holds"));
}

#[test]
fn an_absent_value_passes_unless_it_is_required() {
    let ty = || wrap("Option", named("String"));
    let v = one_field(ty(), code_rules(), None);
    assert_eq!(outcome(&v, Value::Absent), Ok(true));
    assert_eq!(outcome(&v, present(text("ab"))), fail("size bad"));
    assert_eq!(outcome(&v, present(text("abcdef"))), Ok(true));
    let v = one_field(ty(), any_rules(), Some("all failed"));
    assert_eq!(outcome(&v, Value::Absent), Ok(true));
    assert_eq!(outcome(&v, present(text("  "))), fail("all failed"));
    // A field with a message and no rule at all: absent passes, present fails.
    let v = one_field(ty(), vec![], Some("nothing holds"));
    assert_eq!(outcome(&v, Value::Absent), Ok(true));
    assert_eq!(outcome(&v, present(text("a"))), fail("nothing holds"));
    // A missing value counts as absent.
    let v = one_field(ty(), code_rules(), None);
    assert_eq!(v.check(0, &vec![], &never).into_result(), Ok(true));
}

#[test]
fn a_required_field_fails_when_absent() {
    let ty = || wrap("Option", named("String"));
    let mut rules = code_rules();
    rules.push(Rule::Required(BoolOptions { message: some("required") }));
    let v = one_field(ty(), rules, None);
    assert_eq!(outcome(&v, Value::Absent), fail("required"));
    assert_eq!(outcome(&v, present(text("ab"))), fail("size bad"));
    assert_eq!(outcome(&v, present(text("abcdef"))), Ok(true));
    assert_eq!(v.check(0, &vec![], &never).into_result(), fail("required"));
    let mut rules = any_rules();
    rules.insert(0, Rule::Required(BoolOptions { message: None }));
    let v = one_field(ty(), rules, Some("all failed"));
    assert_eq!(outcome(&v, Value::Absent), fail("all failed"));
    assert_eq!(outcome(&v, present(text("  "))), Ok(true));
    // Two layers of absence are absent too.
    let v = one_field(
        wrap("Option", ty()),
        vec![Rule::Required(BoolOptions { message: some("required") })],
        None,
    );
    assert_eq!(outcome(&v, present(Value::Absent)), fail("required"));
    assert_eq!(outcome(&v, present(present(text("")))), Ok(true));
}

fn tagged(name: &str, groups: &[&str], message: &str) -> FieldValidation {
    let mut rules = vec![Rule::Func(FuncOptions { func: name.to_string(), message: some(message) })];
    if !groups.is_empty() {
        rules.push(Rule::GroupTag(groups.iter().map(|g| g.to_string()).collect()));
    }
    described(name, named("u8"), rules, None)
}

#[test]
fn a_group_scopes_the_check_to_its_fields() {
    let v = validator(vec![(
        "T",
        vec![
            tagged("ab", &["A", "B"], "ab failed"),
            tagged("c", &["C"], "c failed"),
            tagged("free", &[], "free failed"),
        ],
    )]);
    let values = vec![Value::Integer(1), Value::Integer(2), Value::Integer(3)];
    let run = |group: Option<&str>, failing: &'static str| {
        let asked = Cell::new(Vec::new());
        let predicates = |name: &str, _: &Value| {
            let mut seen = asked.take();
            seen.push(name.to_string());
            asked.set(seen);
            name != failing
        };
        let r = match group {
            Some(g) => v.check_group(0, &values, g, &predicates),
            None => v.check(0, &values, &predicates),
        };
        (r.into_result(), asked.take())
    };
    assert_eq!(run(Some("A"), "ab"), (fail("ab failed"), vec!["ab".to_string()]));
    assert_eq!(run(Some("B"), "ab"), (fail("ab failed"), vec!["ab".to_string()]));
    assert_eq!(run(Some("C"), "ab"), (Ok(true), vec!["c".to_string(), "free".to_string()]));
    assert_eq!(run(Some("C"), "c"), (fail("c failed"), vec!["c".to_string()]));
    assert_eq!(run(Some("A"), "c"), (Ok(true), vec!["ab".to_string(), "free".to_string()]));
    assert_eq!(run(Some("D"), "ab"), (Ok(true), vec!["free".to_string()]));
    for group in [Some("A"), Some("B"), Some("C"), Some("D"), None] {
        assert_eq!(run(group, "free").0, fail("free failed"));
    }
    assert_eq!(
        run(None, "none"),
        (Ok(true), vec!["ab".to_string(), "c".to_string(), "free".to_string()])
    );
    assert_eq!(run(None, "c"), (fail("c failed"), vec!["ab".to_string(), "c".to_string()]));
}

fn nested() -> Validator {
    validator(vec![
        (
            "Outer",
            vec![
                described("items", wrap("Vec", named("Inner")), vec![
                    Rule::NotEmpty(BoolOptions { message: some("no items") }),
                ], None),
                described("last", named("u8"), vec![
                    Rule::Func(FuncOptions { func: "last".to_string(), message: some("last failed") }),
                ], None),
            ],
        ),
        (
            "Inner",
            vec![described("n", named("u8"), vec![
                Rule::Func(FuncOptions { func: "small".to_string(), message: some("not small") }),
                Rule::GroupTag(vec!["G".to_string()]),
            ], None)],
        ),
    ])
}

#[test]
fn the_first_failing_record_of_a_collection_decides() {
    let v = nested();
    let record = |n: i128| Value::Record(vec![Value::Integer(n)]);
    let asked = Cell::new(Vec::new());
    let predicates = |name: &str, value: &Value| {
        let mut seen = asked.take();
        seen.push(format!("{} {:?}", name, matches!(value, Value::Integer(n) if *n < 10)));
        asked.set(seen);
        name == "small" && matches!(value, Value::Integer(n) if *n < 10)
    };
    let values = vec![Value::List(vec![record(1), record(20), record(3)]), Value::Integer(0)];
    assert_eq!(v.check(0, &values, &predicates).into_result(), fail("not small"));
    assert_eq!(asked.take(), ["small true", "small false"]);
    // The records within are checked whole, whatever the group is.
    assert_eq!(v.check_group(0, &values, "X", &predicates).into_result(), fail("not small"));
    asked.take();
    let values = vec![Value::List(vec![record(1), record(2)]), Value::Integer(0)];
    assert_eq!(v.check(0, &values, &predicates).into_result(), fail("last failed"));
    assert_eq!(asked.take(), ["small true", "small true", "last true"]);
    // The field's own rules come before the records it holds.
    let values = vec![Value::List(vec![]), Value::Integer(0)];
    assert_eq!(v.check(0, &values, &predicates).into_result(), fail("no items"));
    assert!(asked.take().is_empty());
}

#[test]
fn a_record_is_checked_directly_and_through_one_option() {
    let v = validator(vec![
        (
            "Outer",
            vec![
                described("direct", named("Inner"), vec![], None),
                described("maybe", wrap("Option", named("Inner")), vec![], None),
                described("set", wrap("HashSet", named("Inner")), vec![], None),
            ],
        ),
        (
            "Inner",
            vec![described("name", named("String"), vec![
                Rule::NotBlank(BoolOptions { message: some("blank") }),
            ], None)],
        ),
    ]);
    let good = || Value::Record(vec![text("x")]);
    let bad = || Value::Record(vec![text(" ")]);
    let check = |values: Vec<Value>| v.check(0, &values, &never).into_result();
    assert_eq!(check(vec![good(), present(good()), Value::List(vec![good()])]), Ok(true));
    assert_eq!(check(vec![bad(), present(good()), Value::List(vec![])]), fail("blank"));
    assert_eq!(check(vec![good(), present(bad()), Value::List(vec![])]), fail("blank"));
    assert_eq!(check(vec![good(), Value::Absent, Value::List(vec![good(), bad()])]), fail("blank"));
    assert_eq!(check(vec![good(), Value::Absent, Value::List(vec![])]), Ok(true));
    // A record checked by itself.
    assert_eq!(v.check(1, &vec![text(" ")], &never).into_result(), fail("blank"));
    // A record that the validator does not know passes.
    assert_eq!(v.check(2, &vec![text(" ")], &never).into_result(), Ok(true));
}

#[test]
fn a_record_may_hold_records_of_its_own_kind() {
    let v = validator(vec![(
        "Node",
        vec![
            described("label", named("String"), vec![
                Rule::NotEmpty(BoolOptions { message: some("no label") }),
            ], None),
            described("children", wrap("Vec", named("Node")), vec![], None),
        ],
    )]);
    let node = |label: &str, children: Vec<Value>| {
        Value::Record(vec![text(label), Value::List(children)])
    };
    let tree = vec![text("root"), Value::List(vec![
        node("a", vec![node("b", vec![])]),
        node("c", vec![node("d", vec![node("", vec![])])]),
    ])];
    assert_eq!(v.check(0, &tree, &never).into_result(), fail("no label"));
    let tree = vec![text("root"), Value::List(vec![node("a", vec![node("b", vec![])])])];
    assert_eq!(v.check(0, &tree, &never).into_result(), Ok(true));
}

#[test]
fn each_rule_says_what_it_says() {
    let check = |ty: DeclaredType, rule: Rule, value: Value| {
        outcome(&one_field(ty, vec![rule], None), value)
    };
    let m = || some("m");
    let range = || Rule::Range(RangeOptions { min: Some(-2), max: Some(3), message: m() });
    assert_eq!(check(named("i8"), range(), Value::Integer(-2)), Ok(true));
    assert_eq!(check(named("i8"), range(), Value::Integer(3)), Ok(true));
    assert_eq!(check(named("i8"), range(), Value::Integer(-3)), fail("m"));
    assert_eq!(check(named("i8"), range(), Value::Integer(4)), fail("m"));
    assert_eq!(check(named("f64"), range(), Value::Float(0)), Ok(true));
    assert_eq!(check(named("Decimal"), range(), Value::Decimal(4)), fail("m"));
    assert_eq!(check(named("NaiveDate"), range(), Value::DateTime(3)), Ok(true));
    assert_eq!(check(named("i8"), range(), text("1")), fail("m"));
    let open = || Rule::Range(RangeOptions { min: None, max: None, message: m() });
    assert_eq!(check(named("i128"), open(), Value::Integer(i128::MIN)), Ok(true));

    let size = || Rule::Size(SizeOptions { min: Some(2), max: Some(3), message: m() });
    assert_eq!(check(named("String"), size(), text("ab")), Ok(true));
    assert_eq!(check(named("String"), size(), text("错")), Ok(true));
    assert_eq!(check(named("String"), size(), text("错误")), fail("m"));
    assert_eq!(check(named("String"), size(), text("a")), fail("m"));
    let list = |n: usize| Value::List((0..n).map(|k| Value::Integer(k as i128)).collect());
    assert_eq!(check(wrap("Vec", named("u8")), size(), list(3)), Ok(true));
    assert_eq!(check(wrap("Vec", named("u8")), size(), list(4)), fail("m"));
    assert_eq!(check(wrap("Vec", named("u8")), size(), list(1)), fail("m"));
    let map = Value::Mapping(vec![(text("a"), Value::Integer(1)), (text("b"), Value::Integer(2))]);
    assert_eq!(
        check(DeclaredType::mapping("HashMap", named("String"), named("u8")), size(), map),
        Ok(true)
    );

    let not_empty = || Rule::NotEmpty(BoolOptions { message: m() });
    assert_eq!(check(named("String"), not_empty(), text(" ")), Ok(true));
    assert_eq!(check(named("String"), not_empty(), text("")), fail("m"));
    assert_eq!(check(wrap("Vec", named("u8")), not_empty(), list(0)), fail("m"));
    assert_eq!(check(wrap("Vec", named("u8")), not_empty(), list(1)), Ok(true));

    let not_blank = || Rule::NotBlank(BoolOptions { message: m() });
    assert_eq!(check(named("String"), not_blank(), text(" a ")), Ok(true));
    assert_eq!(check(named("String"), not_blank(), text(" \n")), fail("m"));
    assert_eq!(check(named("String"), not_blank(), text("")), fail("m"));

    let within = || Rule::Within(VecOptions { values: vec![text("a"), text("b")], message: m() });
    let exclude = || Rule::Exclude(VecOptions { values: vec![text("a"), text("b")], message: m() });
    assert_eq!(check(named("String"), within(), text("b")), Ok(true));
    assert_eq!(check(named("String"), within(), text("c")), fail("m"));
    assert_eq!(check(named("String"), exclude(), text("c")), Ok(true));
    assert_eq!(check(named("String"), exclude(), text("a")), fail("m"));
    // A number equals no text, and a number of one kind none of another.
    assert_eq!(check(named("String"), within(), Value::Enum("a".to_string())), fail("m"));
    let ints = || Rule::Within(VecOptions { values: vec![Value::Integer(1)], message: m() });
    assert_eq!(check(named("u8"), ints(), Value::Integer(1)), Ok(true));
    assert_eq!(check(named("u8"), ints(), Value::Float(1)), fail("m"));
    let none = || Rule::Within(VecOptions { values: vec![], message: m() });
    assert_eq!(check(named("u8"), none(), Value::Integer(1)), fail("m"));
}

#[test]
fn a_pattern_is_found_by_its_name_and_matched_anywhere() {
    let rule = |name: &str| Rule::Regex(RegexOptions { pattern: name.to_string(), message: some("no digits") });
    let v = one_field(named("String"), vec![rule("DIGITS")], None);
    assert!(v.is_ready());
    assert_eq!(outcome(&v, text("0123")), Ok(true));
    assert_eq!(outcome(&v, text("01a3")), fail("no digits"));
    assert_eq!(outcome(&v, text("")), fail("no digits"));
    assert_eq!(v.try_check(0, &vec![text("7")], &never).map(|o| o.into_result()), Some(Ok(true)));
    assert_eq!(
        v.try_check_group(0, &vec![text("x")], "G", &never).map(|o| o.into_result()),
        Some(fail("no digits"))
    );
}

#[test]
fn a_text_that_is_no_pattern_stops_the_check_before_it_starts() {
    let rule = Rule::Regex(RegexOptions { pattern: "BROKEN".to_string(), message: some("m") });
    let v = one_field(named("String"), vec![rule], None);
    assert!(!v.is_ready());
    assert!(v.try_check(0, &vec![text("7")], &never).is_none());
    assert!(v.try_check_group(0, &vec![text("7")], "G", &never).is_none());
    assert!(v.bind(0, vec![text("7")], never).is_none());
    // The broken pattern harms no validator that does not use it.
    let v = one_field(named("String"), code_rules(), None);
    assert!(v.is_ready());
    assert!(v.try_check(0, &vec![text("abcdef")], &never).is_some());
}

#[test]
fn a_bound_record_is_validated_through_the_trait() {
    let v = validator(vec![(
        "T",
        vec![tagged("a", &["A"], "a failed"), tagged("b", &["B"], "b failed")],
    )]);
    let bound = v
        .bind(0, vec![Value::Integer(1), Value::Integer(2)], |name: &str, _: &Value| name == "a")
        .unwrap();
    assert_eq!(bound.check(), fail("b failed"));
    assert_eq!(bound.check_group("A".to_string()), Ok(true));
    assert_eq!(bound.check_group("B".to_string()), fail("b failed"));
    assert_eq!(bound.check_group("C".to_string()), Ok(true));
}

#[test]
fn an_outcome_is_a_pass_or_one_message() {
    let pass = ValidationOutcome::Pass;
    assert!(pass.is_pass());
    assert_eq!(pass.message(), None);
    assert_eq!(pass.into_result(), Ok(true));
    let failed = ValidationOutcome::Fail("why".to_string());
    assert!(!failed.is_pass());
    assert_eq!(failed.message().map(|m| m.as_str()), Some("why"));
    assert_eq!(failed.into_result(), fail("why"));
}

#[test]
fn values_are_compared_as_scalars() {
    assert!(text("a").is_same_scalar(&text("a")));
    assert!(!text("a").is_same_scalar(&text("b")));
    assert!(!text("a").is_same_scalar(&Value::Enum("a".to_string())));
    assert!(Value::Boolean(true).is_same_scalar(&Value::Boolean(true)));
    assert!(!Value::Decimal(1).is_same_scalar(&Value::DateTime(1)));
    assert!(!Value::List(vec![]).is_same_scalar(&Value::List(vec![])));
    assert!(!Value::Absent.is_same_scalar(&Value::Absent));
    assert!(Value::Integer(2).is_among(&vec![Value::Integer(1), Value::Integer(2)]));
    assert!(!Value::Integer(3).is_among(&vec![Value::Integer(1), Value::Integer(2)]));
    assert!(matches!(text("a").scalar_copy(), Some(Value::Text(s)) if s == "a"));
    assert!(Value::Record(vec![]).scalar_copy().is_none());
    assert!(matches!(present(present(text("a"))).unwrapped(), Some(Value::Text(s)) if s == "a"));
    assert!(present(Value::Absent).unwrapped().is_none());
    assert!(matches!(Value::List(vec![]).unwrapped(), Some(Value::List(_))));
}
