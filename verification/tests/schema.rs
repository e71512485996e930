use jiuziai_validator::patterns::{regexes_static_gen, Item, PatternRegistry};
use jiuziai_validator::schema::attributes::{
    parse_struct_attributes, ArgValue, Attribute, AttributeArgs, Data, DeriveInput, Field, Fields,
    MetaArg,
};
use jiuziai_validator::schema::basic_types::BasicValidationType;
use jiuziai_validator::schema::boundary::{expected, validate_field_rules, Requirement};
use jiuziai_validator::schema::codegen::{derive_validate, generate_validate_impl, RecordSchema};
use jiuziai_validator::schema::declared::{DeclaredType, TypeArgument};
use jiuziai_validator::schema::error::{RuleKind, SchemaError, SchemaErrorKind};
use jiuziai_validator::schema::field_meta::parse_field_attributes;
use jiuziai_validator::schema::generic_types::GenericValidationType;
use jiuziai_validator::schema::metadata::{
    BoolOptions, FieldValidation, FuncOptions, RangeOptions, RegexOptions, Rule, SizeOptions,
    VecOptions,
};
use jiuziai_validator::schema::value::Value;

fn text(s: &str) -> ArgValue {
    ArgValue::Literal(Value::Text(s.to_string()))
}

fn num(n: i128) -> ArgValue {
    ArgValue::Literal(Value::Integer(n))
}

fn arg(key: &str, value: ArgValue) -> MetaArg {
    MetaArg { key: key.to_string(), value }
}

fn attr(name: &str, args: Vec<MetaArg>) -> Attribute {
    Attribute { name: name.to_string(), args: AttributeArgs::List(args) }
}

fn field(name: &str, ty: DeclaredType, attrs: Vec<Attribute>) -> Field {
    Field { ident: Some(name.to_string()), ty, attrs }
}

fn named(name: &str) -> DeclaredType {
    DeclaredType::named(name)
}

fn wrap(name: &str, inner: DeclaredType) -> DeclaredType {
    DeclaredType::wrapping(name, inner)
}

fn path(segments: &[&str]) -> DeclaredType {
    DeclaredType::Path {
        segments: segments.iter().map(|s| s.to_string()).collect(),
        args: Vec::new(),
    }
}

fn some(s: &str) -> Option<String> {
    Some(s.to_string())
}

fn described(ty: DeclaredType, rules: Vec<Rule>, message: Option<&str>) -> FieldValidation {
    FieldValidation {
        ident: "f".to_string(),
        field_type: ty,
        rules,
        message: message.map(|m| m.to_string()),
    }
}

fn no_patterns() -> PatternRegistry {
    regexes_static_gen(&Vec::new()).ok().unwrap()
}

fn fault(r: Result<(), SchemaError>) -> (SchemaErrorKind, String, Option<RuleKind>) {
    let e = r.unwrap_err();
    (e.kind, e.field, e.rule)
}

fn every_rule() -> Vec<Rule> {
    vec![
        Rule::NotBlank(BoolOptions { message: some("m") }),
        Rule::NotEmpty(BoolOptions { message: some("m") }),
        Rule::NoSpace(BoolOptions { message: some("m") }),
        Rule::Regex(RegexOptions { pattern: "P".to_string(), message: some("m") }),
        Rule::Range(RangeOptions { min: Some(1), max: None, message: some("m") }),
        Rule::Size(SizeOptions { min: Some(1), max: None, message: some("m") }),
        Rule::Within(VecOptions { values: Vec::new(), message: some("m") }),
        Rule::Exclude(VecOptions { values: Vec::new(), message: some("m") }),
        Rule::Required(BoolOptions { message: some("m") }),
        Rule::Func(FuncOptions { func: "p".to_string(), message: some("m") }),
        Rule::Deep,
        Rule::GroupTag(vec!["G".to_string()]),
    ]
}

fn accepts(ty: DeclaredType, rule: Rule) -> bool {
    validate_field_rules(&described(ty, vec![rule], None)).is_ok()
}

#[test]
fn the_table_of_built_in_types() {
    assert_eq!(BasicValidationType::from_type(&named("String")), BasicValidationType::String);
    for name in ["i8", "i16", "i32", "i64", "i128", "isize", "u8", "u16", "u32", "u64", "u128", "usize"] {
        assert_eq!(BasicValidationType::from_type(&named(name)), BasicValidationType::Integer);
    }
    assert_eq!(BasicValidationType::from_type(&named("f32")), BasicValidationType::Float);
    assert_eq!(BasicValidationType::from_type(&named("f64")), BasicValidationType::Float);
    assert_eq!(BasicValidationType::from_type(&named("bool")), BasicValidationType::Boolean);
    assert_eq!(BasicValidationType::from_type(&named("Decimal")), BasicValidationType::Decimal);
    for name in ["DateTime", "NaiveDateTime", "NaiveDate"] {
        assert_eq!(BasicValidationType::from_type(&named(name)), BasicValidationType::DateTime);
    }
    assert_eq!(
        BasicValidationType::from_type(&path(&["rust_decimal", "Decimal"])),
        BasicValidationType::Decimal
    );
}

#[test]
fn any_other_name_is_a_record_unless_it_is_foreign_or_taken() {
    assert_eq!(BasicValidationType::from_type(&named("Address")), BasicValidationType::CustomStruct);
    assert_eq!(
        BasicValidationType::from_type(&path(&["crate", "model", "Address"])),
        BasicValidationType::CustomStruct
    );
    for root in ["std", "core", "alloc", "chrono", "rust_decimal"] {
        assert_eq!(
            BasicValidationType::from_type(&path(&[root, "Thing"])),
            BasicValidationType::Unsupported
        );
    }
    for taken in ["Vec", "Option", "HashSet", "HashMap"] {
        assert_eq!(BasicValidationType::from_type(&named(taken)), BasicValidationType::Unsupported);
    }
    assert_eq!(BasicValidationType::from_type(&DeclaredType::Other), BasicValidationType::Unsupported);
    assert_eq!(BasicValidationType::from_type(&path(&[])), BasicValidationType::Unsupported);
}

#[test]
fn the_questions_about_a_basic_category() {
    assert!(BasicValidationType::Integer.supports_range());
    assert!(BasicValidationType::Float.supports_range());
    assert!(BasicValidationType::Decimal.supports_range());
    assert!(BasicValidationType::DateTime.supports_range());
    assert!(!BasicValidationType::String.supports_range());
    assert!(!BasicValidationType::Boolean.supports_range());
    assert!(BasicValidationType::String.is_string());
    assert!(!BasicValidationType::Enum.is_string());
    assert!(BasicValidationType::Enum.is_collection_compatible());
    assert!(!BasicValidationType::Unsupported.is_collection_compatible());
    assert!(BasicValidationType::CustomStruct.supports_within_exclude());
    assert!(!BasicValidationType::Unsupported.supports_within_exclude());
}

#[test]
fn wrappers_are_kept_around_what_has_a_category() {
    let c = GenericValidationType::from_type(&wrap("Option", named("String")));
    assert!(matches!(&c, GenericValidationType::Option(inner)
        if matches!(**inner, GenericValidationType::Basic(BasicValidationType::String))));
    assert!(c.is_valid() && c.is_option() && c.is_string() && !c.is_collection());
    assert!(c.supports_size() && !c.supports_range() && !c.is_custom_struct());

    let c = GenericValidationType::from_type(&wrap("Vec", named("u8")));
    assert!(matches!(&c, GenericValidationType::Vec(_)));
    assert!(c.is_collection() && c.supports_size() && c.supports_range() && !c.is_string());
    assert_eq!(*c.get_base_type(), BasicValidationType::Integer);

    let c = GenericValidationType::from_type(&wrap("HashSet", named("Item")));
    assert!(matches!(&c, GenericValidationType::HashSet(_)));
    assert!(c.is_custom_struct() && c.is_collection());

    let c = GenericValidationType::from_type(&DeclaredType::mapping(
        "HashMap",
        named("String"),
        named("f64"),
    ));
    assert!(matches!(&c, GenericValidationType::HashMap(_, _)));
    assert_eq!(*c.get_base_type(), BasicValidationType::String);

    let c = GenericValidationType::from_type(&wrap("Vec", wrap("Vec", named("Item"))));
    assert!(matches!(&c, GenericValidationType::Vec(inner)
        if matches!(**inner, GenericValidationType::Vec(_))));
}

#[test]
fn a_wrapper_around_what_has_no_category_has_none() {
    for ty in [
        wrap("Option", path(&["std", "Thing"])),
        wrap("Vec", DeclaredType::Other),
        named("Option"),
        DeclaredType::Path {
            segments: vec!["Vec".to_string()],
            args: vec![TypeArgument::Other],
        },
        DeclaredType::Path {
            segments: vec!["HashMap".to_string()],
            args: vec![TypeArgument::Type(named("String"))],
        },
        DeclaredType::mapping("HashMap", named("String"), path(&["core", "Thing"])),
        wrap("Option", wrap("Vec", wrap("HashSet", path(&["alloc", "Thing"])))),
    ] {
        let c = GenericValidationType::from_type(&ty);
        assert!(matches!(c, GenericValidationType::Basic(BasicValidationType::Unsupported)));
        assert!(!c.is_valid());
    }
}

#[test]
fn five_wrappers_are_looked_through_and_six_are_not() {
    let mut ty = named("String");
    for _ in 0..5 {
        ty = wrap("Option", ty);
    }
    let five = GenericValidationType::from_type(&ty);
    assert!(five.is_valid());
    assert!(five.is_string());
    let six = GenericValidationType::from_type(&wrap("Option", ty));
    assert!(matches!(six, GenericValidationType::Basic(BasicValidationType::Unsupported)));
}

#[test]
fn a_copy_of_a_category_is_the_category() {
    let c = GenericValidationType::from_type(&DeclaredType::mapping(
        "HashMap",
        named("u8"),
        wrap("Vec", named("Item")),
    ));
    assert_eq!(format!("{:?}", c.duplicate()), format!("{:?}", c));
}

#[test]
fn each_rule_asks_for_its_category() {
    let rule = |i: usize| every_rule().remove(i);
    // NotBlank, NoSpace, Regex: text at the heart.
    for i in [0, 2, 3] {
        assert!(accepts(named("String"), rule(i)));
        assert!(accepts(wrap("Option", named("String")), rule(i)));
        assert!(!accepts(named("u8"), rule(i)));
        assert!(!accepts(named("Item"), rule(i)));
    }
    // NotEmpty, Size: text, or a collection outermost.
    for i in [1, 5] {
        assert!(accepts(named("String"), rule(i)));
        assert!(accepts(wrap("Vec", named("u8")), rule(i)));
        assert!(accepts(wrap("HashSet", named("u8")), rule(i)));
        assert!(accepts(DeclaredType::mapping("HashMap", named("u8"), named("u8")), rule(i)));
        assert!(!accepts(named("u8"), rule(i)));
        assert!(!accepts(wrap("Option", wrap("Vec", named("u8"))), rule(i)));
    }
    // Range: an ordered category at the heart.
    for name in ["i64", "f32", "Decimal", "NaiveDate"] {
        assert!(accepts(named(name), rule(4)));
    }
    assert!(!accepts(named("String"), rule(4)));
    assert!(!accepts(named("bool"), rule(4)));
    // Required: optional outermost.
    assert!(accepts(wrap("Option", named("u8")), rule(8)));
    assert!(!accepts(named("u8"), rule(8)));
    assert!(!accepts(wrap("Vec", wrap("Option", named("u8"))), rule(8)));
    // Func: anything.
    assert!(accepts(named("u8"), rule(9)));
    assert!(accepts(DeclaredType::Other, rule(9)));
    // Within, Exclude, GroupTag: a known category at the heart.
    for i in [6, 7, 11] {
        assert!(accepts(named("bool"), rule(i)));
        assert!(accepts(named("Item"), rule(i)));
        assert!(!accepts(path(&["std", "Thing"]), rule(i)));
    }
}

#[test]
fn deep_goes_one_layer_and_no_further() {
    let deep = || Rule::Deep;
    assert!(accepts(named("Item"), deep()));
    assert!(accepts(wrap("Option", named("Item")), deep()));
    assert!(accepts(wrap("Vec", named("Item")), deep()));
    assert!(accepts(wrap("HashSet", named("Item")), deep()));
    assert!(!accepts(wrap("Vec", wrap("Vec", named("Item"))), deep()));
    assert!(!accepts(wrap("Option", wrap("Vec", named("Item"))), deep()));
    assert!(!accepts(DeclaredType::mapping("HashMap", named("String"), named("Item")), deep()));
    assert!(!accepts(named("String"), deep()));
    assert!(!accepts(wrap("Vec", named("u8")), deep()));
}

#[test]
fn a_field_of_unsupported_type_admits_only_a_predicate() {
    for ty in [DeclaredType::Other, path(&["std", "Thing"]), wrap("Option", DeclaredType::Other)] {
        let kinds: Vec<RuleKind> = every_rule().iter().map(|r| r.kind()).collect();
        for (i, kind) in kinds.into_iter().enumerate() {
            let copy = match &ty {
                DeclaredType::Other => DeclaredType::Other,
                DeclaredType::Path { segments, .. } if segments[0] == "std" => path(&["std", "Thing"]),
                _ => wrap("Option", DeclaredType::Other),
            };
            let r = validate_field_rules(&described(copy, vec![every_rule().remove(i)], None));
            if kind == RuleKind::Func {
                assert!(r.is_ok());
            } else {
                assert_eq!(
                    fault(r),
                    (SchemaErrorKind::IncompatibleRule, "f".to_string(), Some(kind))
                );
            }
        }
    }
}

#[test]
fn the_first_rule_that_does_not_fit_is_named() {
    let r = validate_field_rules(&described(
        named("String"),
        vec![
            Rule::NotBlank(BoolOptions { message: None }),
            Rule::Range(RangeOptions { min: None, max: None, message: None }),
            Rule::Required(BoolOptions { message: None }),
        ],
        None,
    ));
    assert_eq!(fault(r), (SchemaErrorKind::IncompatibleRule, "f".to_string(), Some(RuleKind::Range)));
}

#[test]
fn an_error_says_what_the_rule_asked_for() {
    let refused = |ty: DeclaredType, i: usize| {
        validate_field_rules(&described(ty, vec![every_rule().remove(i)], None)).unwrap_err()
    };
    assert_eq!(expected(&refused(named("u8"), 0)), Some(Requirement::Text));
    assert_eq!(expected(&refused(named("u8"), 1)), Some(Requirement::Sized));
    assert_eq!(expected(&refused(named("u8"), 2)), Some(Requirement::Text));
    assert_eq!(expected(&refused(named("u8"), 3)), Some(Requirement::Text));
    assert_eq!(expected(&refused(named("String"), 4)), Some(Requirement::Ordered));
    assert_eq!(expected(&refused(named("u8"), 5)), Some(Requirement::Sized));
    assert_eq!(expected(&refused(DeclaredType::Other, 6)), Some(Requirement::Listed));
    assert_eq!(expected(&refused(DeclaredType::Other, 7)), Some(Requirement::Listed));
    assert_eq!(expected(&refused(named("u8"), 8)), Some(Requirement::Optional));
    assert_eq!(expected(&refused(named("u8"), 10)), Some(Requirement::Nested));
    assert_eq!(expected(&refused(DeclaredType::Other, 11)), Some(Requirement::Known));
    let mismatch = validate_field_rules(&described(
        named("u8"),
        vec![Rule::Within(VecOptions { values: vec![Value::Boolean(true)], message: None })],
        None,
    ))
    .unwrap_err();
    assert_eq!(expected(&mismatch), None);
}

#[test]
fn listed_values_must_be_of_the_category() {
    let within = |values: Vec<Value>| Rule::Within(VecOptions { values, message: some("m") });
    assert!(accepts(named("u8"), within(vec![Value::Integer(1), Value::Integer(2)])));
    assert!(accepts(named("String"), within(vec![Value::Text("a".to_string())])));
    assert!(accepts(wrap("Option", named("bool")), within(vec![Value::Boolean(true)])));
    let r = validate_field_rules(&described(
        named("u8"),
        vec![within(vec![Value::Integer(1), Value::Text("2".to_string())])],
        None,
    ));
    assert_eq!(fault(r), (SchemaErrorKind::MismatchedValue, "f".to_string(), Some(RuleKind::Within)));
    let r = validate_field_rules(&described(
        named("f64"),
        vec![Rule::Exclude(VecOptions { values: vec![Value::Integer(1)], message: None })],
        None,
    ));
    assert_eq!(fault(r), (SchemaErrorKind::MismatchedValue, "f".to_string(), Some(RuleKind::Exclude)));
}

#[test]
fn attributes_become_rules_in_their_order() {
    let f = field(
        "code",
        named("String"),
        vec![
            attr("size", vec![arg("min", num(5)), arg("max", num(10)), arg("message", text("size bad"))]),
            attr("doc", vec![]),
            attr("no_space", vec![arg("message", text("no space"))]),
            attr("group", vec![arg("groups", ArgValue::Array(vec![
                ArgValue::Expr("Group::A".to_string()),
                ArgValue::Expr("Group::B".to_string()),
            ]))]),
            Attribute { name: "deep".to_string(), args: AttributeArgs::Empty },
        ],
    );
    let v = parse_field_attributes(f).ok().unwrap();
    assert_eq!(v.ident, "code");
    assert!(v.message.is_none());
    assert_eq!(v.rules.len(), 4);
    assert!(matches!(&v.rules[0], Rule::Size(o)
        if o.min == Some(5) && o.max == Some(10) && o.message.as_deref() == Some("size bad")));
    assert!(matches!(&v.rules[1], Rule::NoSpace(o) if o.message.as_deref() == Some("no space")));
    assert!(matches!(&v.rules[2], Rule::GroupTag(g) if g == &["Group::A", "Group::B"]));
    assert!(matches!(&v.rules[3], Rule::Deep));
    assert_eq!(v.rules[0].kind(), RuleKind::Size);
    assert_eq!(v.rules[0].message().map(|m| m.as_str()), Some("size bad"));
    assert_eq!(v.rules[3].message(), None);
}

#[test]
fn every_attribute_is_read() {
    let f = field(
        "x",
        named("i64"),
        vec![
            Attribute { name: "message".to_string(), args: AttributeArgs::Single(text("any")) },
            attr("range", vec![arg("max", num(-1))]),
            attr("func", vec![arg("func", ArgValue::Expr("is_even".to_string()))]),
            attr("regex", vec![arg("pattern", ArgValue::Expr("DIGITS".to_string()))]),
            attr("within", vec![arg("values", ArgValue::Array(vec![num(1), num(2)]))]),
            attr("exclude", vec![arg("values", ArgValue::Array(vec![
                ArgValue::Expr("Color::Red".to_string()),
            ]))]),
            attr("required", vec![]),
            attr("not_blank", vec![]),
            attr("not_empty", vec![arg("message", text("e")), arg("other", num(1))]),
        ],
    );
    let v = parse_field_attributes(f).ok().unwrap();
    assert_eq!(v.message.as_deref(), Some("any"));
    assert_eq!(v.rules.len(), 8);
    assert!(matches!(&v.rules[0], Rule::Range(o) if o.min.is_none() && o.max == Some(-1)));
    assert!(matches!(&v.rules[1], Rule::Func(o) if o.func == "is_even" && o.message.is_none()));
    assert!(matches!(&v.rules[2], Rule::Regex(o) if o.pattern == "DIGITS"));
    assert!(matches!(&v.rules[3], Rule::Within(o)
        if matches!(o.values[..], [Value::Integer(1), Value::Integer(2)])));
    assert!(matches!(&v.rules[4], Rule::Exclude(o)
        if matches!(&o.values[..], [Value::Enum(name)] if name == "Color::Red")));
    assert!(matches!(&v.rules[5], Rule::Required(o) if o.message.is_none()));
    assert!(matches!(&v.rules[6], Rule::NotBlank(_)));
    assert!(matches!(&v.rules[7], Rule::NotEmpty(o) if o.message.as_deref() == Some("e")));
}

fn parse_fault(name: &str, args: AttributeArgs) -> (SchemaErrorKind, String, Option<RuleKind>) {
    let f = field("x", named("String"), vec![Attribute { name: name.to_string(), args }]);
    let e = parse_field_attributes(f).err().unwrap();
    (e.kind, e.field, e.rule)
}

#[test]
fn each_fault_of_an_attribute_has_its_error() {
    let x = || "x".to_string();
    assert_eq!(
        parse_fault("range", AttributeArgs::List(vec![arg("step", num(1))])),
        (SchemaErrorKind::UnexpectedArgument, x(), Some(RuleKind::Range))
    );
    assert_eq!(
        parse_fault("range", AttributeArgs::List(vec![arg("min", text("1"))])),
        (SchemaErrorKind::InvalidArgument, x(), Some(RuleKind::Range))
    );
    assert_eq!(
        parse_fault("range", AttributeArgs::List(vec![arg("min", num(i64::MAX as i128 + 1))])),
        (SchemaErrorKind::InvalidArgument, x(), Some(RuleKind::Range))
    );
    assert_eq!(
        parse_fault("size", AttributeArgs::List(vec![arg("min", num(-1))])),
        (SchemaErrorKind::InvalidArgument, x(), Some(RuleKind::Size))
    );
    assert_eq!(
        parse_fault("size", AttributeArgs::Empty),
        (SchemaErrorKind::InvalidArgument, x(), Some(RuleKind::Size))
    );
    assert_eq!(
        parse_fault("func", AttributeArgs::List(vec![arg("message", text("m"))])),
        (SchemaErrorKind::MissingArgument, x(), Some(RuleKind::Func))
    );
    assert_eq!(
        parse_fault("regex", AttributeArgs::List(vec![])),
        (SchemaErrorKind::MissingArgument, x(), Some(RuleKind::Regex))
    );
    assert_eq!(
        parse_fault("regex", AttributeArgs::List(vec![arg("pattern", text(r"^\d+$"))])),
        (SchemaErrorKind::PatternText, x(), Some(RuleKind::Regex))
    );
    assert_eq!(
        parse_fault("within", AttributeArgs::List(vec![arg("values", num(1))])),
        (SchemaErrorKind::InvalidArgument, x(), Some(RuleKind::Within))
    );
    assert_eq!(
        parse_fault(
            "exclude",
            AttributeArgs::List(vec![arg("values", ArgValue::Array(vec![ArgValue::Array(vec![])]))])
        ),
        (SchemaErrorKind::InvalidArgument, x(), Some(RuleKind::Exclude))
    );
    assert_eq!(
        parse_fault("group", AttributeArgs::List(vec![arg("groups", ArgValue::Array(vec![num(1)]))])),
        (SchemaErrorKind::MalformedGroup, x(), Some(RuleKind::GroupTag))
    );
    assert_eq!(
        parse_fault("group", AttributeArgs::List(vec![arg("names", ArgValue::Array(vec![]))])),
        (SchemaErrorKind::MalformedGroup, x(), Some(RuleKind::GroupTag))
    );
    assert_eq!(
        parse_fault("group", AttributeArgs::Single(text("A"))),
        (SchemaErrorKind::MalformedGroup, x(), Some(RuleKind::GroupTag))
    );
    assert_eq!(
        parse_fault("message", AttributeArgs::List(vec![])),
        (SchemaErrorKind::InvalidArgument, x(), None)
    );
    let e = parse_field_attributes(Field { ident: None, ty: named("u8"), attrs: vec![] })
        .err()
        .unwrap();
    assert_eq!((e.kind, e.field, e.rule), (SchemaErrorKind::UnnamedField, String::new(), None));
}

#[test]
fn only_a_struct_with_named_fields_is_read() {
    let item = |data: Data| DeriveInput { ident: "T".to_string(), data };
    let kind = |data: Data| parse_struct_attributes(item(data)).err().unwrap().kind;
    assert_eq!(kind(Data::Struct(Fields::Unnamed)), SchemaErrorKind::TupleStruct);
    assert_eq!(kind(Data::Struct(Fields::Unit)), SchemaErrorKind::UnitStruct);
    assert_eq!(kind(Data::Enum), SchemaErrorKind::EnumItem);
    assert_eq!(kind(Data::Union), SchemaErrorKind::UnionItem);
    let fields = parse_struct_attributes(item(Data::Struct(Fields::Named(vec![
        field("a", named("u8"), vec![]),
        field("b", named("String"), vec![attr("not_blank", vec![arg("message", text("m"))])]),
        field("c", named("bool"), vec![]),
    ]))))
    .ok()
    .unwrap();
    let names: Vec<&str> = fields.iter().map(|f| f.ident.as_str()).collect();
    assert_eq!(names, ["a", "b", "c"]);
    assert_eq!(fields[1].rules.len(), 1);
    let e = parse_struct_attributes(item(Data::Struct(Fields::Named(vec![
        field("a", named("u8"), vec![]),
        field("b", named("u8"), vec![attr("range", vec![arg("x", num(1))])]),
        field("c", named("u8"), vec![attr("size", vec![arg("x", num(1))])]),
    ]))))
    .err()
    .unwrap();
    assert_eq!((e.kind, e.field.as_str(), e.rule), (SchemaErrorKind::UnexpectedArgument, "b", Some(RuleKind::Range)));
}

fn compile(fields: Vec<FieldValidation>) -> Result<(), (SchemaErrorKind, String, Option<RuleKind>)> {
    let records = vec![RecordSchema { name: "T".to_string(), fields }];
    match generate_validate_impl(records, no_patterns()) {
        Ok(_) => Ok(()),
        Err(e) => Err((e.kind, e.field, e.rule)),
    }
}

#[test]
fn a_field_has_a_message_or_its_rules_have() {
    let bare = || Rule::NotBlank(BoolOptions { message: None });
    let worded = || Rule::NotBlank(BoolOptions { message: some("m") });
    assert_eq!(compile(vec![described(named("String"), vec![worded()], None)]), Ok(()));
    assert_eq!(compile(vec![described(named("String"), vec![bare()], Some("any"))]), Ok(()));
    assert_eq!(
        compile(vec![described(named("String"), vec![worded(), bare()], None)]),
        Err((SchemaErrorKind::MissingMessage, "f".to_string(), Some(RuleKind::NotBlank)))
    );
    assert_eq!(
        compile(vec![described(named("String"), vec![bare(), worded()], Some("any"))]),
        Err((SchemaErrorKind::ConflictingMessage, "f".to_string(), Some(RuleKind::NotBlank)))
    );
    // Deep and GroupTag have no message and need none.
    assert_eq!(
        compile(vec![described(named("String"), vec![Rule::GroupTag(vec![]), worded()], None)]),
        Ok(())
    );
    // A rule that does not fit is found before a message that is missing.
    assert_eq!(
        compile(vec![described(
            named("String"),
            vec![bare(), Rule::Range(RangeOptions { min: None, max: None, message: None })],
            None
        )]),
        Err((SchemaErrorKind::IncompatibleRule, "f".to_string(), Some(RuleKind::Range)))
    );
}

#[test]
fn patterns_and_records_must_be_known() {
    let rule = Rule::Regex(RegexOptions { pattern: "DIGITS".to_string(), message: some("m") });
    assert_eq!(
        compile(vec![described(named("String"), vec![rule], None)]),
        Err((SchemaErrorKind::UnknownPattern, "f".to_string(), Some(RuleKind::Regex)))
    );
    assert_eq!(
        compile(vec![described(wrap("Vec", named("Item")), vec![], None)]),
        Err((SchemaErrorKind::UnknownRecord, "f".to_string(), None))
    );
    assert_eq!(compile(vec![described(wrap("Vec", named("T")), vec![], None)]), Ok(()));
    let twice = vec![
        RecordSchema { name: "T".to_string(), fields: vec![] },
        RecordSchema { name: "U".to_string(), fields: vec![] },
        RecordSchema { name: "T".to_string(), fields: vec![] },
    ];
    let e = generate_validate_impl(twice, no_patterns()).err().unwrap();
    assert_eq!((e.kind, e.field.as_str(), e.rule), (SchemaErrorKind::DuplicateName, "T", None));
}

#[test]
fn a_validator_knows_its_records_by_name() {
    let items = vec![Item::Const { ident: "DIGITS".to_string(), value: text(r"^\d+$") }];
    let registry = regexes_static_gen(&items).ok().unwrap();
    let inputs = vec![
        DeriveInput {
            ident: "Outer".to_string(),
            data: Data::Struct(Fields::Named(vec![
                field("inner", named("Inner"), vec![]),
                field("code", named("String"), vec![attr("regex", vec![
                    arg("pattern", ArgValue::Expr("DIGITS".to_string())),
                    arg("message", text("digits")),
                ])]),
            ])),
        },
        DeriveInput { ident: "Inner".to_string(), data: Data::Struct(Fields::Named(vec![])) },
    ];
    let v = derive_validate(inputs, registry).ok().unwrap();
    assert_eq!(v.len(), 2);
    assert_eq!(v.record("Outer"), Some(0));
    assert_eq!(v.record("Inner"), Some(1));
    assert_eq!(v.record("Other"), None);
    assert!(v.is_ready());
    let e = derive_validate(
        vec![DeriveInput { ident: "E".to_string(), data: Data::Enum }],
        no_patterns(),
    )
    .err()
    .unwrap();
    assert_eq!(e.kind, SchemaErrorKind::EnumItem);
}

#[test]
fn the_heart_of_a_type_is_what_its_wrapper_holds() {
    assert_eq!(named("Item").heart(), "Item");
    assert_eq!(wrap("Option", named("Item")).heart(), "Item");
    assert_eq!(wrap("Vec", path(&["model", "Item"])).heart(), "Item");
    assert_eq!(wrap("HashSet", named("Item")).heart(), "Item");
    assert_eq!(wrap("Box", named("Item")).heart(), "Box");
    assert_eq!(named("Option").heart(), "");
    assert_eq!(DeclaredType::Other.heart(), "");
    assert_eq!(DeclaredType::Other.name(), "");
    assert_eq!(path(&["a", "b"]).name(), "b");
}
