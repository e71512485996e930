//! From a field's attributes to its description.

use vstd::prelude::*;
use crate::schema::attributes::ArgValue;
use crate::schema::attributes::Attribute;
use crate::schema::attributes::AttributeArgs;
use crate::schema::attributes::Field;
use crate::schema::attributes::MetaArg;
use crate::schema::error::RuleKind;
use crate::schema::error::SchemaError;
use crate::schema::error::SchemaErrorKind;
use crate::schema::generic_types::classify;
use crate::schema::metadata::BoolOptions;
use crate::schema::metadata::FieldValidation;
use crate::schema::metadata::FieldView;
use crate::schema::metadata::FuncOptions;
use crate::schema::metadata::RangeOptions;
use crate::schema::metadata::RegexOptions;
use crate::schema::metadata::Rule;
use crate::schema::metadata::RuleView;
use crate::schema::metadata::SizeOptions;
use crate::schema::metadata::VecOptions;
use crate::schema::metadata::opt_text;
use crate::schema::metadata::rule_views;
use crate::schema::metadata::texts;
use crate::schema::value::Value;
use crate::text::str_eq;

verus! {

/// A fault found while reading attributes: its kind and the rule it was
/// found in.
pub struct Fault {
    pub kind: SchemaErrorKind,
    pub rule: Option<RuleKind>,
}

/// What the arguments of one attribute say.
pub struct ArgsView {
    pub min: Option<int>,
    pub max: Option<int>,
    pub message: Option<Seq<char>>,
    /// The expression given as `func` or as `pattern`.
    pub target: Option<Seq<char>>,
    pub values: Option<Seq<Value>>,
    pub groups: Option<Seq<Seq<char>>>,
}

/// The arguments of one attribute, gathered.
pub struct Args {
    pub min: Option<i128>,
    pub max: Option<i128>,
    pub message: Option<String>,
    pub target: Option<String>,
    pub values: Option<Vec<Value>>,
    pub groups: Option<Vec<String>>,
}

impl View for Args {
    type V = ArgsView;

    open spec fn view(&self) -> ArgsView {
        ArgsView {
            min: match self.min {
                Some(n) => Some(n as int),
                None => None,
            },
            max: match self.max {
                Some(n) => Some(n as int),
                None => None,
            },
            message: opt_text(self.message),
            target: opt_text(self.target),
            values: match self.values {
                Some(v) => Some(v@),
                None => None,
            },
            groups: match self.groups {
                Some(g) => Some(texts(g@)),
                None => None,
            },
        }
    }
}

/// Nothing said yet.
pub open spec fn no_args() -> ArgsView {
    ArgsView { min: None, max: None, message: None, target: None, values: None, groups: None }
}

/// The rule that an attribute of this name stands for.
pub open spec fn attribute_kind(name: Seq<char>) -> Option<RuleKind> {
    if name == "func"@ {
        Some(RuleKind::Func)
    } else if name == "not_blank"@ {
        Some(RuleKind::NotBlank)
    } else if name == "not_empty"@ {
        Some(RuleKind::NotEmpty)
    } else if name == "no_space"@ {
        Some(RuleKind::NoSpace)
    } else if name == "range"@ {
        Some(RuleKind::Range)
    } else if name == "regex"@ {
        Some(RuleKind::Regex)
    } else if name == "required"@ {
        Some(RuleKind::Required)
    } else if name == "size"@ {
        Some(RuleKind::Size)
    } else if name == "within"@ {
        Some(RuleKind::Within)
    } else if name == "exclude"@ {
        Some(RuleKind::Exclude)
    } else if name == "deep"@ {
        Some(RuleKind::Deep)
    } else if name == "group"@ {
        Some(RuleKind::GroupTag)
    } else {
        None
    }
}

/// Whether a bound of this rule can be `n`: a range is bounded by 64-bit
/// signed integers, a size by 64-bit unsigned ones.
pub open spec fn bound_fits(kind: RuleKind, n: int) -> bool {
    match kind {
        RuleKind::Range => i64::MIN <= n <= i64::MAX,
        RuleKind::Size => 0 <= n <= u64::MAX,
        _ => false,
    }
}

/// The value that an element of a list of values stands for: a scalar
/// literal stands for itself, an expression for the variant of an
/// enumeration that it names.
pub open spec fn listed_value(item: ArgValue) -> Option<Value> {
    match item {
        ArgValue::Literal(v) => if v.is_scalar() {
            Some(v)
        } else {
            None
        },
        ArgValue::Expr(e) => Some(Value::Enum(e)),
        ArgValue::Array(_) => None,
    }
}

/// The values that a list stands for, if each element stands for one.
pub open spec fn listed_values(items: Seq<ArgValue>) -> Option<Seq<Value>> {
    if forall|i: int| 0 <= i < items.len() ==> listed_value(#[trigger] items[i]) is Some {
        Some(Seq::new(items.len(), |i: int| listed_value(items[i])->0))
    } else {
        None
    }
}

/// The paths that a list holds, if it holds nothing else.
pub open spec fn listed_paths(items: Seq<ArgValue>) -> Option<Seq<Seq<char>>> {
    if forall|i: int| 0 <= i < items.len() ==> #[trigger] items[i] is Expr {
        Some(Seq::new(items.len(), |i: int| items[i]->Expr_0@))
    } else {
        None
    }
}

/// What is known of an attribute of `kind` after one more argument.
pub open spec fn apply_arg(kind: RuleKind, acc: ArgsView, arg: MetaArg) -> Result<
    ArgsView,
    SchemaErrorKind,
> {
    let key = arg.key@;
    if kind == RuleKind::GroupTag {
        if key == "groups"@ {
            match arg.value {
                ArgValue::Array(items) => match listed_paths(items@) {
                    Some(groups) => Ok(ArgsView { groups: Some(groups), ..acc }),
                    None => Err(SchemaErrorKind::MalformedGroup),
                },
                _ => Err(SchemaErrorKind::MalformedGroup),
            }
        } else {
            Err(SchemaErrorKind::MalformedGroup)
        }
    } else if key == "message"@ {
        match arg.value {
            ArgValue::Literal(Value::Text(s)) => Ok(ArgsView { message: Some(s@), ..acc }),
            _ => Err(SchemaErrorKind::InvalidArgument),
        }
    } else if (kind == RuleKind::Range || kind == RuleKind::Size) && (key == "min"@ || key
        == "max"@) {
        match arg.value {
            ArgValue::Literal(Value::Integer(n)) => if !bound_fits(kind, n as int) {
                Err(SchemaErrorKind::InvalidArgument)
            } else if key == "min"@ {
                Ok(ArgsView { min: Some(n as int), ..acc })
            } else {
                Ok(ArgsView { max: Some(n as int), ..acc })
            },
            _ => Err(SchemaErrorKind::InvalidArgument),
        }
    } else if kind == RuleKind::Func && key == "func"@ {
        match arg.value {
            ArgValue::Expr(e) => Ok(ArgsView { target: Some(e@), ..acc }),
            _ => Err(SchemaErrorKind::InvalidArgument),
        }
    } else if kind == RuleKind::Regex && key == "pattern"@ {
        match arg.value {
            ArgValue::Expr(e) => Ok(ArgsView { target: Some(e@), ..acc }),
            ArgValue::Literal(Value::Text(_)) => Err(SchemaErrorKind::PatternText),
            _ => Err(SchemaErrorKind::InvalidArgument),
        }
    } else if (kind == RuleKind::Within || kind == RuleKind::Exclude) && key == "values"@ {
        match arg.value {
            ArgValue::Array(items) => match listed_values(items@) {
                Some(values) => Ok(ArgsView { values: Some(values), ..acc }),
                None => Err(SchemaErrorKind::InvalidArgument),
            },
            _ => Err(SchemaErrorKind::InvalidArgument),
        }
    } else {
        Err(SchemaErrorKind::UnexpectedArgument)
    }
}

/// What the arguments say, one after the other and starting from `acc`, up
/// to the first that is at fault; and that fault, if there is one.
pub open spec fn gather_from(kind: RuleKind, args: Seq<MetaArg>, acc: ArgsView) -> (
    ArgsView,
    Option<SchemaErrorKind>,
)
    decreases args.len(),
{
    if args.len() == 0 {
        (acc, None)
    } else {
        match apply_arg(kind, acc, args[0]) {
            Ok(next) => gather_from(kind, args.drop_first(), next),
            Err(e) => (acc, Some(e)),
        }
    }
}

/// What the arguments of an attribute say.
pub open spec fn gather(kind: RuleKind, args: AttributeArgs) -> (ArgsView, Option<SchemaErrorKind>) {
    match args {
        AttributeArgs::List(list) => gather_from(kind, list@, no_args()),
        _ => (
            no_args(),
            Some(
                if kind == RuleKind::GroupTag {
                    SchemaErrorKind::MalformedGroup
                } else {
                    SchemaErrorKind::InvalidArgument
                },
            ),
        ),
    }
}

/// The rule that an attribute of `kind` with these arguments states.
///
/// A rule without arguments of its own takes the message it finds before
/// the first fault and overlooks the fault. Every other rule is refused for
/// a fault among its arguments, and for the lack of the argument it is about.
pub open spec fn rule_of(kind: RuleKind, args: AttributeArgs) -> Result<RuleView, SchemaErrorKind> {
    let (said, fault) = gather(kind, args);
    match kind {
        RuleKind::NotBlank => Ok(RuleView::NotBlank { message: said.message }),
        RuleKind::NotEmpty => Ok(RuleView::NotEmpty { message: said.message }),
        RuleKind::NoSpace => Ok(RuleView::NoSpace { message: said.message }),
        RuleKind::Required => Ok(RuleView::Required { message: said.message }),
        RuleKind::Deep => Ok(RuleView::Deep),
        _ => match fault {
            Some(e) => Err(e),
            None => match kind {
                RuleKind::Range => Ok(
                    RuleView::Range { min: said.min, max: said.max, message: said.message },
                ),
                RuleKind::Size => Ok(
                    RuleView::Size {
                        min: match said.min {
                            Some(n) => Some(n as nat),
                            None => None,
                        },
                        max: match said.max {
                            Some(n) => Some(n as nat),
                            None => None,
                        },
                        message: said.message,
                    },
                ),
                RuleKind::Func => match said.target {
                    Some(func) => Ok(RuleView::Func { func, message: said.message }),
                    None => Err(SchemaErrorKind::MissingArgument),
                },
                RuleKind::Regex => match said.target {
                    Some(pattern) => Ok(RuleView::Regex { pattern, message: said.message }),
                    None => Err(SchemaErrorKind::MissingArgument),
                },
                RuleKind::Within => Ok(
                    RuleView::Within {
                        values: match said.values {
                            Some(values) => values,
                            None => Seq::empty(),
                        },
                        message: said.message,
                    },
                ),
                RuleKind::Exclude => Ok(
                    RuleView::Exclude {
                        values: match said.values {
                            Some(values) => values,
                            None => Seq::empty(),
                        },
                        message: said.message,
                    },
                ),
                _ => Ok(
                    RuleView::GroupTag {
                        groups: match said.groups {
                            Some(groups) => groups,
                            None => Seq::empty(),
                        },
                    },
                ),
            },
        },
    }
}

/// The message that the attribute `message` gives to the field.
pub open spec fn field_message_of(args: AttributeArgs) -> Result<Seq<char>, SchemaErrorKind> {
    match args {
        AttributeArgs::Single(ArgValue::Literal(Value::Text(s))) => Ok(s@),
        _ => Err(SchemaErrorKind::InvalidArgument),
    }
}

/// What the attributes read so far say of the field.
pub struct Gathered {
    pub rules: Seq<RuleView>,
    pub message: Option<Seq<char>>,
}

/// What the attributes say of the field, one after the other and starting
/// from `acc`. An attribute of a name that states no rule is passed over.
pub open spec fn scan_from(attrs: Seq<Attribute>, acc: Gathered) -> Result<Gathered, Fault>
    decreases attrs.len(),
{
    if attrs.len() == 0 {
        Ok(acc)
    } else {
        let attr = attrs[0];
        if attr.name@ == "message"@ {
            match field_message_of(attr.args) {
                Ok(m) => scan_from(
                    attrs.drop_first(),
                    Gathered { message: Some(m), ..acc },
                ),
                Err(kind) => Err(Fault { kind, rule: None }),
            }
        } else {
            match attribute_kind(attr.name@) {
                None => scan_from(attrs.drop_first(), acc),
                Some(kind) => match rule_of(kind, attr.args) {
                    Ok(rule) => scan_from(
                        attrs.drop_first(),
                        Gathered { rules: acc.rules.push(rule), ..acc },
                    ),
                    Err(e) => Err(Fault { kind: e, rule: Some(kind) }),
                },
            }
        }
    }
}

/// The description that a field's attributes give of it, or the first fault
/// among them. A field without a name has none.
pub open spec fn parsed_field(field: Field) -> Result<FieldView, Fault> {
    match field.ident {
        None => Err(Fault { kind: SchemaErrorKind::UnnamedField, rule: None }),
        Some(name) => match scan_from(
            field.attrs@,
            Gathered { rules: Seq::empty(), message: None },
        ) {
            Ok(said) => Ok(
                FieldView {
                    ident: name@,
                    category: classify(field.ty, 0),
                    record: field.ty.heart_name(),
                    rules: said.rules,
                    message: said.message,
                },
            ),
            Err(fault) => Err(fault),
        },
    }
}

fn kind_of_attribute(name: &str) -> (r: Option<RuleKind>)
    ensures
        r == attribute_kind(name@),
{
    if str_eq(name, "func") {
        Some(RuleKind::Func)
    } else if str_eq(name, "not_blank") {
        Some(RuleKind::NotBlank)
    } else if str_eq(name, "not_empty") {
        Some(RuleKind::NotEmpty)
    } else if str_eq(name, "no_space") {
        Some(RuleKind::NoSpace)
    } else if str_eq(name, "range") {
        Some(RuleKind::Range)
    } else if str_eq(name, "regex") {
        Some(RuleKind::Regex)
    } else if str_eq(name, "required") {
        Some(RuleKind::Required)
    } else if str_eq(name, "size") {
        Some(RuleKind::Size)
    } else if str_eq(name, "within") {
        Some(RuleKind::Within)
    } else if str_eq(name, "exclude") {
        Some(RuleKind::Exclude)
    } else if str_eq(name, "deep") {
        Some(RuleKind::Deep)
    } else if str_eq(name, "group") {
        Some(RuleKind::GroupTag)
    } else {
        None
    }
}

fn collect_values(items: &Vec<ArgValue>) -> (r: Option<Vec<Value>>)
    ensures
        match r {
            Some(values) => listed_values(items@) == Some(values@),
            None => listed_values(items@) is None,
        },
{
    let mut out: Vec<Value> = Vec::new();
    let mut i: usize = 0;
    while i < items.len()
        invariant
            i <= items.len(),
            out@.len() == i,
            forall|j: int| 0 <= j < i ==> listed_value(#[trigger] items@[j]) == Some(out@[j]),
        decreases items.len() - i,
    {
        let value = match &items[i] {
            ArgValue::Literal(v) => match v.scalar_copy() {
                Some(copy) => copy,
                None => {
                    return None;
                },
            },
            ArgValue::Expr(e) => Value::Enum(e.clone()),
            ArgValue::Array(_) => {
                return None;
            },
        };
        out.push(value);
        i += 1;
    }
    assert(out@ =~= Seq::new(items@.len(), |i: int| listed_value(items@[i])->0));
    Some(out)
}

fn collect_paths(items: &Vec<ArgValue>) -> (r: Option<Vec<String>>)
    ensures
        match r {
            Some(paths) => listed_paths(items@) == Some(texts(paths@)),
            None => listed_paths(items@) is None,
        },
{
    let mut out: Vec<String> = Vec::new();
    let mut i: usize = 0;
    while i < items.len()
        invariant
            i <= items.len(),
            out@.len() == i,
            forall|j: int|
                0 <= j < i ==> #[trigger] items@[j] is Expr && items@[j]->Expr_0@ == out@[j]@,
        decreases items.len() - i,
    {
        match &items[i] {
            ArgValue::Expr(e) => {
                out.push(e.clone());
            },
            _ => {
                return None;
            },
        }
        i += 1;
    }
    assert(texts(out@) =~= Seq::new(items@.len(), |i: int| items@[i]->Expr_0@));
    Some(out)
}

fn apply_one(kind: RuleKind, acc: Args, arg: &MetaArg) -> (r: Result<Args, (Args, SchemaErrorKind)>)
    ensures
        match r {
            Ok(next) => apply_arg(kind, acc@, *arg) == Ok::<ArgsView, SchemaErrorKind>(next@),
            Err((same, e)) => same@ == acc@ && apply_arg(kind, acc@, *arg) == Err::<
                ArgsView,
                SchemaErrorKind,
            >(e),
        },
{
    let mut acc = acc;
    let key = arg.key.as_str();
    if matches!(kind, RuleKind::GroupTag) {
        if str_eq(key, "groups") {
            if let ArgValue::Array(items) = &arg.value {
                if let Some(groups) = collect_paths(items) {
                    acc.groups = Some(groups);
                    return Ok(acc);
                }
            }
        }
        return Err((acc, SchemaErrorKind::MalformedGroup));
    }
    if str_eq(key, "message") {
        if let ArgValue::Literal(Value::Text(s)) = &arg.value {
            acc.message = Some(s.clone());
            return Ok(acc);
        }
        return Err((acc, SchemaErrorKind::InvalidArgument));
    }
    let ranged = matches!(kind, RuleKind::Range | RuleKind::Size);
    let is_min = str_eq(key, "min");
    if ranged && (is_min || str_eq(key, "max")) {
        if let ArgValue::Literal(Value::Integer(n)) = &arg.value {
            let fits = match kind {
                RuleKind::Range => -0x8000_0000_0000_0000i128 <= *n && *n
                    <= 0x7fff_ffff_ffff_ffffi128,
                _ => 0 <= *n && *n <= 0xffff_ffff_ffff_ffffi128,
            };
            if fits {
                if is_min {
                    acc.min = Some(*n);
                } else {
                    acc.max = Some(*n);
                }
                return Ok(acc);
            }
        }
        return Err((acc, SchemaErrorKind::InvalidArgument));
    }
    if matches!(kind, RuleKind::Func) && str_eq(key, "func") {
        if let ArgValue::Expr(e) = &arg.value {
            acc.target = Some(e.clone());
            return Ok(acc);
        }
        return Err((acc, SchemaErrorKind::InvalidArgument));
    }
    if matches!(kind, RuleKind::Regex) && str_eq(key, "pattern") {
        return match &arg.value {
            ArgValue::Expr(e) => {
                acc.target = Some(e.clone());
                Ok(acc)
            },
            ArgValue::Literal(Value::Text(_)) => Err((acc, SchemaErrorKind::PatternText)),
            _ => Err((acc, SchemaErrorKind::InvalidArgument)),
        };
    }
    if matches!(kind, RuleKind::Within | RuleKind::Exclude) && str_eq(key, "values") {
        if let ArgValue::Array(items) = &arg.value {
            if let Some(values) = collect_values(items) {
                acc.values = Some(values);
                return Ok(acc);
            }
        }
        return Err((acc, SchemaErrorKind::InvalidArgument));
    }
    Err((acc, SchemaErrorKind::UnexpectedArgument))
}

/// Gathers what the arguments of an attribute of `kind` say, up to the
/// first that is at fault.
pub fn gather_args(kind: RuleKind, attr: &Attribute) -> (r: (Args, Option<SchemaErrorKind>))
    ensures
        r.0@ == gather(kind, attr.args).0,
        r.1 == gather(kind, attr.args).1,
{
    let mut acc = Args {
        min: None,
        max: None,
        message: None,
        target: None,
        values: None,
        groups: None,
    };
    let list = match &attr.args {
        AttributeArgs::List(list) => list,
        _ => {
            let fault = if matches!(kind, RuleKind::GroupTag) {
                SchemaErrorKind::MalformedGroup
            } else {
                SchemaErrorKind::InvalidArgument
            };
            return (acc, Some(fault));
        },
    };
    let mut i: usize = 0;
    assert(list@.skip(0) =~= list@);
    while i < list.len()
        invariant
            i <= list.len(),
            attr.args == AttributeArgs::List(*list),
            gather_from(kind, list@, no_args()) == gather_from(kind, list@.skip(i as int), acc@),
        decreases list.len() - i,
    {
        assert(list@.skip(i as int)[0] == list@[i as int]);
        assert(list@.skip(i as int).drop_first() =~= list@.skip(i + 1));
        match apply_one(kind, acc, &list[i]) {
            Ok(next) => {
                acc = next;
            },
            Err((same, e)) => {
                return (same, Some(e));
            },
        }
        i += 1;
    }
    (acc, None)
}

/// Reads an attribute that states a rule without arguments of its own. The
/// message is the one found before the first fault, if any.
pub fn parse_bool_attribute(attr: &Attribute) -> (r: BoolOptions)
    ensures
        opt_text(r.message) == gather(RuleKind::Required, attr.args).0.message,
{
    let (said, _) = gather_args(RuleKind::Required, attr);
    BoolOptions { message: said.message }
}

/// Reads the attribute `range`: `min`, `max` and `message`, each optional.
pub fn parse_range_attribute(attr: &Attribute) -> (r: Result<RangeOptions, SchemaErrorKind>)
    ensures
        match r {
            Ok(o) => rule_of(RuleKind::Range, attr.args) == Ok::<RuleView, SchemaErrorKind>(
                Rule::Range(o)@,
            ),
            Err(e) => rule_of(RuleKind::Range, attr.args) == Err::<RuleView, SchemaErrorKind>(e),
        },
{
    let (said, fault) = gather_args(RuleKind::Range, attr);
    if let Some(e) = fault {
        return Err(e);
    }
    proof {
        lemma_bounds_fit(RuleKind::Range, attr.args);
    }
    let min = match said.min {
        Some(n) => Some(n as i64),
        None => None,
    };
    let max = match said.max {
        Some(n) => Some(n as i64),
        None => None,
    };
    Ok(RangeOptions { min, max, message: said.message })
}

/// Reads the attribute `size`: `min`, `max` and `message`, each optional.
pub fn parse_size_attribute(attr: &Attribute) -> (r: Result<SizeOptions, SchemaErrorKind>)
    ensures
        match r {
            Ok(o) => rule_of(RuleKind::Size, attr.args) == Ok::<RuleView, SchemaErrorKind>(
                Rule::Size(o)@,
            ),
            Err(e) => rule_of(RuleKind::Size, attr.args) == Err::<RuleView, SchemaErrorKind>(e),
        },
{
    let (said, fault) = gather_args(RuleKind::Size, attr);
    if let Some(e) = fault {
        return Err(e);
    }
    proof {
        lemma_bounds_fit(RuleKind::Size, attr.args);
    }
    let min = match said.min {
        Some(n) => Some(n as u64),
        None => None,
    };
    let max = match said.max {
        Some(n) => Some(n as u64),
        None => None,
    };
    Ok(SizeOptions { min, max, message: said.message })
}

/// Reads the attribute `func`: `func`, which it cannot do without, and
/// `message`.
pub fn parse_func_attribute(attr: &Attribute) -> (r: Result<FuncOptions, SchemaErrorKind>)
    ensures
        match r {
            Ok(o) => rule_of(RuleKind::Func, attr.args) == Ok::<RuleView, SchemaErrorKind>(
                Rule::Func(o)@,
            ),
            Err(e) => rule_of(RuleKind::Func, attr.args) == Err::<RuleView, SchemaErrorKind>(e),
        },
{
    let (said, fault) = gather_args(RuleKind::Func, attr);
    if let Some(e) = fault {
        return Err(e);
    }
    match said.target {
        Some(func) => Ok(FuncOptions { func, message: said.message }),
        None => Err(SchemaErrorKind::MissingArgument),
    }
}

/// Reads the attribute `regex`: `pattern`, which it cannot do without and
/// which is an expression for a compiled pattern, never the pattern's text;
/// and `message`.
pub fn parse_regex_attribute(attr: &Attribute) -> (r: Result<RegexOptions, SchemaErrorKind>)
    ensures
        match r {
            Ok(o) => rule_of(RuleKind::Regex, attr.args) == Ok::<RuleView, SchemaErrorKind>(
                Rule::Regex(o)@,
            ),
            Err(e) => rule_of(RuleKind::Regex, attr.args) == Err::<RuleView, SchemaErrorKind>(e),
        },
{
    let (said, fault) = gather_args(RuleKind::Regex, attr);
    if let Some(e) = fault {
        return Err(e);
    }
    match said.target {
        Some(pattern) => Ok(RegexOptions { pattern, message: said.message }),
        None => Err(SchemaErrorKind::MissingArgument),
    }
}

/// Reads the attribute `within` or `exclude`, whichever `kind` says:
/// `values` and `message`.
pub fn parse_vec_attribute(kind: RuleKind, attr: &Attribute) -> (r: Result<
    VecOptions,
    SchemaErrorKind,
>)
    requires
        kind == RuleKind::Within || kind == RuleKind::Exclude,
    ensures
        match r {
            Ok(o) => rule_of(kind, attr.args) == Ok::<RuleView, SchemaErrorKind>(
                if kind == RuleKind::Within {
                    Rule::Within(o)@
                } else {
                    Rule::Exclude(o)@
                },
            ),
            Err(e) => rule_of(kind, attr.args) == Err::<RuleView, SchemaErrorKind>(e),
        },
{
    let (said, fault) = gather_args(kind, attr);
    if let Some(e) = fault {
        return Err(e);
    }
    let values = match said.values {
        Some(values) => values,
        None => Vec::new(),
    };
    Ok(VecOptions { values, message: said.message })
}

/// Reads the attribute `message`: one string literal.
pub fn parse_message_attribute(attr: &Attribute) -> (r: Result<String, SchemaErrorKind>)
    ensures
        match r {
            Ok(m) => field_message_of(attr.args) == Ok::<Seq<char>, SchemaErrorKind>(m@),
            Err(e) => field_message_of(attr.args) == Err::<Seq<char>, SchemaErrorKind>(e),
        },
{
    match &attr.args {
        AttributeArgs::Single(ArgValue::Literal(Value::Text(s))) => Ok(s.clone()),
        _ => Err(SchemaErrorKind::InvalidArgument),
    }
}

/// Reads the attribute `group`: `groups`, a list of paths.
pub fn parse_group_attribute(attr: &Attribute) -> (r: Result<Vec<String>, SchemaErrorKind>)
    ensures
        match r {
            Ok(groups) => rule_of(RuleKind::GroupTag, attr.args) == Ok::<
                RuleView,
                SchemaErrorKind,
            >(Rule::GroupTag(groups)@),
            Err(e) => rule_of(RuleKind::GroupTag, attr.args) == Err::<RuleView, SchemaErrorKind>(
                e,
            ),
        },
{
    let (said, fault) = gather_args(RuleKind::GroupTag, attr);
    if let Some(e) = fault {
        return Err(e);
    }
    match said.groups {
        Some(groups) => Ok(groups),
        None => {
            let groups: Vec<String> = Vec::new();
            assert(texts(groups@) =~= Seq::empty());
            Ok(groups)
        },
    }
}

/// The bounds that were gathered without a fault fit the rule.
proof fn lemma_bounds_fit(kind: RuleKind, args: AttributeArgs)
    requires
        kind == RuleKind::Range || kind == RuleKind::Size,
    ensures
        gather(kind, args).0.min matches Some(n) ==> bound_fits(kind, n),
        gather(kind, args).0.max matches Some(n) ==> bound_fits(kind, n),
{
    match args {
        AttributeArgs::List(list) => {
            lemma_bounds_fit_from(kind, list@, no_args());
        },
        _ => {},
    }
}

proof fn lemma_bounds_fit_from(kind: RuleKind, args: Seq<MetaArg>, acc: ArgsView)
    requires
        kind == RuleKind::Range || kind == RuleKind::Size,
        acc.min matches Some(n) ==> bound_fits(kind, n),
        acc.max matches Some(n) ==> bound_fits(kind, n),
    ensures
        gather_from(kind, args, acc).0.min matches Some(n) ==> bound_fits(kind, n),
        gather_from(kind, args, acc).0.max matches Some(n) ==> bound_fits(kind, n),
    decreases args.len(),
{
    if args.len() > 0 {
        match apply_arg(kind, acc, args[0]) {
            Ok(next) => {
                lemma_bounds_fit_from(kind, args.drop_first(), next);
            },
            Err(_) => {},
        }
    }
}

/// The message of a rule without arguments does not depend on which such
/// rule it is.
proof fn lemma_message_alike(kind: RuleKind, other: RuleKind, args: Seq<MetaArg>, acc: ArgsView)
    requires
        kind == RuleKind::NotBlank || kind == RuleKind::NotEmpty || kind == RuleKind::NoSpace
            || kind == RuleKind::Required || kind == RuleKind::Deep,
        other == RuleKind::NotBlank || other == RuleKind::NotEmpty || other == RuleKind::NoSpace
            || other == RuleKind::Required || other == RuleKind::Deep,
    ensures
        gather_from(kind, args, acc) == gather_from(other, args, acc),
    decreases args.len(),
{
    if args.len() > 0 {
        match apply_arg(kind, acc, args[0]) {
            Ok(next) => {
                lemma_message_alike(kind, other, args.drop_first(), next);
            },
            Err(_) => {},
        }
    }
}

/// Reads one attribute that states a rule of `kind`.
pub fn parse_rule_attribute(kind: RuleKind, attr: &Attribute) -> (r: Result<Rule, SchemaErrorKind>)
    ensures
        match r {
            Ok(rule) => rule_of(kind, attr.args) == Ok::<RuleView, SchemaErrorKind>(rule@),
            Err(e) => rule_of(kind, attr.args) == Err::<RuleView, SchemaErrorKind>(e),
        },
{
    proof {
        if attr.args is List && (kind == RuleKind::NotBlank || kind == RuleKind::NotEmpty || kind
            == RuleKind::NoSpace || kind == RuleKind::Required) {
            lemma_message_alike(kind, RuleKind::Required, attr.args->List_0@, no_args());
        }
    }
    match kind {
        RuleKind::NotBlank => Ok(Rule::NotBlank(parse_bool_attribute(attr))),
        RuleKind::NotEmpty => Ok(Rule::NotEmpty(parse_bool_attribute(attr))),
        RuleKind::NoSpace => Ok(Rule::NoSpace(parse_bool_attribute(attr))),
        RuleKind::Required => Ok(Rule::Required(parse_bool_attribute(attr))),
        RuleKind::Deep => Ok(Rule::Deep),
        RuleKind::Range => match parse_range_attribute(attr) {
            Ok(o) => Ok(Rule::Range(o)),
            Err(e) => Err(e),
        },
        RuleKind::Size => match parse_size_attribute(attr) {
            Ok(o) => Ok(Rule::Size(o)),
            Err(e) => Err(e),
        },
        RuleKind::Func => match parse_func_attribute(attr) {
            Ok(o) => Ok(Rule::Func(o)),
            Err(e) => Err(e),
        },
        RuleKind::Regex => match parse_regex_attribute(attr) {
            Ok(o) => Ok(Rule::Regex(o)),
            Err(e) => Err(e),
        },
        RuleKind::Within => match parse_vec_attribute(RuleKind::Within, attr) {
            Ok(o) => Ok(Rule::Within(o)),
            Err(e) => Err(e),
        },
        RuleKind::Exclude => match parse_vec_attribute(RuleKind::Exclude, attr) {
            Ok(o) => Ok(Rule::Exclude(o)),
            Err(e) => Err(e),
        },
        RuleKind::GroupTag => match parse_group_attribute(attr) {
            Ok(groups) => Ok(Rule::GroupTag(groups)),
            Err(e) => Err(e),
        },
    }
}

/// Reads the attributes of a field into its description.
///
/// Succeeds if the field has a name and none of its attributes is at fault;
/// the rules then stand in the order of the attributes. Otherwise the error
/// is that of the first attribute at fault.
pub fn parse_field_attributes(field: Field) -> (r: Result<FieldValidation, SchemaError>)
    ensures
        match r {
            Ok(validation) => parsed_field(field) == Ok::<FieldView, Fault>(validation@),
            Err(e) => parsed_field(field) matches Err(fault) && e.is(
                fault.kind,
                field.name_text(),
                fault.rule,
            ),
        },
{
    let Field { ident, ty, attrs } = field;
    let name = match ident {
        Some(name) => name,
        None => {
            return Err(SchemaError::of_item(SchemaErrorKind::UnnamedField));
        },
    };
    let mut rules: Vec<Rule> = Vec::new();
    let mut message: Option<String> = None;
    let ghost start = Gathered { rules: Seq::empty(), message: None };
    assert(rule_views(rules@) =~= start.rules);
    assert(attrs@.skip(0) =~= attrs@);
    let mut i: usize = 0;
    while i < attrs.len()
        invariant
            i <= attrs.len(),
            field.ident == Some(name),
            field.attrs == attrs,
            start == (Gathered { rules: Seq::empty(), message: None }),
            scan_from(attrs@, start) == scan_from(
                attrs@.skip(i as int),
                Gathered { rules: rule_views(rules@), message: opt_text(message) },
            ),
        decreases attrs.len() - i,
    {
        assert(attrs@.skip(i as int)[0] == attrs@[i as int]);
        assert(attrs@.skip(i as int).drop_first() =~= attrs@.skip(i + 1));
        let attr = &attrs[i];
        if str_eq(attr.name.as_str(), "message") {
            match parse_message_attribute(attr) {
                Ok(m) => {
                    message = Some(m);
                },
                Err(kind) => {
                    return Err(SchemaError::new(kind, name.as_str(), None));
                },
            }
        } else if let Some(kind) = kind_of_attribute(attr.name.as_str()) {
            match parse_rule_attribute(kind, attr) {
                Ok(rule) => {
                    let ghost before = rule_views(rules@);
                    rules.push(rule);
                    assert(rule_views(rules@) =~= before.push(rule@));
                },
                Err(e) => {
                    return Err(SchemaError::new(e, name.as_str(), Some(kind)));
                },
            }
        }
        i += 1;
    }
    Ok(FieldValidation { ident: name, field_type: ty, rules, message })
}

} // verus!
