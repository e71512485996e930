//! Rules, and the description of a field.

use vstd::prelude::*;
use crate::schema::declared::DeclaredType;
use crate::schema::error::RuleKind;
use crate::schema::generic_types::GenericValidationType;
use crate::schema::generic_types::classify;
use crate::schema::value::Value;

verus! {

/// What a rule without arguments carries.
#[derive(Debug)]
pub struct BoolOptions {
    pub message: Option<String>,
}

/// The bounds of a range; a bound that is not given does not bind.
#[derive(Debug)]
pub struct RangeOptions {
    pub min: Option<i64>,
    pub max: Option<i64>,
    pub message: Option<String>,
}

/// The bounds of a size; a bound that is not given does not bind.
#[derive(Debug)]
pub struct SizeOptions {
    pub min: Option<u64>,
    pub max: Option<u64>,
    pub message: Option<String>,
}

/// A list of values to be within, or to keep out of.
pub struct VecOptions {
    pub values: Vec<Value>,
    pub message: Option<String>,
}

/// A predicate of the caller's, by the name under which the caller answers
/// for it.
#[derive(Debug)]
pub struct FuncOptions {
    pub func: String,
    pub message: Option<String>,
}

/// A pattern, by the name under which the registry holds it.
#[derive(Debug)]
pub struct RegexOptions {
    pub pattern: String,
    pub message: Option<String>,
}

/// A rule attached to a field. `Deep` and `GroupTag` check nothing: they say
/// how the field is treated.
pub enum Rule {
    NotBlank(BoolOptions),
    NotEmpty(BoolOptions),
    NoSpace(BoolOptions),
    Regex(RegexOptions),
    Range(RangeOptions),
    Size(SizeOptions),
    Within(VecOptions),
    Exclude(VecOptions),
    Required(BoolOptions),
    Func(FuncOptions),
    Deep,
    GroupTag(Vec<String>),
}

/// The text of an optional string.
pub open spec fn opt_text(o: Option<String>) -> Option<Seq<char>> {
    match o {
        Some(s) => Some(s@),
        None => None,
    }
}

/// The texts of a list of strings.
pub open spec fn texts(v: Seq<String>) -> Seq<Seq<char>> {
    Seq::new(v.len(), |i: int| v[i]@)
}

/// A rule as a value of mathematics.
#[allow(inconsistent_fields)]
pub enum RuleView {
    NotBlank { message: Option<Seq<char>> },
    NotEmpty { message: Option<Seq<char>> },
    NoSpace { message: Option<Seq<char>> },
    Regex { pattern: Seq<char>, message: Option<Seq<char>> },
    Range { min: Option<int>, max: Option<int>, message: Option<Seq<char>> },
    Size { min: Option<nat>, max: Option<nat>, message: Option<Seq<char>> },
    Within { values: Seq<Value>, message: Option<Seq<char>> },
    Exclude { values: Seq<Value>, message: Option<Seq<char>> },
    Required { message: Option<Seq<char>> },
    Func { func: Seq<char>, message: Option<Seq<char>> },
    Deep,
    GroupTag { groups: Seq<Seq<char>> },
}

/// A bound as a value of mathematics.
pub open spec fn opt_int(o: Option<i64>) -> Option<int> {
    match o {
        Some(n) => Some(n as int),
        None => None,
    }
}

/// A bound as a value of mathematics.
pub open spec fn opt_nat(o: Option<u64>) -> Option<nat> {
    match o {
        Some(n) => Some(n as nat),
        None => None,
    }
}

impl RuleView {
    pub open spec fn kind(self) -> RuleKind {
        match self {
            RuleView::NotBlank { .. } => RuleKind::NotBlank,
            RuleView::NotEmpty { .. } => RuleKind::NotEmpty,
            RuleView::NoSpace { .. } => RuleKind::NoSpace,
            RuleView::Regex { .. } => RuleKind::Regex,
            RuleView::Range { .. } => RuleKind::Range,
            RuleView::Size { .. } => RuleKind::Size,
            RuleView::Within { .. } => RuleKind::Within,
            RuleView::Exclude { .. } => RuleKind::Exclude,
            RuleView::Required { .. } => RuleKind::Required,
            RuleView::Func { .. } => RuleKind::Func,
            RuleView::Deep => RuleKind::Deep,
            RuleView::GroupTag { .. } => RuleKind::GroupTag,
        }
    }

    /// The rule's own message.
    pub open spec fn message(self) -> Option<Seq<char>> {
        match self {
            RuleView::NotBlank { message } => message,
            RuleView::NotEmpty { message } => message,
            RuleView::NoSpace { message } => message,
            RuleView::Regex { message, .. } => message,
            RuleView::Range { message, .. } => message,
            RuleView::Size { message, .. } => message,
            RuleView::Within { message, .. } => message,
            RuleView::Exclude { message, .. } => message,
            RuleView::Required { message } => message,
            RuleView::Func { message, .. } => message,
            RuleView::Deep => None,
            RuleView::GroupTag { .. } => None,
        }
    }

    /// Whether the rule checks something.
    pub open spec fn is_check(self) -> bool {
        !(self is Deep) && !(self is GroupTag)
    }
}

impl View for Rule {
    type V = RuleView;

    open spec fn view(&self) -> RuleView {
        match self {
            Rule::NotBlank(o) => RuleView::NotBlank { message: opt_text(o.message) },
            Rule::NotEmpty(o) => RuleView::NotEmpty { message: opt_text(o.message) },
            Rule::NoSpace(o) => RuleView::NoSpace { message: opt_text(o.message) },
            Rule::Regex(o) => RuleView::Regex { pattern: o.pattern@, message: opt_text(o.message) },
            Rule::Range(o) => RuleView::Range {
                min: opt_int(o.min),
                max: opt_int(o.max),
                message: opt_text(o.message),
            },
            Rule::Size(o) => RuleView::Size {
                min: opt_nat(o.min),
                max: opt_nat(o.max),
                message: opt_text(o.message),
            },
            Rule::Within(o) => RuleView::Within { values: o.values@, message: opt_text(o.message) },
            Rule::Exclude(o) => RuleView::Exclude {
                values: o.values@,
                message: opt_text(o.message),
            },
            Rule::Required(o) => RuleView::Required { message: opt_text(o.message) },
            Rule::Func(o) => RuleView::Func { func: o.func@, message: opt_text(o.message) },
            Rule::Deep => RuleView::Deep,
            Rule::GroupTag(groups) => RuleView::GroupTag { groups: texts(groups@) },
        }
    }
}

impl Rule {
    /// The kind of the rule.
    pub fn kind(&self) -> (k: RuleKind)
        ensures
            k == self@.kind(),
    {
        match self {
            Rule::NotBlank(_) => RuleKind::NotBlank,
            Rule::NotEmpty(_) => RuleKind::NotEmpty,
            Rule::NoSpace(_) => RuleKind::NoSpace,
            Rule::Regex(_) => RuleKind::Regex,
            Rule::Range(_) => RuleKind::Range,
            Rule::Size(_) => RuleKind::Size,
            Rule::Within(_) => RuleKind::Within,
            Rule::Exclude(_) => RuleKind::Exclude,
            Rule::Required(_) => RuleKind::Required,
            Rule::Func(_) => RuleKind::Func,
            Rule::Deep => RuleKind::Deep,
            Rule::GroupTag(_) => RuleKind::GroupTag,
        }
    }

    /// The rule's own message.
    pub fn message(&self) -> (m: Option<&String>)
        ensures
            match m {
                Some(s) => self@.message() == Some(s@),
                None => self@.message() is None,
            },
    {
        match self {
            Rule::NotBlank(o) => o.message.as_ref(),
            Rule::NotEmpty(o) => o.message.as_ref(),
            Rule::NoSpace(o) => o.message.as_ref(),
            Rule::Regex(o) => o.message.as_ref(),
            Rule::Range(o) => o.message.as_ref(),
            Rule::Size(o) => o.message.as_ref(),
            Rule::Within(o) => o.message.as_ref(),
            Rule::Exclude(o) => o.message.as_ref(),
            Rule::Required(o) => o.message.as_ref(),
            Rule::Func(o) => o.message.as_ref(),
            Rule::Deep => None,
            Rule::GroupTag(_) => None,
        }
    }
}

/// The views of a list of rules.
pub open spec fn rule_views(rules: Seq<Rule>) -> Seq<RuleView> {
    Seq::new(rules.len(), |i: int| rules[i]@)
}

/// The groups that a list of rules tags its field with: those of every
/// `GroupTag`, in order.
pub open spec fn groups_of(rules: Seq<RuleView>) -> Seq<Seq<char>>
    decreases rules.len(),
{
    if rules.len() == 0 {
        Seq::empty()
    } else {
        let rest = groups_of(rules.drop_last());
        match rules.last() {
            RuleView::GroupTag { groups } => rest + groups,
            _ => rest,
        }
    }
}

/// The description of a field: its name, its declared type, the rules
/// attached to it in the order of their declaration, and the message of the
/// field itself, if it has one.
pub struct FieldValidation {
    pub ident: String,
    pub field_type: DeclaredType,
    pub rules: Vec<Rule>,
    pub message: Option<String>,
}

/// A field's description as a value of mathematics.
pub struct FieldView {
    pub ident: Seq<char>,
    pub category: GenericValidationType,
    /// The name of the type at the heart of the declared type: what is
    /// left of `Option<T>`, `Vec<T>` or `HashSet<T>` without the wrapper.
    pub record: Seq<char>,
    pub rules: Seq<RuleView>,
    pub message: Option<Seq<char>>,
}

impl View for FieldValidation {
    type V = FieldView;

    open spec fn view(&self) -> FieldView {
        FieldView {
            ident: self.ident@,
            category: classify(self.field_type, 0),
            record: self.field_type.heart_name(),
            rules: rule_views(self.rules@),
            message: opt_text(self.message),
        }
    }
}

impl FieldView {
    /// The groups that the field is tagged with.
    pub open spec fn groups(self) -> Seq<Seq<char>> {
        groups_of(self.rules)
    }
}

} // verus!
