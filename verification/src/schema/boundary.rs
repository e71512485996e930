//! Which rule fits which type.

use vstd::prelude::*;
use crate::schema::basic_types::BasicValidationType;
use crate::schema::error::RuleKind;
use crate::schema::error::SchemaError;
use crate::schema::error::SchemaErrorKind;
use crate::schema::field_meta::Fault;
use crate::schema::generic_types::GenericValidationType;
use crate::schema::generic_types::unsupported;
use crate::schema::metadata::FieldValidation;
use crate::schema::metadata::Rule;
use crate::schema::metadata::RuleView;
use crate::schema::metadata::rule_views;
use crate::schema::value::Value;

verus! {

/// What a rule asks of the category of its field.
#[derive(Debug, Clone, Copy, PartialEq, Eq, Structural)]
pub enum Requirement {
    /// The innermost category is text.
    Text,
    /// The innermost category is text, or the outermost layer is a
    /// collection.
    Sized,
    /// The innermost category is ordered: an integer, a floating-point
    /// number, a decimal number, a date or time.
    Ordered,
    /// The outermost layer is optional.
    Optional,
    /// A record, or one optional layer, one sequence or one set around a
    /// record, and no layer more.
    Nested,
    /// The innermost category is known, so that values can be listed.
    Listed,
    /// The innermost category is known.
    Known,
    /// Nothing.
    Anything,
}

/// How a field reaches the records it holds.
#[derive(Debug, Clone, Copy, PartialEq, Eq, Structural)]
pub enum NestedShape {
    /// The field is a record.
    Direct,
    /// The field is an optional record.
    Optional,
    /// The field is a sequence or a set of records.
    Collection,
}

/// What each kind of rule asks for.
pub open spec fn requirement(kind: RuleKind) -> Requirement {
    match kind {
        RuleKind::NotBlank => Requirement::Text,
        RuleKind::NoSpace => Requirement::Text,
        RuleKind::Regex => Requirement::Text,
        RuleKind::NotEmpty => Requirement::Sized,
        RuleKind::Size => Requirement::Sized,
        RuleKind::Range => Requirement::Ordered,
        RuleKind::Required => Requirement::Optional,
        RuleKind::Deep => Requirement::Nested,
        RuleKind::Within => Requirement::Listed,
        RuleKind::Exclude => Requirement::Listed,
        RuleKind::GroupTag => Requirement::Known,
        RuleKind::Func => Requirement::Anything,
    }
}

/// The way from a field of this category to the records it holds, if there
/// is one.
pub open spec fn nested_shape(category: GenericValidationType) -> Option<NestedShape> {
    let record = GenericValidationType::Basic(BasicValidationType::CustomStruct);
    match category {
        GenericValidationType::Basic(basic) => if basic == BasicValidationType::CustomStruct {
            Some(NestedShape::Direct)
        } else {
            None
        },
        GenericValidationType::Option(inner) => if *inner == record {
            Some(NestedShape::Optional)
        } else {
            None
        },
        GenericValidationType::Vec(inner) => if *inner == record {
            Some(NestedShape::Collection)
        } else {
            None
        },
        GenericValidationType::HashSet(inner) => if *inner == record {
            Some(NestedShape::Collection)
        } else {
            None
        },
        GenericValidationType::HashMap(_, _) => None,
    }
}

impl Requirement {
    /// Whether the category meets the requirement.
    pub open spec fn met_by(self, category: GenericValidationType) -> bool {
        match self {
            Requirement::Text => category.spec_is_string(),
            Requirement::Sized => category.spec_supports_size(),
            Requirement::Ordered => category.spec_supports_range(),
            Requirement::Optional => category.spec_is_option(),
            Requirement::Nested => nested_shape(category) is Some,
            Requirement::Listed => category.spec_base_type().spec_supports_within_exclude(),
            Requirement::Known => category.spec_base_type() != BasicValidationType::Unsupported,
            Requirement::Anything => true,
        }
    }

    /// Whether the category meets the requirement.
    pub fn is_met_by(&self, category: &GenericValidationType) -> (r: bool)
        ensures
            r == self.met_by(*category),
    {
        match self {
            Requirement::Text => category.is_string(),
            Requirement::Sized => category.supports_size(),
            Requirement::Ordered => category.supports_range(),
            Requirement::Optional => category.is_option(),
            Requirement::Nested => shape_of(category).is_some(),
            Requirement::Listed => category.get_base_type().supports_within_exclude(),
            Requirement::Known => !matches!(
                category.get_base_type(),
                BasicValidationType::Unsupported
            ),
            Requirement::Anything => true,
        }
    }
}

/// What the kind of rule asks for.
pub fn requirement_of(kind: RuleKind) -> (r: Requirement)
    ensures
        r == requirement(kind),
{
    match kind {
        RuleKind::NotBlank => Requirement::Text,
        RuleKind::NoSpace => Requirement::Text,
        RuleKind::Regex => Requirement::Text,
        RuleKind::NotEmpty => Requirement::Sized,
        RuleKind::Size => Requirement::Sized,
        RuleKind::Range => Requirement::Ordered,
        RuleKind::Required => Requirement::Optional,
        RuleKind::Deep => Requirement::Nested,
        RuleKind::Within => Requirement::Listed,
        RuleKind::Exclude => Requirement::Listed,
        RuleKind::GroupTag => Requirement::Known,
        RuleKind::Func => Requirement::Anything,
    }
}

/// What the refused rule asked for, if the error says that a rule does
/// not fit the type of its field.
pub open spec fn expected_by(error: SchemaError) -> Option<Requirement> {
    match error.rule {
        Some(kind) => if error.kind == SchemaErrorKind::IncompatibleRule {
            Some(requirement(kind))
        } else {
            None
        },
        None => None,
    }
}

/// What the refused rule asked for: the categories that the field's type
/// was expected to be among.
pub fn expected(error: &SchemaError) -> (r: Option<Requirement>)
    ensures
        r == expected_by(*error),
{
    match error.rule {
        Some(kind) => if matches!(error.kind, SchemaErrorKind::IncompatibleRule) {
            Some(requirement_of(kind))
        } else {
            None
        },
        None => None,
    }
}

fn is_record(category: &GenericValidationType) -> (r: bool)
    ensures
        r == (*category == GenericValidationType::Basic(BasicValidationType::CustomStruct)),
{
    match category {
        GenericValidationType::Basic(basic) => matches!(basic, BasicValidationType::CustomStruct),
        _ => false,
    }
}

/// The way from a field of this category to the records it holds, if there
/// is one.
pub fn shape_of(category: &GenericValidationType) -> (r: Option<NestedShape>)
    ensures
        r == nested_shape(*category),
{
    match category {
        GenericValidationType::Basic(_) => if is_record(category) {
            Some(NestedShape::Direct)
        } else {
            None
        },
        GenericValidationType::Option(inner) => if is_record(inner) {
            Some(NestedShape::Optional)
        } else {
            None
        },
        GenericValidationType::Vec(inner) => if is_record(inner) {
            Some(NestedShape::Collection)
        } else {
            None
        },
        GenericValidationType::HashSet(inner) => if is_record(inner) {
            Some(NestedShape::Collection)
        } else {
            None
        },
        GenericValidationType::HashMap(_, _) => None,
    }
}

/// The values that a rule lists; of a rule that lists none, none.
pub open spec fn listed(rule: RuleView) -> Seq<Value> {
    match rule {
        RuleView::Within { values, .. } => values,
        RuleView::Exclude { values, .. } => values,
        _ => Seq::empty(),
    }
}

/// Whether every value is a scalar of the category.
pub open spec fn all_fit(values: Seq<Value>, category: BasicValidationType) -> bool {
    forall|i: int| 0 <= i < values.len() ==> (#[trigger] values[i]).fits(category)
}

/// What is wrong with a rule on a field of this category, if anything: the
/// category does not meet what the rule asks for, or a listed value is not
/// of the field's innermost category.
pub open spec fn rule_fault(rule: RuleView, category: GenericValidationType) -> Option<
    SchemaErrorKind,
> {
    if !requirement(rule.kind()).met_by(category) {
        Some(SchemaErrorKind::IncompatibleRule)
    } else if !all_fit(listed(rule), category.spec_base_type()) {
        Some(SchemaErrorKind::MismatchedValue)
    } else {
        None
    }
}

/// The fault of the first of `rules` that does not fit the category.
pub open spec fn first_fault(rules: Seq<RuleView>, category: GenericValidationType) -> Option<Fault>
    decreases rules.len(),
{
    if rules.len() == 0 {
        None
    } else {
        match rule_fault(rules[0], category) {
            Some(kind) => Some(Fault { kind, rule: Some(rules[0].kind()) }),
            None => first_fault(rules.drop_first(), category),
        }
    }
}

/// No fault is found exactly when every rule fits.
pub proof fn lemma_first_fault_none(rules: Seq<RuleView>, category: GenericValidationType)
    ensures
        first_fault(rules, category) is None <==> forall|i: int|
            0 <= i < rules.len() ==> rule_fault(#[trigger] rules[i], category) is None,
    decreases rules.len(),
{
    if rules.len() > 0 {
        lemma_first_fault_none(rules.drop_first(), category);
        if first_fault(rules, category) is None {
            assert forall|i: int| 0 <= i < rules.len() implies rule_fault(
                #[trigger] rules[i],
                category,
            ) is None by {
                if i > 0 {
                    assert(rules[i] == rules.drop_first()[i - 1]);
                }
            }
        } else if rule_fault(rules[0], category) is None {
            let rest = rules.drop_first();
            let j = choose|j: int|
                0 <= j < rest.len() && !(rule_fault(#[trigger] rest[j], category) is None);
            assert(rules[j + 1] == rest[j]);
        }
    }
}

/// On a field whose type has no category, every rule but a predicate of the
/// caller's is at fault.
pub proof fn lemma_unsupported_admits_only_func(rule: RuleView)
    requires
        rule.kind() != RuleKind::Func,
    ensures
        rule_fault(rule, unsupported()) == Some(SchemaErrorKind::IncompatibleRule),
{
}

fn values_fit(values: &Vec<Value>, category: &BasicValidationType) -> (r: bool)
    ensures
        r == all_fit(values@, *category),
{
    let mut i: usize = 0;
    while i < values.len()
        invariant
            i <= values.len(),
            forall|j: int| 0 <= j < i ==> (#[trigger] values@[j]).fits(*category),
        decreases values.len() - i,
    {
        if !values[i].is_of(category) {
            return false;
        }
        i += 1;
    }
    true
}

/// What is wrong with a rule on a field of this category, if anything.
pub fn check_rule(rule: &Rule, category: &GenericValidationType) -> (r: Option<SchemaErrorKind>)
    ensures
        r == rule_fault(rule@, *category),
{
    if !requirement_of(rule.kind()).is_met_by(category) {
        return Some(SchemaErrorKind::IncompatibleRule);
    }
    let fit = match rule {
        Rule::Within(o) => values_fit(&o.values, category.get_base_type()),
        Rule::Exclude(o) => values_fit(&o.values, category.get_base_type()),
        _ => true,
    };
    if fit {
        None
    } else {
        Some(SchemaErrorKind::MismatchedValue)
    }
}

/// Checks every rule of a field against the category of the field's type.
///
/// Succeeds if every rule fits. Otherwise the error names the field and the
/// first rule, in the order of declaration, that does not fit.
pub fn validate_field_rules(validation: &FieldValidation) -> (r: Result<(), SchemaError>)
    ensures
        match r {
            Ok(_) => first_fault(validation@.rules, validation@.category) is None,
            Err(e) => first_fault(validation@.rules, validation@.category) matches Some(fault)
                && e.is(fault.kind, validation@.ident, fault.rule),
        },
{
    let category = GenericValidationType::from_type(&validation.field_type);
    let ghost rules = validation@.rules;
    let mut i: usize = 0;
    assert(rules.skip(0) =~= rules);
    while i < validation.rules.len()
        invariant
            i <= validation.rules.len(),
            rules == rule_views(validation.rules@),
            category == validation@.category,
            first_fault(rules, category) == first_fault(rules.skip(i as int), category),
        decreases validation.rules.len() - i,
    {
        assert(rules.skip(i as int)[0] == validation.rules@[i as int]@);
        assert(rules.skip(i as int).drop_first() =~= rules.skip(i + 1));
        let rule = &validation.rules[i];
        if let Some(kind) = check_rule(rule, &category) {
            return Err(SchemaError::new(kind, validation.ident.as_str(), Some(rule.kind())));
        }
        i += 1;
    }
    Ok(())
}

} // verus!
