//! What a validator says of a value: the meaning of the rules, of the two
//! ways of taking them together, of groups and of records within records.
//!
//! An outcome is written as the message of the failure, or as nothing for a
//! pass. The predicates of the caller are stood for by a function that
//! answers for them.

use vstd::prelude::*;
use crate::matcher::pattern_matches;
use crate::schema::boundary::NestedShape;
use crate::schema::codegen::FieldPlan;
use crate::schema::codegen::ValidatorView;
use crate::schema::metadata::RuleView;
use crate::schema::metadata::groups_of;
use crate::schema::value::Value;
use crate::text::has_space;
use crate::text::is_blank;

verus! {

/// Whether `n` lies within the bounds; a bound that is not given does not
/// bind.
pub open spec fn within_bounds(n: int, min: Option<int>, max: Option<int>) -> bool {
    &&& (min matches Some(lo) ==> lo <= n)
    &&& (max matches Some(hi) ==> n <= hi)
}

/// Whether the rule holds of a value that is present.
///
/// A rule about text holds of no value that is not text, a rule about size
/// of no value without a size, a range of no value that is not a number.
/// `Required` holds of every value that is present.
pub open spec fn rule_holds(
    rule: RuleView,
    value: Value,
    oracle: spec_fn(Seq<char>, Value) -> bool,
) -> bool {
    match rule {
        RuleView::NotBlank { .. } => value.text() matches Some(t) && !is_blank(t),
        RuleView::NotEmpty { .. } => value.size() matches Some(n) && n > 0,
        RuleView::NoSpace { .. } => value.text() matches Some(t) && !has_space(t),
        RuleView::Regex { pattern, .. } => value.text() matches Some(t) && pattern_matches(
            pattern,
            t,
        ),
        RuleView::Range { min, max, .. } => value.rank() matches Some(k) && within_bounds(
            k,
            min,
            max,
        ),
        RuleView::Size { min, max, .. } => value.size() matches Some(n) && within_bounds(
            n as int,
            match min {
                Some(lo) => Some(lo as int),
                None => None,
            },
            match max {
                Some(hi) => Some(hi as int),
                None => None,
            },
        ),
        RuleView::Within { values, .. } => value.among(values),
        RuleView::Exclude { values, .. } => !value.among(values),
        RuleView::Required { .. } => true,
        RuleView::Func { func, .. } => oracle(func, value),
        RuleView::Deep => true,
        RuleView::GroupTag { .. } => true,
    }
}

/// Whether the rule lets the field through. Of a value that is absent only
/// `Required` is asked, and it fails; every other rule is passed over.
pub open spec fn rule_passes(
    rule: RuleView,
    payload: Option<Value>,
    oracle: spec_fn(Seq<char>, Value) -> bool,
) -> bool {
    if !rule.is_check() {
        true
    } else {
        match payload {
            None => !(rule is Required),
            Some(value) => rule_holds(rule, value, oracle),
        }
    }
}

/// The message that a rule fails with: its own; empty where it has none.
pub open spec fn failure_text(rule: RuleView) -> Seq<char> {
    match rule.message() {
        Some(m) => m,
        None => Seq::empty(),
    }
}

/// The message of the first rule, in the order of declaration, that does
/// not let the field through.
pub open spec fn first_failure(
    rules: Seq<RuleView>,
    payload: Option<Value>,
    oracle: spec_fn(Seq<char>, Value) -> bool,
) -> Option<Seq<char>>
    decreases rules.len(),
{
    if rules.len() == 0 {
        None
    } else if rule_passes(rules[0], payload, oracle) {
        first_failure(rules.drop_first(), payload, oracle)
    } else {
        Some(failure_text(rules[0]))
    }
}

/// Whether some rule that checks something holds of the value.
pub open spec fn any_holds(
    rules: Seq<RuleView>,
    value: Value,
    oracle: spec_fn(Seq<char>, Value) -> bool,
) -> bool {
    exists|i: int|
        0 <= i < rules.len() && (#[trigger] rules[i]).is_check() && rule_holds(
            rules[i],
            value,
            oracle,
        )
}

/// Whether one of the rules is `Required`.
pub open spec fn has_required(rules: Seq<RuleView>) -> bool {
    exists|i: int| 0 <= i < rules.len() && (#[trigger] rules[i]) is Required
}

/// What the field's own rules say of its value.
///
/// A field without a message of its own passes if every rule lets it
/// through, and fails with the message of the first that does not. A field
/// with a message of its own passes if some rule holds, and fails with that
/// message. A value that is absent passes, whatever the other rules are,
/// unless the field is required.
pub open spec fn own_outcome(
    field: FieldPlan,
    value: Value,
    oracle: spec_fn(Seq<char>, Value) -> bool,
) -> Option<Seq<char>> {
    match field.message {
        None => first_failure(field.rules, value.payload(), oracle),
        Some(message) => match value.payload() {
            None => if has_required(field.rules) {
                Some(message)
            } else {
                None
            },
            Some(present) => if any_holds(field.rules, present, oracle) {
                None
            } else {
                Some(message)
            },
        },
    }
}

/// Whether the field takes part in a check: in one without a group, always;
/// in one for a group, if the field is tagged with the group or with none.
pub open spec fn runs(field: FieldPlan, group: Option<Seq<char>>) -> bool {
    match group {
        None => true,
        Some(g) => groups_of(field.rules).len() == 0 || groups_of(field.rules).contains(g),
    }
}

/// What the validator says of `value` taken as the record at `record`,
/// every field of it. A value that is no record passes.
pub open spec fn value_outcome(
    v: ValidatorView,
    record: int,
    value: Value,
    oracle: spec_fn(Seq<char>, Value) -> bool,
) -> Option<Seq<char>>
    decreases value, 0nat, 0nat,
{
    match value {
        Value::Record(fields) => fields_outcome(v, record, fields@, 0, None, oracle),
        _ => None,
    }
}

/// What the validator says of the fields from `from` on: the failure of
/// the first field that fails. A field that does not take part is passed
/// over. A field that the values do not reach counts as absent.
pub open spec fn fields_outcome(
    v: ValidatorView,
    record: int,
    values: Seq<Value>,
    from: int,
    group: Option<Seq<char>>,
    oracle: spec_fn(Seq<char>, Value) -> bool,
) -> Option<Seq<char>>
    decreases values, 2nat, (if 0 <= record < v.records.len() && 0 <= from {
        v.records[record].fields.len() - from
    } else {
        0
    }),
{
    if !(0 <= record < v.records.len()) || from < 0 || from >= v.records[record].fields.len() {
        None
    } else {
        let field = v.records[record].fields[from];
        let here = if !runs(field, group) {
            None
        } else if from < values.len() {
            field_outcome(v, field, values[from], oracle)
        } else {
            own_outcome(field, Value::Absent, oracle)
        };
        match here {
            Some(message) => Some(message),
            None => fields_outcome(v, record, values, from + 1, group, oracle),
        }
    }
}

/// What the validator says of one field: what its own rules say, and, if
/// they let it through, what the record or records that it holds come to.
/// The failure of a record within is handed on as it is.
pub open spec fn field_outcome(
    v: ValidatorView,
    field: FieldPlan,
    value: Value,
    oracle: spec_fn(Seq<char>, Value) -> bool,
) -> Option<Seq<char>>
    decreases value, 1nat, 0nat,
{
    match own_outcome(field, value, oracle) {
        Some(message) => Some(message),
        None => match field.nested {
            None => None,
            Some(plan) => match plan.shape {
                NestedShape::Direct => value_outcome(v, plan.record, value, oracle),
                NestedShape::Optional => match value {
                    Value::Present(inner) => value_outcome(v, plan.record, *inner, oracle),
                    _ => None,
                },
                NestedShape::Collection => match value {
                    Value::List(items) => items_outcome(v, plan.record, items@, 0, oracle),
                    _ => None,
                },
            },
        },
    }
}

/// What the validator says of the records from `from` on: the failure of
/// the first that fails.
pub open spec fn items_outcome(
    v: ValidatorView,
    record: int,
    items: Seq<Value>,
    from: int,
    oracle: spec_fn(Seq<char>, Value) -> bool,
) -> Option<Seq<char>>
    decreases items, 1nat, (if 0 <= from {
        items.len() - from
    } else {
        0
    }),
{
    if from < 0 || from >= items.len() {
        None
    } else {
        match value_outcome(v, record, items[from], oracle) {
            Some(message) => Some(message),
            None => items_outcome(v, record, items, from + 1, oracle),
        }
    }
}

} // verus!
