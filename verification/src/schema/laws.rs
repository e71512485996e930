//! What holds of every validator.

use vstd::prelude::*;
use crate::schema::basic_types::BasicValidationType;
use crate::schema::boundary::NestedShape;
use crate::schema::boundary::first_fault;
use crate::schema::boundary::lemma_first_fault_none;
use crate::schema::boundary::lemma_unsupported_admits_only_func;
use crate::schema::codegen::FieldPlan;
use crate::schema::codegen::ValidatorView;
use crate::schema::codegen::RecordPlan;
use crate::schema::codegen::RecordView;
use crate::schema::codegen::field_plan;
use crate::schema::codegen::fields_plan_from;
use crate::schema::codegen::record_names;
use crate::schema::codegen::records_plan_from;
use crate::schema::codegen::validator_plan;
use crate::schema::declared::DeclaredType;
use crate::schema::error::RuleKind;
use crate::schema::generic_types::GenericValidationType;
use crate::schema::generic_types::classify;
use crate::schema::generic_types::lemma_classify_shape;
use crate::schema::generic_types::unsupported;
use crate::schema::metadata::FieldView;
use crate::schema::metadata::RuleView;
use crate::schema::metadata::groups_of;
use crate::schema::semantics::failure_text;
use crate::schema::semantics::field_outcome;
use crate::schema::semantics::fields_outcome;
use crate::schema::semantics::first_failure;
use crate::schema::semantics::has_required;
use crate::schema::semantics::items_outcome;
use crate::schema::semantics::own_outcome;
use crate::schema::semantics::rule_holds;
use crate::schema::semantics::rule_passes;
use crate::schema::semantics::runs;
use crate::schema::semantics::value_outcome;
use crate::schema::value::Value;

verus! {

/// A category without an unsupported part has a supported heart.
pub proof fn lemma_valid_base(category: GenericValidationType)
    requires
        category.spec_is_valid(),
    ensures
        category.spec_base_type() != BasicValidationType::Unsupported,
    decreases category,
{
    match category {
        GenericValidationType::Basic(_) => {},
        GenericValidationType::Option(inner) => lemma_valid_base(*inner),
        GenericValidationType::Vec(inner) => lemma_valid_base(*inner),
        GenericValidationType::HashSet(inner) => lemma_valid_base(*inner),
        GenericValidationType::HashMap(key, _) => lemma_valid_base(*key),
    }
}

/// A field whose type has no supported category can carry no rule but a
/// predicate of the caller's: with any other rule among its rules, the
/// schema is refused, whatever the registry and the records are.
pub proof fn law_unsupported_admits_only_func(
    field: FieldView,
    ty: DeclaredType,
    at: int,
    names: Seq<Seq<char>>,
    sources: Seq<Seq<char>>,
    records: Seq<Seq<char>>,
)
    requires
        field.category == classify(ty, 0),
        field.category.spec_base_type() == BasicValidationType::Unsupported,
        0 <= at < field.rules.len(),
        field.rules[at].kind() != RuleKind::Func,
    ensures
        first_fault(field.rules, field.category) is Some,
        field_plan(field, names, sources, records) is Err,
{
    lemma_classify_shape(ty, 0);
    if field.category.spec_is_valid() {
        lemma_valid_base(field.category);
    }
    assert(field.category == unsupported());
    lemma_unsupported_admits_only_func(field.rules[at]);
    lemma_first_fault_none(field.rules, field.category);
}

/// A field at fault makes the fields of its record come to nothing.
pub proof fn lemma_field_fault_refuses_fields(
    fields: Seq<FieldView>,
    at: int,
    names: Seq<Seq<char>>,
    sources: Seq<Seq<char>>,
    records: Seq<Seq<char>>,
    acc: Seq<FieldPlan>,
)
    requires
        0 <= at < fields.len(),
        field_plan(fields[at], names, sources, records) is Err,
    ensures
        fields_plan_from(fields, names, sources, records, acc) is Err,
    decreases fields.len(),
{
    if field_plan(fields[0], names, sources, records) is Ok {
        let rest = fields.drop_first();
        assert(rest[at - 1] == fields[at]);
        lemma_field_fault_refuses_fields(
            rest,
            at - 1,
            names,
            sources,
            records,
            acc.push(field_plan(fields[0], names, sources, records)->Ok_0),
        );
    }
}

/// A record with a field at fault makes the records come to nothing.
pub proof fn lemma_field_fault_refuses_records(
    todo: Seq<RecordView>,
    record: int,
    at: int,
    names: Seq<Seq<char>>,
    sources: Seq<Seq<char>>,
    records: Seq<Seq<char>>,
    acc: Seq<RecordPlan>,
)
    requires
        0 <= record < todo.len(),
        0 <= at < todo[record].fields.len(),
        field_plan(todo[record].fields[at], names, sources, records) is Err,
    ensures
        records_plan_from(todo, names, sources, records, acc) is Err,
    decreases todo.len(),
{
    if record == 0 {
        lemma_field_fault_refuses_fields(todo[0].fields, at, names, sources, records, Seq::empty());
    } else {
        let first = fields_plan_from(todo[0].fields, names, sources, records, Seq::empty());
        if first is Ok {
            let rest = todo.drop_first();
            assert(rest[record - 1] == todo[record]);
            lemma_field_fault_refuses_records(
                rest,
                record - 1,
                at,
                names,
                sources,
                records,
                acc.push(RecordPlan { name: todo[0].name, fields: first->Ok_0 }),
            );
        }
    }
}

/// No validator comes of a schema in which a field whose type has no
/// supported category carries a rule that is no predicate of the caller's.
pub proof fn law_unsupported_refuses_schema(
    records: Seq<RecordView>,
    record: int,
    at: int,
    ty: DeclaredType,
    rule: int,
    names: Seq<Seq<char>>,
    sources: Seq<Seq<char>>,
)
    requires
        0 <= record < records.len(),
        0 <= at < records[record].fields.len(),
        records[record].fields[at].category == classify(ty, 0),
        records[record].fields[at].category.spec_base_type() == BasicValidationType::Unsupported,
        0 <= rule < records[record].fields[at].rules.len(),
        records[record].fields[at].rules[rule].kind() != RuleKind::Func,
    ensures
        validator_plan(records, names, sources) is Err,
{
    let known = record_names(records);
    law_unsupported_admits_only_func(records[record].fields[at], ty, rule, names, sources, known);
    lemma_field_fault_refuses_records(records, record, at, names, sources, known, Seq::empty());
}

/// The first rule that does not let the field through decides: the
/// outcome is its message, and the rules behind it change nothing.
pub proof fn lemma_first_failure_at(
    rules: Seq<RuleView>,
    payload: Option<Value>,
    oracle: spec_fn(Seq<char>, Value) -> bool,
    at: int,
)
    requires
        0 <= at < rules.len(),
        !rule_passes(rules[at], payload, oracle),
        forall|j: int| 0 <= j < at ==> rule_passes(#[trigger] rules[j], payload, oracle),
    ensures
        first_failure(rules, payload, oracle) == Some(failure_text(rules[at])),
        first_failure(rules, payload, oracle) == first_failure(
            rules.take(at + 1),
            payload,
            oracle,
        ),
    decreases at,
{
    let head = rules.take(at + 1);
    if at == 0 {
        assert(head[0] == rules[0]);
    } else {
        let rest = rules.drop_first();
        assert(rest[at - 1] == rules[at]);
        assert forall|j: int| 0 <= j < at - 1 implies rule_passes(
            #[trigger] rest[j],
            payload,
            oracle,
        ) by {
            assert(rest[j] == rules[j + 1]);
        }
        lemma_first_failure_at(rest, payload, oracle, at - 1);
        assert(head[0] == rules[0]);
        assert(head.drop_first() =~= rest.take(at));
    }
}

/// If every rule lets the field through, nothing fails.
pub proof fn lemma_no_failure(
    rules: Seq<RuleView>,
    payload: Option<Value>,
    oracle: spec_fn(Seq<char>, Value) -> bool,
)
    requires
        forall|j: int| 0 <= j < rules.len() ==> rule_passes(#[trigger] rules[j], payload, oracle),
    ensures
        first_failure(rules, payload, oracle) is None,
    decreases rules.len(),
{
    if rules.len() > 0 {
        let rest = rules.drop_first();
        assert forall|j: int| 0 <= j < rest.len() implies rule_passes(
            #[trigger] rest[j],
            payload,
            oracle,
        ) by {
            assert(rest[j] == rules[j + 1]);
        }
        lemma_no_failure(rest, payload, oracle);
    }
}

/// A field without a message of its own fails with the message of the
/// first of its rules, in the order of declaration, that fails; what the
/// rules behind that one would say is never asked.
pub proof fn law_all_mode_first_failure(
    field: FieldPlan,
    value: Value,
    oracle: spec_fn(Seq<char>, Value) -> bool,
    at: int,
)
    requires
        field.message is None,
        0 <= at < field.rules.len(),
        !rule_passes(field.rules[at], value.payload(), oracle),
        forall|j: int|
            0 <= j < at ==> rule_passes(#[trigger] field.rules[j], value.payload(), oracle),
    ensures
        own_outcome(field, value, oracle) == Some(failure_text(field.rules[at])),
        forall|other: FieldPlan|
            other.message is None && other.rules.len() > at && other.rules.take(at + 1)
                == field.rules.take(at + 1) ==> #[trigger] own_outcome(other, value, oracle)
                == own_outcome(field, value, oracle),
{
    lemma_first_failure_at(field.rules, value.payload(), oracle, at);
    assert forall|other: FieldPlan|
        other.message is None && other.rules.len() > at && other.rules.take(at + 1)
            == field.rules.take(at + 1) implies #[trigger] own_outcome(other, value, oracle)
        == own_outcome(field, value, oracle) by {
        assert forall|j: int| 0 <= j <= at implies other.rules[j] == field.rules[j] by {
            assert(other.rules.take(at + 1)[j] == field.rules.take(at + 1)[j]);
        }
        lemma_first_failure_at(other.rules, value.payload(), oracle, at);
    }
}

/// A field with a message of its own passes as soon as one of its rules
/// holds of the value, however many of the others fail.
pub proof fn law_any_mode_pass(
    field: FieldPlan,
    value: Value,
    oracle: spec_fn(Seq<char>, Value) -> bool,
    at: int,
)
    requires
        field.message is Some,
        value.payload() is Some,
        0 <= at < field.rules.len(),
        field.rules[at].is_check(),
        rule_holds(field.rules[at], value.payload()->0, oracle),
    ensures
        own_outcome(field, value, oracle) is None,
{
}

/// A field with a message of its own, none of whose rules holds of the
/// value, fails with that message and with no other.
pub proof fn law_any_mode_fail(
    field: FieldPlan,
    value: Value,
    oracle: spec_fn(Seq<char>, Value) -> bool,
)
    requires
        field.message is Some,
        value.payload() is Some,
        forall|i: int|
            0 <= i < field.rules.len() && (#[trigger] field.rules[i]).is_check() ==> !rule_holds(
                field.rules[i],
                value.payload()->0,
                oracle,
            ),
    ensures
        own_outcome(field, value, oracle) == field.message,
{
}

/// A field whose value is absent and which is not required passes, whatever
/// its other rules are and whatever records it would hold.
pub proof fn law_absent_passes(
    v: ValidatorView,
    field: FieldPlan,
    value: Value,
    oracle: spec_fn(Seq<char>, Value) -> bool,
)
    requires
        value.payload() is None,
        !has_required(field.rules),
    ensures
        own_outcome(field, value, oracle) is None,
        field_outcome(v, field, value, oracle) is None,
{
    assert forall|j: int| 0 <= j < field.rules.len() implies rule_passes(
        #[trigger] field.rules[j],
        value.payload(),
        oracle,
    ) by {
        if field.rules[j] is Required {
            assert(has_required(field.rules));
        }
    }
    lemma_no_failure(field.rules, value.payload(), oracle);
    lemma_absent_holds_no_record(v, field, value, oracle);
}

/// Nothing is checked within a value that is absent.
proof fn lemma_absent_holds_no_record(
    v: ValidatorView,
    field: FieldPlan,
    value: Value,
    oracle: spec_fn(Seq<char>, Value) -> bool,
)
    requires
        value.payload() is None,
        own_outcome(field, value, oracle) is None,
    ensures
        field_outcome(v, field, value, oracle) is None,
{
    match value {
        Value::Present(inner) => {
            assert(inner.payload() is None);
            assert(!(*inner is Record));
        },
        _ => {},
    }
}

/// A required field whose value is absent fails: with the message of its
/// first `Required` rule if it has no message of its own, with its own
/// message if it has one.
pub proof fn law_absent_required_fails(
    field: FieldPlan,
    value: Value,
    oracle: spec_fn(Seq<char>, Value) -> bool,
    at: int,
)
    requires
        value.payload() is None,
        0 <= at < field.rules.len(),
        field.rules[at] is Required,
        forall|j: int| 0 <= j < at ==> !((#[trigger] field.rules[j]) is Required),
    ensures
        field.message is None ==> own_outcome(field, value, oracle) == Some(
            failure_text(field.rules[at]),
        ),
        field.message is Some ==> own_outcome(field, value, oracle) == field.message,
{
    if field.message is None {
        lemma_first_failure_at(field.rules, value.payload(), oracle, at);
    }
}

/// Which fields take part in a check for a group: a field tagged with the
/// group, and a field tagged with no group at all; no other.
pub proof fn law_group_scope(field: FieldPlan, group: Seq<char>)
    ensures
        groups_of(field.rules).len() == 0 ==> runs(field, Some(group)),
        groups_of(field.rules).contains(group) ==> runs(field, Some(group)),
        groups_of(field.rules).len() > 0 && !groups_of(field.rules).contains(group) ==> !runs(
            field,
            Some(group),
        ),
        runs(field, None),
{
}

/// A field that takes no part in a check adds nothing to it, neither a pass
/// nor a failure: the outcome is that of the fields behind it.
pub proof fn law_skipped_field(
    v: ValidatorView,
    record: int,
    values: Seq<Value>,
    at: int,
    group: Option<Seq<char>>,
    oracle: spec_fn(Seq<char>, Value) -> bool,
)
    requires
        0 <= record < v.records.len(),
        0 <= at < v.records[record].fields.len(),
        !runs(v.records[record].fields[at], group),
    ensures
        fields_outcome(v, record, values, at, group, oracle) == fields_outcome(
            v,
            record,
            values,
            at + 1,
            group,
            oracle,
        ),
{
}

/// What one field says of its value in a check of the fields from `from`
/// on; nothing if it takes no part.
pub open spec fn said_at(
    v: ValidatorView,
    record: int,
    values: Seq<Value>,
    at: int,
    group: Option<Seq<char>>,
    oracle: spec_fn(Seq<char>, Value) -> bool,
) -> Option<Seq<char>> {
    let field = v.records[record].fields[at];
    if !runs(field, group) {
        None
    } else if at < values.len() {
        field_outcome(v, field, values[at], oracle)
    } else {
        own_outcome(field, Value::Absent, oracle)
    }
}

/// The check of a record fails with what the first failing field says, and
/// the fields behind it are not looked at.
pub proof fn law_first_failing_field(
    v: ValidatorView,
    record: int,
    values: Seq<Value>,
    from: int,
    at: int,
    group: Option<Seq<char>>,
    oracle: spec_fn(Seq<char>, Value) -> bool,
)
    requires
        0 <= record < v.records.len(),
        0 <= from <= at < v.records[record].fields.len(),
        said_at(v, record, values, at, group, oracle) is Some,
        forall|j: int| from <= j < at ==> said_at(v, record, values, j, group, oracle) is None,
    ensures
        fields_outcome(v, record, values, from, group, oracle) == said_at(
            v,
            record,
            values,
            at,
            group,
            oracle,
        ),
    decreases at - from,
{
    if from < at {
        assert(said_at(v, record, values, from, group, oracle) is None);
        law_first_failing_field(v, record, values, from + 1, at, group, oracle);
    }
}

/// Of the records that a field holds, the first that fails decides: its
/// failure is handed on as it is, and the records behind it are not
/// looked at.
pub proof fn law_first_failing_item(
    v: ValidatorView,
    record: int,
    items: Seq<Value>,
    from: int,
    at: int,
    oracle: spec_fn(Seq<char>, Value) -> bool,
)
    requires
        0 <= from <= at < items.len(),
        value_outcome(v, record, items[at], oracle) is Some,
        forall|j: int| from <= j < at ==> value_outcome(v, record, #[trigger] items[j], oracle) is None,
    ensures
        items_outcome(v, record, items, from, oracle) == value_outcome(
            v,
            record,
            items[at],
            oracle,
        ),
    decreases at - from,
{
    if from < at {
        assert(value_outcome(v, record, items[from], oracle) is None);
        law_first_failing_item(v, record, items, from + 1, at, oracle);
    }
}

/// A field that holds a collection of records and whose own rules let it
/// through fails exactly as the first failing record of the collection.
pub proof fn law_nested_collection(
    v: ValidatorView,
    field: FieldPlan,
    items: Vec<Value>,
    at: int,
    oracle: spec_fn(Seq<char>, Value) -> bool,
)
    requires
        field.nested matches Some(plan) && plan.shape == NestedShape::Collection,
        own_outcome(field, Value::List(items), oracle) is None,
        0 <= at < items@.len(),
        value_outcome(v, field.nested->0.record, items@[at], oracle) is Some,
        forall|j: int|
            0 <= j < at ==> value_outcome(v, field.nested->0.record, #[trigger] items@[j], oracle)
                is None,
    ensures
        field_outcome(v, field, Value::List(items), oracle) == value_outcome(
            v,
            field.nested->0.record,
            items@[at],
            oracle,
        ),
{
    law_first_failing_item(v, field.nested->0.record, items@, 0, at, oracle);
}

} // verus!
