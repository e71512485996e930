//! From the descriptions of records to a validator.

use vstd::prelude::*;
use crate::patterns::PatternId;
use crate::patterns::PatternRegistry;
use crate::schema::boundary::NestedShape;
use crate::schema::boundary::first_fault;
use crate::schema::boundary::nested_shape;
use crate::schema::boundary::shape_of;
use crate::schema::boundary::validate_field_rules;
use crate::schema::error::SchemaError;
use crate::schema::error::SchemaErrorKind;
use crate::schema::field_meta::Fault;
use crate::schema::attributes::DeriveInput;
use crate::schema::attributes::FieldFault;
use crate::schema::attributes::parse_struct_attributes;
use crate::schema::attributes::parsed_item;
use crate::schema::attributes::field_views;
use crate::schema::generic_types::GenericValidationType;
use crate::schema::metadata::FieldValidation;
use crate::schema::metadata::FieldView;
use crate::schema::metadata::Rule;
use crate::schema::metadata::RuleView;
use crate::schema::metadata::rule_views;
use crate::schema::metadata::texts;
use crate::seqs::reversed;
use crate::text::str_eq;

verus! {

/// The description of a record: its name and those of its fields.
pub struct RecordSchema {
    pub name: String,
    pub fields: Vec<FieldValidation>,
}

/// A record's description as a value of mathematics.
pub struct RecordView {
    pub name: Seq<char>,
    pub fields: Seq<FieldView>,
}

impl View for RecordSchema {
    type V = RecordView;

    open spec fn view(&self) -> RecordView {
        RecordView { name: self.name@, fields: field_views(self.fields@) }
    }
}

/// The views of a list of records.
pub open spec fn record_views(records: Seq<RecordSchema>) -> Seq<RecordView> {
    Seq::new(records.len(), |i: int| records[i]@)
}

/// The names of a list of records.
pub open spec fn record_names(records: Seq<RecordView>) -> Seq<Seq<char>> {
    Seq::new(records.len(), |i: int| records[i].name)
}

/// Where a field's records are checked: how the field reaches them and
/// which record of the validator they are.
pub struct NestedPlan {
    pub shape: NestedShape,
    pub record: int,
}

/// A field as the validator checks it: its rules in the order of
/// declaration, each pattern by its text; the field's own message, which
/// decides how the rules are taken together; and where the records that the
/// field holds are checked.
pub struct FieldPlan {
    pub ident: Seq<char>,
    pub rules: Seq<RuleView>,
    pub message: Option<Seq<char>>,
    pub nested: Option<NestedPlan>,
}

/// A record as the validator checks it.
pub struct RecordPlan {
    pub name: Seq<char>,
    pub fields: Seq<FieldPlan>,
}

/// A validator as a value of mathematics.
pub struct ValidatorView {
    pub records: Seq<RecordPlan>,
}

/// The place of `name` in `names`, if it is there.
pub open spec fn position(names: Seq<Seq<char>>, name: Seq<char>) -> Option<int> {
    if names.contains(name) {
        Some(choose|i: int| 0 <= i < names.len() && names[i] == name)
    } else {
        None
    }
}

/// What is wrong with the messages of a rule and of its field, taken
/// together. A field with a message of its own passes if any of its rules
/// passes, and then fails with that message: none of its rules may have
/// one. A field without one fails with the message of the rule that fails:
/// each of its rules must have one. `Deep` and `GroupTag` check nothing and
/// have no message.
pub open spec fn message_fault(rule: RuleView, field_message: Option<Seq<char>>) -> Option<
    SchemaErrorKind,
> {
    if !rule.is_check() {
        None
    } else if field_message is Some && rule.message() is Some {
        Some(SchemaErrorKind::ConflictingMessage)
    } else if field_message is None && rule.message() is None {
        Some(SchemaErrorKind::MissingMessage)
    } else {
        None
    }
}

/// The fault of the first of `rules` whose message does not go with the
/// field's.
pub open spec fn first_message_fault(rules: Seq<RuleView>, field_message: Option<Seq<char>>) -> Option<
    Fault,
>
    decreases rules.len(),
{
    if rules.len() == 0 {
        None
    } else {
        match message_fault(rules[0], field_message) {
            Some(kind) => Some(Fault { kind, rule: Some(rules[0].kind()) }),
            None => first_message_fault(rules.drop_first(), field_message),
        }
    }
}

/// The rule with the name of its pattern resolved to the pattern's text. A
/// rule without a pattern stays as it is.
pub open spec fn resolved(rule: RuleView, names: Seq<Seq<char>>, sources: Seq<Seq<char>>) -> Result<
    RuleView,
    SchemaErrorKind,
> {
    match rule {
        RuleView::Regex { pattern, message } => match position(names, pattern) {
            Some(i) => Ok(RuleView::Regex { pattern: sources[i], message }),
            None => Err(SchemaErrorKind::UnknownPattern),
        },
        _ => Ok(rule),
    }
}

/// The rules with their patterns resolved, behind `acc`; or the fault of
/// the first rule whose pattern the registry does not hold.
pub open spec fn resolved_from(
    rules: Seq<RuleView>,
    names: Seq<Seq<char>>,
    sources: Seq<Seq<char>>,
    acc: Seq<RuleView>,
) -> Result<Seq<RuleView>, Fault>
    decreases rules.len(),
{
    if rules.len() == 0 {
        Ok(acc)
    } else {
        match resolved(rules[0], names, sources) {
            Ok(rule) => resolved_from(rules.drop_first(), names, sources, acc.push(rule)),
            Err(kind) => Err(Fault { kind, rule: Some(rules[0].kind()) }),
        }
    }
}

/// Where the records of a field are checked, if it holds any: the record
/// of the validator that has the name of the field's type.
pub open spec fn nested_plan(field: FieldView, records: Seq<Seq<char>>) -> Result<
    Option<NestedPlan>,
    Fault,
> {
    match nested_shape(field.category) {
        None => Ok(None),
        Some(shape) => match position(records, field.record) {
            Some(record) => Ok(Some(NestedPlan { shape, record })),
            None => Err(Fault { kind: SchemaErrorKind::UnknownRecord, rule: None }),
        },
    }
}

/// A field as the validator will check it, or the first thing wrong with
/// it. The rules are held against the category of the field's type first,
/// then their messages against the field's, then their patterns against
/// the registry, and last the field's type against the records.
pub open spec fn field_plan(
    field: FieldView,
    names: Seq<Seq<char>>,
    sources: Seq<Seq<char>>,
    records: Seq<Seq<char>>,
) -> Result<FieldPlan, Fault> {
    match first_fault(field.rules, field.category) {
        Some(fault) => Err(fault),
        None => match first_message_fault(field.rules, field.message) {
            Some(fault) => Err(fault),
            None => match resolved_from(field.rules, names, sources, Seq::empty()) {
                Err(fault) => Err(fault),
                Ok(rules) => match nested_plan(field, records) {
                    Err(fault) => Err(fault),
                    Ok(nested) => Ok(
                        FieldPlan { ident: field.ident, rules, message: field.message, nested },
                    ),
                },
            },
        },
    }
}

/// The fields as the validator will check them, behind `acc`; or the
/// fault of the first field at fault.
pub open spec fn fields_plan_from(
    fields: Seq<FieldView>,
    names: Seq<Seq<char>>,
    sources: Seq<Seq<char>>,
    records: Seq<Seq<char>>,
    acc: Seq<FieldPlan>,
) -> Result<Seq<FieldPlan>, FieldFault>
    decreases fields.len(),
{
    if fields.len() == 0 {
        Ok(acc)
    } else {
        match field_plan(fields[0], names, sources, records) {
            Ok(plan) => fields_plan_from(
                fields.drop_first(),
                names,
                sources,
                records,
                acc.push(plan),
            ),
            Err(fault) => Err(FieldFault { field: fields[0].ident, fault }),
        }
    }
}

/// The records as the validator will check them, behind `acc`; or the
/// fault of the first field at fault.
pub open spec fn records_plan_from(
    todo: Seq<RecordView>,
    names: Seq<Seq<char>>,
    sources: Seq<Seq<char>>,
    records: Seq<Seq<char>>,
    acc: Seq<RecordPlan>,
) -> Result<Seq<RecordPlan>, FieldFault>
    decreases todo.len(),
{
    if todo.len() == 0 {
        Ok(acc)
    } else {
        match fields_plan_from(todo[0].fields, names, sources, records, Seq::empty()) {
            Ok(fields) => records_plan_from(
                todo.drop_first(),
                names,
                sources,
                records,
                acc.push(RecordPlan { name: todo[0].name, fields }),
            ),
            Err(fault) => Err(fault),
        }
    }
}

/// The first name that comes twice, at its second coming.
pub open spec fn first_repeat(names: Seq<Seq<char>>, seen: Seq<Seq<char>>) -> Option<Seq<char>>
    decreases names.len(),
{
    if names.len() == 0 {
        None
    } else if seen.contains(names[0]) {
        Some(names[0])
    } else {
        first_repeat(names.drop_first(), seen.push(names[0]))
    }
}

/// The validator for a list of records and a registry of patterns, or the
/// first thing wrong with them: two records of one name, or the fault of
/// the first field at fault.
pub open spec fn validator_plan(
    records: Seq<RecordView>,
    names: Seq<Seq<char>>,
    sources: Seq<Seq<char>>,
) -> Result<ValidatorView, FieldFault> {
    match first_repeat(record_names(records), Seq::empty()) {
        Some(name) => Err(
            FieldFault {
                field: name,
                fault: Fault { kind: SchemaErrorKind::DuplicateName, rule: None },
            },
        ),
        None => match records_plan_from(
            records,
            names,
            sources,
            record_names(records),
            Seq::empty(),
        ) {
            Ok(plans) => Ok(ValidatorView { records: plans }),
            Err(fault) => Err(fault),
        },
    }
}

/// The rule with the text of the pattern that was found for it.
pub open spec fn planned_rule(rule: RuleView, id: Option<PatternId>, sources: Seq<Seq<char>>) -> RuleView {
    match rule {
        RuleView::Regex { pattern, message } => RuleView::Regex {
            pattern: match id {
                Some(id) => sources[id.index as int],
                None => pattern,
            },
            message,
        },
        other => other,
    }
}

/// The rules with the texts of the patterns that were found for them.
pub open spec fn planned_rules(
    rules: Seq<Rule>,
    ids: Seq<Option<PatternId>>,
    sources: Seq<Seq<char>>,
) -> Seq<RuleView> {
    Seq::new(rules.len(), |k: int| planned_rule(rules[k]@, ids[k], sources))
}

/// A field of the validator: its description, the pattern of each rule
/// that has one, and where its records are checked.
pub struct MetaData {
    pub(crate) validation: FieldValidation,
    pub(crate) patterns: Vec<Option<PatternId>>,
    pub(crate) nested: Option<(NestedShape, usize)>,
}

/// A record of the validator.
pub struct RecordMeta {
    pub(crate) name: String,
    pub(crate) fields: Vec<MetaData>,
}

/// The validator: the records it knows and the registry of the patterns
/// that their rules use.
pub struct Validator {
    pub(crate) records: Vec<RecordMeta>,
    pub(crate) patterns: PatternRegistry,
}

impl MetaData {
    /// The field as the validator checks it.
    pub open(crate) spec fn plan(self, sources: Seq<Seq<char>>) -> FieldPlan {
        FieldPlan {
            ident: self.validation.ident@,
            rules: planned_rules(self.validation.rules@, self.patterns@, sources),
            message: self.validation@.message,
            nested: match self.nested {
                Some((shape, record)) => Some(NestedPlan { shape, record: record as int }),
                None => None,
            },
        }
    }

    /// Every rule with a pattern has the identifier of one that the
    /// registry holds, and the field's records are among `records` ones.
    pub open(crate) spec fn wf(self, patterns: nat, records: nat) -> bool {
        &&& self.patterns@.len() == self.validation.rules@.len()
        &&& forall|i: int|
            0 <= i < self.patterns@.len() && (#[trigger] self.validation.rules@[i]) is Regex
                ==> (self.patterns@[i] matches Some(id) && id.index < patterns)
        &&& (self.nested matches Some((_, record)) ==> record < records)
    }
}

impl RecordMeta {
    pub open(crate) spec fn plan(self, sources: Seq<Seq<char>>) -> RecordPlan {
        RecordPlan {
            name: self.name@,
            fields: Seq::new(self.fields@.len(), |i: int| self.fields@[i].plan(sources)),
        }
    }

    pub open(crate) spec fn wf(self, patterns: nat, records: nat) -> bool {
        forall|i: int| 0 <= i < self.fields@.len() ==> (#[trigger] self.fields@[i]).wf(patterns, records)
    }
}

/// The plans of a list of records.
pub open(crate) spec fn record_plans(records: Seq<RecordMeta>, sources: Seq<Seq<char>>) -> Seq<RecordPlan> {
    Seq::new(records.len(), |i: int| records[i].plan(sources))
}

impl View for Validator {
    type V = ValidatorView;

    open(crate) spec fn view(&self) -> ValidatorView {
        ValidatorView { records: record_plans(self.records@, self.patterns.sources_view()) }
    }
}

impl Validator {
    #[verifier::type_invariant]
    pub open(crate) spec fn wf(self) -> bool {
        forall|i: int|
            0 <= i < self.records@.len() ==> (#[trigger] self.records@[i]).wf(
                self.patterns.sources_view().len(),
                self.records@.len() as nat,
            )
    }

    /// The number of records.
    pub fn len(&self) -> (n: usize)
        ensures
            n == self@.records.len(),
    {
        self.records.len()
    }

    /// The record of this name, by its place among the records.
    pub fn record(&self, name: &str) -> (r: Option<usize>)
        ensures
            match r {
                Some(i) => i < self@.records.len() && self@.records[i as int].name == name@,
                None => forall|i: int|
                    0 <= i < self@.records.len() ==> (#[trigger] self@.records[i]).name != name@,
            },
    {
        let mut i: usize = 0;
        while i < self.records.len()
            invariant
                i <= self.records.len(),
                forall|j: int| 0 <= j < i ==> (#[trigger] self.records@[j]).name@ != name@,
            decreases self.records.len() - i,
        {
            if str_eq(self.records[i].name.as_str(), name) {
                return Some(i);
            }
            i += 1;
        }
        None
    }
}

fn find_name(names: &Vec<String>, name: &str) -> (r: Option<usize>)
    requires
        texts(names@).no_duplicates(),
    ensures
        r matches Some(i) ==> i < names@.len(),
        (match r {
            Some(i) => Some(i as int),
            None => None,
        }) == position(texts(names@), name@),
{
    let ghost all = texts(names@);
    let mut i: usize = 0;
    while i < names.len()
        invariant
            i <= names.len(),
            all == texts(names@),
            all.no_duplicates(),
            forall|j: int| 0 <= j < i ==> all[j] != name@,
        decreases names.len() - i,
    {
        if str_eq(names[i].as_str(), name) {
            proof {
                assert(all[i as int] == name@);
                let c = choose|c: int| 0 <= c < all.len() && all[c] == name@;
                assert(c == i);
            }
            return Some(i);
        }
        i += 1;
    }
    None
}

/// Finds the first rule whose message does not go with the field's.
fn check_messages(validation: &FieldValidation) -> (r: Result<(), SchemaError>)
    ensures
        match r {
            Ok(_) => first_message_fault(validation@.rules, validation@.message) is None,
            Err(e) => first_message_fault(validation@.rules, validation@.message) matches Some(
                fault,
            ) && e.is(fault.kind, validation@.ident, fault.rule),
        },
{
    let ghost rules = validation@.rules;
    let ghost message = validation@.message;
    let own = validation.message.is_some();
    let mut i: usize = 0;
    assert(rules.skip(0) =~= rules);
    while i < validation.rules.len()
        invariant
            i <= validation.rules.len(),
            rules == rule_views(validation.rules@),
            message == validation@.message,
            own == (message is Some),
            first_message_fault(rules, message) == first_message_fault(
                rules.skip(i as int),
                message,
            ),
        decreases validation.rules.len() - i,
    {
        assert(rules.skip(i as int)[0] == validation.rules@[i as int]@);
        assert(rules.skip(i as int).drop_first() =~= rules.skip(i + 1));
        let rule = &validation.rules[i];
        let is_check = !matches!(rule, Rule::Deep | Rule::GroupTag(_));
        if is_check {
            let worded = rule.message().is_some();
            if own && worded {
                return Err(
                    SchemaError::new(
                        SchemaErrorKind::ConflictingMessage,
                        validation.ident.as_str(),
                        Some(rule.kind()),
                    ),
                );
            }
            if !own && !worded {
                return Err(
                    SchemaError::new(
                        SchemaErrorKind::MissingMessage,
                        validation.ident.as_str(),
                        Some(rule.kind()),
                    ),
                );
            }
        }
        i += 1;
    }
    Ok(())
}

/// Finds the pattern of each rule that names one.
fn resolve_patterns(validation: &FieldValidation, registry: &PatternRegistry) -> (r: Result<
    Vec<Option<PatternId>>,
    SchemaError,
>)
    ensures
        match r {
            Ok(ids) => {
                &&& ids@.len() == validation.rules@.len()
                &&& forall|i: int|
                    0 <= i < ids@.len() && (#[trigger] validation.rules@[i]) is Regex
                        ==> (ids@[i] matches Some(id) && registry.has(id))
                &&& resolved_from(
                    validation@.rules,
                    registry.names_view(),
                    registry.sources_view(),
                    Seq::empty(),
                ) == Ok::<Seq<RuleView>, Fault>(
                    planned_rules(validation.rules@, ids@, registry.sources_view()),
                )
            },
            Err(e) => resolved_from(
                validation@.rules,
                registry.names_view(),
                registry.sources_view(),
                Seq::empty(),
            ) matches Err(fault) && e.is(fault.kind, validation@.ident, fault.rule),
        },
{
    let ghost rules = validation@.rules;
    let ghost names = registry.names_view();
    let ghost sources = registry.sources_view();
    let mut ids: Vec<Option<PatternId>> = Vec::new();
    let mut i: usize = 0;
    assert(rules.skip(0) =~= rules);
    assert(planned_rules(validation.rules@.take(0), ids@, sources) =~= Seq::<RuleView>::empty());
    while i < validation.rules.len()
        invariant
            i <= validation.rules.len(),
            rules == rule_views(validation.rules@),
            names == registry.names_view(),
            sources == registry.sources_view(),
            ids@.len() == i,
            forall|k: int|
                0 <= k < i && (#[trigger] validation.rules@[k]) is Regex ==> (ids@[k] matches Some(
                    id,
                ) && registry.has(id)),
            resolved_from(rules, names, sources, Seq::empty()) == resolved_from(
                rules.skip(i as int),
                names,
                sources,
                planned_rules(validation.rules@.take(i as int), ids@, sources),
            ),
        decreases validation.rules.len() - i,
    {
        assert(rules.skip(i as int)[0] == validation.rules@[i as int]@);
        assert(rules.skip(i as int).drop_first() =~= rules.skip(i + 1));
        let ghost before = planned_rules(validation.rules@.take(i as int), ids@, sources);
        let id = match &validation.rules[i] {
            Rule::Regex(o) => match registry.from_name(o.pattern.as_str()) {
                Some(id) => {
                    proof {
                        let c = choose|c: int| 0 <= c < names.len() && names[c] == o.pattern@;
                        assert(c == id.index);
                    }
                    Some(id)
                },
                None => {
                    return Err(
                        SchemaError::new(
                            SchemaErrorKind::UnknownPattern,
                            validation.ident.as_str(),
                            Some(validation.rules[i].kind()),
                        ),
                    );
                },
            },
            _ => None,
        };
        ids.push(id);
        proof {
            assert(resolved(rules[i as int], names, sources) == Ok::<RuleView, SchemaErrorKind>(
                planned_rule(validation.rules@[i as int]@, id, sources),
            ));
            assert(planned_rules(validation.rules@.take(i + 1), ids@, sources) =~= before.push(
                planned_rule(validation.rules@[i as int]@, id, sources),
            ));
        }
        i += 1;
    }
    assert(validation.rules@.take(i as int) =~= validation.rules@);
    Ok(ids)
}

/// Compiles one field: holds its rules against its type, their messages
/// against its own, their patterns against the registry and its type
/// against the records.
pub fn compile_field(
    validation: FieldValidation,
    registry: &PatternRegistry,
    records: &Vec<String>,
) -> (r: Result<MetaData, SchemaError>)
    requires
        texts(records@).no_duplicates(),
    ensures
        match r {
            Ok(meta) => {
                &&& field_plan(
                    validation@,
                    registry.names_view(),
                    registry.sources_view(),
                    texts(records@),
                ) == Ok::<FieldPlan, Fault>(meta.plan(registry.sources_view()))
                &&& meta.wf(registry.sources_view().len(), records@.len() as nat)
            },
            Err(e) => field_plan(
                validation@,
                registry.names_view(),
                registry.sources_view(),
                texts(records@),
            ) matches Err(fault) && e.is(fault.kind, validation@.ident, fault.rule),
        },
{
    if let Err(e) = validate_field_rules(&validation) {
        return Err(e);
    }
    if let Err(e) = check_messages(&validation) {
        return Err(e);
    }
    let patterns = match resolve_patterns(&validation, registry) {
        Ok(ids) => ids,
        Err(e) => {
            return Err(e);
        },
    };
    let category = GenericValidationType::from_type(&validation.field_type);
    let nested = match shape_of(&category) {
        None => None,
        Some(shape) => match find_name(records, validation.field_type.heart()) {
            Some(record) => Some((shape, record)),
            None => {
                return Err(
                    SchemaError::new(
                        SchemaErrorKind::UnknownRecord,
                        validation.ident.as_str(),
                        None,
                    ),
                );
            },
        },
    };
    let count = registry.len();
    let meta = MetaData { validation, patterns, nested };
    proof {
        assert(meta.wf(count as nat, records@.len() as nat));
        assert(meta.plan(registry.sources_view()).nested == nested_plan(
            validation@,
            texts(records@),
        )->Ok_0);
    }
    Ok(meta)
}

/// The plans of a list of compiled fields.
pub open(crate) spec fn field_plans(fields: Seq<MetaData>, sources: Seq<Seq<char>>) -> Seq<FieldPlan> {
    Seq::new(fields.len(), |i: int| fields[i].plan(sources))
}

/// Compiles the fields of one record, in order.
fn compile_fields(
    fields: Vec<FieldValidation>,
    registry: &PatternRegistry,
    records: &Vec<String>,
) -> (r: Result<Vec<MetaData>, SchemaError>)
    requires
        texts(records@).no_duplicates(),
    ensures
        match r {
            Ok(metas) => {
                &&& fields_plan_from(
                    field_views(fields@),
                    registry.names_view(),
                    registry.sources_view(),
                    texts(records@),
                    Seq::empty(),
                ) == Ok::<Seq<FieldPlan>, FieldFault>(
                    field_plans(metas@, registry.sources_view()),
                )
                &&& forall|i: int|
                    0 <= i < metas@.len() ==> (#[trigger] metas@[i]).wf(
                        registry.sources_view().len(),
                        records@.len() as nat,
                    )
            },
            Err(e) => fields_plan_from(
                field_views(fields@),
                registry.names_view(),
                registry.sources_view(),
                texts(records@),
                Seq::empty(),
            ) matches Err(at) && e.is(at.fault.kind, at.field, at.fault.rule),
        },
{
    let ghost all = field_views(fields@);
    let ghost whole = fields@;
    let ghost names = registry.names_view();
    let ghost sources = registry.sources_view();
    let ghost known = texts(records@);
    let mut pending = reversed(fields);
    let mut out: Vec<MetaData> = Vec::new();
    assert(field_plans(out@, sources) =~= Seq::empty());
    assert(all.skip(0) =~= all);
    while pending.len() > 0
        invariant
            whole == fields@,
            all == field_views(whole),
            names == registry.names_view(),
            sources == registry.sources_view(),
            known == texts(records@),
            known.no_duplicates(),
            pending@.len() <= whole.len(),
            forall|j: int|
                0 <= j < pending@.len() ==> #[trigger] pending@[j] == whole[whole.len() - 1 - j],
            forall|i: int|
                0 <= i < out@.len() ==> (#[trigger] out@[i]).wf(sources.len(), records@.len() as nat),
            fields_plan_from(all, names, sources, known, Seq::empty()) == fields_plan_from(
                all.skip(all.len() - pending@.len()),
                names,
                sources,
                known,
                field_plans(out@, sources),
            ),
        decreases pending.len(),
    {
        let ghost at = all.len() - pending@.len();
        assert(pending@[pending@.len() - 1] == whole[at]);
        assert(all.skip(at)[0] == whole[at]@);
        assert(all.skip(at).drop_first() =~= all.skip(at + 1));
        let field = pending.pop();
        if let Some(field) = field {
            match compile_field(field, registry, records) {
                Ok(meta) => {
                    let ghost before = field_plans(out@, sources);
                    out.push(meta);
                    assert(field_plans(out@, sources) =~= before.push(meta.plan(sources)));
                },
                Err(e) => {
                    return Err(e);
                },
            }
        }
    }
    Ok(out)
}

/// Gathers the names of the records and makes sure that none comes twice.
fn collect_names(records: &Vec<RecordSchema>) -> (r: Result<Vec<String>, SchemaError>)
    ensures
        match r {
            Ok(names) => {
                &&& first_repeat(record_names(record_views(records@)), Seq::empty()) is None
                &&& texts(names@) == record_names(record_views(records@))
                &&& texts(names@).no_duplicates()
            },
            Err(e) => first_repeat(record_names(record_views(records@)), Seq::empty()) matches Some(
                name,
            ) && e.is(SchemaErrorKind::DuplicateName, name, None),
        },
{
    let ghost all = record_names(record_views(records@));
    let mut names: Vec<String> = Vec::new();
    let mut i: usize = 0;
    assert(all.skip(0) =~= all);
    assert(texts(names@) =~= Seq::empty());
    while i < records.len()
        invariant
            i <= records.len(),
            all == record_names(record_views(records@)),
            names@.len() == i,
            texts(names@) =~= all.take(i as int),
            texts(names@).no_duplicates(),
            first_repeat(all, Seq::empty()) == first_repeat(
                all.skip(i as int),
                texts(names@),
            ),
        decreases records.len() - i,
    {
        assert(all.skip(i as int)[0] == records@[i as int].name@);
        assert(all.skip(i as int).drop_first() =~= all.skip(i + 1));
        let name = &records[i].name;
        let ghost seen = texts(names@);
        if find_name(&names, name.as_str()).is_some() {
            return Err(SchemaError::new(SchemaErrorKind::DuplicateName, name.as_str(), None));
        }
        names.push(name.clone());
        proof {
            let longer = texts(names@);
            assert(longer =~= seen.push(name@));
            assert forall|a: int, b: int|
                0 <= a < longer.len() && 0 <= b < longer.len() && a != b implies longer[a]
                != longer[b] by {
                if a < seen.len() && b < seen.len() {
                } else if a < seen.len() {
                    assert(seen.contains(seen[a]));
                } else {
                    assert(seen.contains(seen[b]));
                }
            }
        }
        i += 1;
    }
    assert(all.take(i as int) =~= all);
    Ok(names)
}

/// Compiles the descriptions of records into a validator.
///
/// Succeeds if no two records have the same name, every rule fits the type
/// of its field, the messages of the rules go with those of their fields,
/// every pattern named is in the registry and every record that a field
/// holds is among the records. The validator then checks the fields in the
/// order given. Otherwise the error names the first field at fault, and the
/// rule if the fault is a rule's.
pub fn generate_validate_impl(records: Vec<RecordSchema>, patterns: PatternRegistry) -> (r: Result<
    Validator,
    SchemaError,
>)
    ensures
        match r {
            Ok(validator) => validator_plan(
                record_views(records@),
                patterns.names_view(),
                patterns.sources_view(),
            ) == Ok::<ValidatorView, FieldFault>(validator@),
            Err(e) => validator_plan(
                record_views(records@),
                patterns.names_view(),
                patterns.sources_view(),
            ) matches Err(at) && e.is(at.fault.kind, at.field, at.fault.rule),
        },
{
    let names = match collect_names(&records) {
        Ok(names) => names,
        Err(e) => {
            return Err(e);
        },
    };
    let ghost whole = records@;
    let ghost all = record_views(whole);
    let ghost known = texts(names@);
    let ghost pattern_names = patterns.names_view();
    let ghost sources = patterns.sources_view();
    let mut pending = reversed(records);
    let mut out: Vec<RecordMeta> = Vec::new();
    assert(record_plans(out@, sources) =~= Seq::empty());
    assert(all.skip(0) =~= all);
    while pending.len() > 0
        invariant
            whole == records@,
            first_repeat(record_names(all), Seq::empty()) is None,
            all == record_views(whole),
            known == texts(names@),
            known == record_names(all),
            known.no_duplicates(),
            pattern_names == patterns.names_view(),
            sources == patterns.sources_view(),
            pending@.len() + out@.len() == whole.len(),
            forall|j: int|
                0 <= j < pending@.len() ==> #[trigger] pending@[j] == whole[whole.len() - 1 - j],
            forall|i: int|
                0 <= i < out@.len() ==> (#[trigger] out@[i]).wf(sources.len(), names@.len() as nat),
            records_plan_from(all, pattern_names, sources, known, Seq::empty())
                == records_plan_from(
                all.skip(all.len() - pending@.len()),
                pattern_names,
                sources,
                known,
                record_plans(out@, sources),
            ),
        decreases pending.len(),
    {
        let ghost at = all.len() - pending@.len();
        assert(pending@[pending@.len() - 1] == whole[at]);
        assert(all.skip(at)[0] == whole[at]@);
        assert(all.skip(at).drop_first() =~= all.skip(at + 1));
        let record = pending.pop();
        if let Some(record) = record {
            let RecordSchema { name, fields } = record;
            match compile_fields(fields, &patterns, &names) {
                Ok(metas) => {
                    let ghost before = record_plans(out@, sources);
                    let meta = RecordMeta { name, fields: metas };
                    assert(meta.plan(sources).fields =~= field_plans(metas@, sources));
                    out.push(meta);
                    assert(record_plans(out@, sources) =~= before.push(meta.plan(sources)));
                },
                Err(e) => {
                    return Err(e);
                },
            }
        }
    }
    assert(known.len() == all.len());
    Ok(Validator { records: out, patterns })
}

/// Derives a validator from the items that declare the records: reads the
/// attributes of each and compiles what they say.
///
/// Fails with the fault of the first item that is no struct with named
/// fields or whose attributes cannot be read; otherwise as
/// `generate_validate_impl` does.
pub fn derive_validate(inputs: Vec<DeriveInput>, patterns: PatternRegistry) -> (r: Result<
    Validator,
    SchemaError,
>)
    ensures
        match r {
            Ok(validator) => parsed_records_from(inputs@, Seq::empty()) matches Ok(records)
                && validator_plan(records, patterns.names_view(), patterns.sources_view()) == Ok::<
                ValidatorView,
                FieldFault,
            >(validator@),
            Err(e) => match parsed_records_from(inputs@, Seq::empty()) {
                Err(at) => e.is(at.fault.kind, at.field, at.fault.rule),
                Ok(records) => validator_plan(
                    records,
                    patterns.names_view(),
                    patterns.sources_view(),
                ) matches Err(at) && e.is(at.fault.kind, at.field, at.fault.rule),
            },
        },
{
    let ghost whole = inputs@;
    let mut pending = reversed(inputs);
    let mut records: Vec<RecordSchema> = Vec::new();
    assert(record_views(records@) =~= Seq::empty());
    assert(whole.skip(0) =~= whole);
    while pending.len() > 0
        invariant
            whole == inputs@,
            pending@.len() <= whole.len(),
            forall|j: int|
                0 <= j < pending@.len() ==> #[trigger] pending@[j] == whole[whole.len() - 1 - j],
            parsed_records_from(whole, Seq::empty()) == parsed_records_from(
                whole.skip(whole.len() - pending@.len()),
                record_views(records@),
            ),
        decreases pending.len(),
    {
        let ghost at = whole.len() - pending@.len();
        assert(pending@[pending@.len() - 1] == whole[at]);
        assert(whole.skip(at)[0] == whole[at]);
        assert(whole.skip(at).drop_first() =~= whole.skip(at + 1));
        let input = pending.pop();
        if let Some(input) = input {
            let name = input.ident.clone();
            match parse_struct_attributes(input) {
                Ok(fields) => {
                    let ghost before = record_views(records@);
                    let record = RecordSchema { name, fields };
                    records.push(record);
                    assert(record_views(records@) =~= before.push(record@));
                },
                Err(e) => {
                    return Err(e);
                },
            }
        }
    }
    generate_validate_impl(records, patterns)
}

/// The descriptions of the records that `inputs` declare, behind `acc`; or
/// the fault of the first item that cannot be read.
pub open spec fn parsed_records_from(inputs: Seq<DeriveInput>, acc: Seq<RecordView>) -> Result<
    Seq<RecordView>,
    FieldFault,
>
    decreases inputs.len(),
{
    if inputs.len() == 0 {
        Ok(acc)
    } else {
        match parsed_item(inputs[0].data) {
            Ok(fields) => parsed_records_from(
                inputs.drop_first(),
                acc.push(RecordView { name: inputs[0].ident@, fields }),
            ),
            Err(at) => Err(at),
        }
    }
}

} // verus!
