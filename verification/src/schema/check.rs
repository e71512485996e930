//! Checking values: the validator at work.

use vstd::prelude::*;
use crate::matcher::pattern_compiles;
use crate::matcher::regex_is_match;
use crate::patterns::PatternId;
use crate::schema::boundary::NestedShape;
use crate::schema::codegen::MetaData;
use crate::schema::codegen::Validator;
use crate::schema::codegen::ValidatorView;
use crate::schema::codegen::planned_rule;
use crate::schema::metadata::Rule;
use crate::schema::metadata::RuleView;
use crate::schema::metadata::groups_of;
use crate::schema::metadata::rule_views;
use crate::schema::metadata::texts;
use crate::schema::outcome::ValidationOutcome;
use crate::schema::semantics::any_holds;
use crate::schema::semantics::field_outcome;
use crate::schema::semantics::fields_outcome;
use crate::schema::semantics::first_failure;
use crate::schema::semantics::has_required;
use crate::schema::semantics::items_outcome;
use crate::schema::semantics::own_outcome;
use crate::schema::semantics::rule_holds;
use crate::schema::semantics::value_outcome;
use crate::schema::value::Value;
use crate::text::all_whitespace;
use crate::text::contains_whitespace;
use crate::text::str_eq;
use vstd::string::StringSliceAdditionalSpecFns;

verus! {

/// The predicates of the caller answer as `oracle` does, whenever they are
/// asked under one of `names`.
pub open spec fn answers<F: Fn(&str, &Value) -> bool>(
    predicates: &F,
    oracle: spec_fn(Seq<char>, Value) -> bool,
    names: Set<Seq<char>>,
) -> bool {
    forall|name: &str, value: &Value, answer: bool|
        names.contains(name@) && #[trigger] call_ensures(*predicates, (name, value), answer)
            ==> answer == oracle(name@, *value)
}

/// The predicates of the caller can be asked about every value, under
/// every name.
pub open spec fn askable<F: Fn(&str, &Value) -> bool>(predicates: &F) -> bool {
    forall|name: &str, value: &Value| #[trigger] call_requires(*predicates, (name, value))
}

/// Every predicate that the rules name is among `names`.
pub open spec fn covers(names: Set<Seq<char>>, rules: Seq<RuleView>) -> bool {
    forall|i: int|
        0 <= i < rules.len() ==> ((#[trigger] rules[i]) matches RuleView::Func { func, .. }
            ==> names.contains(func))
}

/// Whether the rule asks the predicate of this name.
pub open spec fn names_func(rule: RuleView, name: Seq<char>) -> bool {
    rule matches RuleView::Func { func, .. } && func == name
}

/// Every pattern that the rules use compiles.
pub open spec fn rules_ready(rules: Seq<RuleView>) -> bool {
    forall|i: int|
        0 <= i < rules.len() ==> ((#[trigger] rules[i]) matches RuleView::Regex { pattern, .. }
            ==> pattern_compiles(pattern))
}

impl ValidatorView {
    /// The names of the predicates that the rules of the validator name.
    pub open spec fn funcs(self) -> Set<Seq<char>> {
        Set::new(
            |name: Seq<char>|
                exists|r: int, f: int, i: int|
                    0 <= r < self.records.len() && 0 <= f < self.records[r].fields.len() && 0 <= i
                        < self.records[r].fields[f].rules.len() && names_func(
                        #[trigger] self.records[r].fields[f].rules[i],
                        name,
                    ),
        )
    }

    /// Every pattern that the rules of the validator use compiles.
    pub open spec fn ready(self) -> bool {
        forall|r: int, f: int|
            0 <= r < self.records.len() && 0 <= f < self.records[r].fields.len() ==> rules_ready(
                (#[trigger] self.records[r].fields[f]).rules,
            )
    }
}

fn new_failure(message: Option<&String>) -> (r: ValidationOutcome)
    ensures
        r@ == Some(
            match message {
                Some(m) => m@,
                None => Seq::<char>::empty(),
            },
        ),
{
    match message {
        Some(m) => ValidationOutcome::Fail(m.clone()),
        None => ValidationOutcome::Fail(String::new()),
    }
}

fn in_bounds(n: i128, min: Option<i128>, max: Option<i128>) -> (r: bool)
    ensures
        r == crate::schema::semantics::within_bounds(
            n as int,
            match min {
                Some(lo) => Some(lo as int),
                None => None,
            },
            match max {
                Some(hi) => Some(hi as int),
                None => None,
            },
        ),
{
    if let Some(lo) = min {
        if n < lo {
            return false;
        }
    }
    if let Some(hi) = max {
        if n > hi {
            return false;
        }
    }
    true
}

fn size_of(value: &Value) -> (r: Option<usize>)
    ensures
        match r {
            Some(n) => value.size() == Some(n as nat),
            None => value.size() is None,
        },
{
    match value {
        Value::Text(s) => Some(s.as_str().as_bytes().len()),
        Value::List(items) => Some(items.len()),
        Value::Mapping(entries) => Some(entries.len()),
        _ => None,
    }
}

fn rank_of(value: &Value) -> (r: Option<i128>)
    ensures
        match r {
            Some(k) => value.rank() == Some(k as int),
            None => value.rank() is None,
        },
{
    match value {
        Value::Integer(k) => Some(*k),
        Value::Float(k) => Some(*k),
        Value::Decimal(k) => Some(*k),
        Value::DateTime(k) => Some(*k),
        _ => None,
    }
}

impl Validator {
    /// Whether the rule holds of a value that is present.
    fn holds<F: Fn(&str, &Value) -> bool>(
        &self,
        rule: &Rule,
        pattern: Option<PatternId>,
        value: &Value,
        predicates: &F,
        Ghost(names): Ghost<Set<Seq<char>>>,
    ) -> (r: bool)
        requires
            askable(predicates),
            rule is Regex ==> (pattern matches Some(id) && id.index
                < self.patterns.sources_view().len() && pattern_compiles(
                self.patterns.sources_view()[id.index as int],
            )),
            rule@ matches RuleView::Func { func, .. } ==> names.contains(func),
        ensures
            forall|oracle: spec_fn(Seq<char>, Value) -> bool| #[trigger]
                answers(predicates, oracle, names) ==> r == rule_holds(
                    planned_rule(rule@, pattern, self.patterns.sources_view()),
                    *value,
                    oracle,
                ),
    {
        proof {
            self.patterns.lemma_lengths();
        }
        match rule {
            Rule::NotBlank(_) => match value {
                Value::Text(s) => !all_whitespace(s.as_str()),
                _ => false,
            },
            Rule::NotEmpty(_) => match size_of(value) {
                Some(n) => n > 0,
                None => false,
            },
            Rule::NoSpace(_) => match value {
                Value::Text(s) => !contains_whitespace(s.as_str()),
                _ => false,
            },
            Rule::Regex(_) => match (value, pattern) {
                (Value::Text(s), Some(id)) => regex_is_match(self.patterns.regex(id), s.as_str()),
                _ => false,
            },
            Rule::Range(o) => match rank_of(value) {
                Some(k) => {
                    let min = match o.min {
                        Some(lo) => Some(lo as i128),
                        None => None,
                    };
                    let max = match o.max {
                        Some(hi) => Some(hi as i128),
                        None => None,
                    };
                    in_bounds(k, min, max)
                },
                None => false,
            },
            Rule::Size(o) => match size_of(value) {
                Some(n) => {
                    let min = match o.min {
                        Some(lo) => Some(lo as i128),
                        None => None,
                    };
                    let max = match o.max {
                        Some(hi) => Some(hi as i128),
                        None => None,
                    };
                    in_bounds(n as i128, min, max)
                },
                None => false,
            },
            Rule::Within(o) => value.is_among(&o.values),
            Rule::Exclude(o) => !value.is_among(&o.values),
            Rule::Required(_) => true,
            Rule::Func(o) => predicates(o.func.as_str(), value),
            Rule::Deep => true,
            Rule::GroupTag(_) => true,
        }
    }
}

impl Validator {
    /// The message of the first rule that does not let the field through.
    fn first_failing<F: Fn(&str, &Value) -> bool>(
        &self,
        meta: &MetaData,
        payload: Option<&Value>,
        predicates: &F,
        Ghost(names): Ghost<Set<Seq<char>>>,
    ) -> (r: ValidationOutcome)
        requires
            askable(predicates),
            meta.wf(self.patterns.sources_view().len(), self.records@.len() as nat),
            rules_ready(meta.plan(self.patterns.sources_view()).rules),
            covers(names, meta.plan(self.patterns.sources_view()).rules),
        ensures
            forall|oracle: spec_fn(Seq<char>, Value) -> bool| #[trigger]
                answers(predicates, oracle, names) ==> r@ == first_failure(
                    meta.plan(self.patterns.sources_view()).rules,
                    match payload {
                        Some(v) => Some(*v),
                        None => None,
                    },
                    oracle,
                ),
    {
        let ghost sources = self.patterns.sources_view();
        let ghost rules = meta.plan(sources).rules;
        let ghost given = match payload {
            Some(v) => Some(*v),
            None => None,
        };
        let mut i: usize = 0;
        assert(rules.skip(0) =~= rules);
        while i < meta.validation.rules.len()
            invariant
                i <= meta.validation.rules.len(),
                askable(predicates),
                sources == self.patterns.sources_view(),
                rules == meta.plan(sources).rules,
                given == (match payload {
                    Some(v) => Some(*v),
                    None => None,
                }),
                meta.wf(sources.len(), self.records@.len() as nat),
                rules_ready(rules),
                covers(names, rules),
                forall|oracle: spec_fn(Seq<char>, Value) -> bool| #[trigger]
                    answers(predicates, oracle, names) ==> first_failure(rules, given, oracle)
                        == first_failure(rules.skip(i as int), given, oracle),
            decreases meta.validation.rules.len() - i,
        {
            let rule = &meta.validation.rules[i];
            let ghost planned = rules[i as int];
            assert(rules.skip(i as int)[0] == planned);
            assert(rules.skip(i as int).drop_first() =~= rules.skip(i + 1));
            assert(planned == planned_rule(rule@, meta.patterns@[i as int], sources));
            assert(planned.is_check() == rule@.is_check());
            assert(planned.message() == rule@.message());
            let is_check = !matches!(rule, Rule::Deep | Rule::GroupTag(_));
            if is_check {
                let passes = match payload {
                    None => !matches!(rule, Rule::Required(_)),
                    Some(value) => self.holds(
                        rule,
                        meta.patterns[i],
                        value,
                        predicates,
                        Ghost(names),
                    ),
                };
                if !passes {
                    return new_failure(rule.message());
                }
            }
            i += 1;
        }
        ValidationOutcome::Pass
    }

    /// Whether some rule that checks something holds of the value.
    fn some_holds<F: Fn(&str, &Value) -> bool>(
        &self,
        meta: &MetaData,
        value: &Value,
        predicates: &F,
        Ghost(names): Ghost<Set<Seq<char>>>,
    ) -> (r: bool)
        requires
            askable(predicates),
            meta.wf(self.patterns.sources_view().len(), self.records@.len() as nat),
            rules_ready(meta.plan(self.patterns.sources_view()).rules),
            covers(names, meta.plan(self.patterns.sources_view()).rules),
        ensures
            forall|oracle: spec_fn(Seq<char>, Value) -> bool| #[trigger]
                answers(predicates, oracle, names) ==> r == any_holds(
                    meta.plan(self.patterns.sources_view()).rules,
                    *value,
                    oracle,
                ),
    {
        let ghost sources = self.patterns.sources_view();
        let ghost rules = meta.plan(sources).rules;
        let mut i: usize = 0;
        while i < meta.validation.rules.len()
            invariant
                i <= meta.validation.rules.len(),
                askable(predicates),
                sources == self.patterns.sources_view(),
                rules == meta.plan(sources).rules,
                meta.wf(sources.len(), self.records@.len() as nat),
                rules_ready(rules),
                covers(names, rules),
                forall|oracle: spec_fn(Seq<char>, Value) -> bool| #[trigger]
                    answers(predicates, oracle, names) ==> forall|k: int|
                        0 <= k < i ==> !((#[trigger] rules[k]).is_check() && rule_holds(
                            rules[k],
                            *value,
                            oracle,
                        )),
            decreases meta.validation.rules.len() - i,
        {
            let rule = &meta.validation.rules[i];
            let ghost planned = rules[i as int];
            assert(planned == planned_rule(rule@, meta.patterns@[i as int], sources));
            assert(planned.is_check() == rule@.is_check());
            let is_check = !matches!(rule, Rule::Deep | Rule::GroupTag(_));
            if is_check {
                if self.holds(rule, meta.patterns[i], value, predicates, Ghost(names)) {
                    return true;
                }
            }
            i += 1;
        }
        false
    }

    /// What the field's own rules say of its value.
    fn own<F: Fn(&str, &Value) -> bool>(
        &self,
        meta: &MetaData,
        value: &Value,
        predicates: &F,
        Ghost(names): Ghost<Set<Seq<char>>>,
    ) -> (r: ValidationOutcome)
        requires
            askable(predicates),
            meta.wf(self.patterns.sources_view().len(), self.records@.len() as nat),
            rules_ready(meta.plan(self.patterns.sources_view()).rules),
            covers(names, meta.plan(self.patterns.sources_view()).rules),
        ensures
            forall|oracle: spec_fn(Seq<char>, Value) -> bool| #[trigger]
                answers(predicates, oracle, names) ==> r@ == own_outcome(
                    meta.plan(self.patterns.sources_view()),
                    *value,
                    oracle,
                ),
    {
        let payload = value.unwrapped();
        match &meta.validation.message {
            None => self.first_failing(meta, payload, predicates, Ghost(names)),
            Some(message) => {
                let passed = match payload {
                    None => !required_among(&meta.validation.rules),
                    Some(present) => self.some_holds(meta, present, predicates, Ghost(names)),
                };
                proof {
                    let sources = self.patterns.sources_view();
                    let rules = meta.plan(sources).rules;
                    assert forall|i: int| 0 <= i < rules.len() implies (#[trigger] rules[i])
                        is Required == meta.validation.rules@[i]@ is Required by {
                        assert(rules[i] == planned_rule(
                            meta.validation.rules@[i]@,
                            meta.patterns@[i],
                            sources,
                        ));
                    }
                    if has_required(rules) {
                        let i = choose|i: int| 0 <= i < rules.len() && (#[trigger] rules[i]) is Required;
                        assert(rule_views(meta.validation.rules@)[i] is Required);
                    }
                    if has_required(rule_views(meta.validation.rules@)) {
                        let i = choose|i: int|
                            0 <= i < rules.len() && (#[trigger] rule_views(
                                meta.validation.rules@,
                            )[i]) is Required;
                        assert(rules[i] is Required);
                    }
                }
                if passed {
                    ValidationOutcome::Pass
                } else {
                    ValidationOutcome::Fail(message.clone())
                }
            },
        }
    }
}

fn list_contains(list: &Vec<String>, name: &str) -> (r: bool)
    ensures
        r == texts(list@).contains(name@),
{
    let mut i: usize = 0;
    while i < list.len()
        invariant
            i <= list.len(),
            forall|k: int| 0 <= k < i ==> texts(list@)[k] != name@,
        decreases list.len() - i,
    {
        if str_eq(list[i].as_str(), name) {
            assert(texts(list@)[i as int] == name@);
            return true;
        }
        i += 1;
    }
    false
}

/// Whether the field takes part in a check for `group`.
fn field_runs(rules: &Vec<Rule>, group: Option<&str>) -> (r: bool)
    ensures
        r == match group {
            None => true,
            Some(g) => groups_of(rule_views(rules@)).len() == 0 || groups_of(
                rule_views(rules@),
            ).contains(g@),
        },
{
    let g = match group {
        None => {
            return true;
        },
        Some(g) => g,
    };
    let ghost views = rule_views(rules@);
    let mut tagged = false;
    let mut hit = false;
    let mut i: usize = 0;
    assert(groups_of(views.take(0)) =~= Seq::empty());
    while i < rules.len()
        invariant
            i <= rules.len(),
            views == rule_views(rules@),
            tagged == (groups_of(views.take(i as int)).len() > 0),
            hit == groups_of(views.take(i as int)).contains(g@),
        decreases rules.len() - i,
    {
        let ghost before = groups_of(views.take(i as int));
        assert(views.take(i + 1).drop_last() =~= views.take(i as int));
        assert(views.take(i + 1).last() == rules@[i as int]@);
        if let Rule::GroupTag(list) = &rules[i] {
            let found = list_contains(list, g);
            proof {
                let added = texts(list@);
                let after = before + added;
                assert(groups_of(views.take(i + 1)) == after);
                if before.contains(g@) {
                    let k = choose|k: int| 0 <= k < before.len() && before[k] == g@;
                    assert(after[k] == g@);
                }
                if added.contains(g@) {
                    let k = choose|k: int| 0 <= k < added.len() && added[k] == g@;
                    assert(after[before.len() + k] == g@);
                }
                if after.contains(g@) {
                    let k = choose|k: int| 0 <= k < after.len() && after[k] == g@;
                    if k < before.len() {
                        assert(before[k] == g@);
                    } else {
                        assert(added[k - before.len()] == g@);
                    }
                }
            }
            if list.len() > 0 {
                tagged = true;
            }
            if found {
                hit = true;
            }
        }
        i += 1;
    }
    assert(views.take(i as int) =~= views);
    !tagged || hit
}

/// The groups of a field are those of its rules as they were declared:
/// finding the patterns changes no tag.
pub proof fn lemma_groups_kept(
    rules: Seq<Rule>,
    ids: Seq<Option<PatternId>>,
    sources: Seq<Seq<char>>,
)
    ensures
        groups_of(crate::schema::codegen::planned_rules(rules, ids, sources)) == groups_of(
            rule_views(rules),
        ),
    decreases rules.len(),
{
    let planned = crate::schema::codegen::planned_rules(rules, ids, sources);
    let views = rule_views(rules);
    if rules.len() > 0 {
        lemma_groups_kept(rules.drop_last(), ids, sources);
        assert(planned.drop_last() =~= crate::schema::codegen::planned_rules(
            rules.drop_last(),
            ids,
            sources,
        ));
        assert(views.drop_last() =~= rule_views(rules.drop_last()));
    }
}

fn required_among(rules: &Vec<Rule>) -> (r: bool)
    ensures
        r == has_required(rule_views(rules@)),
{
    let mut i: usize = 0;
    while i < rules.len()
        invariant
            i <= rules.len(),
            forall|k: int| 0 <= k < i ==> !((#[trigger] rule_views(rules@)[k]) is Required),
        decreases rules.len() - i,
    {
        if matches!(&rules[i], Rule::Required(_)) {
            assert(rule_views(rules@)[i as int] is Required);
            return true;
        }
        i += 1;
    }
    false
}

impl ValidatorView {
    /// Every predicate that a rule of the validator names is among `names`.
    pub open spec fn covered_by(self, names: Set<Seq<char>>) -> bool {
        forall|r: int, f: int|
            0 <= r < self.records.len() && 0 <= f < self.records[r].fields.len() ==> covers(
                names,
                (#[trigger] self.records[r].fields[f]).rules,
            )
    }

    /// The predicates that the rules name are the predicates that the
    /// rules name.
    pub proof fn lemma_covered(self)
        ensures
            self.covered_by(self.funcs()),
    {
        assert forall|r: int, f: int|
            0 <= r < self.records.len() && 0 <= f < self.records[r].fields.len() implies covers(
            self.funcs(),
            (#[trigger] self.records[r].fields[f]).rules,
        ) by {
            let rules = self.records[r].fields[f].rules;
            assert forall|i: int| 0 <= i < rules.len() implies ((#[trigger] rules[i]) matches RuleView::Func {
                func,
                ..
            } ==> self.funcs().contains(func)) by {
                if rules[i] is Func {
                    let func = rules[i]->Func_func;
                    assert(names_func(self.records[r].fields[f].rules[i], func));
                }
            }
        }
    }
}

impl Validator {
    /// What the validator says of `value` taken as the record at `record`.
    fn run_value<F: Fn(&str, &Value) -> bool>(
        &self,
        record: usize,
        value: &Value,
        predicates: &F,
        Ghost(names): Ghost<Set<Seq<char>>>,
    ) -> (r: ValidationOutcome)
        requires
            askable(predicates),
            self@.ready(),
            self@.covered_by(names),
        ensures
            forall|oracle: spec_fn(Seq<char>, Value) -> bool| #[trigger]
                answers(predicates, oracle, names) ==> r@ == value_outcome(
                    self@,
                    record as int,
                    *value,
                    oracle,
                ),
        decreases value, 0nat, 0nat,
    {
        match value {
            Value::Record(fields) => self.run_fields(record, fields, None, predicates, Ghost(names)),
            _ => ValidationOutcome::Pass,
        }
    }

    /// What the validator says of the fields of the record at `record`.
    fn run_fields<F: Fn(&str, &Value) -> bool>(
        &self,
        record: usize,
        values: &Vec<Value>,
        group: Option<&str>,
        predicates: &F,
        Ghost(names): Ghost<Set<Seq<char>>>,
    ) -> (r: ValidationOutcome)
        requires
            askable(predicates),
            self@.ready(),
            self@.covered_by(names),
        ensures
            forall|oracle: spec_fn(Seq<char>, Value) -> bool| #[trigger]
                answers(predicates, oracle, names) ==> r@ == fields_outcome(
                    self@,
                    record as int,
                    values@,
                    0,
                    match group {
                        Some(g) => Some(g@),
                        None => None,
                    },
                    oracle,
                ),
        decreases values@, 2nat, 0nat,
    {
        proof {
            use_type_invariant(self);
        }
        if record >= self.records.len() {
            return ValidationOutcome::Pass;
        }
        let fields = &self.records[record].fields;
        let ghost sources = self.patterns.sources_view();
        let ghost asked = match group {
            Some(g) => Some(g@),
            None => None,
        };
        let mut i: usize = 0;
        while i < fields.len()
            invariant
                i <= fields.len(),
                record < self.records@.len(),
                fields == &self.records@[record as int].fields,
                self.wf(),
                askable(predicates),
                self@.ready(),
                self@.covered_by(names),
                sources == self.patterns.sources_view(),
                asked == (match group {
                    Some(g) => Some(g@),
                    None => None,
                }),
                forall|oracle: spec_fn(Seq<char>, Value) -> bool| #[trigger]
                    answers(predicates, oracle, names) ==> fields_outcome(
                        self@,
                        record as int,
                        values@,
                        0,
                        asked,
                        oracle,
                    ) == fields_outcome(self@, record as int, values@, i as int, asked, oracle),
            decreases fields.len() - i,
        {
            let meta = &fields[i];
            proof {
                assert(self.records@[record as int].wf(sources.len(), self.records@.len() as nat));
                assert(meta.wf(sources.len(), self.records@.len() as nat));
                assert(self@.records[record as int].fields[i as int] == meta.plan(sources));
                lemma_groups_kept(meta.validation.rules@, meta.patterns@, sources);
            }
            if field_runs(&meta.validation.rules, group) {
                let out = if i < values.len() {
                    self.run_field(meta, &values[i], predicates, Ghost(names))
                } else {
                    self.own(meta, &Value::Absent, predicates, Ghost(names))
                };
                if !out.is_pass() {
                    return out;
                }
            }
            i += 1;
        }
        ValidationOutcome::Pass
    }

    /// What the validator says of one field.
    #[verifier::loop_isolation(false)]
    fn run_field<F: Fn(&str, &Value) -> bool>(
        &self,
        meta: &MetaData,
        value: &Value,
        predicates: &F,
        Ghost(names): Ghost<Set<Seq<char>>>,
    ) -> (r: ValidationOutcome)
        requires
            askable(predicates),
            self@.ready(),
            self@.covered_by(names),
            meta.wf(self.patterns.sources_view().len(), self.records@.len() as nat),
            rules_ready(meta.plan(self.patterns.sources_view()).rules),
            covers(names, meta.plan(self.patterns.sources_view()).rules),
        ensures
            forall|oracle: spec_fn(Seq<char>, Value) -> bool| #[trigger]
                answers(predicates, oracle, names) ==> r@ == field_outcome(
                    self@,
                    meta.plan(self.patterns.sources_view()),
                    *value,
                    oracle,
                ),
        decreases value, 1nat, 0nat,
    {
        let out = self.own(meta, value, predicates, Ghost(names));
        if !out.is_pass() {
            return out;
        }
        match meta.nested {
            None => ValidationOutcome::Pass,
            Some((shape, record)) => match shape {
                NestedShape::Direct => self.run_value(record, value, predicates, Ghost(names)),
                NestedShape::Optional => match value {
                    Value::Present(inner) => self.run_value(record, inner, predicates, Ghost(names)),
                    _ => ValidationOutcome::Pass,
                },
                NestedShape::Collection => match value {
                    Value::List(items) => {
                        let mut k: usize = 0;
                        while k < items.len()
                            invariant
                                k <= items.len(),
                                value == Value::List(*items),
                                askable(predicates),
                                self@.ready(),
                                self@.covered_by(names),
                                forall|oracle: spec_fn(Seq<char>, Value) -> bool| #[trigger]
                                    answers(predicates, oracle, names) ==> items_outcome(
                                        self@,
                                        record as int,
                                        items@,
                                        0,
                                        oracle,
                                    ) == items_outcome(
                                        self@,
                                        record as int,
                                        items@,
                                        k as int,
                                        oracle,
                                    ),
                            decreases items.len() - k,
                        {
                            proof {
                                assert(decreases_to!(*items => items[k as int]));
                                assert(decreases_to!(*value => *items));
                            }
                            let item = self.run_value(record, &items[k], predicates, Ghost(names));
                            if !item.is_pass() {
                                return item;
                            }
                            k += 1;
                        }
                        ValidationOutcome::Pass
                    },
                    _ => ValidationOutcome::Pass,
                },
            },
        }
    }
}

impl Validator {
    /// Whether every pattern that the field's rules use compiles.
    fn field_ready(&self, meta: &MetaData) -> (r: bool)
        requires
            meta.wf(self.patterns.sources_view().len(), self.records@.len() as nat),
        ensures
            r == rules_ready(meta.plan(self.patterns.sources_view()).rules),
    {
        let ghost sources = self.patterns.sources_view();
        let ghost rules = meta.plan(sources).rules;
        proof {
            self.patterns.lemma_lengths();
        }
        let mut i: usize = 0;
        while i < meta.patterns.len()
            invariant
                i <= meta.patterns.len(),
                sources == self.patterns.sources_view(),
                sources.len() == self.patterns.names_view().len(),
                rules == meta.plan(sources).rules,
                meta.wf(sources.len(), self.records@.len() as nat),
                forall|k: int|
                    0 <= k < i ==> ((#[trigger] rules[k]) matches RuleView::Regex { pattern, .. }
                        ==> pattern_compiles(pattern)),
            decreases meta.patterns.len() - i,
        {
            assert(rules[i as int] == planned_rule(
                meta.validation.rules@[i as int]@,
                meta.patterns@[i as int],
                sources,
            ));
            if let Rule::Regex(_) = &meta.validation.rules[i] {
                if let Some(id) = meta.patterns[i] {
                    if self.patterns.try_regex(id).is_none() {
                        return false;
                    }
                }
            }
            i += 1;
        }
        true
    }

    /// Whether every pattern that the rules of the validator use compiles.
    /// Each is compiled now, if it never was.
    #[verifier::loop_isolation(false)]
    pub fn is_ready(&self) -> (r: bool)
        ensures
            r == self@.ready(),
    {
        proof {
            use_type_invariant(self);
        }
        let ghost sources = self.patterns.sources_view();
        let mut r: usize = 0;
        while r < self.records.len()
            invariant
                r <= self.records.len(),
                forall|a: int, f: int|
                    0 <= a < r && 0 <= f < self@.records[a].fields.len() ==> rules_ready(
                        (#[trigger] self@.records[a].fields[f]).rules,
                    ),
            decreases self.records.len() - r,
        {
            let fields = &self.records[r].fields;
            assert(self.records@[r as int].wf(sources.len(), self.records@.len() as nat));
            let mut f: usize = 0;
            while f < fields.len()
                invariant
                    f <= fields.len(),
                    forall|b: int|
                        0 <= b < f ==> rules_ready(
                            (#[trigger] self@.records[r as int].fields[b]).rules,
                        ),
                decreases fields.len() - f,
            {
                assert(fields@[f as int].wf(sources.len(), self.records@.len() as nat));
                assert(self@.records[r as int].fields[f as int] == fields@[f as int].plan(sources));
                if !self.field_ready(&fields[f]) {
                    return false;
                }
                f += 1;
            }
            r += 1;
        }
        true
    }

    /// Checks every field of a record: the values of the fields of the
    /// record at `record`, in the order of declaration.
    ///
    /// The outcome is the failure of the first field that fails, or a pass.
    /// A field fails as its own rules say, or as the first record within it
    /// that fails. A record that the validator does not know passes.
    ///
    /// The patterns that the rules use have to compile; `try_check` is for
    /// the caller who does not know.
    pub fn check<F: Fn(&str, &Value) -> bool>(
        &self,
        record: usize,
        fields: &Vec<Value>,
        predicates: &F,
    ) -> (r: ValidationOutcome)
        requires
            askable(predicates),
            self@.ready(),
        ensures
            forall|oracle: spec_fn(Seq<char>, Value) -> bool| #[trigger]
                answers(predicates, oracle, self@.funcs()) ==> r@ == fields_outcome(
                    self@,
                    record as int,
                    fields@,
                    0,
                    None,
                    oracle,
                ),
    {
        proof {
            self@.lemma_covered();
        }
        self.run_fields(record, fields, None, predicates, Ghost(self@.funcs()))
    }

    /// Checks the fields of a record that take part in a check for
    /// `group`: those tagged with the group and those tagged with none.
    /// The other fields are passed over; the records within a field are
    /// checked whole.
    pub fn check_group<F: Fn(&str, &Value) -> bool>(
        &self,
        record: usize,
        fields: &Vec<Value>,
        group: &str,
        predicates: &F,
    ) -> (r: ValidationOutcome)
        requires
            askable(predicates),
            self@.ready(),
        ensures
            forall|oracle: spec_fn(Seq<char>, Value) -> bool| #[trigger]
                answers(predicates, oracle, self@.funcs()) ==> r@ == fields_outcome(
                    self@,
                    record as int,
                    fields@,
                    0,
                    Some(group@),
                    oracle,
                ),
    {
        proof {
            self@.lemma_covered();
        }
        self.run_fields(record, fields, Some(group), predicates, Ghost(self@.funcs()))
    }

    /// As `check`, for the caller who does not know whether the patterns
    /// compile: nothing is checked, and nothing returned, if one does not.
    pub fn try_check<F: Fn(&str, &Value) -> bool>(
        &self,
        record: usize,
        fields: &Vec<Value>,
        predicates: &F,
    ) -> (r: Option<ValidationOutcome>)
        requires
            askable(predicates),
        ensures
            r is Some == self@.ready(),
            r matches Some(out) ==> forall|oracle: spec_fn(Seq<char>, Value) -> bool| #[trigger]
                answers(predicates, oracle, self@.funcs()) ==> out@ == fields_outcome(
                    self@,
                    record as int,
                    fields@,
                    0,
                    None,
                    oracle,
                ),
    {
        if self.is_ready() {
            Some(self.check(record, fields, predicates))
        } else {
            None
        }
    }

    /// As `check_group`, for the caller who does not know whether the
    /// patterns compile.
    pub fn try_check_group<F: Fn(&str, &Value) -> bool>(
        &self,
        record: usize,
        fields: &Vec<Value>,
        group: &str,
        predicates: &F,
    ) -> (r: Option<ValidationOutcome>)
        requires
            askable(predicates),
        ensures
            r is Some == self@.ready(),
            r matches Some(out) ==> forall|oracle: spec_fn(Seq<char>, Value) -> bool| #[trigger]
                answers(predicates, oracle, self@.funcs()) ==> out@ == fields_outcome(
                    self@,
                    record as int,
                    fields@,
                    0,
                    Some(group@),
                    oracle,
                ),
    {
        if self.is_ready() {
            Some(self.check_group(record, fields, group, predicates))
        } else {
            None
        }
    }
}

} // verus!
