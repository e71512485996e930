//! A record together with the validator that checks it.

use vstd::prelude::*;
use crate::schema::check::answers;
use crate::schema::check::askable;
use crate::schema::codegen::Validator;
use crate::schema::semantics::fields_outcome;
use crate::schema::value::Value;
use crate::validation::Validate;

verus! {

/// The values of a record's fields, bound to the validator that knows the
/// record and to the predicates that its rules name. The patterns that the
/// validator uses compile: a record is bound only if they do.
pub struct BoundRecord<'a, F: Fn(&str, &Value) -> bool> {
    validator: &'a Validator,
    record: usize,
    fields: Vec<Value>,
    predicates: F,
}

/// Whether `r` is the result for the outcome `outcome`: `Ok(true)` for a
/// pass, the message as the error of a failure.
pub open spec fn result_of(outcome: Option<Seq<char>>, r: Result<bool, String>) -> bool {
    match outcome {
        None => r == Ok::<bool, String>(true),
        Some(message) => r matches Err(m) && m@ == message,
    }
}

impl<'a, F: Fn(&str, &Value) -> bool> BoundRecord<'a, F> {
    #[verifier::type_invariant]
    spec fn usable(self) -> bool {
        askable(&self.predicates) && self.validator@.ready()
    }

    /// What the validator says of the record: in a check for `group`, or in
    /// a check of every field.
    pub closed spec fn outcome(
        &self,
        group: Option<Seq<char>>,
        oracle: spec_fn(Seq<char>, Value) -> bool,
    ) -> Option<Seq<char>> {
        fields_outcome(self.validator@, self.record as int, self.fields@, 0, group, oracle)
    }

    /// The predicates bound to the record answer as `oracle` does.
    pub closed spec fn answered_by(&self, oracle: spec_fn(Seq<char>, Value) -> bool) -> bool {
        answers(&self.predicates, oracle, self.validator@.funcs())
    }
}

impl Validator {
    /// Binds the values of the fields of the record at `record` to this
    /// validator and to the predicates. Nothing is bound if a pattern that
    /// the validator uses does not compile.
    pub fn bind<'a, F: Fn(&str, &Value) -> bool>(
        &'a self,
        record: usize,
        fields: Vec<Value>,
        predicates: F,
    ) -> (r: Option<BoundRecord<'a, F>>)
        requires
            askable(&predicates),
        ensures
            r is Some == self@.ready(),
            r matches Some(bound) ==> forall|
                group: Option<Seq<char>>,
                oracle: spec_fn(Seq<char>, Value) -> bool,
            |
                {
                    &&& #[trigger] bound.outcome(group, oracle) == fields_outcome(
                        self@,
                        record as int,
                        fields@,
                        0,
                        group,
                        oracle,
                    )
                    &&& bound.answered_by(oracle) == answers(&predicates, oracle, self@.funcs())
                },
    {
        if self.is_ready() {
            Some(BoundRecord { validator: self, record, fields, predicates })
        } else {
            None
        }
    }
}

impl<'a, F: Fn(&str, &Value) -> bool> Validate for BoundRecord<'a, F> {
    type Group = String;

    /// Checks every field of the record.
    fn check(&self) -> (r: Result<bool, String>)
        ensures
            forall|oracle: spec_fn(Seq<char>, Value) -> bool| #[trigger]
                self.answered_by(oracle) ==> result_of(self.outcome(None, oracle), r),
    {
        proof {
            use_type_invariant(self);
        }
        self.validator.check(self.record, &self.fields, &self.predicates).into_result()
    }

    /// Checks the fields of the record that belong to `group`.
    fn check_group(&self, group: String) -> (r: Result<bool, String>)
        ensures
            forall|oracle: spec_fn(Seq<char>, Value) -> bool| #[trigger]
                self.answered_by(oracle) ==> result_of(self.outcome(Some(group@), oracle), r),
    {
        proof {
            use_type_invariant(self);
        }
        self.validator.check_group(
            self.record,
            &self.fields,
            group.as_str(),
            &self.predicates,
        ).into_result()
    }
}

} // verus!
