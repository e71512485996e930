//! What can be wrong with a schema.

use vstd::prelude::*;

verus! {

/// The kinds of rule.
#[derive(Debug, Clone, Copy, PartialEq, Eq, Structural)]
pub enum RuleKind {
    NotBlank,
    NotEmpty,
    NoSpace,
    Regex,
    Range,
    Size,
    Within,
    Exclude,
    Required,
    Func,
    Deep,
    GroupTag,
}

/// The ways in which a schema is refused.
#[derive(Debug, Clone, Copy, PartialEq, Eq, Structural)]
pub enum SchemaErrorKind {
    /// The rule cannot be checked on a field of this type.
    IncompatibleRule,
    /// A value listed by the rule is not of the field's category.
    MismatchedValue,
    /// Neither the field nor the rule has a message.
    MissingMessage,
    /// Both the field and the rule have a message.
    ConflictingMessage,
    /// The attribute holds a key that it does not know.
    UnexpectedArgument,
    /// The attribute lacks an argument that it cannot do without.
    MissingArgument,
    /// An argument's value is not of the form that its key asks for.
    InvalidArgument,
    /// The list of groups is not a list of paths.
    MalformedGroup,
    /// The text of a pattern stands where a compiled pattern is asked for.
    PatternText,
    /// The rule names a pattern that the registry does not hold.
    UnknownPattern,
    /// The field's type names a record that is not part of the schema.
    UnknownRecord,
    /// A named pattern is not given as a string literal.
    NotStringLiteral,
    /// Two patterns have the same name.
    DuplicateName,
    /// The field has no name.
    UnnamedField,
    /// The item is a struct whose fields have no names.
    TupleStruct,
    /// The item is a struct without fields.
    UnitStruct,
    /// The item is an enum.
    EnumItem,
    /// The item is a union.
    UnionItem,
}

/// Why a schema is refused: the kind of fault, the field it was found on and
/// the rule it was found in. A fault of the item as a whole names no field
/// and no rule.
#[derive(Debug)]
pub struct SchemaError {
    pub kind: SchemaErrorKind,
    pub field: String,
    pub rule: Option<RuleKind>,
}

impl SchemaError {
    /// Whether the error is of `kind`, on the field `field`, in `rule`.
    pub open spec fn is(self, kind: SchemaErrorKind, field: Seq<char>, rule: Option<RuleKind>) -> bool {
        &&& self.kind == kind
        &&& self.field@ == field
        &&& self.rule == rule
    }

    /// An error of `kind` on the field `field`, in `rule`.
    pub fn new(kind: SchemaErrorKind, field: &str, rule: Option<RuleKind>) -> (e: SchemaError)
        ensures
            e.is(kind, field@, rule),
    {
        SchemaError { kind, field: field.to_owned(), rule }
    }

    /// An error of the item as a whole: it names no field and no rule.
    pub fn of_item(kind: SchemaErrorKind) -> (e: SchemaError)
        ensures
            e.is(kind, Seq::empty(), None),
    {
        SchemaError { kind, field: String::new(), rule: None }
    }
}

} // verus!
