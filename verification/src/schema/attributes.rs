//! The attributes of an item as they reach the schema compiler: already
//! parsed, whatever syntax they were written in.

use vstd::prelude::*;
use crate::schema::declared::DeclaredType;
use crate::schema::error::SchemaError;
use crate::schema::error::SchemaErrorKind;
use crate::schema::field_meta::Fault;
use crate::schema::field_meta::parse_field_attributes;
use crate::schema::field_meta::parsed_field;
use crate::schema::metadata::FieldValidation;
use crate::schema::metadata::FieldView;
use crate::schema::value::Value;
use crate::seqs::reversed;

verus! {

/// The value of an argument.
pub enum ArgValue {
    /// A literal: text, a number, a boolean.
    Literal(Value),
    /// An expression that is no literal, as it was written: a path, a call.
    Expr(String),
    /// A bracketed list of values.
    Array(Vec<ArgValue>),
}

/// One argument of an attribute: `key = value`.
pub struct MetaArg {
    pub key: String,
    pub value: ArgValue,
}

/// What follows the name of an attribute.
pub enum AttributeArgs {
    /// Nothing: `#[deep]`.
    Empty,
    /// One value: `#[message("...")]`.
    Single(ArgValue),
    /// A list of arguments: `#[range(min = 1, max = 9)]`.
    List(Vec<MetaArg>),
}

/// One attribute of a field.
pub struct Attribute {
    pub name: String,
    pub args: AttributeArgs,
}

/// One field of an item: its name, if it has one, its declared type and its
/// attributes in the order in which they were written.
pub struct Field {
    pub ident: Option<String>,
    pub ty: DeclaredType,
    pub attrs: Vec<Attribute>,
}

impl Field {
    /// The field's name; empty where it has none.
    pub open spec fn name_text(self) -> Seq<char> {
        match self.ident {
            Some(name) => name@,
            None => Seq::empty(),
        }
    }
}

/// The fields of a struct.
pub enum Fields {
    Named(Vec<Field>),
    Unnamed,
    Unit,
}

/// What kind of item it is.
pub enum Data {
    Struct(Fields),
    Enum,
    Union,
}

/// The item that a validator is derived for.
pub struct DeriveInput {
    pub ident: String,
    pub data: Data,
}

/// The fault of the item as a whole, if it has one: only a struct with named
/// fields can be validated.
pub open spec fn item_fault(data: Data) -> Option<SchemaErrorKind> {
    match data {
        Data::Struct(Fields::Named(_)) => None,
        Data::Struct(Fields::Unnamed) => Some(SchemaErrorKind::TupleStruct),
        Data::Struct(Fields::Unit) => Some(SchemaErrorKind::UnitStruct),
        Data::Enum => Some(SchemaErrorKind::EnumItem),
        Data::Union => Some(SchemaErrorKind::UnionItem),
    }
}

/// The fields of a struct with named fields; of any other item, none.
pub open spec fn named_fields(data: Data) -> Seq<Field> {
    match data {
        Data::Struct(Fields::Named(fields)) => fields@,
        _ => Seq::empty(),
    }
}

/// The views of a list of descriptions.
pub open spec fn field_views(fields: Seq<FieldValidation>) -> Seq<FieldView> {
    Seq::new(fields.len(), |i: int| fields[i]@)
}

/// A fault together with the name of the field it was found on.
pub struct FieldFault {
    pub field: Seq<char>,
    pub fault: Fault,
}

/// The descriptions of `fields`, one after the other and behind `acc`, or
/// the fault of the first field whose attributes cannot be read.
pub open spec fn parsed_from(fields: Seq<Field>, acc: Seq<FieldView>) -> Result<
    Seq<FieldView>,
    FieldFault,
>
    decreases fields.len(),
{
    if fields.len() == 0 {
        Ok(acc)
    } else {
        match parsed_field(fields[0]) {
            Ok(view) => parsed_from(fields.drop_first(), acc.push(view)),
            Err(fault) => Err(FieldFault { field: fields[0].name_text(), fault }),
        }
    }
}

/// The descriptions of an item's fields, or what is wrong with it: only a
/// struct with named fields can be validated.
pub open spec fn parsed_item(data: Data) -> Result<Seq<FieldView>, FieldFault> {
    match item_fault(data) {
        Some(kind) => Err(FieldFault { field: Seq::empty(), fault: Fault { kind, rule: None } }),
        None => parsed_from(named_fields(data), Seq::empty()),
    }
}

/// Reads the attributes of every field of a struct with named fields.
///
/// Succeeds if the item is such a struct and the attributes of each field
/// can be read; the descriptions then stand in the order of the fields.
/// Otherwise the error is that of the item, or that of the first field
/// whose attributes cannot be read.
pub fn parse_struct_attributes(input: DeriveInput) -> (r: Result<Vec<FieldValidation>, SchemaError>)
    ensures
        match r {
            Ok(out) => parsed_item(input.data) == Ok::<Seq<FieldView>, FieldFault>(
                field_views(out@),
            ),
            Err(e) => parsed_item(input.data) matches Err(at) && e.is(
                at.fault.kind,
                at.field,
                at.fault.rule,
            ),
        },
{
    let fields = match input.data {
        Data::Struct(Fields::Named(fields)) => fields,
        Data::Struct(Fields::Unnamed) => {
            return Err(SchemaError::of_item(SchemaErrorKind::TupleStruct));
        },
        Data::Struct(Fields::Unit) => {
            return Err(SchemaError::of_item(SchemaErrorKind::UnitStruct));
        },
        Data::Enum => {
            return Err(SchemaError::of_item(SchemaErrorKind::EnumItem));
        },
        Data::Union => {
            return Err(SchemaError::of_item(SchemaErrorKind::UnionItem));
        },
    };
    let ghost all = fields@;
    // The fields are taken from the back, so they are turned round first.
    let mut pending = reversed(fields);
    let mut out: Vec<FieldValidation> = Vec::new();
    assert(field_views(out@) =~= Seq::empty());
    assert(all.skip(0) =~= all);
    while pending.len() > 0
        invariant
            item_fault(input.data) is None,
            named_fields(input.data) == all,
            pending@.len() <= all.len(),
            forall|j: int|
                0 <= j < pending@.len() ==> #[trigger] pending@[j] == all[all.len() - 1 - j],
            parsed_from(all, Seq::empty()) == parsed_from(
                all.skip(all.len() - pending@.len()),
                field_views(out@),
            ),
        decreases pending.len(),
    {
        let ghost at = all.len() - pending@.len();
        assert(pending@[pending@.len() - 1] == all[at]);
        assert(all.skip(at)[0] == all[at]);
        assert(all.skip(at).drop_first() =~= all.skip(at + 1));
        let field = pending.pop();
        if let Some(field) = field {
            match parse_field_attributes(field) {
                Ok(validation) => {
                    let ghost before = field_views(out@);
                    out.push(validation);
                    assert(field_views(out@) =~= before.push(validation@));
                },
                Err(e) => {
                    return Err(e);
                },
            }
        }
    }
    Ok(out)
}

} // verus!
