//! The category of a type that takes no type argument.

use vstd::prelude::*;
use crate::schema::declared::DeclaredType;
use crate::text::str_eq;

verus! {

/// What a type without type arguments is, as far as the rules care.
#[derive(Debug, Clone, Copy, PartialEq, Eq, Structural)]
pub enum BasicValidationType {
    String,
    Integer,
    Float,
    Boolean,
    Decimal,
    DateTime,
    CustomStruct,
    Enum,
    Unsupported,
}

/// The names of the integer types.
pub open spec fn is_integer_name(name: Seq<char>) -> bool {
    ||| name == "i8"@
    ||| name == "i16"@
    ||| name == "i32"@
    ||| name == "i64"@
    ||| name == "i128"@
    ||| name == "isize"@
    ||| name == "u8"@
    ||| name == "u16"@
    ||| name == "u32"@
    ||| name == "u64"@
    ||| name == "u128"@
    ||| name == "usize"@
}

/// The names of the floating-point types.
pub open spec fn is_float_name(name: Seq<char>) -> bool {
    name == "f32"@ || name == "f64"@
}

/// The names of the date and time types.
pub open spec fn is_temporal_name(name: Seq<char>) -> bool {
    name == "DateTime"@ || name == "NaiveDateTime"@ || name == "NaiveDate"@
}

/// The names that the table of built-in types gives a category.
pub open spec fn is_builtin_name(name: Seq<char>) -> bool {
    ||| name == "String"@
    ||| is_integer_name(name)
    ||| is_float_name(name)
    ||| name == "bool"@
    ||| name == "Decimal"@
    ||| is_temporal_name(name)
}

/// The names of the wrappers, which take type arguments.
pub open spec fn is_wrapper_name(name: Seq<char>) -> bool {
    name == "Vec"@ || name == "Option"@ || name == "HashSet"@ || name == "HashMap"@
}

/// The crates and libraries whose types are never records of the caller's.
pub open spec fn is_foreign_root(name: Seq<char>) -> bool {
    ||| name == "std"@
    ||| name == "core"@
    ||| name == "alloc"@
    ||| name == "chrono"@
    ||| name == "rust_decimal"@
}

/// A path names a record of the caller's when it does not start in a foreign
/// library and does not end in a name that is taken.
pub open spec fn is_custom_path(first: Seq<char>, last: Seq<char>) -> bool {
    !is_foreign_root(first) && !is_builtin_name(last) && !is_wrapper_name(last)
}

/// The category of a declared type, read as a type without arguments.
pub open spec fn basic_category(ty: DeclaredType) -> BasicValidationType {
    if !ty.is_named() {
        BasicValidationType::Unsupported
    } else {
        let last = ty.last_name();
        if last == "String"@ {
            BasicValidationType::String
        } else if is_integer_name(last) {
            BasicValidationType::Integer
        } else if is_float_name(last) {
            BasicValidationType::Float
        } else if last == "bool"@ {
            BasicValidationType::Boolean
        } else if last == "Decimal"@ {
            BasicValidationType::Decimal
        } else if is_temporal_name(last) {
            BasicValidationType::DateTime
        } else if is_custom_path(ty.first_name(), last) {
            BasicValidationType::CustomStruct
        } else {
            BasicValidationType::Unsupported
        }
    }
}

fn integer_name(name: &str) -> (r: bool)
    ensures
        r == is_integer_name(name@),
{
    str_eq(name, "i8") || str_eq(name, "i16") || str_eq(name, "i32") || str_eq(name, "i64")
        || str_eq(name, "i128") || str_eq(name, "isize") || str_eq(name, "u8") || str_eq(
        name,
        "u16",
    ) || str_eq(name, "u32") || str_eq(name, "u64") || str_eq(name, "u128") || str_eq(
        name,
        "usize",
    )
}

fn float_name(name: &str) -> (r: bool)
    ensures
        r == is_float_name(name@),
{
    str_eq(name, "f32") || str_eq(name, "f64")
}

fn temporal_name(name: &str) -> (r: bool)
    ensures
        r == is_temporal_name(name@),
{
    str_eq(name, "DateTime") || str_eq(name, "NaiveDateTime") || str_eq(name, "NaiveDate")
}

fn builtin_name(name: &str) -> (r: bool)
    ensures
        r == is_builtin_name(name@),
{
    str_eq(name, "String") || integer_name(name) || float_name(name) || str_eq(name, "bool")
        || str_eq(name, "Decimal") || temporal_name(name)
}

fn wrapper_name(name: &str) -> (r: bool)
    ensures
        r == is_wrapper_name(name@),
{
    str_eq(name, "Vec") || str_eq(name, "Option") || str_eq(name, "HashSet") || str_eq(
        name,
        "HashMap",
    )
}

fn foreign_root(name: &str) -> (r: bool)
    ensures
        r == is_foreign_root(name@),
{
    str_eq(name, "std") || str_eq(name, "core") || str_eq(name, "alloc") || str_eq(
        name,
        "chrono",
    ) || str_eq(name, "rust_decimal")
}

impl BasicValidationType {
    /// Classifies a type by the name of its last segment. A name that the
    /// table does not know is a record of the caller's, unless the path
    /// starts in a foreign library or the name belongs to a wrapper.
    pub fn from_type(ty: &DeclaredType) -> (r: BasicValidationType)
        ensures
            r == basic_category(*ty),
            r != BasicValidationType::Enum,
    {
        match ty {
            DeclaredType::Path { segments, .. } => {
                let n = segments.len();
                if n == 0 {
                    return BasicValidationType::Unsupported;
                }
                let last = segments[n - 1].as_str();
                if str_eq(last, "String") {
                    BasicValidationType::String
                } else if integer_name(last) {
                    BasicValidationType::Integer
                } else if float_name(last) {
                    BasicValidationType::Float
                } else if str_eq(last, "bool") {
                    BasicValidationType::Boolean
                } else if str_eq(last, "Decimal") {
                    BasicValidationType::Decimal
                } else if temporal_name(last) {
                    BasicValidationType::DateTime
                } else if Self::is_custom_type(segments) {
                    BasicValidationType::CustomStruct
                } else {
                    BasicValidationType::Unsupported
                }
            },
            DeclaredType::Other => BasicValidationType::Unsupported,
        }
    }

    fn is_custom_type(segments: &Vec<String>) -> (r: bool)
        requires
            segments.len() > 0,
        ensures
            r == is_custom_path(segments[0]@, segments[segments.len() - 1]@),
    {
        let first = segments[0].as_str();
        let last = segments[segments.len() - 1].as_str();
        !foreign_root(first) && !builtin_name(last) && !wrapper_name(last)
    }

    /// Whether values of this category are ordered, so that a range applies.
    pub open spec fn spec_supports_range(&self) -> bool {
        ||| *self == BasicValidationType::Integer
        ||| *self == BasicValidationType::Float
        ||| *self == BasicValidationType::Decimal
        ||| *self == BasicValidationType::DateTime
    }

    /// Whether values of this category are ordered, so that a range applies.
    #[verifier::when_used_as_spec(spec_supports_range)]
    pub fn supports_range(&self) -> (r: bool)
        ensures
            r == self.spec_supports_range(),
    {
        matches!(
            self,
            BasicValidationType::Integer | BasicValidationType::Float
                | BasicValidationType::Decimal | BasicValidationType::DateTime
        )
    }

    pub open spec fn spec_is_string(&self) -> bool {
        *self == BasicValidationType::String
    }

    /// Whether this is the category of text.
    #[verifier::when_used_as_spec(spec_is_string)]
    pub fn is_string(&self) -> (r: bool)
        ensures
            r == self.spec_is_string(),
    {
        matches!(self, BasicValidationType::String)
    }

    pub open spec fn spec_is_collection_compatible(&self) -> bool {
        *self != BasicValidationType::Unsupported
    }

    /// Whether a collection may hold values of this category.
    #[verifier::when_used_as_spec(spec_is_collection_compatible)]
    pub fn is_collection_compatible(&self) -> (r: bool)
        ensures
            r == self.spec_is_collection_compatible(),
    {
        !matches!(self, BasicValidationType::Unsupported)
    }

    pub open spec fn spec_supports_within_exclude(&self) -> bool {
        *self != BasicValidationType::Unsupported
    }

    /// Whether values of this category can be told equal to listed values.
    #[verifier::when_used_as_spec(spec_supports_within_exclude)]
    pub fn supports_within_exclude(&self) -> (r: bool)
        ensures
            r == self.spec_supports_within_exclude(),
    {
        !matches!(self, BasicValidationType::Unsupported)
    }
}

} // verus!
