//! Which checks a type admits, judged by the name of the type alone.
//!
//! The name is that of the last segment of the type's path. For a reference,
//! an array or a wrapper, look at the inner type first.

use vstd::prelude::*;
use crate::schema::basic_types::is_float_name;
use crate::schema::basic_types::is_integer_name;
use crate::text::str_eq;

verus! {

/// The names of the types whose values lie in an order: the numbers, `char`
/// and `Decimal`.
pub open spec fn is_range_name(ident: Seq<char>) -> bool {
    ||| is_integer_name(ident)
    ||| is_float_name(ident)
    ||| ident == "char"@
    ||| ident == "Decimal"@
}

/// The names of the string types.
pub open spec fn is_string_like(ident: Seq<char>) -> bool {
    ident == "str"@ || ident == "String"@ || ident == "Cow"@
}

/// The names of the types that have a length: strings and containers.
pub open spec fn is_len_name(ident: Seq<char>) -> bool {
    ||| is_string_like(ident)
    ||| ident == "Vec"@
    ||| ident == "VecDeque"@
    ||| ident == "LinkedList"@
    ||| ident == "BinaryHeap"@
    ||| ident == "HashMap"@
    ||| ident == "HashSet"@
    ||| ident == "BTreeMap"@
    ||| ident == "BTreeSet"@
    ||| ident == "SmallVec"@
    ||| ident == "IndexMap"@
    ||| ident == "IndexSet"@
}

fn string_like(ident: &str) -> (r: bool)
    ensures
        r == is_string_like(ident@),
{
    str_eq(ident, "str") || str_eq(ident, "String") || str_eq(ident, "Cow")
}

/// Whether a range can be checked on a type of this name.
pub fn range_able(ident: &str) -> (r: bool)
    ensures
        r == is_range_name(ident@),
{
    str_eq(ident, "i8") || str_eq(ident, "i16") || str_eq(ident, "i32") || str_eq(ident, "i64")
        || str_eq(ident, "i128") || str_eq(ident, "isize") || str_eq(ident, "u8") || str_eq(
        ident,
        "u16",
    ) || str_eq(ident, "u32") || str_eq(ident, "u64") || str_eq(ident, "u128") || str_eq(
        ident,
        "usize",
    ) || str_eq(ident, "f32") || str_eq(ident, "f64") || str_eq(ident, "char") || str_eq(
        ident,
        "Decimal",
    )
}

/// Whether a type of this name has a length.
pub fn len_able(ident: &str) -> (r: bool)
    ensures
        r == is_len_name(ident@),
{
    string_like(ident) || str_eq(ident, "Vec") || str_eq(ident, "VecDeque") || str_eq(
        ident,
        "LinkedList",
    ) || str_eq(ident, "BinaryHeap") || str_eq(ident, "HashMap") || str_eq(ident, "HashSet")
        || str_eq(ident, "BTreeMap") || str_eq(ident, "BTreeSet") || str_eq(ident, "SmallVec")
        || str_eq(ident, "IndexMap") || str_eq(ident, "IndexSet")
}

/// Whether a type of this name can be checked for white space: the string
/// types and `char`.
pub fn no_space(ident: &str) -> (r: bool)
    ensures
        r == (is_string_like(ident@) || ident@ == "char"@),
{
    string_like(ident) || str_eq(ident, "char")
}

/// Whether a type of this name can be checked for emptiness: whatever has a
/// length.
pub fn not_empty_able(ident: &str) -> (r: bool)
    ensures
        r == is_len_name(ident@),
{
    len_able(ident)
}

/// Whether a type of this name can be checked for blankness: the string
/// types.
pub fn not_blank_able(ident: &str) -> (r: bool)
    ensures
        r == is_string_like(ident@),
{
    string_like(ident)
}

/// Whether a type of this name can be matched against a pattern: the string
/// types.
pub fn regex_able(ident: &str) -> (r: bool)
    ensures
        r == is_string_like(ident@),
{
    string_like(ident)
}

} // verus!
