//! The checks as plain questions: each answers yes or no and has no
//! message.

use std::collections::HashMap;
use std::collections::HashSet;
use vstd::prelude::*;
use vstd::std_specs::cmp::PartialEqSpec;
use vstd::std_specs::cmp::PartialOrdIs;
use vstd::std_specs::cmp::PartialOrdSpec;
use vstd::std_specs::hash::obeys_key_model;
use crate::matcher::regex_is_match;
use crate::matcher::regex_accepts;
use crate::text::all_whitespace;
use crate::text::char_count;
use crate::text::contains_whitespace;
use crate::text::has_space;
use crate::text::is_blank;
use crate::validation::helpers::listed;

verus! {

/// The questions.
#[derive(Debug, Clone)]
pub struct ValidationUtils;

/// Whether `n` lies within the bounds; a bound that is not given does not
/// bind.
pub open spec fn between(n: int, min: Option<int>, max: Option<int>) -> bool {
    &&& (min matches Some(lo) ==> lo <= n)
    &&& (max matches Some(hi) ==> n <= hi)
}

/// A bound as a value of mathematics.
pub open spec fn opt_u64(o: Option<u64>) -> Option<int> {
    match o {
        Some(n) => Some(n as int),
        None => None,
    }
}

/// Whether `value` lies within the bounds, in the order of `T`: it is not
/// below the lower bound and not above the upper one.
pub open spec fn in_order<T: PartialOrd>(value: T, min: Option<&T>, max: Option<&T>) -> bool {
    &&& (min matches Some(lo) ==> !value.is_lt(lo))
    &&& (max matches Some(hi) ==> !value.is_gt(hi))
}

fn fits(len: usize, min: Option<u64>, max: Option<u64>) -> (r: bool)
    ensures
        r == between(len as int, opt_u64(min), opt_u64(max)),
{
    let len = len as u64;
    if let Some(lo) = min {
        if len < lo {
            return false;
        }
    }
    if let Some(hi) = max {
        if len > hi {
            return false;
        }
    }
    true
}

impl ValidationUtils {
    /// Whether the string is empty.
    pub fn is_empty_string(s: &str) -> (r: bool)
        ensures
            r == (s@.len() == 0),
    {
        char_count(s) == 0
    }

    /// Whether the string holds nothing but white space.
    pub fn is_blank_string(s: &str) -> (r: bool)
        ensures
            r == is_blank(s@),
    {
        all_whitespace(s)
    }

    /// Whether the string holds white space.
    pub fn has_space_string(s: &str) -> (r: bool)
        ensures
            r == has_space(s@),
    {
        contains_whitespace(s)
    }

    /// Whether the pattern finds a match anywhere in the string.
    pub fn matches_regex(s: &str, pattern: &regex::Regex) -> (r: bool)
        ensures
            r == regex_accepts(*pattern, s@),
    {
        regex_is_match(pattern, s)
    }

    /// The length of the string, counted in characters.
    pub fn string_length(s: &str) -> (r: usize)
        ensures
            r == s@.len(),
    {
        char_count(s)
    }

    /// Whether the slice is empty.
    pub fn is_empty_vec<T>(vec: &[T]) -> (r: bool)
        ensures
            r == (vec@.len() == 0),
    {
        vec.len() == 0
    }

    /// The length of the slice.
    pub fn vec_length<T>(vec: &[T]) -> (r: usize)
        ensures
            r == vec@.len(),
    {
        vec.len()
    }

    /// Whether the set is empty.
    pub fn is_empty_hashset<T>(set: &HashSet<T>) -> (r: bool)
        ensures
            r == set@.is_empty(),
    {
        set.is_empty()
    }

    /// The number of elements of the set.
    pub fn hashset_length<T>(set: &HashSet<T>) -> (r: usize)
        ensures
            r == set.len(),
            obeys_key_model::<T>() ==> r == set@.len(),
    {
        broadcast use vstd::std_specs::hash::group_hash_axioms;

        set.len()
    }

    /// Whether the map is empty.
    pub fn is_empty_hashmap<K, V>(map: &HashMap<K, V>) -> (r: bool)
        ensures
            r == map@.is_empty(),
    {
        map.is_empty()
    }

    /// The number of entries of the map.
    pub fn hashmap_length<K, V>(map: &HashMap<K, V>) -> (r: usize)
        ensures
            r == map.len(),
            obeys_key_model::<K>() ==> r == map@.len(),
    {
        broadcast use vstd::std_specs::hash::group_hash_axioms;

        map.len()
    }

    pub fn in_range_i8(value: i8, min: Option<i8>, max: Option<i8>) -> (r: bool)
        ensures
            r == ((min matches Some(lo) ==> lo <= value) && (max matches Some(hi) ==> value <= hi)),
    {
        Self::in_range_generic(&value, min.as_ref(), max.as_ref())
    }

    pub fn in_range_i16(value: i16, min: Option<i16>, max: Option<i16>) -> (r: bool)
        ensures
            r == ((min matches Some(lo) ==> lo <= value) && (max matches Some(hi) ==> value <= hi)),
    {
        Self::in_range_generic(&value, min.as_ref(), max.as_ref())
    }

    pub fn in_range_i32(value: i32, min: Option<i32>, max: Option<i32>) -> (r: bool)
        ensures
            r == ((min matches Some(lo) ==> lo <= value) && (max matches Some(hi) ==> value <= hi)),
    {
        Self::in_range_generic(&value, min.as_ref(), max.as_ref())
    }

    pub fn in_range_i64(value: i64, min: Option<i64>, max: Option<i64>) -> (r: bool)
        ensures
            r == ((min matches Some(lo) ==> lo <= value) && (max matches Some(hi) ==> value <= hi)),
    {
        Self::in_range_generic(&value, min.as_ref(), max.as_ref())
    }

    pub fn in_range_i128(value: i128, min: Option<i128>, max: Option<i128>) -> (r: bool)
        ensures
            r == ((min matches Some(lo) ==> lo <= value) && (max matches Some(hi) ==> value <= hi)),
    {
        Self::in_range_generic(&value, min.as_ref(), max.as_ref())
    }

    pub fn in_range_u8(value: u8, min: Option<u8>, max: Option<u8>) -> (r: bool)
        ensures
            r == ((min matches Some(lo) ==> lo <= value) && (max matches Some(hi) ==> value <= hi)),
    {
        Self::in_range_generic(&value, min.as_ref(), max.as_ref())
    }

    pub fn in_range_u16(value: u16, min: Option<u16>, max: Option<u16>) -> (r: bool)
        ensures
            r == ((min matches Some(lo) ==> lo <= value) && (max matches Some(hi) ==> value <= hi)),
    {
        Self::in_range_generic(&value, min.as_ref(), max.as_ref())
    }

    pub fn in_range_u32(value: u32, min: Option<u32>, max: Option<u32>) -> (r: bool)
        ensures
            r == ((min matches Some(lo) ==> lo <= value) && (max matches Some(hi) ==> value <= hi)),
    {
        Self::in_range_generic(&value, min.as_ref(), max.as_ref())
    }

    pub fn in_range_u64(value: u64, min: Option<u64>, max: Option<u64>) -> (r: bool)
        ensures
            r == ((min matches Some(lo) ==> lo <= value) && (max matches Some(hi) ==> value <= hi)),
    {
        Self::in_range_generic(&value, min.as_ref(), max.as_ref())
    }

    pub fn in_range_u128(value: u128, min: Option<u128>, max: Option<u128>) -> (r: bool)
        ensures
            r == ((min matches Some(lo) ==> lo <= value) && (max matches Some(hi) ==> value <= hi)),
    {
        Self::in_range_generic(&value, min.as_ref(), max.as_ref())
    }

    /// Whether `value` lies within the bounds, in the order of `T`: it is
    /// not below the lower bound and not above the upper one. A bound that is
    /// not given does not bind.
    pub fn in_range_generic<T: PartialOrd>(value: &T, min: Option<&T>, max: Option<&T>) -> (r: bool)
        ensures
            T::obeys_partial_cmp_spec() ==> r == in_order(*value, min, max),
    {
        if let Some(min_val) = min {
            if *value < *min_val {
                return false;
            }
        }
        if let Some(max_val) = max {
            if *value > *max_val {
                return false;
            }
        }
        true
    }

    /// Whether some element of `list` equals `value`.
    pub fn is_within<T: PartialEq>(value: &T, list: &[T]) -> (r: bool)
        ensures
            T::obeys_eq_spec() ==> r == listed(*value, list@),
    {
        let mut i: usize = 0;
        while i < list.len()
            invariant
                i <= list.len(),
                T::obeys_eq_spec() ==> forall|k: int|
                    0 <= k < i ==> !(#[trigger] list@[k]).eq_spec(value),
            decreases list.len() - i,
        {
            if list[i] == *value {
                return true;
            }
            i += 1;
        }
        false
    }

    /// Whether no element of `list` equals `value`.
    pub fn is_excluded<T: PartialEq>(value: &T, list: &[T]) -> (r: bool)
        ensures
            T::obeys_eq_spec() ==> r == !listed(*value, list@),
    {
        !Self::is_within(value, list)
    }

    /// What the predicate says of the value.
    pub fn call_validator_func<T, F>(value: &T, validator: F) -> (r: bool) where
        F: Fn(&T) -> bool,

        requires
            call_requires(validator, (value,)),
        ensures
            call_ensures(validator, (value,), r),
    {
        validator(value)
    }

    /// Whether the length of the string, counted in bytes, lies within the
    /// bounds.
    pub fn validate_size(value: &str, min: Option<u64>, max: Option<u64>) -> (r: bool)
        ensures
            r == between(
                vstd::utf8::encode_utf8(value@).len() as int,
                opt_u64(min),
                opt_u64(max),
            ),
    {
        fits(value.as_bytes().len(), min, max)
    }

    /// Whether the length of the slice lies within the bounds.
    pub fn validate_collection_size<T>(collection: &[T], min: Option<u64>, max: Option<u64>) -> (r:
        bool)
        ensures
            r == between(collection@.len() as int, opt_u64(min), opt_u64(max)),
    {
        fits(collection.len(), min, max)
    }

    /// Whether the number of elements of the set lies within the bounds.
    pub fn validate_hashset_size<T>(set: &HashSet<T>, min: Option<u64>, max: Option<u64>) -> (r:
        bool)
        ensures
            obeys_key_model::<T>() ==> r == between(set@.len() as int, opt_u64(min), opt_u64(max)),
    {
        broadcast use vstd::std_specs::hash::group_hash_axioms;

        fits(set.len(), min, max)
    }

    /// Whether the number of entries of the map lies within the bounds.
    pub fn validate_hashmap_size<K, V>(map: &HashMap<K, V>, min: Option<u64>, max: Option<u64>) -> (r:
        bool)
        ensures
            obeys_key_model::<K>() ==> r == between(map@.len() as int, opt_u64(min), opt_u64(max)),
    {
        broadcast use vstd::std_specs::hash::group_hash_axioms;

        fits(map.len(), min, max)
    }
}

} // verus!
