//! The checks, one function each, on owned strings. A check returns
//! `Ok(true)` if the value passes it, and the message given as the error if
//! it does not.

use vstd::prelude::*;
use vstd::std_specs::cmp::PartialEqSpec;
use vstd::std_specs::convert::IntoSpec;
use crate::matcher::regex_is_match;
use crate::matcher::regex_accepts;
use crate::text::all_whitespace;
use crate::text::char_count;
use crate::text::contains_whitespace;
use crate::text::has_space;
use crate::text::is_blank;
use crate::validation::helpers::bounded;
use crate::validation::helpers::conclude;
use crate::validation::helpers::listed;
use crate::validation::helpers::opt_i128;
use crate::validation::helpers::opt_usize;
use crate::validation::helpers::verdict;

verus! {

/// Checks the length of a string, counted in characters.
pub fn validate_len(value: &String, min: Option<usize>, max: Option<usize>, message: &str) -> (r:
    Result<bool, String>)
    ensures
        verdict(bounded(value@.len() as int, opt_usize(min), opt_usize(max)), message@, r),
{
    let len = char_count(value.as_str());
    if let Some(lo) = min {
        if len < lo {
            return conclude(false, message);
        }
    }
    if let Some(hi) = max {
        if len > hi {
            return conclude(false, message);
        }
    }
    conclude(true, message)
}

/// Checks that a number lies within the bounds. The number is whatever
/// converts into a 128-bit integer.
pub fn validate_range<T: Into<i128>>(
    value: T,
    min: Option<i128>,
    max: Option<i128>,
    message: &str,
) -> (r: Result<bool, String>)
    ensures
        r == Ok::<bool, String>(true) || (r matches Err(m) && m@ == message@),
        T::obeys_into_spec() ==> verdict(
            bounded(T::into_spec(value) as int, opt_i128(min), opt_i128(max)),
            message@,
            r,
        ),
{
    let v: i128 = value.into();
    if let Some(lo) = min {
        if v < lo {
            return conclude(false, message);
        }
    }
    if let Some(hi) = max {
        if v > hi {
            return conclude(false, message);
        }
    }
    conclude(true, message)
}

/// Checks that a string holds no white space.
pub fn validate_no_space(value: &String, message: &str) -> (r: Result<bool, String>)
    ensures
        verdict(!has_space(value@), message@, r),
{
    conclude(!contains_whitespace(value.as_str()), message)
}

/// Checks that a string is not empty.
pub fn validate_not_empty(value: &String, message: &str) -> (r: Result<bool, String>)
    ensures
        verdict(value@.len() > 0, message@, r),
{
    conclude(char_count(value.as_str()) > 0, message)
}

/// Checks that a string holds more than white space.
pub fn validate_not_blank(value: &String, message: &str) -> (r: Result<bool, String>)
    ensures
        verdict(!is_blank(value@), message@, r),
{
    conclude(!all_whitespace(value.as_str()), message)
}

/// Checks a value with a predicate of the caller's.
pub fn validate_func<T, F>(value: &T, func: F, message: &str) -> (r: Result<bool, String>) where
    F: Fn(&T) -> bool,

    requires
        call_requires(func, (value,)),
    ensures
        exists|answer: bool| call_ensures(func, (value,), answer) && verdict(answer, message@, r),
{
    let answer = func(value);
    conclude(answer, message)
}

/// Checks a string against a compiled pattern: the check passes if the
/// pattern finds a match anywhere in the string.
pub fn validate_regex(value: &str, re: &regex::Regex, message: &str) -> (r: Result<bool, String>)
    ensures
        verdict(regex_accepts(*re, value@), message@, r),
{
    conclude(regex_is_match(re, value), message)
}

/// Checks that a value is one of those allowed.
pub fn validate_enum<T: PartialEq>(value: &T, allowed: &[T], message: &str) -> (r: Result<
    bool,
    String,
>)
    ensures
        r == Ok::<bool, String>(true) || (r matches Err(m) && m@ == message@),
        T::obeys_eq_spec() ==> verdict(listed(*value, allowed@), message@, r),
{
    let mut i: usize = 0;
    while i < allowed.len()
        invariant
            i <= allowed.len(),
            T::obeys_eq_spec() ==> forall|k: int|
                0 <= k < i ==> !(#[trigger] allowed@[k]).eq_spec(value),
        decreases allowed.len() - i,
    {
        if allowed[i] == *value {
            return conclude(true, message);
        }
        i += 1;
    }
    conclude(false, message)
}

} // verus!
