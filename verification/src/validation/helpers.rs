//! The checks, one function each. A check returns `Ok(true)` if the value
//! passes it, and the message given as the error if it does not.

use vstd::prelude::*;
use vstd::std_specs::cmp::PartialEqSpec;
use vstd::std_specs::convert::IntoSpec;
use vstd::std_specs::convert::TryFromSpec;
use vstd::string::StringExecFns;
use crate::matcher::pattern_compiles;
use crate::matcher::pattern_matches;
use crate::matcher::regex_error_text;
use crate::matcher::regex_is_match;
use crate::matcher::regex_new;
use crate::text::all_whitespace;
use crate::text::char_count;
use crate::text::contains_whitespace;
use crate::text::has_space;
use crate::text::is_blank;

verus! {

/// The result of a check that passes if `ok`, and fails with `message` if
/// not.
pub open spec fn verdict(ok: bool, message: Seq<char>, r: Result<bool, String>) -> bool {
    if ok {
        r == Ok::<bool, String>(true)
    } else {
        r matches Err(m) && m@ == message
    }
}

/// Whether `n` lies within the bounds; a bound that is not given does not
/// bind.
pub open spec fn bounded(n: int, min: Option<int>, max: Option<int>) -> bool {
    &&& (min matches Some(lo) ==> lo <= n)
    &&& (max matches Some(hi) ==> n <= hi)
}

/// A bound as a value of mathematics.
pub open spec fn opt_usize(o: Option<usize>) -> Option<int> {
    match o {
        Some(n) => Some(n as int),
        None => None,
    }
}

/// A bound as a value of mathematics.
pub open spec fn opt_i128(o: Option<i128>) -> Option<int> {
    match o {
        Some(n) => Some(n as int),
        None => None,
    }
}

/// The result for a check that passes if `ok`.
pub fn conclude(ok: bool, message: &str) -> (r: Result<bool, String>)
    ensures
        verdict(ok, message@, r),
{
    if ok {
        Ok(true)
    } else {
        Err(message.to_owned())
    }
}

/// Checks the length of a string, counted in characters.
pub fn validate_len_str(value: &str, min: Option<usize>, max: Option<usize>, message: &str) -> (r:
    Result<bool, String>)
    ensures
        verdict(bounded(value@.len() as int, opt_usize(min), opt_usize(max)), message@, r),
{
    validate_size_len(char_count(value), min, max, message)
}

/// Checks that a number lies within the bounds. The number is whatever
/// converts into a 128-bit integer.
pub fn validate_range_i128<T: Into<i128>>(
    value: T,
    min: Option<i128>,
    max: Option<i128>,
    message: &str,
) -> (r: Result<bool, String>)
    ensures
        r == Ok::<bool, String>(true) || (r matches Err(m) && m@ == message@),
        T::obeys_into_spec() ==> verdict(
            bounded(T::into_spec(value) as int, opt_i128(min), opt_i128(max)),
            message@,
            r,
        ),
{
    let v: i128 = value.into();
    if let Some(lo) = min {
        if v < lo {
            return conclude(false, message);
        }
    }
    if let Some(hi) = max {
        if v > hi {
            return conclude(false, message);
        }
    }
    conclude(true, message)
}

/// Checks the size of a collection, given as the number of its elements.
pub fn validate_size_len(len: usize, min: Option<usize>, max: Option<usize>, message: &str) -> (r:
    Result<bool, String>)
    ensures
        verdict(bounded(len as int, opt_usize(min), opt_usize(max)), message@, r),
{
    if let Some(lo) = min {
        if len < lo {
            return conclude(false, message);
        }
    }
    if let Some(hi) = max {
        if len > hi {
            return conclude(false, message);
        }
    }
    conclude(true, message)
}

/// Checks that a string holds no white space.
pub fn validate_no_space(value: &str, message: &str) -> (r: Result<bool, String>)
    ensures
        verdict(!has_space(value@), message@, r),
{
    conclude(!contains_whitespace(value), message)
}

/// Checks that a string is not empty.
pub fn validate_not_empty_str(value: &str, message: &str) -> (r: Result<bool, String>)
    ensures
        verdict(value@.len() > 0, message@, r),
{
    conclude(char_count(value) > 0, message)
}

/// Checks that a string holds more than white space.
pub fn validate_not_blank(value: &str, message: &str) -> (r: Result<bool, String>)
    ensures
        verdict(!is_blank(value@), message@, r),
{
    conclude(!all_whitespace(value), message)
}

/// Checks a value with a predicate of the caller's.
pub fn validate_func<T, F>(value: &T, func: F, message: &str) -> (r: Result<bool, String>) where
    F: Fn(&T) -> bool,

    requires
        call_requires(func, (value,)),
    ensures
        exists|answer: bool| call_ensures(func, (value,), answer) && verdict(answer, message@, r),
{
    let answer = func(value);
    conclude(answer, message)
}

/// The text of the error for a pattern that does not compile.
pub open spec fn compile_error_prefix() -> Seq<char> {
    "regex compile error: "@
}

/// Checks a string against a pattern given as text: the pattern is
/// compiled, and the check passes if it finds a match anywhere in the
/// string. A pattern that does not compile is an error of its own, whose
/// text begins with `regex compile error: `.
pub fn validate_regex(value: &str, pattern: &str, message: &str) -> (r: Result<bool, String>)
    ensures
        pattern_compiles(pattern@) ==> verdict(pattern_matches(pattern@, value@), message@, r),
        !pattern_compiles(pattern@) ==> (r matches Err(m) && m@.len()
            >= compile_error_prefix().len() && m@.take(compile_error_prefix().len() as int)
            == compile_error_prefix()),
{
    match regex_new(pattern) {
        Ok(re) => conclude(regex_is_match(&re, value), message),
        Err(e) => {
            let text = String::from_str("regex compile error: ").concat(
                regex_error_text(&e).as_str(),
            );
            assert(text@.take(compile_error_prefix().len() as int) =~= compile_error_prefix());
            Err(text)
        },
    }
}

/// Whether some element of `allowed` equals `value`.
pub open spec fn listed<T: PartialEq>(value: T, allowed: Seq<T>) -> bool {
    exists|i: int| 0 <= i < allowed.len() && (#[trigger] allowed[i]).eq_spec(&value)
}

/// Checks that a value is one of those allowed.
pub fn validate_enum<T: PartialEq + Clone>(value: &T, allowed: &[T], message: &str) -> (r: Result<
    bool,
    String,
>)
    ensures
        r == Ok::<bool, String>(true) || (r matches Err(m) && m@ == message@),
        T::obeys_eq_spec() ==> verdict(listed(*value, allowed@), message@, r),
{
    let mut i: usize = 0;
    while i < allowed.len()
        invariant
            i <= allowed.len(),
            T::obeys_eq_spec() ==> forall|k: int|
                0 <= k < i ==> !(#[trigger] allowed@[k]).eq_spec(value),
        decreases allowed.len() - i,
    {
        if allowed[i] == *value {
            return conclude(true, message);
        }
        i += 1;
    }
    conclude(false, message)
}

/// Checks that a value of a primitive type converts into the enumeration
/// `E`.
pub fn validate_enum_try_from<E, P>(primitive: P, message: &str) -> (r: Result<bool, String>) where
    E: TryFrom<P>,

    ensures
        r == Ok::<bool, String>(true) || (r matches Err(m) && m@ == message@),
        E::obeys_try_from_spec() ==> verdict(E::try_from_spec(primitive) is Ok, message@, r),
{
    let converted = E::try_from(primitive);
    conclude(converted.is_ok(), message)
}

} // verus!
