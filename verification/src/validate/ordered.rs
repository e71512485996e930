//! The questions of order about decimal numbers, dates and times. The
//! values are those of the crates `rust_decimal` and `chrono`, and so is
//! their order.

use vstd::prelude::*;
use vstd::std_specs::cmp::PartialOrdSpec;
use crate::validate::helper::ValidationUtils;
use crate::validate::helper::in_order;

verus! {

/// A decimal number.
#[verifier::external_type_specification]
#[verifier::external_body]
pub struct ExDecimal(rust_decimal::Decimal);

/// A date and a time of day, without a time zone.
#[verifier::external_type_specification]
#[verifier::external_body]
pub struct ExNaiveDateTime(chrono::NaiveDateTime);

/// A date, without a time zone.
#[verifier::external_type_specification]
#[verifier::external_body]
pub struct ExNaiveDate(chrono::NaiveDate);

/// A time of day, without a time zone.
#[verifier::external_type_specification]
#[verifier::external_body]
pub struct ExNaiveTime(chrono::NaiveTime);

impl ValidationUtils {
    /// Whether the number lies within the bounds.
    pub fn in_range_decimal(
        value: &rust_decimal::Decimal,
        min: Option<&rust_decimal::Decimal>,
        max: Option<&rust_decimal::Decimal>,
    ) -> (r: bool)
        ensures
            rust_decimal::Decimal::obeys_partial_cmp_spec() ==> r == in_order(*value, min, max),
    {
        Self::in_range_generic(value, min, max)
    }

    /// Whether the date and time lie within the bounds.
    pub fn in_range_naive_date_time(
        value: &chrono::NaiveDateTime,
        min: Option<&chrono::NaiveDateTime>,
        max: Option<&chrono::NaiveDateTime>,
    ) -> (r: bool)
        ensures
            chrono::NaiveDateTime::obeys_partial_cmp_spec() ==> r == in_order(*value, min, max),
    {
        Self::in_range_generic(value, min, max)
    }

    /// Whether the date lies within the bounds.
    pub fn in_range_naive_date(
        value: &chrono::NaiveDate,
        min: Option<&chrono::NaiveDate>,
        max: Option<&chrono::NaiveDate>,
    ) -> (r: bool)
        ensures
            chrono::NaiveDate::obeys_partial_cmp_spec() ==> r == in_order(*value, min, max),
    {
        Self::in_range_generic(value, min, max)
    }

    /// Whether the time lies within the bounds.
    pub fn in_range_naive_time(
        value: &chrono::NaiveTime,
        min: Option<&chrono::NaiveTime>,
        max: Option<&chrono::NaiveTime>,
    ) -> (r: bool)
        ensures
            chrono::NaiveTime::obeys_partial_cmp_spec() ==> r == in_order(*value, min, max),
    {
        Self::in_range_generic(value, min, max)
    }
}

} // verus!
