//! Small validation helpers used when configuration values are constructed.

use core::cmp::Ordering;
use vstd::prelude::*;
use vstd::std_specs::cmp::PartialOrdSpec;
use vstd::string::*;

use crate::text;

verus! {

/// An error when validating data.
#[derive(Debug, PartialEq)]
pub enum ValidationError {
    GreaterThanZero,
    Max(u8),
    Order(u8, u8),
    Required(String),
}

/// What `max` returns: `Ok` exactly when `actual` does not exceed `limit`.
pub open spec fn max_spec(limit: u8, actual: u8) -> Result<(), ValidationError> {
    if actual <= limit {
        Ok(())
    } else {
        Err(ValidationError::Max(limit))
    }
}

/// Checks that `actual` does not exceed `limit`.
pub fn max(limit: u8, actual: u8) -> (r: Result<(), ValidationError>)
    ensures
        r == max_spec(limit, actual),
{
    if actual <= limit {
        Ok(())
    } else {
        Err(ValidationError::Max(limit))
    }
}

/// What `order` returns: `Ok` exactly when `left` is strictly below `right`.
pub open spec fn order_spec(left: u8, right: u8) -> Result<(), ValidationError> {
    if left < right {
        Ok(())
    } else {
        Err(ValidationError::Order(left, right))
    }
}

/// Checks that `left` is strictly less than `right`.
pub fn order(left: u8, right: u8) -> (r: Result<(), ValidationError>)
    ensures
        r == order_spec(left, right),
{
    if left < right {
        Ok(())
    } else {
        Err(ValidationError::Order(left, right))
    }
}

/// Checks that a mandatory text setting is not empty once surrounding
/// whitespace is removed, and hands back the trimmed text.
pub fn required(name: &str, val: String) -> (r: Result<String, ValidationError>)
    ensures
        text::trim_spec(val@).len() > 0 ==> (r matches Ok(s) && s@ == text::trim_spec(val@)),
        text::trim_spec(val@).len() == 0 ==> (r matches Err(e) && e matches ValidationError::Required(n)
            && n@ == name@),
{
    let clean = text::trim(val.as_str());
    if clean.unicode_len() == 0 {
        Err(ValidationError::Required(String::from_str(name)))
    } else {
        Ok(String::from_str(clean))
    }
}

/// Provides a zero value for comparison with `PartialOrd`.
pub trait HasZero: Sized {
    /// The zero value, as contracts see it.
    spec fn spec_zero() -> Self;

    /// The zero value.
    fn zero() -> (r: Self)
        ensures
            r == Self::spec_zero(),
    ;
}

/// Checks that `val` is strictly greater than its type's zero.
pub fn greater_than_zero<T: HasZero + PartialOrd>(val: T) -> (r: Result<(), ValidationError>)
    requires
        T::obeys_partial_cmp_spec(),
    ensures
        r is Ok <==> val.partial_cmp_spec(&T::spec_zero()) == Some(Ordering::Greater),
        r is Err ==> r == Err::<(), ValidationError>(ValidationError::GreaterThanZero),
{
    if val > T::zero() {
        Ok(())
    } else {
        Err(ValidationError::GreaterThanZero)
    }
}

} // verus!
