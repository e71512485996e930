//! The trait of what can be validated, and the checks one by one.

use vstd::prelude::*;

pub mod helpers;

verus! {

/// What can be validated.
///
/// `check` looks at every field. `check_group` looks at the fields tagged
/// with the group given and at those tagged with none. Either returns
/// `Ok(true)` for a pass and, for a failure, the message as the error.
pub trait Validate {
    /// What a group is; two groups are the same if they are equal.
    type Group: PartialEq;

    /// Checks every field.
    fn check(&self) -> (r: Result<bool, String>);

    /// Checks the fields that belong to `group`.
    fn check_group(&self, group: Self::Group) -> (r: Result<bool, String>);
}

} // verus!
