//! The trait of what can be validated by groups given as text.

use vstd::prelude::*;

verus! {

/// What can be validated, with groups named by strings.
pub trait ValidateTrait {
    /// Checks every field.
    fn check(&self) -> (r: Result<bool, String>);

    /// Checks the fields that belong to the group of this name.
    fn check_with_group(&self, group: &str) -> (r: Result<bool, String>);
}

} // verus!
