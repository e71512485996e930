//! An error by code and description.

use vstd::prelude::*;

verus! {

/// An error that is known when the program is written: its code and its
/// description.
#[derive(Debug, Clone)]
pub struct E {
    pub code: &'static str,
    pub desc: &'static str,
}

impl E {
    pub fn new(code: &'static str, desc: &'static str) -> (e: E)
        ensures
            e.code@ == code@,
            e.desc@ == desc@,
    {
        Self { code, desc }
    }

    /// The code, as an owned string.
    pub fn get_code(&self) -> (r: String)
        ensures
            r@ == self.code@,
    {
        self.code.to_owned()
    }

    /// The code once more: callers that want the description read the
    /// field `desc`.
    pub fn get_desc(&self) -> (r: String)
        ensures
            r@ == self.code@,
    {
        self.code.to_owned()
    }
}

} // verus!
