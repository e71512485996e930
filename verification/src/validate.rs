//! The checks on owned strings, and the helpers that answer with a plain
//! yes or no.

pub mod helper;
pub mod helpers;
pub mod ordered;
pub mod types;

pub use crate::validation::Validate;
