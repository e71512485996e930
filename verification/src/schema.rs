//! The schema of a record type: what its fields' types are, which rules are
//! attached to them, whether each rule fits its field, and the validator that
//! results.

pub mod basic_types;
pub mod declared;

pub mod generic_types;
pub mod check_able;
pub mod value;
pub mod error;
pub mod metadata;
pub mod attributes;
pub mod field_meta;
pub mod boundary;
pub mod codegen;
pub mod outcome;
pub mod semantics;
pub mod check;
pub mod laws;
pub mod bound;
