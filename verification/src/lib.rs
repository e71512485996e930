//! Declarative field validation.
//!
//! A record type is described by a list of fields, each with its declared
//! type and an ordered list of rules. The description is checked once: every
//! rule must be meaningful for the category of its field's type. What comes out
//! is a validator that checks record values, either every field of them or only
//! the fields of one group.
//!
//! - [`schema`]: type categories, rules, the compatibility check, the compiled
//!   validator and its two entry points.
//! - [`patterns`]: the registry of named, lazily compiled patterns.
//! - [`matcher`]: what is believed of the crate that compiles and matches
//!   the patterns.
//! - [`validation`], [`validate`]: the checks themselves, one function each.
//! - [`text`]: what the checks need to know about characters and strings.
//! - [`types`]: an error by code and description.
//! - [`seqs`]: a helper on vectors.

pub mod matcher;
pub mod patterns;
pub mod schema;
pub mod seqs;
pub mod text;
pub mod types;
pub mod validate;
pub mod validation;

