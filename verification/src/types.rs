//! Types shared by the callers of the library.

pub mod e;
