//! Custom string-format validation.
//!
//! A *format* is a named predicate over strings that a schema may attach to a
//! string instance.  This crate provides:
//!
//! - the narrow [`custom_format::CustomFormat`] capability a format must
//!   satisfy (a name and a predicate),
//! - a generic adapter giving every such format the engine-wide
//!   [`validator::Validate`] capability: a fast boolean check and a lazy,
//!   zero-or-one-element error sequence, with non-string instances always
//!   exempt,
//! - a generator ([`generator`]) that derives, from the signature and body of
//!   a user-written predicate function, the source text of a conforming
//!   format type, rejecting malformed signatures with aggregated diagnostics.

pub mod custom_format;
pub mod errors;
pub mod formats;
pub mod generator;
pub mod instance;
pub mod paths;
pub mod validator;

pub use custom_format::CustomFormat;
