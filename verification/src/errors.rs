//! Validation errors and the lazy error sequence of the diagnostic path.

use crate::instance::Instance;
use crate::paths::InstancePath;
use crate::paths::PathChunk;
use vstd::prelude::*;

verus! {

/// The kind of failure a validation error reports.  Format mismatches are
/// the only kind this crate produces; the variant carries the name of the
/// format the instance failed.
#[derive(Debug, PartialEq)]
pub enum ErrorKind {
    Format(String),
}

impl ErrorKind {
    /// The format name this error is tagged with.
    pub open spec fn format_name(self) -> Seq<char> {
        match self {
            ErrorKind::Format(n) => n@,
        }
    }
}

/// An engine-level validation error: where in the document it happened, the
/// rejected value, and the kind of failure.
#[derive(Debug, PartialEq)]
pub struct ValidationError {
    pub path: InstancePath,
    pub instance: Instance,
    pub kind: ErrorKind,
}

impl ValidationError {
    /// Whether this error reports that `instance` at `path` failed the
    /// format named `name`.
    pub open spec fn is_format_mismatch(
        self,
        path: Seq<PathChunk>,
        instance: Instance,
        name: Seq<char>,
    ) -> bool {
        &&& self.path@ == path
        &&& self.instance == instance
        &&& self.kind.format_name() == name
    }

    /// Builds the format-mismatch error for `instance` at `path` under the
    /// format named `name`.
    pub fn format(path: InstancePath, instance: Instance, name: &str) -> (r: ValidationError)
        ensures
            r.is_format_mismatch(path@, instance, name@),
    {
        ValidationError { path, instance, kind: ErrorKind::Format(name.to_owned()) }
    }
}

/// The lazy error sequence of the diagnostic path.  It holds zero errors or
/// one, never more, and yields nothing further once exhausted.
pub struct ErrorIterator {
    next_error: Option<ValidationError>,
}

impl View for ErrorIterator {
    type V = Seq<ValidationError>;

    closed spec fn view(&self) -> Seq<ValidationError> {
        match self.next_error {
            Some(e) => seq![e],
            None => Seq::empty(),
        }
    }
}

impl ErrorIterator {
    /// Yields the front error; afterwards the sequence is exhausted.
    pub fn next(&mut self) -> (r: Option<ValidationError>)
        ensures
            old(self)@.len() == 0 ==> r is None,
            old(self)@.len() > 0 ==> r == Some(old(self)@[0]),
            final(self)@.len() == 0,
    {
        self.next_error.take()
    }
}

/// An empty error sequence.
pub fn no_error() -> (r: ErrorIterator)
    ensures
        r@ == Seq::<ValidationError>::empty(),
{
    ErrorIterator { next_error: None }
}

/// The error sequence holding exactly `err`.
pub fn error(err: ValidationError) -> (r: ErrorIterator)
    ensures
        r@ == seq![err],
{
    ErrorIterator { next_error: Some(err) }
}

} // verus!
