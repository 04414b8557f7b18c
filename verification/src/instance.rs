//! The document values a validator is asked about.
//!
//! Format keywords constrain string instances only, so all the adapter ever
//! reads of an instance is whether it is a string and, if so, its characters.
//! Numbers are carried as their literal text; this crate never interprets
//! them.

use vstd::prelude::*;

verus! {

/// A JSON-like document value.
#[derive(Debug, PartialEq)]
pub enum Instance {
    Null,
    Bool(bool),
    /// The literal text of the number, e.g. `"12"` or `"0.5"`.
    Number(String),
    Str(String),
    Array(Vec<Instance>),
    Object(Vec<(String, Instance)>),
}

impl Instance {
    /// Whether this instance is a string.
    pub open spec fn is_str(self) -> bool {
        self is Str
    }

    /// The characters of a string instance.
    pub open spec fn str_chars(self) -> Seq<char>
        recommends
            self.is_str(),
    {
        match self {
            Instance::Str(s) => s@,
            _ => Seq::empty(),
        }
    }

    /// The string carried by this instance, if it is one.
    pub fn as_str(&self) -> (r: Option<&str>)
        ensures
            r is Some <==> self.is_str(),
            r matches Some(s) ==> s@ == self.str_chars(),
    {
        match self {
            Instance::Str(s) => Some(s.as_str()),
            _ => None,
        }
    }
}

} // verus!
