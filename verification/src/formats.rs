//! A format as the generator derives it, written out in full: the verified
//! counterpart of the text that [`crate::generator::expand`] emits for
//! `fn is_even_length(input: &str) -> bool { input.unicode_len() % 2 == 0 }`.

use crate::custom_format::CustomFormat;
use vstd::prelude::*;
use vstd::string::StrSliceExecFns;

verus! {

/// The format named `is_even_length`: a string conforms when its character
/// count is a multiple of two.
#[allow(non_camel_case_types)]
#[derive(Clone)]
pub struct is_even_length_t;

impl CustomFormat for is_even_length_t {
    open spec fn spec_name(&self) -> Seq<char> {
        "is_even_length"@
    }

    open spec fn spec_is_valid(&self, s: Seq<char>) -> bool {
        s.len() % 2 == 0
    }

    fn name(&self) -> (r: &'static str) {
        "is_even_length"
    }

    fn is_valid(&self, input: &str) -> (r: bool) {
        input.unicode_len() % 2 == 0
    }
}

} // verus!
