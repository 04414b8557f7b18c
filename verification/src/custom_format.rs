//! The narrow capability a custom string format supplies.

use vstd::prelude::*;
use vstd::string::StringExecFns;

verus! {

/// A named predicate over strings, usable wherever a schema expects a
/// format keyword value.  Implementors are zero-sized, immutable values; the
/// name is fixed for the life of the program.
pub trait CustomFormat: Sized + Send + Sync + Clone {
    /// The format's name, as schemas spell it.
    spec fn spec_name(&self) -> Seq<char>;

    /// The format's predicate over the characters of a string instance.
    spec fn spec_is_valid(&self, s: Seq<char>) -> bool;

    /// The format's name.
    fn name(&self) -> (r: &'static str)
        ensures
            r@ == self.spec_name(),
    ;

    /// Whether `input` satisfies the format's predicate.
    fn is_valid(&self, input: &str) -> (r: bool)
        ensures
            r == self.spec_is_valid(input@),
    ;
}

/// The rendering of a format's name used in logs and diagnostics.
pub open spec fn description_chars(name: Seq<char>) -> Seq<char> {
    "format: "@ + name
}

/// Renders a format for logs and diagnostics as `"format: <name>"` — the
/// same name that tags the errors the format's validator produces.
pub fn description<T: CustomFormat>(f: &T) -> (r: String)
    ensures
        r@ == description_chars(f.spec_name()),
{
    let mut out = String::new();
    out.append("format: ");
    out.append(f.name());
    proof {
        assert(out@ =~= description_chars(f.spec_name()));
    }
    out
}

} // verus!
