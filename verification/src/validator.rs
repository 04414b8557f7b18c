//! The engine-wide validator capability, and the generic adapter that grants
//! it to every custom format.

use crate::custom_format::description_chars;
use crate::custom_format::CustomFormat;
use crate::errors::error;
use crate::errors::no_error;
use crate::errors::ErrorIterator;
use crate::errors::ValidationError;
use crate::instance::Instance;
use crate::paths::InstancePath;
use vstd::prelude::*;

verus! {

/// What the engine asks of a schema keyword value: a fast boolean check and
/// a diagnostic path producing a lazy error sequence.
pub trait Validate: Sized + Send + Sync {
    /// Which instances this validator accepts.
    spec fn spec_valid(&self, instance: Instance) -> bool;

    /// The name this validator tags its errors with.
    spec fn spec_format_name(&self) -> Seq<char>;

    /// Fast path: pass or fail, with no error constructed.
    fn is_valid(&self, instance: &Instance) -> (r: bool)
        ensures
            r == self.spec_valid(*instance),
    ;

    /// Diagnostic path: empty when the instance is accepted; otherwise
    /// exactly one format-mismatch error carrying the rejected instance, the
    /// given path, and the validator's name.
    fn validate(&self, instance: &Instance, instance_path: &InstancePath) -> (errs: ErrorIterator)
        ensures
            self.spec_valid(*instance) ==> errs@.len() == 0,
            !self.spec_valid(*instance) ==> errs@.len() == 1 && errs@[0].is_format_mismatch(
                instance_path@,
                *instance,
                self.spec_format_name(),
            ),
    ;
}

/// Every custom format is a validator.  Format keywords constrain string
/// instances only, so any non-string instance passes, whatever the
/// predicate; a string instance is checked against the format's predicate.
impl<T: CustomFormat> Validate for T {
    open spec fn spec_valid(&self, instance: Instance) -> bool {
        instance.is_str() ==> self.spec_is_valid(instance.str_chars())
    }

    open spec fn spec_format_name(&self) -> Seq<char> {
        self.spec_name()
    }

    fn is_valid(&self, instance: &Instance) -> (r: bool) {
        match instance {
            Instance::Str(s) => CustomFormat::is_valid(self, s.as_str()),
            _ => true,
        }
    }

    fn validate(&self, instance: &Instance, instance_path: &InstancePath) -> (errs: ErrorIterator) {
        match instance {
            Instance::Str(s) => {
                if !Validate::is_valid(self, instance) {
                    error(
                        ValidationError::format(
                            instance_path.clone(),
                            Instance::Str(s.clone()),
                            self.name(),
                        ),
                    )
                } else {
                    no_error()
                }
            },
            _ => no_error(),
        }
    }
}

/// Non-string instances are exempt from every format: whatever the
/// predicate, the validator accepts them, so by the contracts of
/// [`Validate::is_valid`] and [`Validate::validate`] the fast path answers
/// true and the diagnostic path is empty.
pub proof fn lemma_non_string_instances_pass<T: CustomFormat>(f: T, instance: Instance)
    requires
        !instance.is_str(),
    ensures
        f.spec_valid(instance),
{
}

/// On string instances, a format's validator agrees exactly with the
/// format's predicate.
pub proof fn lemma_string_instances_follow_predicate<T: CustomFormat>(f: T, instance: Instance)
    requires
        instance.is_str(),
    ensures
        f.spec_valid(instance) == f.spec_is_valid(instance.str_chars()),
{
}

/// A format's rendered description is `"format: "` followed by exactly the
/// name that tags every error its validator produces.
pub proof fn lemma_description_matches_error_name<T: CustomFormat>(f: T)
    ensures
        description_chars(f.spec_name()) == "format: "@ + f.spec_format_name(),
{
}

} // verus!
