//! The typed convenience API: per-type entry points atop the registry.

use vstd::prelude::*;

use crate::scope::{Scope, SpecScope};

verus! {

/// The scope a query means when it passes an optional scope: `None` stands
/// for the wildcard.
pub open spec fn spec_scope_of_option(scope: Option<&Scope>) -> SpecScope {
    match scope {
        None => SpecScope::Any,
        Some(s) => s@,
    }
}

/// Construct `Self` by parsing humanized `text`.
pub trait Parse: Sized {
    /// The mathematical model of the conversion: what parsing answers for
    /// a text and a requested scope.
    spec fn spec_parse(text: Seq<char>, scope: SpecScope) -> Option<Self>;

    /// Perform the conversion. `None` for the scope means "any locale".
    fn parse(text: &str, scope: Option<&Scope>) -> (r: Option<Self>)
        ensures
            r == Self::spec_parse(text@, spec_scope_of_option(scope)),
    ;
}

/// Construct a value by parsing humanized `text`. `None` for the scope
/// means "any locale"; an unrecognized text answers `None`, never an
/// error.
pub fn parse<T: Parse>(text: &str, scope: Option<&Scope>) -> (r: Option<T>)
    ensures
        r == T::spec_parse(text@, spec_scope_of_option(scope)),
{
    T::parse(text, scope)
}

/// Construct a value by parsing humanized `text`, with a `default` value
/// when parsing fails: the answer is `default` exactly when
/// [`parse`] would answer `None`, and the parsed value otherwise.
pub fn parse_or<T: Parse>(text: &str, scope: Option<&Scope>, default: T) -> (r: T)
    ensures
        r == (match T::spec_parse(text@, spec_scope_of_option(scope)) {
            Some(v) => v,
            None => default,
        }),
{
    match parse::<T>(text, scope) {
        Some(v) => v,
        None => default,
    }
}

} // verus!
