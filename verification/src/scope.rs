//! Locale scopes and the scope-matching relation.
//!
//! A [`Scope`] says where a recognizer applies, or which recognizers a query
//! wants: either a single concrete language tag (such as `"en"`), or the
//! wildcard [`Scope::Any`], which stands for "any locale".
//!
//! The matching relation is deliberately simple and fully specified:
//! a wildcard on either side matches everything, and two concrete tags match
//! exactly when they are equal. Richer subsumption between tags (such as a
//! bare language encompassing a region-qualified one) is intentionally not
//! part of this relation; callers who hold a locale value of some external
//! locale library convert it to a concrete tag first.

use vstd::prelude::*;

verus! {

/// A locale scope: the wildcard, or one concrete language tag.
pub enum Scope {
    /// Matches every scope; used both as "recognizer applies everywhere"
    /// and as "query does not care about the locale".
    Any,
    /// A single concrete language tag, compared for simple equality.
    Tag(String),
}

/// The mathematical model of a [`Scope`]: the tag is a sequence of
/// characters.
pub enum SpecScope {
    /// Model of [`Scope::Any`].
    Any,
    /// Model of [`Scope::Tag`].
    Tag(Seq<char>),
}

impl View for Scope {
    type V = SpecScope;

    open spec fn view(&self) -> SpecScope {
        match self {
            Scope::Any => SpecScope::Any,
            Scope::Tag(t) => SpecScope::Tag(t@),
        }
    }
}

/// Whether a recognizer declared for `declared` applies to a query made
/// for `requested`: a wildcard on either side always matches, and two
/// concrete tags match exactly when they are equal.
pub open spec fn spec_scope_matches(requested: SpecScope, declared: SpecScope) -> bool {
    match (requested, declared) {
        (SpecScope::Any, _) => true,
        (_, SpecScope::Any) => true,
        (SpecScope::Tag(r), SpecScope::Tag(d)) => r == d,
    }
}

impl Scope {
    /// Build a concrete scope from a language tag.
    pub fn tag(t: &str) -> (r: Scope)
        ensures
            r@ == SpecScope::Tag(t@),
    {
        Scope::Tag(t.to_owned())
    }

    /// Decide whether a recognizer declared for scope `declared` applies to
    /// a query requested for scope `self`.
    pub fn matches(&self, declared: &Scope) -> (r: bool)
        ensures
            r == spec_scope_matches(self@, declared@),
    {
        match (self, declared) {
            (Scope::Any, _) => true,
            (_, Scope::Any) => true,
            (Scope::Tag(r), Scope::Tag(d)) => r.eq(d),
        }
    }
}

impl Default for Scope {
    /// The default scope is the wildcard.
    fn default() -> (r: Scope)
        ensures
            r@ == SpecScope::Any,
    {
        Scope::Any
    }
}

} // verus!
