//! English humanization: the built-in matchers.

use vstd::prelude::*;

use crate::matcher::{spec_conforms, SpecMatcher};
use crate::parse::Parser;
use crate::scope::{spec_scope_matches, SpecScope};

pub mod boolean;

verus! {

/// The matchers a default [`Parser`] carries, in registration order: the
/// numeral matcher first, the English word matcher second.
pub open spec fn spec_default_matchers() -> Seq<SpecMatcher> {
    seq![boolean::spec_numeral_matcher(), boolean::spec_english_matcher()]
}

/// Both built-in matchers conform to their declared kind: every value
/// their tables can produce is a boolean.
pub proof fn lemma_default_matchers_conform()
    ensures
        forall|j: int|
            0 <= j < spec_default_matchers().len() ==> spec_conforms(
                #[trigger] spec_default_matchers()[j],
            ),
{
    let n = boolean::spec_numeral_matcher();
    let e = boolean::spec_english_matcher();
    assert(spec_conforms(n));
    assert(spec_conforms(e));
    assert(spec_default_matchers()[0] == n);
    assert(spec_default_matchers()[1] == e);
}

/// Register all of the English language matchers.
///
/// This doesn't need to be invoked directly typically. This will be called
/// when creating a default [`Parser`]. On a scope-locked registry, each
/// matcher is taken only where its declared scope matches the fixed scope;
/// the numeral matcher, declared for the wildcard, is always taken.
pub fn register(parser: &mut Parser)
    ensures
        final(parser)@.scope == old(parser)@.scope,
        spec_scope_matches(old(parser)@.scope, SpecScope::Tag("en"@))
            ==> final(parser)@.matchers == old(parser)@.matchers.push(
            boolean::spec_numeral_matcher(),
        ).push(boolean::spec_english_matcher()),
        !spec_scope_matches(old(parser)@.scope, SpecScope::Tag("en"@))
            ==> final(parser)@.matchers == old(parser)@.matchers.push(
            boolean::spec_numeral_matcher(),
        ),
{
    boolean::register(parser);
}

} // verus!
