//! Booleans — English humanization.
//!
//! Two built-in matchers recognize boolean text:
//!
//! * the numeral matcher, declared for the wildcard scope, recognizes
//!   `"1"` as `true` and `"0"` as `false` under every locale;
//! * the English word matcher, declared for `"en"`, recognizes `"ok"`,
//!   `"okay"`, `"on"`, `"true"`, `"yep"` and `"yes"` as `true`, and
//!   `"false"`, `"no"`, `"nope"` and `"off"` as `false` — case does not
//!   matter, and the words apply only where the requested scope matches
//!   English.

use vstd::prelude::*;

use crate::matcher::{Matcher, SpecMatcher};
use crate::parse::Parser;
use crate::scope::{spec_scope_matches, Scope, SpecScope};
use crate::value::{HumanValue, ValueType};

verus! {

/// The table of the numeral matcher: `"1"` and `"0"`.
pub open spec fn spec_numeral_table() -> Seq<(Seq<char>, HumanValue)> {
    seq![("1"@, HumanValue::Boolean(true)), ("0"@, HumanValue::Boolean(false))]
}

/// The table of the English word matcher.
pub open spec fn spec_word_table() -> Seq<(Seq<char>, HumanValue)> {
    seq![
        ("ok"@, HumanValue::Boolean(true)),
        ("okay"@, HumanValue::Boolean(true)),
        ("on"@, HumanValue::Boolean(true)),
        ("true"@, HumanValue::Boolean(true)),
        ("yep"@, HumanValue::Boolean(true)),
        ("yes"@, HumanValue::Boolean(true)),
        ("false"@, HumanValue::Boolean(false)),
        ("no"@, HumanValue::Boolean(false)),
        ("nope"@, HumanValue::Boolean(false)),
        ("off"@, HumanValue::Boolean(false)),
    ]
}

/// Model of the numeral matcher: wildcard scope, so it applies to every
/// query.
pub open spec fn spec_numeral_matcher() -> SpecMatcher {
    SpecMatcher {
        name: "Boolean Numerals"@,
        language: SpecScope::Any,
        result_type: ValueType::Boolean,
        table: spec_numeral_table(),
        weight: 100,
    }
}

/// Model of the English word matcher: applies only where the requested
/// scope matches `"en"`.
pub open spec fn spec_english_matcher() -> SpecMatcher {
    SpecMatcher {
        name: "English Booleans"@,
        language: SpecScope::Tag("en"@),
        result_type: ValueType::Boolean,
        table: spec_word_table(),
        weight: 100,
    }
}

fn numeral_matcher() -> (r: Matcher)
    ensures
        r@ == spec_numeral_matcher(),
{
    let mut table: Vec<(String, HumanValue)> = Vec::new();
    table.push(("1".to_owned(), HumanValue::Boolean(true)));
    table.push(("0".to_owned(), HumanValue::Boolean(false)));
    let m = Matcher {
        name: "Boolean Numerals".to_owned(),
        language: Scope::Any,
        result_type: ValueType::Boolean,
        table,
        weight: 100,
    };
    assert(m@.table =~= spec_numeral_table());
    m
}

fn english_matcher() -> (r: Matcher)
    ensures
        r@ == spec_english_matcher(),
{
    let mut table: Vec<(String, HumanValue)> = Vec::new();
    table.push(("ok".to_owned(), HumanValue::Boolean(true)));
    table.push(("okay".to_owned(), HumanValue::Boolean(true)));
    table.push(("on".to_owned(), HumanValue::Boolean(true)));
    table.push(("true".to_owned(), HumanValue::Boolean(true)));
    table.push(("yep".to_owned(), HumanValue::Boolean(true)));
    table.push(("yes".to_owned(), HumanValue::Boolean(true)));
    table.push(("false".to_owned(), HumanValue::Boolean(false)));
    table.push(("no".to_owned(), HumanValue::Boolean(false)));
    table.push(("nope".to_owned(), HumanValue::Boolean(false)));
    table.push(("off".to_owned(), HumanValue::Boolean(false)));
    let m = Matcher {
        name: "English Booleans".to_owned(),
        language: Scope::tag("en"),
        result_type: ValueType::Boolean,
        table,
        weight: 100,
    };
    assert(m@.table =~= spec_word_table());
    m
}

/// Register the matchers for English expressions of boolean values.
///
/// This doesn't need to be invoked directly typically. This will be called
/// by [`crate::english::register`]. On a scope-locked registry, each
/// matcher is taken only where its declared scope matches the fixed scope.
pub fn register(parser: &mut Parser)
    ensures
        final(parser)@.scope == old(parser)@.scope,
        spec_scope_matches(old(parser)@.scope, SpecScope::Tag("en"@))
            ==> final(parser)@.matchers == old(parser)@.matchers.push(spec_numeral_matcher()).push(
            spec_english_matcher(),
        ),
        !spec_scope_matches(old(parser)@.scope, SpecScope::Tag("en"@))
            ==> final(parser)@.matchers == old(parser)@.matchers.push(spec_numeral_matcher()),
{
    let _ = parser.register_matcher(numeral_matcher());
    let _ = parser.register_matcher(english_matcher());
}

} // verus!
