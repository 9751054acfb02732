//! Boolean humanization.
//!
//! For all locales, `"1"` parses as `true` and `"0"` as `false`.
//!
//! In English, these lexical values map to `true`:
//!
//! * `"ok"`
//! * `"okay"`
//! * `"on"`
//! * `"true"`
//! * `"yep"`
//! * `"yes"`
//!
//! and these to `false`:
//!
//! * `"false"`
//! * `"no"`
//! * `"nope"`
//! * `"off"`
//!
//! Case does not matter. The proof functions below state these rules once
//! and for all: over every text of the right (lower-cased) spelling and
//! every locale scope the rules allow.

use vstd::prelude::*;

use crate::english::boolean::{
    spec_english_matcher, spec_numeral_matcher, spec_numeral_table, spec_word_table,
};
use crate::english::spec_default_matchers;
use crate::matcher::{spec_eligible, spec_lookup, Match, SpecMatcher};
use crate::parse::{spec_contribution, spec_resolve, Parser};
use crate::parser::Parse;
use crate::scope::{spec_scope_matches, Scope, SpecScope};
use crate::text::lower_seq;
use crate::value::{HumanValue, ValueType};

verus! {

impl Parse for bool {
    /// What boolean parsing answers: the boolean query of a default
    /// registry.
    open spec fn spec_parse(text: Seq<char>, scope: SpecScope) -> Option<bool> {
        crate::parse::spec_parse_boolean(spec_default_matchers(), text, scope)
    }

    fn parse(text: &str, scope: Option<&Scope>) -> Option<bool> {
        let p = Parser::new();
        match scope {
            Some(s) => p.parse_boolean(text, s),
            None => p.parse_boolean(text, &Scope::Any),
        }
    }
}

/// The lower-cased spellings that parse as `true`.
pub open spec fn spec_true_word(w: Seq<char>) -> bool {
    w == "1"@ || w == "ok"@ || w == "okay"@ || w == "on"@ || w == "true"@ || w == "yep"@ || w
        == "yes"@
}

/// The lower-cased spellings that parse as `false`.
pub open spec fn spec_false_word(w: Seq<char>) -> bool {
    w == "0"@ || w == "false"@ || w == "no"@ || w == "nope"@ || w == "off"@
}

proof fn lemma_word_chars()
    ensures
        "1"@ == seq!['1'],
        "0"@ == seq!['0'],
        "ok"@ == seq!['o', 'k'],
        "okay"@ == seq!['o', 'k', 'a', 'y'],
        "on"@ == seq!['o', 'n'],
        "true"@ == seq!['t', 'r', 'u', 'e'],
        "yep"@ == seq!['y', 'e', 'p'],
        "yes"@ == seq!['y', 'e', 's'],
        "false"@ == seq!['f', 'a', 'l', 's', 'e'],
        "no"@ == seq!['n', 'o'],
        "nope"@ == seq!['n', 'o', 'p', 'e'],
        "off"@ == seq!['o', 'f', 'f'],
{
    reveal_strlit("1");
    reveal_strlit("0");
    reveal_strlit("ok");
    reveal_strlit("okay");
    reveal_strlit("on");
    reveal_strlit("true");
    reveal_strlit("yep");
    reveal_strlit("yes");
    reveal_strlit("false");
    reveal_strlit("no");
    reveal_strlit("nope");
    reveal_strlit("off");
    assert("1"@ =~= seq!['1']);
    assert("0"@ =~= seq!['0']);
    assert("ok"@ =~= seq!['o', 'k']);
    assert("okay"@ =~= seq!['o', 'k', 'a', 'y']);
    assert("on"@ =~= seq!['o', 'n']);
    assert("true"@ =~= seq!['t', 'r', 'u', 'e']);
    assert("yep"@ =~= seq!['y', 'e', 'p']);
    assert("yes"@ =~= seq!['y', 'e', 's']);
    assert("false"@ =~= seq!['f', 'a', 'l', 's', 'e']);
    assert("no"@ =~= seq!['n', 'o']);
    assert("nope"@ =~= seq!['n', 'o', 'p', 'e']);
    assert("off"@ =~= seq!['o', 'f', 'f']);
}

proof fn lemma_numeral_lookup(w: Seq<char>)
    ensures
        w == "1"@ ==> spec_lookup(spec_numeral_table(), w) == Some(HumanValue::Boolean(true)),
        w == "0"@ ==> spec_lookup(spec_numeral_table(), w) == Some(HumanValue::Boolean(false)),
        w != "1"@ && w != "0"@ ==> spec_lookup(spec_numeral_table(), w) is None,
{
    lemma_word_chars();
    reveal_with_fuel(spec_lookup, 4);
    assert(seq!['1'][0] == '1');
    assert(seq!['0'][0] == '0');
    assert("1"@ != "0"@);
    let t = spec_numeral_table();
    assert(t.drop_first() =~= seq![("0"@, HumanValue::Boolean(false))]);
    assert(t.drop_first().drop_first() =~= Seq::<(Seq<char>, HumanValue)>::empty());
}

proof fn lemma_word_lookup(w: Seq<char>)
    ensures
        w == "ok"@ || w == "okay"@ || w == "on"@ || w == "true"@ || w == "yep"@ || w == "yes"@
            ==> spec_lookup(spec_word_table(), w) == Some(HumanValue::Boolean(true)),
        w == "false"@ || w == "no"@ || w == "nope"@ || w == "off"@ ==> spec_lookup(
            spec_word_table(),
            w,
        ) == Some(HumanValue::Boolean(false)),
        !(w == "ok"@ || w == "okay"@ || w == "on"@ || w == "true"@ || w == "yep"@ || w == "yes"@
            || w == "false"@ || w == "no"@ || w == "nope"@ || w == "off"@) ==> spec_lookup(
            spec_word_table(),
            w,
        ) is None,
{
    lemma_word_chars();
    reveal_with_fuel(spec_lookup, 12);
    let t0 = spec_word_table();
    let t1 = t0.drop_first();
    let t2 = t1.drop_first();
    let t3 = t2.drop_first();
    let t4 = t3.drop_first();
    let t5 = t4.drop_first();
    let t6 = t5.drop_first();
    let t7 = t6.drop_first();
    let t8 = t7.drop_first();
    let t9 = t8.drop_first();
    let t10 = t9.drop_first();
    assert(t1 =~= t0.subrange(1, 10));
    assert(t10.len() == 0);
    assert(t1[0] == t0[1] && t2[0] == t0[2] && t3[0] == t0[3] && t4[0] == t0[4] && t5[0] == t0[5]
        && t6[0] == t0[6] && t7[0] == t0[7] && t8[0] == t0[8] && t9[0] == t0[9]);
}

proof fn lemma_default_resolution(text: Seq<char>, scope: SpecScope)
    ensures
        spec_resolve(spec_default_matchers(), text, ValueType::Boolean, scope)
            == spec_contribution(spec_numeral_matcher(), text, ValueType::Boolean, scope)
            + spec_contribution(spec_english_matcher(), text, ValueType::Boolean, scope),
{
    reveal_with_fuel(spec_resolve, 4);
    let ms = spec_default_matchers();
    let rest = ms.drop_first();
    assert(rest =~= seq![spec_english_matcher()]);
    assert(rest.drop_first() =~= Seq::<SpecMatcher>::empty());
    assert(spec_resolve(rest, text, ValueType::Boolean, scope) == spec_contribution(
        spec_english_matcher(),
        text,
        ValueType::Boolean,
        scope,
    ) + Seq::<Match>::empty());
    assert(spec_contribution(spec_english_matcher(), text, ValueType::Boolean, scope) + Seq::<
        Match,
    >::empty() =~= spec_contribution(spec_english_matcher(), text, ValueType::Boolean, scope));
}

/// Any casing of a word of the true-set parses as `true` wherever the
/// requested scope matches English — in particular under the wildcard and
/// under `"en"` itself.
pub proof fn lemma_true_words(text: Seq<char>, scope: SpecScope)
    requires
        spec_true_word(lower_seq(text)),
        spec_scope_matches(scope, SpecScope::Tag("en"@)),
    ensures
        <bool as Parse>::spec_parse(text, scope) == Some(true),
{
    let w = lower_seq(text);
    lemma_default_resolution(text, scope);
    lemma_numeral_lookup(w);
    lemma_word_lookup(w);
    lemma_word_chars();
    let c0 = spec_contribution(spec_numeral_matcher(), text, ValueType::Boolean, scope);
    let c1 = spec_contribution(spec_english_matcher(), text, ValueType::Boolean, scope);
    if w == "1"@ {
        assert(c0 == seq![Match { value: HumanValue::Boolean(true), weight: 100 }]);
        assert((c0 + c1)[0] == c0[0]);
    } else {
        assert(spec_lookup(spec_numeral_table(), w) is None);
        assert(c0 =~= Seq::<Match>::empty());
        assert(spec_eligible(spec_english_matcher(), ValueType::Boolean, scope));
        assert(c1 == seq![Match { value: HumanValue::Boolean(true), weight: 100 }]);
        assert((c0 + c1)[0] == c1[0]);
    }
}

/// Any casing of a word of the false-set parses as `false` wherever the
/// requested scope matches English.
pub proof fn lemma_false_words(text: Seq<char>, scope: SpecScope)
    requires
        spec_false_word(lower_seq(text)),
        spec_scope_matches(scope, SpecScope::Tag("en"@)),
    ensures
        <bool as Parse>::spec_parse(text, scope) == Some(false),
{
    let w = lower_seq(text);
    lemma_default_resolution(text, scope);
    lemma_numeral_lookup(w);
    lemma_word_lookup(w);
    lemma_word_chars();
    let c0 = spec_contribution(spec_numeral_matcher(), text, ValueType::Boolean, scope);
    let c1 = spec_contribution(spec_english_matcher(), text, ValueType::Boolean, scope);
    if w == "0"@ {
        assert(c0 == seq![Match { value: HumanValue::Boolean(false), weight: 100 }]);
        assert((c0 + c1)[0] == c0[0]);
    } else {
        assert(spec_lookup(spec_numeral_table(), w) is None);
        assert(c0 =~= Seq::<Match>::empty());
        assert(c1 == seq![Match { value: HumanValue::Boolean(false), weight: 100 }]);
        assert((c0 + c1)[0] == c1[0]);
    }
}

/// `"1"` and `"0"` parse as `true` and `false` under every locale scope,
/// matched or not.
pub proof fn lemma_numerals_every_scope(scope: SpecScope)
    ensures
        <bool as Parse>::spec_parse("1"@, scope) == Some(true),
        <bool as Parse>::spec_parse("0"@, scope) == Some(false),
{
    reveal_strlit("1");
    reveal_strlit("0");
    assert(lower_seq("1"@) =~= "1"@);
    assert(lower_seq("0"@) =~= "0"@);
    lemma_default_resolution("1"@, scope);
    lemma_default_resolution("0"@, scope);
    lemma_numeral_lookup("1"@);
    lemma_numeral_lookup("0"@);
    lemma_word_lookup("1"@);
    lemma_word_lookup("0"@);
    lemma_word_chars();
    let c0t = spec_contribution(spec_numeral_matcher(), "1"@, ValueType::Boolean, scope);
    let c1t = spec_contribution(spec_english_matcher(), "1"@, ValueType::Boolean, scope);
    assert(c0t == seq![Match { value: HumanValue::Boolean(true), weight: 100 }]);
    assert((c0t + c1t)[0] == c0t[0]);
    let c0f = spec_contribution(spec_numeral_matcher(), "0"@, ValueType::Boolean, scope);
    let c1f = spec_contribution(spec_english_matcher(), "0"@, ValueType::Boolean, scope);
    assert(c0f == seq![Match { value: HumanValue::Boolean(false), weight: 100 }]);
    assert((c0f + c1f)[0] == c0f[0]);
}

/// Lexical words other than `"1"` and `"0"` parse as `None` when the
/// requested scope is a concrete tag other than `"en"`.
pub proof fn lemma_words_need_english(text: Seq<char>, tag: Seq<char>)
    requires
        spec_true_word(lower_seq(text)) || spec_false_word(lower_seq(text)),
        lower_seq(text) != "1"@,
        lower_seq(text) != "0"@,
        tag != "en"@,
    ensures
        <bool as Parse>::spec_parse(text, SpecScope::Tag(tag)) == None::<bool>,
{
    let w = lower_seq(text);
    let scope = SpecScope::Tag(tag);
    lemma_default_resolution(text, scope);
    lemma_numeral_lookup(w);
    assert(!spec_eligible(spec_english_matcher(), ValueType::Boolean, scope));
    let c0 = spec_contribution(spec_numeral_matcher(), text, ValueType::Boolean, scope);
    let c1 = spec_contribution(spec_english_matcher(), text, ValueType::Boolean, scope);
    assert(c0 =~= Seq::<Match>::empty());
    assert(c1 =~= Seq::<Match>::empty());
    assert(c0 + c1 =~= Seq::<Match>::empty());
}

/// A text whose lower-cased spelling is in neither word set parses as
/// `None` under every scope.
pub proof fn lemma_unrecognized(text: Seq<char>, scope: SpecScope)
    requires
        !spec_true_word(lower_seq(text)),
        !spec_false_word(lower_seq(text)),
    ensures
        <bool as Parse>::spec_parse(text, scope) == None::<bool>,
{
    let w = lower_seq(text);
    lemma_default_resolution(text, scope);
    lemma_numeral_lookup(w);
    lemma_word_lookup(w);
    let c0 = spec_contribution(spec_numeral_matcher(), text, ValueType::Boolean, scope);
    let c1 = spec_contribution(spec_english_matcher(), text, ValueType::Boolean, scope);
    assert(c0 =~= Seq::<Match>::empty());
    assert(c1 =~= Seq::<Match>::empty());
    assert(c0 + c1 =~= Seq::<Match>::empty());
}

} // verus!
