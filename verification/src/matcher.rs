//! Recognizers ("matchers") and the candidates they produce.
//!
//! A [`Matcher`] is a named, locale-scoped, type-scoped recognizer. Its
//! recognition logic is a case-insensitive lexical table: the input text is
//! ASCII-lower-cased and looked up among the table's keys, and a hit yields
//! a [`Match`] carrying the entry's value and the matcher's confidence
//! weight. The table is plain data, so new recognizers — new languages, new
//! word sets — are contributed by registering new tables.

use vstd::prelude::*;

use crate::scope::{spec_scope_matches, Scope, SpecScope};
use crate::text::{lower_eq, lower_seq};
use crate::value::{HumanValue, ValueType};

verus! {

/// A possible match for a value within some text: one recognizer's
/// proposed value together with the strength of the proposal.
#[derive(Clone, Copy, Debug, Eq, PartialEq, Structural)]
pub struct Match {
    /// The value determined for this match.
    pub value: HumanValue,
    /// Strength of the match: a signed ranking score, higher meaning more
    /// likely. Useful when there is more than one possible match.
    pub weight: i32,
}

/// The mathematical model of a [`Matcher`].
pub struct SpecMatcher {
    /// Model of the display name.
    pub name: Seq<char>,
    /// Model of the declared locale scope.
    pub language: SpecScope,
    /// The declared kind.
    pub result_type: ValueType,
    /// Model of the lexical table.
    pub table: Seq<(Seq<char>, HumanValue)>,
    /// The confidence weight given to every hit.
    pub weight: i32,
}

/// A named unit of recognition logic, declared for one locale scope and one
/// value kind.
///
/// The logic is the lexical table `table`: [`Matcher::run`] lower-cases the
/// input and returns the value of the first entry whose key reads the same,
/// at confidence `weight`. Keys are expected to be lower-case already; an
/// entry whose key holds an upper-case ASCII character can never be hit.
pub struct Matcher {
    /// A display name, for diagnostics only.
    pub name: String,
    /// The locale scope this matcher is declared for.
    pub language: Scope,
    /// The kind of value this matcher produces.
    pub result_type: ValueType,
    /// The lexical table: looked-up words and the values they stand for.
    pub table: Vec<(String, HumanValue)>,
    /// The confidence weight carried by every match this matcher produces.
    pub weight: i32,
}

impl View for Matcher {
    type V = SpecMatcher;

    open spec fn view(&self) -> SpecMatcher {
        SpecMatcher {
            name: self.name@,
            language: self.language@,
            result_type: self.result_type,
            table: self.table@.map_values(|e: (String, HumanValue)| (e.0@, e.1)),
            weight: self.weight,
        }
    }
}

/// The value of the first table entry whose key is `word`, if any.
pub open spec fn spec_lookup(
    table: Seq<(Seq<char>, HumanValue)>,
    word: Seq<char>,
) -> Option<HumanValue>
    decreases table.len(),
{
    if table.len() == 0 {
        None
    } else if table[0].0 == word {
        Some(table[0].1)
    } else {
        spec_lookup(table.drop_first(), word)
    }
}

/// What a matcher answers on `text`: the input is ASCII-lower-cased and
/// looked up in the table; a hit carries the matcher's weight.
pub open spec fn spec_run(m: SpecMatcher, text: Seq<char>) -> Option<Match> {
    match spec_lookup(m.table, lower_seq(text)) {
        Some(v) => Some(Match { value: v, weight: m.weight }),
        None => None,
    }
}

/// Whether a matcher takes part in a query: its declared kind must be the
/// desired one and its declared scope must match the requested scope.
pub open spec fn spec_eligible(m: SpecMatcher, desired: ValueType, requested: SpecScope) -> bool {
    m.result_type == desired && spec_scope_matches(requested, m.language)
}

/// Whether a matcher's table conforms to its declared kind: every value it
/// could produce is of that kind.
pub open spec fn spec_conforms(m: SpecMatcher) -> bool {
    forall|i: int| 0 <= i < m.table.len() ==> (#[trigger] m.table[i]).1.kind() == m.result_type
}

proof fn lemma_conforming_lookup(table: Seq<(Seq<char>, HumanValue)>, word: Seq<char>, k: ValueType)
    requires
        forall|i: int| 0 <= i < table.len() ==> (#[trigger] table[i]).1.kind() == k,
        spec_lookup(table, word) is Some,
    ensures
        (spec_lookup(table, word)->Some_0).kind() == k,
    decreases table.len(),
{
    if table.len() == 0 {
    } else if table[0].0 == word {
    } else {
        let rest = table.drop_first();
        assert(forall|i: int| 0 <= i < rest.len() ==> (#[trigger] rest[i]).1.kind() == k) by {
            assert(forall|i: int| 0 <= i < rest.len() ==> #[trigger] rest[i] == table[i + 1]);
        }
        lemma_conforming_lookup(rest, word, k);
    }
}

/// The recognizer contract: a matcher whose table conforms to its declared
/// kind only produces candidates of that kind.
pub proof fn lemma_conforming_run(m: SpecMatcher, text: Seq<char>)
    requires
        spec_conforms(m),
        spec_run(m, text) is Some,
    ensures
        (spec_run(m, text)->Some_0).value.kind() == m.result_type,
{
    lemma_conforming_lookup(m.table, lower_seq(text), m.result_type);
}

impl Matcher {
    /// Whether this matcher's table conforms to its declared kind: every
    /// value it could produce carries the kind it is declared for.
    pub fn conforms(&self) -> (r: bool)
        ensures
            r == spec_conforms(self@),
    {
        let n = self.table.len();
        let mut i: usize = 0;
        while i < n
            invariant
                0 <= i <= n,
                n == self.table.len(),
                forall|j: int|
                    0 <= j < i ==> (#[trigger] self@.table[j]).1.kind() == self@.result_type,
            decreases n - i,
        {
            if !(self.table[i].1.kind() == self.result_type) {
                assert(self@.table[i as int].1.kind() != self@.result_type);
                return false;
            }
            i += 1;
        }
        true
    }

    /// Run this matcher on `text`: `None` if the text is not recognized,
    /// otherwise the recognized value at this matcher's weight.
    pub fn run(&self, text: &str) -> (r: Option<Match>)
        ensures
            r == spec_run(self@, text@),
    {
        let n = self.table.len();
        let mut i: usize = 0;
        assert(self@.table.skip(0) =~= self@.table);
        while i < n
            invariant
                0 <= i <= n,
                n == self.table.len(),
                spec_lookup(self@.table, lower_seq(text@)) == spec_lookup(
                    self@.table.skip(i as int),
                    lower_seq(text@),
                ),
            decreases n - i,
        {
            let entry = &self.table[i];
            if lower_eq(text, entry.0.as_str()) {
                return Some(Match { value: entry.1, weight: self.weight });
            }
            assert(self@.table.skip(i as int).drop_first() =~= self@.table.skip(i + 1));
            i += 1;
        }
        assert(self@.table.skip(n as int) =~= Seq::empty());
        None
    }
}

} // verus!
