//! The matcher registry and resolution engine.
//!
//! A [`Parser`] owns an ordered sequence of [`Matcher`]s and, optionally, a
//! fixed locale scope the whole registry is locked to. Registration keeps
//! insertion order, and that order is semantically meaningful: resolution
//! walks the matchers in registration order, and the convenience entry
//! points take the first candidate produced — "first registered match
//! wins", not "highest weight wins". Callers who want best-weight-first
//! must sort the candidate sequence themselves.

use vstd::prelude::*;

use crate::matcher::{
    lemma_conforming_run, spec_conforms, spec_eligible, spec_run, Match, Matcher, SpecMatcher,
};
use crate::scope::{spec_scope_matches, Scope, SpecScope};
use crate::value::{HumanValue, ValueType};

verus! {

/// The mathematical model of a [`Parser`]: its fixed scope and the models
/// of its matchers, in registration order.
pub struct SpecParser {
    /// Model of the registry's fixed scope.
    pub scope: SpecScope,
    /// Models of the registered matchers, in registration order.
    pub matchers: Seq<SpecMatcher>,
}

/// What one matcher contributes to a query: its candidate if it is
/// eligible and recognizes the text, nothing otherwise.
pub open spec fn spec_contribution(
    m: SpecMatcher,
    text: Seq<char>,
    desired: ValueType,
    requested: SpecScope,
) -> Seq<Match> {
    if spec_eligible(m, desired, requested) {
        match spec_run(m, text) {
            Some(c) => seq![c],
            None => Seq::empty(),
        }
    } else {
        Seq::empty()
    }
}

/// The candidates a query returns: every matcher's contribution,
/// concatenated in registration order.
pub open spec fn spec_resolve(
    ms: Seq<SpecMatcher>,
    text: Seq<char>,
    desired: ValueType,
    requested: SpecScope,
) -> Seq<Match>
    decreases ms.len(),
{
    if ms.len() == 0 {
        Seq::empty()
    } else {
        spec_contribution(ms[0], text, desired, requested) + spec_resolve(
            ms.drop_first(),
            text,
            desired,
            requested,
        )
    }
}

/// What a "best candidate" query answers: the value of the first
/// candidate of the resolution, in registration order — not the heaviest
/// one.
pub open spec fn spec_parse_best(
    ms: Seq<SpecMatcher>,
    text: Seq<char>,
    desired: ValueType,
    requested: SpecScope,
) -> Option<HumanValue> {
    let candidates = spec_resolve(ms, text, desired, requested);
    if candidates.len() == 0 {
        None
    } else {
        Some(candidates[0].value)
    }
}

/// The boolean the first candidate stands for, if the candidate sequence
/// starts with a boolean candidate.
pub open spec fn spec_first_boolean(candidates: Seq<Match>) -> Option<bool> {
    if candidates.len() == 0 {
        None
    } else {
        match candidates[0].value {
            HumanValue::Boolean(b) => Some(b),
            _ => None,
        }
    }
}

/// What a boolean query answers: the first boolean candidate of the
/// resolution, in registration order.
pub open spec fn spec_parse_boolean(
    ms: Seq<SpecMatcher>,
    text: Seq<char>,
    requested: SpecScope,
) -> Option<bool> {
    spec_first_boolean(spec_resolve(ms, text, ValueType::Boolean, requested))
}

/// The registry of matchers: the central dispatch and ranking engine.
///
/// A parser is built once — typically with the default matchers — and then
/// queried many times; queries never mutate it. A parser may be locked to a
/// fixed scope, in which case [`Parser::register_matcher`] rejects every
/// matcher whose declared scope does not match that fixed scope.
pub struct Parser {
    /// The scope this registry is locked to; the wildcard locks nothing.
    scope: Scope,
    /// The matchers registered so far, in registration order.
    matchers: Vec<Matcher>,
}

impl View for Parser {
    type V = SpecParser;

    closed spec fn view(&self) -> SpecParser {
        SpecParser {
            scope: self.scope@,
            matchers: self.matchers@.map_values(|m: Matcher| m@),
        }
    }
}

impl Parser {
    /// Construct a new parser, including the default matchers.
    pub fn new() -> (r: Parser)
        ensures
            r@.scope == SpecScope::Any,
            r@.matchers == crate::english::spec_default_matchers(),
    {
        let mut p = Parser { scope: Scope::Any, matchers: Vec::new() };
        crate::english::register(&mut p);
        p
    }

    /// Construct a new parser, but without any of the default matchers.
    pub fn new_without_default_matchers() -> (r: Parser)
        ensures
            r@.scope == SpecScope::Any,
            r@.matchers == Seq::<SpecMatcher>::empty(),
    {
        let p = Parser { scope: Scope::Any, matchers: Vec::new() };
        assert(p@.matchers =~= Seq::<SpecMatcher>::empty());
        p
    }

    /// Construct an empty parser locked to a fixed scope: registration will
    /// reject every matcher whose declared scope does not match `scope`.
    pub fn scoped(scope: Scope) -> (r: Parser)
        ensures
            r@.scope == scope@,
            r@.matchers == Seq::<SpecMatcher>::empty(),
    {
        let p = Parser { scope, matchers: Vec::new() };
        assert(p@.matchers =~= Seq::<SpecMatcher>::empty());
        p
    }

    /// Add `matcher` to the registry, keeping registration order.
    ///
    /// On a scope-locked registry a matcher whose declared scope does not
    /// match the fixed scope is silently rejected, and the call reports
    /// failure; rejection is an expected outcome, not an error.
    pub fn register_matcher(&mut self, matcher: Matcher) -> (accepted: bool)
        ensures
            accepted == spec_scope_matches(old(self)@.scope, matcher@.language),
            final(self)@.scope == old(self)@.scope,
            accepted ==> final(self)@.matchers == old(self)@.matchers.push(matcher@),
            !accepted ==> final(self)@.matchers == old(self)@.matchers,
    {
        if self.scope.matches(&matcher.language) {
            let ghost prior = self@.matchers;
            let ghost m = matcher@;
            self.matchers.push(matcher);
            assert(self@.matchers =~= prior.push(m));
            true
        } else {
            false
        }
    }

    /// Parse `text`, looking for a value of the desired kind, limited to
    /// the matchers whose declared scope matches `language`.
    ///
    /// Every eligible matcher that recognizes the text contributes one
    /// candidate, and the candidates come back in registration order — no
    /// sort by weight is performed. An empty result is the normal outcome
    /// when nothing matches, never a failure.
    pub fn parse(&self, text: &str, desired: ValueType, language: &Scope) -> (r: Vec<Match>)
        ensures
            r@ == spec_resolve(self@.matchers, text@, desired, language@),
    {
        let ghost ms = self@.matchers;
        let n = self.matchers.len();
        let mut out: Vec<Match> = Vec::new();
        let mut i: usize = 0;
        assert(ms.skip(0) =~= ms);
        while i < n
            invariant
                0 <= i <= n,
                n == self.matchers.len(),
                ms == self@.matchers,
                spec_resolve(ms, text@, desired, language@) == out@ + spec_resolve(
                    ms.skip(i as int),
                    text@,
                    desired,
                    language@,
                ),
            decreases n - i,
        {
            let matcher = &self.matchers[i];
            let ghost tail = ms.skip(i as int);
            assert(tail[0] == ms[i as int]);
            assert(tail.drop_first() =~= ms.skip(i + 1));
            if matcher.result_type == desired && language.matches(&matcher.language) {
                match matcher.run(text) {
                    Some(c) => {
                        let ghost prior = out@;
                        out.push(c);
                        assert(out@ =~= prior + seq![c]);
                        assert(prior + spec_contribution(tail[0], text@, desired, language@)
                            + spec_resolve(tail.drop_first(), text@, desired, language@) =~= out@
                            + spec_resolve(ms.skip(i + 1), text@, desired, language@));
                    },
                    None => {
                        assert(spec_contribution(tail[0], text@, desired, language@)
                            =~= Seq::<Match>::empty());
                        assert(out@ + spec_contribution(tail[0], text@, desired, language@)
                            + spec_resolve(tail.drop_first(), text@, desired, language@) =~= out@
                            + spec_resolve(ms.skip(i + 1), text@, desired, language@));
                    },
                }
            } else {
                assert(spec_contribution(tail[0], text@, desired, language@) =~= Seq::<
                    Match,
                >::empty());
                assert(out@ + spec_contribution(tail[0], text@, desired, language@) + spec_resolve(
                    tail.drop_first(),
                    text@,
                    desired,
                    language@,
                ) =~= out@ + spec_resolve(ms.skip(i + 1), text@, desired, language@));
            }
            i += 1;
        }
        assert(ms.skip(n as int) =~= Seq::<SpecMatcher>::empty());
        assert(out@ + Seq::<Match>::empty() =~= out@);
        out
    }

    /// Parse `text`, looking for the single most likely value of the
    /// desired kind.
    ///
    /// "Best" means the candidate of the first registered matcher that
    /// matched, whatever the weights say: no sort by weight is performed.
    /// `None` is the normal outcome when nothing matches, never a failure.
    pub fn parse_best(&self, text: &str, desired: ValueType, language: &Scope) -> (r: Option<
        HumanValue,
    >)
        ensures
            r == spec_parse_best(self@.matchers, text@, desired, language@),
    {
        let candidates = self.parse(text, desired, language);
        if candidates.len() > 0 {
            Some(candidates[0].value)
        } else {
            None
        }
    }

    /// Parse `text`, looking for a `bool` value.
    ///
    /// Takes the value of the first candidate, in registration order, that
    /// the resolution produced — the first registered matcher that matched
    /// wins, whatever the weights say. Pass [`Scope::Any`] to leave the
    /// matching unrestricted by language.
    pub fn parse_boolean(&self, text: &str, language: &Scope) -> (r: Option<bool>)
        ensures
            r == spec_parse_boolean(self@.matchers, text@, language@),
    {
        match self.parse_best(text, ValueType::Boolean, language) {
            Some(HumanValue::Boolean(b)) => Some(b),
            _ => None,
        }
    }
}

impl Default for Parser {
    /// The default parser carries the default matchers, like
    /// [`Parser::new`].
    fn default() -> (r: Parser)
        ensures
            r@.scope == SpecScope::Any,
            r@.matchers == crate::english::spec_default_matchers(),
    {
        Parser::new()
    }
}

/// First registered match wins: if matcher `i` is eligible and recognizes
/// the text, and no earlier matcher does, then the resolution starts with
/// matcher `i`'s candidate.
pub proof fn lemma_first_match_wins(
    ms: Seq<SpecMatcher>,
    text: Seq<char>,
    desired: ValueType,
    requested: SpecScope,
    i: int,
)
    requires
        0 <= i < ms.len(),
        spec_eligible(ms[i], desired, requested),
        spec_run(ms[i], text) is Some,
        forall|k: int|
            0 <= k < i ==> !(spec_eligible(ms[k], desired, requested) && spec_run(ms[k], text)
                is Some),
    ensures
        spec_resolve(ms, text, desired, requested).len() > 0,
        spec_resolve(ms, text, desired, requested)[0] == spec_run(ms[i], text)->Some_0,
    decreases i,
{
    if i == 0 {
    } else {
        assert(spec_contribution(ms[0], text, desired, requested) =~= Seq::<Match>::empty());
        let rest = ms.drop_first();
        assert(rest[i - 1] == ms[i]);
        assert(forall|k: int|
            0 <= k < i - 1 ==> !(spec_eligible(rest[k], desired, requested) && spec_run(
                rest[k],
                text,
            ) is Some)) by {
            assert(forall|k: int| 0 <= k < i - 1 ==> rest[k] == ms[k + 1]);
        }
        lemma_first_match_wins(rest, text, desired, requested, i - 1);
    }
}

/// First registered match wins for boolean queries: under the same
/// hypotheses, if matcher `i`'s candidate carries `Boolean(b)`, a boolean
/// query answers `Some(b)` — whatever later matchers would have said, and
/// whatever their weights are.
pub proof fn lemma_first_boolean_wins(
    ms: Seq<SpecMatcher>,
    text: Seq<char>,
    requested: SpecScope,
    i: int,
    b: bool,
)
    requires
        0 <= i < ms.len(),
        spec_eligible(ms[i], ValueType::Boolean, requested),
        spec_run(ms[i], text) is Some,
        (spec_run(ms[i], text)->Some_0).value == HumanValue::Boolean(b),
        forall|k: int|
            0 <= k < i ==> !(spec_eligible(ms[k], ValueType::Boolean, requested) && spec_run(
                ms[k],
                text,
            ) is Some),
    ensures
        spec_parse_boolean(ms, text, requested) == Some(b),
{
    lemma_first_match_wins(ms, text, ValueType::Boolean, requested, i);
}

/// Under conforming matchers, every candidate a query returns is of the
/// desired kind: resolution never mixes kinds.
pub proof fn lemma_resolve_kinds(
    ms: Seq<SpecMatcher>,
    text: Seq<char>,
    desired: ValueType,
    requested: SpecScope,
)
    requires
        forall|k: int| 0 <= k < ms.len() ==> spec_conforms(#[trigger] ms[k]),
    ensures
        forall|j: int|
            0 <= j < spec_resolve(ms, text, desired, requested).len() ==> (#[trigger] spec_resolve(
                ms,
                text,
                desired,
                requested,
            )[j]).value.kind() == desired,
    decreases ms.len(),
{
    if ms.len() > 0 {
        let c = spec_contribution(ms[0], text, desired, requested);
        let rest = ms.drop_first();
        assert(forall|k: int| 0 <= k < rest.len() ==> spec_conforms(#[trigger] rest[k])) by {
            assert(forall|k: int| 0 <= k < rest.len() ==> #[trigger] rest[k] == ms[k + 1]);
        }
        lemma_resolve_kinds(rest, text, desired, requested);
        if spec_eligible(ms[0], desired, requested) && spec_run(ms[0], text) is Some {
            lemma_conforming_run(ms[0], text);
        }
        assert forall|j: int|
            0 <= j < spec_resolve(ms, text, desired, requested).len() implies (
        #[trigger] spec_resolve(ms, text, desired, requested)[j]).value.kind() == desired by {
            if j >= c.len() {
                assert(spec_resolve(ms, text, desired, requested)[j] == spec_resolve(
                    rest,
                    text,
                    desired,
                    requested,
                )[j - c.len()]);
            }
        }
    }
}

/// Under conforming matchers, a boolean query answers a value exactly when
/// its resolution is non-empty: the first candidate is then itself a
/// boolean candidate.
pub proof fn lemma_parse_boolean_some(ms: Seq<SpecMatcher>, text: Seq<char>, requested: SpecScope)
    requires
        forall|k: int| 0 <= k < ms.len() ==> spec_conforms(#[trigger] ms[k]),
    ensures
        spec_parse_boolean(ms, text, requested) is Some <==> spec_resolve(
            ms,
            text,
            ValueType::Boolean,
            requested,
        ).len() > 0,
{
    lemma_resolve_kinds(ms, text, ValueType::Boolean, requested);
}

} // verus!
