use humanize::matcher::{Match, Matcher};
use humanize::parse::Parser;
use humanize::scope::Scope;
use humanize::value::{HumanValue, ValueType};

fn boolean_matcher(name: &str, language: Scope, entries: &[(&str, bool)], weight: i32) -> Matcher {
    let mut table: Vec<(String, HumanValue)> = Vec::new();
    for (word, value) in entries {
        table.push((String::from(*word), HumanValue::Boolean(*value)));
    }
    Matcher { name: String::from(name), language, result_type: ValueType::Boolean, table, weight }
}

#[test]
fn default_parser_answers_boolean_queries() {
    let parser = Parser::new();
    assert_eq!(Some(true), parser.parse_boolean("on", &Scope::Any));
    assert_eq!(Some(true), parser.parse_boolean("ON", &Scope::tag("en")));
    assert_eq!(Some(false), parser.parse_boolean("off", &Scope::Any));
    assert_eq!(None, parser.parse_boolean("on", &Scope::tag("sv")));
    assert_eq!(None, parser.parse_boolean("maybe", &Scope::Any));
    let parser = Parser::default();
    assert_eq!(Some(true), parser.parse_boolean("yes", &Scope::default()));
}

#[test]
fn resolve_returns_weighted_candidates() {
    let parser = Parser::new();
    let candidates = parser.parse("yes", ValueType::Boolean, &Scope::Any);
    assert_eq!(vec![Match { value: HumanValue::Boolean(true), weight: 100 }], candidates);
    // No built-in matcher produces any other kind.
    assert_eq!(0, parser.parse("yes", ValueType::Integer, &Scope::Any).len());
    // Unrecognized text resolves to an empty sequence, not an error.
    assert_eq!(0, parser.parse("maybe", ValueType::Boolean, &Scope::Any).len());
}

#[test]
fn registered_matchers_extend_the_parser() {
    let mut parser = Parser::new_without_default_matchers();
    assert_eq!(None, parser.parse_boolean("ja", &Scope::tag("de")));
    let german = boolean_matcher("German Booleans", Scope::tag("de"), &[("ja", true), ("nein", false)], 50);
    assert!(parser.register_matcher(german));
    assert_eq!(Some(true), parser.parse_boolean("ja", &Scope::tag("de")));
    assert_eq!(Some(false), parser.parse_boolean("NEIN", &Scope::tag("de")));
    assert_eq!(Some(true), parser.parse_boolean("ja", &Scope::Any));
    assert_eq!(None, parser.parse_boolean("ja", &Scope::tag("en")));
}

#[test]
fn scope_locked_registry_rejects_mismatched_scopes() {
    let mut parser = Parser::scoped(Scope::tag("no"));
    let before = parser.parse("ja", ValueType::Boolean, &Scope::Any);
    // An English matcher does not match the fixed scope: rejected.
    let english = boolean_matcher("English Booleans", Scope::tag("en"), &[("yes", true)], 100);
    assert_eq!(false, parser.register_matcher(english));
    // The effective recognizer set is unchanged: resolution behaves as if
    // the registration never happened.
    assert_eq!(before, parser.parse("ja", ValueType::Boolean, &Scope::Any));
    assert_eq!(None, parser.parse_boolean("yes", &Scope::Any));
    // A wildcard-scoped matcher always matches the fixed scope.
    let anywhere = boolean_matcher("Norwegian Booleans", Scope::Any, &[("ja", true)], 100);
    assert_eq!(true, parser.register_matcher(anywhere));
    assert_eq!(Some(true), parser.parse_boolean("ja", &Scope::Any));
    // A matcher declared for the fixed scope itself is accepted too.
    let same = boolean_matcher("More Norwegian", Scope::tag("no"), &[("nei", false)], 100);
    assert_eq!(true, parser.register_matcher(same));
    assert_eq!(Some(false), parser.parse_boolean("nei", &Scope::tag("no")));
}

#[test]
fn first_registered_match_wins() {
    let mut parser = Parser::new_without_default_matchers();
    let first = boolean_matcher("First", Scope::Any, &[("x", true)], 1);
    let second = boolean_matcher("Second", Scope::Any, &[("x", false)], 999);
    assert!(parser.register_matcher(first));
    assert!(parser.register_matcher(second));
    // Both matchers produce a candidate, in registration order; the
    // convenience query takes the first one, not the heaviest one.
    let candidates = parser.parse("x", ValueType::Boolean, &Scope::Any);
    assert_eq!(
        vec![
            Match { value: HumanValue::Boolean(true), weight: 1 },
            Match { value: HumanValue::Boolean(false), weight: 999 },
        ],
        candidates
    );
    assert_eq!(Some(true), parser.parse_boolean("x", &Scope::Any));
}

#[test]
fn parse_best_takes_the_first_candidate() {
    let parser = Parser::new();
    assert_eq!(
        Some(HumanValue::Boolean(true)),
        parser.parse_best("yes", ValueType::Boolean, &Scope::Any)
    );
    assert_eq!(None, parser.parse_best("yes", ValueType::Integer, &Scope::Any));
    assert_eq!(None, parser.parse_best("maybe", ValueType::Boolean, &Scope::Any));

    let mut two = Parser::new_without_default_matchers();
    assert!(two.register_matcher(boolean_matcher("Light", Scope::Any, &[("x", false)], 1)));
    assert!(two.register_matcher(boolean_matcher("Heavy", Scope::Any, &[("x", true)], 1000)));
    assert_eq!(Some(HumanValue::Boolean(false)), two.parse_best("x", ValueType::Boolean, &Scope::Any));
}

#[test]
fn table_keys_are_matched_as_written() {
    // Keys are compared against the lower-cased text as they stand, so an
    // upper-case key is never hit.
    let mut parser = Parser::new_without_default_matchers();
    let shouting = boolean_matcher("Shouting", Scope::Any, &[("YES", true)], 100);
    assert!(parser.register_matcher(shouting));
    assert_eq!(None, parser.parse_boolean("yes", &Scope::Any));
    assert_eq!(None, parser.parse_boolean("YES", &Scope::Any));
}

#[test]
fn english_register_respects_locked_scope() {
    let mut parser = Parser::new_without_default_matchers();
    humanize::english::register(&mut parser);
    assert_eq!(Some(true), parser.parse_boolean("yes", &Scope::Any));
    assert_eq!(Some(true), parser.parse_boolean("1", &Scope::Any));

    // Locked to Norwegian, only the wildcard-scoped numeral matcher is
    // taken: numerals still parse, English words do not.
    let mut locked = Parser::scoped(Scope::tag("no"));
    humanize::english::register(&mut locked);
    assert_eq!(Some(true), locked.parse_boolean("1", &Scope::Any));
    assert_eq!(Some(false), locked.parse_boolean("0", &Scope::Any));
    assert_eq!(None, locked.parse_boolean("yes", &Scope::Any));
}

#[test]
fn queries_filter_by_kind() {
    let mut parser = Parser::new_without_default_matchers();
    let mut table: Vec<(String, HumanValue)> = Vec::new();
    table.push((String::from("ten"), HumanValue::Integer(10)));
    let numbers = Matcher {
        name: String::from("English Numbers"),
        language: Scope::Any,
        result_type: ValueType::Integer,
        table,
        weight: 10,
    };
    assert!(parser.register_matcher(numbers));
    let candidates = parser.parse("ten", ValueType::Integer, &Scope::Any);
    assert_eq!(vec![Match { value: HumanValue::Integer(10), weight: 10 }], candidates);
    // A boolean query never consults a matcher of another kind.
    assert_eq!(0, parser.parse("ten", ValueType::Boolean, &Scope::Any).len());
    assert_eq!(None, parser.parse_boolean("ten", &Scope::Any));
}

#[test]
fn values_know_their_kind() {
    assert_eq!(ValueType::Boolean, HumanValue::Boolean(true).kind());
    assert_eq!(ValueType::Duration, HumanValue::Duration(5).kind());
    assert_eq!(ValueType::Instant, HumanValue::Instant(-7).kind());
    assert_eq!(ValueType::Integer, HumanValue::Integer(42).kind());
    assert_eq!(ValueType::Ordinal, HumanValue::Ordinal(1).kind());
}

#[test]
fn conformance_is_checkable() {
    let good = boolean_matcher("Good", Scope::Any, &[("x", true), ("y", false)], 1);
    assert!(good.conforms());
    let mut table: Vec<(String, HumanValue)> = Vec::new();
    table.push((String::from("x"), HumanValue::Boolean(true)));
    table.push((String::from("ten"), HumanValue::Integer(10)));
    let mixed = Matcher {
        name: String::from("Mixed"),
        language: Scope::Any,
        result_type: ValueType::Boolean,
        table,
        weight: 1,
    };
    assert!(!mixed.conforms());
}

#[test]
fn scope_matching_rules() {
    assert!(Scope::Any.matches(&Scope::Any));
    assert!(Scope::Any.matches(&Scope::tag("en")));
    assert!(Scope::tag("en").matches(&Scope::Any));
    assert!(Scope::tag("en").matches(&Scope::tag("en")));
    assert!(!Scope::tag("en").matches(&Scope::tag("no")));
    assert!(!Scope::tag("en").matches(&Scope::tag("en-US")));
}
