use humanize::scope::Scope;
use humanize::{parse, parse_or};

#[test]
fn basic() {
    assert_eq!(Some(true), parse::<bool>("1", None));
    assert_eq!(Some(true), parse::<bool>("ok", None));
    assert_eq!(Some(true), parse::<bool>("okay", None));
    assert_eq!(Some(true), parse::<bool>("on", None));
    assert_eq!(Some(true), parse::<bool>("true", None));
    assert_eq!(Some(true), parse::<bool>("yep", None));
    assert_eq!(Some(true), parse::<bool>("yes", None));

    assert_eq!(Some(false), parse::<bool>("0", None));
    assert_eq!(Some(false), parse::<bool>("false", None));
    assert_eq!(Some(false), parse::<bool>("no", None));
    assert_eq!(Some(false), parse::<bool>("nope", None));
    assert_eq!(Some(false), parse::<bool>("off", None));

    let bad_locale = Scope::tag("no");
    assert_eq!(Some(true), parse::<bool>("1", Some(&bad_locale)));
    assert_eq!(Some(false), parse::<bool>("0", Some(&bad_locale)));
    assert_eq!(None, parse::<bool>("okay", Some(&bad_locale)));
    assert_eq!(None, parse::<bool>("nope", Some(&bad_locale)));
}

#[test]
fn case_does_not_matter() {
    assert_eq!(Some(true), parse::<bool>("OK", None));
    assert_eq!(Some(true), parse::<bool>("On", None));
    assert_eq!(Some(true), parse::<bool>("YES", None));
    assert_eq!(Some(true), parse::<bool>("TrUe", None));
    assert_eq!(Some(false), parse::<bool>("OFF", None));
    assert_eq!(Some(false), parse::<bool>("Nope", None));
    assert_eq!(Some(false), parse::<bool>("FALSE", None));
}

#[test]
fn english_scope_words() {
    let en = Scope::tag("en");
    assert_eq!(Some(true), parse::<bool>("yes", Some(&en)));
    assert_eq!(Some(true), parse::<bool>("1", Some(&en)));
    assert_eq!(Some(false), parse::<bool>("off", Some(&en)));
    assert_eq!(Some(false), parse::<bool>("0", Some(&en)));
}

#[test]
fn numerals_under_any_scope() {
    for tag in ["no", "de", "fr", "en-US"] {
        let scope = Scope::tag(tag);
        assert_eq!(Some(true), parse::<bool>("1", Some(&scope)));
        assert_eq!(Some(false), parse::<bool>("0", Some(&scope)));
    }
}

#[test]
fn words_need_english_scope() {
    let nb = Scope::tag("nb");
    assert_eq!(None, parse::<bool>("yes", Some(&nb)));
    assert_eq!(None, parse::<bool>("true", Some(&nb)));
    assert_eq!(None, parse::<bool>("off", Some(&nb)));
    // A region-qualified tag is a different concrete tag than "en".
    let en_us = Scope::tag("en-US");
    assert_eq!(None, parse::<bool>("yes", Some(&en_us)));
}

#[test]
fn unrecognized_text() {
    assert_eq!(None, parse::<bool>("maybe", None));
    assert_eq!(None, parse::<bool>("", None));
    assert_eq!(None, parse::<bool>("yess", None));
    assert_eq!(None, parse::<bool>("10", None));
    assert_eq!(None, parse::<bool>("maybe", Some(&Scope::tag("en"))));
    assert_eq!(None, parse::<bool>("maybe", Some(&Scope::tag("no"))));
}

#[test]
fn parse_or_substitutes_default_exactly_on_failure() {
    assert_eq!(true, parse_or::<bool>("maybe", None, true));
    assert_eq!(false, parse_or::<bool>("maybe", None, false));
    assert_eq!(false, parse_or::<bool>("no", None, true));
    assert_eq!(true, parse_or::<bool>("yes", None, false));
    let nb = Scope::tag("nb");
    assert_eq!(true, parse_or::<bool>("yes", Some(&nb), true));
    assert_eq!(true, parse_or::<bool>("1", Some(&nb), false));
}
