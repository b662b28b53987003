use defcon::classifier::{
    classify, classify_stripped, holds_any, is_revert_of_vandalism, normalize,
    NOT_VANDALISM_KEYWORDS, VANDALISM_KEYWORDS,
};
use defcon::matcher::{PatternError, Patterns, COMMENT_PATTERN, LEVEL_PATTERN};
use defcon::text::{
    chars_of, fold_case, has_part, lower_char, same_text, starts_at, string_of,
};

fn patterns() -> Patterns {
    Patterns::new().expect("the two patterns compile")
}

fn chars(text: &str) -> Vec<char> {
    text.chars().collect()
}

#[test]
fn patterns_compile() {
    assert!(Patterns::new().is_ok());
}

#[test]
fn from_compiled_reports_which_pattern_failed() {
    let good_comment = || regex::Regex::new(COMMENT_PATTERN);
    let good_level = || regex::Regex::new(LEVEL_PATTERN);
    let bad = || regex::Regex::new("(");
    assert!(Patterns::from_compiled(good_comment(), good_level()).is_ok());
    assert_eq!(
        Patterns::from_compiled(bad(), good_level()).err(),
        Some(PatternError::Comment)
    );
    assert_eq!(
        Patterns::from_compiled(good_comment(), bad()).err(),
        Some(PatternError::Level)
    );
    assert_eq!(Patterns::from_compiled(bad(), bad()).err(), Some(PatternError::Comment));
}

#[test]
fn from_compiled_takes_only_the_two_patterns() {
    let good_comment = || regex::Regex::new(COMMENT_PATTERN);
    let good_level = || regex::Regex::new(LEVEL_PATTERN);
    let other = || regex::Regex::new("level");
    assert_eq!(
        Patterns::from_compiled(other(), good_level()).err(),
        Some(PatternError::Comment)
    );
    assert_eq!(
        Patterns::from_compiled(good_comment(), other()).err(),
        Some(PatternError::Level)
    );
    assert_eq!(
        Patterns::from_compiled(good_level(), good_comment()).err(),
        Some(PatternError::Comment)
    );
    let built = Patterns::from_compiled(good_comment(), good_level()).unwrap();
    assert_eq!(built.strip_comments("a /* b */ c"), "a  c");
    assert_eq!(built.find_level_digits("level = 42"), Some("42".to_string()));
    assert_eq!(built.find_level_digits("no level"), None);
}

#[test]
fn texts_are_compared_character_by_character() {
    assert!(same_text("", ""));
    assert!(same_text("abc", "abc"));
    assert!(same_text("ü✓", "ü✓"));
    assert!(!same_text("abc", "abd"));
    assert!(!same_text("abc", "ab"));
    assert!(!same_text("ab", "abc"));
    assert!(!same_text("", "a"));
    assert!(!same_text("Abc", "abc"));
}

#[test]
fn keyword_against_vandalism_has_priority() {
    assert!(!is_revert_of_vandalism(&patterns(), "RV vandalism, good faith edit"));
}

#[test]
fn every_keyword_against_vandalism_overrides_every_vandalism_keyword() {
    let p = patterns();
    for against in NOT_VANDALISM_KEYWORDS {
        for mark in VANDALISM_KEYWORDS {
            let summary = format!("{} x {}", mark, against);
            assert!(!is_revert_of_vandalism(&p, &summary), "{}", summary);
            let summary = format!("{} x {}", against, mark);
            assert!(!is_revert_of_vandalism(&p, &summary), "{}", summary);
        }
    }
}

#[test]
fn vandalism_keyword_alone_is_a_revert() {
    assert!(is_revert_of_vandalism(&patterns(), "Reverted edits by X (LTA)"));
}

#[test]
fn every_vandalism_keyword_alone_is_a_revert() {
    let p = patterns();
    for mark in VANDALISM_KEYWORDS {
        let summary = format!("xx {} yy", mark.to_uppercase());
        assert!(is_revert_of_vandalism(&p, &summary), "{}", summary);
    }
}

#[test]
fn keyword_lists_are_the_fixed_ones() {
    assert_eq!(
        VANDALISM_KEYWORDS.to_vec(),
        vec![
            "revert",
            "rv ",
            "long-term abuse",
            "long term abuse",
            "lta",
            "abuse",
            "rvv ",
            "undid"
        ]
    );
    assert_eq!(
        NOT_VANDALISM_KEYWORDS.to_vec(),
        vec![
            "uaa",
            "good faith",
            "agf",
            "unsourced",
            "unreferenced",
            "self",
            "speculat",
            "original research",
            "rv tag",
            "typo",
            "incorrect",
            "format"
        ]
    );
}

#[test]
fn structured_comment_is_removed_before_matching() {
    let p = patterns();
    assert_eq!(normalize(&p, "rv /* good faith */ vandalism"), "rv  vandalism");
    assert!(is_revert_of_vandalism(&p, "rv /* good faith */ vandalism"));
}

#[test]
fn vandalism_keyword_inside_comment_does_not_count() {
    let p = patterns();
    assert_eq!(normalize(&p, "/* Revert */ fixed a date"), " fixed a date");
    assert!(!is_revert_of_vandalism(&p, "/* Revert */ fixed a date"));
}

#[test]
fn every_structured_comment_is_removed() {
    let p = patterns();
    assert_eq!(p.strip_comments("a /* b */ c /* d */ e"), "a  c  e");
    assert_eq!(normalize(&p, "X /* a */ Y /* good faith */ Revert"), "x  y  revert");
    assert!(is_revert_of_vandalism(&p, "x /* a */ y /* good faith */ revert"));
}

#[test]
fn comment_match_is_minimal_and_leftmost() {
    let p = patterns();
    assert_eq!(p.strip_comments("a /* b */ c */ d"), "a  c */ d");
    assert_eq!(p.strip_comments("/* a /* b */ c"), " c");
    assert_eq!(p.strip_comments("/* line\nbreak */x"), "x");
}

#[test]
fn comment_needs_something_inside_and_an_end() {
    let p = patterns();
    assert_eq!(p.strip_comments("/**/ revert"), "/**/ revert");
    assert_eq!(p.strip_comments("/**/ x */y"), "y");
    assert_eq!(p.strip_comments("revert /* good faith"), "revert /* good faith");
    assert!(!is_revert_of_vandalism(&p, "revert /* good faith"));
    assert!(is_revert_of_vandalism(&p, "/**/ revert"));
}

#[test]
fn summary_without_comment_is_only_folded() {
    let p = patterns();
    assert_eq!(p.strip_comments("Plain Text"), "Plain Text");
    assert_eq!(normalize(&p, "Plain Text"), "plain text");
    assert_eq!(normalize(&p, ""), "");
}

#[test]
fn folding_is_ascii_only() {
    let p = patterns();
    assert_eq!(normalize(&p, "ÄÖ AZ az [@`{ É"), "ÄÖ az az [@`{ É");
    assert_eq!(lower_char('A'), 'a');
    assert_eq!(lower_char('Z'), 'z');
    assert_eq!(lower_char('@'), '@');
    assert_eq!(lower_char('['), '[');
    assert_eq!(lower_char('é'), 'é');
    assert_eq!(lower_char('É'), 'É');
    assert_eq!(fold_case(&chars("MiXeD 123")), chars("mixed 123"));
}

#[test]
fn folding_agrees_with_std_on_every_ascii_character() {
    for code in 0u8..=127 {
        let c = code as char;
        assert_eq!(lower_char(c), c.to_ascii_lowercase());
    }
}

#[test]
fn keywords_with_trailing_space_need_the_space() {
    let p = patterns();
    assert!(!is_revert_of_vandalism(&p, "rv"));
    assert!(is_revert_of_vandalism(&p, "rv "));
    assert!(!is_revert_of_vandalism(&p, "rvv"));
    assert!(is_revert_of_vandalism(&p, "rvv vandal"));
    assert!(is_revert_of_vandalism(&p, "RV spam"));
}

#[test]
fn keywords_match_inside_words() {
    let p = patterns();
    assert!(is_revert_of_vandalism(&p, "Reverting"));
    assert!(is_revert_of_vandalism(&p, "deltaforce"));
    assert!(!is_revert_of_vandalism(&p, "revert misformatted table"));
    assert!(!is_revert_of_vandalism(&p, "reverted myself"));
    assert!(!is_revert_of_vandalism(&p, "rv tag bombing"));
}

#[test]
fn summary_without_keywords_is_no_revert() {
    let p = patterns();
    assert!(!is_revert_of_vandalism(&p, "added a citation"));
    assert!(!is_revert_of_vandalism(&p, ""));
}

#[test]
fn classify_works_on_normalized_text() {
    assert!(classify(&chars("undid revision 1 by x")));
    assert!(!classify(&chars("undid revision 1 by x (agf)")));
    assert!(!classify(&chars("Undid revision")));
    assert!(classify_stripped("Undid revision"));
    assert!(!classify_stripped("UNSOURCED, reverted"));
}

#[test]
fn holds_any_looks_at_every_keyword() {
    assert!(holds_any(&chars("x undid"), &VANDALISM_KEYWORDS));
    assert!(holds_any(&chars("revert"), &VANDALISM_KEYWORDS));
    assert!(!holds_any(&chars("nothing here"), &VANDALISM_KEYWORDS));
    assert!(holds_any(&chars("a typo"), &NOT_VANDALISM_KEYWORDS));
    assert!(holds_any(&chars("abc"), &["x", "bc"]));
    assert!(!holds_any(&chars("anything"), &[]));
}

#[test]
fn substring_search() {
    assert!(has_part(&chars("abcabd"), &chars("abd")));
    assert!(has_part(&chars("abcabd"), &chars("abc")));
    assert!(has_part(&chars("abcabd"), &chars("")));
    assert!(has_part(&chars(""), &chars("")));
    assert!(!has_part(&chars(""), &chars("a")));
    assert!(!has_part(&chars("ab"), &chars("abc")));
    assert!(!has_part(&chars("abcabd"), &chars("abe")));
    assert!(has_part(&chars("aab"), &chars("ab")));
    assert!(starts_at(&chars("abc"), &chars("bc"), 1));
    assert!(!starts_at(&chars("abc"), &chars("bc"), 0));
    assert!(!starts_at(&chars("abc"), &chars("bc"), 2));
    assert!(starts_at(&chars("abc"), &chars(""), 3));
    assert!(!starts_at(&chars("abc"), &chars(""), 4));
    assert!(!starts_at(&chars("abc"), &chars("c"), usize::MAX));
}

#[test]
fn substring_search_agrees_with_std() {
    let hays = ["", "a", "rv ", "good  faith", "xrevertx", "long-term abuse", "ltalta"];
    let needles = ["", "a", "rv ", "good faith", "revert", "lta", "abuse", "term a"];
    for hay in hays {
        for needle in needles {
            assert_eq!(has_part(&chars(hay), &chars(needle)), hay.contains(needle));
        }
    }
}

#[test]
fn text_goes_to_characters_and_back() {
    assert_eq!(chars_of("héllo"), vec!['h', 'é', 'l', 'l', 'o']);
    assert_eq!(chars_of(""), Vec::<char>::new());
    assert_eq!(string_of(&['h', 'é', 'y']), "héy");
    assert_eq!(string_of(&chars_of("a /* ü */ ✓")), "a /* ü */ ✓");
}

#[test]
fn keywords_are_lower_case() {
    for keyword in VANDALISM_KEYWORDS {
        assert_eq!(keyword, keyword.to_ascii_lowercase());
        assert_eq!(fold_case(&chars(keyword)), chars(keyword));
    }
    for keyword in NOT_VANDALISM_KEYWORDS {
        assert_eq!(keyword, keyword.to_ascii_lowercase());
        assert_eq!(fold_case(&chars(keyword)), chars(keyword));
    }
}

#[test]
fn folding_twice_changes_nothing_more() {
    let once = fold_case(&chars("Reverted EDITS by Ünicode ÄB"));
    assert_eq!(fold_case(&once), once);
    let p = patterns();
    let normal = normalize(&p, "RV /* Sec */ Vandalism");
    assert_eq!(normalize(&p, &normal), normal);
}

#[test]
fn verdict_ignores_case() {
    let p = patterns();
    for summary in ["Reverted edits", "rv good faith", "nothing", "UNDID revision (AGF)"] {
        assert_eq!(
            is_revert_of_vandalism(&p, summary),
            is_revert_of_vandalism(&p, &summary.to_ascii_uppercase())
        );
        assert_eq!(
            is_revert_of_vandalism(&p, summary),
            is_revert_of_vandalism(&p, &summary.to_ascii_lowercase())
        );
    }
}
