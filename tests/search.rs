use grep_rusty::{
    build_config, search_query, word_pattern, CaseInsensitive, CaseSensitive, InvertMatch,
    SearchConfig, SearchOption, SearchRule, WordRegExp,
};

fn lines(items: &[&str]) -> Vec<String> {
    items.iter().map(|s| s.to_string()).collect()
}

fn sorted(mut v: Vec<String>) -> Vec<String> {
    v.sort();
    v
}

const WILL_UPPER: &str = "Except the Will which says to them: 'Hold on!'";
const WILL_LOWER: &str = "except the Will which says to them: 'Hold on!'";

#[test]
fn search_test() {
    let config = build_config(false, false, false);
    let found = search_query(lines(&["alpha", "beta", "alphabet"]), "alpha", &config);
    assert_eq!(found, lines(&["alpha", "alphabet"]));
}

#[test]
fn case_sensitive_is_substring() {
    assert!(CaseSensitive.matches("hello world", "lo wo"));
    assert!(CaseSensitive.matches("hello", ""));
    assert!(CaseSensitive.matches("", ""));
    assert!(!CaseSensitive.matches("hello", "Hello"));
    assert!(!CaseSensitive.matches("", "a"));
    assert!(!CaseSensitive.matches("abc", "abcd"));
}

#[test]
fn case_insensitive_lowers_both_sides() {
    assert!(CaseInsensitive.matches("HELLO World", "hello"));
    assert!(CaseInsensitive.matches("hello world", "WORLD"));
    assert!(CaseInsensitive.matches("ÄBC", "äb"));
    assert!(!CaseInsensitive.matches("HELLO", "help"));
}

#[test]
fn invert_negates_every_rule() {
    let pairs = [("the cat", "cat"), ("the dog", "cat"), ("", ""), ("CAT", "cat")];
    for (line, query) in pairs {
        assert_eq!(
            InvertMatch { inner: CaseSensitive }.matches(line, query),
            !CaseSensitive.matches(line, query)
        );
        assert_eq!(
            InvertMatch { inner: CaseInsensitive }.matches(line, query),
            !CaseInsensitive.matches(line, query)
        );
        let mut set = SearchConfig::new();
        set.add_config(SearchRule::CaseInsensitive(CaseInsensitive));
        set.add_config(SearchRule::WordRegExp(WordRegExp { case_insensitive: true }));
        let plain = set.matches(line, query);
        let inverted = SearchRule::Invert(InvertMatch { inner: set });
        assert_eq!(inverted.matches(line, query), !plain);
    }
}

#[test]
fn empty_config_matches_everything() {
    let config = SearchConfig::new();
    assert!(config.configs.is_empty());
    assert!(config.matches("anything", "zzz"));
    assert!(config.matches("", "query"));
    assert!(SearchConfig::default().matches("x", "y"));
}

#[test]
fn add_config_appends_in_order() {
    let mut config = SearchConfig::new();
    config.add_config(SearchRule::CaseSensitive(CaseSensitive));
    config.add_config(SearchRule::WordRegExp(WordRegExp { case_insensitive: false }));
    assert_eq!(config.configs.len(), 2);
    assert!(matches!(config.configs[0], SearchRule::CaseSensitive(_)));
    assert!(matches!(config.configs[1], SearchRule::WordRegExp(_)));
    assert!(config.matches("a cat sat", "cat"));
    assert!(!config.matches("concatenate", "cat"));
}

#[test]
fn repeated_search_gives_same_lines() {
    let source = lines(&["one cat", "two dogs", "cat three", "four"]);
    let config = build_config(true, false, false);
    let first = search_query(source.clone(), "CAT", &config);
    let second = search_query(source, "CAT", &config);
    assert_eq!(sorted(first.clone()), sorted(second));
    let again = search_query(first.clone(), "CAT", &config);
    assert_eq!(sorted(again), sorted(first));
}

#[test]
fn whole_word_needs_word_boundaries() {
    let rule = WordRegExp { case_insensitive: false };
    assert!(rule.matches("the cat sat", "cat"));
    assert!(!rule.matches("concatenate", "cat"));
    assert!(!rule.matches("the Cat sat", "cat"));
}

#[test]
fn whole_word_escapes_meta_characters() {
    let rule = WordRegExp { case_insensitive: false };
    assert!(rule.matches("x a.b y", "a.b"));
    assert!(!rule.matches("x axb y", "a.b"));
}

#[test]
fn ignore_case_with_whole_word() {
    let config = build_config(true, true, false);
    assert!(config.matches("I saw a cat.", "Cat"));
    assert!(!config.matches("I saw a concatenation.", "Cat"));
    assert!(WordRegExp { case_insensitive: true }.matches("I saw a cat.", "Cat"));
}

#[test]
fn invert_with_ignore_case() {
    let config = build_config(true, false, true);
    assert_eq!(config.configs.len(), 1);
    assert!(matches!(config.configs[0], SearchRule::Invert(_)));
    assert!(!config.matches("HELLO there", "hello"));
    assert!(config.matches("goodbye", "hello"));
    let found = search_query(lines(&["HELLO there", "goodbye"]), "hello", &config);
    assert_eq!(found, lines(&["goodbye"]));
}

#[test]
fn build_config_assembles_rules_in_order() {
    let plain = build_config(false, false, false);
    assert_eq!(plain.configs.len(), 1);
    assert!(matches!(plain.configs[0], SearchRule::CaseSensitive(_)));
    let word = build_config(true, true, false);
    assert_eq!(word.configs.len(), 2);
    assert!(matches!(word.configs[0], SearchRule::CaseInsensitive(_)));
    assert!(matches!(
        word.configs[1],
        SearchRule::WordRegExp(WordRegExp { case_insensitive: true })
    ));
    let inverted = build_config(false, true, true);
    assert_eq!(inverted.configs.len(), 1);
    match &inverted.configs[0] {
        SearchRule::Invert(inv) => {
            assert_eq!(inv.inner.configs.len(), 2);
            assert!(matches!(inv.inner.configs[0], SearchRule::CaseSensitive(_)));
        }
        _ => panic!("expected an inversion"),
    }
}

#[test]
fn scenario_ignore_case_returns_both_lines() {
    let config = build_config(true, false, false);
    let found = search_query(lines(&[WILL_UPPER, WILL_LOWER]), "Except", &config);
    assert_eq!(sorted(found), sorted(lines(&[WILL_UPPER, WILL_LOWER])));
}

#[test]
fn scenario_exact_case_returns_first_line() {
    let config = build_config(false, false, false);
    let found = search_query(lines(&[WILL_UPPER, WILL_LOWER]), "Except", &config);
    assert_eq!(found, lines(&[WILL_UPPER]));
}

#[test]
fn scenario_no_line_contains_query() {
    let config = build_config(false, false, false);
    let found = search_query(lines(&["abc", "def", "zz z"]), "zzz", &config);
    assert!(found.is_empty());
}

#[test]
fn no_lines_give_no_matches() {
    for ignore_case in [false, true] {
        for word in [false, true] {
            for invert in [false, true] {
                let config = build_config(ignore_case, word, invert);
                assert!(search_query(Vec::new(), "x", &config).is_empty());
            }
        }
    }
    assert!(search_query(Vec::new(), "x", &SearchConfig::new()).is_empty());
}

#[test]
fn search_keeps_input_order() {
    let config = build_config(false, false, false);
    let source: Vec<String> = (0..200).map(|i| format!("line {}", i)).collect();
    let found = search_query(source.clone(), "line 1", &config);
    let expected: Vec<String> =
        source.into_iter().filter(|l| l.contains("line 1")).collect();
    assert_eq!(found, expected);
}

#[test]
fn word_pattern_escapes_and_bounds_query() {
    assert_eq!(word_pattern("cat", false), "\\bcat\\b");
    assert_eq!(word_pattern("cat", true), "(?i)\\bcat\\b");
    assert_eq!(word_pattern("a.b+c", false), "\\ba\\.b\\+c\\b");
    assert_eq!(word_pattern("", false), "\\b\\b");
}
