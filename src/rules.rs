//! Match rules: predicates over a line and a query, combined by AND, with an
//! inversion that wraps a whole rule set.

use vstd::prelude::*;
use crate::text::{
    contains,
    lower_of,
    lowercase,
    regex_is_match,
    regex_outcome,
    str_contains,
    word_pattern,
    word_pattern_of,
};

verus! {

/// A predicate over a line and a query.
pub trait SearchOption {
    /// Whether the rule accepts `line` for `query`.
    spec fn holds(&self, line: Seq<char>, query: Seq<char>) -> bool;

    /// Checks if a line matches the search query.
    fn matches(&self, line: &str, query: &str) -> (r: bool)
        ensures
            r == self.holds(line@, query@),
    ;
}

/// The lowercased line contains the lowercased query.
pub struct CaseInsensitive;

/// The line contains the query exactly.
pub struct CaseSensitive;

/// The query occurs in the line as a whole word.
pub struct WordRegExp {
    pub case_insensitive: bool,
}

/// Accepts exactly the lines that `inner` rejects.
pub struct InvertMatch<T> {
    pub inner: T,
}

/// One rule of a [`SearchConfig`].
pub enum SearchRule {
    CaseSensitive(CaseSensitive),
    CaseInsensitive(CaseInsensitive),
    WordRegExp(WordRegExp),
    Invert(InvertMatch<SearchConfig>),
}

/// An ordered set of rules, all of which must accept a line.
pub struct SearchConfig {
    pub configs: Vec<SearchRule>,
}

/// Whether the whole-word pattern for `query` compiles and matches in `line`.
pub open spec fn word_holds(case_insensitive: bool, line: Seq<char>, query: Seq<char>) -> bool {
    regex_outcome(word_pattern_of(query, case_insensitive), line) == Some(true)
}

#[via_fn]
proof fn rule_holds_decreases(rule: SearchRule, line: Seq<char>, query: Seq<char>) {
    broadcast use vstd::std_specs::vec::axiom_vec_decreases_to_view;

    if let SearchRule::Invert(inv) = rule {
        assert(decreases_to!(inv.inner.configs => inv.inner.configs@));
        assert(decreases_to!(rule => inv.inner.configs@));
    }
}

/// What a single rule decides on `line` and `query`.
pub open spec fn rule_holds(rule: SearchRule, line: Seq<char>, query: Seq<char>) -> bool
    decreases rule,
    via rule_holds_decreases
{
    match rule {
        SearchRule::CaseSensitive(_) => contains(line, query),
        SearchRule::CaseInsensitive(_) => contains(lower_of(line), lower_of(query)),
        SearchRule::WordRegExp(w) => word_holds(w.case_insensitive, line, query),
        SearchRule::Invert(inv) => !rules_hold(inv.inner.configs@, line, query),
    }
}

/// Every rule of `rules` accepts `line` for `query` (true of no rules).
pub open spec fn rules_hold(rules: Seq<SearchRule>, line: Seq<char>, query: Seq<char>) -> bool
    decreases rules,
{
    if rules.len() == 0 {
        true
    } else {
        rules_hold(rules.drop_last(), line, query) && rule_holds(rules.last(), line, query)
    }
}


/// `rules_hold` is the conjunction of every rule's verdict.
pub proof fn lemma_rules_hold_all(rules: Seq<SearchRule>, line: Seq<char>, query: Seq<char>)
    ensures
        rules_hold(rules, line, query) <==> forall|i: int|
            0 <= i < rules.len() ==> #[trigger] rule_holds(rules[i], line, query),
    decreases rules.len(),
{
    if rules.len() > 0 {
        lemma_rules_hold_all(rules.drop_last(), line, query);
        let prefix = rules.drop_last();
        let last = rules.len() - 1;
        if rules_hold(rules, line, query) {
            assert forall|i: int| 0 <= i < rules.len() implies #[trigger] rule_holds(rules[i], line, query) by {
                if i < last {
                    assert(prefix[i] == rules[i]);
                }
            }
        }
        if forall|i: int| 0 <= i < rules.len() ==> #[trigger] rule_holds(rules[i], line, query) {
            assert forall|i: int| 0 <= i < prefix.len() implies #[trigger] rule_holds(prefix[i], line, query) by {
                assert(prefix[i] == rules[i]);
            }
            assert(rule_holds(rules[last], line, query));
        }
    }
}

fn rule_matches(rule: &SearchRule, line: &str, query: &str) -> (r: bool)
    ensures
        r == rule_holds(*rule, line@, query@),
    decreases rule,
{
    match rule {
        SearchRule::CaseSensitive(c) => c.matches(line, query),
        SearchRule::CaseInsensitive(c) => c.matches(line, query),
        SearchRule::WordRegExp(w) => w.matches(line, query),
        SearchRule::Invert(inv) => {
            proof {
                broadcast use vstd::std_specs::vec::axiom_vec_decreases_to_view;
            }
            !config_matches(&inv.inner, line, query)
        },
    }
}

fn config_matches(config: &SearchConfig, line: &str, query: &str) -> (r: bool)
    ensures
        r == rules_hold(config.configs@, line@, query@),
    decreases config,
{
    proof {
        lemma_rules_hold_all(config.configs@, line@, query@);
    }
    let n = config.configs.len();
    let mut i: usize = 0;
    while i < n
        invariant
            n == config.configs@.len(),
            i <= n,
            forall|j: int| 0 <= j < i ==> #[trigger] rule_holds(config.configs@[j], line@, query@),
            rules_hold(config.configs@, line@, query@) <==> forall|j: int|
                0 <= j < config.configs@.len() ==> #[trigger] rule_holds(config.configs@[j], line@, query@),
        decreases n - i,
    {
        proof {
            broadcast use vstd::std_specs::vec::axiom_vec_index_decreases;
        }
        if !rule_matches(&config.configs[i], line, query) {
            return false;
        }
        i = i + 1;
    }
    true
}

impl SearchOption for CaseSensitive {
    open spec fn holds(&self, line: Seq<char>, query: Seq<char>) -> bool {
        contains(line, query)
    }

    fn matches(&self, line: &str, query: &str) -> (r: bool) {
        let r = str_contains(line, query);
        assert(self.holds(line@, query@) == contains(line@, query@));
        r
    }
}

impl SearchOption for CaseInsensitive {
    open spec fn holds(&self, line: Seq<char>, query: Seq<char>) -> bool {
        contains(lower_of(line), lower_of(query))
    }

    fn matches(&self, line: &str, query: &str) -> (r: bool) {
        let folded_line = lowercase(line);
        let folded_query = lowercase(query);
        let r = CaseSensitive.matches(folded_line.as_str(), folded_query.as_str());
        assert(self.holds(line@, query@) == contains(lower_of(line@), lower_of(query@)));
        r
    }
}

impl SearchOption for WordRegExp {
    open spec fn holds(&self, line: Seq<char>, query: Seq<char>) -> bool {
        word_holds(self.case_insensitive, line, query)
    }

    fn matches(&self, line: &str, query: &str) -> (r: bool) {
        let pattern = word_pattern(query, self.case_insensitive);
        let r = match regex_is_match(pattern.as_str(), line) {
            Some(found) => found,
            None => false,
        };
        assert(self.holds(line@, query@) == word_holds(self.case_insensitive, line@, query@));
        r
    }
}

impl<T: SearchOption> SearchOption for InvertMatch<T> {
    open spec fn holds(&self, line: Seq<char>, query: Seq<char>) -> bool {
        !self.inner.holds(line, query)
    }

    fn matches(&self, line: &str, query: &str) -> (r: bool) {
        !self.inner.matches(line, query)
    }
}

impl SearchOption for SearchRule {
    open spec fn holds(&self, line: Seq<char>, query: Seq<char>) -> bool {
        rule_holds(*self, line, query)
    }

    fn matches(&self, line: &str, query: &str) -> (r: bool) {
        rule_matches(self, line, query)
    }
}

impl SearchOption for SearchConfig {
    open spec fn holds(&self, line: Seq<char>, query: Seq<char>) -> bool {
        rules_hold(self.configs@, line, query)
    }

    fn matches(&self, line: &str, query: &str) -> (r: bool) {
        config_matches(self, line, query)
    }
}

impl SearchConfig {
    /// A configuration with no rules; it accepts every line.
    pub fn new() -> (r: Self)
        ensures
            r.configs@.len() == 0,
    {
        SearchConfig { configs: Vec::new() }
    }

    /// Adds a search option to the configuration, after those already there.
    pub fn add_config(&mut self, strategy: SearchRule)
        ensures
            final(self).configs@ == old(self).configs@.push(strategy),
    {
        self.configs.push(strategy);
    }
}

impl Default for SearchConfig {
    fn default() -> (r: Self)
        ensures
            r.configs@.len() == 0,
    {
        Self::new()
    }
}

/// The rules that the case and whole-word flags call for, in order: the case
/// rule, then the whole-word rule when asked for.
pub open spec fn assembled(rules: Seq<SearchRule>, ignore_case: bool, word_regexp: bool) -> bool {
    &&& rules.len() == if word_regexp { 2int } else { 1int }
    &&& if ignore_case {
        rules[0] is CaseInsensitive
    } else {
        rules[0] is CaseSensitive
    }
    &&& word_regexp ==> (rules[1] matches SearchRule::WordRegExp(w) && w.case_insensitive
        == ignore_case)
}

/// What the case and whole-word flags accept, before any inversion.
pub open spec fn flags_hold(
    ignore_case: bool,
    word_regexp: bool,
    line: Seq<char>,
    query: Seq<char>,
) -> bool {
    &&& if ignore_case {
        contains(lower_of(line), lower_of(query))
    } else {
        contains(line, query)
    }
    &&& word_regexp ==> word_holds(ignore_case, line, query)
}

/// What a configuration built from the three flags accepts.
pub open spec fn configured_holds(
    ignore_case: bool,
    word_regexp: bool,
    invert_match: bool,
    line: Seq<char>,
    query: Seq<char>,
) -> bool {
    if invert_match {
        !flags_hold(ignore_case, word_regexp, line, query)
    } else {
        flags_hold(ignore_case, word_regexp, line, query)
    }
}

proof fn lemma_assembled_holds(rules: Seq<SearchRule>, ignore_case: bool, word_regexp: bool)
    requires
        assembled(rules, ignore_case, word_regexp),
    ensures
        forall|line: Seq<char>, query: Seq<char>|
            #[trigger] rules_hold(rules, line, query) == flags_hold(
                ignore_case,
                word_regexp,
                line,
                query,
            ),
{
    assert forall|line: Seq<char>, query: Seq<char>|
        #[trigger] rules_hold(rules, line, query) == flags_hold(
            ignore_case,
            word_regexp,
            line,
            query,
        ) by {
        lemma_rules_hold_all(rules, line, query);
        if word_regexp {
            assert(rules_hold(rules, line, query) == (rule_holds(rules[0], line, query)
                && rule_holds(rules[1], line, query)));
        } else {
            assert(rules_hold(rules, line, query) == rule_holds(rules[0], line, query));
        }
    }
}

/// Builds the rule set for the three flags: the case rule (insensitive when
/// `ignore_case`), then the whole-word rule when `word_regexp`, the whole
/// wrapped in one inversion when `invert_match`.
pub fn build_config(ignore_case: bool, word_regexp: bool, invert_match: bool) -> (r: SearchConfig)
    ensures
        if invert_match {
            &&& r.configs@.len() == 1
            &&& r.configs@[0] matches SearchRule::Invert(inv) && assembled(
                inv.inner.configs@,
                ignore_case,
                word_regexp,
            )
        } else {
            assembled(r.configs@, ignore_case, word_regexp)
        },
        forall|line: Seq<char>, query: Seq<char>|
            #[trigger] r.holds(line, query) == configured_holds(
                ignore_case,
                word_regexp,
                invert_match,
                line,
                query,
            ),
{
    let mut config = SearchConfig::default();
    if ignore_case {
        config.add_config(SearchRule::CaseInsensitive(CaseInsensitive));
    } else {
        config.add_config(SearchRule::CaseSensitive(CaseSensitive));
    }
    if word_regexp {
        config.add_config(SearchRule::WordRegExp(WordRegExp { case_insensitive: ignore_case }));
    }
    proof {
        lemma_assembled_holds(config.configs@, ignore_case, word_regexp);
    }
    if invert_match {
        let inverted = SearchConfig {
            configs: vec![SearchRule::Invert(InvertMatch { inner: config })],
        };
        proof {
            assert forall|line: Seq<char>, query: Seq<char>|
                #[trigger] inverted.holds(line, query) == configured_holds(
                    ignore_case,
                    word_regexp,
                    invert_match,
                    line,
                    query,
                ) by {
                lemma_rules_hold_all(inverted.configs@, line, query);
                assert(rule_holds(inverted.configs@[0], line, query) == !rules_hold(config.configs@, line, query));
            }
        }
        inverted
    } else {
        config
    }
}

/// An exact-case rule accepts a line exactly when the line contains the query.
pub proof fn lemma_case_sensitive_is_substring(line: Seq<char>, query: Seq<char>)
    ensures
        CaseSensitive.holds(line, query) == contains(line, query),
{
}

/// A case-ignoring rule accepts a line exactly when the lowercased line
/// contains the lowercased query.
pub proof fn lemma_case_insensitive_is_lowered_substring(line: Seq<char>, query: Seq<char>)
    ensures
        CaseInsensitive.holds(line, query) == contains(lower_of(line), lower_of(query)),
{
}

/// Inverting any rule or rule set negates its verdict on every line.
pub proof fn lemma_invert_negates<T: SearchOption>(rule: T, line: Seq<char>, query: Seq<char>)
    ensures
        (InvertMatch { inner: rule }).holds(line, query) == !rule.holds(line, query),
{
}

/// An inversion rule inside a rule set negates the rule set it wraps.
pub proof fn lemma_invert_rule_negates(inner: SearchConfig, line: Seq<char>, query: Seq<char>)
    ensures
        SearchRule::Invert(InvertMatch { inner }).holds(line, query) == !inner.holds(line, query),
{
}

/// A rule set with no rules accepts every line.
pub proof fn lemma_empty_config_accepts_all(config: SearchConfig, line: Seq<char>, query: Seq<char>)
    requires
        config.configs@.len() == 0,
    ensures
        config.holds(line, query),
{
}

} // verus!
