//! The search pipeline: filters a collection of lines through a rule set,
//! evaluating the lines in parallel.

use vstd::prelude::*;
use rayon::iter::{IntoParallelIterator, ParallelIterator};
use crate::rules::{SearchConfig, SearchOption};

verus! {

/// The text of each line.
pub open spec fn texts(lines: Seq<String>) -> Seq<Seq<char>> {
    lines.map_values(|s: String| s@)
}

/// The lines of `lines` that `config` accepts for `query`, in their order.
pub open spec fn matching_lines(
    lines: Seq<Seq<char>>,
    query: Seq<char>,
    config: SearchConfig,
) -> Seq<Seq<char>> {
    lines.filter(|line: Seq<char>| config.holds(line, query))
}

/// Relies on rayon's `into_par_iter().filter(..).collect::<Vec<_>>()` on a
/// `Vec`: keeps the items that the predicate accepts, in their order (the
/// predicate is `SearchConfig::matches`).
#[verifier::external_body]
fn par_filter(lines: Vec<String>, query: &str, config: &SearchConfig) -> (r: Vec<String>)
    ensures
        texts(r@) == matching_lines(texts(lines@), query@, *config),
{
    lines.into_par_iter().filter(|line| config.matches(line, query)).collect()
}

/// Searches `lines` for `query`: the lines that `config` accepts, in the
/// order in which they came.
pub fn search_query(lines: Vec<String>, query: &str, config: &SearchConfig) -> (r: Vec<String>)
    ensures
        texts(r@) == matching_lines(texts(lines@), query@, *config),
{
    par_filter(lines, query, config)
}

/// With no lines there is nothing to match, whatever the rules.
pub proof fn lemma_no_lines_no_matches(query: Seq<char>, config: SearchConfig)
    ensures
        matching_lines(Seq::empty(), query, config).len() == 0,
{
    reveal(Seq::filter);
}

/// Searching the matched lines again with the same rules gives them back:
/// a second run finds the same lines.
pub proof fn lemma_search_idempotent(lines: Seq<Seq<char>>, query: Seq<char>, config: SearchConfig)
    ensures
        matching_lines(matching_lines(lines, query, config), query, config) == matching_lines(
            lines,
            query,
            config,
        ),
    decreases lines.len(),
{
    reveal(Seq::filter);
    let pred = |line: Seq<char>| config.holds(line, query);
    if lines.len() > 0 {
        lemma_search_idempotent(lines.drop_last(), query, config);
        let inner = lines.drop_last().filter(pred);
        if pred(lines.last()) {
            assert(lines.filter(pred) == inner.push(lines.last()));
            assert(inner.push(lines.last()).drop_last() =~= inner);
        }
    }
}

} // verus!
