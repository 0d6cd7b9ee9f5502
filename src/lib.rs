//! A small line-search library: composable match rules over a line and a
//! query (exact case, ignored case, whole word, inversion), combined by AND,
//! and a parallel filter that keeps the lines a rule set accepts.

pub mod rules;
pub mod search;
pub mod text;

pub use rules::{
    build_config,
    CaseInsensitive,
    CaseSensitive,
    InvertMatch,
    SearchConfig,
    SearchOption,
    SearchRule,
    WordRegExp,
};
pub use search::search_query;
pub use text::word_pattern;
