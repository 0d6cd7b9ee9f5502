//! Text primitives that the match rules are built from: substring search,
//! lowercasing and whole-word regular expressions.

use vstd::prelude::*;

verus! {

/// `query` occurs in `line` as a contiguous run of characters.
pub open spec fn contains(line: Seq<char>, query: Seq<char>) -> bool {
    exists|i: int|
        0 <= i && i + query.len() <= line.len() && #[trigger] line.subrange(i, i + query.len())
            == query
}

/// The lowercase form of `s` that `str::to_lowercase` produces.
pub uninterp spec fn lower_of(s: Seq<char>) -> Seq<char>;

/// Characters with a meaning of their own in a regular expression.
pub open spec fn is_meta(c: char) -> bool {
    c == '\\' || c == '.' || c == '+' || c == '*' || c == '?' || c == '(' || c == ')' || c
        == '|' || c == '[' || c == ']' || c == '{' || c == '}' || c == '^' || c == '$' || c
        == '#' || c == '&' || c == '-' || c == '~'
}

/// `s` with a backslash put before each meta character.
pub open spec fn escaped(s: Seq<char>) -> Seq<char>
    decreases s.len(),
{
    if s.len() == 0 {
        Seq::empty()
    } else {
        let c = s.last();
        escaped(s.drop_last()) + if is_meta(c) {
            seq!['\\', c]
        } else {
            seq![c]
        }
    }
}

/// The pattern `\b<escaped query>\b`, led by `(?i)` when case is ignored.
pub open spec fn word_pattern_of(query: Seq<char>, case_insensitive: bool) -> Seq<char> {
    let boundary = seq!['\\', 'b'];
    let flags = if case_insensitive {
        seq!['(', '?', 'i', ')']
    } else {
        Seq::empty()
    };
    flags + boundary + escaped(query) + boundary
}

/// What compiling `pattern` as a regular expression and searching `haystack`
/// with it gives: `None` when the pattern does not compile, else whether it
/// matches somewhere in `haystack`.
pub uninterp spec fn regex_outcome(pattern: Seq<char>, haystack: Seq<char>) -> Option<bool>;

/// Relies on `str::contains`: true exactly when `query` occurs in `line`.
#[verifier::external_body]
pub(crate) fn str_contains(line: &str, query: &str) -> (r: bool)
    ensures
        r == contains(line@, query@),
{
    line.contains(query)
}

/// Relies on `str::to_lowercase`: the result depends on the characters alone.
#[verifier::external_body]
pub(crate) fn lowercase(s: &str) -> (r: String)
    ensures
        r@ == lower_of(s@),
{
    s.to_lowercase()
}

/// Relies on `regex::escape`: a backslash before each meta character
/// (`regex_syntax::is_meta_character`), every other character kept.
#[verifier::external_body]
fn regex_escape(s: &str) -> (r: String)
    ensures
        r@ == escaped(s@),
{
    regex::escape(s)
}

/// Relies on `regex::Regex::new` to compile `pattern` and on
/// `Regex::is_match` to search `haystack` with it; a compile error gives `None`.
#[verifier::external_body]
pub(crate) fn regex_is_match(pattern: &str, haystack: &str) -> (r: Option<bool>)
    ensures
        r == regex_outcome(pattern@, haystack@),
{
    match regex::Regex::new(pattern) {
        Ok(re) => Some(re.is_match(haystack)),
        Err(_) => None,
    }
}

/// Builds the whole-word pattern for `query`, with every meta character of
/// `query` escaped so that it is matched literally.
pub fn word_pattern(query: &str, case_insensitive: bool) -> (r: String)
    ensures
        r@ == word_pattern_of(query@, case_insensitive),
{
    let esc = regex_escape(query);
    let mut p = if case_insensitive {
        String::from_str("(?i)\\b")
    } else {
        String::from_str("\\b")
    };
    p.append(esc.as_str());
    p.append("\\b");
    proof {
        reveal_strlit("(?i)\\b");
        reveal_strlit("\\b");
        assert(p@ =~= word_pattern_of(query@, case_insensitive));
    }
    p
}

} // verus!
