//! The boundary to the `regex` crate: compiled patterns and what they match.
//!
//! What `regex` does is not proved here. Four small functions call into it,
//! and their contracts only give names to what those calls return. Everything
//! the rest of the library proves about text that went through a pattern is
//! stated in terms of these names.

use crate::text::same_text;
use regex::Regex;
use vstd::prelude::*;

verus! {

/// `regex::Regex`, a compiled pattern. The library carries it as a value it
/// cannot look into.
#[verifier::external_type_specification]
#[verifier::external_body]
pub struct ExRegex(regex::Regex);

/// `regex::Error`, the reason why a pattern did not compile. The library
/// carries it as a value it cannot look into.
#[verifier::external_type_specification]
#[verifier::external_body]
pub struct ExRegexError(regex::Error);

/// Whether `regex::Regex::new` accepts `pattern`: whether it returns a
/// compiled regex for it and not an error.
pub uninterp spec fn compiles(pattern: Seq<char>) -> bool;

/// The pattern text that a compiled regex was built from, as
/// `regex::Regex::as_str` reports it.
pub uninterp spec fn regex_source(re: Regex) -> Seq<char>;

/// The text that `regex::Regex::replace_all` returns for `haystack` when every
/// non-overlapping match of `re` is replaced by `replacement`.
pub uninterp spec fn replaced_all(re: Regex, haystack: Seq<char>, replacement: Seq<char>) -> Seq<
    char,
>;

/// The text of capture group `group` in the leftmost match of `re` in
/// `haystack`, as `regex::Regex::captures` followed by `Captures::get` reports
/// it; `None` when `re` does not match or the group took no part in the match.
pub uninterp spec fn captured(re: Regex, haystack: Seq<char>, group: int) -> Option<Seq<char>>;

/// Compiles `pattern` with `regex::Regex::new`.
///
/// Trusted: whether a regex comes back is what [`compiles`] names, and a
/// regex that came back remembers the pattern text it was given.
#[verifier::external_body]
pub(crate) fn compile(pattern: &str) -> (r: Result<Regex, regex::Error>)
    ensures
        r is Ok <==> compiles(pattern@),
        r matches Ok(re) ==> regex_source(re) == pattern@,
{
    Regex::new(pattern)
}

/// Asks a compiled regex for its pattern text with `regex::Regex::as_str`.
///
/// Trusted: the result is the text named by [`regex_source`].
#[verifier::external_body]
pub(crate) fn source_of(re: &Regex) -> (r: &str)
    ensures
        r@ == regex_source(*re),
{
    re.as_str()
}

/// Replaces every match of `re` in `haystack` with `regex::Regex::replace_all`.
///
/// Trusted: the result is the text named by [`replaced_all`].
#[verifier::external_body]
pub(crate) fn replace_all(re: &Regex, haystack: &str, replacement: &str) -> (r: String)
    ensures
        r@ == replaced_all(*re, haystack@, replacement@),
{
    re.replace_all(haystack, replacement).into_owned()
}

/// Searches `haystack` with `regex::Regex::captures`, asks the match for
/// capture group `group` with `Captures::get`, and copies the text of the
/// group out with `Match::as_str`.
///
/// Trusted: the result is the text named by [`captured`].
#[verifier::external_body]
pub(crate) fn capture(re: &Regex, haystack: &str, group: usize) -> (r: Option<String>)
    ensures
        r.deep_view() == captured(*re, haystack@, group as int),
{
    match re.captures(haystack) {
        Some(found) => match found.get(group) {
            Some(part) => Some(part.as_str().to_string()),
            None => None,
        },
        None => None,
    }
}

/// The pattern of a structured comment in an edit summary: `/*`, at least one
/// character of any kind, and the nearest `*/` after it.
pub const COMMENT_PATTERN: &'static str = r"/\*[\s\S]+?\*/";

/// The pattern of the level on the status page: `level`, `=` and digits, with
/// any white space around the `=`. Its first group holds the digits.
pub const LEVEL_PATTERN: &'static str = r"level\s*=\s*(\d+)";

/// Which of the two patterns is not there as it should be.
#[derive(Clone, Copy, Debug, PartialEq, Eq, Structural)]
pub enum PatternError {
    /// There is no regex compiled from [`COMMENT_PATTERN`].
    Comment,
    /// There is no regex compiled from [`LEVEL_PATTERN`].
    Level,
}

/// The attempt to compile a pattern gave a regex, and it is one made from
/// `pattern`.
pub open spec fn is_compiled_from(attempt: Result<Regex, regex::Error>, pattern: Seq<char>) -> bool {
    attempt matches Ok(re) && regex_source(re) == pattern
}

/// The two compiled patterns the library matches text with.
pub struct Patterns {
    comment: Regex,
    level: Regex,
}

impl Patterns {
    /// Each of the two was compiled from its pattern.
    #[verifier::type_invariant]
    pub closed spec fn well_formed(&self) -> bool {
        &&& regex_source(self.comment) == COMMENT_PATTERN@
        &&& regex_source(self.level) == LEVEL_PATTERN@
    }

    /// The pattern text that the comment pattern was compiled from.
    pub closed spec fn comment_source(&self) -> Seq<char> {
        regex_source(self.comment)
    }

    /// The pattern text that the level pattern was compiled from.
    pub closed spec fn level_source(&self) -> Seq<char> {
        regex_source(self.level)
    }

    /// `text` with every structured comment taken out.
    pub closed spec fn stripped(&self, text: Seq<char>) -> Seq<char> {
        replaced_all(self.comment, text, Seq::empty())
    }

    /// The digits after `level =` in `content`, if the page states a level.
    pub closed spec fn level_digits(&self, content: Seq<char>) -> Option<Seq<char>> {
        captured(self.level, content, 1)
    }

    /// Takes every structured comment out of `text`.
    pub fn strip_comments(&self, text: &str) -> (r: String)
        ensures
            r@ == self.stripped(text@),
    {
        proof {
            reveal_strlit("");
            assert(""@ =~= Seq::<char>::empty());
        }
        replace_all(&self.comment, text, "")
    }

    /// Finds the digits of the level that `content` states.
    pub fn find_level_digits(&self, content: &str) -> (r: Option<String>)
        ensures
            r.deep_view() == self.level_digits(content@),
    {
        capture(&self.level, content, 1)
    }

    /// Compiles [`COMMENT_PATTERN`] and [`LEVEL_PATTERN`]. The patterns are
    /// there if and only if `regex` accepts both; else the answer says which
    /// of them it refused, and names the comment pattern if it refused both.
    pub fn new() -> (r: Result<Patterns, PatternError>)
        ensures
            r is Ok <==> compiles(COMMENT_PATTERN@) && compiles(LEVEL_PATTERN@),
            r matches Ok(patterns) ==> {
                &&& patterns.comment_source() == COMMENT_PATTERN@
                &&& patterns.level_source() == LEVEL_PATTERN@
            },
            r matches Err(e) ==> e == (if !compiles(COMMENT_PATTERN@) {
                PatternError::Comment
            } else {
                PatternError::Level
            }),
    {
        let comment = compile(COMMENT_PATTERN);
        let level = compile(LEVEL_PATTERN);
        Patterns::from_compiled(comment, level)
    }

    /// Puts the two compiled patterns together. Each must have compiled, and
    /// from its own pattern; else the answer says which of them is at fault,
    /// and names the comment pattern if both are.
    pub fn from_compiled(
        comment: Result<Regex, regex::Error>,
        level: Result<Regex, regex::Error>,
    ) -> (r: Result<Patterns, PatternError>)
        ensures
            r is Ok <==> is_compiled_from(comment, COMMENT_PATTERN@) && is_compiled_from(
                level,
                LEVEL_PATTERN@,
            ),
            r matches Ok(patterns) ==> {
                &&& patterns.comment_source() == COMMENT_PATTERN@
                &&& patterns.level_source() == LEVEL_PATTERN@
            },
            r matches Err(e) ==> e == (if !is_compiled_from(comment, COMMENT_PATTERN@) {
                PatternError::Comment
            } else {
                PatternError::Level
            }),
    {
        match comment {
            Ok(comment) => {
                if !same_text(source_of(&comment), COMMENT_PATTERN) {
                    return Err(PatternError::Comment);
                }
                match level {
                    Ok(level) => {
                        if !same_text(source_of(&level), LEVEL_PATTERN) {
                            return Err(PatternError::Level);
                        }
                        Ok(Patterns { comment, level })
                    },
                    Err(_) => Err(PatternError::Level),
                }
            },
            Err(_) => Err(PatternError::Comment),
        }
    }
}

} // verus!
