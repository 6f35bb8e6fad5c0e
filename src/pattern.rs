//! Compiled text patterns, the matchers of a pattern table.
use vstd::prelude::*;
use crate::span::valid_range;

verus! {

#[verifier::external_type_specification]
#[verifier::external_body]
pub struct ExRegex(regex::Regex);

#[verifier::external_type_specification]
#[verifier::external_body]
pub struct ExRegexError(regex::Error);

/// Whether `regex::Regex::new` compiles the pattern `pattern`.
pub uninterp spec fn regex_accepts(pattern: Seq<char>) -> bool;

/// Byte range of the leftmost match of the regex compiled from `pattern`,
/// searching `haystack` from byte offset `start` with the text before
/// `start` still seen as context.
pub uninterp spec fn regex_find_at(pattern: Seq<char>, haystack: Seq<char>, start: int) -> Option<(usize, usize)>;

/// Relies on `regex::Regex::new`: it returns `Ok` exactly for the patterns it
/// accepts, which depends on the pattern text alone.
#[verifier::external_body]
fn compile(pattern: &str) -> (r: Result<regex::Regex, regex::Error>)
    ensures
        r is Ok <==> regex_accepts(pattern@),
{
    regex::Regex::new(pattern)
}

/// A pattern given as text, together with the regex compiled from it.
#[derive(Debug)]
pub struct Pattern {
    regex: regex::Regex,
    text: String,
}

/// A pattern that `regex` does not accept.
#[derive(Clone, Debug, PartialEq, Eq)]
pub struct PatternError {
    pub pattern: String,
}

/// Relies on `regex::Regex::find_at` and `regex::Match::{start, end}`: the
/// match lies in `haystack` at or after `start`, `start <= end`, and both
/// ends are character boundaries. `find_at` panics when `start` exceeds the
/// haystack's length, which `requires` rules out. The regex searched is the
/// one compiled from `p.text`, as `Pattern::new` is the only constructor.
#[verifier::external_body]
fn find_at(p: &Pattern, haystack: &str, start: usize) -> (r: Option<(usize, usize)>)
    requires
        start <= haystack.len(),
    ensures
        r == regex_find_at(p.text@, haystack@, start as int),
        r matches Some((s, e)) ==> start <= s && valid_range(haystack, s as int, e as int),
{
    p.regex.find_at(haystack, start).map(|m| (m.start(), m.end()))
}

/// Where the match of `pattern` that starts exactly at `pos` ends, when that
/// match consumes at least one byte. A match that starts later, or an empty
/// one, does not count: it could not move a scan forward.
pub open spec fn match_end(pattern: Seq<char>, src: &str, pos: int) -> Option<int> {
    match accepted_end(regex_find_at(pattern, src@, pos), pos) {
        Some(e) => if valid_range(src, pos, e) {
            Some(e)
        } else {
            None
        },
        None => None,
    }
}

/// The end of `found` when it starts exactly at `pos` and is not empty.
pub open spec fn accepted_end(found: Option<(usize, usize)>, pos: int) -> Option<int> {
    match found {
        Some((s, e)) => if s == pos && pos < e {
            Some(e as int)
        } else {
            None
        },
        None => None,
    }
}

/// Keeps a search result only if it starts exactly at `pos` and consumes
/// at least one byte, and returns where it ends.
pub fn accept_match(found: Option<(usize, usize)>, pos: usize) -> (r: Option<usize>)
    ensures
        r matches Some(e) ==> accepted_end(found, pos as int) == Some(e as int),
        r is None ==> accepted_end(found, pos as int) is None,
{
    match found {
        Some((s, e)) => if s == pos && pos < e {
            Some(e)
        } else {
            None
        },
        None => None,
    }
}

impl Pattern {
    /// The pattern's text.
    pub closed spec fn source(&self) -> Seq<char> {
        self.text@
    }

    /// Compiles `text`; fails exactly when `regex` rejects it.
    pub fn new(text: &str) -> (r: Result<Pattern, PatternError>)
        ensures
            r is Ok <==> regex_accepts(text@),
            r matches Ok(p) ==> p.source() == text@,
            r matches Err(e) ==> e.pattern@ == text@,
    {
        match compile(text) {
            Ok(regex) => Ok(Pattern { regex, text: text.to_owned() }),
            Err(_) => Err(PatternError { pattern: text.to_owned() }),
        }
    }

    pub fn as_str(&self) -> (r: &str)
        ensures
            r@ == self.source(),
    {
        self.text.as_str()
    }

    /// The end of this pattern's non-empty match starting exactly at `pos`.
    pub fn match_at(&self, src: &str, pos: usize) -> (r: Option<usize>)
        requires
            pos <= src.len(),
        ensures
            r matches Some(e) ==> match_end(self.source(), src, pos as int) == Some(e as int),
            r is None ==> match_end(self.source(), src, pos as int) is None,
    {
        accept_match(find_at(self, src, pos), pos)
    }
}

} // verus!
