//! Text matching for searches. The search text of a filter is handed to the
//! `regex` crate as a case-insensitive pattern; this module is the boundary
//! to that crate and to the trimming of the standard library.
//!
//! What the pattern engine decides is not spelled out here. Its answers get
//! names (`pattern_compiles`, `pattern_found`), and everything that the rest
//! of the library proves about searches is stated over those names. Nothing
//! in this module is proved of the engine itself: the contracts given to
//! `Regex::new`, `Regex::find` and `str::trim` are taken on trust.

use regex::{Match, Regex};
use vstd::prelude::*;
use vstd::string::StringExecFns;

verus! {

/// A compiled pattern of the `regex` crate. Nothing inside it is visible here.
#[verifier::external_type_specification]
#[verifier::external_body]
pub struct ExRegex(Regex);

/// The error with which the `regex` crate turns a pattern down.
#[verifier::external_type_specification]
#[verifier::external_body]
pub struct ExRegexError(regex::Error);

/// The place of a match in a haystack, as the `regex` crate reports it.
#[verifier::external_type_specification]
#[verifier::external_body]
pub struct ExMatch<'h>(Match<'h>);

/// Whether `Regex::new` accepts `pattern`.
pub uninterp spec fn pattern_compiles(pattern: Seq<char>) -> bool;

/// Whether `pattern`, once `Regex::new` has compiled it, has a match
/// anywhere in `haystack`.
pub uninterp spec fn pattern_found(pattern: Seq<char>, haystack: Seq<char>) -> bool;

/// Whether `Regex::find` returns a match of `regex` in `haystack`.
pub uninterp spec fn regex_found(regex: Regex, haystack: Seq<char>) -> bool;

/// Whether `char::is_whitespace` holds of `c`: the character has the Unicode
/// property `White_Space`.
pub uninterp spec fn is_whitespace(c: char) -> bool;

/// `Regex::new` compiles a pattern or turns it down. Claimed: which of the
/// two happens depends on the pattern text alone, and so does what the
/// compiled pattern finds in each haystack.
pub assume_specification[ Regex::new ](re: &str) -> (r: Result<Regex, regex::Error>)
    ensures
        r is Ok <==> pattern_compiles(re@),
        r matches Ok(regex) ==> forall|haystack: Seq<char>| #[trigger]
            regex_found(regex, haystack) == pattern_found(re@, haystack),
;

/// `Regex::find` looks for the leftmost match in `haystack`. Claimed:
/// whether there is one depends on the compiled pattern and the haystack
/// alone. Nothing is said of where the match lies.
pub assume_specification<'h>[ Regex::find ](regex: &Regex, haystack: &'h str) -> (found: Option<
    Match<'h>,
>)
    ensures
        found is Some <==> regex_found(*regex, haystack@),
;

/// `str::trim` drops the longest run of whitespace at either end, so that
/// what is left neither starts nor ends with whitespace.
pub assume_specification[ str::trim ](s: &str) -> (t: &str)
    ensures
        t@ == trimmed(s@),
        t@.len() > 0 ==> !is_whitespace(t@.first()) && !is_whitespace(t@.last()),
;

/// `s` without the whitespace it starts with.
pub open spec fn trim_start(s: Seq<char>) -> Seq<char>
    decreases s.len(),
{
    if s.len() > 0 && is_whitespace(s.first()) {
        trim_start(s.drop_first())
    } else {
        s
    }
}

/// `s` without the whitespace it ends with.
pub open spec fn trim_end(s: Seq<char>) -> Seq<char>
    decreases s.len(),
{
    if s.len() > 0 && is_whitespace(s.last()) {
        trim_end(s.drop_last())
    } else {
        s
    }
}

/// `s` without leading and trailing whitespace.
pub open spec fn trimmed(s: Seq<char>) -> Seq<char> {
    trim_end(trim_start(s))
}

/// The pattern that a search for `text` compiles: the text itself, taken as
/// pattern syntax, behind the flag `(?i)`, which makes the match ignore case.
pub open spec fn search_pattern(text: Seq<char>) -> Seq<char> {
    seq!['(', '?', 'i', ')'] + text
}

/// Whether a search for `text` finds `description`. A text that is no valid
/// pattern finds nothing.
pub open spec fn search_hits(text: Seq<char>, description: Seq<char>) -> bool {
    let pattern = search_pattern(text);
    pattern_compiles(pattern) && pattern_found(pattern, description)
}

/// A search text made ready for use: it is compiled once and can then be
/// tried on any number of descriptions.
pub struct Needle {
    /// The compiled pattern, or nothing where the text is no valid pattern.
    compiled: Option<Regex>,
    /// The text that was searched for.
    text: Ghost<Seq<char>>,
}

impl Needle {
    /// The text that this needle searches for.
    pub closed spec fn text(&self) -> Seq<char> {
        self.text@
    }

    /// The compiled pattern finds what the pattern of the text finds, and
    /// there is none exactly where that pattern does not compile.
    #[verifier::type_invariant]
    spec fn well_formed(self) -> bool {
        match self.compiled {
            Some(regex) => {
                &&& pattern_compiles(search_pattern(self.text@))
                &&& forall|haystack: Seq<char>| #[trigger]
                    regex_found(regex, haystack) == pattern_found(
                        search_pattern(self.text@),
                        haystack,
                    )
            },
            None => !pattern_compiles(search_pattern(self.text@)),
        }
    }

    /// Makes `text` ready for searching, ignoring case. A text that is no
    /// valid pattern gives a needle that finds nothing.
    pub fn new(text: &str) -> (needle: Needle)
        ensures
            needle.text() == text@,
    {
        let mut pattern = String::from_str("(?i)");
        pattern.append(text);
        proof {
            reveal_strlit("(?i)");
            assert(pattern@ =~= search_pattern(text@));
        }
        let compiled = match Regex::new(pattern.as_str()) {
            Ok(regex) => Some(regex),
            Err(_) => None,
        };
        Needle { compiled, text: Ghost(text@) }
    }

    /// Whether the text is found in `description`.
    pub fn hits(&self, description: &str) -> (hit: bool)
        ensures
            hit == search_hits(self.text(), description@),
    {
        proof {
            use_type_invariant(self);
        }
        match &self.compiled {
            Some(regex) => regex.find(description).is_some(),
            None => false,
        }
    }
}

/// The search text as it is used: without the whitespace around it.
pub fn needle_of(text: &str) -> (needle: String)
    ensures
        needle@ == trimmed(text@),
{
    String::from_str(text.trim())
}

} // verus!
