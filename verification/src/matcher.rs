//! Fuzzy filtering of texts by a needle typed by the user.
use vstd::prelude::*;

use nucleo::pattern::{AtomKind, CaseMatching, Normalization, Pattern};

verus! {

/// The score of `haystack` against the needle, as `nucleo`'s substring pattern with
/// smart case matching and smart normalization gives it.
pub uninterp spec fn pattern_score(needle: Seq<char>, haystack: Seq<char>) -> Option<u32>;

/// Scores a text against a needle.
///
/// Calls `nucleo::pattern::Pattern::score` on the pattern that `Pattern::new` makes of
/// `needle` (substring atoms, smart case matching, smart normalization), with a default
/// `nucleo::Matcher`; the result is named `pattern_score` of the two texts.
#[verifier::external_body]
fn score(needle: &str, haystack: &str) -> (s: Option<u32>)
    ensures
        s == pattern_score(needle@, haystack@),
{
    let pattern = Pattern::new(needle, CaseMatching::Smart, Normalization::Smart, AtomKind::Substring);
    let mut buf = Vec::new();
    pattern.score(nucleo::Utf32Str::new(haystack, &mut buf), &mut nucleo::Matcher::default())
}

/// Whether a text matches a needle: its score is positive.
pub open spec fn scores(needle: Seq<char>, haystack: Seq<char>) -> bool {
    match pattern_score(needle, haystack) {
        Some(s) => s > 0,
        None => false,
    }
}

/// Filters texts by the needle last set; without a needle every text matches.
#[derive(Debug, Clone, PartialEq, Eq)]
pub struct Matcher {
    needle: Option<String>,
}

impl Default for Matcher {
    fn default() -> (m: Self)
        ensures
            m.needle_view() is None,
    {
        Matcher::new()
    }
}

impl Matcher {
    /// The needle, if one is set.
    pub closed spec fn needle_view(&self) -> Option<Seq<char>> {
        match self.needle {
            Some(n) => Some(n@),
            None => None,
        }
    }

    /// A matcher without needle.
    pub fn new() -> (m: Matcher)
        ensures
            m.needle_view() is None,
    {
        Matcher { needle: None }
    }

    /// Sets the needle; an empty needle removes it.
    pub fn update_needle(&mut self, needle: &str)
        ensures
            needle@.len() == 0 ==> final(self).needle_view() is None,
            needle@.len() > 0 ==> final(self).needle_view() == Some(needle@),
    {
        if needle.unicode_len() == 0 {
            self.needle = None;
        } else {
            self.needle = Some(needle.to_owned());
        }
    }

    /// Whether a text matches the needle.
    pub fn matches(&self, haystack: &str) -> (r: bool)
        ensures
            r == match self.needle_view() {
                Some(n) => scores(n, haystack@),
                None => true,
            },
    {
        match &self.needle {
            Some(needle) => match score(needle.as_str(), haystack) {
                Some(s) => s > 0,
                None => false,
            },
            None => true,
        }
    }
}

} // verus!
