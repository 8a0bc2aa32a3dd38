//! Regular-expression matching for the error banners, through the `regex`
//! crate.
//!
//! The engine only ever extracts plain text from a daemon error message:
//! the first match of a fixed pattern, or its first capture group. Both
//! are functions of the pattern text and the haystack alone, so they are
//! named here and the callers' contracts speak through the names.

use vstd::prelude::*;

verus! {

#[verifier::external_type_specification]
#[verifier::external_body]
pub struct ExRegex(regex::Regex);

/// Whether the pattern text compiles as a regular expression; what
/// `regex::Regex::new` returns depends on the pattern text alone.
pub uninterp spec fn regex_compiles(pattern: Seq<char>) -> bool;

/// The text of the leftmost match of the pattern in the haystack, if any;
/// what `regex::Regex::find` returns depends on the pattern and haystack
/// texts alone.
pub uninterp spec fn regex_find_text(pattern: Seq<char>, hay: Seq<char>) -> Option<Seq<char>>;

/// The text of the first capture group of the leftmost match, if any; what
/// `regex::Regex::captures` returns depends on the pattern and haystack
/// texts alone.
pub uninterp spec fn regex_capture_text(pattern: Seq<char>, hay: Seq<char>) -> Option<Seq<char>>;

/// The haystack with the leftmost match of the pattern removed, or the
/// haystack itself when nothing matches; what `regex::Regex::replace`
/// yields for an empty replacement depends on the pattern and haystack
/// texts alone.
pub uninterp spec fn regex_strip_first(pattern: Seq<char>, hay: Seq<char>) -> Seq<char>;

/// A compiled regular expression, carrying the pattern text it was built
/// from.
pub struct CompiledPattern {
    re: regex::Regex,
    pattern: String,
}

impl CompiledPattern {
    /// The pattern text this expression was compiled from.
    pub closed spec fn spec_pattern(&self) -> Seq<char> {
        self.pattern@
    }

    /// Relies on `regex::Regex::new`: compiles the pattern, or yields
    /// nothing on an invalid pattern.
    #[verifier::external_body]
    pub fn compile(pattern: &str) -> (r: Option<CompiledPattern>)
        ensures
            r is Some <==> regex_compiles(pattern@),
            r matches Some(p) ==> p.spec_pattern() == pattern@,
    {
        match regex::Regex::new(pattern) {
            Ok(re) => Some(CompiledPattern { re, pattern: pattern.to_string() }),
            Err(_) => None,
        }
    }

    /// Relies on `regex::Regex::find`: the text of the leftmost match.
    #[verifier::external_body]
    pub fn find_first(&self, hay: &str) -> (r: Option<String>)
        ensures
            r is Some <==> regex_find_text(self.spec_pattern(), hay@) is Some,
            r matches Some(s) ==> Some(s@) == regex_find_text(self.spec_pattern(), hay@),
    {
        self.re.find(hay).map(|m| m.as_str().to_string())
    }

    /// Relies on `regex::Regex::captures`: the text of the first capture
    /// group of the leftmost match.
    #[verifier::external_body]
    pub fn capture_first(&self, hay: &str) -> (r: Option<String>)
        ensures
            r is Some <==> regex_capture_text(self.spec_pattern(), hay@) is Some,
            r matches Some(s) ==> Some(s@) == regex_capture_text(self.spec_pattern(), hay@),
    {
        self.re.captures(hay).and_then(|caps| caps.get(1)).map(|m| m.as_str().to_string())
    }

    /// Relies on `regex::Regex::replace` with an empty replacement: the
    /// haystack with the leftmost match removed.
    #[verifier::external_body]
    pub fn strip_first(&self, hay: &str) -> (r: String)
        ensures
            r@ == regex_strip_first(self.spec_pattern(), hay@),
    {
        self.re.replace(hay, "").into_owned()
    }
}

} // verus!
