//! Regular expressions, compiled under a size limit.
//!
//! Matching itself is the work of the `regex` crate. What this crate relies
//! on is said by the two contracts below, and nothing of it is proved here.

use vstd::prelude::*;

verus! {

/// Makes `regex::Regex` known as a type. Nothing is said of what a value of
/// it holds.
#[verifier::external_type_specification]
#[verifier::external_body]
pub struct ExRegex(regex::Regex);

/// Whether the regular expression written as `pattern`, compiled with the
/// default options, finds a match anywhere in `text`.
pub uninterp spec fn regex_matches(pattern: Seq<char>, text: Seq<char>) -> bool;

/// A regular expression that compiled, together with the text it was
/// compiled from and the size limit it was compiled under.
///
/// Values are made by `compile` only, so the program always belongs to the
/// source and the limit.
pub struct CompiledPattern {
    source: String,
    limit: usize,
    program: regex::Regex,
}

impl View for CompiledPattern {
    type V = Seq<char>;

    /// The pattern text.
    closed spec fn view(&self) -> Seq<char> {
        self.source@
    }
}

impl CompiledPattern {
    /// The limit on the size of the program that the pattern was compiled under.
    pub closed spec fn limit(&self) -> usize {
        self.limit
    }

    /// Compiles `pattern` with `regex::RegexBuilder`, with default options but
    /// for the limit `size_limit` on the size of the compiled program.
    ///
    /// Trusted: a value that comes back was compiled from `pattern` under
    /// the limit `size_limit`. Whether one comes back is left open: a pattern
    /// is refused when it is not a regular expression or when its program
    /// would pass the limit, and the size of a program depends on the machine.
    #[verifier::external_body]
    pub(crate) fn compile(pattern: &str, size_limit: usize) -> (r: Option<CompiledPattern>)
        ensures
            r matches Some(c) ==> c@ == pattern@ && c.limit() == size_limit,
    {
        match regex::RegexBuilder::new(pattern).size_limit(size_limit).build() {
            Ok(program) => Some(
                CompiledPattern { source: pattern.to_string(), limit: size_limit, program },
            ),
            Err(_) => None,
        }
    }

    /// Runs `regex::Regex::is_match` on `text`.
    ///
    /// Trusted: the answer is that of the expression this value was compiled
    /// from, and depends on nothing but that expression and `text`.
    #[verifier::external_body]
    pub(crate) fn is_match(&self, text: &str) -> (r: bool)
        ensures
            r == regex_matches(self@, text@),
    {
        self.program.is_match(text)
    }
}

} // verus!
