//! Regular expressions, matched by the `regex` crate.
use vstd::prelude::*;

verus! {

#[verifier::external_type_specification]
#[verifier::external_body]
pub struct ExRegex(regex::Regex);

/// What `regex::Regex::new` gives for a pattern: `None` when it compiles,
/// else the description of the error.
pub uninterp spec fn regex_compile_error(pattern: Seq<char>) -> Option<Seq<char>>;

/// What `regex::Regex::is_match` answers for a pattern and a haystack.
pub uninterp spec fn regex_is_match(pattern: Seq<char>, haystack: Seq<char>) -> bool;

/// What `regex::Regex::replace_all` gives for a pattern, a haystack and a
/// replacement.
pub uninterp spec fn regex_replace_all(
    pattern: Seq<char>,
    haystack: Seq<char>,
    replacement: Seq<char>,
) -> Seq<char>;

/// A compiled regular expression with the pattern it was compiled from.
pub struct CompiledRegex {
    pattern: String,
    re: regex::Regex,
}

impl CompiledRegex {
    /// The pattern this expression was compiled from.
    pub closed spec fn source(&self) -> Seq<char> {
        self.pattern@
    }
}

/// Calls `regex::Regex::new`: the compiled expression, or the description
/// of the compile error.
#[verifier::external_body]
pub(crate) fn compile(pattern: &str) -> (res: Result<CompiledRegex, String>)
    ensures
        res is Ok <==> regex_compile_error(pattern@) is None,
        res matches Ok(r) ==> r.source() == pattern@,
        res matches Err(m) ==> regex_compile_error(pattern@) == Some(m@),
{
    match regex::Regex::new(pattern) {
        Ok(re) => Ok(CompiledRegex { pattern: pattern.to_string(), re }),
        Err(e) => Err(e.to_string()),
    }
}

/// Calls `regex::Regex::is_match` on `haystack`.
#[verifier::external_body]
pub(crate) fn is_match(re: &CompiledRegex, haystack: &str) -> (res: bool)
    ensures
        res == regex_is_match(re.source(), haystack@),
{
    re.re.is_match(haystack)
}

/// Calls `regex::Regex::replace_all` on `haystack`.
#[verifier::external_body]
pub(crate) fn replace_all(re: &CompiledRegex, haystack: &str, replacement: &str) -> (res: String)
    ensures
        res@ == regex_replace_all(re.source(), haystack@, replacement@),
{
    re.re.replace_all(haystack, replacement).into_owned()
}

} // verus!
