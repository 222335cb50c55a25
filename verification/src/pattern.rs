use vstd::prelude::*;

use crate::errors::DlError;

verus! {

#[verifier::external_type_specification]
#[verifier::external_body]
pub struct ExGlobPattern(glob::Pattern);

/// Whether the glob library accepts `pattern` as well-formed syntax.  A
/// pure function of the pattern text.
pub uninterp spec fn glob_accepts(pattern: Seq<char>) -> bool;

/// Whether `path` matches the glob `pattern`: `*` matches a run of
/// characters, `?` a single character, others literally.  A pure function
/// of the two texts.
pub uninterp spec fn glob_match(pattern: Seq<char>, path: Seq<char>) -> bool;

/// A glob pattern, compiled once per run and then used as a pure
/// predicate on candidate paths.
pub struct CompiledPattern {
    text: String,
    compiled: glob::Pattern,
}

impl CompiledPattern {
    /// The pattern text this value was compiled from.
    pub closed spec fn text_view(&self) -> Seq<char> {
        self.text@
    }

    /// Relies on `glob::Pattern::new`: compilation succeeds exactly on
    /// well-formed pattern syntax and depends on the pattern text alone.
    #[verifier::external_body]
    pub fn compile(pattern: &str) -> (r: Result<CompiledPattern, DlError>)
        ensures
            r is Ok <==> glob_accepts(pattern@),
            r matches Ok(p) ==> p.text_view() == pattern@,
            r matches Err(e) ==> e == DlError::Parse,
    {
        match glob::Pattern::new(pattern) {
            Ok(compiled) => Ok(CompiledPattern { text: pattern.to_owned(), compiled }),
            Err(_) => Err(DlError::Parse),
        }
    }

    /// Relies on `glob::Pattern::matches`: the result is a pure function
    /// of the pattern text and the candidate path.
    #[verifier::external_body]
    pub fn matches_path(&self, path: &str) -> (r: bool)
        ensures
            r == glob_match(self.text_view(), path@),
    {
        self.compiled.matches(path)
    }
}

} // verus!
