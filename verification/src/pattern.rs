//! Glob-style pattern matching against path strings, through the `glob`
//! crate. Both operations are pure functions of their string arguments, so
//! each is given a name that the rest of the library's contracts speak of.
use vstd::prelude::*;

verus! {

/// Whether `glob::Pattern::new` accepts `p` as a well-formed glob pattern.
pub uninterp spec fn valid_glob(p: Seq<char>) -> bool;

/// Whether the glob pattern `p` matches the path `path`, as decided by
/// `glob::Pattern::matches` under its default match options.
pub uninterp spec fn glob_matches(p: Seq<char>, path: Seq<char>) -> bool;

/// Relies on `glob::Pattern::new`: compiling a pattern reads the pattern
/// string alone, and succeeds exactly on the well-formed patterns.
#[verifier::external_body]
pub(crate) fn glob_is_valid(p: &str) -> (r: bool)
    ensures
        r == valid_glob(p@),
{
    glob::Pattern::new(p).is_ok()
}

/// Relies on `glob::Pattern::new` and `glob::Pattern::matches`: whether a
/// pattern matches a path depends on the pattern string and the path alone.
#[verifier::external_body]
pub(crate) fn glob_match(p: &str, path: &str) -> (r: bool)
    requires
        valid_glob(p@),
    ensures
        r == glob_matches(p@, path@),
{
    match glob::Pattern::new(p) {
        Ok(pattern) => pattern.matches(path),
        Err(_) => false,
    }
}

} // verus!
