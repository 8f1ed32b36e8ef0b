//! Rewriting by pattern. The pattern engine is the `regex` crate; nothing of its
//! matching is proved here, and its result goes by a name.

use vstd::prelude::*;

verus! {

/// The error of the pattern engine: a pattern that it cannot build.
#[verifier::external_type_specification]
#[verifier::external_body]
pub struct ExPatternError(regex::Error);

/// What `regex::Regex::replace_all` returns for `text` and `replacement`, on the
/// regex that `regex::Regex::new` builds from `pattern`; nothing where
/// `regex::Regex::new` refuses the pattern.
pub uninterp spec fn replaced(
    pattern: Seq<char>,
    text: Seq<char>,
    replacement: Seq<char>,
) -> Option<Seq<char>>;

/// Builds the regex of `pattern` with `regex::Regex::new` and calls
/// `regex::Regex::replace_all` on it. Claimed: whether the regex can be built
/// depends on the pattern alone, and where it can, the text that comes back
/// depends on the three arguments alone; so the outcome has the name `replaced`.
/// Nothing is claimed of which patterns can be built, nor of what the text is.
#[verifier::external_body]
pub(crate) fn replace_all(pattern: &str, text: &str, replacement: &str) -> (r: Result<
    String,
    regex::Error,
>)
    ensures
        match r {
            Ok(out) => replaced(pattern@, text@, replacement@) == Some(out@),
            Err(_) => replaced(pattern@, text@, replacement@) is None,
        },
{
    match regex::Regex::new(pattern) {
        Ok(regex) => Ok(regex.replace_all(text, replacement).into_owned()),
        Err(error) => Err(error),
    }
}

} // verus!
