//! Searching bytes for a regular expression, through the `regex` crate.

use vstd::prelude::*;

verus! {

/// What `regex::bytes::Regex::new` says of `pattern`: `None` where it
/// compiles, and otherwise the message of the error, as its `Display` writes
/// it.
pub uninterp spec fn refusal(pattern: Seq<char>) -> Option<Seq<char>>;

/// The offset just past the first match of `pattern` in `haystack`, as
/// `regex::bytes::Regex::find` reports it; `None` where nothing matches.
pub uninterp spec fn first_match_end(pattern: Seq<char>, haystack: Seq<u8>) -> Option<usize>;

/// Whether `pattern` is a regular expression that the engine accepts.
pub open spec fn pattern_compiles(pattern: Seq<char>) -> bool {
    refusal(pattern) is None
}

/// Compiles `pattern` with `regex::bytes::Regex::new` and searches `haystack`
/// with `Regex::find`, returning the `end` of the match it finds. A pattern
/// that is refused comes back as the message of the crate's error.
///
/// Trusted: the call fails exactly for the patterns that do not compile, and
/// then with the named message; otherwise its result is the named end of the
/// first match, which, being an offset into `haystack`, is no larger than its
/// length.
#[verifier::external_body]
pub(crate) fn search(pattern: &str, haystack: &[u8]) -> (found: Result<Option<usize>, String>)
    ensures
        match found {
            Ok(end) => refusal(pattern@) is None && end == first_match_end(
                pattern@,
                haystack@,
            ),
            Err(message) => refusal(pattern@) == Some(message@),
        },
        found matches Ok(Some(end)) ==> end <= haystack@.len(),
{
    match regex::bytes::Regex::new(pattern) {
        Ok(re) => Ok(re.find(haystack).map(|m| m.end())),
        Err(e) => Err(e.to_string()),
    }
}

} // verus!
