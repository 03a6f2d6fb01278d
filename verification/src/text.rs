//! Case folding, trimming and URL syntax checks.
//!
//! Case-insensitive matching runs through `lower_of`, the name given to what
//! `str::to_lowercase` returns; URL validity runs through `url_valid`, the
//! name given to the verdict of validator's URL check.

use validator::ValidateUrl;
use vstd::prelude::*;

verus! {

/// The character sequence that `str::to_lowercase` returns for `s`.
pub uninterp spec fn lower_of(s: Seq<char>) -> Seq<char>;

/// The character sequence that `str::trim` returns for `s`.
pub uninterp spec fn trim_of(s: Seq<char>) -> Seq<char>;

/// Whether validator accepts `s` as a well-formed URL.
pub uninterp spec fn url_valid(s: Seq<char>) -> bool;

/// Relies on `str::to_lowercase`: the result is the lowercase equivalent of
/// the input and depends on the input characters alone.
#[verifier::external_body]
pub fn lowercase(s: &str) -> (r: String)
    ensures
        r@ == lower_of(s@),
        s@.len() == 0 ==> r@.len() == 0,
{
    s.to_lowercase()
}

/// Relies on `str::trim`: the result is the input with leading and trailing
/// whitespace removed, so a subsequence that depends on the input alone.
#[verifier::external_body]
pub fn trimmed(s: &str) -> (r: &str)
    ensures
        r@ == trim_of(s@),
        r@.len() <= s@.len(),
{
    s.trim()
}

/// Relies on validator's `ValidateUrl` for `str`, which parses the string as
/// a URL; the verdict depends on the input characters alone.
#[verifier::external_body]
pub fn url_is_valid(s: &str) -> (r: bool)
    ensures
        r == url_valid(s@),
{
    s.validate_url()
}

} // verus!
