use vstd::prelude::*;

verus! {

/// `PartialEq::eq` for `str`: two string slices are equal exactly when they
/// hold the same characters. Std documents string equality as comparison of
/// the contents; this contract claims that and nothing more.
pub assume_specification[ <str as PartialEq>::eq ](a: &str, b: &str) -> (same: bool)
    ensures
        same == (a@ == b@),
;

/// The characters that `str::to_lowercase` returns for the characters `s`:
/// their lowercase equivalent under Unicode's `Lowercase` property (the
/// mapping of a character may depend on its neighbours, as for a final
/// sigma), which depends on `s` alone.
pub uninterp spec fn lowercase(s: Seq<char>) -> Seq<char>;

/// Calls `str::to_lowercase`. The contract only names the result
/// (`lowercase` of the input's characters); the Unicode case tables that
/// define it are left unstated.
#[verifier::external_body]
pub(crate) fn to_lowercase(s: &str) -> (lower: String)
    ensures
        lower@ == lowercase(s@),
{
    s.to_lowercase()
}

} // verus!
