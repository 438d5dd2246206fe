//! Small helpers on strings.

use vstd::prelude::*;

verus! {

/// `str`'s `==` from the standard library: two string slices are equal
/// exactly when they hold the same characters.
#[verifier::external_body]
pub(crate) fn str_eq(left: &str, right: &str) -> (same: bool)
    ensures
        same == (left@ == right@),
{
    left == right
}

/// The concatenation of two strings.
pub fn concat2(first: &str, second: &str) -> (joined: String)
    ensures
        joined@ == first@ + second@,
{
    let mut joined = String::from_str(first);
    joined.append(second);
    joined
}

/// The concatenation of three strings.
pub fn concat3(first: &str, second: &str, third: &str) -> (joined: String)
    ensures
        joined@ == first@ + second@ + third@,
{
    let mut joined = String::from_str(first);
    joined.append(second);
    joined.append(third);
    joined
}

} // verus!
