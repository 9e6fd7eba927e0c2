//! The two string operations the library needs.

use vstd::prelude::*;
use vstd::string::StringExecFns;

verus! {

/// Whether two string slices hold the same characters.
pub(crate) fn str_eq(a: &str, b: &str) -> (same: bool)
    ensures
        same == (a@ == b@),
{
    let left = a.to_owned();
    let right = b.to_owned();
    left == right
}

/// The characters of `a` followed by those of `b`, as a new `String`.
pub(crate) fn str_concat(a: &str, b: &str) -> (joined: String)
    ensures
        joined@ == a@ + b@,
{
    a.to_owned().concat(b)
}

} // verus!
