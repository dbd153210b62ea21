//! Small trusted shims over std string operations that vstd leaves
//! unspecified.

use vstd::prelude::*;

verus! {

/// Relies on str's PartialEq: two string slices compare equal exactly
/// when they hold the same characters.
#[verifier::external_body]
pub(crate) fn str_eq(a: &str, b: &str) -> (r: bool)
    ensures
        r <==> a@ == b@,
{
    a == b
}

/// Relies on String::push_str: appends the slice's characters to the end
/// of the string.
#[verifier::external_body]
pub(crate) fn push_str(s: &mut String, t: &str)
    ensures
        final(s)@ == old(s)@ + t@,
{
    s.push_str(t)
}

} // verus!
