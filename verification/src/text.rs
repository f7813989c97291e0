//! Trusted access to the parts of std's `String` that the library appends with.

use vstd::prelude::*;

verus! {

/// `String::push` of std, which appends one character to the string.
/// Trusted to append exactly `c`.
#[verifier::external_body]
pub(crate) fn push_char(string: &mut String, c: char)
    ensures
        final(string)@ == old(string)@.push(c),
{
    string.push(c);
}

} // verus!
