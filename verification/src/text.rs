//! What this crate takes for granted of the standard library's strings.

use vstd::prelude::*;

verus! {

/// `String::push_str` of the standard library appends the given string slice onto the end of
/// the string.
pub assume_specification[ String::push_str ](s: &mut String, string: &str)
    ensures
        final(s)@ == old(s)@ + string@,
;

} // verus!
