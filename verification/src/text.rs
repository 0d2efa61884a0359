//! What this crate takes on trust about the standard library's strings.

use vstd::prelude::*;

verus! {

/// `String::push` appends the character `ch` to the end of the string and
/// changes nothing else.
pub assume_specification[ String::push ](s: &mut String, ch: char)
    ensures
        final(s)@ == old(s)@.push(ch),
;

} // verus!
