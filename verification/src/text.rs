//! What this library relies on from `String`, where vstd is silent: adding a
//! character at the end and taking the last one away. Neither is proved here.

use vstd::prelude::*;

verus! {

/// `String::push`: the string afterwards is the string before with `ch`
/// added at its end.
pub assume_specification[ String::push ](s: &mut String, ch: char)
    ensures
        final(s)@ == old(s)@.push(ch),
;

/// `String::pop`: an empty string stays empty and gives `None`; any other
/// loses its last character, which is returned.
pub assume_specification[ String::pop ](s: &mut String) -> (last: Option<char>)
    ensures
        old(s)@.len() == 0 ==> last.is_none() && final(s)@ == old(s)@,
        old(s)@.len() > 0 ==> last == Some(old(s)@.last()) && final(s)@ == old(s)@.drop_last(),
;

} // verus!
