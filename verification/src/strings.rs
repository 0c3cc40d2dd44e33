//! What this library takes on trust about `String`, and the one helper that
//! is built on it.

use vstd::prelude::*;

verus! {

/// `String::push` appends one scalar value: the string afterwards reads as
/// the string before with `ch` at its end. Taken from the documentation of
/// the standard library; not proved here. As with `Vec::push`, running out
/// of memory is outside what is stated.
pub assume_specification[ String::push ](s: &mut String, ch: char)
    ensures
        final(s)@ == old(s)@.push(ch),
;

/// `String::with_capacity` returns an empty string, whatever room it has
/// set aside. The standard library refuses a capacity above `isize::MAX`
/// bytes, so such a request is left out. Not proved here.
pub assume_specification[ String::with_capacity ](capacity: usize) -> (s: String)
    requires
        capacity <= isize::MAX,
    ensures
        s@ == Seq::<char>::empty(),
;

/// An empty string with room for `len` bytes set aside where the allocator
/// can be asked for that much. The room is a hint: it shows in no result.
pub(crate) fn with_room(len: usize) -> (s: String)
    ensures
        s@ == Seq::<char>::empty(),
{
    if len <= isize::MAX as usize {
        String::with_capacity(len)
    } else {
        String::new()
    }
}

} // verus!
