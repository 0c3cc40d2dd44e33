//! A string of one character repeated, for padding and indentation.

use crate::strings::with_room;
use vstd::prelude::*;

verus! {

/// `count` times `ch`.
pub open spec fn repeated(ch: char, count: nat) -> Seq<char> {
    Seq::new(count, |i: int| ch)
}

/// Returns a string with `count` times `ch`.
pub fn repeat_char(ch: char, count: usize) -> (value: String)
    ensures
        value@ == repeated(ch, count as nat),
        value@.len() == count,
        forall|i: int| 0 <= i < count ==> value@[i] == ch,
        count == 0 ==> value@ == Seq::<char>::empty(),
{
    let mut value: String = with_room(count);
    let mut i: usize = 0;
    while i < count
        invariant
            i <= count,
            value@ == repeated(ch, i as nat),
        decreases count - i,
    {
        value.push(ch);
        i += 1;
        assert(repeated(ch, i as nat) =~= repeated(ch, (i - 1) as nat).push(ch));
    }
    proof {
        lemma_repeated(ch, 0);
    }
    value
}

/// Repeating no times gives the empty string; one more repetition appends
/// one more character.
pub proof fn lemma_repeated(ch: char, count: nat)
    ensures
        repeated(ch, 0) == Seq::<char>::empty(),
        repeated(ch, count + 1) == repeated(ch, count).push(ch),
        repeated(ch, count).len() == count,
{
    assert(repeated(ch, 0) =~= Seq::<char>::empty());
    assert(repeated(ch, count + 1) =~= repeated(ch, count).push(ch));
}

} // verus!
