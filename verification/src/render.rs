//! Print-safe rendering of a character sequence.
//!
//! Every position of the rendered text stands for the same position of the
//! sequence, so a pointer drawn under the n-th character of the one lines up
//! with the n-th character of the other.

use crate::classify::{is_print, print};
use crate::sequence::{with_eot, EOT};
use crate::strings::with_room;
use vstd::prelude::*;

verus! {

/// What stands in for a value that is not printable. A plain ASCII
/// character, since a log may not carry anything else faithfully.
pub const PLACEHOLDER: char = '.';

/// A printable value renders as itself, any other as the placeholder.
pub open spec fn safe_char(ch: char) -> char {
    if print(ch) {
        ch
    } else {
        PLACEHOLDER
    }
}

/// The rendered form of a sequence: position by position, `safe_char`.
pub open spec fn rendered(chars: Seq<char>) -> Seq<char> {
    Seq::new(chars.len(), |i: int| safe_char(chars[i]))
}

/// Every value of the sequence is printable.
pub open spec fn all_print(chars: Seq<char>) -> bool {
    forall|i: int| 0 <= i < chars.len() ==> print(#[trigger] chars[i])
}

/// Replaces the values that are not printable with `'.'`.
pub fn munge_chars(chars: &[char]) -> (value: String)
    ensures
        value@ == rendered(chars@),
        value@.len() == chars@.len(),
        forall|i: int| 0 <= i < chars@.len() ==> #[trigger] value@[i] == safe_char(chars@[i]),
        all_print(value@),
{
    let mut value: String = with_room(chars.len());
    let mut i: usize = 0;
    while i < chars.len()
        invariant
            i <= chars.len(),
            value@ == rendered(chars@.take(i as int)),
        decreases chars.len() - i,
    {
        let ch: char = chars[i];
        value.push(if is_print(ch) { ch } else { PLACEHOLDER });
        i += 1;
        assert(rendered(chars@.take(i as int)) =~= rendered(chars@.take(i - 1)).push(
            safe_char(ch),
        ));
    }
    assert(chars@.take(i as int) =~= chars@);
    value
}

/// Rendering keeps the length, and what it gives is printable throughout.
pub proof fn lemma_rendered_shape(chars: Seq<char>)
    ensures
        rendered(chars).len() == chars.len(),
        all_print(rendered(chars)),
        rendered(rendered(chars)) == rendered(chars),
{
    assert(rendered(rendered(chars)) =~= rendered(chars));
}

/// A sequence of printable values renders as itself, and only such a
/// sequence does.
pub proof fn lemma_rendered_printable(chars: Seq<char>)
    ensures
        all_print(chars) <==> rendered(chars) == chars,
{
    if all_print(chars) {
        assert(rendered(chars) =~= chars);
    }
    if rendered(chars) == chars {
        assert forall|i: int| 0 <= i < chars.len() implies print(#[trigger] chars[i]) by {
            assert(rendered(chars)[i] == safe_char(chars[i]));
        }
    }
}

/// Where position `k` alone holds a value that is not printable, the
/// rendered text has the placeholder at `k`, every other position as it
/// was, and the same length.
pub proof fn lemma_rendered_one_control(chars: Seq<char>, k: int)
    requires
        0 <= k < chars.len(),
        !print(chars[k]),
        forall|i: int| 0 <= i < chars.len() && i != k ==> print(#[trigger] chars[i]),
    ensures
        rendered(chars) == chars.update(k, PLACEHOLDER),
        rendered(chars).len() == chars.len(),
        rendered(chars)[k] == PLACEHOLDER,
        forall|i: int| 0 <= i < chars.len() && i != k ==> rendered(chars)[i] == chars[i],
{
    assert(rendered(chars) =~= chars.update(k, PLACEHOLDER));
}

/// A printable text, terminated and then rendered, comes back unchanged but
/// for the end marker's position, which holds the placeholder.
pub proof fn lemma_rendered_round_trip(text: Seq<char>)
    requires
        all_print(text),
    ensures
        rendered(with_eot(text)) == text.push(PLACEHOLDER),
        rendered(with_eot(text)).drop_last() == text,
        !text.contains(EOT),
{
    assert(rendered(with_eot(text)) =~= text.push(PLACEHOLDER));
    assert(text.push(PLACEHOLDER).drop_last() =~= text);
    if text.contains(EOT) {
        let i = choose|i: int| 0 <= i < text.len() && text[i] == EOT;
        assert(print(text[i]));
    }
}

} // verus!
