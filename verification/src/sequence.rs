//! The terminated character sequence that a scanner walks.
//!
//! A sequence holds one entry per scalar value of the text, followed by a
//! single end marker, so that a scanner can detect the end of input without
//! comparing against a length at every step.

use vstd::prelude::*;

verus! {

/// The end marker: the control value "end of text".
pub const EOT: char = '\u{3}';

/// The scalar values of a text followed by the end marker.
pub open spec fn with_eot(text: Seq<char>) -> Seq<char> {
    text.push(EOT)
}

/// A sequence is terminated when it is not empty, ends in the end marker
/// and holds the end marker nowhere else.
pub open spec fn terminated(chars: Seq<char>) -> bool {
    &&& chars.len() > 0
    &&& chars.last() == EOT
    &&& forall|i: int| 0 <= i < chars.len() - 1 ==> chars[i] != EOT
}

/// Converts a string to a vector of its scalar values and appends the end
/// marker.
///
/// The text is taken as it is: where it already holds the end marker, the
/// marker stays where it stood and the result is not `terminated`.
pub fn chars_with_eot(s: &str) -> (chars: Vec<char>)
    ensures
        chars@ == with_eot(s@),
        chars@.len() == s@.len() + 1,
        chars@.last() == EOT,
        forall|i: int| 0 <= i < s@.len() ==> chars@[i] == s@[i],
        terminated(chars@) <==> !s@.contains(EOT),
{
    let mut chars: Vec<char> = Vec::with_capacity(s.len().saturating_add(1));
    for ch in it: s.chars()
        invariant
            it.seq() == s@,
            chars@ == s@.take(it.index()),
    {
        chars.push(ch);
        assert(s@.take(it.index() + 1) =~= s@.take(it.index()).push(ch));
    }
    assert(s@.take(s@.len() as int) =~= s@);
    chars.push(EOT);
    proof {
        lemma_terminated_iff_absent(s@);
    }
    chars
}

/// A text followed by the end marker is terminated exactly when the text
/// itself holds no end marker; its length is the text's length plus one.
pub proof fn lemma_terminated_iff_absent(text: Seq<char>)
    ensures
        with_eot(text).len() == text.len() + 1,
        with_eot(text).last() == EOT,
        terminated(with_eot(text)) <==> !text.contains(EOT),
{
    let out = with_eot(text);
    if text.contains(EOT) {
        let i = choose|i: int| 0 <= i < text.len() && text[i] == EOT;
        assert(out[i] == EOT);
    } else {
        assert forall|i: int| 0 <= i < out.len() - 1 implies out[i] != EOT by {
            assert(out[i] == text[i]);
        }
    }
}

} // verus!
