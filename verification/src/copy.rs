//! Owned copies of borrowed text and slices.

use vstd::prelude::*;

verus! {

/// Returns an owned string with the contents of `s`.
pub fn unslice(s: &str) -> (owned: String)
    ensures
        owned@ == s@,
{
    s.to_owned()
}

/// Returns an owned vector with the contents of `s`, in the same order.
pub fn unslice_vec<T: Copy>(s: &[T]) -> (owned: Vec<T>)
    ensures
        owned@ == s@,
{
    let mut owned: Vec<T> = Vec::with_capacity(s.len());
    let mut i: usize = 0;
    while i < s.len()
        invariant
            i <= s.len(),
            owned@ == s@.take(i as int),
        decreases s.len() - i,
    {
        owned.push(s[i]);
        i += 1;
        assert(s@.take(i as int) =~= s@.take(i - 1).push(s@[i - 1]));
    }
    assert(s@.take(i as int) =~= s@);
    owned
}

} // verus!
