//! Searching byte strings.

use vstd::prelude::*;

verus! {

/// True when `i` is the position of the first `needle` in `s`.
pub open spec fn is_first_index_of<T>(s: Seq<T>, needle: T, i: int) -> bool {
    &&& 0 <= i < s.len()
    &&& s[i] == needle
    &&& forall|j: int| 0 <= j < i ==> s[j] != needle
}

/// Tells whether `bytes` begins with `prefix`.
pub fn starts_with(bytes: &[u8], prefix: &[u8]) -> (yes: bool)
    ensures
        yes == prefix@.is_prefix_of(bytes@),
{
    if prefix.len() > bytes.len() {
        return false;
    }
    let mut i: usize = 0;
    while i < prefix.len()
        invariant
            i <= prefix.len() <= bytes.len(),
            forall|j: int| 0 <= j < i ==> prefix@[j] == bytes@[j],
        decreases prefix.len() - i,
    {
        if prefix[i] != bytes[i] {
            assert(prefix@[i as int] != bytes@.subrange(0, prefix@.len() as int)[i as int]);
            return false;
        }
        i += 1;
    }
    assert(prefix@ =~= bytes@.subrange(0, prefix@.len() as int));
    true
}

/// Finds the first occurrence of `needle` in `bytes`.
pub fn find_byte(bytes: &[u8], needle: u8) -> (found: Option<usize>)
    ensures
        match found {
            Some(i) => is_first_index_of(bytes@, needle, i as int),
            None => !bytes@.contains(needle),
        },
{
    let mut i: usize = 0;
    while i < bytes.len()
        invariant
            i <= bytes.len(),
            forall|j: int| 0 <= j < i ==> bytes@[j] != needle,
        decreases bytes.len() - i,
    {
        if bytes[i] == needle {
            return Some(i);
        }
        i += 1;
    }
    None
}

} // verus!
