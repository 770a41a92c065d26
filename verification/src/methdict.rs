//! The decisions of the method-dictionary packing path that are plain
//! computation: whether a compiled method body is small enough to sit
//! inline in a dictionary leaf, and the rebasing of a debug map's bit
//! offsets after the dictionary has stored a body.

use vstd::prelude::*;

verus! {

/// A dictionary cell holds at most 1023 bits; a 32-bit key and the hashmap
/// node overhead of 10 bits must fit beside an inline body.
pub const MAX_INLINE_BITS: usize = 981;

/// Whether a compiled method body of `bits` bits may be stored inline in a
/// dictionary leaf; a larger body is stored as a cell reference instead.
pub fn fits_as_leaf(bits: usize) -> (r: bool)
    ensures
        r == (bits <= MAX_INLINE_BITS),
{
    bits <= MAX_INLINE_BITS
}

/// Rebases debug-map entries: each entry keeps its payload and has
/// `adjustment` added to its bit offset, in order. Offsets that would not
/// fit a machine word are ruled out by the caller: a cell holds far fewer
/// bits than that.
pub fn shift_debug_entries<V>(entries: Vec<(usize, V)>, adjustment: usize) -> (r: Vec<(usize, V)>)
    requires
        forall|k: int|
            0 <= k < entries@.len() ==> (#[trigger] entries@[k]).0 + adjustment <= usize::MAX,
    ensures
        r@.len() == entries@.len(),
        forall|k: int|
            0 <= k < entries@.len() ==> (#[trigger] r@[k]).0 == entries@[k].0 + adjustment
                && r@[k].1 == entries@[k].1,
{
    let ghost orig = entries@;
    let mut rest = entries;
    let mut out: Vec<(usize, V)> = Vec::new();
    let n = rest.len();
    let mut i: usize = 0;
    while i < n
        invariant
            i <= n,
            n == orig.len(),
            rest@ == orig.skip(i as int),
            out@.len() == i,
            forall|k: int|
                0 <= k < orig.len() ==> (#[trigger] orig[k]).0 + adjustment <= usize::MAX,
            forall|k: int|
                0 <= k < i ==> (#[trigger] out@[k]).0 == orig[k].0 + adjustment && out@[k].1
                    == orig[k].1,
        decreases n - i,
    {
        let (off, v) = rest.remove(0);
        proof {
            assert(orig.skip(i as int)[0] == orig[i as int]);
            assert(orig.skip(i as int).skip(1) =~= orig.skip(i as int + 1));
        }
        out.push((off + adjustment, v));
        i = i + 1;
    }
    out
}

} // verus!
