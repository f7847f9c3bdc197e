//! Static storage initialization. The raw byte memory the real system fills
//! through pointers is modelled as a vector of bytes; the initializer's
//! contract pins down every byte it writes and every byte it leaves alone.

use vstd::prelude::*;

verus! {

/// Writes `value` to every byte of `buf` at positions `[start, start + len)`
/// and touches no byte outside that range.
pub fn memset(buf: &mut Vec<u8>, start: usize, value: u8, len: usize)
    requires
        start + len <= old(buf)@.len(),
    ensures
        final(buf)@.len() == old(buf)@.len(),
        forall|i: int|
            start <= i < start + len ==> final(buf)@[i] == value,
        forall|i: int|
            0 <= i < old(buf)@.len() && !(start <= i < start + len) ==> final(buf)@[i] == old(
                buf,
            )@[i],
{
    let total: usize = buf.len();
    let mut i: usize = 0;
    while i < len
        invariant
            total == buf@.len(),
            start + len <= total,
            buf@.len() == old(buf)@.len(),
            i <= len,
            forall|j: int| start <= j < start + i ==> buf@[j] == value,
            forall|j: int|
                0 <= j < buf@.len() && !(start <= j < start + i) ==> buf@[j] == old(buf)@[j],
        decreases len - i,
    {
        buf.set(start + i, value);
        i = i + 1;
    }
}

/// The static storage initializer: zeroes every byte of the region
/// `[start, end)` and leaves every byte outside it unchanged. Must run
/// before any code reads a zero-initialized global.
pub fn zero_bss(mem: &mut Vec<u8>, start: usize, end: usize)
    requires
        start <= end <= old(mem)@.len(),
    ensures
        final(mem)@.len() == old(mem)@.len(),
        forall|i: int| start <= i < end ==> final(mem)@[i] == 0,
        forall|i: int|
            0 <= i < old(mem)@.len() && !(start <= i < end) ==> final(mem)@[i] == old(mem)@[i],
{
    memset(mem, start, 0, end - start);
}

} // verus!
