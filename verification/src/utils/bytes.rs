//! Byte runs: the one copy primitive that the buffers share.

use vstd::prelude::*;

verus! {

/// Copies `len` bytes of `src`, from position `src_at` on, over the bytes of
/// `dst` from position `dst_at` on, as one contiguous run.
pub(crate) fn copy_run(dst: &mut [u8], dst_at: usize, src: &[u8], src_at: usize, len: usize)
    requires
        dst_at + len <= old(dst)@.len(),
        src_at + len <= src@.len(),
    ensures
        final(dst)@.len() == old(dst)@.len(),
        forall|i: int|
            dst_at <= i < dst_at + len ==> #[trigger] final(dst)@[i] == src@[i - dst_at + src_at],
        forall|i: int|
            0 <= i < old(dst)@.len() && !(dst_at <= i < dst_at + len) ==> #[trigger] final(dst)@[i]
                == old(dst)@[i],
{
    let dst_len = dst.len();
    let src_len = src.len();
    let mut k: usize = 0;
    while k < len
        invariant
            k <= len,
            dst_at + len <= dst@.len() == dst_len,
            src_at + len <= src@.len() == src_len,
            dst@.len() == old(dst)@.len(),
            forall|i: int|
                dst_at <= i < dst_at + k ==> #[trigger] dst@[i] == src@[i - dst_at + src_at],
            forall|i: int|
                0 <= i < dst@.len() && !(dst_at <= i < dst_at + k) ==> #[trigger] dst@[i]
                    == old(dst)@[i],
        decreases len - k,
    {
        dst[dst_at + k] = src[src_at + k];
        k += 1;
    }
}

} // verus!
