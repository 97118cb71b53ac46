use vstd::prelude::*;

verus! {

/// The number of leading elements that fit in both a destination of length
/// `dl` and a source of length `sl`.
pub open spec fn transfer_len(dl: int, sl: int) -> int {
    if dl <= sl {
        dl
    } else {
        sl
    }
}

/// The destination `before` after a bounded copy from `src`: its first
/// `transfer_len` elements come from `src`, the rest are kept.
pub open spec fn copied<T>(before: Seq<T>, src: Seq<T>) -> Seq<T> {
    let n = transfer_len(before.len() as int, src.len() as int);
    src.subrange(0, n) + before.subrange(n, before.len() as int)
}

/// Copies as many elements as fit from `src` into the front of `dst` and
/// returns how many were copied. The rest of `dst` is left as it was.
pub fn copy<T: Copy>(dst: &mut [T], src: &[T]) -> (n: usize)
    ensures
        n == transfer_len(old(dst)@.len() as int, src@.len() as int),
        final(dst)@ == copied(old(dst)@, src@),
{
    let n: usize = if dst.len() <= src.len() {
        dst.len()
    } else {
        src.len()
    };
    let mut i: usize = 0;
    while i < n
        invariant
            n == transfer_len(old(dst)@.len() as int, src@.len() as int),
            i <= n,
            dst@.len() == old(dst)@.len(),
            forall|k: int| 0 <= k < i ==> dst@[k] == src@[k],
            forall|k: int| i <= k < dst@.len() ==> dst@[k] == old(dst)@[k],
        decreases n - i,
    {
        dst[i] = src[i];
        i = i + 1;
    }
    assert(dst@ =~= copied(old(dst)@, src@));
    n
}

/// `after` is a possible outcome of a bounded clone from `src` into `before`:
/// the lengths are kept, each of the first `transfer_len` elements is a clone
/// of the source element at its index, and the rest of `before` is kept.
pub open spec fn cloned_into<T: Clone>(before: Seq<T>, src: Seq<T>, after: Seq<T>) -> bool {
    let n = transfer_len(before.len() as int, src.len() as int);
    &&& after.len() == before.len()
    &&& forall|i: int| 0 <= i < n ==> cloned(#[trigger] src[i], after[i])
    &&& forall|i: int| n <= i < before.len() ==> #[trigger] after[i] == before[i]
}

/// Clones as many elements as fit from `src` into the front of `dst` and
/// returns how many were cloned. Each overwritten element of `dst` is replaced
/// by a clone of the source element at the same index; the rest of `dst` is
/// left as it was.
pub fn clone<T: Clone>(dst: &mut [T], src: &[T]) -> (n: usize)
    ensures
        n == transfer_len(old(dst)@.len() as int, src@.len() as int),
        cloned_into(old(dst)@, src@, final(dst)@),
{
    let n: usize = if dst.len() <= src.len() {
        dst.len()
    } else {
        src.len()
    };
    let mut i: usize = 0;
    while i < n
        invariant
            n == transfer_len(old(dst)@.len() as int, src@.len() as int),
            i <= n,
            dst@.len() == old(dst)@.len(),
            forall|k: int| 0 <= k < i ==> cloned(#[trigger] src@[k], dst@[k]),
            forall|k: int| i <= k < dst@.len() ==> #[trigger] dst@[k] == old(dst)@[k],
        decreases n - i,
    {
        let v = src[i].clone();
        dst[i] = v;
        i = i + 1;
    }
    n
}

/// Copies as many bytes as fit from `src` into the front of `dst` and returns
/// how many were copied: the byte case of `copy`, with the same outcome.
pub fn byte_copy(dst: &mut [u8], src: &[u8]) -> (n: usize)
    ensures
        n == transfer_len(old(dst)@.len() as int, src@.len() as int),
        final(dst)@ == copied(old(dst)@, src@),
{
    copy(dst, src)
}

} // verus!
