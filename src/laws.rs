use vstd::prelude::*;

use crate::transfer::{cloned_into, copied, transfer_len};

verus! {

/// When the destination is longer than the source, a copy or a clone moves
/// exactly `src.len()` elements and leaves the rest of the destination as it
/// was.
pub proof fn lemma_long_destination<T: Clone>(before: Seq<T>, src: Seq<T>, after: Seq<T>)
    requires
        src.len() < before.len(),
        cloned_into(before, src, after),
    ensures
        transfer_len(before.len() as int, src.len() as int) == src.len(),
        copied(before, src).subrange(0, src.len() as int) == src,
        copied(before, src).subrange(src.len() as int, before.len() as int) == before.subrange(
            src.len() as int,
            before.len() as int,
        ),
        after.subrange(src.len() as int, before.len() as int) == before.subrange(
            src.len() as int,
            before.len() as int,
        ),
{
    let sl = src.len() as int;
    let dl = before.len() as int;
    assert(copied(before, src).subrange(0, sl) =~= src);
    assert(copied(before, src).subrange(sl, dl) =~= before.subrange(sl, dl));
    assert(after.subrange(sl, dl) =~= before.subrange(sl, dl));
}

/// When the source is longer than the destination, a copy or a clone moves
/// exactly `before.len()` elements and reads only that many from the front of
/// the source: the source beyond them has no effect on the outcome.
pub proof fn lemma_long_source<T: Clone>(before: Seq<T>, src: Seq<T>, after: Seq<T>)
    requires
        before.len() < src.len(),
    ensures
        transfer_len(before.len() as int, src.len() as int) == before.len(),
        copied(before, src) == src.subrange(0, before.len() as int),
        copied(before, src) == copied(before, src.subrange(0, before.len() as int)),
        cloned_into(before, src, after) == cloned_into(
            before,
            src.subrange(0, before.len() as int),
            after,
        ),
{
    let dl = before.len() as int;
    let head = src.subrange(0, dl);
    assert(copied(before, src) =~= head);
    assert(copied(before, head) =~= head);
    if cloned_into(before, src, after) {
        assert forall|i: int| 0 <= i < dl implies cloned(#[trigger] head[i], after[i]) by {
            assert(head[i] == src[i]);
        }
    }
    if cloned_into(before, head, after) {
        assert forall|i: int| 0 <= i < dl implies cloned(#[trigger] src[i], after[i]) by {
            assert(head[i] == src[i]);
        }
    }
}

/// When either side is empty, nothing is moved and the destination is left
/// exactly as it was.
pub proof fn lemma_empty_side<T: Clone>(before: Seq<T>, src: Seq<T>, after: Seq<T>)
    requires
        before.len() == 0 || src.len() == 0,
    ensures
        transfer_len(before.len() as int, src.len() as int) == 0,
        copied(before, src) == before,
        cloned_into(before, src, after) ==> after == before,
{
    assert(copied(before, src) =~= before);
    if cloned_into(before, src, after) {
        assert(after =~= before);
    }
}

/// After a copy, the first `transfer_len` elements of the destination equal
/// the first `transfer_len` elements of the source, and the length of the
/// destination is unchanged.
pub proof fn lemma_copied_prefix<T>(before: Seq<T>, src: Seq<T>)
    ensures
        copied(before, src).len() == before.len(),
        copied(before, src).subrange(0, transfer_len(before.len() as int, src.len() as int))
            == src.subrange(0, transfer_len(before.len() as int, src.len() as int)),
{
    let n = transfer_len(before.len() as int, src.len() as int);
    assert(copied(before, src).subrange(0, n) =~= src.subrange(0, n));
}

/// `byte_copy` and `copy` agree on bytes: two calls on the same destination and
/// source, one through each, return the same count and leave the same
/// destination.
pub proof fn lemma_byte_copy_agrees(
    before: Seq<u8>,
    src: Seq<u8>,
    n_byte: usize,
    after_byte: Seq<u8>,
    n_copy: usize,
    after_copy: Seq<u8>,
)
    requires
        n_byte == transfer_len(before.len() as int, src.len() as int),
        after_byte == copied(before, src),
        n_copy == transfer_len(before.len() as int, src.len() as int),
        after_copy == copied(before, src),
    ensures
        n_byte == n_copy,
        after_byte == after_copy,
{
}

} // verus!
