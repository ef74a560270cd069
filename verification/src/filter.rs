//! Standalone in-place array transforms, independent of the processor:
//! compact the non-zero elements of an array to the front, preserving their
//! order, and fill the tail with zeros. Two variants: a simple one that
//! gathers the kept elements into an auxiliary buffer, and a faster
//! two-cursor one that rewrites the array in place.

use vstd::prelude::*;

verus! {

/// The non-zero elements of a sequence, in their original order.
pub open spec fn keep_nonzero(s: Seq<i32>) -> Seq<i32> {
    s.filter(|x: i32| x != 0i32)
}

/// The compacted form of a sequence: its non-zero elements in order,
/// followed by enough zeros to restore the original length.
pub open spec fn compacted(s: Seq<i32>) -> Seq<i32> {
    keep_nonzero(s) + Seq::new((s.len() - keep_nonzero(s).len()) as nat, |i: int| 0i32)
}

/// Keeping elements never lengthens a sequence.
proof fn lemma_keep_nonzero_len(s: Seq<i32>)
    ensures
        keep_nonzero(s).len() <= s.len(),
{
    broadcast use Seq::lemma_filter_len;

}

/// Appending an element appends it to the kept elements exactly when it is
/// non-zero.
proof fn lemma_keep_nonzero_push(s: Seq<i32>, x: i32)
    ensures
        keep_nonzero(s.push(x)) == (if x != 0i32 {
            keep_nonzero(s).push(x)
        } else {
            keep_nonzero(s)
        }),
{
    broadcast use Seq::lemma_filter_push;

}

/// A sequence without zeros is kept whole.
proof fn lemma_keep_nonzero_identity(s: Seq<i32>)
    requires
        forall|i: int| 0 <= i < s.len() ==> s[i] != 0i32,
    ensures
        keep_nonzero(s) == s,
    decreases s.len(),
{
    if s.len() == 0 {
        reveal(Seq::filter);
        assert(keep_nonzero(s) =~= s);
    } else {
        lemma_keep_nonzero_identity(s.drop_last());
        lemma_keep_nonzero_push(s.drop_last(), s.last());
        assert(s.drop_last().push(s.last()) =~= s);
    }
}

/// Compacts the non-zero elements of the array to the front, preserving
/// their order, and zeroes the rest, by gathering the kept elements into an
/// auxiliary buffer and writing the array back.
pub fn simple_filter_array(array: &mut Vec<i32>)
    ensures
        final(array)@.len() == old(array)@.len(),
        final(array)@ == compacted(old(array)@),
{
    let ghost orig = array@;
    let n = array.len();
    let mut kept: Vec<i32> = Vec::new();
    let mut i: usize = 0;
    while i < n
        invariant
            array@ == orig,
            n == orig.len(),
            i <= n,
            kept@ == keep_nonzero(orig.subrange(0, i as int)),
        decreases n - i,
    {
        let v = array[i];
        proof {
            assert(orig.subrange(0, i + 1) =~= orig.subrange(0, i as int).push(orig[i as int]));
            lemma_keep_nonzero_push(orig.subrange(0, i as int), orig[i as int]);
        }
        if v != 0 {
            kept.push(v);
        }
        i += 1;
    }
    proof {
        assert(orig.subrange(0, n as int) =~= orig);
        lemma_keep_nonzero_len(orig);
    }
    let k = kept.len();
    let mut j: usize = 0;
    while j < n
        invariant
            array@.len() == n,
            n == orig.len(),
            kept@ == keep_nonzero(orig),
            k == kept@.len(),
            k <= n,
            j <= n,
            forall|t: int| 0 <= t < j && t < k ==> array@[t] == kept@[t],
            forall|t: int| k <= t < j ==> array@[t] == 0i32,
        decreases n - j,
    {
        if j < k {
            let value = kept[j];
            array.set(j, value);
        } else {
            array.set(j, 0);
        }
        j += 1;
    }
    proof {
        assert(array@ =~= compacted(orig));
    }
}

/// Compacts the non-zero elements of the array to the front, preserving
/// their order, and zeroes the rest, in place: a write cursor trails a read
/// cursor that skips zeros, and once the read cursor runs off the end the
/// remaining tail is zeroed.
pub fn fast_filter_array(array: &mut Vec<i32>)
    ensures
        final(array)@.len() == old(array)@.len(),
        final(array)@ == compacted(old(array)@),
{
    let ghost orig = array@;
    let n = array.len();
    let mut write_index: usize = 0;

    // Fast-forward through the array until the first zero is hit.
    while write_index < n && array[write_index] != 0
        invariant
            array@ == orig,
            n == orig.len(),
            write_index <= n,
            forall|t: int| 0 <= t < write_index ==> orig[t] != 0i32,
        decreases n - write_index,
    {
        write_index += 1;
    }

    let ghost kept = keep_nonzero(orig);
    proof {
        lemma_keep_nonzero_len(orig);
        lemma_keep_nonzero_identity(orig.subrange(0, write_index as int));
        assert(array@.subrange(0, write_index as int) =~= orig.subrange(0, write_index as int));
        if write_index == n {
            assert(orig.subrange(0, n as int) =~= orig);
        }
    }

    let mut read_offset: usize = 0;
    while write_index < n
        invariant
            n == array@.len(),
            n == orig.len(),
            write_index <= n,
            read_offset <= n,
            kept == keep_nonzero(orig),
            kept.len() <= n,
            write_index + read_offset <= n ==> array@.subrange(0, write_index as int)
                == keep_nonzero(orig.subrange(0, write_index + read_offset)),
            write_index + read_offset <= n ==> forall|t: int|
                write_index + read_offset <= t < n ==> array@[t] == orig[t],
            write_index + read_offset >= n ==> kept.len() <= write_index,
            write_index + read_offset >= n ==> array@.subrange(0, kept.len() as int) == kept,
            write_index + read_offset >= n ==> forall|t: int|
                kept.len() <= t < write_index ==> array@[t] == 0i32,
        decreases n - write_index, n - read_offset,
    {
        let ghost consumed = write_index + read_offset;
        if read_offset < n - write_index {
            let element = array[write_index + read_offset];
            proof {
                assert(orig.subrange(0, consumed + 1) =~= orig.subrange(0, consumed).push(
                    orig[consumed],
                ));
                lemma_keep_nonzero_push(orig.subrange(0, consumed), orig[consumed]);
            }
            if element == 0 {
                read_offset += 1;
                proof {
                    if write_index + read_offset >= n {
                        assert(orig.subrange(0, n as int) =~= orig);
                        assert(kept.len() == write_index);
                        assert(array@.subrange(0, kept.len() as int) == kept);
                    }
                }
            } else {
                if read_offset > 0 {
                    array.set(write_index, element);
                }
                write_index += 1;
                proof {
                    assert(array@.subrange(0, write_index as int) =~= keep_nonzero(
                        orig.subrange(0, consumed),
                    ).push(orig[consumed]));
                    if write_index + read_offset >= n {
                        assert(orig.subrange(0, n as int) =~= orig);
                        assert(kept.len() == write_index);
                        assert(array@.subrange(0, kept.len() as int) == kept);
                    }
                }
            }
        } else {
            // The read cursor has run off the end: every element has been
            // consumed, so the written prefix is exactly the kept elements
            // and the tail is zeroed one word per step.
            proof {
                if consumed <= n {
                    assert(orig.subrange(0, n as int) =~= orig);
                    assert(array@.subrange(0, write_index as int) == kept);
                    assert(kept.len() == write_index);
                }
            }
            array.set(write_index, 0);
            write_index += 1;
            proof {
                assert(array@.subrange(0, kept.len() as int) =~= kept);
            }
        }
    }
    proof {
        assert(array@ =~= compacted(orig));
    }
}

} // verus!
