//! The cumulative-offset model shared by vectored and streaming scans.
//!
//! In vectored mode the engine reports match offsets as if the supplied
//! buffers had been concatenated into one logical stream; in streaming
//! mode, as if every chunk scanned since the stream was opened had been.
//! Both views are the same mathematical statement: byte `j` of buffer `i`
//! lies at offset `prefix_len(bufs, i) + j` of the flattened sequence.
//! The lemmas here pin that correspondence down.

use vstd::prelude::*;

verus! {

/// Total byte count of the first `k` buffers: the cumulative offset at
/// which buffer `k` begins in the logical stream.
pub open spec fn prefix_len(bufs: Seq<Seq<u8>>, k: int) -> int
    decreases k,
{
    if k <= 0 {
        0
    } else {
        prefix_len(bufs, k - 1) + bufs[k - 1].len()
    }
}

/// Cumulative offsets are never negative.
pub proof fn lemma_prefix_len_nonneg(bufs: Seq<Seq<u8>>, k: int)
    ensures
        prefix_len(bufs, k) >= 0,
    decreases k,
{
    if k > 0 {
        lemma_prefix_len_nonneg(bufs, k - 1);
    }
}

/// Dropping the first buffer shifts every cumulative offset down by that
/// buffer's length.
proof fn lemma_prefix_len_drop_first(bufs: Seq<Seq<u8>>, k: int)
    requires
        bufs.len() > 0,
        1 <= k <= bufs.len(),
    ensures
        prefix_len(bufs, k) == bufs[0].len() + prefix_len(bufs.drop_first(), k - 1),
    decreases k,
{
    if k == 1 {
        assert(prefix_len(bufs, 1) == prefix_len(bufs, 0) + bufs[0].len());
        assert(prefix_len(bufs.drop_first(), 0) == 0);
    } else {
        lemma_prefix_len_drop_first(bufs, k - 1);
        assert(bufs.drop_first()[k - 2] == bufs[k - 1]);
        assert(prefix_len(bufs, k) == prefix_len(bufs, k - 1) + bufs[k - 1].len());
        assert(prefix_len(bufs.drop_first(), k - 1) == prefix_len(bufs.drop_first(), k - 2)
            + bufs.drop_first()[k - 2].len());
    }
}

/// The logical stream is exactly as long as all buffers together.
pub proof fn lemma_prefix_len_total(bufs: Seq<Seq<u8>>)
    ensures
        prefix_len(bufs, bufs.len() as int) == bufs.flatten().len(),
    decreases bufs.len(),
{
    if bufs.len() == 0 {
    } else {
        lemma_prefix_len_total(bufs.drop_first());
        lemma_prefix_len_drop_first(bufs, bufs.len() as int);
        assert(bufs.flatten() == bufs.first() + bufs.drop_first().flatten());
    }
}

/// Offsets are cumulative across buffer boundaries: byte `j` of buffer `i`
/// is byte `prefix_len(bufs, i) + j` of the buffers' concatenation, and
/// that offset lies within the logical stream.
pub proof fn lemma_cumulative_offset(bufs: Seq<Seq<u8>>, i: int, j: int)
    requires
        0 <= i < bufs.len(),
        0 <= j < bufs[i].len(),
    ensures
        0 <= prefix_len(bufs, i) + j < bufs.flatten().len(),
        bufs.flatten()[prefix_len(bufs, i) + j] == bufs[i][j],
    decreases i,
{
    assert(bufs.flatten() == bufs.first() + bufs.drop_first().flatten());
    if i == 0 {
        lemma_prefix_len_total(bufs.drop_first());
        lemma_prefix_len_nonneg(bufs.drop_first(), bufs.drop_first().len() as int);
    } else {
        lemma_cumulative_offset(bufs.drop_first(), i - 1, j);
        lemma_prefix_len_drop_first(bufs, i);
        assert(bufs.drop_first()[i - 1] == bufs[i]);
        lemma_prefix_len_total(bufs.drop_first());
    }
}

/// An empty buffer sequence concatenates to the empty stream: a vectored
/// scan over no buffers scans zero bytes.
pub proof fn lemma_empty_sequence_scans_nothing(bufs: Seq<Seq<u8>>)
    requires
        bufs.len() == 0,
    ensures
        bufs.flatten().len() == 0,
{
}

} // verus!
