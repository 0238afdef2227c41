//! Laws of a whole transfer run.
//!
//! [`crate::download::DownloadManager::on_chunk`] promises that every
//! counted chunk advances the byte counter by exactly the chunk's length,
//! and that the partial file only ever receives appends. The functions
//! here fold those single steps over a whole chunk sequence and prove
//! what a complete run adds up to: a transfer that delivers exactly the
//! remaining bytes lands the counter on the total, and a resumed transfer
//! never touches a byte that was already on disk.

use vstd::prelude::*;
use crate::progress::percent_of;

verus! {

/// The bytes a chunk sequence carries in all.
pub open spec fn sum_lens(lens: Seq<u64>) -> int
    decreases lens.len(),
{
    if lens.len() == 0 {
        0
    } else {
        sum_lens(lens.drop_last()) + lens.last()
    }
}

/// The byte counter after a run of counted chunks, each step adding one
/// chunk's length as [`crate::download::after_chunk`] does.
pub open spec fn downloaded_after(start: int, lens: Seq<u64>) -> int
    decreases lens.len(),
{
    if lens.len() == 0 {
        start
    } else {
        downloaded_after(start, lens.drop_last()) + lens.last()
    }
}

/// The partial file after a run of appends: every chunk's bytes joined
/// onto what was already on disk.
pub open spec fn file_after(f0: Seq<u8>, chunks: Seq<Seq<u8>>) -> Seq<u8>
    decreases chunks.len(),
{
    if chunks.len() == 0 {
        f0
    } else {
        file_after(f0, chunks.drop_last()) + chunks.last()
    }
}

/// A run of chunk steps adds exactly the chunks' total length.
pub proof fn lemma_downloaded_after_is_sum(start: int, lens: Seq<u64>)
    ensures
        downloaded_after(start, lens) == start + sum_lens(lens),
    decreases lens.len(),
{
    if lens.len() > 0 {
        lemma_downloaded_after_is_sum(start, lens.drop_last());
    }
}

/// Law: a chunk sequence carrying the full file drives the counter to
/// exactly the file's size, and the percentage then reads one hundred.
/// Each step is [`crate::download::DownloadManager::on_chunk`]'s promise
/// for one counted chunk; the closing event of
/// [`crate::download::DownloadManager::finish_attempt`] reports the same
/// one hundred percent.
pub proof fn lemma_transfer_completes(lens: Seq<u64>, n: u64)
    requires
        sum_lens(lens) == n,
    ensures
        downloaded_after(0, lens) == n,
        n > 0 ==> percent_of(n, n) == 100,
{
    lemma_downloaded_after_is_sum(0, lens);
}

/// Law: resuming rewrites nothing. A transfer that starts over a partial
/// file only appends, so every byte that was on disk before the attempt
/// is still there, unchanged, at the same position; the size of the
/// attempt's total is the partial length plus what the remote reports
/// left, as [`crate::download::DownloadManager::begin_attempt`] promises.
pub proof fn lemma_resume_rewrites_nothing(f0: Seq<u8>, chunks: Seq<Seq<u8>>)
    ensures
        file_after(f0, chunks).len() >= f0.len(),
        forall|i: int| 0 <= i < f0.len() ==> #[trigger] file_after(f0, chunks)[i] == f0[i],
    decreases chunks.len(),
{
    if chunks.len() > 0 {
        lemma_resume_rewrites_nothing(f0, chunks.drop_last());
    }
}

/// Law: a resumed attempt that starts at the partial length `k` and
/// receives the `n - k` bytes still missing lands the counter on exactly
/// `n`. Together with the pause step — a set pause flag ends the attempt
/// with the counters untouched, so the partial length never passes the
/// total — this is the resume half of the pause/resume round trip.
pub proof fn lemma_resume_reaches_total(k: u64, n: u64, lens: Seq<u64>)
    requires
        k <= n,
        sum_lens(lens) == n - k,
    ensures
        downloaded_after(k as int, lens) == n,
{
    lemma_downloaded_after_is_sum(k as int, lens);
}

} // verus!
