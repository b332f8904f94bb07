//! Fixed-length histories of samples.
//!
//! A history is a window over the stream of samples: recording a sample
//! appends it and drops the oldest entry, so the length never changes.

use vstd::prelude::*;

verus! {

/// The history after one more sample: the sample joins at the end and the
/// oldest entry leaves. A history without room stays empty.
pub open spec fn shifted(history: Seq<u64>, sample: u64) -> Seq<u64> {
    history.push(sample).drop_first()
}

/// The history after a run of samples, recorded oldest first.
pub open spec fn replayed(history: Seq<u64>, samples: Seq<u64>) -> Seq<u64>
    decreases samples.len(),
{
    if samples.len() == 0 {
        history
    } else {
        shifted(replayed(history, samples.drop_last()), samples.last())
    }
}

/// Records one sample in a history of fixed length.
pub fn record(history: &mut Vec<u64>, sample: u64)
    ensures
        final(history)@ == shifted(old(history)@, sample),
        final(history)@.len() == old(history)@.len(),
{
    history.push(sample);
    history.remove(0);
}

/// A history of `len` zeros, as it stands before the first sample.
pub fn blank(len: usize) -> (history: Vec<u64>)
    ensures
        history@ == Seq::new(len as nat, |i: int| 0u64),
{
    vec![0u64; len]
}

/// A history is the window of its own length over everything it has seen:
/// after any run of samples it holds the last entries of the old history
/// followed by the samples.
pub proof fn lemma_replayed_is_window(history: Seq<u64>, samples: Seq<u64>)
    ensures
        replayed(history, samples) == (history + samples).skip(samples.len() as int),
    decreases samples.len(),
{
    if samples.len() > 0 {
        lemma_replayed_is_window(history, samples.drop_last());
    }
}

/// However many samples are recorded, a history keeps its length, and one
/// with room for at least one entry ends with the sample recorded last.
pub proof fn lemma_history_keeps_length_and_latest(history: Seq<u64>, samples: Seq<u64>)
    ensures
        replayed(history, samples).len() == history.len(),
        history.len() > 0 && samples.len() > 0 ==> replayed(history, samples).last()
            == samples.last(),
{
    lemma_replayed_is_window(history, samples);
}

} // verus!
