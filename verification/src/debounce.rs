//! What holds of the debounce filter over whole runs of samples.
//!
//! A run is a sequence of contact samples, oldest first, fed to a button one
//! per tick. A button's history is the sequence of its most recent samples,
//! newest first, one more than its window. The functions here are proofs:
//! they state on which ticks a press is reported.

use vstd::prelude::*;
use crate::button::{pushed, edge};

verus! {

/// The history after the run `samples`.
pub open spec fn after(recent: Seq<bool>, samples: Seq<bool>) -> Seq<bool>
    decreases samples.len(),
{
    if samples.len() == 0 {
        recent
    } else {
        pushed(after(recent, samples.drop_last()), samples.last())
    }
}

/// Whether tick `k` of the run reports a press.
pub open spec fn pressed_at(recent: Seq<bool>, samples: Seq<bool>, k: int) -> bool {
    edge(after(recent, samples.take(k + 1)))
}

/// The history of a new button with the given window: every sample high.
pub open spec fn fresh(window: nat) -> Seq<bool> {
    Seq::new(window + 1, |j: int| true)
}

/// The samples of the ticks from `from` up to and including `to` are all
/// high.
pub open spec fn high_between(samples: Seq<bool>, from: int, to: int) -> bool {
    forall|i: int| from <= i <= to ==> #[trigger] samples[i]
}

/// A run keeps the history's length, and the history holds the run's
/// samples in reverse: entry `j` is the sample taken `j` ticks before the
/// last one, or an entry of the earlier history where the run is shorter.
pub proof fn lemma_after_entry(recent: Seq<bool>, samples: Seq<bool>, j: int)
    requires
        0 <= j < recent.len(),
    ensures
        after(recent, samples).len() == recent.len(),
        after(recent, samples)[j] == if j < samples.len() {
            samples[samples.len() - 1 - j]
        } else {
            recent[j - samples.len()]
        },
    decreases samples.len(),
{
    if samples.len() > 0 {
        let earlier = samples.drop_last();
        lemma_after_entry(recent, earlier, 0);
        if j > 0 {
            lemma_after_entry(recent, earlier, j - 1);
        }
    }
}

/// When a press is reported. Once a run has filled the history, tick `k`
/// reports a press exactly when the last `window` samples are all high and
/// the sample before them was low.
pub proof fn lemma_press_exact(recent: Seq<bool>, samples: Seq<bool>, k: int)
    requires
        recent.len() >= 2,
        recent.len() - 1 <= k < samples.len(),
    ensures
        pressed_at(recent, samples, k) == (!samples[k - (recent.len() - 1)] && high_between(
            samples,
            k - (recent.len() - 1) + 1,
            k,
        )),
{
    let n = recent.len() - 1;
    let run = samples.take(k + 1);
    let h = after(recent, run);
    lemma_after_entry(recent, run, n);
    assert(h.last() == samples[k - n]);
    assert forall|j: int| 0 <= j < n implies #[trigger] h[j] == samples[k - j] by {
        lemma_after_entry(recent, run, j);
    }
    if edge(h) {
        assert forall|i: int| k - n + 1 <= i <= k implies #[trigger] samples[i] by {
            assert(h[k - i]);
        }
    }
    if !samples[k - n] && high_between(samples, k - n + 1, k) {
        assert forall|j: int| 0 <= j < h.len() - 1 implies #[trigger] h[j] by {
            assert(samples[k - j]);
        }
    }
}

/// No press before the window is full. During its first `window` ticks a
/// new button reports nothing, whatever it samples.
pub proof fn lemma_quiet_start(window: nat, samples: Seq<bool>, k: int)
    requires
        window >= 1,
        0 <= k < samples.len(),
        k < window,
    ensures
        !pressed_at(fresh(window), samples, k),
{
    let run = samples.take(k + 1);
    lemma_after_entry(fresh(window), run, window as int);
}

/// Fewer high samples than the window are no press. A tick that reports a
/// press has at least `window` ticks before it; the last `window` samples
/// are all high and the one before them is low.
pub proof fn lemma_press_needs_window(window: nat, samples: Seq<bool>, k: int)
    requires
        window >= 1,
        0 <= k < samples.len(),
        pressed_at(fresh(window), samples, k),
    ensures
        k >= window,
        !samples[k - window],
        high_between(samples, k - window + 1, k),
{
    if k < window {
        lemma_quiet_start(window, samples, k);
    } else {
        lemma_press_exact(fresh(window), samples, k);
    }
}

/// One edge per press. After a tick that reports a press, no later tick
/// reports one for as long as the samples stay high.
pub proof fn lemma_no_repeat(recent: Seq<bool>, samples: Seq<bool>, k: int, later: int)
    requires
        recent.len() >= 2,
        recent.len() - 1 <= k < later < samples.len(),
        pressed_at(recent, samples, k),
        high_between(samples, k + 1, later),
    ensures
        !pressed_at(recent, samples, later),
{
    let n = recent.len() - 1;
    lemma_press_exact(recent, samples, k);
    lemma_press_exact(recent, samples, later);
    assert(samples[later - n]);
}

/// A clean press gives one edge. In a run that ends with a low sample
/// followed by high samples only, the one tick that reports a press after
/// the low sample is the tick of the `window`-th high sample.
pub proof fn lemma_clean_press(recent: Seq<bool>, samples: Seq<bool>, low: int, k: int)
    requires
        recent.len() >= 2,
        0 <= low < k < samples.len(),
        !samples[low],
        high_between(samples, low + 1, samples.len() - 1),
    ensures
        pressed_at(recent, samples, k) == (k == low + (recent.len() - 1)),
{
    let n = recent.len() - 1;
    let run = samples.take(k + 1);
    let h = after(recent, run);
    lemma_after_entry(recent, run, n);
    if k >= n {
        lemma_press_exact(recent, samples, k);
        if k - n > low {
            assert(samples[k - n]);
        } else if k - n < low {
            assert(!samples[low]);
        } else {
            assert forall|i: int| k - n + 1 <= i <= k implies #[trigger] samples[i] by {}
        }
    } else {
        lemma_after_entry(recent, run, k - low);
        assert(h[k - low] == samples[low]);
    }
}

/// A bounce resets the count. A low sample within the last `window` ticks
/// rules a press out.
pub proof fn lemma_bounce_resets(recent: Seq<bool>, samples: Seq<bool>, low: int, k: int)
    requires
        recent.len() >= 2,
        0 <= low <= k < samples.len(),
        k - low < recent.len() - 1,
        !samples[low],
    ensures
        !pressed_at(recent, samples, k),
{
    let run = samples.take(k + 1);
    lemma_after_entry(recent, run, k - low);
}

} // verus!
