//! The window of recent samples that the waveform display shows.
use vstd::prelude::*;
use std::collections::VecDeque;

verus! {

/// What a window of `capacity` samples holds after `sample` has come in:
/// the sample is appended and, if the window is then over capacity, the
/// oldest sample is dropped.
pub open spec fn slide<T>(window: Seq<T>, capacity: nat, sample: T) -> Seq<T> {
    if window.len() + 1 > capacity {
        window.push(sample).drop_first()
    } else {
        window.push(sample)
    }
}

/// What the window holds after the samples of `batch` have come in, one
/// after the other.
pub open spec fn slide_all<T>(window: Seq<T>, capacity: nat, batch: Seq<T>) -> Seq<T>
    decreases batch.len(),
{
    if batch.len() == 0 {
        window
    } else {
        slide(slide_all(window, capacity, batch.drop_last()), capacity, batch.last())
    }
}

/// The last `n` items of `s`.
pub open spec fn last_n<T>(s: Seq<T>, n: nat) -> Seq<T>
    recommends
        n <= s.len(),
{
    s.subrange(s.len() - n, s.len() as int)
}

/// The most recent samples of a signal, oldest first, always exactly `N`
/// of them: it starts filled with silence and every new sample pushes the
/// oldest out.
pub struct SampleHistory<T, const N: usize> {
    samples: VecDeque<T>,
}

impl<T, const N: usize> View for SampleHistory<T, N> {
    type V = Seq<T>;

    closed spec fn view(&self) -> Seq<T> {
        self.samples@
    }
}

impl<T, const N: usize> SampleHistory<T, N> {
    #[verifier::type_invariant]
    spec fn is_full(self) -> bool {
        self.samples@.len() == N
    }
}

impl<T: Copy, const N: usize> SampleHistory<T, N> {
    /// A history of `N` samples, all `silence`.
    pub fn new(silence: T) -> (h: SampleHistory<T, N>)
        ensures
            h@ == Seq::new(N as nat, |_i: int| silence),
    {
        let mut samples: VecDeque<T> = VecDeque::new();
        let mut n: usize = 0;
        while n < N
            invariant
                n <= N,
                samples@ == Seq::new(n as nat, |_i: int| silence),
            decreases N - n,
        {
            samples.push_back(silence);
            n = n + 1;
        }
        SampleHistory { samples }
    }

    /// The samples, oldest first; there are always `N` of them.
    pub fn samples(&self) -> (s: &VecDeque<T>)
        ensures
            s@ == self@,
            s@.len() == N,
    {
        proof {
            use_type_invariant(self);
        }
        &self.samples
    }

    /// Records the samples of `batch` in order. The history then holds the
    /// last `N` samples of what it held followed by the batch.
    pub fn push_all(&mut self, batch: &Vec<T>)
        ensures
            old(self)@.len() == N,
            final(self)@ == last_n(old(self)@ + batch@, N as nat),
    {
        proof {
            use_type_invariant(&*self);
        }
        let ghost whole = self@ + batch@;
        let mut samples: VecDeque<T> = VecDeque::new();
        let b: usize = batch.len();
        if b < N {
            let mut i: usize = b;
            while i < N
                invariant
                    b <= i <= N,
                    self@.len() == N,
                    whole == self@ + batch@,
                    samples@ == whole.subrange(b as int, i as int),
                decreases N - i,
            {
                samples.push_back(self.samples[i]);
                i = i + 1;
            }
            let mut j: usize = 0;
            while j < b
                invariant
                    j <= b,
                    b == batch@.len(),
                    b < N,
                    self@.len() == N,
                    whole == self@ + batch@,
                    samples@ == whole.subrange(b as int, N + j),
                decreases b - j,
            {
                samples.push_back(batch[j]);
                j = j + 1;
            }
        } else {
            let mut j: usize = b - N;
            while j < b
                invariant
                    b - N <= j <= b,
                    b == batch@.len(),
                    b >= N,
                    self@.len() == N,
                    whole == self@ + batch@,
                    samples@ == whole.subrange(b as int, N + j),
                decreases b - j,
            {
                samples.push_back(batch[j]);
                j = j + 1;
            }
        }
        assert(samples@ =~= last_n(whole, N as nat));
        *self = SampleHistory { samples };
    }
}

/// Taking in a batch at once leaves a full window holding what taking in
/// its samples one at a time would: the last `capacity` samples of the
/// window followed by the batch.
pub proof fn lemma_slide_all_is_last_n<T>(window: Seq<T>, capacity: nat, batch: Seq<T>)
    requires
        window.len() == capacity,
    ensures
        slide_all(window, capacity, batch) == last_n(window + batch, capacity),
    decreases batch.len(),
{
    if batch.len() == 0 {
        assert(window + batch =~= window);
        assert(last_n(window + batch, capacity) =~= window);
    } else {
        let init = batch.drop_last();
        lemma_slide_all_is_last_n(window, capacity, init);
        let w = last_n(window + init, capacity);
        assert(window + init + seq![batch.last()] =~= window + batch);
        assert(slide(w, capacity, batch.last()) =~= last_n(window + batch, capacity));
    }
}

/// The last `n` items of a sequence are `n` items, in the same order as at
/// its end.
pub proof fn lemma_last_n_items<T>(s: Seq<T>, n: nat)
    requires
        n <= s.len(),
    ensures
        last_n(s, n).len() == n,
        forall|i: int| 0 <= i < n ==> #[trigger] last_n(s, n)[i] == s[s.len() - n + i],
{
}

/// A full window that takes in a sample stays as long, ends with the new
/// sample, and holds before it all but the oldest of what it held.
pub proof fn lemma_slide_items<T>(window: Seq<T>, sample: T)
    requires
        window.len() > 0,
    ensures
        slide(window, window.len(), sample).len() == window.len(),
        slide(window, window.len(), sample)[window.len() - 1] == sample,
        forall|i: int|
            0 <= i < window.len() - 1 ==> #[trigger] slide(window, window.len(), sample)[i]
                == window[i + 1],
{
}

} // verus!
