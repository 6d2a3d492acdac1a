//! The most recent samples of a recording, kept for the level display.
use vstd::prelude::*;
use std::collections::VecDeque;

verus! {

/// Samples kept for the display.
pub const WAVEFORM_CAPACITY: usize = 10_000;

/// The last `c` elements of `s` (all of `s` if it is shorter).
pub open spec fn keep_last(s: Seq<i16>, c: nat) -> Seq<i16> {
    if s.len() > c {
        s.subrange(s.len() - c, s.len() as int)
    } else {
        s
    }
}

/// A window over the newest samples, oldest first.
#[derive(Debug)]
pub struct WaveformBuffer {
    samples: VecDeque<i16>,
    capacity: usize,
}

impl View for WaveformBuffer {
    type V = Seq<i16>;

    closed spec fn view(&self) -> Seq<i16> {
        self.samples@
    }
}

impl WaveformBuffer {
    pub closed spec fn cap(&self) -> nat {
        self.capacity as nat
    }

    pub closed spec fn wf(&self) -> bool {
        self.capacity > 0 && self.samples@.len() <= self.capacity
    }

    pub fn new() -> (r: WaveformBuffer)
        ensures
            r.wf(),
            r@.len() == 0,
            r.cap() == WAVEFORM_CAPACITY,
    {
        WaveformBuffer { samples: VecDeque::new(), capacity: WAVEFORM_CAPACITY }
    }

    /// Appends `samples`, dropping the oldest ones beyond the capacity.
    pub fn push_samples(&mut self, samples: &[i16])
        requires
            old(self).wf(),
        ensures
            final(self).wf(),
            final(self).cap() == old(self).cap(),
            final(self)@ == keep_last(old(self)@ + samples@, old(self).cap()),
    {
        let ghost start = self.samples@;
        let mut i: usize = 0;
        while i < samples.len()
            invariant
                i <= samples@.len(),
                self.capacity == old(self).capacity,
                self.capacity > 0,
                start == old(self).samples@,
                self.samples@ == keep_last(start + samples@.subrange(0, i as int), self.capacity as nat),
            decreases samples@.len() - i,
        {
            let ghost before = self.samples@;
            if self.samples.len() >= self.capacity {
                self.samples.pop_front();
            }
            self.samples.push_back(samples[i]);
            proof {
                let prefix = start + samples@.subrange(0, i as int);
                assert(start + samples@.subrange(0, i + 1) == prefix.push(samples@[i as int]));
                lemma_keep_last_push(prefix, samples@[i as int], self.capacity as nat);
                assert(self.samples@ =~= keep_last(before.push(samples@[i as int]), self.capacity as nat));
            }
            i = i + 1;
        }
        assert(samples@.subrange(0, samples@.len() as int) == samples@);
    }

    pub fn clear(&mut self)
        requires
            old(self).wf(),
        ensures
            final(self).wf(),
            final(self)@.len() == 0,
            final(self).cap() == old(self).cap(),
    {
        self.samples.clear();
    }

    pub fn len(&self) -> (r: usize)
        ensures
            r == self@.len(),
    {
        self.samples.len()
    }

    /// The samples, oldest first.
    pub fn samples(&self) -> (r: &VecDeque<i16>)
        ensures
            r@ == self@,
    {
        &self.samples
    }
}

proof fn lemma_keep_last_push(s: Seq<i16>, x: i16, c: nat)
    requires
        c > 0,
    ensures
        keep_last(s.push(x), c) == keep_last(keep_last(s, c).push(x), c),
{
    let t = keep_last(s, c);
    if s.len() > c {
        assert(keep_last(s.push(x), c) =~= keep_last(t.push(x), c));
    } else {
        assert(t == s);
    }
}

} // verus!
