//! Fixed-capacity buffer of audio chunks, and integer-ratio downsampling.
use vstd::prelude::*;
use std::collections::VecDeque;
use std::time::Instant;
use crate::state_machine::instant_now;

verus! {

/// A chunk of mono PCM16 samples with its capture time and sequence number.
#[derive(Debug)]
pub struct AudioChunk {
    pub samples: Vec<i16>,
    pub captured_at: Instant,
    pub sequence: u64,
}

/// Whole milliseconds that `n` samples last at `rate` Hz.
pub open spec fn samples_ms(n: int, rate: int) -> int {
    (n * 1000) / rate
}

impl AudioChunk {
    /// A chunk stamped with the current instant.
    pub fn new(samples: Vec<i16>, sequence: u64) -> (r: AudioChunk)
        ensures
            r.samples@ == samples@,
            r.sequence == sequence,
    {
        AudioChunk { samples, captured_at: instant_now(), sequence }
    }

    pub fn duration_ms(&self, sample_rate: u32) -> (r: u64)
        requires
            sample_rate > 0,
            samples_ms(self.samples@.len() as int, sample_rate as int) <= u64::MAX,
        ensures
            r == samples_ms(self.samples@.len() as int, sample_rate as int),
    {
        let n = self.samples.len() as u128;
        assert(n * 1000 <= u128::MAX) by {
            assert(self.samples@.len() <= usize::MAX);
        }
        ((n * 1000) / (sample_rate as u128)) as u64
    }
}

/// Total duration in milliseconds of `chunks`, each rounded down on its own.
pub open spec fn total_ms(chunks: Seq<AudioChunk>, rate: int) -> int
    decreases chunks.len(),
{
    if chunks.len() == 0 {
        0
    } else {
        total_ms(chunks.drop_last(), rate) + samples_ms(chunks.last().samples@.len() as int, rate)
    }
}

/// Total number of samples held in `chunks`.
pub open spec fn total_samples(chunks: Seq<AudioChunk>) -> int
    decreases chunks.len(),
{
    if chunks.len() == 0 {
        0
    } else {
        total_samples(chunks.drop_last()) + chunks.last().samples@.len()
    }
}

/// What a push leaves in a buffer that held `chunks` and keeps at most `max`.
pub open spec fn after_push(chunks: Seq<AudioChunk>, max: nat, pushed: AudioChunk) -> Seq<AudioChunk> {
    if chunks.len() >= max && chunks.len() > 0 {
        chunks.drop_first().push(pushed)
    } else {
        chunks.push(pushed)
    }
}

/// Number of chunks that hold `duration_ms` of audio in chunks of `chunk_ms`
/// (rounded up); a zero chunk length makes the bound unlimited.
pub open spec fn chunk_capacity(duration_ms: int, chunk_ms: int) -> int {
    if chunk_ms == 0 {
        if duration_ms == 0 { 0 } else { usize::MAX as int }
    } else {
        (duration_ms + chunk_ms - 1) / chunk_ms
    }
}

/// Audio chunks in capture order; the oldest leaves first once the buffer is full.
#[derive(Debug)]
pub struct AudioBuffer {
    chunks: VecDeque<AudioChunk>,
    max_chunks: usize,
    next_sequence: u64,
    sample_rate: u32,
}

impl View for AudioBuffer {
    type V = Seq<AudioChunk>;

    closed spec fn view(&self) -> Seq<AudioChunk> {
        self.chunks@
    }
}

impl AudioBuffer {
    pub closed spec fn max_len(&self) -> nat {
        self.max_chunks as nat
    }

    pub closed spec fn next_seq(&self) -> u64 {
        self.next_sequence
    }

    pub closed spec fn rate(&self) -> u32 {
        self.sample_rate
    }

    /// Never more chunks than the bound (one, if the bound is zero).
    pub closed spec fn wf(&self) -> bool {
        self.chunks@.len() <= self.max_chunks || (self.max_chunks == 0 && self.chunks@.len() <= 1)
    }

    /// A buffer for `max_duration_ms` of audio at `sample_rate` Hz in chunks
    /// of `chunk_duration_ms`.
    pub fn new(max_duration_ms: u32, sample_rate: u32, chunk_duration_ms: u32) -> (r: AudioBuffer)
        ensures
            r.wf(),
            r@.len() == 0,
            r.max_len() == chunk_capacity(max_duration_ms as int, chunk_duration_ms as int),
            r.next_seq() == 0,
            r.rate() == sample_rate,
    {
        let max_chunks: usize = if chunk_duration_ms == 0 {
            if max_duration_ms == 0 { 0 } else { usize::MAX }
        } else {
            let d = max_duration_ms as u64;
            let c = chunk_duration_ms as u64;
            proof {
                lemma_ceil_div_le(d as int, c as int);
            }
            ((d + c - 1) / c) as usize
        };
        AudioBuffer { chunks: VecDeque::new(), max_chunks, next_sequence: 0, sample_rate }
    }

    /// Appends a chunk with the next sequence number, first evicting the
    /// oldest chunk if the buffer is full; returns that sequence number.
    pub fn push(&mut self, samples: Vec<i16>) -> (r: u64)
        requires
            old(self).wf(),
            old(self).next_seq() < u64::MAX,
        ensures
            final(self).wf(),
            r == old(self).next_seq(),
            final(self).next_seq() == old(self).next_seq() + 1,
            final(self).max_len() == old(self).max_len(),
            final(self).rate() == old(self).rate(),
            final(self)@.len() > 0,
            final(self)@ == after_push(old(self)@, old(self).max_len(), final(self)@.last()),
            final(self)@.last().samples@ == samples@,
            final(self)@.last().sequence == r,
    {
        if self.chunks.len() >= self.max_chunks && self.chunks.len() > 0 {
            self.chunks.pop_front();
        }
        let sequence = self.next_sequence;
        self.next_sequence = self.next_sequence + 1;
        self.chunks.push_back(AudioChunk::new(samples, sequence));
        sequence
    }

    /// Removes and returns every chunk, oldest first.
    pub fn drain_all(&mut self) -> (r: Vec<AudioChunk>)
        requires
            old(self).wf(),
        ensures
            final(self).wf(),
            r@ == old(self)@,
            final(self)@.len() == 0,
            final(self).max_len() == old(self).max_len(),
            final(self).next_seq() == old(self).next_seq(),
            final(self).rate() == old(self).rate(),
    {
        let mut out: Vec<AudioChunk> = Vec::new();
        let ghost all = self.chunks@;
        while self.chunks.len() > 0
            invariant
                all == out@ + self.chunks@,
                self.max_chunks == old(self).max_chunks,
                self.next_sequence == old(self).next_sequence,
                self.sample_rate == old(self).sample_rate,
                all == old(self).chunks@,
            decreases self.chunks@.len(),
        {
            let ghost before = self.chunks@;
            match self.chunks.pop_front() {
                Some(c) => {
                    out.push(c);
                    assert(all == out@ + self.chunks@) by {
                        assert(before == seq![before[0]] + before.drop_first());
                    }
                },
                None => {},
            }
        }
        assert(out@ == all);
        out
    }

    /// The chunks, oldest first, left in place.
    pub fn peek_all(&self) -> (r: &VecDeque<AudioChunk>)
        ensures
            r@ == self@,
    {
        &self.chunks
    }

    pub fn len(&self) -> (r: usize)
        ensures
            r == self@.len(),
    {
        self.chunks.len()
    }

    pub fn is_empty(&self) -> (r: bool)
        ensures
            r == (self@.len() == 0),
    {
        self.chunks.len() == 0
    }

    /// Sum of the chunks' durations.
    pub fn duration_ms(&self) -> (r: u64)
        requires
            self.rate() > 0,
            total_ms(self@, self.rate() as int) <= u64::MAX,
        ensures
            r == total_ms(self@, self.rate() as int),
    {
        let mut acc: u64 = 0;
        let mut i: usize = 0;
        let n = self.chunks.len();
        while i < n
            invariant
                n == self@.len(),
                i <= n,
                self.sample_rate > 0,
                total_ms(self@, self.sample_rate as int) <= u64::MAX,
                acc == total_ms(self@.subrange(0, i as int), self.sample_rate as int),
            decreases n - i,
        {
            proof {
                let s = self@;
                assert(s.subrange(0, i + 1).drop_last() == s.subrange(0, i as int));
                lemma_total_ms_prefix_le(s, i + 1, self.sample_rate as int);
                lemma_total_ms_nonneg(s.subrange(0, i as int), self.sample_rate as int);
            }
            let d = self.chunks[i].duration_ms(self.sample_rate);
            acc = acc + d;
            i = i + 1;
        }
        assert(self@.subrange(0, n as int) == self@);
        acc
    }

    /// Bytes held by the samples (two per sample).
    pub fn memory_bytes(&self) -> (r: usize)
        requires
            2 * total_samples(self@) <= usize::MAX,
        ensures
            r == 2 * total_samples(self@),
    {
        let mut acc: usize = 0;
        let mut i: usize = 0;
        let n = self.chunks.len();
        while i < n
            invariant
                n == self@.len(),
                i <= n,
                2 * total_samples(self@) <= usize::MAX,
                acc == 2 * total_samples(self@.subrange(0, i as int)),
            decreases n - i,
        {
            let k = self.chunks[i].samples.len();
            proof {
                let s = self@;
                assert(s.subrange(0, i + 1).drop_last() == s.subrange(0, i as int));
                lemma_total_samples_prefix_le(s, i + 1);
            }
            acc = acc + 2 * k;
            i = i + 1;
        }
        assert(self@.subrange(0, n as int) == self@);
        acc
    }

    pub fn clear(&mut self)
        requires
            old(self).wf(),
        ensures
            final(self).wf(),
            final(self)@.len() == 0,
            final(self).max_len() == old(self).max_len(),
            final(self).next_seq() == old(self).next_seq(),
            final(self).rate() == old(self).rate(),
    {
        self.chunks.clear();
    }

    pub fn next_sequence(&self) -> (r: u64)
        ensures
            r == self.next_seq(),
    {
        self.next_sequence
    }
}

proof fn lemma_total_ms_prefix_le(s: Seq<AudioChunk>, k: int, rate: int)
    requires
        0 <= k <= s.len(),
        rate > 0,
    ensures
        total_ms(s.subrange(0, k), rate) <= total_ms(s, rate),
    decreases s.len() - k,
{
    if k < s.len() {
        lemma_total_ms_prefix_le(s, k + 1, rate);
        assert(s.subrange(0, k + 1).drop_last() == s.subrange(0, k));
        let n = s[k].samples@.len() as int;
        assert(samples_ms(n, rate) >= 0) by (nonlinear_arith)
            requires
                n >= 0,
                rate > 0,
        ;
    } else {
        assert(s.subrange(0, k) == s);
    }
}

proof fn lemma_ceil_div_le(d: int, c: int)
    requires
        c >= 1,
        0 <= d <= u32::MAX,
    ensures
        0 <= (d + c - 1) / c <= u32::MAX,
{
    if d >= 1 {
        assert(d + c - 1 <= d * c) by (nonlinear_arith)
            requires
                c >= 1,
                d >= 1,
        ;
        assert((d + c - 1) / c <= d) by (nonlinear_arith)
            requires
                c >= 1,
                d >= 1,
                d + c - 1 <= d * c,
        ;
    } else {
        assert((c - 1) / c == 0) by (nonlinear_arith)
            requires
                c >= 1,
        ;
    }
}

proof fn lemma_total_ms_nonneg(s: Seq<AudioChunk>, rate: int)
    requires
        rate > 0,
    ensures
        total_ms(s, rate) >= 0,
    decreases s.len(),
{
    if s.len() > 0 {
        lemma_total_ms_nonneg(s.drop_last(), rate);
        let n = s.last().samples@.len() as int;
        assert(samples_ms(n, rate) >= 0) by (nonlinear_arith)
            requires
                n >= 0,
                rate > 0,
        ;
    }
}

proof fn lemma_total_samples_prefix_le(s: Seq<AudioChunk>, k: int)
    requires
        0 <= k <= s.len(),
    ensures
        total_samples(s.subrange(0, k)) <= total_samples(s),
    decreases s.len() - k,
{
    if k < s.len() {
        lemma_total_samples_prefix_le(s, k + 1);
        assert(s.subrange(0, k + 1).drop_last() == s.subrange(0, k));
    } else {
        assert(s.subrange(0, k) == s);
    }
}

/// Pushing never lets the buffer grow past its bound (when the bound is at
/// least one), evicts from the front, and keeps capture order.
pub proof fn lemma_push_evicts_oldest(chunks: Seq<AudioChunk>, max: nat, pushed: AudioChunk)
    requires
        max >= 1,
        chunks.len() <= max,
    ensures
        after_push(chunks, max, pushed).len() <= max,
        after_push(chunks, max, pushed).last() == pushed,
        chunks.len() == max ==> after_push(chunks, max, pushed) == chunks.subrange(1, chunks.len() as int).push(pushed),
        chunks.len() < max ==> after_push(chunks, max, pushed) == chunks.push(pushed),
{
}

/// Sum of the samples.
pub open spec fn seq_sum(s: Seq<i16>) -> int
    decreases s.len(),
{
    if s.len() == 0 {
        0
    } else {
        seq_sum(s.drop_last()) + s.last() as int
    }
}

/// Integer division rounding toward zero.
pub open spec fn trunc_div(a: int, b: int) -> int {
    if a >= 0 {
        a / b
    } else {
        -((-a) / b)
    }
}

/// The mean of a non-empty block of samples, rounded toward zero.
pub open spec fn block_mean(s: Seq<i16>) -> int {
    trunc_div(seq_sum(s), s.len() as int)
}

/// Rates that the resampler handles: both non-zero, different, and the
/// source an exact multiple of the target.
pub open spec fn rate_supported(source_rate: u32, target_rate: u32) -> bool {
    source_rate != 0 && target_rate != 0 && source_rate != target_rate && source_rate
        % target_rate == 0
}

/// The `j`-th block of `ratio` samples (the last one may be shorter).
pub open spec fn block(s: Seq<i16>, ratio: int, j: int) -> Seq<i16> {
    let end = if (j + 1) * ratio <= s.len() { (j + 1) * ratio } else { s.len() as int };
    s.subrange(j * ratio, end)
}

/// Number of blocks of `ratio` samples that `n` samples make (rounded up).
pub open spec fn block_count(n: int, ratio: int) -> int {
    (n + ratio - 1) / ratio
}

/// What downsampling makes of `s`: one averaged sample per block where the
/// rates are supported, `s` itself otherwise.
pub open spec fn downsampled(s: Seq<i16>, source_rate: u32, target_rate: u32) -> Seq<i16> {
    if !rate_supported(source_rate, target_rate) {
        s
    } else {
        let ratio = (source_rate / target_rate) as int;
        Seq::new(
            block_count(s.len() as int, ratio) as nat,
            |j: int| block_mean(block(s, ratio, j)) as i16,
        )
    }
}

proof fn lemma_sum_bounds(s: Seq<i16>)
    ensures
        -32768 * s.len() <= seq_sum(s) <= 32767 * s.len(),
    decreases s.len(),
{
    if s.len() > 0 {
        lemma_sum_bounds(s.drop_last());
    }
}

proof fn lemma_mean_fits(sum: int, k: int)
    requires
        k >= 1,
        -32768 * k <= sum <= 32767 * k,
    ensures
        -32768 <= trunc_div(sum, k) <= 32767,
{
    if sum >= 0 {
        assert(sum / k <= 32767) by (nonlinear_arith)
            requires
                k >= 1,
                0 <= sum <= 32767 * k,
        ;
        assert(sum / k >= 0) by (nonlinear_arith)
            requires
                k >= 1,
                0 <= sum,
        ;
    } else {
        assert((-sum) / k <= 32768) by (nonlinear_arith)
            requires
                k >= 1,
                0 <= -sum <= 32768 * k,
        ;
        assert((-sum) / k >= 0) by (nonlinear_arith)
            requires
                k >= 1,
                0 <= -sum,
        ;
    }
}

pub(crate) proof fn lemma_ratio_positive(s: int, t: int)
    requires
        s > 0,
        t > 0,
        s % t == 0,
    ensures
        s / t >= 1,
        s / t <= s,
{
    vstd::arithmetic::div_mod::lemma_fundamental_div_mod(s, t);
    assert(s / t >= 0) by (nonlinear_arith)
        requires
            s > 0,
            t > 0,
    ;
    if s / t == 0 {
        assert(false);
    }
    assert(s / t <= s) by (nonlinear_arith)
        requires
            s > 0,
            t > 0,
            s / t >= 1,
            s == t * (s / t),
    ;
}

/// Averages each block of `source_rate / target_rate` samples into one.
/// Unsupported rates (zero, equal, or not an integer ratio) give the input
/// back unchanged.
pub fn downsample(samples: &[i16], source_rate: u32, target_rate: u32) -> (r: Vec<i16>)
    ensures
        r@ == downsampled(samples@, source_rate, target_rate),
        source_rate == target_rate || source_rate == 0 || target_rate == 0 || source_rate
            % target_rate != 0 ==> r@ == samples@,
{
    if target_rate == 0 || source_rate == 0 || source_rate == target_rate
        || source_rate % target_rate != 0 {
        return vstd::slice::slice_to_vec(samples);
    }
    let ratio = (source_rate / target_rate) as usize;
    let n = samples.len();
    let ghost s = samples@;
    let ghost k = ratio as int;
    proof {
        lemma_ratio_positive(source_rate as int, target_rate as int);
        assert(block_count(n as int, k) >= 0) by (nonlinear_arith)
            requires
                k >= 1,
                n >= 0,
        ;
        assert(0 * k == 0);
        assert(block_count(0, k) == 0) by (nonlinear_arith)
            requires
                k >= 1,
        ;
    }
    let mut out: Vec<i16> = Vec::new();
    let mut start: usize = 0;
    while start < n
        invariant
            s == samples@,
            n == s.len(),
            k == ratio as int,
            k >= 1,
            k <= u32::MAX,
            start == out@.len() * k || (start == n && out@.len() == block_count(n as int, k)),
            start <= n,
            start < n ==> start == out@.len() * k,
            out@.len() <= block_count(n as int, k),
            start == n ==> out@.len() == block_count(n as int, k),
            forall|j: int| 0 <= j < out@.len() ==> out@[j] == block_mean(block(s, k, j)) as i16,
        decreases n - start,
    {
        let end: usize = if n - start <= ratio { n } else { start + ratio };
        let mut sum: i64 = 0;
        let mut i: usize = start;
        while i < end
            invariant
                start <= i <= end,
                end <= n,
                n == s.len(),
                s == samples@,
                end - start <= k,
                k <= u32::MAX,
                sum == seq_sum(s.subrange(start as int, i as int)),
            decreases end - i,
        {
            proof {
                assert(s.subrange(start as int, i + 1).drop_last() == s.subrange(start as int, i as int));
                lemma_sum_bounds(s.subrange(start as int, i as int));
                assert(32768 * (i - start) <= 32768 * k) by (nonlinear_arith)
                    requires
                        i - start <= k,
                ;
            }
            sum = sum + samples[i] as i64;
            i = i + 1;
        }
        let cnt = (end - start) as i64;
        let ghost blk = s.subrange(start as int, end as int);
        proof {
            lemma_sum_bounds(blk);
            lemma_mean_fits(sum as int, cnt as int);
            let j = out@.len() as int;
            assert(start == j * k);
            if n - start <= ratio {
                assert((j + 1) * k >= n) by (nonlinear_arith)
                    requires
                        start == j * k,
                        n - start <= k,
                ;
                if (j + 1) * k > n {
                } else {
                }
            } else {
                assert((j + 1) * k == start + k) by (nonlinear_arith)
                    requires
                        start == j * k,
                ;
            }
            assert(block(s, k, j) == blk);
        }
        let mean: i64 = if sum >= 0 { sum / cnt } else { -((-sum) / cnt) };
        out.push(mean as i16);
        proof {
            let j = out@.len() - 1;
            if end == n {
                assert(out@.len() == block_count(n as int, k)) by (nonlinear_arith)
                    requires
                        start == j * k,
                        n - start <= k,
                        start < n,
                        k >= 1,
                        out@.len() == j + 1,
                ;
            } else {
                assert(end == out@.len() * k) by (nonlinear_arith)
                    requires
                        start == j * k,
                        end == start + k,
                        out@.len() == j + 1,
                ;
                assert(out@.len() <= block_count(n as int, k)) by (nonlinear_arith)
                    requires
                        end == out@.len() * k,
                        end < n,
                        k >= 1,
                ;
            }
        }
        start = end;
    }
    proof {
        if n == 0 {
            assert(block_count(0, k) == 0) by (nonlinear_arith)
                requires
                    k >= 1,
            ;
        }
    }
    assert(out@ =~= downsampled(samples@, source_rate, target_rate));
    out
}

} // verus!
