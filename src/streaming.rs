//! The streaming pipeline's decisions: chunking resampled audio, and when to
//! retry the initial connection. The connection itself lives at the edge.
use vstd::prelude::*;
use vstd::string::StringExecFns;
use crate::audio_buffer::{downsample, downsampled};

verus! {

/// Errors of the streaming path. None of them fails the local recording.
#[derive(Debug, Clone)]
pub enum StreamingError {
    MissingApiKey,
    ConnectionFailed(String),
    AuthenticationFailed(String),
    ProtocolError(String),
    Disconnected(String),
    SendFailed(String),
}

pub open spec fn streaming_error_text(e: StreamingError) -> Seq<char> {
    match e {
        StreamingError::MissingApiKey => "OpenAI API key not configured. Set OPENAI_API_KEY environment variable."@,
        StreamingError::ConnectionFailed(s) => "Failed to connect to OpenAI Realtime API: "@ + s@,
        StreamingError::AuthenticationFailed(s) => "Authentication failed: "@ + s@,
        StreamingError::ProtocolError(s) => "WebSocket protocol error: "@ + s@,
        StreamingError::Disconnected(s) => "WebSocket disconnected: "@ + s@,
        StreamingError::SendFailed(s) => "Failed to send audio: "@ + s@,
    }
}

impl StreamingError {
    /// Human-readable description.
    pub fn to_string(&self) -> (r: String)
        ensures
            r@ == streaming_error_text(*self),
    {
        match self {
            StreamingError::MissingApiKey => {
                proof {
                    reveal_strlit(
                        "OpenAI API key not configured. Set OPENAI_API_KEY environment variable.",
                    );
                }
                String::from_str(
                    "OpenAI API key not configured. Set OPENAI_API_KEY environment variable.",
                )
            },
            StreamingError::ConnectionFailed(s) => {
                proof {
                    reveal_strlit("Failed to connect to OpenAI Realtime API: ");
                }
                String::from_str("Failed to connect to OpenAI Realtime API: ").concat(s.as_str())
            },
            StreamingError::AuthenticationFailed(s) => {
                proof {
                    reveal_strlit("Authentication failed: ");
                }
                String::from_str("Authentication failed: ").concat(s.as_str())
            },
            StreamingError::ProtocolError(s) => {
                proof {
                    reveal_strlit("WebSocket protocol error: ");
                }
                String::from_str("WebSocket protocol error: ").concat(s.as_str())
            },
            StreamingError::Disconnected(s) => {
                proof {
                    reveal_strlit("WebSocket disconnected: ");
                }
                String::from_str("WebSocket disconnected: ").concat(s.as_str())
            },
            StreamingError::SendFailed(s) => {
                proof {
                    reveal_strlit("Failed to send audio: ");
                }
                String::from_str("Failed to send audio: ").concat(s.as_str())
            },
        }
    }
}

/// An empty key cannot open a session.
pub fn require_api_key(api_key: &str) -> (r: Result<(), StreamingError>)
    ensures
        r is Err <==> api_key@.len() == 0,
        r is Err ==> r->Err_0 is MissingApiKey,
{
    if api_key.is_empty() {
        Err(StreamingError::MissingApiKey)
    } else {
        Ok(())
    }
}

/// Rates and chunk length of the streaming path.
#[derive(Debug, Clone, Copy)]
pub struct StreamerConfig {
    pub source_sample_rate: u32,
    pub target_sample_rate: u32,
    pub chunk_duration_ms: u32,
}

impl Default for StreamerConfig {
    /// 48 kHz capture, 24 kHz to the service, 100 ms chunks.
    fn default() -> (r: StreamerConfig)
        ensures
            r.source_sample_rate == 48000,
            r.target_sample_rate == 24000,
            r.chunk_duration_ms == 100,
    {
        StreamerConfig { source_sample_rate: 48000, target_sample_rate: 24000, chunk_duration_ms: 100 }
    }
}

impl StreamerConfig {
    /// Samples in one chunk at the target rate.
    pub fn samples_per_chunk(&self) -> (r: usize)
        requires
            self.target_sample_rate * self.chunk_duration_ms <= u32::MAX,
        ensures
            r == self.target_sample_rate * self.chunk_duration_ms / 1000,
    {
        (self.target_sample_rate * self.chunk_duration_ms / 1000) as usize
    }
}

/// `s` cut into whole chunks of `n` samples, in order.
pub open spec fn whole_chunks(s: Seq<i16>, n: int) -> Seq<Seq<i16>> {
    Seq::new((s.len() as int / n) as nat, |j: int| s.subrange(j * n, (j + 1) * n))
}

/// What is left of `s` after its whole chunks of `n`.
pub open spec fn remainder(s: Seq<i16>, n: int) -> Seq<i16> {
    s.subrange((s.len() as int / n) * n, s.len() as int)
}

/// Collects resampled audio and hands it out in chunks of a fixed size; what
/// is left at the end goes out as one shorter chunk.
#[derive(Debug)]
pub struct ChunkAccumulator {
    config: StreamerConfig,
    samples_per_chunk: usize,
    pending: Vec<i16>,
}

impl ChunkAccumulator {
    pub closed spec fn pending_samples(&self) -> Seq<i16> {
        self.pending@
    }

    pub closed spec fn chunk_len(&self) -> nat {
        self.samples_per_chunk as nat
    }

    pub closed spec fn config_spec(&self) -> StreamerConfig {
        self.config
    }

    pub closed spec fn wf(&self) -> bool {
        self.samples_per_chunk > 0 && self.pending@.len() < self.samples_per_chunk
    }

    pub fn new(config: StreamerConfig) -> (r: ChunkAccumulator)
        requires
            config.target_sample_rate * config.chunk_duration_ms <= u32::MAX,
            config.target_sample_rate * config.chunk_duration_ms >= 1000,
        ensures
            r.wf(),
            r.pending_samples().len() == 0,
            r.chunk_len() == config.target_sample_rate * config.chunk_duration_ms / 1000,
            r.config_spec() == config,
    {
        let n = config.samples_per_chunk();
        ChunkAccumulator { config, samples_per_chunk: n, pending: Vec::new() }
    }

    /// Resamples `samples` into the target rate, appends them, and returns
    /// every whole chunk now available, oldest first.
    pub fn push_samples(&mut self, samples: &[i16]) -> (r: Vec<Vec<i16>>)
        requires
            old(self).wf(),
            old(self).pending_samples().len() + samples@.len() <= usize::MAX,
        ensures
            final(self).wf(),
            final(self).chunk_len() == old(self).chunk_len(),
            final(self).config_spec() == old(self).config_spec(),
            ({
                let all = old(self).pending_samples() + downsampled(
                    samples@,
                    old(self).config_spec().source_sample_rate,
                    old(self).config_spec().target_sample_rate,
                );
                &&& r@.len() == whole_chunks(all, old(self).chunk_len() as int).len()
                &&& forall|j: int|
                    0 <= j < r@.len() ==> #[trigger] r@[j]@ == whole_chunks(
                        all,
                        old(self).chunk_len() as int,
                    )[j]
                &&& final(self).pending_samples() == remainder(all, old(self).chunk_len() as int)
            }),
    {
        let resampled = downsample(
            samples,
            self.config.source_sample_rate,
            self.config.target_sample_rate,
        );
        proof {
            lemma_downsampled_len_le(
                samples@,
                self.config.source_sample_rate,
                self.config.target_sample_rate,
            );
        }
        let mut all = copy_samples(&self.pending, 0, self.pending.len());
        let mut i: usize = 0;
        while i < resampled.len()
            invariant
                i <= resampled@.len(),
                all@ == self.pending@ + resampled@.subrange(0, i as int),
                self.pending@.len() + resampled@.len() <= usize::MAX,
            decreases resampled@.len() - i,
        {
            all.push(resampled[i]);
            proof {
                assert(resampled@.subrange(0, i + 1) == resampled@.subrange(0, i as int).push(
                    resampled@[i as int],
                ));
            }
            i = i + 1;
        }
        assert(resampled@.subrange(0, resampled@.len() as int) == resampled@);
        let n = self.samples_per_chunk;
        let ghost nn = n as int;
        let mut out: Vec<Vec<i16>> = Vec::new();
        let mut start: usize = 0;
        assert(0 * nn == 0);
        while all.len() - start >= n
            invariant
                n > 0,
                nn == n as int,
                start <= all@.len(),
                start == out@.len() * nn,
                out@.len() <= all@.len() as int / nn,
                forall|j: int|
                    0 <= j < out@.len() ==> #[trigger] out@[j]@ == all@.subrange(j * nn, (j + 1) * nn),
            decreases all@.len() - start,
        {
            let chunk = copy_samples(&all, start, start + n);
            out.push(chunk);
            proof {
                assert((out@.len() - 1) * nn + nn == out@.len() * nn) by (nonlinear_arith);
                assert(out@.len() * nn <= all@.len());
                assert(out@.len() <= all@.len() as int / nn) by (nonlinear_arith)
                    requires
                        out@.len() * nn <= all@.len(),
                        nn > 0,
                ;
            }
            start = start + n;
        }
        proof {
            assert(out@.len() == all@.len() as int / nn) by (nonlinear_arith)
                requires
                    start == out@.len() * nn,
                    all@.len() - start < nn,
                    start <= all@.len(),
                    nn > 0,
            ;
        }
        self.pending = copy_samples(&all, start, all.len());
        out
    }

    /// Takes what is pending as a final, shorter chunk (`None` if nothing is).
    pub fn flush(&mut self) -> (r: Option<Vec<i16>>)
        requires
            old(self).wf(),
        ensures
            final(self).wf(),
            final(self).pending_samples().len() == 0,
            final(self).chunk_len() == old(self).chunk_len(),
            final(self).config_spec() == old(self).config_spec(),
            old(self).pending_samples().len() == 0 ==> r is None,
            old(self).pending_samples().len() > 0 ==> r is Some && r->0@ == old(self).pending_samples(),
    {
        if self.pending.len() == 0 {
            None
        } else {
            let rest = copy_samples(&self.pending, 0, self.pending.len());
            self.pending = Vec::new();
            assert(old(self).pending@.subrange(0, old(self).pending@.len() as int) == old(self).pending@);
            Some(rest)
        }
    }
}

fn copy_samples(v: &Vec<i16>, from: usize, to: usize) -> (r: Vec<i16>)
    requires
        from <= to <= v@.len(),
    ensures
        r@ == v@.subrange(from as int, to as int),
{
    let mut out: Vec<i16> = Vec::new();
    let mut i: usize = from;
    while i < to
        invariant
            from <= i <= to,
            to <= v@.len(),
            out@ == v@.subrange(from as int, i as int),
        decreases to - i,
    {
        out.push(v[i]);
        proof {
            assert(v@.subrange(from as int, i + 1) == v@.subrange(from as int, i as int).push(v@[i as int]));
        }
        i = i + 1;
    }
    out
}

proof fn lemma_downsampled_len_le(s: Seq<i16>, source_rate: u32, target_rate: u32)
    ensures
        downsampled(s, source_rate, target_rate).len() <= s.len(),
{
    if crate::audio_buffer::rate_supported(source_rate, target_rate) {
        let k = (source_rate / target_rate) as int;
        crate::audio_buffer::lemma_ratio_positive(source_rate as int, target_rate as int);
        let n = s.len() as int;
        assert((n + k - 1) / k <= n) by (nonlinear_arith)
            requires
                k >= 1,
                n >= 0,
        {
            if n >= 1 {
                assert(n + k - 1 <= n * k);
            } else {
                assert((k - 1) / k == 0);
            }
        }
    }
}

/// Attempts at opening a streaming session before the recording goes on
/// without one.
pub const MAX_CONNECT_ATTEMPTS: u32 = 3;

/// Wait before the second attempt; it doubles before each further one.
pub const CONNECT_BASE_DELAY_MS: u64 = 1000;

/// Wait before attempt number `attempt + 1` (counting from zero) after a
/// failed attempt `attempt`.
pub open spec fn connect_backoff_ms(attempt: nat) -> nat
    decreases attempt,
{
    if attempt == 0 {
        CONNECT_BASE_DELAY_MS as nat
    } else {
        2 * connect_backoff_ms((attempt - 1) as nat)
    }
}

/// What to do after a connection attempt.
#[derive(Debug, Clone, Copy, PartialEq, Eq, Structural)]
pub enum ConnectStep {
    Connected,
    RetryAfter { delay_ms: u64 },
    GiveUp,
}

/// After attempt `attempt` (from zero): done if it succeeded, otherwise
/// wait and retry while attempts remain, and give up after the last one.
pub fn after_connect_attempt(attempt: u32, succeeded: bool) -> (r: ConnectStep)
    requires
        attempt < MAX_CONNECT_ATTEMPTS,
    ensures
        succeeded ==> r == ConnectStep::Connected,
        !succeeded && attempt + 1 < MAX_CONNECT_ATTEMPTS ==> r == (ConnectStep::RetryAfter {
            delay_ms: connect_backoff_ms(attempt as nat) as u64,
        }),
        !succeeded && attempt + 1 >= MAX_CONNECT_ATTEMPTS ==> r == ConnectStep::GiveUp,
{
    if succeeded {
        ConnectStep::Connected
    } else if attempt + 1 < MAX_CONNECT_ATTEMPTS {
        let mut delay: u64 = CONNECT_BASE_DELAY_MS;
        let mut i: u32 = 0;
        while i < attempt
            invariant
                i <= attempt,
                attempt <= 1,
                delay == connect_backoff_ms(i as nat),
                i < attempt ==> delay == 1000,
            decreases attempt - i,
        {
            delay = delay * 2;
            i = i + 1;
        }
        ConnectStep::RetryAfter { delay_ms: delay }
    } else {
        ConnectStep::GiveUp
    }
}

/// The waits between connection attempts grow strictly.
pub proof fn lemma_connect_backoff_increases(a: nat, b: nat)
    requires
        a < b,
    ensures
        connect_backoff_ms(a) < connect_backoff_ms(b),
    decreases b,
{
    if a + 1 < b {
        lemma_connect_backoff_increases(a, (b - 1) as nat);
    }
    lemma_connect_backoff_positive((b - 1) as nat);
}

proof fn lemma_connect_backoff_positive(a: nat)
    ensures
        connect_backoff_ms(a) > 0,
    decreases a,
{
    if a > 0 {
        lemma_connect_backoff_positive((a - 1) as nat);
    }
}

} // verus!
