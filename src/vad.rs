//! Signal statistics of a finished short clip, with a frame-by-frame
//! speech classifier, for the short-clip speech check.
use vstd::prelude::*;
use vstd::string::StringExecFns;
use webrtc_vad::{SampleRate, Vad, VadMode};

verus! {

#[verifier::external_type_specification]
#[verifier::external_body]
pub struct ExVad(webrtc_vad::Vad);

#[verifier::external_type_specification]
#[verifier::external_body]
pub struct ExVadSampleRate(webrtc_vad::SampleRate);

/// Sample rates the classifier accepts.
pub open spec fn is_classifier_rate(rate: u32) -> bool {
    rate == 8000 || rate == 16000 || rate == 32000 || rate == 48000
}

/// Relies on webrtc_vad's `SampleRate::try_from(i32)`, which accepts exactly
/// 8000, 16000, 32000 and 48000.
#[verifier::external_body]
fn classifier_rate(rate: i32) -> (r: Option<SampleRate>)
    ensures
        r is Some <==> (rate == 8000 || rate == 16000 || rate == 32000 || rate == 48000),
{
    SampleRate::try_from(rate).ok()
}

/// Relies on webrtc_vad's `Vad::new_with_rate_and_mode` in its most
/// restrictive mode (`VeryAggressive`).
#[verifier::external_body]
fn very_aggressive_classifier(rate: SampleRate) -> (r: Vad) {
    Vad::new_with_rate_and_mode(rate, VadMode::VeryAggressive)
}

/// Relies on webrtc_vad's `Vad::is_voice_segment`, which indexes the first
/// sample (so the frame must not be empty); its error (a frame that is not
/// 10, 20 or 30 ms long) counts as no speech.
#[verifier::external_body]
fn frame_is_speech(vad: &mut Vad, frame: &[i16]) -> (r: bool)
    requires
        frame@.len() > 0,
{
    vad.is_voice_segment(frame).unwrap_or(false)
}

/// Length of a classifier frame, in milliseconds (10, 20 and 30 are legal).
pub const FRAME_MS: u64 = 30;

/// Statistics of the analysed part of a clip (everything after the ignored
/// lead-in).
#[derive(Debug, Clone, Copy)]
pub struct VadStats {
    pub total_frames: usize,
    pub speech_frames: usize,
    pub total_samples: u64,
    pub peak_abs: i32,
    pub sum_squares: u128,
    pub sum_abs: u128,
    pub ignored_samples: u64,
}

/// Why a clip could not be analysed.
#[derive(Debug, Clone, Copy, PartialEq, Eq, Structural)]
pub enum VadError {
    UnsupportedChannels(u16),
    UnsupportedBitsPerSample(u16),
    UnsupportedSampleRate(u32),
}

pub open spec fn abs_i16(s: i16) -> int {
    if s < 0 { -(s as int) } else { s as int }
}

pub open spec fn peak_of(s: Seq<i16>) -> int
    decreases s.len(),
{
    if s.len() == 0 {
        0
    } else {
        let p = peak_of(s.drop_last());
        if abs_i16(s.last()) > p { abs_i16(s.last()) } else { p }
    }
}

pub open spec fn sum_sq_of(s: Seq<i16>) -> int
    decreases s.len(),
{
    if s.len() == 0 {
        0
    } else {
        sum_sq_of(s.drop_last()) + (s.last() as int) * (s.last() as int)
    }
}

pub open spec fn sum_abs_of(s: Seq<i16>) -> int
    decreases s.len(),
{
    if s.len() == 0 {
        0
    } else {
        sum_abs_of(s.drop_last()) + abs_i16(s.last())
    }
}

/// Samples in the ignored lead-in of `ignore_start_ms` at `rate` Hz.
pub open spec fn lead_in_samples(rate: u32, ignore_start_ms: u64) -> int {
    let product = rate as int * ignore_start_ms as int;
    let sat = if product > u64::MAX { u64::MAX as int } else { product };
    sat / 1000
}

/// Samples in one classifier frame at `rate` Hz.
pub open spec fn frame_len(rate: u32) -> int {
    rate as int * FRAME_MS as int / 1000
}

/// Whether `analyze_samples` accepts a clip of this format, and if not, why.
pub open spec fn format_error(channels: u16, bits_per_sample: u16, rate: u32) -> Option<VadError> {
    if channels != 1 {
        Some(VadError::UnsupportedChannels(channels))
    } else if bits_per_sample != 16 {
        Some(VadError::UnsupportedBitsPerSample(bits_per_sample))
    } else if !is_classifier_rate(rate) {
        Some(VadError::UnsupportedSampleRate(rate))
    } else {
        None
    }
}

/// The statistics of `samples` that do not depend on the classifier.
pub open spec fn matches_signal(st: VadStats, samples: Seq<i16>, rate: u32, ignore_start_ms: u64) -> bool {
    let ignored = if lead_in_samples(rate, ignore_start_ms) < samples.len() {
        lead_in_samples(rate, ignore_start_ms)
    } else {
        samples.len() as int
    };
    let kept = samples.subrange(ignored, samples.len() as int);
    &&& st.ignored_samples == ignored
    &&& st.total_samples == kept.len()
    &&& st.peak_abs == peak_of(kept)
    &&& st.sum_squares == sum_sq_of(kept)
    &&& st.sum_abs == sum_abs_of(kept)
    &&& st.total_frames == kept.len() as int / frame_len(rate)
    &&& st.speech_frames <= st.total_frames
}

impl VadError {
    pub fn to_string(&self) -> (r: String) {
        match self {
            VadError::UnsupportedChannels(_) => String::from_str("Unsupported channel count (expected 1)"),
            VadError::UnsupportedBitsPerSample(_) => String::from_str(
                "Unsupported bits per sample (expected 16)",
            ),
            VadError::UnsupportedSampleRate(_) => String::from_str("Unsupported sample rate"),
        }
    }
}

proof fn lemma_signal_bounds(s: Seq<i16>)
    ensures
        0 <= peak_of(s) <= 32768,
        0 <= sum_sq_of(s) <= 32768 * 32768 * s.len(),
        0 <= sum_abs_of(s) <= 32768 * s.len(),
    decreases s.len(),
{
    if s.len() > 0 {
        lemma_signal_bounds(s.drop_last());
        let x = s.last() as int;
        assert(x * x <= 32768 * 32768) by (nonlinear_arith)
            requires
                -32768 <= x <= 32767,
        ;
        assert(x * x >= 0) by (nonlinear_arith);
        let m = s.len() as int;
        assert(32768 * 32768 * (m - 1) + x * x <= 32768 * 32768 * m) by (nonlinear_arith)
            requires
                x * x <= 32768 * 32768,
        ;
    }
}

/// Analyses a mono 16-bit clip: skips the lead-in, accumulates peak, sum of
/// squares and sum of magnitudes over the rest, and classifies each whole
/// 30 ms frame. A clip of another format is refused.
pub fn analyze_samples(
    samples: &[i16],
    sample_rate: u32,
    channels: u16,
    bits_per_sample: u16,
    ignore_start_ms: u64,
) -> (r: Result<VadStats, VadError>)
    ensures
        format_error(channels, bits_per_sample, sample_rate) is Some ==> r == Err::<VadStats, VadError>(
            format_error(channels, bits_per_sample, sample_rate)->0,
        ),
        format_error(channels, bits_per_sample, sample_rate) is None ==> r is Ok && matches_signal(
            r->Ok_0,
            samples@,
            sample_rate,
            ignore_start_ms,
        ),
{
    if channels != 1 {
        return Err(VadError::UnsupportedChannels(channels));
    }
    if bits_per_sample != 16 {
        return Err(VadError::UnsupportedBitsPerSample(bits_per_sample));
    }
    if sample_rate > i32::MAX as u32 {
        return Err(VadError::UnsupportedSampleRate(sample_rate));
    }
    let rate = match classifier_rate(sample_rate as i32) {
        Some(rate) => rate,
        None => return Err(VadError::UnsupportedSampleRate(sample_rate)),
    };
    let mut vad = very_aggressive_classifier(rate);
    let flen: usize = (sample_rate as u64 * FRAME_MS / 1000) as usize;
    assert(sample_rate as u128 * ignore_start_ms as u128 <= 0xffff_ffff * 0xffff_ffff_ffff_ffff) by (nonlinear_arith)
        requires
            sample_rate <= 0xffff_ffff,
            ignore_start_ms <= 0xffff_ffff_ffff_ffff,
    ;
    let product: u128 = sample_rate as u128 * ignore_start_ms as u128;
    let saturated: u64 = if product > u64::MAX as u128 { u64::MAX } else { product as u64 };
    let lead_in: u64 = saturated / 1000;
    let n = samples.len();
    let start: usize = if (lead_in as u128) < (n as u128) { lead_in as usize } else { n };
    let ghost kept = samples@.subrange(start as int, n as int);

    let mut peak: i32 = 0;
    let mut sum_sq: u128 = 0;
    let mut sum_abs: u128 = 0;
    let mut i: usize = start;
    while i < n
        invariant
            start <= i <= n,
            n == samples@.len(),
            n <= usize::MAX,
            peak == peak_of(samples@.subrange(start as int, i as int)),
            sum_sq == sum_sq_of(samples@.subrange(start as int, i as int)),
            sum_abs == sum_abs_of(samples@.subrange(start as int, i as int)),
        decreases n - i,
    {
        let ghost prefix = samples@.subrange(start as int, i as int);
        proof {
            assert(samples@.subrange(start as int, i + 1).drop_last() == prefix);
            lemma_signal_bounds(prefix);
            assert(32768 * 32768 * prefix.len() <= 32768 * 32768 * (usize::MAX as int)) by (nonlinear_arith)
                requires
                    prefix.len() <= usize::MAX,
            ;
        }
        let x = samples[i] as i32;
        assert(0 <= x * x <= 32768 * 32768) by (nonlinear_arith)
            requires
                -32768 <= x <= 32767,
        ;
        let a: i32 = if x < 0 { -x } else { x };
        if a > peak {
            peak = a;
        }
        sum_sq = sum_sq + (x * x) as u128;
        sum_abs = sum_abs + a as u128;
        i = i + 1;
    }

    let mut total_frames: usize = 0;
    let mut speech_frames: usize = 0;
    let mut f: usize = start;
    let ghost fl = flen as int;
    assert(flen > 0);
    while n - f >= flen
        invariant
            start <= f <= n,
            n == samples@.len(),
            flen > 0,
            fl == flen as int,
            f - start == total_frames * fl,
            speech_frames <= total_frames,
            total_frames <= f - start,
        decreases n - f,
    {
        assert(total_frames + 1 <= f + flen - start) by (nonlinear_arith)
            requires
                f - start == total_frames * fl,
                fl >= 1,
                fl == flen,
        ;
        let frame = vstd::slice::slice_subrange(samples, f, f + flen);
        if frame_is_speech(&mut vad, frame) {
            speech_frames = speech_frames + 1;
        }
        total_frames = total_frames + 1;
        proof {
            assert((total_frames - 1) * fl + fl == total_frames * fl) by (nonlinear_arith);
        }
        f = f + flen;
    }
    proof {
        let k = kept.len() as int;
        assert(total_frames == k / fl) by (nonlinear_arith)
            requires
                f - start == total_frames * fl,
                n - f < fl,
                k == n - start,
                f <= n,
                fl > 0,
        ;
    }
    Ok(VadStats {
        total_frames,
        speech_frames,
        total_samples: (n - start) as u64,
        peak_abs: peak,
        sum_squares: sum_sq,
        sum_abs,
        ignored_samples: start as u64,
    })
}

/// Speech frames needed before a short clip is sent for transcription.
pub const SHORT_CLIP_VAD_MIN_SPEECH_FRAMES: usize = 2;

/// Largest peak-to-RMS ratio of a clip that is taken for speech.
pub const SHORT_CLIP_MAX_CREST_FACTOR: u32 = 15;

/// The crest factor (peak over RMS) is at most `max`: written without
/// roots as `peak² · n ≤ max² · Σx²`. A clip without energy has an
/// unbounded crest factor.
pub open spec fn crest_at_most(st: VadStats, max: u32) -> bool {
    &&& st.total_samples > 0
    &&& st.sum_squares > 0
    &&& (st.peak_abs as int) * (st.peak_abs as int) * (st.total_samples as int) <= (max as int) * (
    max as int) * (st.sum_squares as int)
}

/// Verdict on a short clip, with the two checks it rests on.
#[derive(Debug, Clone, Copy, PartialEq, Eq, Structural)]
pub struct VadDecision {
    pub allows_transcription: bool,
    pub speech_detected: bool,
    pub heuristic_pass: bool,
    pub speech_frames: usize,
    pub total_frames: usize,
}

/// Whether the crest factor of `st` is at most `max`.
pub fn crest_factor_at_most(st: &VadStats, max: u32) -> (r: bool)
    ensures
        r == crest_at_most(*st, max),
{
    if st.total_samples == 0 || st.sum_squares == 0 {
        return false;
    }
    let p: u128 = if st.peak_abs < 0 { (-(st.peak_abs as i64)) as u128 } else { st.peak_abs as u128 };
    let t = st.total_samples as u128;
    let m = max as u128;
    proof {
        assert(p * p <= 0x4000_0000_0000_0000) by (nonlinear_arith)
            requires
                p <= 0x8000_0000,
        ;
        assert(p * p * t <= 0x4000_0000_0000_0000 * 0xffff_ffff_ffff_ffff) by (nonlinear_arith)
            requires
                p * p <= 0x4000_0000_0000_0000,
                t <= 0xffff_ffff_ffff_ffff,
        ;
        assert(m * m <= 0xffff_fffe_0000_0001) by (nonlinear_arith)
            requires
                m <= 0xffff_ffff,
        ;
        let q = st.peak_abs as int;
        assert(p == q || p == -q);
        assert(q * q == p * p) by (nonlinear_arith)
            requires
                p == q || p == -q,
        ;
    }
    let lhs = p * p * t;
    let mm = m * m;
    if mm == 0 {
        return lhs == 0;
    }
    if st.sum_squares > u128::MAX / mm {
        proof {
            assert(mm * st.sum_squares > u128::MAX) by (nonlinear_arith)
                requires
                    st.sum_squares > u128::MAX / mm,
                    mm > 0,
            ;
        }
        return true;
    }
    proof {
        assert(mm * st.sum_squares <= u128::MAX) by (nonlinear_arith)
            requires
                st.sum_squares <= u128::MAX / mm,
                mm > 0,
        ;
    }
    lhs <= mm * st.sum_squares
}

/// Checks `st` against the given thresholds: enough speech frames, and a
/// crest factor no higher than `max_crest`. Either check alone can veto.
pub fn evaluate_vad(st: &VadStats, min_speech_frames: usize, max_crest: u32) -> (r: VadDecision)
    ensures
        r.speech_detected == (st.speech_frames >= min_speech_frames),
        r.heuristic_pass == crest_at_most(*st, max_crest),
        r.allows_transcription == (r.speech_detected && r.heuristic_pass),
        r.speech_frames == st.speech_frames,
        r.total_frames == st.total_frames,
{
    let speech_detected = st.speech_frames >= min_speech_frames;
    let heuristic_pass = crest_factor_at_most(st, max_crest);
    VadDecision {
        allows_transcription: speech_detected && heuristic_pass,
        speech_detected,
        heuristic_pass,
        speech_frames: st.speech_frames,
        total_frames: st.total_frames,
    }
}

/// The short-clip check with its configured thresholds.
pub fn evaluate_short_clip_vad(st: &VadStats) -> (r: VadDecision)
    ensures
        r.speech_detected == (st.speech_frames >= SHORT_CLIP_VAD_MIN_SPEECH_FRAMES),
        r.heuristic_pass == crest_at_most(*st, SHORT_CLIP_MAX_CREST_FACTOR),
        r.allows_transcription == (r.speech_detected && r.heuristic_pass),
{
    evaluate_vad(st, SHORT_CLIP_VAD_MIN_SPEECH_FRAMES, SHORT_CLIP_MAX_CREST_FACTOR)
}

pub fn short_clip_vad_allows_transcription(st: &VadStats) -> (r: bool)
    ensures
        r == (st.speech_frames >= SHORT_CLIP_VAD_MIN_SPEECH_FRAMES && crest_at_most(
            *st,
            SHORT_CLIP_MAX_CREST_FACTOR,
        )),
{
    evaluate_short_clip_vad(st).allows_transcription
}

/// Too few speech frames veto transcription whatever the loudness shape,
/// and too high a crest factor vetoes it whatever the frame count.
pub proof fn lemma_vad_vetoes_independent(st: VadStats, min_speech_frames: usize, max_crest: u32, d: VadDecision)
    requires
        d.speech_detected == (st.speech_frames >= min_speech_frames),
        d.heuristic_pass == crest_at_most(st, max_crest),
        d.allows_transcription == (d.speech_detected && d.heuristic_pass),
    ensures
        st.speech_frames < min_speech_frames ==> !d.allows_transcription,
        !crest_at_most(st, max_crest) ==> !d.allows_transcription,
{
}

} // verus!
