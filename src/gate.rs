//! The no-speech check between stopping a recording and transcribing it, and
//! the reading of a transcription result that holds no speech.
use vstd::prelude::*;
use vstd::string::StrSliceExecFns;
use crate::vad::{VadStats, crest_at_most, evaluate_short_clip_vad,
    SHORT_CLIP_MAX_CREST_FACTOR, SHORT_CLIP_VAD_MIN_SPEECH_FRAMES};

verus! {

/// Settings read once per recording for the no-speech check.
#[derive(Debug, Clone, Copy)]
pub struct GateSettings {
    pub min_transcribe_ms: u64,
    pub short_clip_vad_enabled: bool,
    pub vad_check_max_ms: u64,
    pub vad_ignore_start_ms: u64,
}

/// What to do with a stopped recording.
#[derive(Debug, Clone, Copy, PartialEq, Eq, Structural)]
pub enum StopGate {
    /// Shorter than the minimum: no speech, without looking.
    TooShort,
    /// Short enough to be checked by the speech classifier first.
    CheckVad,
    /// Go on to transcription.
    Proceed,
}

pub open spec fn stop_gate(duration_ms: Option<u64>, s: GateSettings) -> StopGate {
    match duration_ms {
        None => StopGate::Proceed,
        Some(d) => if d < s.min_transcribe_ms {
            StopGate::TooShort
        } else if d < s.vad_check_max_ms && s.short_clip_vad_enabled {
            StopGate::CheckVad
        } else {
            StopGate::Proceed
        },
    }
}

/// Decides, from the recording's length (unknown if `None`), whether it is
/// too short, must pass the speech classifier, or goes straight on.
pub fn gate_after_stop(duration_ms: Option<u64>, settings: &GateSettings) -> (r: StopGate)
    ensures
        r == stop_gate(duration_ms, *settings),
{
    match duration_ms {
        None => StopGate::Proceed,
        Some(d) => if d < settings.min_transcribe_ms {
            StopGate::TooShort
        } else if d < settings.vad_check_max_ms && settings.short_clip_vad_enabled {
            StopGate::CheckVad
        } else {
            StopGate::Proceed
        },
    }
}

/// Whether a checked clip may be transcribed. An analysis that failed (an
/// unsupported format, a clip that could not be read) counts as no speech.
pub fn vad_verdict<E>(analysis: &Result<VadStats, E>) -> (r: bool)
    ensures
        analysis is Err ==> !r,
        analysis is Ok ==> r == (analysis->Ok_0.speech_frames >= SHORT_CLIP_VAD_MIN_SPEECH_FRAMES
            && crest_at_most(analysis->Ok_0, SHORT_CLIP_MAX_CREST_FACTOR)),
{
    match analysis {
        Ok(stats) => evaluate_short_clip_vad(stats).allows_transcription,
        Err(_) => false,
    }
}

/// A no-speech probability at or above this (in thousandths) marks a short
/// transcript as no speech.
pub const NO_SPEECH_PROB_THRESHOLD_PERMILLE: u32 = 800;

/// Longest trimmed transcript (in UTF-8 bytes) that a high no-speech
/// probability can discard.
pub const NO_SPEECH_MAX_TEXT_LEN: usize = 12;

/// Unicode `White_Space`, the set that `char::is_whitespace` tests.
pub open spec fn is_white_space(c: char) -> bool {
    let u = c as u32;
    (0x9 <= u && u <= 0xd) || u == 0x20 || u == 0x85 || u == 0xa0 || u == 0x1680 || (0x2000 <= u
        && u <= 0x200a) || u == 0x2028 || u == 0x2029 || u == 0x202f || u == 0x205f || u == 0x3000
}

/// Bytes of `c` in UTF-8.
pub open spec fn utf8_width(c: char) -> int {
    let u = c as u32;
    if u < 0x80 {
        1
    } else if u < 0x800 {
        2
    } else if u < 0x10000 {
        3
    } else {
        4
    }
}

pub open spec fn utf8_len(s: Seq<char>) -> int
    decreases s.len(),
{
    if s.len() == 0 {
        0
    } else {
        utf8_len(s.drop_last()) + utf8_width(s.last())
    }
}

/// Index of the first character of `s` that is not white space (`s.len()`
/// if there is none).
pub open spec fn first_non_space(s: Seq<char>, from: int) -> int
    decreases s.len() - from,
{
    if from >= s.len() || from < 0 {
        s.len() as int
    } else if !is_white_space(s[from]) {
        from
    } else {
        first_non_space(s, from + 1)
    }
}

/// One past the last character of `s` before `to` that is not white space
/// (`0` if there is none).
pub open spec fn end_non_space(s: Seq<char>, to: int) -> int
    decreases to,
{
    if to <= 0 || to > s.len() {
        0
    } else if !is_white_space(s[to - 1]) {
        to
    } else {
        end_non_space(s, to - 1)
    }
}

/// `s` without leading and trailing white space.
pub open spec fn trimmed(s: Seq<char>) -> Seq<char> {
    let a = first_non_space(s, 0);
    let b = end_non_space(s, s.len() as int);
    if a < b {
        s.subrange(a, b)
    } else {
        Seq::empty()
    }
}

/// A transcript that holds no speech: blank once trimmed, or short with a
/// high no-speech probability (given in thousandths).
pub open spec fn no_speech_transcript(text: Seq<char>, prob_permille: Option<u32>) -> bool {
    trimmed(text).len() == 0 || (prob_permille is Some && prob_permille->0
        >= NO_SPEECH_PROB_THRESHOLD_PERMILLE && utf8_len(trimmed(text)) <= NO_SPEECH_MAX_TEXT_LEN)
}

fn is_white_space_char(c: char) -> (r: bool)
    ensures
        r == is_white_space(c),
{
    let u = c as u32;
    (0x9 <= u && u <= 0xd) || u == 0x20 || u == 0x85 || u == 0xa0 || u == 0x1680 || (0x2000 <= u
        && u <= 0x200a) || u == 0x2028 || u == 0x2029 || u == 0x202f || u == 0x205f || u == 0x3000
}

proof fn lemma_first_non_space(s: Seq<char>, from: int)
    requires
        0 <= from <= s.len(),
    ensures
        from <= first_non_space(s, from) <= s.len(),
    decreases s.len() - from,
{
    if from < s.len() && is_white_space(s[from]) {
        lemma_first_non_space(s, from + 1);
    }
}

proof fn lemma_end_non_space(s: Seq<char>, to: int)
    requires
        0 <= to <= s.len(),
    ensures
        0 <= end_non_space(s, to) <= to,
    decreases to,
{
    if to > 0 && is_white_space(s[to - 1]) {
        lemma_end_non_space(s, to - 1);
    }
}

/// Whether a transcription result is to be read as no speech.
pub fn transcript_is_no_speech(text: &str, no_speech_prob_permille: Option<u32>) -> (r: bool)
    ensures
        r == no_speech_transcript(text@, no_speech_prob_permille),
{
    let n = text.unicode_len();
    let ghost s = text@;
    let mut a: usize = 0;
    while a < n && is_white_space_char(text.get_char(a))
        invariant
            n == s.len(),
            s == text@,
            a <= n,
            first_non_space(s, 0) == first_non_space(s, a as int),
        decreases n - a,
    {
        a = a + 1;
    }
    let mut b: usize = n;
    while b > 0 && is_white_space_char(text.get_char(b - 1))
        invariant
            n == s.len(),
            s == text@,
            b <= n,
            end_non_space(s, n as int) == end_non_space(s, b as int),
        decreases b,
    {
        b = b - 1;
    }
    proof {
        lemma_first_non_space(s, 0);
        lemma_end_non_space(s, n as int);
    }
    if a >= b {
        return true;
    }
    match no_speech_prob_permille {
        None => false,
        Some(p) => {
            if p < NO_SPEECH_PROB_THRESHOLD_PERMILLE {
                return false;
            }
            let ghost t = s.subrange(a as int, b as int);
            proof {
                assert(first_non_space(s, a as int) == a as int);
                assert(end_non_space(s, b as int) == b as int);
                assert(trimmed(s) == t);
            }
            let mut bytes: usize = 0;
            let mut i: usize = a;
            while i < b
                invariant
                    a <= i <= b,
                    b <= n,
                    n == s.len(),
                    s == text@,
                    t == s.subrange(a as int, b as int),
                    trimmed(s) == t,
                    bytes == utf8_len(s.subrange(a as int, i as int)),
                    bytes <= NO_SPEECH_MAX_TEXT_LEN,
                decreases b - i,
            {
                let c = text.get_char(i);
                let u = c as u32;
                let w: usize = if u < 0x80 {
                    1
                } else if u < 0x800 {
                    2
                } else if u < 0x10000 {
                    3
                } else {
                    4
                };
                proof {
                    assert(s.subrange(a as int, i + 1).drop_last() == s.subrange(a as int, i as int));
                }
                bytes = bytes + w;
                i = i + 1;
                if bytes > NO_SPEECH_MAX_TEXT_LEN {
                    proof {
                        lemma_utf8_len_prefix_le(t, (i - a) as int);
                        assert(t.subrange(0, (i - a) as int) == s.subrange(a as int, i as int));
                    }
                    return false;
                }
            }
            proof {
                assert(s.subrange(a as int, b as int) == t);
            }
            true
        },
    }
}

proof fn lemma_utf8_len_prefix_le(t: Seq<char>, k: int)
    requires
        0 <= k <= t.len(),
    ensures
        utf8_len(t.subrange(0, k)) <= utf8_len(t),
    decreases t.len() - k,
{
    if k < t.len() {
        lemma_utf8_len_prefix_le(t, k + 1);
        assert(t.subrange(0, k + 1).drop_last() == t.subrange(0, k));
    } else {
        assert(t.subrange(0, k) == t);
    }
}

} // verus!
