//! A stand-in effect runner that answers every effect as real hardware and
//! a real backend would, on a fixed schedule; for driving the workflow in
//! development and tests.
use vstd::prelude::*;
use vstd::string::StringExecFns;
use crate::state_machine::{Effect, Event, RecordingId};

verus! {

/// Lower-case hyphenated text of a UUID given by its 128 bits.
pub uninterp spec fn uuid_text(bits: u128) -> Seq<char>;

/// Relies on uuid's `Display` for `Uuid` (lower-case hyphenated form, 36
/// characters) applied to `Uuid::from_u128`.
#[verifier::external_body]
fn uuid_string(bits: u128) -> (r: String)
    ensures
        r@ == uuid_text(bits),
        r@.len() == 36,
{
    uuid::Uuid::from_u128(bits).to_string()
}

/// An event to deliver `delay_ms` after the previous one of its schedule
/// (the first one: after the effect was received).
#[derive(Debug, Clone)]
pub struct Scheduled {
    pub delay_ms: u64,
    pub event: Event,
}

/// Ticks the stand-in sends for a recording.
pub const STUB_TICKS: u64 = 60;

/// The stand-in runner; it holds nothing.
#[derive(Debug, Clone, Copy)]
pub struct StubEffectRunner {}

pub open spec fn stub_wav_text(id: RecordingId) -> Seq<char> {
    "/tmp/vokey_"@ + uuid_text(id.value) + ".wav"@
}

pub open spec fn simulated_text(wav_path: Seq<char>) -> Seq<char> {
    "[Simulated transcription from "@ + wav_path + "]"@
}

/// The stand-in's file name for a recording whose id reads `id_text`.
pub fn stub_wav_path(id_text: &str) -> (r: String)
    ensures
        r@ == "/tmp/vokey_"@ + id_text@ + ".wav"@,
{
    proof {
        reveal_strlit("/tmp/vokey_");
        reveal_strlit(".wav");
    }
    String::from_str("/tmp/vokey_").concat(id_text).concat(".wav")
}

impl StubEffectRunner {
    pub fn new() -> (r: StubEffectRunner) {
        StubEffectRunner {}
    }

    /// The events that answer `effect`, in order.
    pub fn replies(&self, effect: Effect) -> (r: Vec<Scheduled>)
        ensures
            effect is StartAudio ==> r@.len() == 1 && r@[0].delay_ms == 100 && r@[0].event is AudioStartOk
                && r@[0].event->AudioStartOk_id == effect->StartAudio_id
                && r@[0].event->AudioStartOk_wav_path@ == stub_wav_text(effect->StartAudio_id),
            effect is StopAudio ==> r@.len() == 1 && r@[0].delay_ms == 50 && r@[0].event == (
            Event::AudioStopOk { id: effect->StopAudio_id }),
            effect is StartTranscription ==> r@.len() == 1 && r@[0].delay_ms == 500
                && r@[0].event is TranscribeOk && r@[0].event->TranscribeOk_id
                == effect->StartTranscription_id && r@[0].event->TranscribeOk_text@ == simulated_text(
                effect->StartTranscription_wav_path@,
            ),
            effect is StartDoneTimeout ==> r@.len() == 1 && r@[0].delay_ms
                == effect->StartDoneTimeout_duration_ms && r@[0].event == (Event::DoneTimeout {
                id: effect->StartDoneTimeout_id,
            }),
            effect is StartRecordingTick ==> r@.len() == STUB_TICKS && forall|i: int|
                0 <= i < r@.len() ==> (#[trigger] r@[i]).delay_ms == 1000 && r@[i].event == (
                Event::RecordingTick { id: effect->StartRecordingTick_id }),
            effect is CopyToClipboard || effect is Cleanup || effect is EmitUi ==> r@.len() == 0,
    {
        let mut out: Vec<Scheduled> = Vec::new();
        match effect {
            Effect::StartAudio { id } => {
                let wav_path = stub_wav_path(uuid_string(id.value).as_str());
                out.push(Scheduled { delay_ms: 100, event: Event::AudioStartOk { id, wav_path } });
            },
            Effect::StopAudio { id } => {
                out.push(Scheduled { delay_ms: 50, event: Event::AudioStopOk { id } });
            },
            Effect::StartTranscription { id, wav_path } => {
                proof {
                    reveal_strlit("[Simulated transcription from ");
                    reveal_strlit("]");
                }
                let text = String::from_str("[Simulated transcription from ").concat(
                    wav_path.as_str(),
                ).concat("]");
                out.push(Scheduled { delay_ms: 500, event: Event::TranscribeOk { id, text } });
            },
            Effect::StartDoneTimeout { id, duration_ms } => {
                out.push(Scheduled { delay_ms: duration_ms, event: Event::DoneTimeout { id } });
            },
            Effect::StartRecordingTick { id } => {
                let mut k: u64 = 0;
                while k < STUB_TICKS
                    invariant
                        k <= STUB_TICKS,
                        out@.len() == k,
                        forall|i: int|
                            0 <= i < out@.len() ==> (#[trigger] out@[i]).delay_ms == 1000
                                && out@[i].event == (Event::RecordingTick { id }),
                    decreases STUB_TICKS - k,
                {
                    out.push(Scheduled { delay_ms: 1000, event: Event::RecordingTick { id } });
                    k = k + 1;
                }
            },
            Effect::CopyToClipboard { .. } | Effect::Cleanup { .. } | Effect::EmitUi => {},
        }
        out
    }
}

} // verus!
