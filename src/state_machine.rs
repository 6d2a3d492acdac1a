//! The recording workflow as a pure reducer: `(state, event) -> (state, effects)`.
//!
//! Everything that the reducer would otherwise take from the world (a fresh
//! recording id, the current instant, the time elapsed since recording began)
//! is gathered into a [`StepContext`], so that [`reduce_with`] is a function of
//! its arguments alone and [`transition`] states it exactly.
use vstd::prelude::*;
use vstd::string::StringExecFns;
use std::time::Instant;

verus! {

/// Recordings longer than this are stopped by the periodic tick.
pub const MAX_RECORDING_MS: u64 = 120_000;

/// How long `Done` and `NoSpeech` stay visible before they dismiss themselves.
pub const DONE_TIMEOUT_MS: u64 = 3000;

#[verifier::external_type_specification]
#[verifier::external_body]
pub struct ExInstant(std::time::Instant);

/// Relies on `Instant: Copy` (std derives `Clone, Copy`): a clone is the same instant.
pub assume_specification[ <std::time::Instant as std::clone::Clone>::clone ](
    t: &std::time::Instant,
) -> (r: std::time::Instant)
    ensures
        r == *t,
;

/// Correlation id of one recording attempt (the 128 bits of a UUID).
#[derive(Clone, Copy, Debug, PartialEq, Eq, Structural, Hash)]
pub struct RecordingId {
    pub value: u128,
}

/// Relies on uuid::Uuid::new_v4: a random version-4 UUID, read as its 128 bits.
/// Nothing is promised of the value.
#[verifier::external_body]
fn random_uuid_bits() -> (r: u128) {
    uuid::Uuid::new_v4().as_u128()
}

/// Relies on std::time::Instant::now: the current monotonic instant.
#[verifier::external_body]
pub(crate) fn instant_now() -> (r: Instant) {
    Instant::now()
}

/// Relies on std::time::Instant::elapsed: the time since `t`, read as whole
/// milliseconds.
#[verifier::external_body]
fn elapsed_millis(t: &Instant) -> (r: u128) {
    t.elapsed().as_millis()
}

/// Milliseconds since `t`, saturated to `u64`.
pub(crate) fn millis_since(t: &Instant) -> (r: u64) {
    let ms = elapsed_millis(t);
    if ms > u64::MAX as u128 {
        u64::MAX
    } else {
        ms as u64
    }
}

impl RecordingId {
    pub fn from_u128(value: u128) -> (r: RecordingId)
        ensures
            r.value == value,
    {
        RecordingId { value }
    }

    pub fn as_u128(&self) -> (r: u128)
        ensures
            r == self.value,
    {
        self.value
    }

    /// A new random id (a version-4 UUID).
    pub fn generate() -> (r: RecordingId) {
        RecordingId { value: random_uuid_bits() }
    }
}

/// Which check decided that a recording held no speech.
#[derive(Clone, Copy, Debug, PartialEq, Eq, Structural)]
pub enum NoSpeechSource {
    DurationThreshold,
    ShortClipVad,
    OpenAiNoSpeechProb,
}

pub open spec fn source_label(s: NoSpeechSource) -> Seq<char> {
    match s {
        NoSpeechSource::DurationThreshold => "duration"@,
        NoSpeechSource::ShortClipVad => "vad"@,
        NoSpeechSource::OpenAiNoSpeechProb => "openai"@,
    }
}

impl NoSpeechSource {
    pub fn as_str(&self) -> (r: &'static str)
        ensures
            r@ == source_label(*self),
    {
        proof {
            reveal_strlit("duration");
            reveal_strlit("vad");
            reveal_strlit("openai");
        }
        match self {
            NoSpeechSource::DurationThreshold => "duration",
            NoSpeechSource::ShortClipVad => "vad",
            NoSpeechSource::OpenAiNoSpeechProb => "openai",
        }
    }
}

/// The workflow state; the reducer is its only writer.
#[derive(Clone, Debug)]
pub enum State {
    Idle,
    Arming { recording_id: RecordingId },
    Recording {
        recording_id: RecordingId,
        wav_path: String,
        started_at: Instant,
        /// Text accumulated from streaming deltas.
        partial_text: Option<String>,
    },
    Stopping { recording_id: RecordingId, wav_path: String, partial_text: Option<String> },
    Transcribing { recording_id: RecordingId, wav_path: String, partial_text: Option<String> },
    NoSpeech {
        recording_id: RecordingId,
        wav_path: String,
        source: NoSpeechSource,
        message: String,
    },
    Done { recording_id: RecordingId, text: String },
    Error { message: String, last_good_text: Option<String> },
}

/// What can happen to the workflow.
#[derive(Clone, Debug)]
pub enum Event {
    HotkeyToggle,
    Cancel,
    Exit,
    DoneTimeout { id: RecordingId },
    RecordingTick { id: RecordingId },
    AudioStartOk { id: RecordingId, wav_path: String },
    AudioStartFail { id: RecordingId, err: String },
    AudioStopOk { id: RecordingId },
    AudioStopFail { id: RecordingId, err: String },
    AudioStreamError { id: RecordingId, err: String },
    NoSpeechDetected { id: RecordingId, source: NoSpeechSource, message: String },
    TranscribeOk { id: RecordingId, text: String },
    TranscribeFail { id: RecordingId, err: String },
    ForceError { message: String },
    PartialDelta { id: RecordingId, delta: String },
    PostProcessOk { id: RecordingId, text: String },
    PostProcessFail { id: RecordingId, err: String },
}

/// Work that the reducer asks the effect runner to do.
#[derive(Clone, Debug)]
pub enum Effect {
    StartAudio { id: RecordingId },
    StopAudio { id: RecordingId },
    StartTranscription { id: RecordingId, wav_path: String },
    CopyToClipboard { id: RecordingId, text: String },
    StartDoneTimeout { id: RecordingId, duration_ms: u64 },
    StartRecordingTick { id: RecordingId },
    Cleanup { id: RecordingId, wav_path: Option<String> },
    EmitUi,
}

/// What one step takes from outside the workflow.
#[derive(Clone, Copy, Debug)]
pub struct StepContext {
    /// The id that a new recording receives.
    pub fresh_id: RecordingId,
    /// When a recording that starts now is said to have started.
    pub now: Instant,
    /// Milliseconds since the current recording started.
    pub elapsed_ms: u64,
}

/// The id that the current state tracks, if any.
pub open spec fn current_id(s: State) -> Option<RecordingId> {
    match s {
        State::Arming { recording_id } => Some(recording_id),
        State::Recording { recording_id, .. } => Some(recording_id),
        State::Stopping { recording_id, .. } => Some(recording_id),
        State::Transcribing { recording_id, .. } => Some(recording_id),
        State::NoSpeech { recording_id, .. } => Some(recording_id),
        State::Done { recording_id, .. } => Some(recording_id),
        State::Idle | State::Error { .. } => None,
    }
}

/// The id that an event carries, if any.
pub open spec fn event_id(e: Event) -> Option<RecordingId> {
    match e {
        Event::DoneTimeout { id } => Some(id),
        Event::RecordingTick { id } => Some(id),
        Event::AudioStartOk { id, .. } => Some(id),
        Event::AudioStartFail { id, .. } => Some(id),
        Event::AudioStopOk { id } => Some(id),
        Event::AudioStopFail { id, .. } => Some(id),
        Event::AudioStreamError { id, .. } => Some(id),
        Event::NoSpeechDetected { id, .. } => Some(id),
        Event::TranscribeOk { id, .. } => Some(id),
        Event::TranscribeFail { id, .. } => Some(id),
        Event::PartialDelta { id, .. } => Some(id),
        Event::PostProcessOk { id, .. } => Some(id),
        Event::PostProcessFail { id, .. } => Some(id),
        _ => None,
    }
}

/// An event that names a recording other than the one the state tracks.
pub open spec fn is_stale(s: State, e: Event) -> bool {
    event_id(e) is Some && current_id(s) != event_id(e)
}

pub open spec fn unchanged(s: State) -> (State, Seq<Effect>) {
    (s, Seq::empty())
}

pub open spec fn start_new(c: StepContext) -> (State, Seq<Effect>) {
    (
        State::Arming { recording_id: c.fresh_id },
        seq![Effect::StartAudio { id: c.fresh_id }, Effect::EmitUi],
    )
}

pub open spec fn appended_partial(existing: Option<String>, delta: String) -> Seq<char> {
    match existing {
        Some(t) => t@ + " "@ + delta@,
        None => delta@,
    }
}

/// The reducer's transition table. Events that name another recording are
/// dropped before any row is consulted.
pub open spec fn transition(s: State, e: Event, c: StepContext) -> (State, Seq<Effect>) {
    if is_stale(s, e) {
        unchanged(s)
    } else {
        match (s, e) {
            (State::Idle, Event::HotkeyToggle) => start_new(c),
            (State::Done { .. }, Event::HotkeyToggle) => start_new(c),
            (State::NoSpeech { .. }, Event::HotkeyToggle) => start_new(c),
            (State::Error { .. }, Event::HotkeyToggle) => start_new(c),
            (State::Arming { recording_id }, Event::AudioStartOk { wav_path, .. }) => (
                State::Recording {
                    recording_id,
                    wav_path,
                    started_at: c.now,
                    partial_text: None,
                },
                seq![Effect::StartRecordingTick { id: recording_id }, Effect::EmitUi],
            ),
            (State::Arming { recording_id }, Event::AudioStartFail { err, .. }) => (
                State::Error { message: err, last_good_text: None },
                seq![Effect::Cleanup { id: recording_id, wav_path: None }, Effect::EmitUi],
            ),
            (State::Arming { recording_id }, Event::Cancel) => (
                State::Idle,
                seq![
                    Effect::StopAudio { id: recording_id },
                    Effect::Cleanup { id: recording_id, wav_path: None },
                    Effect::EmitUi,
                ],
            ),
            (State::Recording { recording_id, wav_path, partial_text, .. }, Event::HotkeyToggle) => (
                State::Stopping { recording_id, wav_path, partial_text },
                seq![Effect::StopAudio { id: recording_id }, Effect::EmitUi],
            ),
            (State::Recording { recording_id, wav_path, .. }, Event::Cancel) => (
                State::Idle,
                seq![
                    Effect::StopAudio { id: recording_id },
                    Effect::Cleanup { id: recording_id, wav_path: Some(wav_path) },
                    Effect::EmitUi,
                ],
            ),
            (State::Recording { recording_id, wav_path, partial_text, .. }, Event::RecordingTick { .. }) => {
                if c.elapsed_ms >= MAX_RECORDING_MS {
                    (
                        State::Stopping { recording_id, wav_path, partial_text },
                        seq![Effect::StopAudio { id: recording_id }, Effect::EmitUi],
                    )
                } else {
                    (s, seq![Effect::EmitUi])
                }
            },
            (
                State::Recording { recording_id, wav_path, started_at, partial_text },
                Event::PartialDelta { delta, .. },
            ) => (
                State::Recording {
                    recording_id,
                    wav_path,
                    started_at,
                    partial_text: Some(new_string(appended_partial(partial_text, delta))),
                },
                seq![Effect::EmitUi],
            ),
            (
                State::Recording { recording_id, wav_path, partial_text, .. },
                Event::AudioStreamError { err, .. },
            ) => (
                State::Error {
                    message: new_string("Audio stream failed: "@ + err@),
                    last_good_text: partial_text,
                },
                seq![
                    Effect::StopAudio { id: recording_id },
                    Effect::Cleanup { id: recording_id, wav_path: Some(wav_path) },
                    Effect::EmitUi,
                ],
            ),
            (State::Stopping { recording_id, wav_path, partial_text }, Event::AudioStopOk { .. }) => (
                State::Transcribing { recording_id, wav_path, partial_text },
                seq![
                    Effect::StartTranscription { id: recording_id, wav_path },
                    Effect::EmitUi,
                ],
            ),
            (
                State::Stopping { recording_id, wav_path, .. },
                Event::NoSpeechDetected { source, message, .. },
            ) => (
                State::NoSpeech { recording_id, wav_path, source, message },
                seq![
                    Effect::StartDoneTimeout { id: recording_id, duration_ms: DONE_TIMEOUT_MS },
                    Effect::EmitUi,
                ],
            ),
            (
                State::Stopping { recording_id, wav_path, partial_text },
                Event::AudioStopFail { err, .. },
            ) => (
                State::Error { message: err, last_good_text: partial_text },
                seq![Effect::Cleanup { id: recording_id, wav_path: Some(wav_path) }, Effect::EmitUi],
            ),
            (State::Transcribing { recording_id, .. }, Event::TranscribeOk { text, .. }) => (
                State::Done { recording_id, text },
                seq![
                    Effect::CopyToClipboard { id: recording_id, text },
                    Effect::StartDoneTimeout { id: recording_id, duration_ms: DONE_TIMEOUT_MS },
                    Effect::EmitUi,
                ],
            ),
            (
                State::Transcribing { recording_id, wav_path, .. },
                Event::NoSpeechDetected { source, message, .. },
            ) => (
                State::NoSpeech { recording_id, wav_path, source, message },
                seq![
                    Effect::StartDoneTimeout { id: recording_id, duration_ms: DONE_TIMEOUT_MS },
                    Effect::EmitUi,
                ],
            ),
            (
                State::Transcribing { recording_id, wav_path, partial_text },
                Event::TranscribeFail { err, .. },
            ) => (
                State::Error { message: err, last_good_text: partial_text },
                seq![Effect::Cleanup { id: recording_id, wav_path: Some(wav_path) }, Effect::EmitUi],
            ),
            (State::Stopping { recording_id, wav_path, .. }, Event::Cancel) => (
                State::Idle,
                seq![
                    Effect::StopAudio { id: recording_id },
                    Effect::Cleanup { id: recording_id, wav_path: Some(wav_path) },
                    Effect::EmitUi,
                ],
            ),
            (State::Transcribing { recording_id, wav_path, .. }, Event::Cancel) => (
                State::Idle,
                seq![
                    Effect::StopAudio { id: recording_id },
                    Effect::Cleanup { id: recording_id, wav_path: Some(wav_path) },
                    Effect::EmitUi,
                ],
            ),
            (State::Done { recording_id, .. }, Event::DoneTimeout { .. }) => (
                State::Idle,
                seq![Effect::Cleanup { id: recording_id, wav_path: None }, Effect::EmitUi],
            ),
            (State::NoSpeech { recording_id, wav_path, .. }, Event::DoneTimeout { .. }) => (
                State::Idle,
                seq![Effect::Cleanup { id: recording_id, wav_path: Some(wav_path) }, Effect::EmitUi],
            ),
            (State::Error { .. }, Event::Cancel) => (State::Idle, seq![Effect::EmitUi]),
            (_, Event::ForceError { message }) => (
                State::Error { message, last_good_text: None },
                seq![Effect::EmitUi],
            ),
            _ => unchanged(s),
        }
    }
}

/// A `String` whose characters are `s`.
pub open spec fn new_string(s: Seq<char>) -> String {
    choose|t: String| t@ == s
}

pub open spec fn same_opt_text(a: Option<String>, b: Option<String>) -> bool {
    match (a, b) {
        (Some(x), Some(y)) => x@ == y@,
        (None, None) => true,
        _ => false,
    }
}

/// Equal states, where the texts are compared by their characters.
pub open spec fn same_state(a: State, b: State) -> bool {
    match (a, b) {
        (
            State::Recording { recording_id: i1, wav_path: w1, started_at: t1, partial_text: p1 },
            State::Recording { recording_id: i2, wav_path: w2, started_at: t2, partial_text: p2 },
        ) => i1 == i2 && w1 == w2 && t1 == t2 && same_opt_text(p1, p2),
        (
            State::Error { message: m1, last_good_text: l1 },
            State::Error { message: m2, last_good_text: l2 },
        ) => m1@ == m2@ && l1 == l2,
        _ => a == b,
    }
}


fn state_id(s: &State) -> (r: Option<RecordingId>)
    ensures
        r == current_id(*s),
{
    match s {
        State::Arming { recording_id } => Some(*recording_id),
        State::Recording { recording_id, .. } => Some(*recording_id),
        State::Stopping { recording_id, .. } => Some(*recording_id),
        State::Transcribing { recording_id, .. } => Some(*recording_id),
        State::NoSpeech { recording_id, .. } => Some(*recording_id),
        State::Done { recording_id, .. } => Some(*recording_id),
        State::Idle | State::Error { .. } => None,
    }
}

fn id_of_event(e: &Event) -> (r: Option<RecordingId>)
    ensures
        r == event_id(*e),
{
    match e {
        Event::DoneTimeout { id } => Some(*id),
        Event::RecordingTick { id } => Some(*id),
        Event::AudioStartOk { id, .. } => Some(*id),
        Event::AudioStartFail { id, .. } => Some(*id),
        Event::AudioStopOk { id } => Some(*id),
        Event::AudioStopFail { id, .. } => Some(*id),
        Event::AudioStreamError { id, .. } => Some(*id),
        Event::NoSpeechDetected { id, .. } => Some(*id),
        Event::TranscribeOk { id, .. } => Some(*id),
        Event::TranscribeFail { id, .. } => Some(*id),
        Event::PartialDelta { id, .. } => Some(*id),
        Event::PostProcessOk { id, .. } => Some(*id),
        Event::PostProcessFail { id, .. } => Some(*id),
        _ => None,
    }
}

fn stale(s: &State, e: &Event) -> (r: bool)
    ensures
        r == is_stale(*s, *e),
{
    match (id_of_event(e), state_id(s)) {
        (Some(eid), Some(cid)) => eid.value != cid.value,
        (Some(_), None) => true,
        (None, _) => false,
    }
}

fn copy_text(o: &Option<String>) -> (r: Option<String>)
    ensures
        r == *o,
{
    match o {
        Some(t) => Some(t.clone()),
        None => None,
    }
}

fn copy_state(s: &State) -> (r: State)
    ensures
        r == *s,
{
    match s {
        State::Idle => State::Idle,
        State::Arming { recording_id } => State::Arming { recording_id: *recording_id },
        State::Recording { recording_id, wav_path, started_at, partial_text } => State::Recording {
            recording_id: *recording_id,
            wav_path: wav_path.clone(),
            started_at: *started_at,
            partial_text: copy_text(partial_text),
        },
        State::Stopping { recording_id, wav_path, partial_text } => State::Stopping {
            recording_id: *recording_id,
            wav_path: wav_path.clone(),
            partial_text: copy_text(partial_text),
        },
        State::Transcribing { recording_id, wav_path, partial_text } => State::Transcribing {
            recording_id: *recording_id,
            wav_path: wav_path.clone(),
            partial_text: copy_text(partial_text),
        },
        State::NoSpeech { recording_id, wav_path, source, message } => State::NoSpeech {
            recording_id: *recording_id,
            wav_path: wav_path.clone(),
            source: *source,
            message: message.clone(),
        },
        State::Done { recording_id, text } => State::Done {
            recording_id: *recording_id,
            text: text.clone(),
        },
        State::Error { message, last_good_text } => State::Error {
            message: message.clone(),
            last_good_text: copy_text(last_good_text),
        },
    }
}

fn effects1(a: Effect) -> (r: Vec<Effect>)
    ensures
        r@ == seq![a],
{
    let mut v: Vec<Effect> = Vec::new();
    v.push(a);
    v
}

fn effects2(a: Effect, b: Effect) -> (r: Vec<Effect>)
    ensures
        r@ == seq![a, b],
{
    let mut v: Vec<Effect> = Vec::new();
    v.push(a);
    v.push(b);
    v
}

fn effects3(a: Effect, b: Effect, c: Effect) -> (r: Vec<Effect>)
    ensures
        r@ == seq![a, b, c],
{
    let mut v: Vec<Effect> = Vec::new();
    v.push(a);
    v.push(b);
    v.push(c);
    v
}

fn append_partial(existing: &Option<String>, delta: String) -> (r: String)
    ensures
        r@ == appended_partial(*existing, delta),
{
    proof {
        reveal_strlit(" ");
    }
    match existing {
        Some(t) => t.clone().concat(" ").concat(delta.as_str()),
        None => delta,
    }
}

fn stream_error_message(err: String) -> (r: String)
    ensures
        r@ == "Audio stream failed: "@ + err@,
{
    proof {
        reveal_strlit("Audio stream failed: ");
    }
    String::from_str("Audio stream failed: ").concat(err.as_str())
}

/// One step of the workflow, with everything taken from outside in `ctx`.
pub fn reduce_with(state: &State, event: Event, ctx: &StepContext) -> (r: (State, Vec<Effect>))
    ensures
        same_state(r.0, transition(*state, event, *ctx).0),
        r.1@ == transition(*state, event, *ctx).1,
        !built_text(*state, event) ==> r.0 == transition(*state, event, *ctx).0,
{
    if stale(state, &event) {
        return (copy_state(state), Vec::new());
    }
    let ghost e0 = event;
    match event {
        Event::HotkeyToggle => match state {
            State::Idle | State::Done { .. } | State::NoSpeech { .. } | State::Error { .. } => {
                let id = ctx.fresh_id;
                (State::Arming { recording_id: id }, effects2(Effect::StartAudio { id }, Effect::EmitUi))
            },
            State::Recording { recording_id, wav_path, partial_text, .. } => (
                State::Stopping {
                    recording_id: *recording_id,
                    wav_path: wav_path.clone(),
                    partial_text: copy_text(partial_text),
                },
                effects2(Effect::StopAudio { id: *recording_id }, Effect::EmitUi),
            ),
            _ => (copy_state(state), Vec::new()),
        },
        Event::Cancel => match state {
            State::Arming { recording_id } => (
                State::Idle,
                effects3(
                    Effect::StopAudio { id: *recording_id },
                    Effect::Cleanup { id: *recording_id, wav_path: None },
                    Effect::EmitUi,
                ),
            ),
            State::Recording { recording_id, wav_path, .. }
            | State::Stopping { recording_id, wav_path, .. }
            | State::Transcribing { recording_id, wav_path, .. } => (
                State::Idle,
                effects3(
                    Effect::StopAudio { id: *recording_id },
                    Effect::Cleanup { id: *recording_id, wav_path: Some(wav_path.clone()) },
                    Effect::EmitUi,
                ),
            ),
            State::Error { .. } => (State::Idle, effects1(Effect::EmitUi)),
            _ => (copy_state(state), Vec::new()),
        },
        Event::AudioStartOk { id: _, wav_path } => match state {
            State::Arming { recording_id } => (
                State::Recording {
                    recording_id: *recording_id,
                    wav_path,
                    started_at: ctx.now,
                    partial_text: None,
                },
                effects2(Effect::StartRecordingTick { id: *recording_id }, Effect::EmitUi),
            ),
            _ => (copy_state(state), Vec::new()),
        },
        Event::AudioStartFail { id: _, err } => match state {
            State::Arming { recording_id } => (
                State::Error { message: err, last_good_text: None },
                effects2(Effect::Cleanup { id: *recording_id, wav_path: None }, Effect::EmitUi),
            ),
            _ => (copy_state(state), Vec::new()),
        },
        Event::RecordingTick { .. } => match state {
            State::Recording { recording_id, wav_path, partial_text, .. } => {
                if ctx.elapsed_ms >= MAX_RECORDING_MS {
                    (
                        State::Stopping {
                            recording_id: *recording_id,
                            wav_path: wav_path.clone(),
                            partial_text: copy_text(partial_text),
                        },
                        effects2(Effect::StopAudio { id: *recording_id }, Effect::EmitUi),
                    )
                } else {
                    (copy_state(state), effects1(Effect::EmitUi))
                }
            },
            _ => (copy_state(state), Vec::new()),
        },
        Event::PartialDelta { id: _, delta } => match state {
            State::Recording { recording_id, wav_path, started_at, partial_text } => {
                let text = append_partial(partial_text, delta);
                (
                    State::Recording {
                        recording_id: *recording_id,
                        wav_path: wav_path.clone(),
                        started_at: *started_at,
                        partial_text: Some(text),
                    },
                    effects1(Effect::EmitUi),
                )
            },
            _ => (copy_state(state), Vec::new()),
        },
        Event::AudioStreamError { id: _, err } => match state {
            State::Recording { recording_id, wav_path, partial_text, .. } => {
                let message = stream_error_message(err);
                (
                    State::Error { message, last_good_text: copy_text(partial_text) },
                    effects3(
                        Effect::StopAudio { id: *recording_id },
                        Effect::Cleanup { id: *recording_id, wav_path: Some(wav_path.clone()) },
                        Effect::EmitUi,
                    ),
                )
            },
            _ => (copy_state(state), Vec::new()),
        },
        Event::AudioStopOk { .. } => match state {
            State::Stopping { recording_id, wav_path, partial_text } => (
                State::Transcribing {
                    recording_id: *recording_id,
                    wav_path: wav_path.clone(),
                    partial_text: copy_text(partial_text),
                },
                effects2(
                    Effect::StartTranscription { id: *recording_id, wav_path: wav_path.clone() },
                    Effect::EmitUi,
                ),
            ),
            _ => (copy_state(state), Vec::new()),
        },
        Event::NoSpeechDetected { id: _, source, message } => match state {
            State::Stopping { recording_id, wav_path, .. }
            | State::Transcribing { recording_id, wav_path, .. } => (
                State::NoSpeech {
                    recording_id: *recording_id,
                    wav_path: wav_path.clone(),
                    source,
                    message,
                },
                effects2(
                    Effect::StartDoneTimeout { id: *recording_id, duration_ms: DONE_TIMEOUT_MS },
                    Effect::EmitUi,
                ),
            ),
            _ => (copy_state(state), Vec::new()),
        },
        Event::AudioStopFail { id: _, err } => match state {
            State::Stopping { recording_id, wav_path, partial_text } => (
                State::Error { message: err, last_good_text: copy_text(partial_text) },
                effects2(
                    Effect::Cleanup { id: *recording_id, wav_path: Some(wav_path.clone()) },
                    Effect::EmitUi,
                ),
            ),
            _ => (copy_state(state), Vec::new()),
        },
        Event::TranscribeOk { id: _, text } => match state {
            State::Transcribing { recording_id, .. } => (
                State::Done { recording_id: *recording_id, text: text.clone() },
                effects3(
                    Effect::CopyToClipboard { id: *recording_id, text },
                    Effect::StartDoneTimeout { id: *recording_id, duration_ms: DONE_TIMEOUT_MS },
                    Effect::EmitUi,
                ),
            ),
            _ => (copy_state(state), Vec::new()),
        },
        Event::TranscribeFail { id: _, err } => match state {
            State::Transcribing { recording_id, wav_path, partial_text } => (
                State::Error { message: err, last_good_text: copy_text(partial_text) },
                effects2(
                    Effect::Cleanup { id: *recording_id, wav_path: Some(wav_path.clone()) },
                    Effect::EmitUi,
                ),
            ),
            _ => (copy_state(state), Vec::new()),
        },
        Event::DoneTimeout { .. } => match state {
            State::Done { recording_id, .. } => (
                State::Idle,
                effects2(Effect::Cleanup { id: *recording_id, wav_path: None }, Effect::EmitUi),
            ),
            State::NoSpeech { recording_id, wav_path, .. } => (
                State::Idle,
                effects2(
                    Effect::Cleanup { id: *recording_id, wav_path: Some(wav_path.clone()) },
                    Effect::EmitUi,
                ),
            ),
            _ => (copy_state(state), Vec::new()),
        },
        Event::ForceError { message } => (
            State::Error { message, last_good_text: None },
            effects1(Effect::EmitUi),
        ),
        Event::Exit | Event::PostProcessOk { .. } | Event::PostProcessFail { .. } => (
            copy_state(state),
            Vec::new(),
        ),
    }
}

/// The steps whose new state holds a text built from others.
pub open spec fn built_text(s: State, e: Event) -> bool {
    !is_stale(s, e) && s is Recording && (e is PartialDelta || e is AudioStreamError)
}

/// `next` and `effects` are what one step of the workflow makes of `s` and
/// `e` in the context `c`.
pub open spec fn is_step(s: State, e: Event, c: StepContext, next: State, effects: Seq<Effect>) -> bool {
    &&& same_state(next, transition(s, e, c).0)
    &&& effects == transition(s, e, c).1
    &&& !built_text(s, e) ==> next == transition(s, e, c).0
}

/// Relies on std::time::Instant::now and uuid::Uuid::new_v4 (through the
/// functions above) for the step's context; every outcome of those is
/// covered by the `exists`.
pub fn reduce(state: &State, event: Event) -> (r: (State, Vec<Effect>))
    ensures
        exists|c: StepContext| #[trigger] is_step(*state, event, c, r.0, r.1@),
{
    let elapsed_ms = match state {
        State::Recording { started_at, .. } => millis_since(started_at),
        _ => 0,
    };
    let ctx = StepContext { fresh_id: RecordingId::generate(), now: instant_now(), elapsed_ms };
    let r = reduce_with(state, event, &ctx);
    assert(is_step(*state, event, ctx, r.0, r.1@));
    r
}

/// An event that names a recording other than the tracked one changes
/// nothing and asks for nothing.
pub proof fn lemma_stale_event_ignored(s: State, e: Event, c: StepContext)
    requires
        event_id(e) is Some,
        current_id(s) != event_id(e),
    ensures
        transition(s, e, c) == (s, Seq::<Effect>::empty()),
{
}

/// `Cancel` from any state with work under way (`Arming`, `Recording`,
/// `Stopping`, `Transcribing`) returns to `Idle` and stops the audio; in
/// particular, from `Recording` or `Stopping` it never starts a transcription.
pub proof fn lemma_cancel_never_transcribes(s: State, c: StepContext)
    requires
        s is Arming || s is Recording || s is Stopping || s is Transcribing,
    ensures
        transition(s, Event::Cancel, c).0 == State::Idle,
        forall|i: int|
            0 <= i < transition(s, Event::Cancel, c).1.len() ==> !(
            #[trigger] transition(s, Event::Cancel, c).1[i] is StartTranscription),
        exists|i: int|
            0 <= i < transition(s, Event::Cancel, c).1.len() && #[trigger] transition(
                s,
                Event::Cancel,
                c,
            ).1[i] is StopAudio,
{
    assert(transition(s, Event::Cancel, c).1[0] is StopAudio);
}

/// The state and effects after feeding `events` one by one from `s`, each
/// step in context `c`.
pub open spec fn run_events(s: State, events: Seq<Event>, c: StepContext) -> (State, Seq<Effect>)
    decreases events.len(),
{
    if events.len() == 0 {
        (s, Seq::empty())
    } else {
        let first = transition(s, events[0], c);
        let rest = run_events(first.0, events.drop_first(), c);
        (rest.0, first.1 + rest.1)
    }
}

/// A whole sequence of events that all name other recordings than the
/// tracked one leaves the state as it was and asks for nothing.
pub proof fn lemma_stale_sequence_ignored(s: State, events: Seq<Event>, c: StepContext)
    requires
        forall|i: int|
            0 <= i < events.len() ==> event_id(#[trigger] events[i]) is Some && current_id(s)
                != event_id(events[i]),
    ensures
        run_events(s, events, c) == (s, Seq::<Effect>::empty()),
    decreases events.len(),
{
    if events.len() > 0 {
        lemma_stale_event_ignored(s, events[0], c);
        let rest = events.drop_first();
        assert forall|i: int| 0 <= i < rest.len() implies event_id(#[trigger] rest[i]) is Some
            && current_id(s) != event_id(rest[i]) by {
            assert(rest[i] == events[i + 1]);
        }
        lemma_stale_sequence_ignored(s, rest, c);
        assert(Seq::<Effect>::empty() + Seq::<Effect>::empty() =~= Seq::<Effect>::empty());
    }
}

/// `DoneTimeout` dismisses `Done` exactly when it names the finished
/// recording; otherwise nothing changes and nothing is asked for.
pub proof fn lemma_done_timeout(recording_id: RecordingId, text: String, id: RecordingId, c: StepContext)
    ensures
        ({
            let s = State::Done { recording_id, text };
            let t = transition(s, Event::DoneTimeout { id }, c);
            &&& (t.0 == State::Idle) <==> (id == recording_id)
            &&& id != recording_id ==> t == (s, Seq::<Effect>::empty())
        }),
{
}

/// Every step that changes the state asks the UI to refresh.
pub proof fn lemma_state_change_notifies(s: State, e: Event, c: StepContext)
    ensures
        transition(s, e, c).0 != s ==> transition(s, e, c).1.contains(Effect::EmitUi),
{
    let t = transition(s, e, c);
    if t.0 != s {
        assert(t.1.len() > 0);
        assert(t.1[t.1.len() - 1] == Effect::EmitUi);
    }
}

/// `ForceError` reaches `Error` from every state.
pub proof fn lemma_force_error(s: State, message: String, c: StepContext)
    ensures
        transition(s, Event::ForceError { message }, c).0 == (State::Error {
            message,
            last_good_text: None,
        }),
{
}

/// A tick at or past the ceiling stops a recording exactly as a second
/// trigger would.
pub proof fn lemma_tick_at_ceiling_stops(s: State, id: RecordingId, c: StepContext)
    requires
        s is Recording,
        current_id(s) == Some(id),
        c.elapsed_ms >= MAX_RECORDING_MS,
    ensures
        transition(s, Event::RecordingTick { id }, c) == transition(s, Event::HotkeyToggle, c),
{
}

} // verus!
