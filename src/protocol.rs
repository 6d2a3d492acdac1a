//! Messages of the realtime transcription protocol, as plain values.
//!
//! Each message is a JSON object tagged by its `type`; the JSON text itself
//! is produced and read at the connection's edge.
use vstd::prelude::*;
use base64::Engine;

verus! {

/// Endpoint of the realtime transcription service.
pub const REALTIME_API_URL: &'static str = "wss://api.openai.com/v1/realtime?model=gpt-4o-realtime-preview-2024-12-17";

/// Session settings sent in `session.update`.
#[derive(Debug, Clone)]
pub struct SessionConfig {
    pub modalities: Option<Vec<String>>,
    pub input_audio_format: Option<String>,
    pub input_audio_transcription: Option<TranscriptionConfig>,
    /// `None` leaves turn taking to this side (start and stop are explicit).
    pub turn_detection: Option<TurnDetection>,
}

#[derive(Debug, Clone)]
pub struct TranscriptionConfig {
    pub model: String,
}

#[derive(Debug, Clone)]
pub struct TurnDetection {
    pub detection_type: String,
}

/// Session description sent by the service.
#[derive(Debug, Clone)]
pub struct SessionInfo {
    pub id: String,
    pub model: String,
    pub modalities: Vec<String>,
}

/// Error description sent by the service.
#[derive(Debug, Clone)]
pub struct ErrorInfo {
    pub error_type: String,
    pub code: Option<String>,
    pub message: String,
}

/// The session settings this client always asks for: text only, PCM16
/// input, the given transcription model, no server-side turn detection.
pub open spec fn is_default_session(c: SessionConfig, model: Seq<char>) -> bool {
    &&& c.modalities is Some
    &&& c.modalities->0@.len() == 1
    &&& c.modalities->0@[0]@ == "text"@
    &&& c.input_audio_format is Some
    &&& c.input_audio_format->0@ == "pcm16"@
    &&& c.input_audio_transcription is Some
    &&& c.input_audio_transcription->0.model@ == model
    &&& c.turn_detection is None
}

impl Default for SessionConfig {
    fn default() -> (r: SessionConfig)
        ensures
            is_default_session(r, "whisper-1"@),
    {
        proof {
            reveal_strlit("text");
            reveal_strlit("pcm16");
            reveal_strlit("whisper-1");
        }
        let mut modalities: Vec<String> = Vec::new();
        modalities.push("text".to_owned());
        SessionConfig {
            modalities: Some(modalities),
            input_audio_format: Some("pcm16".to_owned()),
            input_audio_transcription: Some(TranscriptionConfig { model: "whisper-1".to_owned() }),
            turn_detection: None,
        }
    }
}

/// Messages this client sends.
#[derive(Debug, Clone)]
pub enum ClientMessage {
    /// `session.update`
    SessionUpdate { session: SessionConfig },
    /// `input_audio_buffer.append`, with base64 of little-endian PCM16.
    AudioAppend { audio: String },
    /// `input_audio_buffer.commit`
    AudioCommit,
    /// `input_audio_buffer.clear`
    AudioClear,
    /// `response.create`
    ResponseCreate,
}

/// The two little-endian bytes of each sample, in order.
pub open spec fn pcm16_le(samples: Seq<i16>) -> Seq<u8> {
    Seq::new(
        2 * samples.len(),
        |i: int|
            if i % 2 == 0 {
                (samples[i / 2] as u16 % 256) as u8
            } else {
                (samples[i / 2] as u16 / 256) as u8
            },
    )
}

/// Standard base64 (with padding) of `bytes`.
pub uninterp spec fn base64_standard(bytes: Seq<u8>) -> Seq<char>;

/// Relies on base64's `STANDARD.encode`: the padded standard alphabet, four
/// characters for every started group of three bytes. It panics only when
/// that length overflows `usize`.
#[verifier::external_body]
fn encode_base64(bytes: &[u8]) -> (r: String)
    requires
        4 * ((bytes@.len() + 2) / 3) <= usize::MAX,
    ensures
        r@ == base64_standard(bytes@),
        r@.len() == 4 * ((bytes@.len() + 2) / 3),
{
    base64::engine::general_purpose::STANDARD.encode(bytes)
}

/// Little-endian bytes of PCM16 samples.
pub fn pcm16_le_bytes(samples: &[i16]) -> (r: Vec<u8>)
    requires
        2 * samples@.len() <= usize::MAX,
    ensures
        r@ == pcm16_le(samples@),
{
    let mut out: Vec<u8> = Vec::new();
    let mut i: usize = 0;
    while i < samples.len()
        invariant
            i <= samples@.len(),
            2 * samples@.len() <= usize::MAX,
            out@.len() == 2 * i,
            forall|k: int| 0 <= k < 2 * i ==> out@[k] == #[trigger] pcm16_le(samples@)[k],
        decreases samples@.len() - i,
    {
        let u = samples[i] as u16;
        out.push((u % 256) as u8);
        out.push((u / 256) as u8);
        proof {
            assert((2 * i) / 2 == i as int);
            assert((2 * i + 1) / 2 == i as int);
            assert((2 * i) % 2 == 0);
            assert((2 * i + 1) % 2 == 1);
        }
        i = i + 1;
    }
    assert(out@ =~= pcm16_le(samples@));
    out
}

impl ClientMessage {
    /// `session.update` with the default session settings.
    pub fn session_update() -> (r: ClientMessage)
        ensures
            r is SessionUpdate,
            is_default_session(r->session, "whisper-1"@),
    {
        ClientMessage::SessionUpdate { session: SessionConfig::default() }
    }

    /// `input_audio_buffer.append` carrying `samples`.
    pub fn audio_append(samples: &[i16]) -> (r: ClientMessage)
        requires
            8 * samples@.len() + 8 <= usize::MAX,
        ensures
            r is AudioAppend,
            r->audio@ == base64_standard(pcm16_le(samples@)),
    {
        let bytes = pcm16_le_bytes(samples);
        assert(4 * ((bytes@.len() + 2) / 3) <= usize::MAX);
        ClientMessage::AudioAppend { audio: encode_base64(bytes.as_slice()) }
    }

    pub fn audio_commit() -> (r: ClientMessage)
        ensures
            r is AudioCommit,
    {
        ClientMessage::AudioCommit
    }

    pub fn audio_clear() -> (r: ClientMessage)
        ensures
            r is AudioClear,
    {
        ClientMessage::AudioClear
    }
}

/// Messages the service sends; any other `type` reads as `Unknown`.
#[derive(Debug, Clone)]
pub enum ServerMessage {
    /// `session.created`
    SessionCreated { session: SessionInfo },
    /// `session.updated`
    SessionUpdated { session: SessionInfo },
    /// `error`
    Error { error: ErrorInfo },
    /// `conversation.item.input_audio_transcription.delta`
    TranscriptDelta { delta: String },
    /// `conversation.item.input_audio_transcription.completed`
    TranscriptCompleted { transcript: String },
    /// `input_audio_buffer.committed`
    AudioCommitted { previous_item_id: Option<String>, item_id: Option<String> },
    /// `input_audio_buffer.cleared`
    AudioCleared,
    /// `input_audio_buffer.speech_started`
    SpeechStarted { audio_start_ms: Option<u64> },
    /// `input_audio_buffer.speech_stopped`
    SpeechStopped { audio_end_ms: Option<u64> },
    Unknown,
}

impl ServerMessage {
    pub fn is_error(&self) -> (r: bool)
        ensures
            r == self is Error,
    {
        match self {
            ServerMessage::Error { .. } => true,
            _ => false,
        }
    }

    pub fn error_info(&self) -> (r: Option<&ErrorInfo>)
        ensures
            r is Some == self is Error,
            r is Some ==> *r->0 == self->error,
    {
        match self {
            ServerMessage::Error { error } => Some(error),
            _ => None,
        }
    }

    /// The session id of `session.created` and `session.updated`.
    pub fn session_id(&self) -> (r: Option<&str>)
        ensures
            r is Some == (self is SessionCreated || self is SessionUpdated),
            self is SessionCreated ==> r->0@ == self->SessionCreated_session.id@,
            self is SessionUpdated ==> r->0@ == self->SessionUpdated_session.id@,
    {
        match self {
            ServerMessage::SessionCreated { session } => Some(session.id.as_str()),
            ServerMessage::SessionUpdated { session } => Some(session.id.as_str()),
            _ => None,
        }
    }

    pub fn transcript_delta(&self) -> (r: Option<&str>)
        ensures
            r is Some == self is TranscriptDelta,
            r is Some ==> r->0@ == self->delta@,
    {
        match self {
            ServerMessage::TranscriptDelta { delta } => Some(delta.as_str()),
            _ => None,
        }
    }
}

} // verus!
