use vokey_transcribe::capture::{DeviceConfig, DeviceConfigCache, SampleKind};
use vokey_transcribe::protocol::{ErrorInfo, ServerMessage, SessionInfo};
use vokey_transcribe::session::{
    await_session_created, await_session_updated, on_transcript_message, HandshakeStep, Incoming,
};
use vokey_transcribe::effects::{stub_wav_path, StubEffectRunner};
use vokey_transcribe::state_machine::{Effect, Event, RecordingId};
use vokey_transcribe::streaming::StreamingError;
use vokey_transcribe::transcript_aggregator::TranscriptAggregator;
use vokey_transcribe::transcription::max_no_speech_permille;

fn info(id: &str) -> SessionInfo {
    SessionInfo { id: id.to_string(), model: String::new(), modalities: vec![] }
}

fn api_error(message: &str) -> ServerMessage {
    ServerMessage::Error {
        error: ErrorInfo { error_type: "t".to_string(), code: None, message: message.to_string() },
    }
}

#[test]
fn handshake_waits_for_session_created() {
    assert!(matches!(
        await_session_created(Incoming::Message(ServerMessage::SessionCreated { session: info("sess_1") })),
        HandshakeStep::Done(ref id) if id == "sess_1"
    ));
    assert!(matches!(await_session_created(Incoming::Unparsed), HandshakeStep::KeepWaiting));
    assert!(matches!(await_session_created(Incoming::Message(ServerMessage::AudioCleared)), HandshakeStep::KeepWaiting));
    assert!(matches!(
        await_session_created(Incoming::Message(api_error("bad key"))),
        HandshakeStep::Fail(StreamingError::AuthenticationFailed(ref m)) if m == "bad key"
    ));
    assert!(matches!(
        await_session_created(Incoming::Closed),
        HandshakeStep::Fail(StreamingError::Disconnected(ref m)) if m == "Connection closed before session created"
    ));
    assert!(matches!(
        await_session_created(Incoming::TimedOut),
        HandshakeStep::Fail(StreamingError::ConnectionFailed(ref m)) if m == "Session creation timeout"
    ));
}

#[test]
fn configuration_waits_for_session_updated() {
    assert!(matches!(
        await_session_updated(Incoming::Message(ServerMessage::SessionUpdated { session: info("s") })),
        HandshakeStep::Done(_)
    ));
    assert!(matches!(
        await_session_updated(Incoming::Message(ServerMessage::SessionCreated { session: info("s") })),
        HandshakeStep::KeepWaiting
    ));
    assert!(matches!(
        await_session_updated(Incoming::Message(api_error("nope"))),
        HandshakeStep::Fail(StreamingError::ProtocolError(ref m)) if m == "nope"
    ));
    assert!(matches!(
        await_session_updated(Incoming::Ended),
        HandshakeStep::Fail(StreamingError::Disconnected(_))
    ));
}

#[test]
fn transcript_messages_feed_the_aggregate_and_the_workflow() {
    let id = RecordingId::from_u128(3);
    let mut agg = TranscriptAggregator::new();
    let ev = on_transcript_message(&mut agg, ServerMessage::TranscriptDelta { delta: "Hi".to_string() }, id);
    assert!(matches!(ev, Some(Event::PartialDelta { ref delta, .. }) if delta == "Hi"));
    assert_eq!(agg.current_text(), "Hi");
    let ev = on_transcript_message(&mut agg, ServerMessage::TranscriptCompleted { transcript: "Hi there".to_string() }, id);
    assert!(ev.is_none());
    assert_eq!(agg.current_text(), "Hi there");
    assert!(on_transcript_message(&mut agg, api_error("x"), id).is_none());
    assert_eq!(agg.delta_count(), 1);
}

#[test]
fn highest_known_no_speech_probability() {
    assert_eq!(max_no_speech_permille(&[]), None);
    assert_eq!(max_no_speech_permille(&[None, None]), None);
    assert_eq!(max_no_speech_permille(&[Some(100), None, Some(900), Some(850)]), Some(900));
}

#[test]
fn config_cache_forgets_after_a_failed_stream() {
    let cfg = DeviceConfig { sample_rate: 48000, channels: 1, sample_format: SampleKind::F32 };
    let mut cache = DeviceConfigCache::new();
    assert_eq!(cache.get(), None);
    cache.store(cfg);
    cache.after_stream_attempt(true);
    assert_eq!(cache.get(), Some(cfg));
    cache.after_stream_attempt(false);
    assert_eq!(cache.get(), None);
    cache.store(cfg);
    cache.invalidate();
    assert_eq!(cache.get(), None);
}

#[test]
fn stand_in_runner_answers_each_effect() {
    let runner = StubEffectRunner::new();
    let id = RecordingId::from_u128(0x0123_4567_89ab_cdef_0123_4567_89ab_cdef);
    let r = runner.replies(Effect::StartAudio { id });
    assert_eq!(r.len(), 1);
    assert_eq!(r[0].delay_ms, 100);
    assert!(matches!(r[0].event, Event::AudioStartOk { ref wav_path, .. }
        if wav_path == "/tmp/vokey_01234567-89ab-cdef-0123-456789abcdef.wav"));
    let r = runner.replies(Effect::StartTranscription { id, wav_path: "/a.wav".to_string() });
    assert!(matches!(r[0].event, Event::TranscribeOk { ref text, .. } if text == "[Simulated transcription from /a.wav]"));
    let r = runner.replies(Effect::StartRecordingTick { id });
    assert_eq!(r.len(), 60);
    assert!(runner.replies(Effect::EmitUi).is_empty());
    assert_eq!(stub_wav_path("x"), "/tmp/vokey_x.wav");
}
