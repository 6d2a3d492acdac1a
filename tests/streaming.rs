use vokey_transcribe::protocol::{
    pcm16_le_bytes, ClientMessage, ErrorInfo, ServerMessage, SessionConfig, SessionInfo,
};
use vokey_transcribe::streaming::{
    after_connect_attempt, require_api_key, ChunkAccumulator, ConnectStep, StreamerConfig,
    StreamingError,
};
use vokey_transcribe::transcript_aggregator::TranscriptAggregator;

#[test]
fn test_streamer_config_default() {
    let config = StreamerConfig::default();
    assert_eq!(config.source_sample_rate, 48000);
    assert_eq!(config.target_sample_rate, 24000);
    assert_eq!(config.chunk_duration_ms, 100);
}

#[test]
fn test_samples_per_chunk() {
    let config = StreamerConfig::default();
    assert_eq!(config.samples_per_chunk(), 2400);
    let config = StreamerConfig { target_sample_rate: 16000, chunk_duration_ms: 50, ..Default::default() };
    assert_eq!(config.samples_per_chunk(), 800);
}

#[test]
fn test_streaming_error_display() {
    let err = StreamingError::MissingApiKey;
    assert!(err.to_string().contains("OPENAI_API_KEY"));
    let err = StreamingError::ConnectionFailed("timeout".to_string());
    assert!(err.to_string().contains("timeout"));
    let err = StreamingError::AuthenticationFailed("invalid key".to_string());
    assert!(err.to_string().contains("invalid key"));
}

#[test]
fn test_session_config_default() {
    let config = SessionConfig::default();
    assert_eq!(config.modalities, Some(vec!["text".to_string()]));
    assert_eq!(config.input_audio_format, Some("pcm16".to_string()));
    assert!(config.turn_detection.is_none());
}

#[test]
fn test_new_aggregator_is_empty() {
    let agg = TranscriptAggregator::new();
    assert!(!agg.has_text());
    assert!(!agg.is_complete());
    assert_eq!(agg.current_text(), "");
    assert_eq!(agg.delta_count(), 0);
}

#[test]
fn test_single_delta() {
    let mut agg = TranscriptAggregator::new();
    let result = agg.process_delta("Hello");
    assert_eq!(result, "Hello");
    assert_eq!(agg.current_text(), "Hello");
    assert!(agg.has_text());
    assert!(!agg.is_complete());
    assert_eq!(agg.delta_count(), 1);
}

#[test]
fn test_multiple_deltas() {
    let mut agg = TranscriptAggregator::new();
    agg.process_delta("Hello");
    agg.process_delta(" ");
    agg.process_delta("world");
    assert_eq!(agg.current_text(), "Hello world");
    assert_eq!(agg.delta_count(), 3);
}

#[test]
fn test_empty_delta_ignored() {
    let mut agg = TranscriptAggregator::new();
    agg.process_delta("Hello");
    agg.process_delta("");
    agg.process_delta("world");
    assert_eq!(agg.current_text(), "Helloworld");
    assert_eq!(agg.delta_count(), 2);
}

#[test]
fn test_completed_overrides_partial() {
    let mut agg = TranscriptAggregator::new();
    agg.process_delta("Helo");
    agg.process_delta(" wrld");
    assert_eq!(agg.current_text(), "Helo wrld");
    agg.process_completed("Hello world");
    assert_eq!(agg.current_text(), "Hello world");
    assert!(agg.is_complete());
    assert_eq!(agg.partial_text(), "Helo wrld");
}

#[test]
fn test_completed_without_deltas() {
    let mut agg = TranscriptAggregator::new();
    agg.process_completed("Direct completion");
    assert_eq!(agg.current_text(), "Direct completion");
    assert!(agg.is_complete());
    assert_eq!(agg.delta_count(), 0);
}

#[test]
fn test_reset() {
    let mut agg = TranscriptAggregator::new();
    agg.process_delta("Some text");
    agg.process_completed("Final text");
    agg.reset();
    assert!(!agg.has_text());
    assert!(!agg.is_complete());
    assert_eq!(agg.current_text(), "");
    assert_eq!(agg.delta_count(), 0);
}

#[test]
fn test_default_trait() {
    let agg = TranscriptAggregator::default();
    assert!(!agg.has_text());
}

#[test]
fn final_text_is_exposed_once_completed() {
    let mut agg = TranscriptAggregator::new();
    assert_eq!(agg.final_text(), None);
    agg.process_completed("done");
    assert_eq!(agg.final_text(), Some("done"));
}

#[test]
fn audio_append_encodes_little_endian_base64() {
    // 0x1234, 0x5678 -> bytes 34 12 78 56 -> "NBJ4Vg=="
    let msg = ClientMessage::audio_append(&[0x1234i16, 0x5678]);
    match msg {
        ClientMessage::AudioAppend { audio } => assert_eq!(audio, "NBJ4Vg=="),
        _ => panic!("Expected AudioAppend"),
    }
}

#[test]
fn audio_append_of_nothing_is_empty() {
    match ClientMessage::audio_append(&[]) {
        ClientMessage::AudioAppend { audio } => assert_eq!(audio, ""),
        _ => panic!("Expected AudioAppend"),
    }
}

#[test]
fn pcm16_bytes_are_little_endian() {
    assert_eq!(pcm16_le_bytes(&[0x1234, -1, 256]), vec![0x34, 0x12, 0xff, 0xff, 0x00, 0x01]);
}

#[test]
fn client_message_constructors() {
    assert!(matches!(ClientMessage::audio_commit(), ClientMessage::AudioCommit));
    assert!(matches!(ClientMessage::audio_clear(), ClientMessage::AudioClear));
    match ClientMessage::session_update() {
        ClientMessage::SessionUpdate { session } => {
            assert_eq!(session.input_audio_transcription.unwrap().model, "whisper-1");
        }
        _ => panic!("Expected SessionUpdate"),
    }
}

#[test]
fn server_message_accessors() {
    let info = SessionInfo { id: "sess_123".to_string(), model: String::new(), modalities: vec![] };
    let created = ServerMessage::SessionCreated { session: info };
    assert_eq!(created.session_id(), Some("sess_123"));
    assert!(!created.is_error());
    let delta = ServerMessage::TranscriptDelta { delta: "Hello world".to_string() };
    assert_eq!(delta.transcript_delta(), Some("Hello world"));
    assert_eq!(delta.session_id(), None);
    let err = ServerMessage::Error {
        error: ErrorInfo {
            error_type: "invalid_request_error".to_string(),
            code: Some("invalid_api_key".to_string()),
            message: "Invalid API key".to_string(),
        },
    };
    assert!(err.is_error());
    assert_eq!(err.error_info().unwrap().message, "Invalid API key");
    assert!(ServerMessage::Unknown.error_info().is_none());
}

#[test]
fn chunker_emits_whole_chunks_and_flushes_the_rest() {
    let config = StreamerConfig { source_sample_rate: 48000, target_sample_rate: 24000, chunk_duration_ms: 1 };
    // 24 samples per chunk at the target rate.
    let mut acc = ChunkAccumulator::new(config);
    let input: Vec<i16> = (0..100).map(|i| (2 * i) as i16).collect();
    let chunks = acc.push_samples(&input);
    // 100 samples at 48 kHz become 50; two chunks of 24, two pending.
    assert_eq!(chunks.len(), 2);
    assert_eq!(chunks[0].len(), 24);
    assert_eq!(chunks[0][0], 1);
    assert_eq!(chunks[1][0], 97);
    let rest = acc.flush().unwrap();
    assert_eq!(rest, vec![193, 197]);
    assert!(acc.flush().is_none());
}

#[test]
fn empty_api_key_is_refused() {
    assert!(matches!(require_api_key(""), Err(StreamingError::MissingApiKey)));
    assert!(require_api_key("sk-test").is_ok());
}

#[test]
fn connect_retries_with_doubling_waits_then_gives_up() {
    assert_eq!(after_connect_attempt(0, true), ConnectStep::Connected);
    assert_eq!(after_connect_attempt(0, false), ConnectStep::RetryAfter { delay_ms: 1000 });
    assert_eq!(after_connect_attempt(1, false), ConnectStep::RetryAfter { delay_ms: 2000 });
    assert_eq!(after_connect_attempt(2, false), ConnectStep::GiveUp);
}
