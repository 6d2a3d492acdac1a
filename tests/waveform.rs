use vokey_transcribe::state_machine::{NoSpeechSource, RecordingId, State};
use vokey_transcribe::ui::{ui_state_at, UiState};
use vokey_transcribe::waveform::{WaveformBuffer, WAVEFORM_CAPACITY};

#[test]
fn test_buffer_bounded() {
    let mut buffer = WaveformBuffer::new();
    let samples: Vec<i16> = (0..15_000).map(|i| (i % 1000) as i16).collect();
    buffer.push_samples(&samples);
    assert_eq!(buffer.len(), WAVEFORM_CAPACITY);
    assert!(buffer.len() <= WAVEFORM_CAPACITY);
}

#[test]
fn test_push_samples_incremental() {
    let mut buffer = WaveformBuffer::new();
    buffer.push_samples(&[100, 200]);
    assert_eq!(buffer.len(), 2);
    buffer.push_samples(&[300, 400, 500]);
    assert_eq!(buffer.len(), 5);
}

#[test]
fn test_buffer_clear() {
    let mut buffer = WaveformBuffer::new();
    buffer.push_samples(&[100, 200, 300]);
    assert_eq!(buffer.len(), 3);
    buffer.clear();
    assert_eq!(buffer.len(), 0);
}

#[test]
fn window_keeps_the_newest_samples() {
    let mut buffer = WaveformBuffer::new();
    let first: Vec<i16> = (0..9_999).map(|i| (i % 100) as i16).collect();
    buffer.push_samples(&first);
    buffer.push_samples(&[7, 8, 9]);
    assert_eq!(buffer.len(), WAVEFORM_CAPACITY);
    let kept: Vec<i16> = buffer.samples().iter().copied().collect();
    assert_eq!(&kept[kept.len() - 3..], &[7, 8, 9]);
    assert_eq!(kept[0], 2);
}

#[test]
fn ui_shows_the_workflow_state() {
    let id = RecordingId::from_u128(1);
    let s = State::NoSpeech {
        recording_id: id,
        wav_path: "/tmp/x.wav".to_string(),
        source: NoSpeechSource::ShortClipVad,
        message: "quiet".to_string(),
    };
    assert!(matches!(ui_state_at(&s, 0), UiState::NoSpeech { ref source, ref message } if source == "vad" && message == "quiet"));
    let e = State::Error { message: "m".to_string(), last_good_text: Some("t".to_string()) };
    assert!(matches!(ui_state_at(&e, 0), UiState::Error { last_text: Some(ref t), .. } if t == "t"));
    assert!(matches!(ui_state_at(&State::Idle, 3), UiState::Idle));
}
