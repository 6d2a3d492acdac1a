use std::time::Instant;
use vokey_transcribe::audio_buffer::{downsample, AudioBuffer};
use vokey_transcribe::gate::{gate_after_stop, GateSettings, StopGate};
use vokey_transcribe::state_machine::{
    reduce_with, Effect, Event, NoSpeechSource, RecordingId, State, StepContext, MAX_RECORDING_MS,
};
use vokey_transcribe::streaming::{after_connect_attempt, ConnectStep, MAX_CONNECT_ATTEMPTS};
use vokey_transcribe::transcript_aggregator::TranscriptAggregator;
use vokey_transcribe::vad::{evaluate_vad, VadStats};

fn ctx(fresh: u128, elapsed_ms: u64) -> StepContext {
    StepContext { fresh_id: RecordingId::from_u128(fresh), now: Instant::now(), elapsed_ms }
}

fn recording(id: RecordingId) -> State {
    State::Recording {
        recording_id: id,
        wav_path: "/tmp/a.wav".to_string(),
        started_at: Instant::now(),
        partial_text: Some("so far".to_string()),
    }
}

#[test]
fn mismatched_ids_leave_every_state_untouched() {
    let id = RecordingId::from_u128(1);
    let other = RecordingId::from_u128(2);
    let states = vec![
        State::Arming { recording_id: id },
        recording(id),
        State::Stopping { recording_id: id, wav_path: "/tmp/a.wav".to_string(), partial_text: None },
        State::Transcribing { recording_id: id, wav_path: "/tmp/a.wav".to_string(), partial_text: None },
        State::Done { recording_id: id, text: "t".to_string() },
    ];
    for s in states {
        let events = vec![
            Event::AudioStartOk { id: other, wav_path: "/x".to_string() },
            Event::AudioStopOk { id: other },
            Event::TranscribeOk { id: other, text: "x".to_string() },
            Event::TranscribeFail { id: other, err: "x".to_string() },
            Event::DoneTimeout { id: other },
            Event::RecordingTick { id: other },
            Event::PartialDelta { id: other, delta: "x".to_string() },
        ];
        for e in events {
            let (next, effects) = reduce_with(&s, e, &ctx(3, MAX_RECORDING_MS));
            assert!(effects.is_empty());
            assert_eq!(format!("{:?}", next), format!("{:?}", s));
        }
    }
}

#[test]
fn cancel_from_recording_or_stopping_never_transcribes() {
    let id = RecordingId::from_u128(1);
    for s in [recording(id), State::Stopping { recording_id: id, wav_path: "/tmp/a.wav".to_string(), partial_text: None }] {
        let (next, effects) = reduce_with(&s, Event::Cancel, &ctx(3, 0));
        assert!(matches!(next, State::Idle));
        assert!(effects.iter().any(|e| matches!(e, Effect::StopAudio { .. })));
        assert!(!effects.iter().any(|e| matches!(e, Effect::StartTranscription { .. })));
    }
}

#[test]
fn done_timeout_dismisses_only_its_own_recording() {
    let id = RecordingId::from_u128(7);
    let done = State::Done { recording_id: id, text: "t".to_string() };
    let (next, _) = reduce_with(&done, Event::DoneTimeout { id }, &ctx(3, 0));
    assert!(matches!(next, State::Idle));
    let (next, effects) = reduce_with(&done, Event::DoneTimeout { id: RecordingId::from_u128(8) }, &ctx(3, 0));
    assert!(matches!(next, State::Done { .. }));
    assert!(effects.is_empty());
}

#[test]
fn downsampling_is_identity_on_unsupported_rates() {
    let input = vec![1i16, -2, 3, -4, 5];
    for (s, t) in [(16000, 16000), (0, 16000), (16000, 0), (44100, 16000), (16000, 48000)] {
        assert_eq!(downsample(&input, s, t), input);
    }
}

fn stats(speech_frames: usize, peak_abs: i32, sum_squares: u128) -> VadStats {
    VadStats { total_frames: 10, speech_frames, total_samples: 100, peak_abs, sum_squares, sum_abs: 0, ignored_samples: 0 }
}

#[test]
fn vad_checks_veto_independently() {
    // sum of squares 100 * 1000^2: RMS 1000.
    let loud_even = stats(1, 2000, 100 * 1_000_000);
    assert!(!evaluate_vad(&loud_even, 2, 15).allows_transcription);
    let spiky = stats(10, 20_000, 100 * 1_000_000);
    assert!(!evaluate_vad(&spiky, 2, 15).allows_transcription);
    let good = stats(2, 2000, 100 * 1_000_000);
    assert!(evaluate_vad(&good, 2, 15).allows_transcription);
}

#[test]
fn completed_text_replaces_accumulated_deltas() {
    let mut agg = TranscriptAggregator::new();
    agg.process_delta("Hello");
    agg.process_delta(" ");
    agg.process_delta("world");
    assert_eq!(agg.current_text(), "Hello world");
    assert_eq!(agg.delta_count(), 3);
    agg.process_delta("");
    assert_eq!(agg.delta_count(), 3);
    agg.process_completed("Something else");
    assert_eq!(agg.current_text(), "Something else");
}

#[test]
fn ring_buffer_evicts_oldest_and_stays_bounded() {
    let mut buffer = AudioBuffer::new(300, 16000, 100);
    for i in 0..10u64 {
        buffer.push(vec![i as i16]);
        assert!(buffer.len() <= 3);
    }
    let drained = buffer.drain_all();
    assert_eq!(drained.iter().map(|c| c.sequence).collect::<Vec<_>>(), vec![7, 8, 9]);
    assert_eq!(drained.iter().map(|c| c.samples[0]).collect::<Vec<_>>(), vec![7, 8, 9]);
    assert!(buffer.is_empty());
}

#[test]
fn recording_is_stopped_automatically_at_the_ceiling() {
    let (arming, effects) = reduce_with(&State::Idle, Event::HotkeyToggle, &ctx(42, 0));
    let id = RecordingId::from_u128(42);
    assert!(matches!(arming, State::Arming { recording_id } if recording_id == id));
    assert!(matches!(effects[0], Effect::StartAudio { .. }));
    let (rec, effects) =
        reduce_with(&arming, Event::AudioStartOk { id, wav_path: "/tmp/r.wav".to_string() }, &ctx(0, 0));
    assert!(matches!(rec, State::Recording { recording_id, .. } if recording_id == id));
    assert!(matches!(effects[0], Effect::StartRecordingTick { .. }));
    let mut state = rec;
    for second in 1..=120u64 {
        let (next, effects) = reduce_with(&state, Event::RecordingTick { id }, &ctx(0, second * 1000));
        if second < 120 {
            assert!(matches!(next, State::Recording { .. }));
        } else {
            assert!(matches!(next, State::Stopping { recording_id, .. } if recording_id == id));
            assert!(effects.iter().any(|e| matches!(e, Effect::StopAudio { id: i } if *i == id)));
        }
        state = next;
    }
}

#[test]
fn short_recording_goes_to_no_speech_without_transcribing() {
    let id = RecordingId::from_u128(9);
    let settings = GateSettings { min_transcribe_ms: 500, short_clip_vad_enabled: true, vad_check_max_ms: 1500, vad_ignore_start_ms: 80 };
    let (stopping, _) = reduce_with(&recording(id), Event::HotkeyToggle, &ctx(0, 400));
    assert!(matches!(stopping, State::Stopping { .. }));
    assert_eq!(gate_after_stop(Some(400), &settings), StopGate::TooShort);
    let (next, effects) = reduce_with(
        &stopping,
        Event::NoSpeechDetected { id, source: NoSpeechSource::DurationThreshold, message: "too short".to_string() },
        &ctx(0, 0),
    );
    assert!(matches!(next, State::NoSpeech { source: NoSpeechSource::DurationThreshold, .. }));
    assert!(!effects.iter().any(|e| matches!(e, Effect::StartTranscription { .. })));
}

#[test]
fn failed_streaming_connection_leaves_batch_path_intact() {
    let mut waits = Vec::new();
    let mut attempt = 0u32;
    loop {
        match after_connect_attempt(attempt, false) {
            ConnectStep::RetryAfter { delay_ms } => waits.push(delay_ms),
            ConnectStep::GiveUp => break,
            ConnectStep::Connected => panic!("no attempt succeeded"),
        }
        attempt += 1;
    }
    assert_eq!(attempt + 1, MAX_CONNECT_ATTEMPTS);
    assert!(waits.windows(2).all(|w| w[0] < w[1]));
    // The recording itself never hears of it: it stops and is transcribed.
    let id = RecordingId::from_u128(5);
    let (arming, _) = reduce_with(&State::Idle, Event::HotkeyToggle, &ctx(5, 0));
    let (rec, _) = reduce_with(&arming, Event::AudioStartOk { id, wav_path: "/tmp/b.wav".to_string() }, &ctx(0, 0));
    let (stopping, _) = reduce_with(&rec, Event::HotkeyToggle, &ctx(0, 2000));
    let (transcribing, effects) = reduce_with(&stopping, Event::AudioStopOk { id }, &ctx(0, 0));
    assert!(matches!(transcribing, State::Transcribing { .. }));
    assert!(effects.iter().any(|e| matches!(e, Effect::StartTranscription { wav_path, .. } if wav_path == "/tmp/b.wav")));
}
