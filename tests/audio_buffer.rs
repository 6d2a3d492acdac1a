use vokey_transcribe::audio_buffer::{downsample, AudioBuffer, AudioChunk};

#[test]
fn test_buffer_push_and_len() {
    let mut buffer = AudioBuffer::new(1000, 24000, 100);
    assert!(buffer.is_empty());
    assert_eq!(buffer.len(), 0);
    buffer.push(vec![0i16; 2400]);
    assert_eq!(buffer.len(), 1);
    buffer.push(vec![0i16; 2400]);
    assert_eq!(buffer.len(), 2);
}

#[test]
fn test_buffer_eviction() {
    // 500 ms with 100 ms chunks = 5 chunks max
    let mut buffer = AudioBuffer::new(500, 24000, 100);
    for i in 0..7 {
        buffer.push(vec![i as i16; 2400]);
    }
    assert_eq!(buffer.len(), 5);
    let chunks = buffer.drain_all();
    assert_eq!(chunks[0].sequence, 2);
    assert_eq!(chunks[4].sequence, 6);
}

#[test]
fn test_buffer_drain() {
    let mut buffer = AudioBuffer::new(1000, 24000, 100);
    buffer.push(vec![1i16; 2400]);
    buffer.push(vec![2i16; 2400]);
    buffer.push(vec![3i16; 2400]);
    let chunks = buffer.drain_all();
    assert_eq!(chunks.len(), 3);
    assert!(buffer.is_empty());
    assert_eq!(chunks[0].samples[0], 1);
    assert_eq!(chunks[1].samples[0], 2);
    assert_eq!(chunks[2].samples[0], 3);
}

#[test]
fn test_buffer_duration() {
    let mut buffer = AudioBuffer::new(5000, 24000, 100);
    buffer.push(vec![0i16; 2400]);
    assert_eq!(buffer.duration_ms(), 100);
    buffer.push(vec![0i16; 2400]);
    assert_eq!(buffer.duration_ms(), 200);
}

#[test]
fn test_buffer_memory() {
    let mut buffer = AudioBuffer::new(5000, 24000, 100);
    buffer.push(vec![0i16; 2400]);
    assert_eq!(buffer.memory_bytes(), 4800);
    buffer.push(vec![0i16; 2400]);
    assert_eq!(buffer.memory_bytes(), 9600);
}

#[test]
fn test_downsample_2x() {
    let input = vec![100i16, 200, 300, 400, 500, 600];
    let output = downsample(&input, 48000, 24000);
    assert_eq!(output.len(), 3);
    assert_eq!(output[0], 150);
    assert_eq!(output[1], 350);
    assert_eq!(output[2], 550);
}

#[test]
fn test_downsample_same_rate() {
    let input = vec![100i16, 200, 300];
    let output = downsample(&input, 24000, 24000);
    assert_eq!(output, input);
}

#[test]
fn test_downsample_unsupported_ratio() {
    let input = vec![100i16, 200, 300];
    let output = downsample(&input, 44100, 24000);
    assert_eq!(output, input);
}

#[test]
fn test_downsample_zero_rate() {
    let input = vec![100i16, 200, 300];
    let output = downsample(&input, 48000, 0);
    assert_eq!(output, input);
    let output = downsample(&input, 0, 24000);
    assert_eq!(output, input);
    let output = downsample(&input, 0, 0);
    assert_eq!(output, input);
}

#[test]
fn test_sequence_numbers() {
    let mut buffer = AudioBuffer::new(5000, 24000, 100);
    let seq1 = buffer.push(vec![0i16; 100]);
    let seq2 = buffer.push(vec![0i16; 100]);
    let seq3 = buffer.push(vec![0i16; 100]);
    assert_eq!(seq1, 0);
    assert_eq!(seq2, 1);
    assert_eq!(seq3, 2);
    assert_eq!(buffer.next_sequence(), 3);
}

#[test]
fn downsample_averages_a_short_last_block_and_rounds_toward_zero() {
    // 3:1, seven samples: two full blocks and one of a single sample.
    let input = vec![-1i16, -1, 0, 3, 3, 4, -7];
    let output = downsample(&input, 48000, 16000);
    assert_eq!(output, vec![0, 3, -7]);
}

#[test]
fn downsample_keeps_extreme_values_in_range() {
    let input = vec![i16::MIN, i16::MIN, i16::MAX, i16::MAX];
    assert_eq!(downsample(&input, 32000, 16000), vec![i16::MIN, i16::MAX]);
}

#[test]
fn chunk_duration_rounds_down() {
    let chunk = AudioChunk::new(vec![0i16; 2399], 0);
    assert_eq!(chunk.duration_ms(24000), 99);
}

#[test]
fn buffer_capacity_rounds_up_and_clear_keeps_sequence() {
    // 250 ms in 100 ms chunks: three chunks.
    let mut buffer = AudioBuffer::new(250, 24000, 100);
    for _ in 0..5 {
        buffer.push(vec![0i16; 10]);
    }
    assert_eq!(buffer.len(), 3);
    assert_eq!(buffer.peek_all().iter().map(|c| c.sequence).collect::<Vec<_>>(), vec![2, 3, 4]);
    buffer.clear();
    assert!(buffer.is_empty());
    assert_eq!(buffer.push(vec![1]), 5);
}
