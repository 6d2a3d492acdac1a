use vokey_transcribe::processing::{ProcessResult, ProcessingMode};
use vokey_transcribe::transcription::{decimal_string, TranscriptionError};

#[test]
fn test_missing_api_key_error_display() {
    let err = TranscriptionError::MissingApiKey;
    assert!(err.to_string().contains("OPENAI_API_KEY"));
}

#[test]
fn test_api_error_display() {
    let err = TranscriptionError::ApiError { status: 401, message: "Invalid API key".to_string() };
    assert!(err.to_string().contains("401"));
    assert!(err.to_string().contains("Invalid API key"));
}

#[test]
fn mock_error_display_formats_correctly() {
    let errors = vec![
        (TranscriptionError::MissingApiKey, "OPENAI_API_KEY"),
        (TranscriptionError::FileReadError("file not found".to_string()), "file not found"),
        (TranscriptionError::NetworkError("connection refused".to_string()), "connection refused"),
        (
            TranscriptionError::ApiError { status: 401, message: "Invalid API key".to_string() },
            "401",
        ),
        (TranscriptionError::ParseError("invalid JSON".to_string()), "invalid JSON"),
    ];
    for (err, expected_substring) in errors {
        let display = err.to_string();
        assert!(
            display.contains(expected_substring),
            "Error display '{}' should contain '{}'",
            display,
            expected_substring
        );
    }
}

#[test]
fn api_error_text_is_exact() {
    let err = TranscriptionError::ApiError { status: 503, message: "busy".to_string() };
    assert_eq!(err.to_string(), "OpenAI API error (503): busy");
}

#[test]
fn decimal_digits() {
    assert_eq!(decimal_string(0), "0");
    assert_eq!(decimal_string(7), "7");
    assert_eq!(decimal_string(10), "10");
    assert_eq!(decimal_string(65535), "65535");
}

#[test]
fn test_default_mode_is_normal() {
    assert_eq!(ProcessingMode::default(), ProcessingMode::Normal);
}

#[test]
fn test_all_modes() {
    let modes = ProcessingMode::all();
    assert_eq!(modes.len(), 4);
    assert_eq!(modes[0], ProcessingMode::Normal);
    assert_eq!(modes[3], ProcessingMode::Prompt);
}

#[test]
fn mode_labels_and_descriptions() {
    assert_eq!(ProcessingMode::Markdown.label(), "Markdown");
    assert_eq!(ProcessingMode::Coding.description(), "Code-friendly: snake_case, remove fillers");
}

#[test]
fn test_process_result_text() {
    let success = ProcessResult::Success("cleaned text".to_string());
    assert_eq!(success.text(), "cleaned text");
    let fallback = ProcessResult::Fallback {
        original: "original text".to_string(),
        reason: "API error".to_string(),
    };
    assert_eq!(fallback.text(), "original text");
}
