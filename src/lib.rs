//! Recording orchestration core: the workflow reducer, the capture thread's
//! decisions, the streaming pipeline's pure stages and session decisions,
//! and the short-clip speech check.
pub mod state_machine;
pub mod ui;
pub mod effects;
pub mod capture;
pub mod waveform;
pub mod audio_buffer;
pub mod streaming;
pub mod protocol;
pub mod session;
pub mod transcript_aggregator;
pub mod vad;
pub mod gate;
pub mod transcription;
pub mod processing;
