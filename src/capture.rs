//! Decisions of the thread that owns the hardware input stream: what each
//! command or stream failure leads to, and the bounded recovery policy. The
//! thread performs each action and reports its outcome as the next event.
use vstd::prelude::*;
use vstd::string::StringExecFns;

verus! {

/// Attempts at rebuilding a failed stream before the failure is escalated.
pub const MAX_STREAM_RETRIES: u32 = 3;

/// Wait before each rebuild attempt, in milliseconds.
pub const RETRY_DELAYS_MS: [u64; 3] = [200, 500, 1000];

pub open spec fn retry_delay_ms(attempt: int) -> u64 {
    if attempt == 0 {
        200
    } else if attempt == 1 {
        500
    } else {
        1000
    }
}

/// Errors of audio capture.
#[derive(Debug, Clone)]
pub enum AudioError {
    NoInputDevice,
    NoSupportedConfig,
    StreamCreationFailed(String),
    FileCreationFailed(String),
    WriteFailed(String),
    ThreadError(String),
}

pub open spec fn audio_error_text(e: AudioError) -> Seq<char> {
    match e {
        AudioError::NoInputDevice => "No audio input device found"@,
        AudioError::NoSupportedConfig => "No supported audio configuration"@,
        AudioError::StreamCreationFailed(s) => "Failed to create audio stream: "@ + s@,
        AudioError::FileCreationFailed(s) => "Failed to create WAV file: "@ + s@,
        AudioError::WriteFailed(s) => "Failed to write audio data: "@ + s@,
        AudioError::ThreadError(s) => "Audio thread error: "@ + s@,
    }
}

impl AudioError {
    /// Human-readable description.
    pub fn to_string(&self) -> (r: String)
        ensures
            r@ == audio_error_text(*self),
    {
        match self {
            AudioError::NoInputDevice => {
                proof {
                    reveal_strlit("No audio input device found");
                }
                String::from_str("No audio input device found")
            },
            AudioError::NoSupportedConfig => {
                proof {
                    reveal_strlit("No supported audio configuration");
                }
                String::from_str("No supported audio configuration")
            },
            AudioError::StreamCreationFailed(s) => {
                proof {
                    reveal_strlit("Failed to create audio stream: ");
                }
                String::from_str("Failed to create audio stream: ").concat(s.as_str())
            },
            AudioError::FileCreationFailed(s) => {
                proof {
                    reveal_strlit("Failed to create WAV file: ");
                }
                String::from_str("Failed to create WAV file: ").concat(s.as_str())
            },
            AudioError::WriteFailed(s) => {
                proof {
                    reveal_strlit("Failed to write audio data: ");
                }
                String::from_str("Failed to write audio data: ").concat(s.as_str())
            },
            AudioError::ThreadError(s) => {
                proof {
                    reveal_strlit("Audio thread error: ");
                }
                String::from_str("Audio thread error: ").concat(s.as_str())
            },
        }
    }
}

/// The capture thread's own state.
#[derive(Debug, Clone, Copy, PartialEq, Eq, Structural)]
pub enum CaptureState {
    /// No stream; waiting for a command.
    Idle,
    /// A stream is recording.
    Active,
    /// The stream failed; rebuild attempt `attempt` (from zero) is under way.
    Recovering { attempt: u32 },
    /// The thread has finished.
    Exited,
}

/// What the capture thread learns: a command, or the outcome of an action.
#[derive(Debug, Clone, Copy, PartialEq, Eq, Structural)]
pub enum CaptureEvent {
    StartCommand,
    StopCommand,
    ShutdownCommand,
    /// Every sender of commands is gone.
    CommandsClosed,
    /// The writer and the stream of a new recording are open.
    Opened,
    /// Opening a new recording failed.
    OpenFailed,
    /// The stream's error callback reported a failure.
    StreamFailed,
    RebuildSucceeded,
    RebuildFailed,
}

/// What the capture thread does next.
#[derive(Debug, Clone, Copy, PartialEq, Eq, Structural)]
pub enum CaptureAction {
    /// Create the file writer and open the stream for a new recording.
    Open,
    /// Finalize the running recording, then open a new one.
    FinalizeThenOpen,
    /// Answer the start command with the new file's path.
    ReplyStarted,
    /// Answer the start command with the error.
    ReplyStartFailed,
    /// Finalize the file, answer the stop command with it, then drop the stream.
    FinalizeAndReply,
    /// Answer a stop command that finds no recording.
    ReplyNoActiveRecording,
    /// Abandon the failed stream (never wait on its teardown), wait, and
    /// rebuild it around the same writer and channels.
    RebuildAfter { delay_ms: u64 },
    /// Keep recording on the rebuilt stream.
    Resume,
    /// Finalize the file with what was captured and report the failure upward.
    FinalizeAndEscalate,
    /// Finalize the running recording and end the thread.
    FinalizeAndExit,
    /// End the thread.
    Exit,
    /// Nothing to do.
    Ignore,
}

/// The capture thread's transition table.
pub open spec fn capture_transition(s: CaptureState, e: CaptureEvent) -> (CaptureState, CaptureAction) {
    match (s, e) {
        (CaptureState::Idle, CaptureEvent::StartCommand) => (CaptureState::Idle, CaptureAction::Open),
        (CaptureState::Active, CaptureEvent::StartCommand) => (
            CaptureState::Idle,
            CaptureAction::FinalizeThenOpen,
        ),
        (CaptureState::Idle, CaptureEvent::Opened) => (CaptureState::Active, CaptureAction::ReplyStarted),
        (CaptureState::Idle, CaptureEvent::OpenFailed) => (
            CaptureState::Idle,
            CaptureAction::ReplyStartFailed,
        ),
        (CaptureState::Active, CaptureEvent::StopCommand) => (
            CaptureState::Idle,
            CaptureAction::FinalizeAndReply,
        ),
        (CaptureState::Idle, CaptureEvent::StopCommand) => (
            CaptureState::Idle,
            CaptureAction::ReplyNoActiveRecording,
        ),
        (CaptureState::Active, CaptureEvent::ShutdownCommand) => (
            CaptureState::Exited,
            CaptureAction::FinalizeAndExit,
        ),
        (CaptureState::Active, CaptureEvent::CommandsClosed) => (
            CaptureState::Exited,
            CaptureAction::FinalizeAndExit,
        ),
        (CaptureState::Idle, CaptureEvent::ShutdownCommand) => (CaptureState::Exited, CaptureAction::Exit),
        (CaptureState::Idle, CaptureEvent::CommandsClosed) => (CaptureState::Exited, CaptureAction::Exit),
        (CaptureState::Active, CaptureEvent::StreamFailed) => (
            CaptureState::Recovering { attempt: 0 },
            CaptureAction::RebuildAfter { delay_ms: retry_delay_ms(0) },
        ),
        (CaptureState::Recovering { .. }, CaptureEvent::RebuildSucceeded) => (
            CaptureState::Active,
            CaptureAction::Resume,
        ),
        (CaptureState::Recovering { attempt }, CaptureEvent::RebuildFailed) => {
            if attempt + 1 < MAX_STREAM_RETRIES {
                (
                    CaptureState::Recovering { attempt: (attempt + 1) as u32 },
                    CaptureAction::RebuildAfter { delay_ms: retry_delay_ms(attempt + 1) },
                )
            } else {
                (CaptureState::Idle, CaptureAction::FinalizeAndEscalate)
            }
        },
        _ => (s, CaptureAction::Ignore),
    }
}

/// The states the thread can be in: a rebuild attempt is always one of
/// the permitted ones.
pub open spec fn capture_state_ok(s: CaptureState) -> bool {
    match s {
        CaptureState::Recovering { attempt } => attempt < MAX_STREAM_RETRIES,
        _ => true,
    }
}

fn delay_for_attempt(attempt: u32) -> (r: u64)
    requires
        attempt < MAX_STREAM_RETRIES,
    ensures
        r == retry_delay_ms(attempt as int),
{
    RETRY_DELAYS_MS[attempt as usize]
}

/// One decision of the capture thread.
pub fn capture_step(state: CaptureState, event: CaptureEvent) -> (r: (CaptureState, CaptureAction))
    requires
        capture_state_ok(state),
    ensures
        r == capture_transition(state, event),
        capture_state_ok(r.0),
{
    match (state, event) {
        (CaptureState::Idle, CaptureEvent::StartCommand) => (CaptureState::Idle, CaptureAction::Open),
        (CaptureState::Active, CaptureEvent::StartCommand) => (
            CaptureState::Idle,
            CaptureAction::FinalizeThenOpen,
        ),
        (CaptureState::Idle, CaptureEvent::Opened) => (CaptureState::Active, CaptureAction::ReplyStarted),
        (CaptureState::Idle, CaptureEvent::OpenFailed) => (
            CaptureState::Idle,
            CaptureAction::ReplyStartFailed,
        ),
        (CaptureState::Active, CaptureEvent::StopCommand) => (
            CaptureState::Idle,
            CaptureAction::FinalizeAndReply,
        ),
        (CaptureState::Idle, CaptureEvent::StopCommand) => (
            CaptureState::Idle,
            CaptureAction::ReplyNoActiveRecording,
        ),
        (CaptureState::Active, CaptureEvent::ShutdownCommand)
        | (CaptureState::Active, CaptureEvent::CommandsClosed) => (
            CaptureState::Exited,
            CaptureAction::FinalizeAndExit,
        ),
        (CaptureState::Idle, CaptureEvent::ShutdownCommand)
        | (CaptureState::Idle, CaptureEvent::CommandsClosed) => (CaptureState::Exited, CaptureAction::Exit),
        (CaptureState::Active, CaptureEvent::StreamFailed) => (
            CaptureState::Recovering { attempt: 0 },
            CaptureAction::RebuildAfter { delay_ms: delay_for_attempt(0) },
        ),
        (CaptureState::Recovering { .. }, CaptureEvent::RebuildSucceeded) => (
            CaptureState::Active,
            CaptureAction::Resume,
        ),
        (CaptureState::Recovering { attempt }, CaptureEvent::RebuildFailed) => {
            if attempt + 1 < MAX_STREAM_RETRIES {
                (
                    CaptureState::Recovering { attempt: attempt + 1 },
                    CaptureAction::RebuildAfter { delay_ms: delay_for_attempt(attempt + 1) },
                )
            } else {
                (CaptureState::Idle, CaptureAction::FinalizeAndEscalate)
            }
        },
        _ => (state, CaptureAction::Ignore),
    }
}

/// Each rebuild waits strictly longer than the one before it.
pub proof fn lemma_retry_delays_increase(a: int, b: int)
    requires
        0 <= a < b < MAX_STREAM_RETRIES,
    ensures
        retry_delay_ms(a) < retry_delay_ms(b),
{
}

/// A stream that keeps failing is rebuilt exactly `MAX_STREAM_RETRIES`
/// times; the failure after the last attempt finalizes and escalates.
pub proof fn lemma_recovery_is_bounded(attempt: u32)
    requires
        attempt < MAX_STREAM_RETRIES,
    ensures
        attempt + 1 < MAX_STREAM_RETRIES ==> capture_transition(
            CaptureState::Recovering { attempt },
            CaptureEvent::RebuildFailed,
        ).0 == (CaptureState::Recovering { attempt: (attempt + 1) as u32 }),
        attempt + 1 == MAX_STREAM_RETRIES ==> capture_transition(
            CaptureState::Recovering { attempt },
            CaptureEvent::RebuildFailed,
        ) == (CaptureState::Idle, CaptureAction::FinalizeAndEscalate),
{
}

/// Sample representation of an input device.
#[derive(Debug, Clone, Copy, PartialEq, Eq, Structural)]
pub enum SampleKind {
    I16,
    U16,
    F32,
    Other,
}

/// What device enumeration found out about the input device.
#[derive(Debug, Clone, Copy, PartialEq, Eq, Structural)]
pub struct DeviceConfig {
    pub sample_rate: u32,
    pub channels: u16,
    pub sample_format: SampleKind,
}

/// The device configuration remembered between recordings, so that the slow
/// enumeration runs once; forgotten when building a stream fails, so that
/// the next attempt enumerates afresh.
#[derive(Debug, Clone, Copy)]
pub struct DeviceConfigCache {
    entry: Option<DeviceConfig>,
}

impl DeviceConfigCache {
    pub closed spec fn cached(&self) -> Option<DeviceConfig> {
        self.entry
    }

    pub fn new() -> (r: DeviceConfigCache)
        ensures
            r.cached() is None,
    {
        DeviceConfigCache { entry: None }
    }

    pub fn get(&self) -> (r: Option<DeviceConfig>)
        ensures
            r == self.cached(),
    {
        self.entry
    }

    pub fn store(&mut self, config: DeviceConfig)
        ensures
            final(self).cached() == Some(config),
    {
        self.entry = Some(config);
    }

    pub fn invalidate(&mut self)
        ensures
            final(self).cached() is None,
    {
        self.entry = None;
    }

    /// Records the outcome of building a stream with the cached
    /// configuration: a failure forgets it.
    pub fn after_stream_attempt(&mut self, succeeded: bool)
        ensures
            succeeded ==> final(self).cached() == old(self).cached(),
            !succeeded ==> final(self).cached() is None,
    {
        if !succeeded {
            self.entry = None;
        }
    }
}

} // verus!
