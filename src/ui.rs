//! What the interface shows of the workflow state.
use vstd::prelude::*;
use crate::state_machine::{State, source_label};

verus! {

/// The interface's view of the workflow.
#[derive(Debug, Clone)]
pub enum UiState {
    Idle,
    Arming,
    Recording { elapsed_secs: u64, partial_text: Option<String> },
    Stopping,
    Transcribing,
    NoSpeech { source: String, message: String },
    Done { text: String },
    Error { message: String, last_text: Option<String> },
}

/// `u` shows `s`, a recording having run for `elapsed_secs`.
pub open spec fn shows(u: UiState, s: State, elapsed_secs: u64) -> bool {
    match s {
        State::Idle => u is Idle,
        State::Arming { .. } => u is Arming,
        State::Recording { partial_text, .. } => u == (UiState::Recording {
            elapsed_secs,
            partial_text,
        }),
        State::Stopping { .. } => u is Stopping,
        State::Transcribing { .. } => u is Transcribing,
        State::NoSpeech { source, message, .. } => match u {
            UiState::NoSpeech { source: label, message: m } => label@ == source_label(source)
                && m == message,
            _ => false,
        },
        State::Done { text, .. } => u == (UiState::Done { text }),
        State::Error { message, last_good_text } => u == (UiState::Error {
            message,
            last_text: last_good_text,
        }),
    }
}

fn copy_text(o: &Option<String>) -> (r: Option<String>)
    ensures
        r == *o,
{
    match o {
        Some(t) => Some(t.clone()),
        None => None,
    }
}

/// The interface's view of `state`, a recording having run for `elapsed_secs`.
pub fn ui_state_at(state: &State, elapsed_secs: u64) -> (r: UiState)
    ensures
        shows(r, *state, elapsed_secs),
{
    match state {
        State::Idle => UiState::Idle,
        State::Arming { .. } => UiState::Arming,
        State::Recording { partial_text, .. } => UiState::Recording {
            elapsed_secs,
            partial_text: copy_text(partial_text),
        },
        State::Stopping { .. } => UiState::Stopping,
        State::Transcribing { .. } => UiState::Transcribing,
        State::NoSpeech { source, message, .. } => UiState::NoSpeech {
            source: source.as_str().to_owned(),
            message: message.clone(),
        },
        State::Done { text, .. } => UiState::Done { text: text.clone() },
        State::Error { message, last_good_text } => UiState::Error {
            message: message.clone(),
            last_text: copy_text(last_good_text),
        },
    }
}

/// The interface's view of `state` now; a recording's elapsed time comes
/// from the clock.
pub fn state_to_ui(state: &State) -> (r: UiState)
    ensures
        exists|secs: u64| shows(r, *state, secs),
{
    let secs = match state {
        State::Recording { started_at, .. } => crate::state_machine::millis_since(started_at) / 1000,
        _ => 0,
    };
    ui_state_at(state, secs)
}

} // verus!
