//! Decisions of a streaming session: the two handshake waits, and what
//! each incoming transcript message does to the aggregate and the workflow.
use vstd::prelude::*;
use vstd::string::StringExecFns;
use crate::protocol::ServerMessage;
use crate::state_machine::{Event, RecordingId};
use crate::streaming::StreamingError;
use crate::transcript_aggregator::TranscriptAggregator;

verus! {

/// What the connection delivered while a handshake step waited.
#[derive(Debug, Clone)]
pub enum Incoming {
    /// A text frame that parsed as a protocol message.
    Message(ServerMessage),
    /// A text frame that did not parse.
    Unparsed,
    /// Any other frame (ping, pong, binary).
    OtherFrame,
    /// The peer closed the connection.
    Closed,
    /// The transport failed.
    TransportError(String),
    /// Nothing more will arrive.
    Ended,
    /// The step's deadline passed.
    TimedOut,
}

/// Outcome of one delivery during a handshake step.
#[derive(Debug, Clone)]
pub enum HandshakeStep {
    /// The awaited acknowledgment, with the session id.
    Done(String),
    Fail(StreamingError),
    KeepWaiting,
}

pub open spec fn fails_with_text(r: HandshakeStep, text: Seq<char>) -> bool {
    &&& r is Fail
    &&& match r->Fail_0 {
        StreamingError::ConnectionFailed(s) => s@ == text,
        StreamingError::AuthenticationFailed(s) => s@ == text,
        StreamingError::ProtocolError(s) => s@ == text,
        StreamingError::Disconnected(s) => s@ == text,
        StreamingError::SendFailed(s) => s@ == text,
        StreamingError::MissingApiKey => false,
    }
}

/// Waiting for `session.created` after the transport opened.
pub fn await_session_created(frame: Incoming) -> (r: HandshakeStep)
    ensures
        frame is Message && frame->Message_0 is SessionCreated ==> r is Done && r->Done_0
            == frame->Message_0->SessionCreated_session.id,
        frame is Message && frame->Message_0 is Error ==> fails_with_text(
            r,
            frame->Message_0->error.message@,
        ) && r->Fail_0 is AuthenticationFailed,
        frame is Message && !(frame->Message_0 is SessionCreated) && !(frame->Message_0 is Error)
            ==> r is KeepWaiting,
        frame is Unparsed || frame is OtherFrame ==> r is KeepWaiting,
        frame is Closed ==> fails_with_text(r, "Connection closed before session created"@)
            && r->Fail_0 is Disconnected,
        frame is TransportError ==> fails_with_text(r, frame->TransportError_0@)
            && r->Fail_0 is ProtocolError,
        frame is Ended ==> fails_with_text(r, "Stream ended"@) && r->Fail_0 is Disconnected,
        frame is TimedOut ==> fails_with_text(r, "Session creation timeout"@)
            && r->Fail_0 is ConnectionFailed,
{
    match frame {
        Incoming::Message(ServerMessage::SessionCreated { session }) => HandshakeStep::Done(session.id),
        Incoming::Message(ServerMessage::Error { error }) => HandshakeStep::Fail(
            StreamingError::AuthenticationFailed(error.message),
        ),
        Incoming::Message(_) | Incoming::Unparsed | Incoming::OtherFrame => HandshakeStep::KeepWaiting,
        Incoming::Closed => {
            proof {
                reveal_strlit("Connection closed before session created");
            }
            HandshakeStep::Fail(
                StreamingError::Disconnected(
                    String::from_str("Connection closed before session created"),
                ),
            )
        },
        Incoming::TransportError(e) => HandshakeStep::Fail(StreamingError::ProtocolError(e)),
        Incoming::Ended => {
            proof {
                reveal_strlit("Stream ended");
            }
            HandshakeStep::Fail(StreamingError::Disconnected(String::from_str("Stream ended")))
        },
        Incoming::TimedOut => {
            proof {
                reveal_strlit("Session creation timeout");
            }
            HandshakeStep::Fail(
                StreamingError::ConnectionFailed(String::from_str("Session creation timeout")),
            )
        },
    }
}

/// Waiting for `session.updated` after the session settings were sent.
pub fn await_session_updated(frame: Incoming) -> (r: HandshakeStep)
    ensures
        frame is Message && frame->Message_0 is SessionUpdated ==> r is Done && r->Done_0
            == frame->Message_0->SessionUpdated_session.id,
        frame is Message && frame->Message_0 is Error ==> fails_with_text(
            r,
            frame->Message_0->error.message@,
        ) && r->Fail_0 is ProtocolError,
        frame is Message && !(frame->Message_0 is SessionUpdated) && !(frame->Message_0 is Error)
            ==> r is KeepWaiting,
        frame is Unparsed || frame is OtherFrame ==> r is KeepWaiting,
        frame is Closed || frame is Ended ==> fails_with_text(
            r,
            "Channel closed during configuration"@,
        ) && r->Fail_0 is Disconnected,
        frame is TransportError ==> fails_with_text(r, frame->TransportError_0@)
            && r->Fail_0 is ProtocolError,
        frame is TimedOut ==> fails_with_text(r, "Session configuration timeout"@)
            && r->Fail_0 is ConnectionFailed,
{
    match frame {
        Incoming::Message(ServerMessage::SessionUpdated { session }) => HandshakeStep::Done(session.id),
        Incoming::Message(ServerMessage::Error { error }) => HandshakeStep::Fail(
            StreamingError::ProtocolError(error.message),
        ),
        Incoming::Message(_) | Incoming::Unparsed | Incoming::OtherFrame => HandshakeStep::KeepWaiting,
        Incoming::Closed | Incoming::Ended => {
            proof {
                reveal_strlit("Channel closed during configuration");
            }
            HandshakeStep::Fail(
                StreamingError::Disconnected(String::from_str("Channel closed during configuration")),
            )
        },
        Incoming::TransportError(e) => HandshakeStep::Fail(StreamingError::ProtocolError(e)),
        Incoming::TimedOut => {
            proof {
                reveal_strlit("Session configuration timeout");
            }
            HandshakeStep::Fail(
                StreamingError::ConnectionFailed(String::from_str("Session configuration timeout")),
            )
        },
    }
}

/// Takes one incoming message of recording `id` into the aggregate. A delta
/// is appended and forwarded to the workflow; a completed segment replaces
/// the aggregate's text; anything else changes nothing.
pub fn on_transcript_message(agg: &mut TranscriptAggregator, msg: ServerMessage, id: RecordingId) -> (r:
    Option<Event>)
    requires
        old(agg).count() < u64::MAX,
    ensures
        msg is TranscriptDelta ==> r == Some(Event::PartialDelta { id, delta: msg->delta }),
        msg is TranscriptDelta && msg->delta@.len() > 0 ==> final(agg).partial() == old(agg).partial()
            + msg->delta@ && final(agg).count() == old(agg).count() + 1,
        msg is TranscriptDelta && msg->delta@.len() == 0 ==> *final(agg) == *old(agg),
        msg is TranscriptDelta ==> final(agg).completed() == old(agg).completed(),
        msg is TranscriptCompleted ==> r is None && final(agg).current() == msg->transcript@
            && final(agg).partial() == old(agg).partial() && final(agg).count() == old(agg).count(),
        !(msg is TranscriptDelta) && !(msg is TranscriptCompleted) ==> r is None && *final(agg)
            == *old(agg),
{
    match msg {
        ServerMessage::TranscriptDelta { delta } => {
            agg.process_delta(delta.as_str());
            Some(Event::PartialDelta { id, delta })
        },
        ServerMessage::TranscriptCompleted { transcript } => {
            agg.process_completed(transcript.as_str());
            None
        },
        _ => None,
    }
}

} // verus!
