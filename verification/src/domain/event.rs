//! Events streamed to the caller while a turn runs.

use crate::clock::Timestamp;
use crate::domain::error::{AgentError, AgentErrorView};
use crate::domain::types::{ToolOutput, ToolOutputView};
use crate::json::JsonValue;
use vstd::prelude::*;

verus! {

/// One event of a turn.
#[derive(Debug, PartialEq, Eq)]
pub struct AgentEvent {
    /// Session id.
    pub session_id: String,
    /// Turn id.
    pub turn_id: String,
    /// Time of the event.
    pub timestamp: Timestamp,
    /// Number of the event within the session.
    pub sequence: u64,
    /// Payload.
    pub payload: AgentEventPayload,
}

/// Payload of an event.
#[derive(Debug, PartialEq, Eq)]
pub enum AgentEventPayload {
    /// More assistant text.
    TextDelta(String),
    /// More reasoning text.
    ReasoningDelta(String),
    /// A tool call starts.
    ToolCallStart {
        /// Call id chosen by the provider.
        call_id: String,
        /// Tool name.
        tool_name: String,
        /// Arguments of the call.
        arguments: JsonValue,
    },
    /// A tool call ended.
    ToolCallEnd {
        /// Call id chosen by the provider.
        call_id: String,
        /// Tool name.
        tool_name: String,
        /// Tool output.
        output: ToolOutput,
        /// Duration in milliseconds.
        duration_ms: u64,
        /// Whether the call succeeded.
        success: bool,
    },
    /// The context was compacted.
    ContextCompacted,
    /// The turn completed.
    TurnComplete,
    /// The turn was cancelled.
    TurnCancelled,
    /// Something failed.
    Error(AgentError),
}

/// Model of [`AgentEventPayload`].
#[verifier::ext_equal]
pub enum EventPayloadView {
    TextDelta(Seq<char>),
    ReasoningDelta(Seq<char>),
    ToolCallStart { call_id: Seq<char>, tool_name: Seq<char>, arguments: Seq<char> },
    ToolCallEnd {
        call_id: Seq<char>,
        tool_name: Seq<char>,
        output: ToolOutputView,
        duration_ms: u64,
        success: bool,
    },
    ContextCompacted,
    TurnComplete,
    TurnCancelled,
    Error(AgentErrorView),
}

impl DeepView for AgentEventPayload {
    type V = EventPayloadView;

    open spec fn deep_view(&self) -> EventPayloadView {
        match self {
            AgentEventPayload::TextDelta(text) => EventPayloadView::TextDelta(text@),
            AgentEventPayload::ReasoningDelta(text) => EventPayloadView::ReasoningDelta(text@),
            AgentEventPayload::ToolCallStart { call_id, tool_name, arguments } =>
            EventPayloadView::ToolCallStart {
                call_id: call_id@,
                tool_name: tool_name@,
                arguments: arguments.deep_view(),
            },
            AgentEventPayload::ToolCallEnd { call_id, tool_name, output, duration_ms, success } =>
            EventPayloadView::ToolCallEnd {
                call_id: call_id@,
                tool_name: tool_name@,
                output: output.deep_view(),
                duration_ms: *duration_ms,
                success: *success,
            },
            AgentEventPayload::ContextCompacted => EventPayloadView::ContextCompacted,
            AgentEventPayload::TurnComplete => EventPayloadView::TurnComplete,
            AgentEventPayload::TurnCancelled => EventPayloadView::TurnCancelled,
            AgentEventPayload::Error(error) => EventPayloadView::Error(error.deep_view()),
        }
    }
}

/// Model of [`AgentEvent`].
#[verifier::ext_equal]
pub struct AgentEventView {
    pub session_id: Seq<char>,
    pub turn_id: Seq<char>,
    pub timestamp: Timestamp,
    pub sequence: u64,
    pub payload: EventPayloadView,
}

impl DeepView for AgentEvent {
    type V = AgentEventView;

    open spec fn deep_view(&self) -> AgentEventView {
        AgentEventView {
            session_id: self.session_id@,
            turn_id: self.turn_id@,
            timestamp: self.timestamp,
            sequence: self.sequence,
            payload: self.payload.deep_view(),
        }
    }
}

} // verus!
