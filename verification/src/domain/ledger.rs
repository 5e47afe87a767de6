//! The session ledger: the append-only record that sessions are restored from.

use crate::clock::Timestamp;
use crate::domain::config::{SessionConfig, SessionConfigView};
use crate::domain::error::ErrorSource;
use crate::domain::types::{
    ContentBlock, ContentBlockView, MessageStatus, ToolOutput, ToolOutputView,
};
use crate::json::JsonValue;
use vstd::prelude::*;

verus! {

broadcast use vstd::std_specs::vec::vec_clone_deep_view_proof;

/// Keys of metadata events.
#[derive(Debug, Clone, Copy, PartialEq, Eq, Structural)]
pub enum MetadataKey {
    /// Configuration of the session.
    SessionConfig,
    /// Memory namespace of the session.
    MemoryNamespace,
    /// Latest compaction of the context.
    ContextCompaction,
    /// Latest memory checkpoint.
    MemoryCheckpoint,
}

/// State of a compaction.
#[derive(Debug, PartialEq, Eq)]
pub struct CompactionMarker {
    /// Largest ledger number that the summary covers.
    pub replaces_through_seq: u64,
    /// Summary text that stands in for the covered events.
    pub rendered_summary: String,
}

/// Model of [`CompactionMarker`].
#[verifier::ext_equal]
pub struct MarkerView {
    pub replaces_through_seq: u64,
    pub rendered_summary: Seq<char>,
}

impl DeepView for CompactionMarker {
    type V = MarkerView;

    open spec fn deep_view(&self) -> MarkerView {
        MarkerView {
            replaces_through_seq: self.replaces_through_seq,
            rendered_summary: self.rendered_summary@,
        }
    }
}

impl Clone for CompactionMarker {
    fn clone(&self) -> (r: Self)
        ensures
            r.deep_view() == self.deep_view(),
    {
        CompactionMarker {
            replaces_through_seq: self.replaces_through_seq,
            rendered_summary: self.rendered_summary.clone(),
        }
    }
}

/// A metadata value, as read under its key.
#[derive(Debug, PartialEq, Eq)]
pub enum MetadataValue {
    /// Under [`MetadataKey::SessionConfig`].
    SessionConfig(SessionConfig),
    /// Under [`MetadataKey::MemoryNamespace`].
    MemoryNamespace(String),
    /// Under [`MetadataKey::ContextCompaction`].
    ContextCompaction(CompactionMarker),
    /// Under [`MetadataKey::MemoryCheckpoint`]: the last ledger number covered.
    MemoryCheckpoint(u64),
    /// A stored value that could not be read under its key, and why.
    Malformed(ErrorSource),
}

/// Model of [`MetadataValue`].
#[verifier::ext_equal]
pub enum MetadataValueView {
    SessionConfig(SessionConfigView),
    MemoryNamespace(Seq<char>),
    ContextCompaction(MarkerView),
    MemoryCheckpoint(u64),
    Malformed(Seq<Seq<char>>),
}

impl DeepView for MetadataValue {
    type V = MetadataValueView;

    open spec fn deep_view(&self) -> MetadataValueView {
        match self {
            MetadataValue::SessionConfig(config) => MetadataValueView::SessionConfig(
                config.deep_view(),
            ),
            MetadataValue::MemoryNamespace(namespace) => MetadataValueView::MemoryNamespace(
                namespace@,
            ),
            MetadataValue::ContextCompaction(marker) => MetadataValueView::ContextCompaction(
                marker.deep_view(),
            ),
            MetadataValue::MemoryCheckpoint(seq) => MetadataValueView::MemoryCheckpoint(*seq),
            MetadataValue::Malformed(source) => MetadataValueView::Malformed(source.deep_view()),
        }
    }
}

impl Clone for MetadataValue {
    fn clone(&self) -> (r: Self)
        ensures
            r.deep_view() == self.deep_view(),
    {
        match self {
            MetadataValue::SessionConfig(config) => MetadataValue::SessionConfig(config.clone()),
            MetadataValue::MemoryNamespace(namespace) => MetadataValue::MemoryNamespace(
                namespace.clone(),
            ),
            MetadataValue::ContextCompaction(marker) => MetadataValue::ContextCompaction(
                marker.clone(),
            ),
            MetadataValue::MemoryCheckpoint(seq) => MetadataValue::MemoryCheckpoint(*seq),
            MetadataValue::Malformed(source) => MetadataValue::Malformed(source.clone()),
        }
    }
}

/// Why a value cannot be used under a key that it was not read for.
pub open spec fn unusable(value: MetadataValueView) -> Seq<Seq<char>> {
    match value {
        MetadataValueView::Malformed(source) => source,
        _ => seq!["metadata value does not match its key"@],
    }
}

impl MetadataValue {
    /// Why the value cannot be used under a key that it was not read for.
    pub fn unusable_source(&self) -> (r: ErrorSource)
        ensures
            r.deep_view() == unusable(self.deep_view()),
    {
        match self {
            MetadataValue::Malformed(source) => source.clone(),
            _ => ErrorSource::new("metadata value does not match its key"),
        }
    }
}

/// Payload of a ledger event.
#[derive(Debug, PartialEq, Eq)]
#[allow(inconsistent_fields)]
pub enum LedgerEventPayload {
    /// Message of the user.
    UserMessage {
        /// Content blocks.
        content: Vec<ContentBlock>,
    },
    /// Message of the assistant.
    AssistantMessage {
        /// Content blocks.
        content: Vec<ContentBlock>,
        /// Whether the message was finished.
        status: MessageStatus,
    },
    /// Tool call.
    ToolCall {
        /// Call id chosen by the provider.
        call_id: String,
        /// Tool name.
        tool_name: String,
        /// JSON arguments.
        arguments: JsonValue,
    },
    /// Tool result.
    ToolResult {
        /// Call id chosen by the provider.
        call_id: String,
        /// Tool output.
        output: ToolOutput,
    },
    /// System message.
    SystemMessage {
        /// Text of the message.
        content: String,
    },
    /// Metadata.
    Metadata {
        /// Key.
        key: MetadataKey,
        /// Value.
        value: MetadataValue,
    },
}

/// Model of [`LedgerEventPayload`].
#[verifier::ext_equal]
#[allow(inconsistent_fields)]
pub enum PayloadView {
    UserMessage { content: Seq<ContentBlockView> },
    AssistantMessage { content: Seq<ContentBlockView>, status: MessageStatus },
    ToolCall { call_id: Seq<char>, tool_name: Seq<char>, arguments: Seq<char> },
    ToolResult { call_id: Seq<char>, output: ToolOutputView },
    SystemMessage { content: Seq<char> },
    Metadata { key: MetadataKey, value: MetadataValueView },
}

impl DeepView for LedgerEventPayload {
    type V = PayloadView;

    open spec fn deep_view(&self) -> PayloadView {
        match self {
            LedgerEventPayload::UserMessage { content } => PayloadView::UserMessage {
                content: content.deep_view(),
            },
            LedgerEventPayload::AssistantMessage { content, status } =>
            PayloadView::AssistantMessage { content: content.deep_view(), status: *status },
            LedgerEventPayload::ToolCall { call_id, tool_name, arguments } =>
            PayloadView::ToolCall {
                call_id: call_id@,
                tool_name: tool_name@,
                arguments: arguments.deep_view(),
            },
            LedgerEventPayload::ToolResult { call_id, output } => PayloadView::ToolResult {
                call_id: call_id@,
                output: output.deep_view(),
            },
            LedgerEventPayload::SystemMessage { content } => PayloadView::SystemMessage {
                content: content@,
            },
            LedgerEventPayload::Metadata { key, value } => PayloadView::Metadata {
                key: *key,
                value: value.deep_view(),
            },
        }
    }
}

impl Clone for LedgerEventPayload {
    fn clone(&self) -> (r: Self)
        ensures
            r.deep_view() == self.deep_view(),
    {
        match self {
            LedgerEventPayload::UserMessage { content } => LedgerEventPayload::UserMessage {
                content: content.clone(),
            },
            LedgerEventPayload::AssistantMessage { content, status } =>
            LedgerEventPayload::AssistantMessage { content: content.clone(), status: *status },
            LedgerEventPayload::ToolCall { call_id, tool_name, arguments } =>
            LedgerEventPayload::ToolCall {
                call_id: call_id.clone(),
                tool_name: tool_name.clone(),
                arguments: arguments.clone(),
            },
            LedgerEventPayload::ToolResult { call_id, output } => LedgerEventPayload::ToolResult {
                call_id: call_id.clone(),
                output: output.clone(),
            },
            LedgerEventPayload::SystemMessage { content } => LedgerEventPayload::SystemMessage {
                content: content.clone(),
            },
            LedgerEventPayload::Metadata { key, value } => LedgerEventPayload::Metadata {
                key: *key,
                value: value.clone(),
            },
        }
    }
}

/// One event of the ledger.
#[derive(Debug, PartialEq, Eq)]
pub struct LedgerEvent {
    /// Number of the event.
    pub seq: u64,
    /// Time of the event.
    pub timestamp: Timestamp,
    /// Payload.
    pub payload: LedgerEventPayload,
}

/// Model of [`LedgerEvent`].
#[verifier::ext_equal]
pub struct LedgerEventView {
    pub seq: u64,
    pub timestamp: Timestamp,
    pub payload: PayloadView,
}

impl DeepView for LedgerEvent {
    type V = LedgerEventView;

    open spec fn deep_view(&self) -> LedgerEventView {
        LedgerEventView {
            seq: self.seq,
            timestamp: self.timestamp,
            payload: self.payload.deep_view(),
        }
    }
}

impl Clone for LedgerEvent {
    fn clone(&self) -> (r: Self)
        ensures
            r.deep_view() == self.deep_view(),
    {
        LedgerEvent {
            seq: self.seq,
            timestamp: self.timestamp,
            payload: self.payload.clone(),
        }
    }
}

/// The number behind `seq`, saturating.
pub open spec fn successor(seq: u64) -> u64 {
    if seq < u64::MAX {
        (seq + 1) as u64
    } else {
        u64::MAX
    }
}

/// The number that the next event of a ledger takes.
pub open spec fn next_number(events: Seq<LedgerEventView>) -> u64 {
    if events.len() == 0 {
        1
    } else {
        successor(events.last().seq)
    }
}

/// The latest metadata value under `key`.
pub open spec fn latest(events: Seq<LedgerEventView>, key: MetadataKey) -> Option<MetadataValueView>
    decreases events.len(),
{
    if events.len() == 0 {
        None
    } else {
        match events.last().payload {
            PayloadView::Metadata { key: k, value } if k == key => Some(value),
            _ => latest(events.drop_last(), key),
        }
    }
}

/// Event numbers grow along the ledger.
pub open spec fn strictly_numbered(events: Seq<LedgerEventView>) -> bool {
    forall|i: int, j: int|
        0 <= i < j < events.len() ==> (#[trigger] events[i]).seq < (#[trigger] events[j]).seq
}

/// In-memory ledger of a session.
#[derive(Debug)]
pub struct SessionLedger {
    events: Vec<LedgerEvent>,
    next_seq: u64,
}

impl DeepView for SessionLedger {
    type V = Seq<LedgerEventView>;

    closed spec fn deep_view(&self) -> Seq<LedgerEventView> {
        self.events.deep_view()
    }
}

impl SessionLedger {
    #[verifier::type_invariant]
    spec fn inv(self) -> bool {
        self.next_seq == next_number(self.events.deep_view())
    }

    /// An empty ledger.
    pub fn new() -> (r: Self)
        ensures
            r.deep_view() == Seq::<LedgerEventView>::empty(),
    {
        let r = SessionLedger { events: Vec::new(), next_seq: 1 };
        assert(r.deep_view() =~= Seq::<LedgerEventView>::empty());
        r
    }

    /// A ledger with the given events.
    pub fn from_events(events: Vec<LedgerEvent>) -> (r: Self)
        ensures
            r.deep_view() == events.deep_view(),
    {
        let n: usize = events.len();
        let next_seq: u64 = if n == 0 {
            1
        } else {
            events[n - 1].seq.saturating_add(1)
        };
        SessionLedger { events, next_seq }
    }

    /// Appends an event.
    pub fn append(&mut self, event: LedgerEvent)
        ensures
            final(self).deep_view() == old(self).deep_view().push(event.deep_view()),
    {
        let next_seq: u64 = event.seq.saturating_add(1);
        let mut taken = SessionLedger::new();
        std::mem::swap(&mut taken, self);
        let SessionLedger { events: old_events, .. } = taken;
        let mut events = old_events;
        events.push(event);
        assert(events.deep_view() =~= old(self).deep_view().push(event.deep_view()));
        *self = SessionLedger { events, next_seq };
    }

    /// The number that the next event takes.
    pub fn next_seq(&self) -> (r: u64)
        ensures
            r == next_number(self.deep_view()),
    {
        proof {
            use_type_invariant(self);
        }
        self.next_seq
    }

    /// All events, in order.
    pub fn events(&self) -> (r: &Vec<LedgerEvent>)
        ensures
            r.deep_view() == self.deep_view(),
    {
        &self.events
    }

    /// The latest metadata value under `key`.
    pub fn latest_metadata(&self, key: &MetadataKey) -> (r: Option<&MetadataValue>)
        ensures
            r.deep_view() == latest(self.deep_view(), *key),
    {
        let ghost all = self.deep_view();
        let mut i: usize = self.events.len();
        proof {
            assert(all.take(i as int) =~= all);
        }
        while i > 0
            invariant
                i <= self.events.len(),
                all == self.events.deep_view(),
                latest(all, *key) == latest(all.take(i as int), *key),
            decreases i,
        {
            i -= 1;
            proof {
                assert(all.take(i + 1).drop_last() =~= all.take(i as int));
                assert(all.take(i + 1).last() == self.events[i as int].deep_view());
            }
            match &self.events[i].payload {
                LedgerEventPayload::Metadata { key: event_key, value } => {
                    if *event_key == *key {
                        return Some(value);
                    }
                },
                _ => {},
            }
        }
        None
    }
}

/// An event that takes the next number leaves the ledger strictly numbered, as
/// long as the numbers last.
pub proof fn law_append_keeps_numbering(events: Seq<LedgerEventView>, event: LedgerEventView)
    requires
        strictly_numbered(events),
        event.seq == next_number(events),
        events.len() > 0 ==> events.last().seq < u64::MAX,
    ensures
        strictly_numbered(events.push(event)),
{
    let after = events.push(event);
    assert forall|i: int, j: int| 0 <= i < j < after.len() implies (#[trigger] after[i]).seq < (
    #[trigger] after[j]).seq by {
        if j == events.len() {
            if i < events.len() - 1 {
                assert(events[i].seq < events[events.len() - 1].seq);
            }
        }
    }
}

/// Metadata just appended is the latest under its key.
pub proof fn law_latest_reads_back(
    events: Seq<LedgerEventView>,
    event: LedgerEventView,
    key: MetadataKey,
    value: MetadataValueView,
)
    requires
        event.payload == (PayloadView::Metadata { key, value }),
    ensures
        latest(events.push(event), key) == Some(value),
{
    assert(events.push(event).last() == event);
}

/// An event that is no metadata under `key` does not change what is latest
/// under it.
pub proof fn law_latest_ignores_others(
    events: Seq<LedgerEventView>,
    event: LedgerEventView,
    key: MetadataKey,
)
    requires
        !(event.payload matches PayloadView::Metadata { key: k, .. } && k == key),
    ensures
        latest(events.push(event), key) == latest(events, key),
{
    assert(events.push(event).drop_last() =~= events);
}

} // verus!
