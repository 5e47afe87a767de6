//! The context that a model sees: its projection from the ledger, its size and
//! its compaction.

use crate::application::prompt_builder::RenderedPrompt;
use crate::application::request_builder::{
    request_of, ChatRequestBuilder, RequestBuildOptions, RequestContext, ResolvedSessionConfig,
};
use crate::domain::error::{outcome, AgentError, AgentErrorView, Result};
use crate::domain::ledger::{
    latest, unusable, CompactionMarker, LedgerEventPayload, LedgerEventView, MarkerView,
    MetadataKey, MetadataValue, MetadataValueView, PayloadView, SessionLedger,
};
use crate::domain::types::{
    ContentBlock, ContentBlockView, Message, MessageStatus, MessageView,
};
use crate::ports::model::{ChatRequest, ModelCapabilities, ToolDefinition};
use crate::prompt::templates::COMPACT_SUMMARY_PREFIX;
use crate::text::{byte_len, decimal, decimal_text, is_blank, trimmed, utf8_len};
use vstd::prelude::*;
use vstd::string::*;

verus! {

broadcast use vstd::std_specs::vec::vec_clone_deep_view_proof;

/// Notice behind an interrupted message in a restored context.
pub const RESUME_CANCEL_NOTICE: &'static str = "[此消息因用户取消而中断]";

/// Summary text for a context that was cut instead of summarised.
pub const TRUNCATION_SUMMARY_SUFFIX: &'static str =
    "[System note: Earlier context was truncated because summary compaction was unavailable. Continue from the most recent messages and treat missing earlier details as potentially incomplete.]";

// ---------------------------------------------------------------------------
// Projection
// ---------------------------------------------------------------------------
/// The message that a ledger payload stands for.
pub open spec fn message_of(payload: PayloadView) -> Option<MessageView> {
    match payload {
        PayloadView::UserMessage { content } => Some(MessageView::User { content }),
        PayloadView::AssistantMessage { content, status } => Some(
            MessageView::Assistant { content, status },
        ),
        PayloadView::ToolCall { call_id, tool_name, arguments } => Some(
            MessageView::ToolCall { call_id, tool_name, arguments },
        ),
        PayloadView::ToolResult { call_id, output } => Some(
            MessageView::ToolResult { call_id, output },
        ),
        PayloadView::SystemMessage { content } => Some(MessageView::System { content }),
        PayloadView::Metadata { .. } => None,
    }
}

/// The notice that follows an interrupted message.
pub open spec fn cancel_notice() -> MessageView {
    MessageView::System { content: RESUME_CANCEL_NOTICE@ }
}

/// Whether a message was interrupted.
pub open spec fn interrupted(message: MessageView) -> bool {
    message matches MessageView::Assistant { status, .. } && status is Incomplete
}

/// A visible message with the number of its ledger event, if it has one.
#[verifier::ext_equal]
pub struct EntryView {
    pub seq: Option<u64>,
    pub message: MessageView,
}

/// The entries that an event gives.
pub open spec fn entries_of(event: LedgerEventView) -> Seq<EntryView> {
    match message_of(event.payload) {
        Some(message) => if interrupted(message) {
            seq![
                EntryView { seq: Some(event.seq), message },
                EntryView { seq: None, message: cancel_notice() },
            ]
        } else {
            seq![EntryView { seq: Some(event.seq), message }]
        },
        None => Seq::empty(),
    }
}

/// The entries of all events with a number above `floor`.
pub open spec fn entries_above(events: Seq<LedgerEventView>, floor: u64) -> Seq<EntryView>
    decreases events.len(),
{
    if events.len() == 0 {
        Seq::empty()
    } else if events.last().seq > floor {
        entries_above(events.drop_last(), floor) + entries_of(events.last())
    } else {
        entries_above(events.drop_last(), floor)
    }
}

/// The largest number that a compaction covers.
pub open spec fn floor_of(marker: Option<MarkerView>) -> u64 {
    match marker {
        Some(m) => m.replaces_through_seq,
        None => 0,
    }
}

/// The entry of a compaction summary.
pub open spec fn summary_entries(marker: Option<MarkerView>) -> Seq<EntryView> {
    match marker {
        Some(m) => seq![
            EntryView {
                seq: None,
                message: MessageView::System { content: m.rendered_summary },
            },
        ],
        None => Seq::empty(),
    }
}

/// The visible entries of a ledger: the summary, then what it does not cover.
pub open spec fn projection(
    events: Seq<LedgerEventView>,
    marker: Option<MarkerView>,
) -> Seq<EntryView> {
    summary_entries(marker) + entries_above(events, floor_of(marker))
}

/// The messages of a list of entries.
pub open spec fn messages_of(entries: Seq<EntryView>) -> Seq<MessageView> {
    entries.map_values(|entry: EntryView| entry.message)
}

/// The visible messages of a ledger.
pub open spec fn visible(
    events: Seq<LedgerEventView>,
    marker: Option<MarkerView>,
) -> Seq<MessageView> {
    messages_of(projection(events, marker))
}

/// A visible message and the number of its ledger event.
#[derive(Debug)]
struct ProjectedMessage {
    seq: Option<u64>,
    message: Message,
}

impl DeepView for ProjectedMessage {
    type V = EntryView;

    closed spec fn deep_view(&self) -> EntryView {
        EntryView { seq: self.seq, message: self.message.deep_view() }
    }
}

/// Maps a ledger payload to the message that it stands for.
pub fn payload_to_message(payload: &LedgerEventPayload) -> (r: Option<Message>)
    ensures
        r.deep_view() == message_of(payload.deep_view()),
{
    match payload {
        LedgerEventPayload::UserMessage { content } => Some(
            Message::User { content: content.clone() },
        ),
        LedgerEventPayload::AssistantMessage { content, status } => Some(
            Message::Assistant { content: content.clone(), status: *status },
        ),
        LedgerEventPayload::ToolCall { call_id, tool_name, arguments } => Some(
            Message::ToolCall {
                call_id: call_id.clone(),
                tool_name: tool_name.clone(),
                arguments: arguments.clone(),
            },
        ),
        LedgerEventPayload::ToolResult { call_id, output } => Some(
            Message::ToolResult { call_id: call_id.clone(), output: output.clone() },
        ),
        LedgerEventPayload::SystemMessage { content } => Some(
            Message::System { content: content.clone() },
        ),
        LedgerEventPayload::Metadata { .. } => None,
    }
}

fn push_projected_message(
    projected: &mut Vec<ProjectedMessage>,
    seq: u64,
    payload: &LedgerEventPayload,
)
    ensures
        forall|timestamp|
            final(projected).deep_view() == old(projected).deep_view() + #[trigger] entries_of(
                LedgerEventView { seq, timestamp, payload: payload.deep_view() },
            ),
{
    match payload_to_message(payload) {
        Some(message) => {
            let notice = match &message {
                Message::Assistant { status, .. } => *status == MessageStatus::Incomplete,
                _ => false,
            };
            let ghost shown = message.deep_view();
            projected.push(ProjectedMessage { seq: Some(seq), message });
            if notice {
                projected.push(
                    ProjectedMessage {
                        seq: None,
                        message: Message::System { content: RESUME_CANCEL_NOTICE.to_owned() },
                    },
                );
                proof {
                    assert(projected.deep_view() =~= old(projected).deep_view() + seq![
                        EntryView { seq: Some(seq), message: shown },
                        EntryView { seq: None, message: cancel_notice() },
                    ]);
                }
            } else {
                proof {
                    assert(projected.deep_view() =~= old(projected).deep_view() + seq![
                        EntryView { seq: Some(seq), message: shown },
                    ]);
                }
            }
        },
        None => {
            proof {
                assert(projected.deep_view() =~= old(projected).deep_view() + Seq::<
                    EntryView,
                >::empty());
            }
        },
    }
}

fn project_visible_entries(
    ledger: &SessionLedger,
    latest_compaction: &Option<CompactionMarker>,
) -> (r: Vec<ProjectedMessage>)
    ensures
        r.deep_view() == projection(ledger.deep_view(), latest_compaction.deep_view()),
{
    let mut projected: Vec<ProjectedMessage> = Vec::new();
    let floor: u64 = match latest_compaction {
        Some(marker) => marker.replaces_through_seq,
        None => 0,
    };
    match latest_compaction {
        Some(marker) => {
            projected.push(
                ProjectedMessage {
                    seq: None,
                    message: Message::System { content: marker.rendered_summary.clone() },
                },
            );
        },
        None => {},
    }
    let ghost head = summary_entries(latest_compaction.deep_view());
    let ghost all = ledger.deep_view();
    let events = ledger.events();
    proof {
        assert(projected.deep_view() =~= head + entries_above(all.take(0), floor));
    }
    let mut i: usize = 0;
    while i < events.len()
        invariant
            i <= events.len(),
            all == events.deep_view(),
            projected.deep_view() == head + entries_above(all.take(i as int), floor),
        decreases events.len() - i,
    {
        let event = &events[i];
        proof {
            assert(all.take(i + 1).drop_last() =~= all.take(i as int));
            assert(all.take(i + 1).last() == event.deep_view());
        }
        if event.seq > floor {
            let ghost before = projected.deep_view();
            push_projected_message(&mut projected, event.seq, &event.payload);
            proof {
                assert(event.deep_view() == LedgerEventView {
                    seq: event.seq,
                    timestamp: event.timestamp,
                    payload: event.payload.deep_view(),
                });
                assert(projected.deep_view() =~= head + entries_above(all.take(i + 1), floor));
            }
        }
        i += 1;
    }
    proof {
        assert(all.take(all.len() as int) =~= all);
    }
    projected
}

fn messages_between(entries: &Vec<ProjectedMessage>, from: usize, to: usize) -> (r: Vec<Message>)
    requires
        from <= to <= entries.len(),
    ensures
        r.deep_view() == messages_of(entries.deep_view()).subrange(from as int, to as int),
{
    let ghost all = messages_of(entries.deep_view());
    let mut out: Vec<Message> = Vec::new();
    let mut i: usize = from;
    while i < to
        invariant
            from <= i <= to <= entries.len(),
            all == messages_of(entries.deep_view()),
            out.deep_view() =~= all.subrange(from as int, i as int),
        decreases to - i,
    {
        let ghost before = out.deep_view();
        out.push(entries[i].message.clone());
        proof {
            assert(out.deep_view() =~= before.push(all[i as int]));
        }
        i += 1;
    }
    out
}

fn rebuild_visible_messages(
    ledger: &SessionLedger,
    latest_compaction: &Option<CompactionMarker>,
) -> (r: Vec<Message>)
    ensures
        r.deep_view() == visible(ledger.deep_view(), latest_compaction.deep_view()),
{
    let entries = project_visible_entries(ledger, latest_compaction);
    let r = messages_between(&entries, 0, entries.len());
    proof {
        assert(r.deep_view() =~= messages_of(entries.deep_view()));
    }
    r
}

// ---------------------------------------------------------------------------
// Size
// ---------------------------------------------------------------------------
/// `n`, or the largest `usize` where it does not fit.
pub open spec fn capped(n: nat) -> usize {
    if n <= usize::MAX {
        n as usize
    } else {
        usize::MAX
    }
}

/// Bytes of a content block.
pub open spec fn block_size(block: ContentBlockView) -> nat {
    match block {
        ContentBlockView::Text(text) => utf8_len(text),
        ContentBlockView::Image { data, media_type } => utf8_len(data) + utf8_len(media_type),
        ContentBlockView::File { name, media_type, text } => utf8_len(name) + utf8_len(media_type)
            + utf8_len(text),
    }
}

/// Bytes of all content blocks.
pub open spec fn blocks_size(blocks: Seq<ContentBlockView>) -> nat
    decreases blocks.len(),
{
    if blocks.len() == 0 {
        0
    } else {
        blocks_size(blocks.drop_last()) + block_size(blocks.last())
    }
}

/// Bytes of a message.
pub open spec fn message_size(message: MessageView) -> nat {
    match message {
        MessageView::User { content } => blocks_size(content),
        MessageView::Assistant { content, .. } => blocks_size(content),
        MessageView::ToolCall { call_id, tool_name, arguments } => utf8_len(call_id) + utf8_len(
            tool_name,
        ) + utf8_len(arguments),
        MessageView::ToolResult { call_id, output } => utf8_len(call_id) + utf8_len(output.content)
            + utf8_len(output.metadata),
        MessageView::System { content } => utf8_len(content),
    }
}

/// Bytes of all messages.
pub open spec fn messages_size(messages: Seq<MessageView>) -> nat
    decreases messages.len(),
{
    if messages.len() == 0 {
        0
    } else {
        messages_size(messages.drop_last()) + message_size(messages.last())
    }
}

/// Rough number of tokens: a quarter of the bytes.
pub open spec fn estimated(messages: Seq<MessageView>) -> usize {
    (capped(messages_size(messages)) / 4) as usize
}

/// Bytes of a content block, saturating.
pub fn content_block_chars(block: &ContentBlock) -> (r: usize)
    ensures
        r == capped(block_size(block.deep_view())),
{
    match block {
        ContentBlock::Text(text) => byte_len(text.as_str()),
        ContentBlock::Image { data, media_type } => byte_len(data.as_str()).saturating_add(
            byte_len(media_type.as_str()),
        ),
        ContentBlock::File { name, media_type, text } => byte_len(name.as_str()).saturating_add(
            byte_len(media_type.as_str()),
        ).saturating_add(byte_len(text.as_str())),
    }
}

fn content_chars(content: &Vec<ContentBlock>) -> (r: usize)
    ensures
        r == capped(blocks_size(content.deep_view())),
{
    let ghost all = content.deep_view();
    let mut total: usize = 0;
    let mut i: usize = 0;
    while i < content.len()
        invariant
            i <= content.len(),
            all == content.deep_view(),
            total == capped(blocks_size(all.take(i as int))),
        decreases content.len() - i,
    {
        proof {
            assert(all.take(i + 1).drop_last() =~= all.take(i as int));
            assert(all.take(i + 1).last() == content[i as int].deep_view());
        }
        total = total.saturating_add(content_block_chars(&content[i]));
        i += 1;
    }
    proof {
        assert(all.take(all.len() as int) =~= all);
    }
    total
}

/// Bytes of a message, saturating.
pub fn message_chars(message: &Message) -> (r: usize)
    ensures
        r == capped(message_size(message.deep_view())),
{
    match message {
        Message::User { content } => content_chars(content),
        Message::Assistant { content, .. } => content_chars(content),
        Message::ToolCall { call_id, tool_name, arguments } => byte_len(
            call_id.as_str(),
        ).saturating_add(byte_len(tool_name.as_str())).saturating_add(byte_len(arguments.text())),
        Message::ToolResult { call_id, output } => byte_len(call_id.as_str()).saturating_add(
            byte_len(output.content.as_str()),
        ).saturating_add(byte_len(output.metadata.text())),
        Message::System { content } => byte_len(content.as_str()),
    }
}

/// Rough number of tokens of a history.
pub fn estimate_messages_tokens(messages: &Vec<Message>) -> (r: usize)
    ensures
        r == estimated(messages.deep_view()),
{
    let ghost all = messages.deep_view();
    let mut total: usize = 0;
    let mut i: usize = 0;
    while i < messages.len()
        invariant
            i <= messages.len(),
            all == messages.deep_view(),
            total == capped(messages_size(all.take(i as int))),
        decreases messages.len() - i,
    {
        proof {
            assert(all.take(i + 1).drop_last() =~= all.take(i as int));
            assert(all.take(i + 1).last() == messages[i as int].deep_view());
        }
        total = total.saturating_add(message_chars(&messages[i]));
        i += 1;
    }
    proof {
        assert(all.take(all.len() as int) =~= all);
    }
    total / 4
}

// ---------------------------------------------------------------------------
// Compaction
// ---------------------------------------------------------------------------
/// The number of the latest user message above `floor`: where the current turn
/// starts.
pub open spec fn anchor(events: Seq<LedgerEventView>, floor: u64) -> Option<u64>
    decreases events.len(),
{
    if events.len() == 0 {
        None
    } else if events.last().payload is UserMessage && events.last().seq > floor {
        Some(events.last().seq)
    } else {
        anchor(events.drop_last(), floor)
    }
}

/// Position of the first entry with a number, or the length without one.
pub open spec fn position_of(entries: Seq<EntryView>, seq: u64) -> nat
    decreases entries.len(),
{
    if entries.len() == 0 || entries[0].seq == Some(seq) {
        0
    } else {
        1 + position_of(entries.drop_first(), seq)
    }
}

/// What a compaction works on.
#[derive(Debug, PartialEq, Eq)]
pub struct CompactionPlan {
    /// Messages that the summary replaces.
    pub compactable_messages: Vec<Message>,
    /// Messages of the current turn, which stay.
    pub retained_messages: Vec<Message>,
    /// Largest ledger number that the summary covers.
    pub replaces_through_seq: u64,
}

/// Model of [`CompactionPlan`].
#[verifier::ext_equal]
pub struct PlanView {
    pub compactable: Seq<MessageView>,
    pub retained: Seq<MessageView>,
    pub replaces_through_seq: u64,
}

impl DeepView for CompactionPlan {
    type V = PlanView;

    open spec fn deep_view(&self) -> PlanView {
        PlanView {
            compactable: self.compactable_messages.deep_view(),
            retained: self.retained_messages.deep_view(),
            replaces_through_seq: self.replaces_through_seq,
        }
    }
}

/// A failed compaction.
pub open spec fn compact_error(message: Seq<char>) -> AgentErrorView {
    AgentErrorView::CompactError { message }
}

/// The plan of a compaction: everything in front of the current turn goes.
pub open spec fn plan_of(
    events: Seq<LedgerEventView>,
    marker: Option<MarkerView>,
) -> std::result::Result<PlanView, AgentErrorView> {
    let entries = projection(events, marker);
    match anchor(events, floor_of(marker)) {
        None => Err(compact_error("no current turn user anchor is available for compaction"@)),
        Some(seq) => {
            let split = position_of(entries, seq) as int;
            if split >= entries.len() {
                Err(compact_error("current turn anchor is missing from visible history"@))
            } else if split == 0 {
                Err(compact_error("no earlier history can be compacted before the current turn"@))
            } else {
                Ok(
                    PlanView {
                        compactable: messages_of(entries).take(split),
                        retained: messages_of(entries).skip(split),
                        replaces_through_seq: if seq > 0 {
                            (seq - 1) as u64
                        } else {
                            0
                        },
                    },
                )
            }
        },
    }
}

fn compact_failure(message: &str) -> (r: AgentError)
    ensures
        r.deep_view() == compact_error(message@),
{
    AgentError::CompactError { message: message.to_owned() }
}

/// Finds where the current turn starts.
pub fn find_current_turn_anchor_seq(
    ledger: &SessionLedger,
    latest_compaction: &Option<CompactionMarker>,
) -> (r: Result<u64>)
    ensures
        match anchor(ledger.deep_view(), floor_of(latest_compaction.deep_view())) {
            Some(seq) => r == Ok::<u64, AgentError>(seq),
            None => r matches Err(error) && error.deep_view() == compact_error(
                "no current turn user anchor is available for compaction"@,
            ),
        },
{
    let floor: u64 = match latest_compaction {
        Some(marker) => marker.replaces_through_seq,
        None => 0,
    };
    let events = ledger.events();
    let ghost all = ledger.deep_view();
    let mut i: usize = events.len();
    proof {
        assert(all.take(i as int) =~= all);
    }
    while i > 0
        invariant
            i <= events.len(),
            all == events.deep_view(),
            all == ledger.deep_view(),
            floor == floor_of(latest_compaction.deep_view()),
            anchor(all, floor) == anchor(all.take(i as int), floor),
        decreases i,
    {
        i -= 1;
        proof {
            assert(all.take(i + 1).drop_last() =~= all.take(i as int));
            assert(all.take(i + 1).last() == events[i as int].deep_view());
        }
        match &events[i].payload {
            LedgerEventPayload::UserMessage { .. } => {
                if events[i].seq > floor {
                    return Ok(events[i].seq);
                }
            },
            _ => {},
        }
    }
    Err(compact_failure("no current turn user anchor is available for compaction"))
}

impl CompactionPlan {
    /// Works out what a compaction replaces and what it keeps.
    pub fn build(
        ledger: &SessionLedger,
        latest_compaction: &Option<CompactionMarker>,
    ) -> (r: Result<Self>)
        ensures
            outcome(r) == plan_of(ledger.deep_view(), latest_compaction.deep_view()),
    {
        let entries = project_visible_entries(ledger, latest_compaction);
        let anchor_seq: u64 = match find_current_turn_anchor_seq(ledger, latest_compaction) {
            Ok(seq) => seq,
            Err(error) => {
                return Err(error);
            },
        };
        let ghost all = entries.deep_view();
        let mut split: usize = 0;
        proof {
            assert(all.skip(0) =~= all);
        }
        while split < entries.len() && !is_number(&entries[split].seq, anchor_seq)
            invariant
                split <= entries.len(),
                all == entries.deep_view(),
                position_of(all, anchor_seq) == split + position_of(
                    all.skip(split as int),
                    anchor_seq,
                ),
            decreases entries.len() - split,
        {
            proof {
                assert(all.skip(split as int)[0] == entries[split as int].deep_view());
                assert(all.skip(split as int).drop_first() =~= all.skip(split + 1));
            }
            split += 1;
        }
        if split == entries.len() {
            return Err(compact_failure("current turn anchor is missing from visible history"));
        }
        proof {
            assert(all.skip(split as int)[0] == entries[split as int].deep_view());
        }
        if split == 0 {
            return Err(
                compact_failure("no earlier history can be compacted before the current turn"),
            );
        }
        let compactable_messages = messages_between(&entries, 0, split);
        let retained_messages = messages_between(&entries, split, entries.len());
        proof {
            assert(compactable_messages.deep_view() =~= messages_of(all).take(split as int));
            assert(retained_messages.deep_view() =~= messages_of(all).skip(split as int));
        }
        Ok(
            CompactionPlan {
                compactable_messages,
                retained_messages,
                replaces_through_seq: anchor_seq.saturating_sub(1),
            },
        )
    }
}

fn is_number(seq: &Option<u64>, wanted: u64) -> (r: bool)
    ensures
        r == (*seq == Some(wanted)),
{
    match seq {
        Some(n) => *n == wanted,
        None => false,
    }
}

/// The text of a summary.
pub open spec fn summary_text(summary: Seq<char>) -> Seq<char> {
    COMPACT_SUMMARY_PREFIX@ + "\n\n"@ + summary
}

/// Renders the text of a summary.
pub fn render_summary_message(summary: &str) -> (r: String)
    ensures
        r@ == summary_text(summary@),
{
    COMPACT_SUMMARY_PREFIX.to_owned().concat("\n\n").concat(summary)
}

/// Renders the text that stands in for a summary after a cut.
pub fn render_truncation_summary() -> (r: String)
    ensures
        r@ == summary_text(TRUNCATION_SUMMARY_SUFFIX@),
{
    COMPACT_SUMMARY_PREFIX.to_owned().concat("\n\n").concat(TRUNCATION_SUMMARY_SUFFIX)
}

/// Token budget after a cut: three tenths of the window.
pub open spec fn truncation_target(context_window: usize) -> usize {
    (capped((context_window * 3) as nat) / 10) as usize
}

/// Token budget after a cut.
pub fn truncation_target_tokens(context_window: usize) -> (r: usize)
    ensures
        r == truncation_target(context_window),
{
    let tripled: usize = context_window.saturating_add(context_window).saturating_add(
        context_window,
    );
    tripled / 10
}

/// A marker whose summary and retained messages fit a budget, or the error that
/// names the estimate.
pub open spec fn fitting_marker(
    plan: PlanView,
    summary: Seq<char>,
    max_tokens: usize,
    complaint: Seq<char>,
) -> std::result::Result<MarkerView, AgentErrorView> {
    let shown = seq![MessageView::System { content: summary }] + plan.retained;
    if estimated(shown) > max_tokens {
        Err(
            compact_error(
                complaint + ": estimated "@ + decimal(estimated(shown) as nat) + " tokens"@,
            ),
        )
    } else {
        Ok(
            MarkerView {
                replaces_through_seq: plan.replaces_through_seq,
                rendered_summary: summary,
            },
        )
    }
}

/// The marker for a summary text.
pub open spec fn summary_marker(
    plan: PlanView,
    summary: Seq<char>,
    context_window: usize,
) -> std::result::Result<MarkerView, AgentErrorView> {
    if is_blank(summary) {
        Err(compact_error("compact model returned an empty summary"@))
    } else {
        fitting_marker(
            plan,
            summary_text(trimmed(summary)),
            context_window,
            "summary compaction output still exceeds the context window"@,
        )
    }
}

/// The marker for a cut.
pub open spec fn truncation_marker(
    plan: PlanView,
    context_window: usize,
) -> std::result::Result<MarkerView, AgentErrorView> {
    fitting_marker(
        plan,
        summary_text(TRUNCATION_SUMMARY_SUFFIX@),
        truncation_target(context_window),
        "truncation fallback still cannot fit the preserved current turn"@,
    )
}

/// The marker that follows from an attempt to have the context summarised: a
/// usable summary gives its marker, a cancelled request stays cancelled, and
/// anything else falls back to a cut.
pub open spec fn settled_marker(
    plan: PlanView,
    attempt: std::result::Result<Seq<char>, AgentErrorView>,
    context_window: usize,
) -> std::result::Result<MarkerView, AgentErrorView> {
    match attempt {
        Err(AgentErrorView::RequestCancelled) => Err(AgentErrorView::RequestCancelled),
        Err(_) => truncation_marker(plan, context_window),
        Ok(summary) => match summary_marker(plan, summary, context_window) {
            Ok(marker) => Ok(marker),
            Err(_) => truncation_marker(plan, context_window),
        },
    }
}

/// The compaction marker recorded in a ledger.
pub open spec fn recorded_marker(
    events: Seq<LedgerEventView>,
) -> std::result::Result<Option<MarkerView>, AgentErrorView> {
    match latest(events, MetadataKey::ContextCompaction) {
        None => Ok(None),
        Some(MetadataValueView::ContextCompaction(marker)) => Ok(Some(marker)),
        Some(value) => Err(
            AgentErrorView::StorageError(
                seq!["failed to deserialize context compaction metadata"@] + unusable(value),
            ),
        ),
    }
}

/// Reads a compaction marker from a metadata value.
pub fn read_marker(value: &MetadataValue) -> (r: Result<CompactionMarker>)
    ensures
        match value.deep_view() {
            MetadataValueView::ContextCompaction(marker) => outcome(r) == Ok::<
                MarkerView,
                AgentErrorView,
            >(marker),
            other => outcome(r) == Err::<MarkerView, AgentErrorView>(
                AgentErrorView::StorageError(
                    seq!["failed to deserialize context compaction metadata"@] + unusable(other),
                ),
            ),
        },
{
    match value {
        MetadataValue::ContextCompaction(marker) => Ok(marker.clone()),
        _ => Err(
            AgentError::StorageError(
                value.unusable_source().context(
                    "failed to deserialize context compaction metadata",
                ),
            ),
        ),
    }
}

fn latest_compaction_marker(ledger: &SessionLedger) -> (r: Result<Option<CompactionMarker>>)
    ensures
        outcome(r) == recorded_marker(ledger.deep_view()),
{
    match ledger.latest_metadata(&MetadataKey::ContextCompaction) {
        None => Ok(None),
        Some(value) => match read_marker(value) {
            Ok(marker) => Ok(Some(marker)),
            Err(error) => Err(error),
        },
    }
}

/// The context that a model sees.
#[derive(Debug)]
pub struct ContextManager {
    latest_compaction: Option<CompactionMarker>,
    visible_messages: Vec<Message>,
    estimated_tokens: usize,
    context_window: usize,
    compact_limit: usize,
}

/// Model of [`ContextManager`].
#[verifier::ext_equal]
pub struct ContextView {
    pub latest: Option<MarkerView>,
    pub visible: Seq<MessageView>,
    pub context_window: usize,
    pub compact_limit: usize,
}

impl DeepView for ContextManager {
    type V = ContextView;

    closed spec fn deep_view(&self) -> ContextView {
        ContextView {
            latest: self.latest_compaction.deep_view(),
            visible: self.visible_messages.deep_view(),
            context_window: self.context_window,
            compact_limit: self.compact_limit,
        }
    }
}

/// The context that a ledger gives.
pub open spec fn rebuilt(
    events: Seq<LedgerEventView>,
    context_window: usize,
    compact_limit: usize,
) -> std::result::Result<ContextView, AgentErrorView> {
    match recorded_marker(events) {
        Ok(marker) => Ok(
            ContextView {
                latest: marker,
                visible: visible(events, marker),
                context_window,
                compact_limit,
            },
        ),
        Err(error) => Err(error),
    }
}

impl ContextManager {
    #[verifier::type_invariant]
    spec fn inv(self) -> bool {
        self.estimated_tokens == estimated(self.visible_messages.deep_view())
    }

    /// An empty context for a window of `context_window` tokens, to be
    /// compacted above `compact_limit` tokens.
    pub fn new(context_window: usize, compact_limit: usize) -> (r: Self)
        ensures
            r.deep_view() == (ContextView {
                latest: None,
                visible: Seq::empty(),
                context_window,
                compact_limit,
            }),
    {
        let visible_messages: Vec<Message> = Vec::new();
        assert(visible_messages.deep_view() =~= Seq::<MessageView>::empty());
        ContextManager {
            latest_compaction: None,
            visible_messages,
            estimated_tokens: 0,
            context_window,
            compact_limit,
        }
    }

    /// Rebuilds the context from a whole ledger.
    pub fn rebuild_from_ledger(
        ledger: &SessionLedger,
        context_window: usize,
        compact_limit: usize,
    ) -> (r: Result<Self>)
        ensures
            outcome(r) == rebuilt(ledger.deep_view(), context_window, compact_limit),
    {
        let latest_compaction = match latest_compaction_marker(ledger) {
            Ok(marker) => marker,
            Err(error) => {
                return Err(error);
            },
        };
        let visible_messages = rebuild_visible_messages(ledger, &latest_compaction);
        let estimated_tokens: usize = estimate_messages_tokens(&visible_messages);
        Ok(
            ContextManager {
                latest_compaction,
                visible_messages,
                estimated_tokens,
                context_window,
                compact_limit,
            },
        )
    }

    /// Appends a message that has been persisted.
    pub fn push(&mut self, message: Message)
        ensures
            final(self).deep_view() == (ContextView {
                visible: old(self).deep_view().visible.push(message.deep_view()),
                ..old(self).deep_view()
            }),
    {
        let mut taken = ContextManager::new(0, 0);
        std::mem::swap(&mut taken, self);
        let ContextManager {
            latest_compaction,
            visible_messages: old_messages,
            context_window,
            compact_limit,
            ..
        } = taken;
        let mut visible_messages = old_messages;
        visible_messages.push(message);
        proof {
            assert(visible_messages.deep_view() =~= old(self).deep_view().visible.push(
                message.deep_view(),
            ));
        }
        let estimated_tokens: usize = estimate_messages_tokens(&visible_messages);
        *self = ContextManager {
            latest_compaction,
            visible_messages,
            estimated_tokens,
            context_window,
            compact_limit,
        };
    }

    /// The context handed to the request builder.
    pub fn build_request_context(
        &self,
        model_capabilities: ModelCapabilities,
        tool_definitions: Vec<ToolDefinition>,
    ) -> (r: RequestContext)
        ensures
            r.messages.deep_view() == self.deep_view().visible,
            r.model_capabilities == model_capabilities,
            r.tool_definitions == tool_definitions,
    {
        RequestContext {
            messages: self.visible_messages.clone(),
            model_capabilities,
            tool_definitions,
        }
    }

    /// Applies a compaction marker that has been persisted.
    pub fn apply_compaction_marker(&mut self, ledger: &SessionLedger, marker: CompactionMarker)
        ensures
            final(self).deep_view() == (ContextView {
                latest: Some(marker.deep_view()),
                visible: visible(ledger.deep_view(), Some(marker.deep_view())),
                ..old(self).deep_view()
            }),
    {
        let latest_compaction = Some(marker);
        let visible_messages = rebuild_visible_messages(ledger, &latest_compaction);
        let estimated_tokens: usize = estimate_messages_tokens(&visible_messages);
        let context_window: usize = self.context_window;
        let compact_limit: usize = self.compact_limit;
        *self = ContextManager {
            latest_compaction,
            visible_messages,
            estimated_tokens,
            context_window,
            compact_limit,
        };
    }

    /// The visible messages.
    pub fn visible_messages(&self) -> (r: &Vec<Message>)
        ensures
            r.deep_view() == self.deep_view().visible,
    {
        &self.visible_messages
    }

    /// Rough number of tokens of the visible messages.
    pub fn estimated_tokens(&self) -> (r: usize)
        ensures
            r == estimated(self.deep_view().visible),
    {
        proof {
            use_type_invariant(self);
        }
        self.estimated_tokens
    }

    /// Whether a request with a prompt and tools of the given sizes calls for
    /// a compaction first.
    pub fn needs_compaction(&self, prompt_chars: usize, tools_chars: usize) -> (r: bool)
        ensures
            r == (capped(
                (estimated(self.deep_view().visible) + prompt_chars / 4 + tools_chars / 4) as nat,
            ) > self.deep_view().compact_limit),
    {
        let total: usize = self.estimated_tokens().saturating_add(prompt_chars / 4).saturating_add(
            tools_chars / 4,
        );
        total > self.compact_limit
    }

    /// What a compaction would replace and keep.
    pub fn plan_compaction(&self, ledger: &SessionLedger) -> (r: Result<CompactionPlan>)
        ensures
            outcome(r) == plan_of(ledger.deep_view(), self.deep_view().latest),
    {
        CompactionPlan::build(ledger, &self.latest_compaction)
    }

    /// The marker that follows from an attempt to have the context summarised.
    pub fn generate_compaction_marker(
        &self,
        plan: &CompactionPlan,
        attempt: Result<String>,
    ) -> (r: Result<CompactionMarker>)
        ensures
            outcome(r) == settled_marker(
                plan.deep_view(),
                outcome(attempt),
                self.deep_view().context_window,
            ),
    {
        match attempt {
            Err(AgentError::RequestCancelled) => Err(AgentError::RequestCancelled),
            Err(_) => self.generate_truncation_marker(plan),
            Ok(summary) => match self.try_generate_summary_marker(plan, summary.as_str()) {
                Ok(marker) => Ok(marker),
                Err(_) => self.generate_truncation_marker(plan),
            },
        }
    }

    fn try_generate_summary_marker(
        &self,
        plan: &CompactionPlan,
        summary: &str,
    ) -> (r: Result<CompactionMarker>)
        ensures
            outcome(r) == summary_marker(
                plan.deep_view(),
                summary@,
                self.deep_view().context_window,
            ),
    {
        let body = summary.trim();
        if body.is_empty() {
            return Err(compact_failure("compact model returned an empty summary"));
        }
        ensure_projection_fits(
            plan,
            render_summary_message(body),
            self.context_window,
            "summary compaction output still exceeds the context window",
        )
    }

    fn generate_truncation_marker(&self, plan: &CompactionPlan) -> (r: Result<CompactionMarker>)
        ensures
            outcome(r) == truncation_marker(plan.deep_view(), self.deep_view().context_window),
    {
        ensure_projection_fits(
            plan,
            render_truncation_summary(),
            truncation_target_tokens(self.context_window),
            "truncation fallback still cannot fit the preserved current turn",
        )
    }
}

fn build_projected_messages(
    rendered_summary: &String,
    retained_messages: &Vec<Message>,
) -> (r: Vec<Message>)
    ensures
        r.deep_view() == seq![MessageView::System { content: rendered_summary@ }]
            + retained_messages.deep_view(),
{
    let mut projected: Vec<Message> = Vec::new();
    projected.push(Message::System { content: rendered_summary.clone() });
    let mut retained = retained_messages.clone();
    let ghost kept = retained.deep_view();
    projected.append(&mut retained);
    proof {
        assert(projected.deep_view() =~= seq![
            MessageView::System { content: rendered_summary@ },
        ] + kept);
    }
    projected
}

fn ensure_projection_fits(
    plan: &CompactionPlan,
    rendered_summary: String,
    max_tokens: usize,
    complaint: &str,
) -> (r: Result<CompactionMarker>)
    ensures
        outcome(r) == fitting_marker(
            plan.deep_view(),
            rendered_summary@,
            max_tokens,
            complaint@,
        ),
{
    let projected = build_projected_messages(&rendered_summary, &plan.retained_messages);
    let estimate: usize = estimate_messages_tokens(&projected);
    if estimate > max_tokens {
        return Err(
            AgentError::CompactError {
                message: complaint.to_owned().concat(": estimated ").concat(
                    decimal_text(estimate as u64).as_str(),
                ).concat(" tokens"),
            },
        );
    }
    Ok(CompactionMarker { replaces_through_seq: plan.replaces_through_seq, rendered_summary })
}

/// The request that asks a model for a summary.
pub fn build_compaction_request(
    plan: &CompactionPlan,
    compact_model_id: &str,
    compact_model_capabilities: ModelCapabilities,
    compact_prompt: &str,
) -> (r: Result<ChatRequest>)
    ensures
        outcome(r) == request_of(
            compact_prompt@,
            plan.deep_view().compactable,
            compact_model_capabilities,
            Seq::empty(),
            compact_model_id@,
            false,
        ),
{
    let tool_definitions: Vec<ToolDefinition> = Vec::new();
    ChatRequestBuilder::new().build(
        &RenderedPrompt { text: compact_prompt.to_owned() },
        &RequestContext {
            messages: plan.compactable_messages.clone(),
            model_capabilities: compact_model_capabilities,
            tool_definitions,
        },
        &ResolvedSessionConfig {
            model_id: compact_model_id.to_owned(),
            system_prompt_override: None,
        },
        &RequestBuildOptions { allow_tools: false },
    )
}

} // verus!
