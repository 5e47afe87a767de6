//! Laws of the size of a context: what counts towards it, how it is estimated,
//! and what a compaction makes of it. They also say which messages of a ledger a
//! model sees.

use crate::application::context_manager::{
    anchor, block_size, blocks_size, capped, entries_above, estimated, floor_of, message_size,
    messages_of, messages_size, plan_of, projection, settled_marker, visible, EntryView, PlanView,
    RESUME_CANCEL_NOTICE, TRUNCATION_SUMMARY_SUFFIX,
};
use crate::domain::error::AgentErrorView;
use crate::domain::ledger::{LedgerEventView, MarkerView, PayloadView};
use crate::domain::types::{ContentBlockView, MessageStatus, MessageView, ToolOutputView};
use crate::prompt::templates::COMPACT_SUMMARY_PREFIX;
use crate::text::{is_blank, lemma_utf8_len_concat, trimmed, utf8_len};
use vstd::prelude::*;
use vstd::string::*;

verus! {

// ---------------------------------------------------------------------------
// Sizes
// ---------------------------------------------------------------------------
proof fn lemma_empty_text()
    ensures
        utf8_len(Seq::<char>::empty()) == 0,
{
    lemma_utf8_len_concat(Seq::<char>::empty(), Seq::<char>::empty());
    assert(Seq::<char>::empty() + Seq::<char>::empty() =~= Seq::<char>::empty());
}

/// The size of a tool result counts all its texts: each of them, made longer,
/// makes the result as much larger, and without them nothing counts.
pub proof fn law_result_size_counts_every_text(
    call_id: Seq<char>,
    output: ToolOutputView,
    more_id: Seq<char>,
    more_content: Seq<char>,
    more_metadata: Seq<char>,
    is_error: bool,
)
    ensures
        message_size(
            MessageView::ToolResult {
                call_id: call_id + more_id,
                output: ToolOutputView {
                    content: output.content + more_content,
                    is_error,
                    metadata: output.metadata + more_metadata,
                },
            },
        ) == message_size(MessageView::ToolResult { call_id, output }) + utf8_len(more_id)
            + utf8_len(more_content) + utf8_len(more_metadata),
        message_size(MessageView::ToolResult { call_id, output }) >= utf8_len(output.content),
        message_size(MessageView::ToolResult { call_id, output }) >= utf8_len(call_id) + utf8_len(
            output.metadata,
        ),
        message_size(
            MessageView::ToolResult {
                call_id: Seq::empty(),
                output: ToolOutputView { content: Seq::empty(), is_error, metadata: Seq::empty() },
            },
        ) == 0,
{
    lemma_utf8_len_concat(call_id, more_id);
    lemma_utf8_len_concat(output.content, more_content);
    lemma_utf8_len_concat(output.metadata, more_metadata);
    lemma_empty_text();
}

/// The size of a tool call counts its id, its tool and its arguments.
pub proof fn law_call_size_counts_every_text(
    call_id: Seq<char>,
    tool_name: Seq<char>,
    arguments: Seq<char>,
    more_id: Seq<char>,
    more_name: Seq<char>,
    more_arguments: Seq<char>,
)
    ensures
        message_size(
            MessageView::ToolCall {
                call_id: call_id + more_id,
                tool_name: tool_name + more_name,
                arguments: arguments + more_arguments,
            },
        ) == message_size(MessageView::ToolCall { call_id, tool_name, arguments }) + utf8_len(
            more_id,
        ) + utf8_len(more_name) + utf8_len(more_arguments),
        message_size(MessageView::ToolCall { call_id, tool_name, arguments }) >= utf8_len(
            arguments,
        ),
        message_size(
            MessageView::ToolCall {
                call_id: Seq::empty(),
                tool_name: Seq::empty(),
                arguments: Seq::empty(),
            },
        ) == 0,
{
    lemma_utf8_len_concat(call_id, more_id);
    lemma_utf8_len_concat(tool_name, more_name);
    lemma_utf8_len_concat(arguments, more_arguments);
    lemma_empty_text();
}

/// The size of a system message is that of its text: additive, and nothing for
/// nothing.
pub proof fn law_system_size_counts_its_text(content: Seq<char>, more: Seq<char>)
    ensures
        message_size(MessageView::System { content: content + more }) == message_size(
            MessageView::System { content },
        ) + utf8_len(more),
        message_size(MessageView::System { content: Seq::empty() }) == 0,
{
    lemma_utf8_len_concat(content, more);
    lemma_empty_text();
}

/// The size of a block counts all its texts.
pub proof fn law_block_size_counts_every_text(
    name: Seq<char>,
    media_type: Seq<char>,
    text: Seq<char>,
    more_name: Seq<char>,
    more_type: Seq<char>,
    more_text: Seq<char>,
)
    ensures
        block_size(ContentBlockView::Text(text + more_text)) == block_size(
            ContentBlockView::Text(text),
        ) + utf8_len(more_text),
        block_size(ContentBlockView::Text(Seq::empty())) == 0,
        block_size(
            ContentBlockView::Image { data: text + more_text, media_type: media_type + more_type },
        ) == block_size(ContentBlockView::Image { data: text, media_type }) + utf8_len(more_text)
            + utf8_len(more_type),
        block_size(ContentBlockView::Image { data: Seq::empty(), media_type: Seq::empty() }) == 0,
        block_size(
            ContentBlockView::File {
                name: name + more_name,
                media_type: media_type + more_type,
                text: text + more_text,
            },
        ) == block_size(ContentBlockView::File { name, media_type, text }) + utf8_len(more_name)
            + utf8_len(more_type) + utf8_len(more_text),
        block_size(
            ContentBlockView::File {
                name: Seq::empty(),
                media_type: Seq::empty(),
                text: Seq::empty(),
            },
        ) == 0,
{
    lemma_utf8_len_concat(name, more_name);
    lemma_utf8_len_concat(media_type, more_type);
    lemma_utf8_len_concat(text, more_text);
    lemma_empty_text();
}

proof fn lemma_blocks_size_concat(a: Seq<ContentBlockView>, b: Seq<ContentBlockView>)
    ensures
        blocks_size(a + b) == blocks_size(a) + blocks_size(b),
    decreases b.len(),
{
    if b.len() == 0 {
        assert(a + b =~= a);
    } else {
        assert((a + b).drop_last() =~= a + b.drop_last());
        lemma_blocks_size_concat(a, b.drop_last());
    }
}

/// The size of a message of a user or a model is the sum over its blocks, and
/// does not depend on how the message ended.
pub proof fn law_message_size_sums_blocks(
    a: Seq<ContentBlockView>,
    b: Seq<ContentBlockView>,
    block: ContentBlockView,
    status: MessageStatus,
)
    ensures
        message_size(MessageView::User { content: a + b }) == message_size(
            MessageView::User { content: a },
        ) + message_size(MessageView::User { content: b }),
        message_size(MessageView::User { content: seq![block] }) == block_size(block),
        message_size(MessageView::User { content: Seq::empty() }) == 0,
        message_size(MessageView::Assistant { content: a + b, status }) == message_size(
            MessageView::User { content: a },
        ) + message_size(MessageView::User { content: b }),
{
    lemma_blocks_size_concat(a, b);
    assert(seq![block].drop_last() =~= Seq::empty());
    assert(blocks_size(seq![block].drop_last()) == 0);
}

proof fn lemma_messages_size_concat(a: Seq<MessageView>, b: Seq<MessageView>)
    ensures
        messages_size(a + b) == messages_size(a) + messages_size(b),
    decreases b.len(),
{
    if b.len() == 0 {
        assert(a + b =~= a);
    } else {
        assert((a + b).drop_last() =~= a + b.drop_last());
        lemma_messages_size_concat(a, b.drop_last());
    }
}

/// The size of a context is the sum over its messages.
pub proof fn law_context_size_sums_messages(
    a: Seq<MessageView>,
    b: Seq<MessageView>,
    message: MessageView,
)
    ensures
        messages_size(a + b) == messages_size(a) + messages_size(b),
        messages_size(seq![message]) == message_size(message),
        messages_size(Seq::empty()) == 0,
{
    lemma_messages_size_concat(a, b);
    assert(seq![message].drop_last() =~= Seq::empty());
    assert(messages_size(seq![message].drop_last()) == 0);
}

/// A context is estimated at a token for every four bytes, rounded down. What
/// does not fit a machine word is estimated at the most that does.
pub proof fn law_estimate_is_a_quarter(messages: Seq<MessageView>)
    ensures
        messages_size(messages) <= usize::MAX ==> 4 * estimated(messages) <= messages_size(messages)
            < 4 * estimated(messages) + 4,
        messages_size(messages) > usize::MAX ==> 4 * estimated(messages) <= usize::MAX < 4
            * estimated(messages) + 4,
{
}

/// A longer context is never estimated lower.
pub proof fn law_estimate_grows(a: Seq<MessageView>, b: Seq<MessageView>)
    ensures
        estimated(a + b) >= estimated(a),
        estimated(a + b) >= estimated(b),
{
    lemma_messages_size_concat(a, b);
}

/// A capped number is the number itself where it fits, and otherwise the largest
/// that does.
pub proof fn law_cap(n: nat)
    ensures
        capped(n) <= n,
        n <= usize::MAX ==> capped(n) == n,
        n > usize::MAX ==> capped(n) == usize::MAX,
{
}

// ---------------------------------------------------------------------------
// What a model sees
// ---------------------------------------------------------------------------
/// A stored message is shown with exactly what was stored; behind a message that
/// was cut short stands a notice.
pub proof fn law_stored_message_is_shown(
    events: Seq<LedgerEventView>,
    event: LedgerEventView,
    marker: Option<MarkerView>,
)
    requires
        event.seq > floor_of(marker),
    ensures
        visible(events.push(event), marker) == visible(events, marker) + (match event.payload {
            PayloadView::UserMessage { content } => seq![MessageView::User { content }],
            PayloadView::AssistantMessage { content, status: MessageStatus::Complete } => seq![
                MessageView::Assistant { content, status: MessageStatus::Complete },
            ],
            PayloadView::AssistantMessage { content, status: MessageStatus::Incomplete } => seq![
                MessageView::Assistant { content, status: MessageStatus::Incomplete },
                MessageView::System { content: RESUME_CANCEL_NOTICE@ },
            ],
            PayloadView::ToolCall { call_id, tool_name, arguments } => seq![
                MessageView::ToolCall { call_id, tool_name, arguments },
            ],
            PayloadView::ToolResult { call_id, output } => seq![
                MessageView::ToolResult { call_id, output },
            ],
            PayloadView::SystemMessage { content } => seq![MessageView::System { content }],
            PayloadView::Metadata { .. } => Seq::<MessageView>::empty(),
        }),
{
    assert(events.push(event).drop_last() =~= events);
    assert(events.push(event).last() == event);
    let after = projection(events.push(event), marker);
    let before = projection(events, marker);
    assert(after =~= before + after.skip(before.len() as int));
    assert(visible(events.push(event), marker) =~= visible(events, marker) + messages_of(
        after.skip(before.len() as int),
    ));
}

/// What a compaction has replaced is not shown any more.
pub proof fn law_replaced_event_is_hidden(
    events: Seq<LedgerEventView>,
    event: LedgerEventView,
    marker: MarkerView,
)
    requires
        event.seq <= marker.replaces_through_seq,
    ensures
        visible(events.push(event), Some(marker)) == visible(events, Some(marker)),
{
    assert(events.push(event).drop_last() =~= events);
    assert(events.push(event).last() == event);
}

/// Without events, only the summary of the last compaction is shown, if there was
/// one.
pub proof fn law_summary_comes_first(marker: MarkerView)
    ensures
        visible(Seq::empty(), Some(marker)) == seq![
            MessageView::System { content: marker.rendered_summary },
        ],
        visible(Seq::empty(), None) == Seq::<MessageView>::empty(),
{
    assert(entries_above(Seq::empty(), floor_of(Some(marker))) =~= Seq::<EntryView>::empty());
    assert(visible(Seq::empty(), Some(marker)) =~= seq![
        MessageView::System { content: marker.rendered_summary },
    ]);
    assert(visible(Seq::empty(), None) =~= Seq::<MessageView>::empty());
}

// ---------------------------------------------------------------------------
// Compaction
// ---------------------------------------------------------------------------
proof fn lemma_no_anchor(events: Seq<LedgerEventView>, floor: u64)
    requires
        forall|i: int|
            0 <= i < events.len() && (#[trigger] events[i]).seq > floor ==> !(
            events[i].payload is UserMessage),
    ensures
        anchor(events, floor) is None,
    decreases events.len(),
{
    if events.len() > 0 {
        let front = events.drop_last();
        assert(events[events.len() - 1] == events.last());
        assert forall|i: int| 0 <= i < front.len() && (#[trigger] front[i]).seq > floor implies !(
        front[i].payload is UserMessage) by {
            assert(front[i] == events[i]);
        }
        lemma_no_anchor(front, floor);
    }
}

/// Nothing can be compacted without a message of the user behind the last
/// compaction, nor where nothing is shown in front of it; the error says which.
pub proof fn law_nothing_to_compact(
    events: Seq<LedgerEventView>,
    marker: Option<MarkerView>,
    event: LedgerEventView,
)
    ensures
        (forall|i: int|
            0 <= i < events.len() && (#[trigger] events[i]).seq > floor_of(marker) ==> !(
            events[i].payload is UserMessage)) ==> plan_of(events, marker) == Err::<
            PlanView,
            AgentErrorView,
        >(
            AgentErrorView::CompactError {
                message: "no current turn user anchor is available for compaction"@,
            },
        ),
        event.payload is UserMessage && event.seq > 0 ==> plan_of(seq![event], None) == Err::<
            PlanView,
            AgentErrorView,
        >(
            AgentErrorView::CompactError {
                message: "no earlier history can be compacted before the current turn"@,
            },
        ),
{
    if forall|i: int|
        0 <= i < events.len() && (#[trigger] events[i]).seq > floor_of(marker) ==> !(
        events[i].payload is UserMessage) {
        lemma_no_anchor(events, floor_of(marker));
    }
    let alone = seq![event];
    assert(alone.drop_last() =~= Seq::empty());
    assert(alone.last() == event);
    assert(entries_above(Seq::empty(), 0) =~= Seq::<EntryView>::empty());
    if event.payload is UserMessage && event.seq > 0 {
        assert(projection(alone, None).len() == 1);
        assert(projection(alone, None)[0].seq == Some(event.seq));
    }
}

/// A summary is kept with a heading in front of it, trimmed and otherwise whole,
/// wherever it fits the window together with what stays; it replaces what the
/// plan says.
pub proof fn law_fitting_summary_is_kept(plan: PlanView, summary: Seq<char>, window: usize)
    requires
        !is_blank(summary),
        estimated(
            seq![
                MessageView::System {
                    content: COMPACT_SUMMARY_PREFIX@ + "\n\n"@ + trimmed(summary),
                },
            ] + plan.retained,
        ) <= window,
    ensures
        settled_marker(plan, Ok(summary), window) matches Ok(marker)
            && marker.replaces_through_seq == plan.replaces_through_seq
            && marker.rendered_summary == COMPACT_SUMMARY_PREFIX@ + "\n\n"@ + trimmed(summary),
{
}

/// A marker never stands for a context that is too large: with its summary, what
/// stays fits the window.
pub proof fn law_marker_fits_window(
    plan: PlanView,
    attempt: std::result::Result<Seq<char>, AgentErrorView>,
    window: usize,
)
    ensures
        settled_marker(plan, attempt, window) matches Ok(marker) ==> {
            &&& estimated(
                seq![MessageView::System { content: marker.rendered_summary }] + plan.retained,
            ) <= window
            &&& marker.replaces_through_seq == plan.replaces_through_seq
        },
{
}

/// A request that was cancelled leaves no marker.
pub proof fn law_cancelled_summary_is_passed_on(plan: PlanView, window: usize)
    ensures
        settled_marker(plan, Err(AgentErrorView::RequestCancelled), window) == Err::<
            MarkerView,
            AgentErrorView,
        >(AgentErrorView::RequestCancelled),
{
}

/// Where no summary can be had, be it blank or too large, the context is cut,
/// provided that what stays then fits three tenths of the window.
pub proof fn law_missing_summary_cuts_context(
    plan: PlanView,
    attempt: std::result::Result<Seq<char>, AgentErrorView>,
    window: usize,
)
    requires
        match attempt {
            Ok(summary) => is_blank(summary) || estimated(
                seq![
                    MessageView::System {
                        content: COMPACT_SUMMARY_PREFIX@ + "\n\n"@ + trimmed(summary),
                    },
                ] + plan.retained,
            ) > window,
            Err(error) => !(error is RequestCancelled),
        },
    ensures
        ({
            let text = COMPACT_SUMMARY_PREFIX@ + "\n\n"@ + TRUNCATION_SUMMARY_SUFFIX@;
            let size = estimated(seq![MessageView::System { content: text }] + plan.retained);
            &&& window * 3 <= usize::MAX && 10 * size <= 3 * window ==> settled_marker(
                plan,
                attempt,
                window,
            ) == Ok::<MarkerView, AgentErrorView>(
                MarkerView {
                    replaces_through_seq: plan.replaces_through_seq,
                    rendered_summary: text,
                },
            )
            &&& 10 * size > 3 * window ==> (settled_marker(plan, attempt, window) matches Err(error)
                && error is CompactError)
        }),
{
}

} // verus!
