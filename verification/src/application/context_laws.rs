//! Laws of the context projection: the live context agrees with the one that
//! is rebuilt from the ledger, and a compaction keeps the current turn.

use crate::application::context_manager::{
    anchor, cancel_notice, entries_above, entries_of, floor_of, interrupted, message_of,
    messages_of, plan_of, position_of, projection, rebuilt, summary_entries, visible, EntryView,
    PlanView,
};
use crate::domain::ledger::{
    latest, law_latest_ignores_others, strictly_numbered, LedgerEventView, MarkerView,
    MetadataKey, MetadataValueView, PayloadView,
};
use crate::domain::types::MessageView;
use vstd::prelude::*;

verus! {

/// A message event appended to the ledger appends its message to the visible
/// context, and nothing else, unless the message was interrupted.
pub proof fn law_append_extends_projection(
    events: Seq<LedgerEventView>,
    event: LedgerEventView,
    marker: Option<MarkerView>,
    message: MessageView,
)
    requires
        event.seq > floor_of(marker),
        message_of(event.payload) == Some(message),
        !interrupted(message),
    ensures
        visible(events.push(event), marker) == visible(events, marker).push(message),
{
    assert(events.push(event).drop_last() =~= events);
    assert(events.push(event).last() == event);
    assert(visible(events.push(event), marker) =~= visible(events, marker).push(message));
}

/// An interrupted message appended to the ledger appends itself and its notice
/// to the visible context.
pub proof fn law_interruption_is_shown(
    events: Seq<LedgerEventView>,
    event: LedgerEventView,
    marker: Option<MarkerView>,
    message: MessageView,
)
    requires
        event.seq > floor_of(marker),
        message_of(event.payload) == Some(message),
        interrupted(message),
    ensures
        visible(events.push(event), marker) == visible(events, marker).push(message).push(
            cancel_notice(),
        ),
{
    assert(events.push(event).drop_last() =~= events);
    assert(events.push(event).last() == event);
    assert(visible(events.push(event), marker) =~= visible(events, marker).push(message).push(
        cancel_notice(),
    ));
}

/// Whether `live` holds the messages of `shown` in order, except that notices
/// behind interrupted messages may be missing.
pub open spec fn same_but_notices(live: Seq<MessageView>, shown: Seq<MessageView>) -> bool
    decreases shown.len(),
{
    if shown.len() == 0 {
        live.len() == 0
    } else {
        ||| {
            &&& live.len() > 0
            &&& live.last() == shown.last()
            &&& same_but_notices(live.drop_last(), shown.drop_last())
        }
        ||| {
            &&& shown.len() > 1
            &&& shown.last() == cancel_notice()
            &&& interrupted(shown[shown.len() - 2])
            &&& same_but_notices(live, shown.drop_last())
        }
    }
}

/// A context is the same as itself.
pub proof fn lemma_same_as_itself(messages: Seq<MessageView>)
    ensures
        same_but_notices(messages, messages),
    decreases messages.len(),
{
    if messages.len() > 0 {
        lemma_same_as_itself(messages.drop_last());
    }
}

/// A message that both contexts show keeps them the same, and so does a notice
/// that only one shows behind an interrupted message.
pub proof fn lemma_same_after_push(
    live: Seq<MessageView>,
    shown: Seq<MessageView>,
    message: MessageView,
)
    requires
        same_but_notices(live, shown),
    ensures
        same_but_notices(live.push(message), shown.push(message)),
        interrupted(message) ==> same_but_notices(
            live.push(message),
            shown.push(message).push(cancel_notice()),
        ),
{
    assert(live.push(message).drop_last() =~= live);
    assert(shown.push(message).drop_last() =~= shown);
    assert(shown.push(message).push(cancel_notice()).drop_last() =~= shown.push(message));
}

/// Metadata appended to the ledger leaves the visible context of a given
/// compaction as it is.
pub proof fn law_metadata_is_invisible(
    events: Seq<LedgerEventView>,
    event: LedgerEventView,
    marker: Option<MarkerView>,
)
    requires
        event.payload is Metadata,
    ensures
        visible(events.push(event), marker) == visible(events, marker),
{
    assert(events.push(event).drop_last() =~= events);
    assert(events.push(event).last() == event);
    assert(entries_above(events, floor_of(marker)) + Seq::<EntryView>::empty() =~= entries_above(
        events,
        floor_of(marker),
    ));
}

/// The live context and the one rebuilt from the ledger stay equal when a
/// message is appended to both, unless the message was interrupted: only the
/// rebuilt context then shows the notice behind it.
pub proof fn law_live_context_equals_rebuilt(
    events: Seq<LedgerEventView>,
    event: LedgerEventView,
    context_window: usize,
    compact_limit: usize,
    message: MessageView,
)
    requires
        rebuilt(events, context_window, compact_limit) is Ok,
        event.seq > floor_of(rebuilt(events, context_window, compact_limit)->Ok_0.latest),
        message_of(event.payload) == Some(message),
        !interrupted(message),
    ensures
        ({
            let before = rebuilt(events, context_window, compact_limit)->Ok_0;
            let after = rebuilt(events.push(event), context_window, compact_limit);
            &&& after is Ok
            &&& after->Ok_0.latest == before.latest
            &&& after->Ok_0.visible == before.visible.push(message)
        }),
{
    law_latest_ignores_others(events, event, MetadataKey::ContextCompaction);
    let marker = rebuilt(events, context_window, compact_limit)->Ok_0.latest;
    law_append_extends_projection(events, event, marker, message);
}

/// Rebuilding from a ledger that ends with a compaction gives the context that
/// applying the compaction gives.
pub proof fn law_compaction_applies_as_rebuilt(
    events: Seq<LedgerEventView>,
    event: LedgerEventView,
    context_window: usize,
    compact_limit: usize,
    marker: MarkerView,
)
    requires
        event.payload == (PayloadView::Metadata {
            key: MetadataKey::ContextCompaction,
            value: MetadataValueView::ContextCompaction(marker),
        }),
    ensures
        ({
            let after = rebuilt(events.push(event), context_window, compact_limit);
            &&& after is Ok
            &&& after->Ok_0.latest == Some(marker)
            &&& after->Ok_0.visible == visible(events.push(event), Some(marker))
        }),
{
    assert(events.push(event).last() == event);
}

proof fn lemma_position_in_concat(a: Seq<EntryView>, b: Seq<EntryView>, seq: u64)
    ensures
        position_of(a, seq) <= a.len(),
        position_of(a, seq) < a.len() ==> position_of(a + b, seq) == position_of(a, seq),
        position_of(a, seq) == a.len() ==> position_of(a + b, seq) == a.len() + position_of(b, seq),
    decreases a.len(),
{
    if a.len() == 0 {
        assert(a + b =~= b);
    } else {
        assert((a + b)[0] == a[0]);
        assert((a + b).drop_first() =~= a.drop_first() + b);
        lemma_position_in_concat(a.drop_first(), b, seq);
    }
}

proof fn lemma_position_absent(entries: Seq<EntryView>, seq: u64)
    requires
        forall|i: int| 0 <= i < entries.len() ==> (#[trigger] entries[i]).seq != Some(seq),
    ensures
        position_of(entries, seq) == entries.len(),
    decreases entries.len(),
{
    if entries.len() > 0 {
        assert(entries[0].seq != Some(seq));
        let rest = entries.drop_first();
        assert forall|i: int| 0 <= i < rest.len() implies (#[trigger] rest[i]).seq != Some(seq) by {
            assert(rest[i] == entries[i + 1]);
        }
        lemma_position_absent(rest, seq);
    }
}

proof fn lemma_position_found(entries: Seq<EntryView>, seq: u64)
    ensures
        position_of(entries, seq) < entries.len() ==> entries[position_of(
            entries,
            seq,
        ) as int].seq == Some(seq),
    decreases entries.len(),
{
    if entries.len() > 0 && entries[0].seq != Some(seq) {
        lemma_position_found(entries.drop_first(), seq);
    }
}

/// Every numbered entry comes from an event with that number.
proof fn lemma_entry_numbers(events: Seq<LedgerEventView>, floor: u64, limit: u64)
    requires
        forall|i: int| 0 <= i < events.len() ==> (#[trigger] events[i]).seq < limit,
    ensures
        forall|i: int|
            0 <= i < entries_above(events, floor).len() ==> (#[trigger] entries_above(
                events,
                floor,
            )[i]).seq != Some(limit),
        floor < limit ==> entries_above(events, (limit - 1) as u64).len() == 0,
    decreases events.len(),
{
    if events.len() > 0 {
        let front = events.drop_last();
        assert forall|i: int| 0 <= i < front.len() implies (#[trigger] front[i]).seq < limit by {
            assert(front[i] == events[i]);
        }
        assert(events[events.len() - 1].seq < limit);
        lemma_entry_numbers(front, floor, limit);
        let all = entries_above(events, floor);
        let before = entries_above(front, floor);
        assert forall|i: int| 0 <= i < all.len() implies (#[trigger] all[i]).seq != Some(limit) by {
            if i < before.len() {
                assert(all[i] == before[i]);
            } else {
                assert(all[i] == entries_of(events.last())[i - before.len()]);
            }
        }
    }
}

/// The anchor is the number of a user message above the floor.
pub proof fn lemma_anchor_found(events: Seq<LedgerEventView>, floor: u64)
    ensures
        anchor(events, floor) matches Some(seq) ==> seq > floor && exists|i: int|
            0 <= i < events.len() && (#[trigger] events[i]).seq == seq
                && events[i].payload is UserMessage,
    decreases events.len(),
{
    if events.len() > 0 {
        if events.last().payload is UserMessage && events.last().seq > floor {
            assert(events[events.len() - 1].seq == events.last().seq);
        } else {
            lemma_anchor_found(events.drop_last(), floor);
            if let Some(seq) = anchor(events.drop_last(), floor) {
                let front = events.drop_last();
                let i = choose|i: int|
                    0 <= i < front.len() && (#[trigger] front[i]).seq == seq
                        && front[i].payload is UserMessage;
                assert(events[i] == front[i]);
            }
        }
    }
}

/// In a strictly numbered ledger, the entries from the anchor on are exactly
/// those above the number in front of it.
proof fn lemma_split_at_anchor(events: Seq<LedgerEventView>, floor: u64)
    requires
        strictly_numbered(events),
        anchor(events, floor) is Some,
    ensures
        ({
            let seq = anchor(events, floor)->0;
            let entries = entries_above(events, floor);
            let split = position_of(entries, seq) as int;
            let rest = entries_above(events, (seq - 1) as u64);
            &&& split < entries.len()
            &&& entries.skip(split) == rest
            &&& rest.len() > 0
            &&& rest[0].seq == Some(seq)
            &&& rest[0].message is User
            &&& forall|i: int| 1 <= i < rest.len() ==> !((#[trigger] rest[i]).message is User)
        }),
    decreases events.len(),
{
    lemma_anchor_found(events, floor);
    let seq = anchor(events, floor)->0;
    let front = events.drop_last();
    let last = events.last();
    let before = entries_above(front, floor);
    let entries = entries_above(events, floor);
    assert forall|i: int, j: int| 0 <= i < j < front.len() implies (#[trigger] front[i]).seq < (
    #[trigger] front[j]).seq by {
        assert(events[i].seq < events[j].seq);
    }
    if last.payload is UserMessage && last.seq > floor {
        assert forall|i: int| 0 <= i < front.len() implies (#[trigger] front[i]).seq < seq by {
            assert(events[i].seq < events[events.len() - 1].seq);
        }
        lemma_entry_numbers(front, floor, seq);
        lemma_position_absent(before, seq);
        lemma_position_in_concat(before, entries_of(last), seq);
        assert(entries.skip(before.len() as int) =~= entries_of(last));
        assert(entries_above(events, (seq - 1) as u64) =~= entries_of(last));
    } else {
        lemma_split_at_anchor(front, floor);
        lemma_anchor_found(front, floor);
        let k = choose|i: int|
            0 <= i < front.len() && (#[trigger] front[i]).seq == seq
                && front[i].payload is UserMessage;
        assert(events[k].seq < events[events.len() - 1].seq);
        assert(last.seq > seq);
        lemma_position_in_concat(before, entries_of(last), seq);
        let split = position_of(before, seq) as int;
        let rest = entries_above(front, (seq - 1) as u64);
        assert(entries.skip(split) =~= before.skip(split) + entries_of(last));
        let whole = entries_above(events, (seq - 1) as u64);
        assert(whole == rest + entries_of(last));
        assert(whole[0] == rest[0]);
        assert forall|i: int| 1 <= i < whole.len() implies !((#[trigger] whole[i]).message
            is User) by {
            if i < rest.len() {
                assert(whole[i] == rest[i]);
            } else {
                assert(whole[i] == entries_of(last)[i - rest.len()]);
            }
        }
    }
}

/// The start of the current turn is never missing from the visible context: a
/// plan fails only where there is no user message above the last compaction,
/// or nothing in front of it.
pub proof fn law_anchor_is_visible(events: Seq<LedgerEventView>, marker: Option<MarkerView>)
    requires
        strictly_numbered(events),
        anchor(events, floor_of(marker)) is Some,
    ensures
        position_of(projection(events, marker), anchor(events, floor_of(marker))->0) < projection(
            events,
            marker,
        ).len(),
        plan_of(events, marker) is Err ==> projection(events, marker)[0].seq == anchor(
            events,
            floor_of(marker),
        ),
{
    let floor = floor_of(marker);
    let seq = anchor(events, floor)->0;
    let entries = entries_above(events, floor);
    lemma_split_at_anchor(events, floor);
    lemma_position_in_concat(summary_entries(marker), entries, seq);
    if marker is Some {
        lemma_position_absent(summary_entries(marker), seq);
    }
    lemma_position_found(projection(events, marker), seq);
}

/// A plan splits the visible context in two parts, neither of them empty.
pub proof fn law_plan_splits_context(
    events: Seq<LedgerEventView>,
    marker: Option<MarkerView>,
    plan: PlanView,
)
    requires
        plan_of(events, marker) == Ok::<_, crate::domain::error::AgentErrorView>(plan),
    ensures
        plan.compactable + plan.retained == visible(events, marker),
        plan.compactable.len() > 0,
        plan.retained.len() > 0,
{
    let seq = anchor(events, floor_of(marker))->0;
    let split = position_of(projection(events, marker), seq) as int;
    let all = visible(events, marker);
    assert(all.take(split) + all.skip(split) =~= all);
}

/// A compaction keeps the whole current turn and nothing older: what stays
/// starts with the latest user message and holds no other, and once the marker
/// is recorded the context shows the summary followed by exactly what stayed.
pub proof fn law_compaction_keeps_current_turn(
    events: Seq<LedgerEventView>,
    marker: Option<MarkerView>,
    plan: PlanView,
    record: LedgerEventView,
    summary: Seq<char>,
)
    requires
        strictly_numbered(events),
        plan_of(events, marker) == Ok::<_, crate::domain::error::AgentErrorView>(plan),
        record.payload is Metadata,
    ensures
        plan.retained[0] is User,
        forall|i: int| 1 <= i < plan.retained.len() ==> !((#[trigger] plan.retained[i]) is User),
        plan.replaces_through_seq >= floor_of(marker),
        visible(
            events.push(record),
            Some(
                MarkerView {
                    replaces_through_seq: plan.replaces_through_seq,
                    rendered_summary: summary,
                },
            ),
        ) == seq![MessageView::System { content: summary }] + plan.retained,
{
    let floor = floor_of(marker);
    lemma_anchor_found(events, floor);
    lemma_split_at_anchor(events, floor);
    let seq = anchor(events, floor)->0;
    let entries = entries_above(events, floor);
    let head = summary_entries(marker);
    let split = position_of(entries, seq) as int;
    let rest = entries_above(events, (seq - 1) as u64);
    if marker is Some {
        lemma_position_absent(head, seq);
    }
    lemma_position_in_concat(head, entries, seq);
    assert(position_of(projection(events, marker), seq) == head.len() + split);
    assert(plan.retained =~= messages_of(rest)) by {
        assert(projection(events, marker).skip(head.len() + split) =~= entries.skip(split));
        assert(messages_of(projection(events, marker)).skip(head.len() + split) =~= messages_of(
            projection(events, marker).skip(head.len() + split),
        ));
    }
    assert forall|i: int| 1 <= i < plan.retained.len() implies !((#[trigger] plan.retained[i])
        is User) by {
        assert(plan.retained[i] == rest[i].message);
    }
    let new_marker = MarkerView {
        replaces_through_seq: plan.replaces_through_seq,
        rendered_summary: summary,
    };
    law_metadata_is_invisible(events, record, Some(new_marker));
    assert(visible(events, Some(new_marker)) =~= seq![MessageView::System { content: summary }]
        + plan.retained);
}

} // verus!
