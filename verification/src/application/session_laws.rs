//! Laws of sessions: what a stored event changes, what a resumed session takes
//! over, and how sessions are opened and closed.

use crate::api::agent::{provider_of, AgentKernel};
use crate::api::session::memory_model_of;
use crate::application::context_manager::visible;
use crate::application::memory_extraction::extraction_start;
use crate::application::session_closing::{
    can_extract, closing_extracted, closing_next, closing_saved, ClosingStageView, ClosingView,
};
use crate::application::session_control::{
    activated, claimed, close_aborted, close_begun, close_finished, shutdown_begun, turn_cleared,
    turn_started, ControlView, ShutdownStartView, SlotView, TurnState,
};
use crate::application::session_runtime::{
    messages_in, persisted, restored_runtime, restored_state, turns_in, RestoredView, RuntimeView,
};
use crate::application::session_service::{
    new_stage, opening_greeted, opening_loaded, opening_next, opening_remembered, with_memories,
    DraftView, OpeningStageView, OpeningView, SessionActionView,
};
use crate::clock::Timestamp;
use crate::domain::config::SessionConfigView;
use crate::domain::error::AgentErrorView;
use crate::domain::ledger::{
    latest, next_number, LedgerEventView, MarkerView, MetadataKey, MetadataValueView, PayloadView,
};
use crate::domain::types::{MemoryView, MessageView};
use crate::text::decimal;
use vstd::prelude::*;
use vstd::string::*;

verus! {

// ---------------------------------------------------------------------------
// Ledger
// ---------------------------------------------------------------------------
/// The next number is one above the last, from one on, as long as numbers last.
pub proof fn law_numbers_go_up_by_one(events: Seq<LedgerEventView>)
    ensures
        events.len() == 0 ==> next_number(events) == 1,
        events.len() > 0 && events.last().seq < u64::MAX ==> next_number(events)
            == events.last().seq + 1,
        events.len() > 0 && events.last().seq == u64::MAX ==> next_number(events) == u64::MAX,
{
}

/// Metadata is read back under its key: the last value stored counts, and other
/// events do not matter.
pub proof fn law_last_metadata_counts(
    events: Seq<LedgerEventView>,
    event: LedgerEventView,
    key: MetadataKey,
)
    ensures
        latest(Seq::empty(), key) is None,
        latest(events.push(event), key) == (match event.payload {
            PayloadView::Metadata { key: k, value } => if k == key {
                Some(value)
            } else {
                latest(events, key)
            },
            _ => latest(events, key),
        }),
{
    assert(events.push(event).drop_last() =~= events);
}

/// A ledger holds as many turns as messages of the user, and as many messages as
/// users and models wrote.
pub proof fn law_turns_and_messages_are_counted(
    events: Seq<LedgerEventView>,
    event: LedgerEventView,
)
    ensures
        turns_in(Seq::empty()) == 0,
        messages_in(Seq::empty()) == 0,
        turns_in(events.push(event)) == turns_in(events) + (if event.payload is UserMessage {
            1int
        } else {
            0int
        }),
        messages_in(events.push(event)) == messages_in(events) + (if event.payload is UserMessage
            || event.payload is AssistantMessage {
            1int
        } else {
            0int
        }),
{
    assert(events.push(event).drop_last() =~= events);
}

// ---------------------------------------------------------------------------
// Stored events
// ---------------------------------------------------------------------------
/// Whether two states of a session agree on everything but its ledger, its
/// context and its checkpoint.
pub open spec fn same_session(a: RuntimeView, b: RuntimeView) -> bool {
    &&& b.session_id == a.session_id
    &&& b.model_id == a.model_id
    &&& b.system_prompt_override == a.system_prompt_override
    &&& b.memory_namespace == a.memory_namespace
    &&& b.event_sequence == a.event_sequence
    &&& b.turn_index == a.turn_index
    &&& b.bootstrap_memories == a.bootstrap_memories
    &&& b.context.context_window == a.context.context_window
    &&& b.context.compact_limit == a.context.compact_limit
}

/// A stored message joins the ledger and the context, with exactly what was
/// stored, and changes nothing else.
pub proof fn law_stored_message_joins_context(rt: RuntimeView, event: LedgerEventView)
    requires
        !(event.payload is Metadata),
    ensures
        ({
            let (after, result) = persisted(rt, event, Ok(()));
            &&& result is Ok
            &&& after.ledger == rt.ledger.push(event)
            &&& after.context.latest == rt.context.latest
            &&& after.last_memory_checkpoint_seq == rt.last_memory_checkpoint_seq
            &&& after.context.visible == rt.context.visible.push(
                match event.payload {
                    PayloadView::UserMessage { content } => MessageView::User { content },
                    PayloadView::AssistantMessage { content, status } => MessageView::Assistant {
                        content,
                        status,
                    },
                    PayloadView::ToolCall { call_id, tool_name, arguments } =>
                    MessageView::ToolCall { call_id, tool_name, arguments },
                    PayloadView::ToolResult { call_id, output } => MessageView::ToolResult {
                        call_id,
                        output,
                    },
                    PayloadView::SystemMessage { content } => MessageView::System { content },
                    PayloadView::Metadata { .. } => arbitrary(),
                },
            )
            &&& same_session(rt, after)
        }),
{
}

/// Stored metadata joins the ledger. A checkpoint moves the checkpoint of the
/// session, a compaction replaces what the marker says, and other metadata
/// changes nothing else.
pub proof fn law_stored_metadata_takes_effect(
    rt: RuntimeView,
    event: LedgerEventView,
    marker: MarkerView,
    seq: u64,
)
    requires
        event.payload matches PayloadView::Metadata { key, value } && match key {
            MetadataKey::ContextCompaction => value == MetadataValueView::ContextCompaction(marker),
            MetadataKey::MemoryCheckpoint => value == MetadataValueView::MemoryCheckpoint(seq),
            _ => true,
        },
    ensures
        ({
            let (after, result) = persisted(rt, event, Ok(()));
            &&& result is Ok
            &&& after.ledger == rt.ledger.push(event)
            &&& same_session(rt, after)
            &&& event.payload matches PayloadView::Metadata { key, .. } && match key {
                MetadataKey::ContextCompaction => {
                    &&& after.context.latest == Some(marker)
                    &&& after.context.visible == visible(rt.ledger.push(event), Some(marker))
                    &&& after.last_memory_checkpoint_seq == rt.last_memory_checkpoint_seq
                },
                MetadataKey::MemoryCheckpoint => {
                    &&& after.context == rt.context
                    &&& after.last_memory_checkpoint_seq == seq
                },
                _ => {
                    &&& after.context == rt.context
                    &&& after.last_memory_checkpoint_seq == rt.last_memory_checkpoint_seq
                },
            }
        }),
{
}

/// An event that could not be stored changes nothing; the error names its number
/// and the session.
pub proof fn law_unstored_event_is_reported(
    rt: RuntimeView,
    event: LedgerEventView,
    source: Seq<Seq<char>>,
)
    ensures
        persisted(rt, event, Err(source)).0 == rt,
        persisted(rt, event, Err(source)).1 == Err::<(), AgentErrorView>(
            AgentErrorView::StorageError(
                seq![
                    "failed to save ledger event "@ + decimal(event.seq as nat) + " for session '"@
                        + rt.session_id + "'"@,
                ] + source,
            ),
        ),
{
}

// ---------------------------------------------------------------------------
// Resumption
// ---------------------------------------------------------------------------
/// A resumed session takes over what the ledger says last: its model and prompt,
/// its namespace and its checkpoint, and defaults for what the ledger does not
/// say. It has had as many turns as the ledger holds.
pub proof fn law_resumed_state_comes_from_ledger(
    events: Seq<LedgerEventView>,
    default_model: Seq<char>,
    default_namespace: Seq<char>,
)
    ensures
        restored_state(events, default_model, default_namespace) matches Ok(state) ==> {
            &&& state.turn_index == turns_in(events)
            &&& match latest(events, MetadataKey::SessionConfig) {
                Some(MetadataValueView::SessionConfig(config)) => {
                    &&& state.system_prompt_override == config.system_prompt_override
                    &&& state.model_id == match config.model_id {
                        Some(id) => id,
                        None => default_model,
                    }
                },
                Some(_) => false,
                None => state.model_id == default_model && state.system_prompt_override is None,
            }
            &&& match latest(events, MetadataKey::MemoryNamespace) {
                Some(MetadataValueView::MemoryNamespace(namespace)) => state.memory_namespace
                    == namespace,
                Some(_) => false,
                None => state.memory_namespace == default_namespace,
            }
            &&& match latest(events, MetadataKey::MemoryCheckpoint) {
                Some(MetadataValueView::MemoryCheckpoint(seq)) => state.last_memory_checkpoint_seq
                    == seq,
                Some(_) => false,
                None => state.last_memory_checkpoint_seq == 0,
            }
        },
        restored_state(events, default_model, default_namespace) is Ok <==> {
            &&& match latest(events, MetadataKey::SessionConfig) {
                Some(value) => value is SessionConfig,
                None => true,
            }
            &&& match latest(events, MetadataKey::MemoryNamespace) {
                Some(value) => value is MemoryNamespace,
                None => true,
            }
            &&& match latest(events, MetadataKey::MemoryCheckpoint) {
                Some(value) => value is MemoryCheckpoint,
                None => true,
            }
        },
{
}

/// A resumed session has the whole ledger, the context that the ledger shows from
/// its last compaction on, and the memories at hand; its events are numbered from
/// one.
pub proof fn law_resumed_session_is_whole(
    session_id: Seq<char>,
    state: RestoredView,
    events: Seq<LedgerEventView>,
    context_window: usize,
    compact_limit: usize,
    memories: Seq<MemoryView>,
)
    requires
        state.turn_index <= u64::MAX,
    ensures
        restored_runtime(session_id, state, events, context_window, compact_limit, memories)
            matches Ok(rt) ==> {
            &&& rt.session_id == session_id
            &&& rt.model_id == state.model_id
            &&& rt.system_prompt_override == state.system_prompt_override
            &&& rt.memory_namespace == state.memory_namespace
            &&& rt.ledger == events
            &&& rt.event_sequence == 1
            &&& rt.turn_index == state.turn_index
            &&& rt.last_memory_checkpoint_seq == state.last_memory_checkpoint_seq
            &&& rt.bootstrap_memories == memories
            &&& rt.context.context_window == context_window
            &&& rt.context.compact_limit == compact_limit
            &&& rt.context.visible == visible(events, rt.context.latest)
            &&& match latest(events, MetadataKey::ContextCompaction) {
                Some(MetadataValueView::ContextCompaction(marker)) => rt.context.latest == Some(
                    marker,
                ),
                Some(_) => false,
                None => rt.context.latest is None,
            }
        },
        restored_runtime(session_id, state, events, context_window, compact_limit, memories) is Ok
            <==> match latest(events, MetadataKey::ContextCompaction) {
            Some(value) => value is ContextCompaction,
            None => true,
        },
{
}

// ---------------------------------------------------------------------------
// Opening
// ---------------------------------------------------------------------------
/// A new session starts empty: no events, no context, no turns, numbered from
/// one, and with the memories at hand.
pub proof fn law_new_session_is_empty(
    session_id: Seq<char>,
    model_id: Seq<char>,
    system_prompt_override: Option<Seq<char>>,
    memory_namespace: Seq<char>,
    context_window: usize,
    compact_limit: usize,
    memories: Seq<MemoryView>,
)
    ensures
        with_memories(
            session_id,
            DraftView::New {
                model_id,
                system_prompt_override,
                memory_namespace,
                context_window,
                compact_limit,
            },
            memories,
        ) matches OpeningStageView::Greet(rt) && {
            &&& rt.session_id == session_id
            &&& rt.model_id == model_id
            &&& rt.system_prompt_override == system_prompt_override
            &&& rt.memory_namespace == memory_namespace
            &&& rt.ledger.len() == 0
            &&& rt.context.visible.len() == 0
            &&& rt.context.latest is None
            &&& rt.context.context_window == context_window
            &&& rt.context.compact_limit == compact_limit
            &&& rt.event_sequence == 1
            &&& rt.turn_index == 0
            &&& rt.last_memory_checkpoint_seq == 0
            &&& rt.bootstrap_memories == memories
        },
{
}

/// A new session takes the model that it is given, or the default one, with the
/// window and the limit of that model, and the namespace of the agent. An unknown
/// model refuses it.
pub proof fn law_new_session_takes_its_model(
    kernel: AgentKernel,
    session_id: Seq<char>,
    config: SessionConfigView,
    model_id: Seq<char>,
)
    requires
        model_id == match config.model_id {
            Some(id) => id,
            None => kernel.config.default_model@,
        },
    ensures
        kernel.models.model(model_id) is None ==> new_stage(kernel, session_id, config)
            == OpeningStageView::Refused(AgentErrorView::ModelNotSupported(model_id)),
        kernel.models.model(model_id) matches Some(model) ==> {
            let draft = DraftView::New {
                model_id,
                system_prompt_override: config.system_prompt_override,
                memory_namespace: kernel.config.memory_namespace@,
                context_window: model.info.context_window,
                compact_limit: model.compact_limit,
            };
            &&& kernel.has_memory_storage ==> new_stage(kernel, session_id, config)
                == OpeningStageView::Remember(draft)
            &&& !kernel.has_memory_storage ==> new_stage(kernel, session_id, config)
                == with_memories(session_id, draft, Seq::empty())
        },
{
}

/// A session to be resumed must be stored, readable and bound to a known model;
/// its ledger is taken over whole.
pub proof fn law_loaded_session_is_taken_over(
    kernel: AgentKernel,
    session_id: Seq<char>,
    events: Seq<LedgerEventView>,
    source: Seq<Seq<char>>,
)
    ensures
        opening_loaded(kernel, session_id, Ok(None)) == OpeningStageView::Refused(
            AgentErrorView::SessionNotFound(session_id),
        ),
        opening_loaded(kernel, session_id, Err(source)) == OpeningStageView::Refused(
            AgentErrorView::StorageError(
                seq!["failed to load session '"@ + session_id + "'"@] + source,
            ),
        ),
        match restored_state(
            events,
            kernel.config.default_model@,
            kernel.config.memory_namespace@,
        ) {
            Err(error) => opening_loaded(kernel, session_id, Ok(Some(events)))
                == OpeningStageView::Refused(error),
            Ok(state) => match kernel.models.model(state.model_id) {
                None => opening_loaded(kernel, session_id, Ok(Some(events)))
                    == OpeningStageView::Refused(AgentErrorView::ModelNotSupported(state.model_id)),
                Some(model) => {
                    let draft = DraftView::Restored {
                        state,
                        ledger: events,
                        context_window: model.info.context_window,
                        compact_limit: model.compact_limit,
                    };
                    &&& kernel.has_memory_storage ==> opening_loaded(
                        kernel,
                        session_id,
                        Ok(Some(events)),
                    ) == OpeningStageView::Remember(draft)
                    &&& !kernel.has_memory_storage ==> opening_loaded(
                        kernel,
                        session_id,
                        Ok(Some(events)),
                    ) == with_memories(session_id, draft, Seq::empty())
                },
            },
        },
{
}

/// Where memories are stored, the latest of the session's namespace are listed, up
/// to the limit, and all that are listed are at hand from then on.
pub proof fn law_opened_session_lists_memories(
    kernel: AgentKernel,
    o: OpeningView,
    draft: DraftView,
    now: Timestamp,
    memories: Seq<MemoryView>,
    source: Seq<Seq<char>>,
)
    requires
        o.saving is None,
        o.dispatch is None,
        o.stage == OpeningStageView::Remember(draft),
    ensures
        ({
            let namespace = match draft {
                DraftView::New { memory_namespace, .. } => memory_namespace,
                DraftView::Restored { state, .. } => state.memory_namespace,
            };
            &&& opening_next(kernel, o, now) == (
                o,
                SessionActionView::ListRecent { namespace, limit: kernel.config.memory_max_items },
            )
            &&& opening_remembered(o.session_id, draft, Ok(memories)) == with_memories(
                o.session_id,
                draft,
                memories,
            )
            &&& opening_remembered(o.session_id, draft, Err(source)) == OpeningStageView::Refused(
                AgentErrorView::StorageError(
                    seq!["failed to load bootstrap memories for namespace '"@ + namespace + "'"@]
                        + source,
                ),
            )
        }),
{
}

/// A new session that the hooks accept stores its model, its prompt and its
/// namespace, in this order, and is then open; one that they refuse is not opened.
pub proof fn law_new_session_is_recorded(
    kernel: AgentKernel,
    o: OpeningView,
    rt: RuntimeView,
    now: Timestamp,
    error: AgentErrorView,
    outbox: Seq<PayloadView>,
)
    ensures
        opening_greeted(rt, Ok(())) matches OpeningStageView::Record { runtime, outbox: first } && {
            &&& runtime == rt
            &&& first.len() == 2
            &&& first[0] == (PayloadView::Metadata {
                key: MetadataKey::SessionConfig,
                value: MetadataValueView::SessionConfig(
                    SessionConfigView {
                        model_id: Some(rt.model_id),
                        system_prompt_override: rt.system_prompt_override,
                    },
                ),
            })
            &&& first[1] == (PayloadView::Metadata {
                key: MetadataKey::MemoryNamespace,
                value: MetadataValueView::MemoryNamespace(rt.memory_namespace),
            })
        },
        opening_greeted(rt, Err(error)) == OpeningStageView::Refused(error),
        o.saving is None && o.dispatch is None && o.stage == (OpeningStageView::Record {
            runtime: rt,
            outbox,
        }) ==> {
            &&& outbox.len() == 0 ==> opening_next(kernel, o, now).0.stage
                == OpeningStageView::Ready(rt)
            &&& outbox.len() > 0 ==> (opening_next(kernel, o, now).1 matches SessionActionView::Save(
                event,
            ) && {
                &&& event.payload == outbox[0]
                &&& event.seq == next_number(rt.ledger)
                &&& event.timestamp == now
                &&& opening_next(kernel, o, now).0.saving == Some(event)
                &&& opening_next(kernel, o, now).0.stage == (OpeningStageView::Record {
                    runtime: rt,
                    outbox: outbox.drop_first(),
                })
            })
        },
{
}

/// A session to be resumed is loaded by its id, and one that is open or refused
/// has nothing more to do.
pub proof fn law_opening_asks_for_its_session(kernel: AgentKernel, o: OpeningView, now: Timestamp)
    requires
        o.saving is None,
        o.dispatch is None,
    ensures
        o.stage is Load ==> opening_next(kernel, o, now) == (
            o,
            SessionActionView::Load(o.session_id),
        ),
        o.stage is Ready || o.stage is Refused ==> opening_next(kernel, o, now) == (
            o,
            SessionActionView::Finish,
        ),
{
}

// ---------------------------------------------------------------------------
// Closing
// ---------------------------------------------------------------------------
/// A session that is closed has its memories extracted where they are stored and
/// its memory model can be reached: from the events behind the checkpoint, for its
/// namespace and under its id.
pub proof fn law_closing_extracts_memories(
    kernel: AgentKernel,
    o: ClosingView,
    rt: RuntimeView,
    now: Timestamp,
)
    requires
        o.saving is None,
        o.dispatch is None,
        o.stage is Extract,
    ensures
        can_extract(kernel, rt) ==> (closing_next(kernel, o, rt, now)
            matches (after, SessionActionView::Extract(run)) && {
            &&& after == o
            &&& run.namespace == rt.memory_namespace
            &&& run.source == "session:"@ + rt.session_id
            &&& run.model_id == memory_model_of(kernel, rt.model_id)
            &&& (run.last_seq, run.stage) == extraction_start(
                rt.ledger,
                rt.last_memory_checkpoint_seq,
            )
        }),
        !can_extract(kernel, rt) ==> closing_next(kernel, o, rt, now).0 == (ClosingView {
            stage: ClosingStageView::Done,
            ..o
        }),
        can_extract(kernel, rt) <==> kernel.has_memory_storage && provider_of(
            kernel.models,
            memory_model_of(kernel, rt.model_id),
        ) is Ok,
{
}

/// What an extraction covered at the close is noted in the ledger, and the session
/// is closed whether or not that succeeds.
pub proof fn law_closing_notes_checkpoint(
    kernel: AgentKernel,
    o: ClosingView,
    rt: RuntimeView,
    now: Timestamp,
    seq: u64,
    error: AgentErrorView,
)
    requires
        o.saving is None,
        o.dispatch is None,
    ensures
        closing_extracted(o, Ok(Some(seq))) == (ClosingView {
            stage: ClosingStageView::Note(seq),
            ..o
        }),
        closing_extracted(o, Ok(None)).stage is Done,
        closing_extracted(o, Err(error)).stage is Done,
        closing_saved(o).stage is Done,
        o.stage == ClosingStageView::Note(seq) ==> (closing_next(kernel, o, rt, now)
            matches (after, SessionActionView::Save(event)) && {
            &&& event.seq == next_number(rt.ledger)
            &&& event.timestamp == now
            &&& event.payload == (PayloadView::Metadata {
                key: MetadataKey::MemoryCheckpoint,
                value: MetadataValueView::MemoryCheckpoint(seq),
            })
            &&& after.saving == Some(event)
        }),
{
}

// ---------------------------------------------------------------------------
// The slot
// ---------------------------------------------------------------------------
/// A running agent with an empty slot reserves it for the session that asks, and
/// the reservation makes exactly that session active, with no turn running.
pub proof fn law_slot_goes_to_the_session(
    c: ControlView,
    session_id: Seq<char>,
    reservation_id: Seq<char>,
)
    requires
        c.lifecycle is Running,
        c.slot is Empty,
    ensures
        ({
            let (reserved, result) = claimed(c, session_id, reservation_id);
            let (active, done) = activated(reserved, reservation_id);
            &&& result is Ok
            &&& reserved.slot == (SlotView::Reserved { reservation_id, session_id })
            &&& reserved.lifecycle == c.lifecycle
            &&& done is Ok
            &&& active.slot == (SlotView::Active { session_id, turn_state: TurnState::Idle })
            &&& active.lifecycle == c.lifecycle
        }),
{
}

/// A taken slot is not given away, and an agent that is not running gives none.
pub proof fn law_taken_slot_is_kept(
    c: ControlView,
    session_id: Seq<char>,
    reservation_id: Seq<char>,
)
    requires
        !(c.lifecycle is Running) || !(c.slot is Empty),
    ensures
        claimed(c, session_id, reservation_id).0 == c,
        claimed(c, session_id, reservation_id).1 == Err::<(), AgentErrorView>(
            if c.lifecycle is Running {
                AgentErrorView::SessionBusy
            } else {
                AgentErrorView::AgentShutdown
            },
        ),
{
}

/// The active session goes from idle to running and back with its turns; a turn
/// is refused while another runs, while the session closes, and to any session
/// that is not the active one.
pub proof fn law_turns_take_turns(c: ControlView, id: Seq<char>, other: Seq<char>, state: TurnState)
    requires
        c.slot == (SlotView::Active { session_id: id, turn_state: state }),
        other != id,
    ensures
        turn_started(c, id) == (match state {
            TurnState::Idle => (
                ControlView {
                    slot: SlotView::Active { session_id: id, turn_state: TurnState::Running },
                    ..c
                },
                Ok::<(), AgentErrorView>(()),
            ),
            TurnState::Running => (c, Err(AgentErrorView::TurnBusy)),
            TurnState::Closing => (c, Err(AgentErrorView::SessionBusy)),
        }),
        turn_started(c, other) == (
            c,
            Err::<(), AgentErrorView>(AgentErrorView::SessionNotFound(other)),
        ),
        turn_cleared(c, id).slot == (SlotView::Active {
            session_id: id,
            turn_state: match state {
                TurnState::Running => TurnState::Idle,
                _ => state,
            },
        }),
        turn_cleared(c, other) == c,
{
}

/// The active session is closed once: closing it tells whether a turn was running,
/// and at the end the slot is empty.
pub proof fn law_active_session_is_closed(
    c: ControlView,
    id: Seq<char>,
    other: Seq<char>,
    state: TurnState,
)
    requires
        c.slot == (SlotView::Active { session_id: id, turn_state: state }),
        !(state is Closing),
        other != id,
    ensures
        ({
            let (closing, result) = close_begun(c, id);
            &&& result == Ok::<bool, AgentErrorView>(state is Running)
            &&& closing.slot == (SlotView::Active { session_id: id, turn_state: TurnState::Closing })
            &&& closing.lifecycle == c.lifecycle
            &&& close_begun(closing, id) == (
                closing,
                Err::<bool, AgentErrorView>(AgentErrorView::SessionBusy),
            )
            &&& close_finished(closing, id) == (
                ControlView { slot: SlotView::Empty, ..closing },
                Ok::<(), AgentErrorView>(()),
            )
            &&& close_begun(c, other) == (
                c,
                Err::<bool, AgentErrorView>(AgentErrorView::SessionNotFound(other)),
            )
        }),
{
}

/// A running agent that is shut down takes nothing new and closes its active
/// session first, if it has one; a second shutdown has nothing to do.
pub proof fn law_shutdown_closes_active_session(c: ControlView)
    ensures
        ({
            let (after, start) = shutdown_begun(c);
            &&& after.slot == c.slot
            &&& c.lifecycle is Running ==> after.lifecycle is ShuttingDown
            &&& !(c.lifecycle is Running) ==> after == c && start is Nothing
            &&& c.lifecycle is Running ==> match c.slot {
                SlotView::Active { session_id, .. } => start == ShutdownStartView::Close(
                    session_id,
                ),
                _ => start is Plugins,
            }
            &&& shutdown_begun(after) == (after, ShutdownStartView::Nothing)
        }),
{
}

/// A session whose close is given up is idle again.
pub proof fn law_aborted_close_leaves_session_idle(c: ControlView, id: Seq<char>, other: Seq<char>)
    requires
        c.slot == (SlotView::Active { session_id: id, turn_state: TurnState::Closing }),
        other != id,
    ensures
        close_aborted(c, id) == (
            ControlView {
                slot: SlotView::Active { session_id: id, turn_state: TurnState::Idle },
                ..c
            },
            Ok::<(), AgentErrorView>(()),
        ),
        close_aborted(c, other) == (
            c,
            Err::<(), AgentErrorView>(AgentErrorView::SessionNotFound(other)),
        ),
{
}

} // verus!
