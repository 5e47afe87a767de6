//! The state of a session: its ledger, the context that the model sees, and
//! how both change when an event has been stored.

use crate::application::context_laws::{
    law_append_extends_projection, law_compaction_applies_as_rebuilt, law_interruption_is_shown,
    law_metadata_is_invisible, lemma_same_after_push, lemma_same_as_itself, same_but_notices,
};
use crate::application::context_manager::{
    floor_of, interrupted, message_of, payload_to_message, read_marker, rebuilt, visible,
    ContextManager, ContextView,
};
use crate::clock::{utc_now, Timestamp};
use crate::domain::config::{SessionConfig, SessionConfigView};
use crate::domain::error::{outcome, AgentError, AgentErrorView, ErrorSource, Result};
use crate::domain::event::{AgentEvent, AgentEventPayload, AgentEventView, EventPayloadView};
use crate::domain::ledger::{
    latest, law_latest_ignores_others, law_latest_reads_back, next_number, successor, unusable,
    LedgerEvent, LedgerEventPayload, LedgerEventView, MetadataKey, MetadataValue,
    MetadataValueView, PayloadView, SessionLedger,
};
use crate::domain::types::{Memory, MemoryView};
use crate::text::{decimal, decimal_text};
use vstd::prelude::*;
use vstd::string::*;

verus! {

broadcast use vstd::std_specs::vec::vec_clone_deep_view_proof;

/// The state of a session.
#[derive(Debug)]
pub struct SessionRuntime {
    /// Session id.
    pub session_id: String,
    /// Model that the session is bound to.
    pub model_id: String,
    /// Addition to the system prompt.
    pub system_prompt_override: Option<String>,
    /// Memory namespace that the session is bound to.
    pub memory_namespace: String,
    /// The ledger.
    pub ledger: SessionLedger,
    /// The context that the model sees.
    pub context_manager: ContextManager,
    /// Number of the next event for the caller.
    pub event_sequence: u64,
    /// Number of the current turn.
    pub turn_index: u64,
    /// Last ledger number covered by a memory checkpoint.
    pub last_memory_checkpoint_seq: u64,
    /// Memories loaded when the session was opened.
    pub bootstrap_memories: Vec<Memory>,
}

/// Model of [`SessionRuntime`].
#[verifier::ext_equal]
pub struct RuntimeView {
    pub session_id: Seq<char>,
    pub model_id: Seq<char>,
    pub system_prompt_override: Option<Seq<char>>,
    pub memory_namespace: Seq<char>,
    pub ledger: Seq<LedgerEventView>,
    pub context: ContextView,
    pub event_sequence: u64,
    pub turn_index: u64,
    pub last_memory_checkpoint_seq: u64,
    pub bootstrap_memories: Seq<MemoryView>,
}

impl DeepView for SessionRuntime {
    type V = RuntimeView;

    open spec fn deep_view(&self) -> RuntimeView {
        RuntimeView {
            session_id: self.session_id@,
            model_id: self.model_id@,
            system_prompt_override: self.system_prompt_override.deep_view(),
            memory_namespace: self.memory_namespace@,
            ledger: self.ledger.deep_view(),
            context: self.context_manager.deep_view(),
            event_sequence: self.event_sequence,
            turn_index: self.turn_index,
            last_memory_checkpoint_seq: self.last_memory_checkpoint_seq,
            bootstrap_memories: self.bootstrap_memories.deep_view(),
        }
    }
}

// ---------------------------------------------------------------------------
// Stored events
// ---------------------------------------------------------------------------
/// A stored metadata value that cannot be used.
pub open spec fn unreadable(context: Seq<char>, value: MetadataValueView) -> AgentErrorView {
    AgentErrorView::StorageError(seq![context] + unusable(value))
}

/// A session whose ledger holds an event with the payload, after the payload
/// has taken effect.
pub open spec fn projected(
    runtime: RuntimeView,
    payload: PayloadView,
) -> std::result::Result<RuntimeView, AgentErrorView> {
    match message_of(payload) {
        Some(message) => Ok(
            RuntimeView {
                context: ContextView {
                    visible: runtime.context.visible.push(message),
                    ..runtime.context
                },
                ..runtime
            },
        ),
        None => match payload {
            PayloadView::Metadata { key: MetadataKey::ContextCompaction, value } => match value {
                MetadataValueView::ContextCompaction(marker) => Ok(
                    RuntimeView {
                        context: ContextView {
                            latest: Some(marker),
                            visible: visible(runtime.ledger, Some(marker)),
                            ..runtime.context
                        },
                        ..runtime
                    },
                ),
                other => Err(
                    unreadable("failed to deserialize context compaction metadata"@, other),
                ),
            },
            PayloadView::Metadata { key: MetadataKey::MemoryCheckpoint, value } => match value {
                MetadataValueView::MemoryCheckpoint(seq) => Ok(
                    RuntimeView { last_memory_checkpoint_seq: seq, ..runtime },
                ),
                other => Err(unreadable("failed to deserialize memory checkpoint metadata"@, other)),
            },
            _ => Ok(runtime),
        },
    }
}

/// A session after the attempt to store an event: a failed attempt changes
/// nothing, a stored event is appended to the ledger and takes effect.
pub open spec fn persisted(
    runtime: RuntimeView,
    event: LedgerEventView,
    saved: std::result::Result<(), Seq<Seq<char>>>,
) -> (RuntimeView, std::result::Result<(), AgentErrorView>) {
    match saved {
        Err(source) => (
            runtime,
            Err(
                AgentErrorView::StorageError(
                    seq![
                        "failed to save ledger event "@ + decimal(event.seq as nat)
                            + " for session '"@ + runtime.session_id + "'"@,
                    ] + source,
                ),
            ),
        ),
        Ok(_) => {
            let appended = RuntimeView { ledger: runtime.ledger.push(event), ..runtime };
            match projected(appended, event.payload) {
                Ok(after) => (after, Ok(())),
                Err(error) => (appended, Err(error)),
            }
        },
    }
}

/// Model of the result of a call to a storage.
pub open spec fn storage_result<T: DeepView>(
    r: std::result::Result<T, ErrorSource>,
) -> std::result::Result<T::V, Seq<Seq<char>>> {
    match r {
        Ok(value) => Ok(value.deep_view()),
        Err(source) => Err(source.deep_view()),
    }
}

/// Reads a memory checkpoint from a metadata value.
pub fn read_checkpoint(value: &MetadataValue) -> (r: Result<u64>)
    ensures
        match value.deep_view() {
            MetadataValueView::MemoryCheckpoint(seq) => r == Ok::<u64, AgentError>(seq),
            other => r matches Err(error) && error.deep_view() == unreadable(
                "failed to deserialize memory checkpoint metadata"@,
                other,
            ),
        },
{
    match value {
        MetadataValue::MemoryCheckpoint(seq) => Ok(*seq),
        _ => Err(
            AgentError::StorageError(
                value.unusable_source().context("failed to deserialize memory checkpoint metadata"),
            ),
        ),
    }
}

/// Number of user and assistant messages.
pub open spec fn messages_in(events: Seq<LedgerEventView>) -> nat
    decreases events.len(),
{
    if events.len() == 0 {
        0
    } else {
        let last = events.last().payload;
        messages_in(events.drop_last()) + (if last is UserMessage || last is AssistantMessage {
            1nat
        } else {
            0nat
        })
    }
}

impl SessionRuntime {
    /// The state of a new session.
    pub fn new(
        session_id: String,
        model_id: String,
        system_prompt_override: Option<String>,
        memory_namespace: String,
        context_window: usize,
        compact_limit: usize,
        bootstrap_memories: Vec<Memory>,
    ) -> (r: Self)
        ensures
            r.deep_view() == (RuntimeView {
                session_id: session_id@,
                model_id: model_id@,
                system_prompt_override: system_prompt_override.deep_view(),
                memory_namespace: memory_namespace@,
                ledger: Seq::empty(),
                context: ContextView {
                    latest: None,
                    visible: Seq::empty(),
                    context_window,
                    compact_limit,
                },
                event_sequence: 1,
                turn_index: 0,
                last_memory_checkpoint_seq: 0,
                bootstrap_memories: bootstrap_memories.deep_view(),
            }),
    {
        SessionRuntime {
            session_id,
            model_id,
            system_prompt_override,
            memory_namespace,
            ledger: SessionLedger::new(),
            context_manager: ContextManager::new(context_window, compact_limit),
            event_sequence: 1,
            turn_index: 0,
            last_memory_checkpoint_seq: 0,
            bootstrap_memories,
        }
    }

    /// The next event of the ledger, at the given time.
    pub fn allocate_event_at(&self, payload: LedgerEventPayload, timestamp: Timestamp) -> (r:
        LedgerEvent)
        ensures
            r.deep_view() == (LedgerEventView {
                seq: next_number(self.deep_view().ledger),
                timestamp,
                payload: payload.deep_view(),
            }),
    {
        LedgerEvent { seq: self.ledger.next_seq(), timestamp, payload }
    }

    /// The next event of the ledger, now.
    pub fn allocate_event(&self, payload: LedgerEventPayload) -> (r: LedgerEvent)
        ensures
            r.seq == next_number(self.deep_view().ledger),
            r.payload == payload,
    {
        let timestamp = utc_now();
        LedgerEvent { seq: self.ledger.next_seq(), timestamp, payload }
    }

    /// Takes the outcome of storing an event. Only a stored event changes the
    /// session.
    pub fn persist_and_project(
        &mut self,
        event: LedgerEvent,
        saved: std::result::Result<(), ErrorSource>,
    ) -> (r: Result<()>)
        ensures
            (final(self).deep_view(), outcome(r)) == persisted(
                old(self).deep_view(),
                event.deep_view(),
                storage_result(saved),
            ),
    {
        match saved {
            Err(source) => {
                let message = "failed to save ledger event ".to_owned().concat(
                    decimal_text(event.seq).as_str(),
                ).concat(" for session '").concat(self.session_id.as_str()).concat("'");
                Err(AgentError::StorageError(source.context(message.as_str())))
            },
            Ok(_) => {
                let payload = event.payload.clone();
                self.ledger.append(event);
                self.project_ledger_payload(payload)
            },
        }
    }

    fn project_ledger_payload(&mut self, payload: LedgerEventPayload) -> (r: Result<()>)
        ensures
            match projected(old(self).deep_view(), payload.deep_view()) {
                Ok(after) => r is Ok && final(self).deep_view() == after,
                Err(error) => r matches Err(e) && e.deep_view() == error
                    && final(self).deep_view() == old(self).deep_view(),
            },
    {
        match payload_to_message(&payload) {
            Some(message) => {
                self.context_manager.push(message);
                return Ok(());
            },
            None => {},
        }
        match payload {
            LedgerEventPayload::Metadata { key, value } => match key {
                MetadataKey::ContextCompaction => match read_marker(&value) {
                    Ok(marker) => {
                        self.context_manager.apply_compaction_marker(&self.ledger, marker);
                        Ok(())
                    },
                    Err(error) => Err(error),
                },
                MetadataKey::MemoryCheckpoint => match read_checkpoint(&value) {
                    Ok(seq) => {
                        self.last_memory_checkpoint_seq = seq;
                        Ok(())
                    },
                    Err(error) => Err(error),
                },
                _ => Ok(()),
            },
            _ => Ok(()),
        }
    }

    /// Numbers an event for the caller, at the given time.
    pub fn next_event_at(
        &mut self,
        turn_id: &str,
        payload: AgentEventPayload,
        timestamp: Timestamp,
    ) -> (r: AgentEvent)
        ensures
            r.deep_view() == (AgentEventView {
                session_id: old(self).deep_view().session_id,
                turn_id: turn_id@,
                timestamp,
                sequence: old(self).deep_view().event_sequence,
                payload: payload.deep_view(),
            }),
            final(self).deep_view() == (RuntimeView {
                event_sequence: successor(old(self).deep_view().event_sequence),
                ..old(self).deep_view()
            }),
    {
        let sequence: u64 = self.event_sequence;
        self.event_sequence = sequence.saturating_add(1);
        AgentEvent {
            session_id: self.session_id.clone(),
            turn_id: turn_id.to_owned(),
            timestamp,
            sequence,
            payload,
        }
    }

    /// Numbers an event for the caller, now.
    pub fn next_event(&mut self, turn_id: &str, payload: AgentEventPayload) -> (r: AgentEvent)
        ensures
            r.session_id@ == old(self).deep_view().session_id,
            r.turn_id@ == turn_id@,
            r.sequence == old(self).deep_view().event_sequence,
            r.payload.deep_view() == payload.deep_view(),
            final(self).deep_view() == (RuntimeView {
                event_sequence: successor(old(self).deep_view().event_sequence),
                ..old(self).deep_view()
            }),
    {
        let timestamp = utc_now();
        self.next_event_at(turn_id, payload, timestamp)
    }

    /// The event that tells the caller that a turn panicked.
    pub fn panic_event(&mut self, turn_id: &str) -> (r: AgentEvent)
        ensures
            r.session_id@ == old(self).deep_view().session_id,
            r.turn_id@ == turn_id@,
            r.sequence == old(self).deep_view().event_sequence,
            r.payload.deep_view() == EventPayloadView::Error(
                AgentErrorView::InternalPanic { message: "background turn task panicked"@ },
            ),
            final(self).deep_view() == (RuntimeView {
                event_sequence: successor(old(self).deep_view().event_sequence),
                ..old(self).deep_view()
            }),
    {
        let message = "background turn task panicked".to_owned();
        self.next_event(turn_id, AgentEventPayload::Error(AgentError::InternalPanic { message }))
    }

    /// Starts the next turn and names it.
    pub fn allocate_turn_id(&mut self) -> (r: String)
        ensures
            final(self).deep_view() == (RuntimeView {
                turn_index: successor(old(self).deep_view().turn_index),
                ..old(self).deep_view()
            }),
            r@ == "turn-"@ + decimal(successor(old(self).deep_view().turn_index) as nat),
    {
        self.turn_index = self.turn_index.saturating_add(1);
        "turn-".to_owned().concat(decimal_text(self.turn_index).as_str())
    }

    /// Number of user and assistant messages.
    pub fn message_count(&self) -> (r: usize)
        ensures
            r == messages_in(self.deep_view().ledger),
    {
        let events = self.ledger.events();
        let ghost all = self.ledger.deep_view();
        let mut count: usize = 0;
        let mut i: usize = 0;
        while i < events.len()
            invariant
                i <= events.len(),
                all == events.deep_view(),
                count <= i,
                count == messages_in(all.take(i as int)),
            decreases events.len() - i,
        {
            proof {
                assert(all.take(i + 1).drop_last() =~= all.take(i as int));
                assert(all.take(i + 1).last() == events[i as int].deep_view());
            }
            match &events[i].payload {
                LedgerEventPayload::UserMessage { .. }
                | LedgerEventPayload::AssistantMessage { .. } => {
                    count += 1;
                },
                _ => {},
            }
            i += 1;
        }
        proof {
            assert(all.take(all.len() as int) =~= all);
        }
        count
    }
}

// ---------------------------------------------------------------------------
// Restoring
// ---------------------------------------------------------------------------
/// What a ledger says about its session.
#[derive(Debug, PartialEq, Eq)]
pub struct RestoredSessionState {
    /// Model of the session.
    pub model_id: String,
    /// Addition to the system prompt.
    pub system_prompt_override: Option<String>,
    /// Memory namespace of the session.
    pub memory_namespace: String,
    /// Last ledger number covered by a memory checkpoint.
    pub last_memory_checkpoint_seq: u64,
    /// Number of turns so far.
    pub turn_index: u64,
}

/// Model of [`RestoredSessionState`].
#[verifier::ext_equal]
pub struct RestoredView {
    pub model_id: Seq<char>,
    pub system_prompt_override: Option<Seq<char>>,
    pub memory_namespace: Seq<char>,
    pub last_memory_checkpoint_seq: u64,
    pub turn_index: nat,
}

impl DeepView for RestoredSessionState {
    type V = RestoredView;

    open spec fn deep_view(&self) -> RestoredView {
        RestoredView {
            model_id: self.model_id@,
            system_prompt_override: self.system_prompt_override.deep_view(),
            memory_namespace: self.memory_namespace@,
            last_memory_checkpoint_seq: self.last_memory_checkpoint_seq,
            turn_index: self.turn_index as nat,
        }
    }
}

/// Number of user messages.
pub open spec fn turns_in(events: Seq<LedgerEventView>) -> nat
    decreases events.len(),
{
    if events.len() == 0 {
        0
    } else {
        turns_in(events.drop_last()) + (if events.last().payload is UserMessage {
            1nat
        } else {
            0nat
        })
    }
}

/// The session configuration recorded in a ledger.
pub open spec fn recorded_config(
    events: Seq<LedgerEventView>,
) -> std::result::Result<SessionConfigView, AgentErrorView> {
    match latest(events, MetadataKey::SessionConfig) {
        None => Ok(SessionConfigView { model_id: None, system_prompt_override: None }),
        Some(MetadataValueView::SessionConfig(config)) => Ok(config),
        Some(other) => Err(unreadable("failed to deserialize session config metadata"@, other)),
    }
}

/// The memory namespace recorded in a ledger, or the given one.
pub open spec fn recorded_namespace(
    events: Seq<LedgerEventView>,
    default_namespace: Seq<char>,
) -> std::result::Result<Seq<char>, AgentErrorView> {
    match latest(events, MetadataKey::MemoryNamespace) {
        None => Ok(default_namespace),
        Some(MetadataValueView::MemoryNamespace(namespace)) => Ok(namespace),
        Some(other) => Err(unreadable("failed to deserialize memory namespace metadata"@, other)),
    }
}

/// The memory checkpoint recorded in a ledger, or zero.
pub open spec fn recorded_checkpoint(
    events: Seq<LedgerEventView>,
) -> std::result::Result<u64, AgentErrorView> {
    match latest(events, MetadataKey::MemoryCheckpoint) {
        None => Ok(0),
        Some(MetadataValueView::MemoryCheckpoint(seq)) => Ok(seq),
        Some(other) => Err(unreadable("failed to deserialize memory checkpoint metadata"@, other)),
    }
}

/// What a ledger says about its session; what it does not say is taken from
/// the agent's defaults.
pub open spec fn restored_state(
    events: Seq<LedgerEventView>,
    default_model: Seq<char>,
    default_namespace: Seq<char>,
) -> std::result::Result<RestoredView, AgentErrorView> {
    match recorded_config(events) {
        Err(error) => Err(error),
        Ok(config) => match recorded_namespace(events, default_namespace) {
            Err(error) => Err(error),
            Ok(memory_namespace) => match recorded_checkpoint(events) {
                Err(error) => Err(error),
                Ok(last_memory_checkpoint_seq) => Ok(
                    RestoredView {
                        model_id: match config.model_id {
                            Some(model_id) => model_id,
                            None => default_model,
                        },
                        system_prompt_override: config.system_prompt_override,
                        memory_namespace,
                        last_memory_checkpoint_seq,
                        turn_index: turns_in(events),
                    },
                ),
            },
        },
    }
}

fn count_turns(ledger: &SessionLedger) -> (r: u64)
    ensures
        r == turns_in(ledger.deep_view()),
{
    let events = ledger.events();
    let ghost all = ledger.deep_view();
    let mut count: usize = 0;
    let mut i: usize = 0;
    while i < events.len()
        invariant
            i <= events.len(),
            all == events.deep_view(),
            count <= i,
            count == turns_in(all.take(i as int)),
        decreases events.len() - i,
    {
        proof {
            assert(all.take(i + 1).drop_last() =~= all.take(i as int));
            assert(all.take(i + 1).last() == events[i as int].deep_view());
        }
        match &events[i].payload {
            LedgerEventPayload::UserMessage { .. } => {
                count += 1;
            },
            _ => {},
        }
        i += 1;
    }
    proof {
        assert(all.take(all.len() as int) =~= all);
    }
    count as u64
}

/// Reads from a ledger what it says about its session.
pub fn restore_session_state(
    ledger: &SessionLedger,
    default_model: &str,
    default_namespace: &str,
) -> (r: Result<RestoredSessionState>)
    ensures
        outcome(r) == restored_state(ledger.deep_view(), default_model@, default_namespace@),
{
    let session_config = match ledger.latest_metadata(&MetadataKey::SessionConfig) {
        None => SessionConfig { model_id: None, system_prompt_override: None },
        Some(MetadataValue::SessionConfig(config)) => config.clone(),
        Some(other) => {
            return Err(
                AgentError::StorageError(
                    other.unusable_source().context("failed to deserialize session config metadata"),
                ),
            );
        },
    };
    let memory_namespace = match ledger.latest_metadata(&MetadataKey::MemoryNamespace) {
        None => default_namespace.to_owned(),
        Some(MetadataValue::MemoryNamespace(namespace)) => namespace.clone(),
        Some(other) => {
            return Err(
                AgentError::StorageError(
                    other.unusable_source().context(
                        "failed to deserialize memory namespace metadata",
                    ),
                ),
            );
        },
    };
    let last_memory_checkpoint_seq: u64 = match ledger.latest_metadata(
        &MetadataKey::MemoryCheckpoint,
    ) {
        None => 0,
        Some(value) => match read_checkpoint(value) {
            Ok(seq) => seq,
            Err(error) => {
                return Err(error);
            },
        },
    };
    let model_id = match session_config.model_id {
        Some(model_id) => model_id,
        None => default_model.to_owned(),
    };
    Ok(
        RestoredSessionState {
            model_id,
            system_prompt_override: session_config.system_prompt_override,
            memory_namespace,
            last_memory_checkpoint_seq,
            turn_index: count_turns(ledger),
        },
    )
}

/// The session that a ledger gives.
pub open spec fn restored_runtime(
    session_id: Seq<char>,
    state: RestoredView,
    events: Seq<LedgerEventView>,
    context_window: usize,
    compact_limit: usize,
    bootstrap_memories: Seq<MemoryView>,
) -> std::result::Result<RuntimeView, AgentErrorView> {
    match rebuilt(events, context_window, compact_limit) {
        Ok(context) => Ok(
            RuntimeView {
                session_id,
                model_id: state.model_id,
                system_prompt_override: state.system_prompt_override,
                memory_namespace: state.memory_namespace,
                ledger: events,
                context,
                event_sequence: 1,
                turn_index: state.turn_index as u64,
                last_memory_checkpoint_seq: state.last_memory_checkpoint_seq,
                bootstrap_memories,
            },
        ),
        Err(error) => Err(error),
    }
}

impl SessionRuntime {
    /// Restores a session from its ledger.
    pub fn from_ledger(
        session_id: String,
        state: RestoredSessionState,
        ledger: SessionLedger,
        context_window: usize,
        compact_limit: usize,
        bootstrap_memories: Vec<Memory>,
    ) -> (r: Result<Self>)
        ensures
            outcome(r) == restored_runtime(
                session_id@,
                state.deep_view(),
                ledger.deep_view(),
                context_window,
                compact_limit,
                bootstrap_memories.deep_view(),
            ),
    {
        match ContextManager::rebuild_from_ledger(&ledger, context_window, compact_limit) {
            Ok(context_manager) => Ok(
                SessionRuntime {
                    session_id,
                    model_id: state.model_id,
                    system_prompt_override: state.system_prompt_override,
                    memory_namespace: state.memory_namespace,
                    ledger,
                    context_manager,
                    event_sequence: 1,
                    turn_index: state.turn_index,
                    last_memory_checkpoint_seq: state.last_memory_checkpoint_seq,
                    bootstrap_memories,
                },
            ),
            Err(error) => Err(error),
        }
    }
}

// ---------------------------------------------------------------------------
// Laws
// ---------------------------------------------------------------------------
/// Whether the live context of a session is the one that its ledger gives.
pub open spec fn in_step(runtime: RuntimeView) -> bool {
    rebuilt(
        runtime.ledger,
        runtime.context.context_window,
        runtime.context.compact_limit,
    ) == Ok::<ContextView, AgentErrorView>(runtime.context)
}

/// Whether a metadata payload holds the value that its key calls for.
pub open spec fn well_typed(payload: PayloadView) -> bool {
    match payload {
        PayloadView::Metadata { key, value } => match key {
            MetadataKey::SessionConfig => value is SessionConfig,
            MetadataKey::MemoryNamespace => value is MemoryNamespace,
            MetadataKey::ContextCompaction => value is ContextCompaction,
            MetadataKey::MemoryCheckpoint => value is MemoryCheckpoint,
        },
        _ => true,
    }
}

/// An event that cannot be stored changes nothing.
pub proof fn law_failed_save_changes_nothing(
    runtime: RuntimeView,
    event: LedgerEventView,
    source: Seq<Seq<char>>,
)
    ensures
        persisted(runtime, event, Err(source)).0 == runtime,
        persisted(runtime, event, Err(source)).1 matches Err(AgentErrorView::StorageError(_)),
{
}

/// A new session is in step with its empty ledger.
pub proof fn law_new_session_in_step(runtime: RuntimeView)
    requires
        runtime.ledger == Seq::<LedgerEventView>::empty(),
        runtime.context.latest is None,
        runtime.context.visible == Seq::<crate::domain::types::MessageView>::empty(),
    ensures
        in_step(runtime),
{
    assert(visible(runtime.ledger, None) =~= runtime.context.visible);
}

/// The live path and the resume path agree: storing an event keeps the live
/// context equal to the one that is rebuilt from the ledger. Interrupted
/// messages are left out, as only a rebuilt context shows the notice behind
/// them.
pub proof fn law_live_equals_resume(runtime: RuntimeView, event: LedgerEventView)
    requires
        in_step(runtime),
        well_typed(event.payload),
        event.seq > floor_of(runtime.context.latest),
        !(message_of(event.payload) matches Some(message) && interrupted(message)),
    ensures
        persisted(runtime, event, Ok(())).1 is Ok,
        in_step(persisted(runtime, event, Ok(())).0),
{
    let events = runtime.ledger;
    let after = persisted(runtime, event, Ok(())).0;
    let window = runtime.context.context_window;
    let limit = runtime.context.compact_limit;
    match message_of(event.payload) {
        Some(message) => {
            law_latest_ignores_others(events, event, MetadataKey::ContextCompaction);
            law_append_extends_projection(events, event, runtime.context.latest, message);
        },
        None => match event.payload {
            PayloadView::Metadata { key: MetadataKey::ContextCompaction, value } => {
                let marker = value->ContextCompaction_0;
                law_compaction_applies_as_rebuilt(events, event, window, limit, marker);
            },
            _ => {
                law_latest_ignores_others(events, event, MetadataKey::ContextCompaction);
                law_metadata_is_invisible(events, event, runtime.context.latest);
            },
        },
    }
}

/// Whether the live context of a session is the one that its ledger gives,
/// except for notices behind interrupted messages.
pub open spec fn in_step_but_notices(runtime: RuntimeView) -> bool {
    rebuilt(
        runtime.ledger,
        runtime.context.context_window,
        runtime.context.compact_limit,
    ) matches Ok(context) && context.latest == runtime.context.latest && same_but_notices(
        runtime.context.visible,
        context.visible,
    )
}

/// The live path and the resume path agree on every event, interrupted messages
/// among them: a context rebuilt from the ledger shows what the live one shows,
/// and beyond that at most the notices behind interrupted messages.
pub proof fn law_live_differs_only_in_notices(runtime: RuntimeView, event: LedgerEventView)
    requires
        well_typed(event.payload),
        event.seq > floor_of(runtime.context.latest),
    ensures
        in_step(runtime) ==> in_step_but_notices(runtime),
        in_step_but_notices(runtime) ==> {
            &&& persisted(runtime, event, Ok(())).1 is Ok
            &&& in_step_but_notices(persisted(runtime, event, Ok(())).0)
        },
{
    let events = runtime.ledger;
    let window = runtime.context.context_window;
    let limit = runtime.context.compact_limit;
    let latest_marker = runtime.context.latest;
    lemma_same_as_itself(runtime.context.visible);
    if in_step_but_notices(runtime) {
        match message_of(event.payload) {
            Some(message) => {
                law_latest_ignores_others(events, event, MetadataKey::ContextCompaction);
                if interrupted(message) {
                    law_interruption_is_shown(events, event, latest_marker, message);
                } else {
                    law_append_extends_projection(events, event, latest_marker, message);
                }
                lemma_same_after_push(
                    runtime.context.visible,
                    visible(events, latest_marker),
                    message,
                );
            },
            None => match event.payload {
                PayloadView::Metadata { key: MetadataKey::ContextCompaction, value } => {
                    let marker = value->ContextCompaction_0;
                    law_compaction_applies_as_rebuilt(events, event, window, limit, marker);
                    lemma_same_as_itself(visible(events.push(event), Some(marker)));
                },
                _ => {
                    law_latest_ignores_others(events, event, MetadataKey::ContextCompaction);
                    law_metadata_is_invisible(events, event, latest_marker);
                },
            },
        }
    }
}

/// A restored session is in step with its ledger.
pub proof fn law_restored_session_in_step(
    session_id: Seq<char>,
    state: RestoredView,
    events: Seq<LedgerEventView>,
    context_window: usize,
    compact_limit: usize,
    bootstrap_memories: Seq<MemoryView>,
)
    ensures
        restored_runtime(
            session_id,
            state,
            events,
            context_window,
            compact_limit,
            bootstrap_memories,
        ) matches Ok(runtime) ==> in_step(runtime) && runtime.ledger == events,
{
}

/// The first two events of a new session.
pub open spec fn is_bootstrap(
    events: Seq<LedgerEventView>,
    model_id: Seq<char>,
    system_prompt_override: Option<Seq<char>>,
    memory_namespace: Seq<char>,
) -> bool {
    &&& events.len() == 2
    &&& events[0].payload == (PayloadView::Metadata {
        key: MetadataKey::SessionConfig,
        value: MetadataValueView::SessionConfig(
            SessionConfigView { model_id: Some(model_id), system_prompt_override },
        ),
    })
    &&& events[1].payload == (PayloadView::Metadata {
        key: MetadataKey::MemoryNamespace,
        value: MetadataValueView::MemoryNamespace(memory_namespace),
    })
}

/// Whether a payload leaves the binding of a session alone.
pub open spec fn leaves_binding(payload: PayloadView) -> bool {
    payload matches PayloadView::Metadata { key, .. } ==> key is ContextCompaction
        || key is MemoryCheckpoint
}

/// Whether an event leaves the binding of a session alone.
pub open spec fn keeps_binding(event: LedgerEventView) -> bool {
    leaves_binding(event.payload)
}

/// Resuming restores the model, the prompt and the memory namespace that the
/// session was opened with, whatever happened in it and whatever the agent's
/// defaults are now.
pub proof fn law_resume_restores_binding(
    bootstrap: Seq<LedgerEventView>,
    later: Seq<LedgerEventView>,
    model_id: Seq<char>,
    system_prompt_override: Option<Seq<char>>,
    memory_namespace: Seq<char>,
    default_model: Seq<char>,
    default_namespace: Seq<char>,
)
    requires
        is_bootstrap(bootstrap, model_id, system_prompt_override, memory_namespace),
        forall|i: int| 0 <= i < later.len() ==> keeps_binding(#[trigger] later[i]),
    ensures
        recorded_config(bootstrap + later) == Ok::<SessionConfigView, AgentErrorView>(
            SessionConfigView { model_id: Some(model_id), system_prompt_override },
        ),
        recorded_namespace(bootstrap + later, default_namespace) == Ok::<
            Seq<char>,
            AgentErrorView,
        >(memory_namespace),
        restored_state(bootstrap + later, default_model, default_namespace) matches Ok(state) ==> {
            &&& state.model_id == model_id
            &&& state.system_prompt_override == system_prompt_override
            &&& state.memory_namespace == memory_namespace
        },
        recorded_checkpoint(bootstrap + later) is Ok ==> restored_state(
            bootstrap + later,
            default_model,
            default_namespace,
        ) is Ok,
    decreases later.len(),
{
    let all = bootstrap + later;
    if later.len() == 0 {
        assert(all =~= bootstrap);
        let first = bootstrap.take(1);
        assert(bootstrap =~= first.push(bootstrap[1]));
        assert(first =~= Seq::<LedgerEventView>::empty().push(bootstrap[0]));
        law_latest_reads_back(
            first,
            bootstrap[1],
            MetadataKey::MemoryNamespace,
            MetadataValueView::MemoryNamespace(memory_namespace),
        );
        law_latest_ignores_others(first, bootstrap[1], MetadataKey::SessionConfig);
        law_latest_reads_back(
            Seq::<LedgerEventView>::empty(),
            bootstrap[0],
            MetadataKey::SessionConfig,
            MetadataValueView::SessionConfig(
                SessionConfigView { model_id: Some(model_id), system_prompt_override },
            ),
        );
    } else {
        let front = later.drop_last();
        assert forall|i: int| 0 <= i < front.len() implies keeps_binding(#[trigger] front[i]) by {
            assert(front[i] == later[i]);
        }
        law_resume_restores_binding(
            bootstrap,
            front,
            model_id,
            system_prompt_override,
            memory_namespace,
            default_model,
            default_namespace,
        );
        assert(keeps_binding(later[later.len() - 1]));
        assert(all =~= (bootstrap + front).push(later.last()));
        law_latest_ignores_others(bootstrap + front, later.last(), MetadataKey::SessionConfig);
        law_latest_ignores_others(bootstrap + front, later.last(), MetadataKey::MemoryNamespace);
    }
}

/// A session after events have been stored one after the other.
pub open spec fn stored_all(runtime: RuntimeView, events: Seq<LedgerEventView>) -> RuntimeView
    decreases events.len(),
{
    if events.len() == 0 {
        runtime
    } else {
        persisted(stored_all(runtime, events.drop_last()), events.last(), Ok(())).0
    }
}

/// Whether an event shows the same live and after a restart: its metadata fits
/// its key, a compaction covers only what lies before it, and its message was
/// not interrupted.
pub open spec fn shows_alike(event: LedgerEventView) -> bool {
    &&& well_typed(event.payload)
    &&& event.payload matches PayloadView::Metadata { key: MetadataKey::ContextCompaction, value }
        ==> value->ContextCompaction_0.replaces_through_seq < event.seq
    &&& !(message_of(event.payload) matches Some(message) && interrupted(message))
}

/// The live path and the resume path agree over any number of events: the
/// context of a session that stored them is the one rebuilt from its ledger.
pub proof fn law_live_session_equals_resumed(runtime: RuntimeView, events: Seq<LedgerEventView>)
    requires
        in_step(runtime),
        floor_of(runtime.context.latest) < next_number(runtime.ledger),
        next_number(runtime.ledger) + events.len() <= u64::MAX,
        forall|i: int|
            0 <= i < events.len() ==> {
                &&& shows_alike(#[trigger] events[i])
                &&& events[i].seq == next_number(runtime.ledger) + i
            },
    ensures
        ({
            let after = stored_all(runtime, events);
            &&& in_step(after)
            &&& after.ledger == runtime.ledger + events
            &&& floor_of(after.context.latest) < next_number(after.ledger)
            &&& next_number(after.ledger) == next_number(runtime.ledger) + events.len()
            &&& after.context.context_window == runtime.context.context_window
            &&& after.context.compact_limit == runtime.context.compact_limit
        }),
    decreases events.len(),
{
    if events.len() == 0 {
        assert(runtime.ledger + events =~= runtime.ledger);
    } else {
        let front = events.drop_last();
        let last = events[events.len() - 1];
        assert forall|i: int| 0 <= i < front.len() implies {
            &&& shows_alike(#[trigger] front[i])
            &&& front[i].seq == next_number(runtime.ledger) + i
        } by {
            assert(front[i] == events[i]);
        }
        law_live_session_equals_resumed(runtime, front);
        let before = stored_all(runtime, front);
        assert(shows_alike(last));
        law_live_equals_resume(before, last);
        assert(before.ledger.push(last) =~= runtime.ledger + events);
    }
}

} // verus!
