//! Opening sessions, as a state machine that the host drives.

use crate::api::agent::{no_session_storage, AgentKernel};
use crate::api::session::{handle_of, SessionHandle};
use crate::application::context_manager::ContextView;
use crate::application::hook_registry::{
    absorbed, calls_of, DispatchView, HookCall, HookCallView, HookDispatch,
};
use crate::application::memory_extraction::{Extraction, ExtractionView};
use crate::application::memory_manager::{memory_storage_error, memory_storage_failure};
use crate::application::session_control::{
    activated, claimed, rolled_back, AgentControl, ControlView, SlotView, TurnState,
};
use crate::application::session_runtime::{
    is_bootstrap, persisted, restore_session_state, restored_runtime, restored_state,
    storage_result, RestoredSessionState, RestoredView, RuntimeView, SessionRuntime,
};
use crate::clock::{fresh_id, id_shaped, utc_now, Timestamp};
use crate::domain::config::{SessionConfig, SessionConfigView};
use crate::domain::error::{outcome, AgentError, AgentErrorView, ErrorSource, Result};
use crate::domain::hook::{HookData, HookDataView, HookEvent, HookResult, HookResultView};
use crate::domain::ledger::{
    next_number, LedgerEvent, LedgerEventPayload, LedgerEventView, MetadataKey, MetadataValue,
    MetadataValueView, PayloadView, SessionLedger,
};
use crate::domain::types::{Memory, MemoryView};
use vstd::prelude::*;
use vstd::string::*;

verus! {

// ---------------------------------------------------------------------------
// Opening: states
// ---------------------------------------------------------------------------
/// A session that only waits for its memories.
#[derive(Debug)]
pub enum SessionDraft {
    /// A new session.
    New {
        /// Its model.
        model_id: String,
        /// Addition to the system prompt.
        system_prompt_override: Option<String>,
        /// Its memory namespace.
        memory_namespace: String,
        /// Size of the context window.
        context_window: usize,
        /// Number of tokens above which its context is compacted.
        compact_limit: usize,
    },
    /// A stored session.
    Restored {
        /// What its ledger says about it.
        state: RestoredSessionState,
        /// Its ledger.
        ledger: SessionLedger,
        /// Size of the context window.
        context_window: usize,
        /// Number of tokens above which its context is compacted.
        compact_limit: usize,
    },
}

/// Model of [`SessionDraft`].
#[verifier::ext_equal]
pub enum DraftView {
    New {
        model_id: Seq<char>,
        system_prompt_override: Option<Seq<char>>,
        memory_namespace: Seq<char>,
        context_window: usize,
        compact_limit: usize,
    },
    Restored {
        state: RestoredView,
        ledger: Seq<LedgerEventView>,
        context_window: usize,
        compact_limit: usize,
    },
}

impl DeepView for SessionDraft {
    type V = DraftView;

    open spec fn deep_view(&self) -> DraftView {
        match self {
            SessionDraft::New {
                model_id,
                system_prompt_override,
                memory_namespace,
                context_window,
                compact_limit,
            } => DraftView::New {
                model_id: model_id@,
                system_prompt_override: system_prompt_override.deep_view(),
                memory_namespace: memory_namespace@,
                context_window: *context_window,
                compact_limit: *compact_limit,
            },
            SessionDraft::Restored { state, ledger, context_window, compact_limit } =>
            DraftView::Restored {
                state: state.deep_view(),
                ledger: ledger.deep_view(),
                context_window: *context_window,
                compact_limit: *compact_limit,
            },
        }
    }
}

/// How far the opening of a session has come.
#[derive(Debug)]
pub enum OpeningStage {
    /// The stored events are to be loaded.
    Load,
    /// The memories are to be listed.
    Remember(SessionDraft),
    /// Hooks are asked whether the session may start.
    Greet(SessionRuntime),
    /// The binding of the session is being stored.
    Record {
        /// The session.
        runtime: SessionRuntime,
        /// What is still to be stored.
        outbox: Vec<LedgerEventPayload>,
    },
    /// The session cannot be opened.
    Refused(AgentError),
    /// The session is open.
    Ready(SessionRuntime),
}

/// Model of [`OpeningStage`].
#[verifier::ext_equal]
pub enum OpeningStageView {
    Load,
    Remember(DraftView),
    Greet(RuntimeView),
    Record { runtime: RuntimeView, outbox: Seq<PayloadView> },
    Refused(AgentErrorView),
    Ready(RuntimeView),
}

impl DeepView for OpeningStage {
    type V = OpeningStageView;

    open spec fn deep_view(&self) -> OpeningStageView {
        match self {
            OpeningStage::Load => OpeningStageView::Load,
            OpeningStage::Remember(draft) => OpeningStageView::Remember(draft.deep_view()),
            OpeningStage::Greet(runtime) => OpeningStageView::Greet(runtime.deep_view()),
            OpeningStage::Record { runtime, outbox } => OpeningStageView::Record {
                runtime: runtime.deep_view(),
                outbox: outbox.deep_view(),
            },
            OpeningStage::Refused(error) => OpeningStageView::Refused(error.deep_view()),
            OpeningStage::Ready(runtime) => OpeningStageView::Ready(runtime.deep_view()),
        }
    }
}

/// A session being opened.
#[derive(Debug)]
pub struct SessionOpening {
    /// Id of the session.
    pub session_id: String,
    /// Id of the reservation of the slot.
    pub reservation_id: String,
    /// The hooks being called.
    pub dispatch: Option<HookDispatch>,
    /// The event being stored.
    pub saving: Option<LedgerEvent>,
    /// How far the opening has come.
    pub stage: OpeningStage,
}

/// Model of [`SessionOpening`].
#[verifier::ext_equal]
pub struct OpeningView {
    pub session_id: Seq<char>,
    pub reservation_id: Seq<char>,
    pub dispatch: Option<DispatchView>,
    pub saving: Option<LedgerEventView>,
    pub stage: OpeningStageView,
}

impl DeepView for SessionOpening {
    type V = OpeningView;

    open spec fn deep_view(&self) -> OpeningView {
        OpeningView {
            session_id: self.session_id@,
            reservation_id: self.reservation_id@,
            dispatch: self.dispatch.deep_view(),
            saving: self.saving.deep_view(),
            stage: self.stage.deep_view(),
        }
    }
}

/// What the opening or closing of a session needs from the host.
#[derive(Debug)]
pub enum SessionAction {
    /// Load the stored events of a session, and report them.
    Load(String),
    /// List the latest memories of a namespace, and report them.
    ListRecent {
        /// The namespace.
        namespace: String,
        /// Most memories to return.
        limit: usize,
    },
    /// Call a hook handler, and report its answer.
    CallHook(HookCall),
    /// Store a ledger event, and report the outcome.
    Save(LedgerEvent),
    /// Carry out a memory extraction, and report its result.
    Extract(Extraction),
    /// Nothing; ask again.
    Proceed,
    /// Nothing more.
    Finish,
}

/// Model of [`SessionAction`].
#[verifier::ext_equal]
pub enum SessionActionView {
    Load(Seq<char>),
    ListRecent { namespace: Seq<char>, limit: usize },
    CallHook(HookCallView),
    Save(LedgerEventView),
    Extract(ExtractionView),
    Proceed,
    Finish,
}

impl DeepView for SessionAction {
    type V = SessionActionView;

    open spec fn deep_view(&self) -> SessionActionView {
        match self {
            SessionAction::Load(id) => SessionActionView::Load(id@),
            SessionAction::ListRecent { namespace, limit } => SessionActionView::ListRecent {
                namespace: namespace@,
                limit: *limit,
            },
            SessionAction::CallHook(call) => SessionActionView::CallHook(call.deep_view()),
            SessionAction::Save(event) => SessionActionView::Save(event.deep_view()),
            SessionAction::Extract(run) => SessionActionView::Extract(run.deep_view()),
            SessionAction::Proceed => SessionActionView::Proceed,
            SessionAction::Finish => SessionActionView::Finish,
        }
    }
}

// ---------------------------------------------------------------------------
// Opening: rules
// ---------------------------------------------------------------------------
/// A new session before anything is stored.
pub open spec fn new_runtime(
    session_id: Seq<char>,
    model_id: Seq<char>,
    system_prompt_override: Option<Seq<char>>,
    memory_namespace: Seq<char>,
    context_window: usize,
    compact_limit: usize,
    memories: Seq<MemoryView>,
) -> RuntimeView {
    RuntimeView {
        session_id,
        model_id,
        system_prompt_override,
        memory_namespace,
        ledger: Seq::empty(),
        context: ContextView {
            latest: None,
            visible: Seq::empty(),
            context_window,
            compact_limit,
        },
        event_sequence: 1,
        turn_index: 0,
        last_memory_checkpoint_seq: 0,
        bootstrap_memories: memories,
    }
}

/// A draft with its memories: a new session asks hooks next, a stored one is
/// ready.
pub open spec fn with_memories(
    session_id: Seq<char>,
    draft: DraftView,
    memories: Seq<MemoryView>,
) -> OpeningStageView {
    match draft {
        DraftView::New {
            model_id,
            system_prompt_override,
            memory_namespace,
            context_window,
            compact_limit,
        } => OpeningStageView::Greet(
            new_runtime(
                session_id,
                model_id,
                system_prompt_override,
                memory_namespace,
                context_window,
                compact_limit,
                memories,
            ),
        ),
        DraftView::Restored { state, ledger, context_window, compact_limit } =>
        match restored_runtime(session_id, state, ledger, context_window, compact_limit, memories) {
            Ok(runtime) => OpeningStageView::Ready(runtime),
            Err(error) => OpeningStageView::Refused(error),
        },
    }
}

/// A draft whose model is known: its memories are listed where any are stored.
pub open spec fn drafted(
    has_memory_storage: bool,
    session_id: Seq<char>,
    draft: DraftView,
) -> OpeningStageView {
    if has_memory_storage {
        OpeningStageView::Remember(draft)
    } else {
        with_memories(session_id, draft, Seq::empty())
    }
}

/// The namespace of a draft.
pub open spec fn draft_namespace(draft: DraftView) -> Seq<char> {
    match draft {
        DraftView::New { memory_namespace, .. } => memory_namespace,
        DraftView::Restored { state, .. } => state.memory_namespace,
    }
}

/// The first stage of a new session.
pub open spec fn new_stage(
    kernel: AgentKernel,
    session_id: Seq<char>,
    config: SessionConfigView,
) -> OpeningStageView {
    let model_id = match config.model_id {
        Some(id) => id,
        None => kernel.config.default_model@,
    };
    match kernel.models.model(model_id) {
        None => OpeningStageView::Refused(AgentErrorView::ModelNotSupported(model_id)),
        Some(model) => drafted(
            kernel.has_memory_storage,
            session_id,
            DraftView::New {
                model_id,
                system_prompt_override: config.system_prompt_override,
                memory_namespace: kernel.config.memory_namespace@,
                context_window: model.info.context_window,
                compact_limit: model.compact_limit,
            },
        ),
    }
}

/// Beginning to open a new session.
pub open spec fn creation_begun(
    kernel: AgentKernel,
    c: ControlView,
    config: SessionConfigView,
    session_id: Seq<char>,
    reservation_id: Seq<char>,
) -> (ControlView, std::result::Result<OpeningView, AgentErrorView>) {
    let (after, result) = claimed(c, session_id, reservation_id);
    match result {
        Err(error) => (after, Err(error)),
        Ok(_) => (
            after,
            Ok(
                OpeningView {
                    session_id,
                    reservation_id,
                    dispatch: None,
                    saving: None,
                    stage: new_stage(kernel, session_id, config),
                },
            ),
        ),
    }
}

/// Beginning to open a stored session.
pub open spec fn resumption_begun(
    kernel: AgentKernel,
    c: ControlView,
    session_id: Seq<char>,
    reservation_id: Seq<char>,
) -> (ControlView, std::result::Result<OpeningView, AgentErrorView>) {
    if !(c.lifecycle is Running) {
        (c, Err(AgentErrorView::AgentShutdown))
    } else if !kernel.has_session_storage {
        (c, Err(no_session_storage()))
    } else {
        let (after, result) = claimed(c, session_id, reservation_id);
        match result {
            Err(error) => (after, Err(error)),
            Ok(_) => (
                after,
                Ok(
                    OpeningView {
                        session_id,
                        reservation_id,
                        dispatch: None,
                        saving: None,
                        stage: OpeningStageView::Load,
                    },
                ),
            ),
        }
    }
}

/// After the stored events have been loaded.
pub open spec fn opening_loaded(
    kernel: AgentKernel,
    session_id: Seq<char>,
    loaded: std::result::Result<Option<Seq<LedgerEventView>>, Seq<Seq<char>>>,
) -> OpeningStageView {
    match loaded {
        Err(source) => OpeningStageView::Refused(
            AgentErrorView::StorageError(
                seq!["failed to load session '"@ + session_id + "'"@] + source,
            ),
        ),
        Ok(None) => OpeningStageView::Refused(AgentErrorView::SessionNotFound(session_id)),
        Ok(Some(events)) => match restored_state(
            events,
            kernel.config.default_model@,
            kernel.config.memory_namespace@,
        ) {
            Err(error) => OpeningStageView::Refused(error),
            Ok(state) => match kernel.models.model(state.model_id) {
                None => OpeningStageView::Refused(
                    AgentErrorView::ModelNotSupported(state.model_id),
                ),
                Some(model) => drafted(
                    kernel.has_memory_storage,
                    session_id,
                    DraftView::Restored {
                        state,
                        ledger: events,
                        context_window: model.info.context_window,
                        compact_limit: model.compact_limit,
                    },
                ),
            },
        },
    }
}

/// After the memories have been listed.
pub open spec fn opening_remembered(
    session_id: Seq<char>,
    draft: DraftView,
    listed: std::result::Result<Seq<MemoryView>, Seq<Seq<char>>>,
) -> OpeningStageView {
    match listed {
        Ok(memories) => with_memories(session_id, draft, memories),
        Err(source) => OpeningStageView::Refused(
            memory_storage_error(
                "failed to load bootstrap memories for namespace '"@,
                draft_namespace(draft),
                source,
            ),
        ),
    }
}

/// The two events that bind a new session.
pub open spec fn binding_of(rt: RuntimeView) -> Seq<PayloadView> {
    seq![
        PayloadView::Metadata {
            key: MetadataKey::SessionConfig,
            value: MetadataValueView::SessionConfig(
                SessionConfigView {
                    model_id: Some(rt.model_id),
                    system_prompt_override: rt.system_prompt_override,
                },
            ),
        },
        PayloadView::Metadata {
            key: MetadataKey::MemoryNamespace,
            value: MetadataValueView::MemoryNamespace(rt.memory_namespace),
        },
    ]
}

/// After the hooks of a session start have answered.
pub open spec fn opening_greeted(
    rt: RuntimeView,
    answer: std::result::Result<(), AgentErrorView>,
) -> OpeningStageView {
    match answer {
        Ok(_) => OpeningStageView::Record { runtime: rt, outbox: binding_of(rt) },
        Err(error) => OpeningStageView::Refused(error),
    }
}

/// What the opening of a session does next.
pub open spec fn opening_next(kernel: AgentKernel, o: OpeningView, now: Timestamp) -> (
    OpeningView,
    SessionActionView,
) {
    match o.saving {
        Some(event) => (o, SessionActionView::Save(event)),
        None => match o.dispatch {
            Some(dispatch) => (
                o,
                SessionActionView::CallHook(dispatch.calls[dispatch.position]),
            ),
            None => match o.stage {
                OpeningStageView::Load => (o, SessionActionView::Load(o.session_id)),
                OpeningStageView::Remember(draft) => (
                    o,
                    SessionActionView::ListRecent {
                        namespace: draft_namespace(draft),
                        limit: kernel.config.memory_max_items,
                    },
                ),
                OpeningStageView::Greet(rt) => {
                    let calls = calls_of(
                        kernel.hooks.registered(HookEvent::SessionStart),
                        HookEvent::SessionStart,
                        o.session_id,
                        None,
                        HookDataView::SessionStart { model_id: rt.model_id },
                        now,
                    );
                    if calls.len() == 0 {
                        (
                            OpeningView { stage: opening_greeted(rt, Ok(())), ..o },
                            SessionActionView::Proceed,
                        )
                    } else {
                        (
                            OpeningView {
                                dispatch: Some(
                                    DispatchView {
                                        event: HookEvent::SessionStart,
                                        calls,
                                        position: 0,
                                        patches: Seq::empty(),
                                    },
                                ),
                                ..o
                            },
                            SessionActionView::CallHook(calls[0]),
                        )
                    }
                },
                OpeningStageView::Record { runtime, outbox } => if outbox.len() == 0 {
                    (
                        OpeningView { stage: OpeningStageView::Ready(runtime), ..o },
                        SessionActionView::Proceed,
                    )
                } else {
                    let event = LedgerEventView {
                        seq: next_number(runtime.ledger),
                        timestamp: now,
                        payload: outbox[0],
                    };
                    (
                        OpeningView {
                            saving: Some(event),
                            stage: OpeningStageView::Record {
                                runtime,
                                outbox: outbox.drop_first(),
                            },
                            ..o
                        },
                        SessionActionView::Save(event),
                    )
                },
                OpeningStageView::Refused(_) => (o, SessionActionView::Finish),
                OpeningStageView::Ready(_) => (o, SessionActionView::Finish),
            },
        },
    }
}

/// After the answer of one hook handler.
pub open spec fn opening_hook_answered(o: OpeningView, result: HookResultView) -> OpeningView {
    let dispatch = o.dispatch->0;
    let rt = o.stage->Greet_0;
    match absorbed(
        dispatch.event,
        dispatch.calls[dispatch.position].plugin_id,
        dispatch.patches,
        result,
    ) {
        Ok(patches) => if dispatch.position + 1 < dispatch.calls.len() {
            OpeningView {
                dispatch: Some(
                    DispatchView { position: dispatch.position + 1, patches, ..dispatch },
                ),
                ..o
            }
        } else {
            OpeningView { dispatch: None, stage: opening_greeted(rt, Ok(())), ..o }
        },
        Err(error) => OpeningView {
            dispatch: None,
            stage: opening_greeted(rt, Err(error)),
            ..o
        },
    }
}

/// After the attempt to store an event.
pub open spec fn opening_saved(
    o: OpeningView,
    saved: std::result::Result<(), Seq<Seq<char>>>,
) -> OpeningView {
    let (runtime, result) = persisted(o.stage->Record_runtime, o.saving->0, saved);
    OpeningView {
        saving: None,
        stage: match result {
            Ok(_) => OpeningStageView::Record { runtime, outbox: o.stage->Record_outbox },
            Err(error) => OpeningStageView::Refused(error),
        },
        ..o
    }
}

/// Whether the session of an opening, as far as there is one, has the id that
/// it is opened under.
pub open spec fn carries_id(o: OpeningView) -> bool {
    match o.stage {
        OpeningStageView::Greet(rt) => rt.session_id == o.session_id,
        OpeningStageView::Record { runtime, .. } => runtime.session_id == o.session_id,
        OpeningStageView::Ready(rt) => rt.session_id == o.session_id,
        _ => true,
    }
}

/// Whether the parts of an opening fit together.
pub open spec fn opening_sound(o: OpeningView) -> bool {
    &&& o.dispatch matches Some(dispatch) ==> {
        &&& 0 <= dispatch.position < dispatch.calls.len()
        &&& o.stage is Greet
    }
    &&& o.saving is Some ==> o.stage is Record
    &&& carries_id(o)
}

/// The end of an opening: the slot is given back, or becomes the session's.
pub open spec fn opening_finished(o: OpeningView, c: ControlView) -> (
    ControlView,
    std::result::Result<RuntimeView, AgentErrorView>,
) {
    match o.stage {
        OpeningStageView::Ready(runtime) => {
            let (after, result) = activated(c, o.reservation_id);
            match result {
                Ok(_) => (after, Ok(runtime)),
                Err(error) => (after, Err(error)),
            }
        },
        OpeningStageView::Refused(error) => (rolled_back(c, o.reservation_id), Err(error)),
        _ => (c, Err(AgentErrorView::SessionBusy)),
    }
}

fn settle_memories(session_id: &str, draft: SessionDraft, memories: Vec<Memory>) -> (r: OpeningStage)
    ensures
        r.deep_view() == with_memories(session_id@, draft.deep_view(), memories.deep_view()),
{
    match draft {
        SessionDraft::New {
            model_id,
            system_prompt_override,
            memory_namespace,
            context_window,
            compact_limit,
        } => OpeningStage::Greet(
            SessionRuntime::new(
                session_id.to_owned(),
                model_id,
                system_prompt_override,
                memory_namespace,
                context_window,
                compact_limit,
                memories,
            ),
        ),
        SessionDraft::Restored { state, ledger, context_window, compact_limit } =>
        match SessionRuntime::from_ledger(
            session_id.to_owned(),
            state,
            ledger,
            context_window,
            compact_limit,
            memories,
        ) {
            Ok(runtime) => OpeningStage::Ready(runtime),
            Err(error) => OpeningStage::Refused(error),
        },
    }
}

fn settle_draft(kernel: &AgentKernel, session_id: &str, draft: SessionDraft) -> (r: OpeningStage)
    ensures
        r.deep_view() == drafted(kernel.has_memory_storage, session_id@, draft.deep_view()),
{
    if kernel.has_memory_storage {
        OpeningStage::Remember(draft)
    } else {
        let memories: Vec<Memory> = Vec::new();
        proof {
            assert(memories.deep_view() =~= Seq::<MemoryView>::empty());
        }
        settle_memories(session_id, draft, memories)
    }
}

fn begin_new(kernel: &AgentKernel, session_id: &str, config: SessionConfig) -> (r: OpeningStage)
    ensures
        r.deep_view() == new_stage(*kernel, session_id@, config.deep_view()),
{
    let SessionConfig { model_id, system_prompt_override } = config;
    let model_id = match model_id {
        Some(id) => id,
        None => kernel.config.default_model.clone(),
    };
    match kernel.models.resolve_model(model_id.as_str()) {
        Err(error) => OpeningStage::Refused(error),
        Ok(model) => {
            let context_window: usize = model.info.context_window;
            let compact_limit: usize = model.compact_limit;
            settle_draft(
                kernel,
                session_id,
                SessionDraft::New {
                    model_id,
                    system_prompt_override,
                    memory_namespace: kernel.config.memory_namespace.clone(),
                    context_window,
                    compact_limit,
                },
            )
        },
    }
}

fn binding_payloads(runtime: &SessionRuntime) -> (r: Vec<LedgerEventPayload>)
    ensures
        r.deep_view() == binding_of(runtime.deep_view()),
{
    let mut out: Vec<LedgerEventPayload> = Vec::new();
    out.push(
        LedgerEventPayload::Metadata {
            key: MetadataKey::SessionConfig,
            value: MetadataValue::SessionConfig(
                SessionConfig {
                    model_id: Some(runtime.model_id.clone()),
                    system_prompt_override: runtime.system_prompt_override.clone(),
                },
            ),
        },
    );
    out.push(
        LedgerEventPayload::Metadata {
            key: MetadataKey::MemoryNamespace,
            value: MetadataValue::MemoryNamespace(runtime.memory_namespace.clone()),
        },
    );
    proof {
        assert(out.deep_view() =~= binding_of(runtime.deep_view()));
    }
    out
}

impl SessionOpening {
    /// Begins to open a new session under the given ids.
    pub fn create_as(
        kernel: &AgentKernel,
        control: &mut AgentControl,
        config: SessionConfig,
        session_id: String,
        reservation_id: String,
    ) -> (r: Result<Self>)
        ensures
            (final(control).deep_view(), outcome(r)) == creation_begun(
                *kernel,
                old(control).deep_view(),
                config.deep_view(),
                session_id@,
                reservation_id@,
            ),
            r matches Ok(opening) ==> opening_sound(opening.deep_view()),
    {
        match control.claim_as(session_id.as_str(), reservation_id.as_str()) {
            Ok(_) => {},
            Err(error) => {
                return Err(error);
            },
        }
        let stage = begin_new(kernel, session_id.as_str(), config);
        Ok(SessionOpening { session_id, reservation_id, dispatch: None, saving: None, stage })
    }

    /// Begins to open a new session.
    pub fn create(kernel: &AgentKernel, control: &mut AgentControl, config: SessionConfig) -> (r:
        Result<Self>)
        ensures
            exists|session_id: Seq<char>, reservation_id: Seq<char>|
                id_shaped(session_id) && id_shaped(reservation_id) && (
                    final(control).deep_view(),
                    outcome(r),
                ) == #[trigger] creation_begun(
                    *kernel,
                    old(control).deep_view(),
                    config.deep_view(),
                    session_id,
                    reservation_id,
                ),
            r matches Ok(opening) ==> opening_sound(opening.deep_view()),
    {
        let session_id = fresh_id();
        let reservation_id = fresh_id();
        Self::create_as(kernel, control, config, session_id, reservation_id)
    }

    /// Begins to open a stored session under the given reservation.
    pub fn resume_as(
        kernel: &AgentKernel,
        control: &mut AgentControl,
        session_id: &str,
        reservation_id: String,
    ) -> (r: Result<Self>)
        ensures
            (final(control).deep_view(), outcome(r)) == resumption_begun(
                *kernel,
                old(control).deep_view(),
                session_id@,
                reservation_id@,
            ),
            r matches Ok(opening) ==> opening_sound(opening.deep_view()),
    {
        match control.ensure_running() {
            Ok(_) => {},
            Err(error) => {
                return Err(error);
            },
        }
        match kernel.require_session_storage() {
            Ok(_) => {},
            Err(error) => {
                return Err(error);
            },
        }
        match control.claim_as(session_id, reservation_id.as_str()) {
            Ok(_) => Ok(
                SessionOpening {
                    session_id: session_id.to_owned(),
                    reservation_id,
                    dispatch: None,
                    saving: None,
                    stage: OpeningStage::Load,
                },
            ),
            Err(error) => Err(error),
        }
    }

    /// Begins to open a stored session.
    pub fn resume(kernel: &AgentKernel, control: &mut AgentControl, session_id: &str) -> (r: Result<
        Self,
    >)
        ensures
            exists|reservation_id: Seq<char>|
                id_shaped(reservation_id) && (final(control).deep_view(), outcome(r))
                    == #[trigger] resumption_begun(
                    *kernel,
                    old(control).deep_view(),
                    session_id@,
                    reservation_id,
                ),
            r matches Ok(opening) ==> opening_sound(opening.deep_view()),
    {
        let reservation_id = fresh_id();
        Self::resume_as(kernel, control, session_id, reservation_id)
    }

    /// What the opening does next, at the given time.
    pub fn next_at(self, kernel: &AgentKernel, now: Timestamp) -> (r: (Self, SessionAction))
        requires
            opening_sound(self.deep_view()),
        ensures
            (r.0.deep_view(), r.1.deep_view()) == opening_next(*kernel, self.deep_view(), now),
            opening_sound(r.0.deep_view()),
    {
        let mut opening = self;
        match &opening.saving {
            Some(event) => {
                let action = SessionAction::Save(event.clone());
                return (opening, action);
            },
            None => {},
        }
        match &opening.dispatch {
            Some(dispatch) => match dispatch.next_call() {
                Some(call) => {
                    let action = SessionAction::CallHook(call.clone());
                    return (opening, action);
                },
                None => {},
            },
            None => {},
        }
        let mut stage = OpeningStage::Load;
        std::mem::swap(&mut stage, &mut opening.stage);
        match stage {
            OpeningStage::Load => {
                let action = SessionAction::Load(opening.session_id.clone());
                (opening, action)
            },
            OpeningStage::Remember(draft) => {
                let namespace = match &draft {
                    SessionDraft::New { memory_namespace, .. } => memory_namespace.clone(),
                    SessionDraft::Restored { state, .. } => state.memory_namespace.clone(),
                };
                opening.stage = OpeningStage::Remember(draft);
                (
                    opening,
                    SessionAction::ListRecent { namespace, limit: kernel.config.memory_max_items },
                )
            },
            OpeningStage::Greet(runtime) => {
                let dispatch = kernel.hooks.dispatch_at(
                    HookEvent::SessionStart,
                    opening.session_id.as_str(),
                    None,
                    &HookData::SessionStart { model_id: runtime.model_id.clone() },
                    now,
                );
                match dispatch.next_call() {
                    Some(call) => {
                        let action = SessionAction::CallHook(call.clone());
                        opening.stage = OpeningStage::Greet(runtime);
                        opening.dispatch = Some(dispatch);
                        (opening, action)
                    },
                    None => {
                        let outbox = binding_payloads(&runtime);
                        opening.stage = OpeningStage::Record { runtime, outbox };
                        (opening, SessionAction::Proceed)
                    },
                }
            },
            OpeningStage::Record { runtime, outbox } => {
                if outbox.len() == 0 {
                    opening.stage = OpeningStage::Ready(runtime);
                    (opening, SessionAction::Proceed)
                } else {
                    let ghost queue = outbox.deep_view();
                    proof {
                        assert(queue[0] == outbox[0].deep_view());
                    }
                    let mut outbox = outbox;
                    let payload = outbox.remove(0);
                    proof {
                        assert(outbox.deep_view() =~= queue.drop_first());
                    }
                    let event = runtime.allocate_event_at(payload, now);
                    let action = SessionAction::Save(event.clone());
                    opening.saving = Some(event);
                    opening.stage = OpeningStage::Record { runtime, outbox };
                    (opening, action)
                }
            },
            OpeningStage::Refused(error) => {
                opening.stage = OpeningStage::Refused(error);
                (opening, SessionAction::Finish)
            },
            OpeningStage::Ready(runtime) => {
                opening.stage = OpeningStage::Ready(runtime);
                (opening, SessionAction::Finish)
            },
        }
    }

    /// What the opening does next, now.
    pub fn next(self, kernel: &AgentKernel) -> (r: (Self, SessionAction))
        requires
            opening_sound(self.deep_view()),
        ensures
            exists|now: Timestamp|
                (r.0.deep_view(), r.1.deep_view()) == #[trigger] opening_next(
                    *kernel,
                    self.deep_view(),
                    now,
                ),
            opening_sound(r.0.deep_view()),
    {
        let now = utc_now();
        self.next_at(kernel, now)
    }

    /// Takes the stored events.
    pub fn loaded(
        self,
        kernel: &AgentKernel,
        loaded: std::result::Result<Option<Vec<LedgerEvent>>, ErrorSource>,
    ) -> (r: Self)
        requires
            opening_sound(self.deep_view()),
            self.deep_view().stage is Load,
        ensures
            r.deep_view() == (OpeningView {
                stage: opening_loaded(
                    *kernel,
                    self.deep_view().session_id,
                    storage_result(loaded),
                ),
                ..self.deep_view()
            }),
            opening_sound(r.deep_view()),
    {
        let session_id = self.session_id.as_str();
        let stage = match loaded {
            Err(source) => {
                let message = "failed to load session '".to_owned().concat(session_id).concat("'");
                OpeningStage::Refused(AgentError::StorageError(source.context(message.as_str())))
            },
            Ok(None) => OpeningStage::Refused(AgentError::SessionNotFound(session_id.to_owned())),
            Ok(Some(events)) => {
                let ledger = SessionLedger::from_events(events);
                match restore_session_state(
                    &ledger,
                    kernel.config.default_model.as_str(),
                    kernel.config.memory_namespace.as_str(),
                ) {
                    Err(error) => OpeningStage::Refused(error),
                    Ok(state) => match kernel.models.resolve_model(state.model_id.as_str()) {
                        Err(error) => OpeningStage::Refused(error),
                        Ok(model) => settle_draft(
                            kernel,
                            session_id,
                            SessionDraft::Restored {
                                state,
                                ledger,
                                context_window: model.info.context_window,
                                compact_limit: model.compact_limit,
                            },
                        ),
                    },
                }
            },
        };
        SessionOpening { stage, ..self }
    }

    /// Takes the listed memories.
    pub fn remembered(self, listed: std::result::Result<Vec<Memory>, ErrorSource>) -> (r: Self)
        requires
            opening_sound(self.deep_view()),
            self.deep_view().stage is Remember,
        ensures
            r.deep_view() == (OpeningView {
                stage: opening_remembered(
                    self.deep_view().session_id,
                    self.deep_view().stage->Remember_0,
                    storage_result(listed),
                ),
                ..self.deep_view()
            }),
            opening_sound(r.deep_view()),
    {
        let mut opening = self;
        let mut stage = OpeningStage::Load;
        std::mem::swap(&mut stage, &mut opening.stage);
        match stage {
            OpeningStage::Remember(draft) => {
                opening.stage = match listed {
                    Ok(memories) => settle_memories(opening.session_id.as_str(), draft, memories),
                    Err(source) => {
                        let namespace = match &draft {
                            SessionDraft::New { memory_namespace, .. } => memory_namespace.as_str(),
                            SessionDraft::Restored { state, .. } => state.memory_namespace.as_str(),
                        };
                        OpeningStage::Refused(
                            memory_storage_failure(
                                "failed to load bootstrap memories for namespace '",
                                namespace,
                                source,
                            ),
                        )
                    },
                };
                opening
            },
            stage => {
                opening.stage = stage;
                opening
            },
        }
    }

    /// Takes the answer of a hook handler.
    pub fn hook_answered(self, result: HookResult) -> (r: Self)
        requires
            opening_sound(self.deep_view()),
            self.deep_view().dispatch is Some,
        ensures
            r.deep_view() == opening_hook_answered(self.deep_view(), result.deep_view()),
            opening_sound(r.deep_view()),
    {
        let mut opening = self;
        let mut stage = OpeningStage::Load;
        std::mem::swap(&mut stage, &mut opening.stage);
        let mut pending = None;
        std::mem::swap(&mut pending, &mut opening.dispatch);
        match (stage, pending) {
            (OpeningStage::Greet(runtime), Some(dispatch)) => {
                let mut dispatch = dispatch;
                match dispatch.accept(result) {
                    Ok(_) => {
                        if dispatch.next_call().is_some() {
                            opening.dispatch = Some(dispatch);
                            opening.stage = OpeningStage::Greet(runtime);
                        } else {
                            let outbox = binding_payloads(&runtime);
                            opening.stage = OpeningStage::Record { runtime, outbox };
                        }
                    },
                    Err(error) => {
                        opening.stage = OpeningStage::Refused(error);
                    },
                }
                opening
            },
            (stage, dispatch) => {
                opening.stage = stage;
                opening.dispatch = dispatch;
                opening
            },
        }
    }

    /// Takes the outcome of storing an event.
    pub fn saved(self, saved: std::result::Result<(), ErrorSource>) -> (r: Self)
        requires
            opening_sound(self.deep_view()),
            self.deep_view().saving is Some,
        ensures
            r.deep_view() == opening_saved(self.deep_view(), storage_result(saved)),
            opening_sound(r.deep_view()),
    {
        let mut opening = self;
        let mut stage = OpeningStage::Load;
        std::mem::swap(&mut stage, &mut opening.stage);
        let mut saving = None;
        std::mem::swap(&mut saving, &mut opening.saving);
        match (stage, saving) {
            (OpeningStage::Record { runtime, outbox }, Some(event)) => {
                let mut runtime = runtime;
                opening.stage = match runtime.persist_and_project(event, saved) {
                    Ok(_) => OpeningStage::Record { runtime, outbox },
                    Err(error) => OpeningStage::Refused(error),
                };
                opening
            },
            (stage, saving) => {
                opening.stage = stage;
                opening.saving = saving;
                opening
            },
        }
    }

    /// Ends the opening: the slot is given back, or becomes the session's.
    pub fn finish(self, control: &mut AgentControl) -> (r: Result<(SessionRuntime, SessionHandle)>)
        requires
            self.deep_view().stage is Ready || self.deep_view().stage is Refused,
        ensures
            ({
                let (after, opened) = opening_finished(self.deep_view(), old(control).deep_view());
                &&& final(control).deep_view() == after
                &&& match opened {
                    Ok(rt) => r matches Ok(session) && session.0.deep_view() == rt
                        && session.1.deep_view() == handle_of(rt),
                    Err(problem) => r matches Err(error) && error.deep_view() == problem,
                }
            }),
    {
        match self.stage {
            OpeningStage::Ready(runtime) => match control.activate_session(
                self.reservation_id.as_str(),
            ) {
                Ok(_) => {
                    let handle = SessionHandle::new(&runtime);
                    Ok((runtime, handle))
                },
                Err(error) => Err(error),
            },
            OpeningStage::Refused(error) => {
                control.rollback_reservation(self.reservation_id.as_str());
                Err(error)
            },
            _ => Err(AgentError::SessionBusy),
        }
    }
}

// ---------------------------------------------------------------------------
// Laws
// ---------------------------------------------------------------------------
/// A session that could not be opened leaves the agent as it was before.
pub proof fn law_refused_opening_frees_slot(c: ControlView, o: OpeningView)
    requires
        claimed(c, o.session_id, o.reservation_id).1 is Ok,
        o.stage is Refused,
    ensures
        opening_finished(o, claimed(c, o.session_id, o.reservation_id).0) == (
            c,
            Err::<RuntimeView, AgentErrorView>(o.stage->Refused_0),
        ),
{
}

/// A session that was opened holds the slot, idle.
pub proof fn law_opened_session_holds_slot(c: ControlView, o: OpeningView)
    requires
        claimed(c, o.session_id, o.reservation_id).1 is Ok,
        o.stage is Ready,
    ensures
        ({
            let (after, opened) = opening_finished(
                o,
                claimed(c, o.session_id, o.reservation_id).0,
            );
            &&& opened == Ok::<RuntimeView, AgentErrorView>(o.stage->Ready_0)
            &&& after == (ControlView {
                slot: SlotView::Active { session_id: o.session_id, turn_state: TurnState::Idle },
                ..c
            })
        }),
{
}

/// The opening of a session, new or stored, starts out under the id that was
/// asked for.
pub proof fn law_opening_starts_under_its_id(
    kernel: AgentKernel,
    c: ControlView,
    config: SessionConfigView,
    session_id: Seq<char>,
    reservation_id: Seq<char>,
)
    ensures
        creation_begun(kernel, c, config, session_id, reservation_id).1 matches Ok(o) ==> {
            &&& o.session_id == session_id
            &&& opening_sound(o)
        },
        resumption_begun(kernel, c, session_id, reservation_id).1 matches Ok(o) ==> {
            &&& o.session_id == session_id
            &&& opening_sound(o)
        },
{
}

/// Every step of an opening keeps to the id that it started under, and the
/// session that comes of it, new or stored, has that id.
pub proof fn law_opened_session_has_its_id(
    kernel: AgentKernel,
    c: ControlView,
    o: OpeningView,
    now: Timestamp,
    loaded: std::result::Result<Option<Seq<LedgerEventView>>, Seq<Seq<char>>>,
    listed: std::result::Result<Seq<MemoryView>, Seq<Seq<char>>>,
    result: HookResultView,
    saved: std::result::Result<(), Seq<Seq<char>>>,
)
    requires
        opening_sound(o),
    ensures
        ({
            let next = opening_next(kernel, o, now).0;
            next.session_id == o.session_id && carries_id(next)
        }),
        o.stage is Load ==> carries_id(
            OpeningView { stage: opening_loaded(kernel, o.session_id, loaded), ..o },
        ),
        o.stage matches OpeningStageView::Remember(draft) ==> carries_id(
            OpeningView { stage: opening_remembered(o.session_id, draft, listed), ..o },
        ),
        o.dispatch is Some ==> {
            let after = opening_hook_answered(o, result);
            after.session_id == o.session_id && carries_id(after)
        },
        o.saving is Some ==> {
            let after = opening_saved(o, saved);
            after.session_id == o.session_id && carries_id(after)
        },
        opening_finished(o, c).1 matches Ok(rt) ==> rt.session_id == o.session_id,
{
}

/// The binding of a session.
#[verifier::ext_equal]
pub struct BindingView {
    pub session_id: Seq<char>,
    pub model_id: Seq<char>,
    pub system_prompt_override: Option<Seq<char>>,
    pub memory_namespace: Seq<char>,
}

/// The binding that a session has.
pub open spec fn bound_to(rt: RuntimeView) -> BindingView {
    BindingView {
        session_id: rt.session_id,
        model_id: rt.model_id,
        system_prompt_override: rt.system_prompt_override,
        memory_namespace: rt.memory_namespace,
    }
}

/// The binding that a new session is to have.
pub open spec fn wanted_binding(
    kernel: AgentKernel,
    config: SessionConfigView,
    session_id: Seq<char>,
) -> BindingView {
    BindingView {
        session_id,
        model_id: match config.model_id {
            Some(id) => id,
            None => kernel.config.default_model@,
        },
        system_prompt_override: config.system_prompt_override,
        memory_namespace: kernel.config.memory_namespace@,
    }
}

/// The payloads of some events.
pub open spec fn payloads(events: Seq<LedgerEventView>) -> Seq<PayloadView> {
    events.map_values(|event: LedgerEventView| event.payload)
}

/// Whether the opening of a new session keeps to its binding: what is stored,
/// being stored and still to be stored is the binding.
pub open spec fn keeps_to(o: OpeningView, binding: BindingView) -> bool {
    match o.stage {
        OpeningStageView::Load => false,
        OpeningStageView::Remember(draft) => draft matches DraftView::New {
            model_id,
            system_prompt_override,
            memory_namespace,
            ..
        } && binding == (BindingView {
            session_id: o.session_id,
            model_id,
            system_prompt_override,
            memory_namespace,
        }),
        OpeningStageView::Greet(rt) => bound_to(rt) == binding && rt.ledger.len() == 0,
        OpeningStageView::Record { runtime, outbox } => {
            &&& bound_to(runtime) == binding
            &&& binding_of(runtime) =~= payloads(runtime.ledger) + (match o.saving {
                Some(event) => seq![event.payload],
                None => Seq::empty(),
            }) + outbox
        },
        OpeningStageView::Refused(_) => true,
        OpeningStageView::Ready(rt) => {
            &&& bound_to(rt) == binding
            &&& is_bootstrap(
                rt.ledger,
                binding.model_id,
                binding.system_prompt_override,
                binding.memory_namespace,
            )
        },
    }
}

/// The opening of a new session starts out with its id and the binding of its
/// configuration.
pub proof fn law_new_session_starts_bound(
    kernel: AgentKernel,
    c: ControlView,
    config: SessionConfigView,
    session_id: Seq<char>,
    reservation_id: Seq<char>,
)
    ensures
        creation_begun(kernel, c, config, session_id, reservation_id).1 matches Ok(o) ==> keeps_to(
            o,
            wanted_binding(kernel, config, session_id),
        ),
{
}

/// The opening of a new session keeps to its binding in every step. Once it is
/// ready, its ledger holds the two events that bind it, and nothing else.
pub proof fn law_new_session_stays_bound(
    kernel: AgentKernel,
    o: OpeningView,
    binding: BindingView,
    now: Timestamp,
    result: HookResultView,
    saved: std::result::Result<(), Seq<Seq<char>>>,
    listed: std::result::Result<Seq<MemoryView>, Seq<Seq<char>>>,
)
    requires
        opening_sound(o),
        keeps_to(o, binding),
    ensures
        keeps_to(opening_next(kernel, o, now).0, binding),
        o.dispatch is Some ==> keeps_to(opening_hook_answered(o, result), binding),
        o.saving is Some ==> keeps_to(opening_saved(o, saved), binding),
        o.stage matches OpeningStageView::Remember(draft) ==> keeps_to(
            OpeningView { stage: opening_remembered(o.session_id, draft, listed), ..o },
            binding,
        ),
{
    let next = opening_next(kernel, o, now).0;
    if let OpeningStageView::Record { runtime, outbox } = o.stage {
        if let Some(event) = o.saving {
            let after = runtime.ledger.push(event);
            assert(payloads(after) =~= payloads(runtime.ledger).push(event.payload));
            assert(binding_of(runtime)[payloads(runtime.ledger).len() as int] == event.payload);
        } else if outbox.len() == 0 {
            assert(binding_of(runtime) =~= payloads(runtime.ledger));
            assert(payloads(runtime.ledger)[0] == runtime.ledger[0].payload);
            assert(payloads(runtime.ledger)[1] == runtime.ledger[1].payload);
        } else {
            assert(seq![outbox[0]] + outbox.drop_first() =~= outbox);
        }
    }
}

} // verus!
