//! Closing sessions, as a state machine that the host drives, and the end of an
//! agent.

use crate::api::agent::{provider_of, AgentKernel};
use crate::api::session::memory_model_of;
use crate::application::hook_registry::{absorbed, calls_of, DispatchView, HookDispatch};
use crate::application::memory_extraction::{extraction_start, Extraction, ExtractionView};
use crate::application::plugin_manager::shutdown_order;
use crate::application::session_control::{
    close_aborted, close_begun, close_finished, shutdown_begun, with_turn_state, AgentControl,
    ControlView, LifecycleState, ShutdownStartView, TurnState,
};
use crate::application::session_runtime::{
    messages_in, persisted, storage_result, RuntimeView, SessionRuntime,
};
use crate::application::session_service::{SessionAction, SessionActionView};
use crate::clock::{utc_now, Timestamp};
use crate::domain::error::{outcome, AgentError, AgentErrorView, ErrorSource, Result};
use crate::domain::hook::{HookData, HookDataView, HookEvent, HookResult, HookResultView};
use crate::domain::ledger::{
    next_number, LedgerEvent, LedgerEventPayload, LedgerEventView, MetadataKey, MetadataValue,
    MetadataValueView, PayloadView,
};
use vstd::prelude::*;
use vstd::string::*;

verus! {

/// How far the closing of a session has come.
#[derive(Debug)]
pub enum ClosingStage {
    /// Hooks are asked whether the session may end.
    Farewell,
    /// A last memory extraction is to be done.
    Extract,
    /// A memory checkpoint is to be stored.
    Note(u64),
    /// The session stays open.
    Kept(AgentError),
    /// The session can end.
    Done,
}

/// Model of [`ClosingStage`].
#[verifier::ext_equal]
pub enum ClosingStageView {
    Farewell,
    Extract,
    Note(u64),
    Kept(AgentErrorView),
    Done,
}

impl DeepView for ClosingStage {
    type V = ClosingStageView;

    open spec fn deep_view(&self) -> ClosingStageView {
        match self {
            ClosingStage::Farewell => ClosingStageView::Farewell,
            ClosingStage::Extract => ClosingStageView::Extract,
            ClosingStage::Note(seq) => ClosingStageView::Note(*seq),
            ClosingStage::Kept(error) => ClosingStageView::Kept(error.deep_view()),
            ClosingStage::Done => ClosingStageView::Done,
        }
    }
}

/// A session being closed.
#[derive(Debug)]
pub struct SessionClosing {
    /// The hooks being called.
    pub dispatch: Option<HookDispatch>,
    /// The event being stored.
    pub saving: Option<LedgerEvent>,
    /// How far the closing has come.
    pub stage: ClosingStage,
}

/// Model of [`SessionClosing`].
#[verifier::ext_equal]
pub struct ClosingView {
    pub dispatch: Option<DispatchView>,
    pub saving: Option<LedgerEventView>,
    pub stage: ClosingStageView,
}

impl DeepView for SessionClosing {
    type V = ClosingView;

    open spec fn deep_view(&self) -> ClosingView {
        ClosingView {
            dispatch: self.dispatch.deep_view(),
            saving: self.saving.deep_view(),
            stage: self.stage.deep_view(),
        }
    }
}

/// A closing that has only begun.
pub open spec fn closing_begun() -> ClosingView {
    ClosingView { dispatch: None, saving: None, stage: ClosingStageView::Farewell }
}

/// The last memory extraction of a session.
pub open spec fn closing_run(kernel: AgentKernel, rt: RuntimeView) -> ExtractionView {
    let (last_seq, stage) = extraction_start(rt.ledger, rt.last_memory_checkpoint_seq);
    ExtractionView {
        namespace: rt.memory_namespace,
        source: "session:"@ + rt.session_id,
        model_id: memory_model_of(kernel, rt.model_id),
        last_seq,
        stage,
    }
}

/// Whether memories can be extracted from a session.
pub open spec fn can_extract(kernel: AgentKernel, rt: RuntimeView) -> bool {
    kernel.has_memory_storage && provider_of(
        kernel.models,
        memory_model_of(kernel, rt.model_id),
    ) is Ok
}

/// What the closing of a session does next.
pub open spec fn closing_next(
    kernel: AgentKernel,
    o: ClosingView,
    rt: RuntimeView,
    now: Timestamp,
) -> (ClosingView, SessionActionView) {
    match o.saving {
        Some(event) => (o, SessionActionView::Save(event)),
        None => match o.dispatch {
            Some(dispatch) => (
                o,
                SessionActionView::CallHook(dispatch.calls[dispatch.position]),
            ),
            None => match o.stage {
                ClosingStageView::Farewell => {
                    let calls = calls_of(
                        kernel.hooks.registered(HookEvent::SessionEnd),
                        HookEvent::SessionEnd,
                        rt.session_id,
                        None,
                        HookDataView::SessionEnd { message_count: messages_in(rt.ledger) as usize },
                        now,
                    );
                    if calls.len() == 0 {
                        (
                            ClosingView { stage: ClosingStageView::Extract, ..o },
                            SessionActionView::Proceed,
                        )
                    } else {
                        (
                            ClosingView {
                                dispatch: Some(
                                    DispatchView {
                                        event: HookEvent::SessionEnd,
                                        calls,
                                        position: 0,
                                        patches: Seq::empty(),
                                    },
                                ),
                                ..o
                            },
                            SessionActionView::CallHook(calls[0]),
                        )
                    }
                },
                ClosingStageView::Extract => if can_extract(kernel, rt) {
                    (o, SessionActionView::Extract(closing_run(kernel, rt)))
                } else {
                    (
                        ClosingView { stage: ClosingStageView::Done, ..o },
                        SessionActionView::Proceed,
                    )
                },
                ClosingStageView::Note(seq) => {
                    let event = LedgerEventView {
                        seq: next_number(rt.ledger),
                        timestamp: now,
                        payload: PayloadView::Metadata {
                            key: MetadataKey::MemoryCheckpoint,
                            value: MetadataValueView::MemoryCheckpoint(seq),
                        },
                    };
                    (ClosingView { saving: Some(event), ..o }, SessionActionView::Save(event))
                },
                ClosingStageView::Kept(_) => (o, SessionActionView::Finish),
                ClosingStageView::Done => (o, SessionActionView::Finish),
            },
        },
    }
}

/// After the answer of one hook handler: an abort keeps the session open.
pub open spec fn closing_hook_answered(o: ClosingView, result: HookResultView) -> ClosingView {
    let dispatch = o.dispatch->0;
    match absorbed(
        dispatch.event,
        dispatch.calls[dispatch.position].plugin_id,
        dispatch.patches,
        result,
    ) {
        Ok(patches) => if dispatch.position + 1 < dispatch.calls.len() {
            ClosingView {
                dispatch: Some(
                    DispatchView { position: dispatch.position + 1, patches, ..dispatch },
                ),
                ..o
            }
        } else {
            ClosingView { dispatch: None, stage: ClosingStageView::Extract, ..o }
        },
        Err(error) => ClosingView { dispatch: None, stage: ClosingStageView::Kept(error), ..o },
    }
}

/// After the memory extraction: a failure is passed over.
pub open spec fn closing_extracted(
    o: ClosingView,
    result: std::result::Result<Option<u64>, AgentErrorView>,
) -> ClosingView {
    ClosingView {
        stage: match result {
            Ok(Some(seq)) => ClosingStageView::Note(seq),
            _ => ClosingStageView::Done,
        },
        ..o
    }
}

/// After the attempt to store the memory checkpoint: a failure is passed over.
pub open spec fn closing_saved(o: ClosingView) -> ClosingView {
    ClosingView { saving: None, stage: ClosingStageView::Done, ..o }
}

/// Whether the parts of a closing fit together.
pub open spec fn closing_sound(o: ClosingView) -> bool {
    &&& o.dispatch matches Some(dispatch) ==> {
        &&& 0 <= dispatch.position < dispatch.calls.len()
        &&& o.stage is Farewell
    }
    &&& o.saving is Some ==> o.stage is Note
}

/// The end of a closing: the session goes on, or its slot is freed.
pub open spec fn closing_finished(o: ClosingView, c: ControlView, id: Seq<char>) -> (
    ControlView,
    std::result::Result<(), AgentErrorView>,
) {
    match o.stage {
        ClosingStageView::Kept(error) => (close_aborted(c, id).0, Err(error)),
        _ => close_finished(c, id),
    }
}

impl SessionClosing {
    /// A closing that has only begun.
    pub fn begin() -> (r: Self)
        ensures
            r.deep_view() == closing_begun(),
            closing_sound(r.deep_view()),
    {
        SessionClosing { dispatch: None, saving: None, stage: ClosingStage::Farewell }
    }

    fn plan_extraction(kernel: &AgentKernel, runtime: &SessionRuntime) -> (r: Option<Extraction>)
        ensures
            match r {
                Some(run) => can_extract(*kernel, runtime.deep_view()) && run.deep_view()
                    == closing_run(*kernel, runtime.deep_view()),
                None => !can_extract(*kernel, runtime.deep_view()),
            },
    {
        if !kernel.has_memory_storage {
            return None;
        }
        let model_id = match &kernel.config.memory_model {
            Some(id) => id.clone(),
            None => runtime.model_id.clone(),
        };
        match kernel.models.resolve_provider(model_id.as_str()) {
            Ok(_) => Some(
                Extraction::begin(
                    &runtime.ledger,
                    runtime.last_memory_checkpoint_seq,
                    runtime.memory_namespace.clone(),
                    "session:".to_owned().concat(runtime.session_id.as_str()),
                    model_id,
                ),
            ),
            Err(_) => None,
        }
    }

    /// What the closing does next, at the given time.
    pub fn next_at(self, kernel: &AgentKernel, runtime: &SessionRuntime, now: Timestamp) -> (r: (
        Self,
        SessionAction,
    ))
        requires
            closing_sound(self.deep_view()),
        ensures
            (r.0.deep_view(), r.1.deep_view()) == closing_next(
                *kernel,
                self.deep_view(),
                runtime.deep_view(),
                now,
            ),
            closing_sound(r.0.deep_view()),
    {
        let mut closing = self;
        match &closing.saving {
            Some(event) => {
                let action = SessionAction::Save(event.clone());
                return (closing, action);
            },
            None => {},
        }
        match &closing.dispatch {
            Some(dispatch) => match dispatch.next_call() {
                Some(call) => {
                    let action = SessionAction::CallHook(call.clone());
                    return (closing, action);
                },
                None => {},
            },
            None => {},
        }
        match &closing.stage {
            ClosingStage::Farewell => {
                let message_count: usize = runtime.message_count();
                let dispatch = kernel.hooks.dispatch_at(
                    HookEvent::SessionEnd,
                    runtime.session_id.as_str(),
                    None,
                    &HookData::SessionEnd { message_count },
                    now,
                );
                match dispatch.next_call() {
                    Some(call) => {
                        let action = SessionAction::CallHook(call.clone());
                        closing.dispatch = Some(dispatch);
                        (closing, action)
                    },
                    None => {
                        closing.stage = ClosingStage::Extract;
                        (closing, SessionAction::Proceed)
                    },
                }
            },
            ClosingStage::Extract => match Self::plan_extraction(kernel, runtime) {
                Some(run) => (closing, SessionAction::Extract(run)),
                None => {
                    closing.stage = ClosingStage::Done;
                    (closing, SessionAction::Proceed)
                },
            },
            ClosingStage::Note(seq) => {
                let event = runtime.allocate_event_at(
                    LedgerEventPayload::Metadata {
                        key: MetadataKey::MemoryCheckpoint,
                        value: MetadataValue::MemoryCheckpoint(*seq),
                    },
                    now,
                );
                let action = SessionAction::Save(event.clone());
                closing.saving = Some(event);
                (closing, action)
            },
            ClosingStage::Kept(_) => (closing, SessionAction::Finish),
            ClosingStage::Done => (closing, SessionAction::Finish),
        }
    }

    /// What the closing does next, now.
    pub fn next(self, kernel: &AgentKernel, runtime: &SessionRuntime) -> (r: (Self, SessionAction))
        requires
            closing_sound(self.deep_view()),
        ensures
            exists|now: Timestamp|
                (r.0.deep_view(), r.1.deep_view()) == #[trigger] closing_next(
                    *kernel,
                    self.deep_view(),
                    runtime.deep_view(),
                    now,
                ),
            closing_sound(r.0.deep_view()),
    {
        let now = utc_now();
        self.next_at(kernel, runtime, now)
    }

    /// Takes the answer of a hook handler.
    pub fn hook_answered(self, result: HookResult) -> (r: Self)
        requires
            closing_sound(self.deep_view()),
            self.deep_view().dispatch is Some,
        ensures
            r.deep_view() == closing_hook_answered(self.deep_view(), result.deep_view()),
            closing_sound(r.deep_view()),
    {
        let mut closing = self;
        let mut pending = None;
        std::mem::swap(&mut pending, &mut closing.dispatch);
        match pending {
            Some(dispatch) => {
                let mut dispatch = dispatch;
                match dispatch.accept(result) {
                    Ok(_) => {
                        if dispatch.next_call().is_some() {
                            closing.dispatch = Some(dispatch);
                        } else {
                            closing.stage = ClosingStage::Extract;
                        }
                    },
                    Err(error) => {
                        closing.stage = ClosingStage::Kept(error);
                    },
                }
                closing
            },
            None => closing,
        }
    }

    /// Takes the result of the memory extraction.
    pub fn extracted(self, result: Result<Option<u64>>) -> (r: Self)
        requires
            closing_sound(self.deep_view()),
            self.deep_view().stage is Extract,
        ensures
            r.deep_view() == closing_extracted(self.deep_view(), outcome(result)),
            closing_sound(r.deep_view()),
    {
        let stage = match result {
            Ok(Some(seq)) => ClosingStage::Note(seq),
            _ => ClosingStage::Done,
        };
        SessionClosing { stage, ..self }
    }

    /// Takes the outcome of storing the memory checkpoint.
    pub fn saved(
        self,
        runtime: &mut SessionRuntime,
        saved: std::result::Result<(), ErrorSource>,
    ) -> (r: Self)
        requires
            closing_sound(self.deep_view()),
            self.deep_view().saving is Some,
        ensures
            r.deep_view() == closing_saved(self.deep_view()),
            final(runtime).deep_view() == persisted(
                old(runtime).deep_view(),
                self.deep_view().saving->0,
                storage_result(saved),
            ).0,
            closing_sound(r.deep_view()),
    {
        match self.saving {
            Some(event) => {
                let _ = runtime.persist_and_project(event, saved);
            },
            None => {},
        }
        SessionClosing { dispatch: self.dispatch, saving: None, stage: ClosingStage::Done }
    }

    /// Ends the closing: the session goes on, or its slot is freed.
    pub fn finish(self, control: &mut AgentControl, session_id: &str) -> (r: Result<()>)
        requires
            self.deep_view().stage is Kept || self.deep_view().stage is Done,
        ensures
            (final(control).deep_view(), outcome(r)) == closing_finished(
                self.deep_view(),
                old(control).deep_view(),
                session_id@,
            ),
    {
        match self.stage {
            ClosingStage::Kept(error) => {
                let _ = control.abort_close(session_id);
                Err(error)
            },
            _ => control.finish_close(session_id),
        }
    }
}

/// A shutdown after its session was closed, or could not be: the agent runs on,
/// or the plugins are shut down.
pub open spec fn shutdown_settled(
    c: ControlView,
    closed: std::result::Result<(), AgentErrorView>,
) -> ControlView {
    match closed {
        Ok(_) => c,
        Err(_) => ControlView { lifecycle: LifecycleState::Running, ..c },
    }
}

/// Goes on with a shutdown once its session was closed. Gives the positions of
/// the plugins in the order in which they are shut down; where the session could
/// not be closed, the agent runs on.
pub fn settle_shutdown(control: &mut AgentControl, closed: Result<()>, plugins: usize) -> (r:
    Result<Vec<usize>>)
    ensures
        final(control).deep_view() == shutdown_settled(
            old(control).deep_view(),
            outcome(closed),
        ),
        match closed {
            Ok(_) => r matches Ok(order) && order@ == Seq::new(
                plugins as nat,
                |i: int| (plugins - 1 - i) as usize,
            ),
            Err(problem) => r matches Err(error) && error.deep_view() == problem.deep_view(),
        },
{
    match closed {
        Ok(_) => Ok(shutdown_order(plugins)),
        Err(error) => {
            control.abort_shutdown();
            Err(error)
        },
    }
}

// ---------------------------------------------------------------------------
// Laws
// ---------------------------------------------------------------------------
/// Whatever becomes of the last memory extraction and of its checkpoint, the
/// session is closed.
pub proof fn law_extraction_does_not_block(
    kernel: AgentKernel,
    o: ClosingView,
    rt: RuntimeView,
    now: Timestamp,
    result: std::result::Result<Option<u64>, AgentErrorView>,
)
    requires
        closing_sound(o),
        o.stage is Extract,
    ensures
        ({
            let extracted = closing_extracted(o, result);
            let noted = closing_next(kernel, extracted, rt, now).0;
            &&& !(result matches Ok(Some(_))) ==> extracted.stage is Done
            &&& result matches Ok(Some(_)) ==> noted.saving is Some && closing_saved(noted).stage
                is Done
        }),
        !can_extract(kernel, rt) ==> closing_next(kernel, o, rt, now).0.stage is Done,
{
}

/// A hook that aborts the end of a session leaves it active, and idle.
pub proof fn law_aborted_close_keeps_session(c: ControlView, o: ClosingView, id: Seq<char>)
    requires
        close_begun(c, id).1 is Ok,
        o.stage is Kept,
    ensures
        closing_finished(o, close_begun(c, id).0, id) == (
            with_turn_state(c, TurnState::Idle),
            Err::<(), AgentErrorView>(o.stage->Kept_0),
        ),
{
}

/// A shutdown whose session refuses to be closed leaves the agent running, with
/// the session active and idle.
pub proof fn law_refused_shutdown_runs_on(c: ControlView, o: ClosingView, id: Seq<char>)
    requires
        shutdown_begun(c).1 == ShutdownStartView::Close(id),
        close_begun(shutdown_begun(c).0, id).1 is Ok,
        o.stage is Kept,
    ensures
        ({
            let (after, closed) = closing_finished(
                o,
                close_begun(shutdown_begun(c).0, id).0,
                id,
            );
            &&& closed is Err
            &&& shutdown_settled(after, closed) == with_turn_state(c, TurnState::Idle)
        }),
{
}

} // verus!
