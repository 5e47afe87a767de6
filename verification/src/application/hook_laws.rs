//! Laws of hooks and plugins: who is called with what, what becomes of the
//! answers, and in which order plugins start.

use crate::api::agent::AgentKernel;
use crate::application::hook_registry::{absorbed, calls_of, only, DispatchView};
use crate::application::plugin_manager::{
    after_apply, after_initialize, first_stage, plugin_action, ConfiguredView, PluginActionView,
    PluginStageView,
};
use crate::application::session_closing::{
    closing_hook_answered, closing_next, ClosingStageView, ClosingView,
};
use crate::application::session_runtime::{messages_in, RuntimeView};
use crate::application::session_service::{
    opening_greeted, opening_hook_answered, opening_next, OpeningStageView, OpeningView,
    SessionActionView,
};
use crate::application::turn_rules::{
    advanced, hooks_settled, turn_hook_answered, turn_next, DemandView,
};
use crate::application::turn_state::{TurnActionView, TurnDeps, TurnView};
use crate::clock::Timestamp;
use crate::domain::error::AgentErrorView;
use crate::domain::hook::{hook_name, HookDataView, HookEvent, HookPatchView, HookResultView};
use crate::ports::plugin::{tapped, PluginContextView, RegistrationView};
use vstd::prelude::*;
use vstd::string::*;

verus! {

// ---------------------------------------------------------------------------
// Hooks
// ---------------------------------------------------------------------------
/// Every handler of a hook is called, in the order of registration, with its own
/// plugin's configuration and with what happened.
pub proof fn law_every_handler_is_called(
    registrations: Seq<RegistrationView>,
    event: HookEvent,
    session_id: Seq<char>,
    turn_id: Option<Seq<char>>,
    data: HookDataView,
    timestamp: Timestamp,
    i: int,
)
    requires
        0 <= i < registrations.len(),
    ensures
        ({
            let calls = calls_of(registrations, event, session_id, turn_id, data, timestamp);
            &&& calls.len() == registrations.len()
            &&& calls[i].handler == registrations[i].handler
            &&& calls[i].plugin_id == registrations[i].plugin_id
            &&& calls[i].payload.plugin_config == registrations[i].plugin_config
            &&& calls[i].payload.event == event
            &&& calls[i].payload.session_id == session_id
            &&& calls[i].payload.turn_id == turn_id
            &&& calls[i].payload.data == data
            &&& calls[i].payload.timestamp == timestamp
        }),
{
}

/// A hook is handled by the registrations for it, in their order, and by no other.
pub proof fn law_registrations_are_sorted_by_hook(
    registrations: Seq<RegistrationView>,
    registration: RegistrationView,
    event: HookEvent,
)
    ensures
        only(Seq::empty(), event).len() == 0,
        only(registrations.push(registration), event) == (if registration.event == event {
            only(registrations, event).push(registration)
        } else {
            only(registrations, event)
        }),
{
    assert(registrations.push(registration).drop_last() =~= registrations);
}

/// A handler's answer adds its patch behind the others where the hook takes such
/// patches; elsewhere it breaks the contract. An abort carries its reason and the
/// name of the hook.
pub proof fn law_answer_is_absorbed(
    event: HookEvent,
    plugin_id: Seq<char>,
    patches: Seq<HookPatchView>,
    patch: HookPatchView,
    reason: Seq<char>,
)
    ensures
        absorbed(event, plugin_id, patches, HookResultView::Continue) == Ok::<
            Seq<HookPatchView>,
            AgentErrorView,
        >(patches),
        (patch is TurnStart && event is TurnStart) || (patch is BeforeToolUse && event
            is BeforeToolUse) ==> absorbed(
            event,
            plugin_id,
            patches,
            HookResultView::ContinueWith(patch),
        ) == Ok::<Seq<HookPatchView>, AgentErrorView>(patches.push(patch)),
        !((patch is TurnStart && event is TurnStart) || (patch is BeforeToolUse && event
            is BeforeToolUse)) ==> absorbed(
            event,
            plugin_id,
            patches,
            HookResultView::ContinueWith(patch),
        ) == Err::<Seq<HookPatchView>, AgentErrorView>(
            AgentErrorView::PluginHookContractViolation {
                plugin_id,
                message: "hook "@ + hook_name(event) + " returned an incompatible patch"@,
            },
        ),
        absorbed(event, plugin_id, patches, HookResultView::Abort(reason)) == Err::<
            Seq<HookPatchView>,
            AgentErrorView,
        >(AgentErrorView::PluginAborted { hook: hook_name(event), reason }),
{
}

/// A step of a turn that has hooks calls the first of their handlers, and settles
/// at once where there is none.
pub proof fn law_turn_calls_its_hooks(
    d: TurnDeps,
    t: TurnView,
    rt: RuntimeView,
    cancelled: bool,
    now: Timestamp,
    event: HookEvent,
    data: HookDataView,
)
    requires
        t.saving is None,
        t.dispatch is None,
        t.outbox.len() == 0,
        advanced(d, t, rt, cancelled) == (t, DemandView::Hooks(event, data)),
    ensures
        d.hooks.registered(event).len() == 0 ==> turn_next(d, t, rt, cancelled, now) == (
            hooks_settled(d, t, Ok(Seq::empty())),
            rt,
            TurnActionView::Proceed,
        ),
        d.hooks.registered(event).len() > 0 ==> ({
            let (u, after, action) = turn_next(d, t, rt, cancelled, now);
            let calls = calls_of(
                d.hooks.registered(event),
                event,
                rt.session_id,
                Some(t.turn_id),
                data,
                now,
            );
            &&& after == rt
            &&& action == TurnActionView::CallHook(calls[0])
            &&& u == (TurnView {
                dispatch: Some(DispatchView { event, calls, position: 0, patches: Seq::empty() }),
                ..t
            })
        }),
{
}

/// Handlers are called one after the other: an answer leads to the next handler,
/// the last one settles the hook with all patches, and an error settles it at once
/// without asking any further handler.
pub proof fn law_turn_asks_every_handler(
    d: TurnDeps,
    t: TurnView,
    dispatch: DispatchView,
    result: HookResultView,
)
    requires
        t.dispatch == Some(dispatch),
        0 <= dispatch.position < dispatch.calls.len(),
    ensures
        ({
            let u = turn_hook_answered(d, t, result);
            let asked = TurnView { dispatch: None, ..t };
            match absorbed(
                dispatch.event,
                dispatch.calls[dispatch.position].plugin_id,
                dispatch.patches,
                result,
            ) {
                Ok(patches) => {
                    &&& dispatch.position + 1 < dispatch.calls.len() ==> u == (TurnView {
                        dispatch: Some(
                            DispatchView {
                                event: dispatch.event,
                                calls: dispatch.calls,
                                position: dispatch.position + 1,
                                patches,
                            },
                        ),
                        ..t
                    })
                    &&& dispatch.position + 1 == dispatch.calls.len() ==> u == hooks_settled(
                        d,
                        asked,
                        Ok(patches),
                    )
                },
                Err(error) => u == hooks_settled(d, asked, Err(error)),
            }
        }),
{
}

/// Hooks of a new session are told its model, before anything of it is stored;
/// without hooks it is recorded at once.
pub proof fn law_session_start_is_told(
    kernel: AgentKernel,
    o: OpeningView,
    rt: RuntimeView,
    now: Timestamp,
)
    requires
        o.saving is None,
        o.dispatch is None,
        o.stage == OpeningStageView::Greet(rt),
    ensures
        ({
            let handlers = kernel.hooks.registered(HookEvent::SessionStart);
            let calls = calls_of(
                handlers,
                HookEvent::SessionStart,
                o.session_id,
                None,
                HookDataView::SessionStart { model_id: rt.model_id },
                now,
            );
            let (after, action) = opening_next(kernel, o, now);
            &&& handlers.len() == 0 ==> after.stage == opening_greeted(rt, Ok(()))
            &&& handlers.len() > 0 ==> {
                &&& action == SessionActionView::CallHook(calls[0])
                &&& after.stage == o.stage
                &&& after.dispatch == Some(
                    DispatchView {
                        event: HookEvent::SessionStart,
                        calls,
                        position: 0,
                        patches: Seq::empty(),
                    },
                )
            }
        }),
{
}

/// Every hook of a new session is asked; one that objects refuses the session.
pub proof fn law_session_start_asks_every_handler(
    o: OpeningView,
    rt: RuntimeView,
    dispatch: DispatchView,
    result: HookResultView,
)
    requires
        o.dispatch == Some(dispatch),
        o.stage == OpeningStageView::Greet(rt),
        dispatch.event is SessionStart,
        0 <= dispatch.position < dispatch.calls.len(),
    ensures
        ({
            let after = opening_hook_answered(o, result);
            &&& result is Continue && dispatch.position + 1 < dispatch.calls.len() ==> after.stage
                == o.stage && after.dispatch == Some(
                DispatchView { position: dispatch.position + 1, ..dispatch },
            )
            &&& result is Continue && dispatch.position + 1 == dispatch.calls.len()
                ==> after.dispatch is None && after.stage == opening_greeted(rt, Ok(()))
            &&& result matches HookResultView::Abort(reason) ==> after.dispatch is None
                && after.stage == OpeningStageView::Refused(
                AgentErrorView::PluginAborted { hook: "SessionStart"@, reason },
            )
            &&& result is ContinueWith ==> after.stage is Refused
        }),
{
}

/// Hooks of a session that is closed are told how many messages it holds, before
/// anything is extracted.
pub proof fn law_session_end_is_told(
    kernel: AgentKernel,
    o: ClosingView,
    rt: RuntimeView,
    now: Timestamp,
)
    requires
        o.saving is None,
        o.dispatch is None,
        o.stage is Farewell,
    ensures
        ({
            let handlers = kernel.hooks.registered(HookEvent::SessionEnd);
            let calls = calls_of(
                handlers,
                HookEvent::SessionEnd,
                rt.session_id,
                None,
                HookDataView::SessionEnd { message_count: messages_in(rt.ledger) as usize },
                now,
            );
            let (after, action) = closing_next(kernel, o, rt, now);
            &&& handlers.len() == 0 ==> after.stage is Extract
            &&& handlers.len() > 0 ==> {
                &&& action == SessionActionView::CallHook(calls[0])
                &&& after.stage == o.stage
                &&& after.dispatch == Some(
                    DispatchView {
                        event: HookEvent::SessionEnd,
                        calls,
                        position: 0,
                        patches: Seq::empty(),
                    },
                )
            }
        }),
{
}

/// Every hook of a session that is closed is asked; one that objects keeps it
/// open.
pub proof fn law_session_end_asks_every_handler(
    o: ClosingView,
    dispatch: DispatchView,
    result: HookResultView,
)
    requires
        o.dispatch == Some(dispatch),
        o.stage is Farewell,
        dispatch.event is SessionEnd,
        0 <= dispatch.position < dispatch.calls.len(),
    ensures
        ({
            let after = closing_hook_answered(o, result);
            &&& result is Continue && dispatch.position + 1 < dispatch.calls.len() ==> after.stage
                == o.stage && after.dispatch == Some(
                DispatchView { position: dispatch.position + 1, ..dispatch },
            )
            &&& result is Continue && dispatch.position + 1 == dispatch.calls.len()
                ==> after.dispatch is None && after.stage is Extract
            &&& result matches HookResultView::Abort(reason) ==> after.dispatch is None
                && after.stage == ClosingStageView::Kept(
                AgentErrorView::PluginAborted { hook: "SessionEnd"@, reason },
            )
            &&& result is ContinueWith ==> after.stage is Kept
        }),
{
}

// ---------------------------------------------------------------------------
// Plugins
// ---------------------------------------------------------------------------
/// A declared hook is registered behind the others, for the plugin and with its
/// configuration. An undeclared one is not, and the first such attempt is kept as
/// an error that names it.
pub proof fn law_declared_hooks_are_registered(
    context: PluginContextView,
    event: HookEvent,
    handler: usize,
)
    ensures
        ({
            let after = tapped(context, event, handler);
            &&& after.descriptor == context.descriptor
            &&& after.plugin_config == context.plugin_config
            &&& context.descriptor.tapped_hooks.contains(event) ==> after.registrations
                == context.registrations.push(
                RegistrationView {
                    event,
                    plugin_id: context.descriptor.id,
                    plugin_config: context.plugin_config,
                    handler,
                },
            ) && after.first_error == context.first_error
            &&& !context.descriptor.tapped_hooks.contains(event) ==> after.registrations
                == context.registrations && after.first_error == Some(
                match context.first_error {
                    Some(error) => error,
                    None => AgentErrorView::PluginHookContractViolation {
                        plugin_id: context.descriptor.id,
                        message: "attempted to tap undeclared hook "@ + hook_name(event),
                    },
                },
            )
        }),
{
}

/// Plugins start in order: all are initialised, each with its configuration, then
/// all register their hooks, and then the start is over.
pub proof fn law_plugins_start_in_order(
    plugins: Seq<ConfiguredView>,
    index: usize,
    context: PluginContextView,
)
    requires
        index < plugins.len() <= usize::MAX,
        context.first_error is None,
    ensures
        first_stage(plugins.len() as int) == PluginStageView::Initialize(0),
        first_stage(0) is Started,
        index + 1 < plugins.len() ==> after_initialize(plugins, index, Ok(()))
            == PluginStageView::Initialize((index + 1) as usize),
        index + 1 == plugins.len() ==> after_initialize(plugins, index, Ok(()))
            == PluginStageView::Apply(0),
        index + 1 < plugins.len() ==> after_apply(plugins, index, context)
            == PluginStageView::Apply((index + 1) as usize),
        index + 1 == plugins.len() ==> after_apply(plugins, index, context) is Started,
        plugin_action(plugins, PluginStageView::Initialize(index)) == (
        PluginActionView::Initialize { index, config: plugins[index as int].config }),
        plugin_action(plugins, PluginStageView::Apply(index)) == (PluginActionView::Apply {
            index,
            context: PluginContextView {
                descriptor: plugins[index as int].descriptor,
                plugin_config: plugins[index as int].config,
                registrations: Seq::empty(),
                first_error: None,
            },
        }),
        plugin_action(plugins, PluginStageView::Started) is Finish,
{
}

/// A start that fails shuts the started plugins down again, the last one first,
/// and keeps its error.
pub proof fn law_failed_start_is_undone(
    plugins: Seq<ConfiguredView>,
    index: usize,
    left: usize,
    source: Seq<Seq<char>>,
    context: PluginContextView,
    error: AgentErrorView,
)
    requires
        index < plugins.len() <= usize::MAX,
        context.first_error == Some(error),
    ensures
        after_initialize(plugins, index, Err(source)) == PluginStageView::RollBack(
            index,
            AgentErrorView::PluginInitFailed { id: plugins[index as int].descriptor.id, source },
        ),
        after_apply(plugins, index, context) == PluginStageView::RollBack(
            plugins.len() as usize,
            error,
        ),
        left > 0 ==> plugin_action(plugins, PluginStageView::RollBack(left, error)) == (
        PluginActionView::ShutDown { index: (left - 1) as usize }),
        plugin_action(plugins, PluginStageView::RollBack(0, error)) is Finish,
{
}

} // verus!
