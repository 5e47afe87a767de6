//! Registered hooks and their dispatch.

use crate::clock::{utc_now, Timestamp};
use crate::domain::error::{AgentError, AgentErrorView, Result};
use crate::domain::hook::{
    hook_name, lemma_hook_names_distinct, patch_matches, HookData, HookDataView, HookEvent,
    HookPatch, HookPatchView, HookPayload, HookPayloadView, HookResult, HookResultView,
};
use crate::ports::plugin::{HookRegistration, RegistrationView};
use crate::registry::Registry;
use crate::text::same_text;
use vstd::prelude::*;
use vstd::string::*;

verus! {

broadcast use vstd::std_specs::vec::vec_clone_deep_view_proof;

/// Hooks of all plugins, grouped by event and in order of registration.
pub struct HookRegistry {
    handlers: Registry<Vec<HookRegistration>>,
}

/// The registrations for `event`, in order.
pub open spec fn only(registrations: Seq<RegistrationView>, event: HookEvent) -> Seq<
    RegistrationView,
>
    decreases registrations.len(),
{
    if registrations.len() == 0 {
        Seq::empty()
    } else if registrations.last().event == event {
        only(registrations.drop_last(), event).push(registrations.last())
    } else {
        only(registrations.drop_last(), event)
    }
}

/// What one handler of a registration is called with.
pub open spec fn call_of(
    registration: RegistrationView,
    event: HookEvent,
    session_id: Seq<char>,
    turn_id: Option<Seq<char>>,
    data: HookDataView,
    timestamp: Timestamp,
) -> HookCallView {
    HookCallView {
        handler: registration.handler,
        plugin_id: registration.plugin_id,
        payload: HookPayloadView {
            event,
            session_id,
            turn_id,
            plugin_config: registration.plugin_config,
            data,
            timestamp,
        },
    }
}

/// The calls of a dispatch, one per registration.
pub open spec fn calls_of(
    registrations: Seq<RegistrationView>,
    event: HookEvent,
    session_id: Seq<char>,
    turn_id: Option<Seq<char>>,
    data: HookDataView,
    timestamp: Timestamp,
) -> Seq<HookCallView> {
    registrations.map_values(
        |registration: RegistrationView|
            call_of(registration, event, session_id, turn_id, data, timestamp),
    )
}

impl HookRegistry {
    /// The registrations for an event, in order.
    pub closed spec fn registered(self, event: HookEvent) -> Seq<RegistrationView> {
        match self.handlers.find(hook_name(event)) {
            Some(group) => group.deep_view(),
            None => Seq::empty(),
        }
    }

    /// A registry without hooks.
    pub fn new() -> (r: Self)
        ensures
            forall|event: HookEvent| #[trigger]
                r.registered(event) == Seq::<RegistrationView>::empty(),
    {
        HookRegistry { handlers: Registry::new() }
    }

    /// Adds one registration behind those of the same event.
    pub fn register(self, registration: HookRegistration) -> (r: Self)
        ensures
            forall|event: HookEvent| #[trigger]
                r.registered(event) == (if event == registration.event {
                    self.registered(event).push(registration.deep_view())
                } else {
                    self.registered(event)
                }),
    {
        let key = registration.event.as_str();
        let known = self.handlers.contains(key);
        let ghost before = self.handlers;
        let ghost added = registration;
        let handlers = self.handlers.append_to(key.to_owned(), registration);
        let kept = handlers.contains(key);
        let r = HookRegistry { handlers };
        proof {
            let keys = before.keys();
            let name = hook_name(added.event);
            assert forall|event: HookEvent| #[trigger] r.registered(event) == (if event
                == added.event {
                self.registered(event).push(added.deep_view())
            } else {
                self.registered(event)
            }) by {
                lemma_hook_names_distinct(event, added.event);
                let wanted = hook_name(event);
                if known {
                    let i = keys.index_of(name);
                    assert(keys[i] == name);
                    if event == added.event {
                        assert(r.registered(event) =~= self.registered(event).push(
                            added.deep_view(),
                        ));
                    } else if keys.contains(wanted) {
                        let j = keys.index_of(wanted);
                        assert(keys[j] == wanted);
                        assert(j != i);
                        assert(0 <= j < before.values().len());
                    }
                } else {
                    let after = handlers.keys();
                    assert(after == keys.push(name));
                    assert(after[keys.len() as int] == name);
                    assert(after.contains(name));
                    if event == added.event {
                        let j = after.index_of(name);
                        assert(after[j] == name);
                        assert(j == keys.len());
                        assert(r.registered(event) =~= self.registered(event).push(
                            added.deep_view(),
                        ));
                    } else if keys.contains(wanted) {
                        let j = keys.index_of(wanted);
                        assert(keys[j] == wanted);
                        assert(after[j] == wanted);
                        assert(after.contains(wanted));
                        let k = after.index_of(wanted);
                        assert(after[k] == wanted);
                        assert(k == j);
                        assert(0 <= j < before.values().len());
                    } else {
                        assert forall|k: int| 0 <= k < after.len() implies after[k] != wanted by {
                            if k < keys.len() {
                                assert(after[k] == keys[k]);
                            }
                        }
                    }
                }
            }
        }
        r
    }

    /// Adds registrations in order.
    pub fn extend(self, registrations: Vec<HookRegistration>) -> (r: Self)
        ensures
            forall|event: HookEvent| #[trigger]
                r.registered(event) == self.registered(event) + only(
                    registrations.deep_view(),
                    event,
                ),
        decreases registrations.len(),
    {
        let ghost all = registrations.deep_view();
        let mut queue = registrations;
        match queue.pop() {
            None => {
                proof {
                    assert forall|event: HookEvent| #[trigger] self.registered(event)
                        == self.registered(event) + only(all, event) by {
                        assert(self.registered(event) + Seq::<RegistrationView>::empty()
                            =~= self.registered(event));
                    }
                }
                self
            },
            Some(last) => {
                let ghost front = queue.deep_view();
                proof {
                    assert(all.drop_last() =~= front);
                    assert(all.last() == last.deep_view());
                }
                let middle = self.extend(queue);
                let r = middle.register(last);
                proof {
                    assert forall|event: HookEvent| #[trigger] r.registered(event)
                        == self.registered(event) + only(all, event) by {
                        assert(middle.registered(event) == self.registered(event) + only(
                            front,
                            event,
                        ));
                        assert(r.registered(event) =~= self.registered(event) + only(all, event));
                    }
                }
                r
            },
        }
    }

    /// Whether a plugin registered a handler for an event.
    pub fn has_registration(&self, event: HookEvent, plugin_id: &str) -> (r: bool)
        ensures
            r == exists|i: int|
                0 <= i < self.registered(event).len() && (#[trigger] self.registered(
                    event,
                )[i]).plugin_id == plugin_id@,
    {
        match self.handlers.get(event.as_str()) {
            None => false,
            Some(group) => {
                let mut i: usize = 0;
                while i < group.len()
                    invariant
                        i <= group.len(),
                        group.deep_view() == self.registered(event),
                        forall|j: int|
                            0 <= j < i ==> (#[trigger] self.registered(event)[j]).plugin_id
                                != plugin_id@,
                    decreases group.len() - i,
                {
                    proof {
                        assert(self.registered(event)[i as int] == group[i as int].deep_view());
                    }
                    if same_text(group[i].plugin_id.as_str(), plugin_id) {
                        return true;
                    }
                    i += 1;
                }
                false
            },
        }
    }

    /// Starts the dispatch of an event at the given time.
    pub fn dispatch_at(
        &self,
        event: HookEvent,
        session_id: &str,
        turn_id: Option<&str>,
        data: &HookData,
        timestamp: Timestamp,
    ) -> (r: HookDispatch)
        ensures
            r.deep_view() == (DispatchView {
                event,
                calls: calls_of(
                    self.registered(event),
                    event,
                    session_id@,
                    turn_id.deep_view(),
                    data.deep_view(),
                    timestamp,
                ),
                position: 0,
                patches: Seq::empty(),
            }),
    {
        let mut calls: Vec<HookCall> = Vec::new();
        let ghost wanted = calls_of(
            self.registered(event),
            event,
            session_id@,
            turn_id.deep_view(),
            data.deep_view(),
            timestamp,
        );
        match self.handlers.get(event.as_str()) {
            None => {},
            Some(group) => {
                let mut i: usize = 0;
                while i < group.len()
                    invariant
                        i <= group.len(),
                        group.deep_view() == self.registered(event),
                        wanted == calls_of(
                            self.registered(event),
                            event,
                            session_id@,
                            turn_id.deep_view(),
                            data.deep_view(),
                            timestamp,
                        ),
                        calls.deep_view() =~= wanted.take(i as int),
                    decreases group.len() - i,
                {
                    let ghost before = calls.deep_view();
                    let registration = &group[i];
                    calls.push(
                        HookCall {
                            handler: registration.handler,
                            plugin_id: registration.plugin_id.clone(),
                            payload: HookPayload {
                                event,
                                session_id: session_id.to_owned(),
                                turn_id: match turn_id {
                                    Some(id) => Some(id.to_owned()),
                                    None => None,
                                },
                                plugin_config: registration.plugin_config.clone(),
                                data: data.clone(),
                                timestamp,
                            },
                        },
                    );
                    proof {
                        assert(calls.deep_view() =~= before.push(wanted[i as int]));
                    }
                    i += 1;
                }
            },
        }
        let r = HookDispatch { event, calls, position: 0, patches: Vec::new() };
        proof {
            assert(r.calls.deep_view() =~= wanted);
            assert(r.patches.deep_view() =~= Seq::<HookPatchView>::empty());
        }
        r
    }

    /// Starts the dispatch of an event now.
    pub fn dispatch(
        &self,
        event: HookEvent,
        session_id: &str,
        turn_id: Option<&str>,
        data: &HookData,
    ) -> (r: HookDispatch)
        ensures
            exists|timestamp: Timestamp|
                r.deep_view() == (DispatchView {
                    event,
                    calls: #[trigger] calls_of(
                        self.registered(event),
                        event,
                        session_id@,
                        turn_id.deep_view(),
                        data.deep_view(),
                        timestamp,
                    ),
                    position: 0,
                    patches: Seq::empty(),
                }),
    {
        let timestamp = utc_now();
        self.dispatch_at(event, session_id, turn_id, data, timestamp)
    }
}

/// One handler to call.
#[derive(Debug, PartialEq, Eq)]
pub struct HookCall {
    /// Number of the handler at the host.
    pub handler: usize,
    /// Id of the plugin.
    pub plugin_id: String,
    /// What the handler is given.
    pub payload: HookPayload,
}

/// Model of [`HookCall`].
#[verifier::ext_equal]
pub struct HookCallView {
    pub handler: usize,
    pub plugin_id: Seq<char>,
    pub payload: HookPayloadView,
}

impl DeepView for HookCall {
    type V = HookCallView;

    open spec fn deep_view(&self) -> HookCallView {
        HookCallView {
            handler: self.handler,
            plugin_id: self.plugin_id@,
            payload: self.payload.deep_view(),
        }
    }
}

impl Clone for HookCall {
    fn clone(&self) -> (r: Self)
        ensures
            r.deep_view() == self.deep_view(),
    {
        HookCall {
            handler: self.handler,
            plugin_id: self.plugin_id.clone(),
            payload: self.payload.clone(),
        }
    }
}

/// A dispatch in progress: handlers are called one after the other, and each
/// answer is handed back before the next call.
#[derive(Debug)]
pub struct HookDispatch {
    event: HookEvent,
    calls: Vec<HookCall>,
    position: usize,
    patches: Vec<HookPatch>,
}

/// Model of [`HookDispatch`].
#[verifier::ext_equal]
pub struct DispatchView {
    pub event: HookEvent,
    pub calls: Seq<HookCallView>,
    pub position: int,
    pub patches: Seq<HookPatchView>,
}

impl DeepView for HookDispatch {
    type V = DispatchView;

    closed spec fn deep_view(&self) -> DispatchView {
        DispatchView {
            event: self.event,
            calls: self.calls.deep_view(),
            position: self.position as int,
            patches: self.patches.deep_view(),
        }
    }
}

/// The error for a patch that does not belong to the event.
pub open spec fn incompatible_patch(plugin_id: Seq<char>, event: HookEvent) -> AgentErrorView {
    AgentErrorView::PluginHookContractViolation {
        plugin_id,
        message: "hook "@ + hook_name(event) + " returned an incompatible patch"@,
    }
}

/// The patches after one more answer, or the error that ends the dispatch.
pub open spec fn absorbed(
    event: HookEvent,
    plugin_id: Seq<char>,
    patches: Seq<HookPatchView>,
    result: HookResultView,
) -> std::result::Result<Seq<HookPatchView>, AgentErrorView> {
    match result {
        HookResultView::Continue => Ok(patches),
        HookResultView::ContinueWith(patch) => if patch_matches(patch, event) {
            Ok(patches.push(patch))
        } else {
            Err(incompatible_patch(plugin_id, event))
        },
        HookResultView::Abort(reason) => Err(
            AgentErrorView::PluginAborted { hook: hook_name(event), reason },
        ),
    }
}

/// The outcome of a dispatch whose handlers gave `results`, in order: the
/// patches of all of them, or the first error.
pub open spec fn dispatch_outcome(
    event: HookEvent,
    plugin_ids: Seq<Seq<char>>,
    results: Seq<HookResultView>,
) -> std::result::Result<Seq<HookPatchView>, AgentErrorView>
    decreases results.len(),
{
    if results.len() == 0 {
        Ok(Seq::empty())
    } else {
        match dispatch_outcome(event, plugin_ids, results.drop_last()) {
            Ok(patches) => absorbed(
                event,
                plugin_ids[results.len() - 1],
                patches,
                results.last(),
            ),
            Err(error) => Err(error),
        }
    }
}

impl HookDispatch {
    /// The handler to call next; `None` once all have answered.
    pub fn next_call(&self) -> (r: Option<&HookCall>)
        ensures
            r.deep_view() == (if self.deep_view().position < self.deep_view().calls.len() {
                Some(self.deep_view().calls[self.deep_view().position])
            } else {
                None
            }),
    {
        if self.position < self.calls.len() {
            Some(&self.calls[self.position])
        } else {
            None
        }
    }

    /// Takes the answer of the handler called last. An error ends the dispatch.
    pub fn accept(&mut self, result: HookResult) -> (r: Result<()>)
        requires
            old(self).deep_view().position < old(self).deep_view().calls.len(),
        ensures
            match absorbed(
                old(self).deep_view().event,
                old(self).deep_view().calls[old(self).deep_view().position].plugin_id,
                old(self).deep_view().patches,
                result.deep_view(),
            ) {
                Ok(patches) => r is Ok && final(self).deep_view() == (DispatchView {
                    position: old(self).deep_view().position + 1,
                    patches,
                    ..old(self).deep_view()
                }),
                Err(error) => r matches Err(e) && e.deep_view() == error
                    && final(self).deep_view() == old(self).deep_view(),
            },
    {
        let position: usize = self.position;
        let count: usize = self.calls.len();
        assert(position < count);
        match result {
            HookResult::Continue => {},
            HookResult::ContinueWith(patch) => {
                if !self.event.supports_patch() || !patch.matches(self.event) {
                    return Err(
                        AgentError::PluginHookContractViolation {
                            plugin_id: self.calls[position].plugin_id.clone(),
                            message: "hook ".to_owned().concat(self.event.as_str()).concat(
                                " returned an incompatible patch",
                            ),
                        },
                    );
                }
                self.patches.push(patch);
                proof {
                    assert(self.patches.deep_view() =~= old(self).deep_view().patches.push(
                        patch.deep_view(),
                    ));
                }
            },
            HookResult::Abort(reason) => {
                return Err(AgentError::PluginAborted { hook: self.event.as_str(), reason });
            },
        }
        self.position = position + 1;
        Ok(())
    }

    /// The patches collected so far, in order of registration.
    pub fn into_patches(self) -> (r: Vec<HookPatch>)
        ensures
            r.deep_view() == self.deep_view().patches,
    {
        self.patches
    }
}

/// Feeding a dispatch its answers one after the other gives the outcome of the
/// whole list: as long as no answer is an error, the dispatch holds the patches
/// of the outcome and stands behind as many calls as answers.
pub proof fn law_dispatch_folds_answers(
    event: HookEvent,
    plugin_ids: Seq<Seq<char>>,
    results: Seq<HookResultView>,
    next: HookResultView,
)
    requires
        results.len() < plugin_ids.len(),
    ensures
        dispatch_outcome(event, plugin_ids, results) matches Ok(patches) ==> dispatch_outcome(
            event,
            plugin_ids,
            results.push(next),
        ) == absorbed(event, plugin_ids[results.len() as int], patches, next),
        dispatch_outcome(event, plugin_ids, results) matches Err(error) ==> dispatch_outcome(
            event,
            plugin_ids,
            results.push(next),
        ) == Err::<Seq<HookPatchView>, AgentErrorView>(error),
{
    assert(results.push(next).drop_last() =~= results);
}

/// Every patch of a successful dispatch belongs to the event; an event that
/// does not take patches yields none.
pub proof fn law_patches_match_event(
    event: HookEvent,
    plugin_ids: Seq<Seq<char>>,
    results: Seq<HookResultView>,
)
    ensures
        dispatch_outcome(event, plugin_ids, results) matches Ok(patches) ==> {
            &&& patches.len() <= results.len()
            &&& forall|i: int|
                0 <= i < patches.len() ==> patch_matches(#[trigger] patches[i], event)
            &&& !(event is TurnStart || event is BeforeToolUse) ==> patches.len() == 0
        },
    decreases results.len(),
{
    if results.len() > 0 {
        law_patches_match_event(event, plugin_ids, results.drop_last());
    }
}

/// A dispatch succeeds exactly where no handler aborts and every patch belongs
/// to the event.
pub proof fn law_dispatch_success(
    event: HookEvent,
    plugin_ids: Seq<Seq<char>>,
    results: Seq<HookResultView>,
)
    ensures
        dispatch_outcome(event, plugin_ids, results) is Ok <==> forall|i: int|
            0 <= i < results.len() ==> match #[trigger] results[i] {
                HookResultView::Continue => true,
                HookResultView::ContinueWith(patch) => patch_matches(patch, event),
                HookResultView::Abort(_) => false,
            },
    decreases results.len(),
{
    if results.len() > 0 {
        let front = results.drop_last();
        law_dispatch_success(event, plugin_ids, front);
        assert forall|i: int| 0 <= i < front.len() implies front[i] == results[i] by {}
        if dispatch_outcome(event, plugin_ids, results) is Ok {
            assert forall|i: int| 0 <= i < results.len() implies match #[trigger] results[i] {
                HookResultView::Continue => true,
                HookResultView::ContinueWith(patch) => patch_matches(patch, event),
                HookResultView::Abort(_) => false,
            } by {
                if i < front.len() {
                    assert(front[i] == results[i]);
                }
            }
        } else {
            if dispatch_outcome(event, plugin_ids, front) is Ok {
                assert(results[results.len() - 1] == results.last());
            }
        }
    }
}

} // verus!
