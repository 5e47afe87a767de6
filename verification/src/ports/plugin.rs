//! Plugin descriptions and the registration of their hooks.

use crate::domain::error::{AgentError, AgentErrorView, Result};
use crate::domain::hook::{hook_name, HookEvent};
use crate::json::JsonValue;
use vstd::prelude::*;
use vstd::string::*;

verus! {

broadcast use vstd::std_specs::vec::vec_clone_deep_view_proof;

/// Static description of a plugin.
#[derive(Debug, PartialEq, Eq)]
pub struct PluginDescriptor {
    /// Unique id.
    pub id: String,
    /// Name shown to the user.
    pub display_name: String,
    /// Description shown in the prompt.
    pub description: String,
    /// Hooks that the plugin declares.
    pub tapped_hooks: Vec<HookEvent>,
}

/// Model of [`PluginDescriptor`].
#[verifier::ext_equal]
pub struct PluginView {
    pub id: Seq<char>,
    pub display_name: Seq<char>,
    pub description: Seq<char>,
    pub tapped_hooks: Seq<HookEvent>,
}

impl DeepView for PluginDescriptor {
    type V = PluginView;

    open spec fn deep_view(&self) -> PluginView {
        PluginView {
            id: self.id@,
            display_name: self.display_name@,
            description: self.description@,
            tapped_hooks: self.tapped_hooks@,
        }
    }
}

impl Clone for PluginDescriptor {
    fn clone(&self) -> (r: Self)
        ensures
            r.deep_view() == self.deep_view(),
    {
        let tapped_hooks = self.tapped_hooks.clone();
        assert(tapped_hooks@ =~= self.tapped_hooks@);
        PluginDescriptor {
            id: self.id.clone(),
            display_name: self.display_name.clone(),
            description: self.description.clone(),
            tapped_hooks,
        }
    }
}

/// One handler that a plugin registered. The handler itself belongs to the
/// host, which finds it by its number.
#[derive(Debug, PartialEq, Eq)]
pub struct HookRegistration {
    /// The hook.
    pub event: HookEvent,
    /// Id of the plugin.
    pub plugin_id: String,
    /// Configuration of the plugin.
    pub plugin_config: JsonValue,
    /// Number of the handler at the host.
    pub handler: usize,
}

/// Model of [`HookRegistration`].
#[verifier::ext_equal]
pub struct RegistrationView {
    pub event: HookEvent,
    pub plugin_id: Seq<char>,
    pub plugin_config: Seq<char>,
    pub handler: usize,
}

impl DeepView for HookRegistration {
    type V = RegistrationView;

    open spec fn deep_view(&self) -> RegistrationView {
        RegistrationView {
            event: self.event,
            plugin_id: self.plugin_id@,
            plugin_config: self.plugin_config.deep_view(),
            handler: self.handler,
        }
    }
}

/// The error for a hook that the descriptor does not declare.
pub open spec fn undeclared_hook(plugin_id: Seq<char>, event: HookEvent) -> AgentErrorView {
    AgentErrorView::PluginHookContractViolation {
        plugin_id,
        message: "attempted to tap undeclared hook "@ + hook_name(event),
    }
}

/// Collects the hooks that a plugin registers.
#[derive(Debug)]
pub struct PluginContext {
    descriptor: PluginDescriptor,
    plugin_config: JsonValue,
    registrations: Vec<HookRegistration>,
    first_error: Option<AgentError>,
}

/// Model of [`PluginContext`].
#[verifier::ext_equal]
pub struct PluginContextView {
    pub descriptor: PluginView,
    pub plugin_config: Seq<char>,
    pub registrations: Seq<RegistrationView>,
    pub first_error: Option<AgentErrorView>,
}

impl DeepView for PluginContext {
    type V = PluginContextView;

    closed spec fn deep_view(&self) -> PluginContextView {
        PluginContextView {
            descriptor: self.descriptor.deep_view(),
            plugin_config: self.plugin_config.deep_view(),
            registrations: self.registrations.deep_view(),
            first_error: self.first_error.deep_view(),
        }
    }
}

/// What remains of a context after a plugin tapped `event`.
pub open spec fn tapped(
    context: PluginContextView,
    event: HookEvent,
    handler: usize,
) -> PluginContextView {
    if context.descriptor.tapped_hooks.contains(event) {
        PluginContextView {
            registrations: context.registrations.push(
                RegistrationView {
                    event,
                    plugin_id: context.descriptor.id,
                    plugin_config: context.plugin_config,
                    handler,
                },
            ),
            ..context
        }
    } else if context.first_error is None {
        PluginContextView {
            first_error: Some(undeclared_hook(context.descriptor.id, event)),
            ..context
        }
    } else {
        context
    }
}

fn declares(hooks: &Vec<HookEvent>, event: HookEvent) -> (r: bool)
    ensures
        r == hooks@.contains(event),
{
    let mut i: usize = 0;
    while i < hooks.len()
        invariant
            i <= hooks.len(),
            forall|j: int| 0 <= j < i ==> hooks@[j] != event,
        decreases hooks.len() - i,
    {
        if hooks[i] == event {
            return true;
        }
        i += 1;
    }
    false
}

impl PluginContext {
    /// A context without registrations.
    pub fn new(descriptor: PluginDescriptor, plugin_config: JsonValue) -> (r: Self)
        ensures
            r.deep_view() == (PluginContextView {
                descriptor: descriptor.deep_view(),
                plugin_config: plugin_config.deep_view(),
                registrations: Seq::empty(),
                first_error: None,
            }),
    {
        let r = PluginContext {
            descriptor,
            plugin_config,
            registrations: Vec::new(),
            first_error: None,
        };
        assert(r.registrations.deep_view() =~= Seq::<RegistrationView>::empty());
        r
    }

    /// Registers a handler for a declared hook; an undeclared one is refused,
    /// and the first refusal is kept.
    pub fn tap(&mut self, event: HookEvent, handler: usize) -> (r: Result<()>)
        ensures
            final(self).deep_view() == tapped(old(self).deep_view(), event, handler),
            match r {
                Ok(_) => old(self).deep_view().descriptor.tapped_hooks.contains(event),
                Err(error) => !old(self).deep_view().descriptor.tapped_hooks.contains(event)
                    && error.deep_view() == undeclared_hook(
                    old(self).deep_view().descriptor.id,
                    event,
                ),
            },
    {
        match self.validate_tap(event) {
            Ok(_) => {
                self.registrations.push(
                    HookRegistration {
                        event,
                        plugin_id: self.descriptor.id.clone(),
                        plugin_config: self.plugin_config.clone(),
                        handler,
                    },
                );
                proof {
                    assert(self.deep_view().registrations =~= tapped(
                        old(self).deep_view(),
                        event,
                        handler,
                    ).registrations);
                }
                Ok(())
            },
            Err(error) => Err(error),
        }
    }

    fn validate_tap(&mut self, event: HookEvent) -> (r: Result<()>)
        ensures
            match r {
                Ok(_) => old(self).deep_view().descriptor.tapped_hooks.contains(event)
                    && *final(self) == *old(self),
                Err(error) => !old(self).deep_view().descriptor.tapped_hooks.contains(event)
                    && error.deep_view() == undeclared_hook(
                    old(self).deep_view().descriptor.id,
                    event,
                ) && final(self).deep_view() == tapped(old(self).deep_view(), event, 0),
            },
    {
        if declares(&self.descriptor.tapped_hooks, event) {
            return Ok(());
        }
        let error = AgentError::PluginHookContractViolation {
            plugin_id: self.descriptor.id.clone(),
            message: "attempted to tap undeclared hook ".to_owned().concat(event.as_str()),
        };
        if self.first_error.is_none() {
            self.first_error = Some(error.clone());
        }
        Err(error)
    }

    /// The description of the plugin.
    pub fn descriptor(&self) -> (r: &PluginDescriptor)
        ensures
            r.deep_view() == self.deep_view().descriptor,
    {
        &self.descriptor
    }

    /// The registrations, or the first violation.
    pub fn finish(self) -> (r: Result<Vec<HookRegistration>>)
        ensures
            match self.deep_view().first_error {
                Some(error) => r matches Err(e) && e.deep_view() == error,
                None => r matches Ok(registrations) && registrations.deep_view()
                    == self.deep_view().registrations,
            },
    {
        match self.first_error {
            Some(error) => Err(error),
            None => Ok(self.registrations),
        }
    }
}

} // verus!
