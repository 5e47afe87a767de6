//! The built agent: its registries and what its requests check first.

use crate::application::hook_registry::HookRegistry;
use crate::application::session_control::{
    fresh_control, holds, shutdown_begun, AgentControl, ControlView, ShutdownStart,
};
use crate::application::session_service::{
    creation_begun, opening_sound, resumption_begun, SessionOpening,
};
use crate::application::skill_manager::SkillManager;
use crate::application::stream::{provider_error, provider_failure};
use crate::application::tool_dispatcher::RegisteredTool;
use crate::clock::id_shaped;
use crate::domain::config::{AgentConfig, SessionConfig};
use crate::domain::error::{outcome, AgentError, AgentErrorView, ErrorSource, Result};
use crate::ports::model::{ModelInfo, ModelInfoView};
use crate::ports::plugin::PluginDescriptor;
use crate::ports::storage::{SessionPage, SessionSummary};
use crate::registry::Registry;
use std::sync::Arc;
use vstd::prelude::*;
use vstd::string::*;

verus! {

/// A registered model.
#[derive(Debug, PartialEq, Eq)]
pub struct RegisteredModel {
    /// Id of the provider that offers the model.
    pub provider_id: String,
    /// The model.
    pub info: ModelInfo,
    /// Number of tokens above which a context is compacted first.
    pub compact_limit: usize,
}

/// Model of [`RegisteredModel`].
#[verifier::ext_equal]
pub struct RegisteredView {
    pub provider_id: Seq<char>,
    pub info: ModelInfoView,
    pub compact_limit: usize,
}

impl DeepView for RegisteredModel {
    type V = RegisteredView;

    open spec fn deep_view(&self) -> RegisteredView {
        RegisteredView {
            provider_id: self.provider_id@,
            info: self.info.deep_view(),
            compact_limit: self.compact_limit,
        }
    }
}

/// Registered providers and models, by their ids.
pub struct ModelRegistry {
    providers: Registry<()>,
    models: Registry<RegisteredModel>,
}

impl ModelRegistry {
    /// Whether a provider is registered.
    pub closed spec fn has_provider(self, id: Seq<char>) -> bool {
        self.providers.find(id) is Some
    }

    /// The model registered under an id.
    pub closed spec fn model(self, id: Seq<char>) -> Option<RegisteredView> {
        match self.models.find(id) {
            Some(model) => Some(model.deep_view()),
            None => None,
        }
    }

    /// The ids of the providers, in order of registration.
    pub closed spec fn provider_ids(self) -> Seq<Seq<char>> {
        self.providers.keys()
    }

    /// The ids of the models, in order of registration.
    pub closed spec fn model_ids(self) -> Seq<Seq<char>> {
        self.models.keys()
    }

    /// The ids of all registered models.
    pub open spec fn known_models(self) -> Set<Seq<char>> {
        Set::new(|id: Seq<char>| self.model(id) is Some)
    }

    /// A registry without providers and models.
    pub fn new() -> (r: Self)
        ensures
            forall|id: Seq<char>| !(#[trigger] r.has_provider(id)),
            forall|id: Seq<char>| (#[trigger] r.model(id)) is None,
            r.provider_ids() == Seq::<Seq<char>>::empty(),
            r.model_ids() == Seq::<Seq<char>>::empty(),
    {
        ModelRegistry { providers: Registry::new(), models: Registry::new() }
    }

    /// Adds a provider, behind those that are there.
    pub fn with_provider(self, id: &str) -> (r: Self)
        ensures
            forall|name: Seq<char>| #[trigger]
                r.has_provider(name) == (name == id@ || self.has_provider(name)),
            forall|name: Seq<char>| #[trigger] r.model(name) == self.model(name),
            r.provider_ids() == (if self.has_provider(id@) {
                self.provider_ids()
            } else {
                self.provider_ids().push(id@)
            }),
            r.model_ids() == self.model_ids(),
    {
        ModelRegistry { providers: self.providers.insert(id.to_owned(), ()), models: self.models }
    }

    /// Adds a model under its id, behind those that are there.
    pub fn with_model(self, model: RegisteredModel) -> (r: Self)
        ensures
            forall|name: Seq<char>| #[trigger] r.has_provider(name) == self.has_provider(name),
            forall|name: Seq<char>| #[trigger]
                r.model(name) == (if name == model.info.id@ {
                    Some(model.deep_view())
                } else {
                    self.model(name)
                }),
            r.provider_ids() == self.provider_ids(),
            r.model_ids() == (if self.model(model.info.id@) is Some {
                self.model_ids()
            } else {
                self.model_ids().push(model.info.id@)
            }),
    {
        ModelRegistry {
            providers: self.providers,
            models: self.models.insert(model.info.id.clone(), model),
        }
    }

    /// Whether a provider is registered.
    pub fn contains_provider(&self, provider_id: &str) -> (r: bool)
        ensures
            r == self.has_provider(provider_id@),
    {
        self.providers.get(provider_id).is_some()
    }

    /// Whether a model is registered.
    pub fn contains_model(&self, model_id: &str) -> (r: bool)
        ensures
            r == (self.model(model_id@) is Some),
    {
        self.models.get(model_id).is_some()
    }

    /// The model registered under an id.
    pub fn resolve_model(&self, model_id: &str) -> (r: Result<&RegisteredModel>)
        ensures
            match self.model(model_id@) {
                Some(model) => r matches Ok(m) && m.deep_view() == model,
                None => r matches Err(error) && error.deep_view()
                    == AgentErrorView::ModelNotSupported(model_id@),
            },
    {
        match self.models.get(model_id) {
            Some(model) => Ok(model),
            None => Err(AgentError::ModelNotSupported(model_id.to_owned())),
        }
    }

    /// Size of the context window of a model.
    pub fn resolve_context_window(&self, model_id: &str) -> (r: Result<usize>)
        ensures
            match self.model(model_id@) {
                Some(model) => r == Ok::<usize, AgentError>(model.info.context_window),
                None => r matches Err(error) && error.deep_view()
                    == AgentErrorView::ModelNotSupported(model_id@),
            },
    {
        match self.resolve_model(model_id) {
            Ok(model) => Ok(model.info.context_window),
            Err(error) => Err(error),
        }
    }

    /// Id of the provider of a model.
    pub fn resolve_provider(&self, model_id: &str) -> (r: Result<String>)
        ensures
            outcome(r) == provider_of(*self, model_id@),
    {
        let model = match self.resolve_model(model_id) {
            Ok(model) => model,
            Err(error) => {
                return Err(error);
            },
        };
        let provider_id = model.provider_id.as_str();
        if self.contains_provider(provider_id) {
            Ok(provider_id.to_owned())
        } else {
            let message = "provider '".to_owned().concat(provider_id).concat("' for model '").concat(
                model_id,
            ).concat("' is not registered");
            Err(
                provider_failure(
                    message.as_str(),
                    ErrorSource::new("model provider missing from registry"),
                ),
            )
        }
    }
}

/// The id of the provider of a model, or why there is none.
pub open spec fn provider_of(models: ModelRegistry, model_id: Seq<char>) -> std::result::Result<
    Seq<char>,
    AgentErrorView,
> {
    match models.model(model_id) {
        None => Err(AgentErrorView::ModelNotSupported(model_id)),
        Some(model) => if models.has_provider(model.provider_id) {
            Ok(model.provider_id)
        } else {
            Err(
                provider_error(
                    "provider '"@ + model.provider_id + "' for model '"@ + model_id
                        + "' is not registered"@,
                    seq!["model provider missing from registry"@],
                ),
            )
        },
    }
}

/// Everything of an agent that does not change once it is built.
pub struct AgentKernel {
    /// Configuration.
    pub config: AgentConfig,
    /// Providers and models.
    pub models: ModelRegistry,
    /// Tools, in order of registration.
    pub tools: Registry<RegisteredTool>,
    /// Skills.
    pub skills: SkillManager,
    /// Plugins, in order of registration.
    pub plugins: Vec<PluginDescriptor>,
    /// Hooks of the plugins.
    pub hooks: HookRegistry,
    /// Whether sessions are stored.
    pub has_session_storage: bool,
    /// Whether memories are stored.
    pub has_memory_storage: bool,
}

/// The error for a request that needs a session storage.
pub open spec fn no_session_storage() -> AgentErrorView {
    AgentErrorView::StorageError(seq!["SessionStorage not registered"@])
}

impl AgentKernel {
    /// Refuses a request that needs a session storage where there is none.
    pub fn require_session_storage(&self) -> (r: Result<()>)
        ensures
            outcome(r) == (if self.has_session_storage {
                Ok::<(), AgentErrorView>(())
            } else {
                Err(no_session_storage())
            }),
    {
        if self.has_session_storage {
            Ok(())
        } else {
            Err(AgentError::StorageError(ErrorSource::new("SessionStorage not registered")))
        }
    }
}

/// Whether sessions can be listed or searched.
pub open spec fn discovery_check(c: ControlView, has_storage: bool) -> std::result::Result<
    (),
    AgentErrorView,
> {
    if !(c.lifecycle is Running) {
        Err(AgentErrorView::AgentShutdown)
    } else if !has_storage {
        Err(no_session_storage())
    } else {
        Ok(())
    }
}

/// Whether a session can be deleted.
pub open spec fn deletion_check(c: ControlView, id: Seq<char>, has_storage: bool) -> std::result::Result<
    (),
    AgentErrorView,
> {
    if !(c.lifecycle is Running) {
        Err(AgentErrorView::AgentShutdown)
    } else if holds(c, id) {
        Err(AgentErrorView::SessionBusy)
    } else if !has_storage {
        Err(no_session_storage())
    } else {
        Ok(())
    }
}

/// An agent.
pub struct Agent {
    /// What does not change; turns share it.
    pub kernel: Arc<AgentKernel>,
    /// Lifecycle and session slot.
    pub control: AgentControl,
}

impl Agent {
    /// An agent without a session.
    pub fn new(kernel: AgentKernel) -> (r: Self)
        ensures
            *r.kernel == kernel,
            r.control.deep_view() == fresh_control(),
    {
        Agent { kernel: Arc::new(kernel), control: AgentControl::new() }
    }

    /// Begins to open a new session.
    pub fn new_session(&mut self, config: SessionConfig) -> (r: Result<SessionOpening>)
        ensures
            final(self).kernel == old(self).kernel,
            exists|session_id: Seq<char>, reservation_id: Seq<char>|
                id_shaped(session_id) && id_shaped(reservation_id) && (
                    final(self).control.deep_view(),
                    outcome(r),
                ) == #[trigger] creation_begun(
                    *old(self).kernel,
                    old(self).control.deep_view(),
                    config.deep_view(),
                    session_id,
                    reservation_id,
                ),
            r matches Ok(opening) ==> opening_sound(opening.deep_view()),
    {
        SessionOpening::create(&self.kernel, &mut self.control, config)
    }

    /// Begins to open a stored session.
    pub fn resume_session(&mut self, session_id: &str) -> (r: Result<SessionOpening>)
        ensures
            final(self).kernel == old(self).kernel,
            exists|reservation_id: Seq<char>|
                id_shaped(reservation_id) && (final(self).control.deep_view(), outcome(r))
                    == #[trigger] resumption_begun(
                    *old(self).kernel,
                    old(self).control.deep_view(),
                    session_id@,
                    reservation_id,
                ),
            r matches Ok(opening) ==> opening_sound(opening.deep_view()),
    {
        SessionOpening::resume(&self.kernel, &mut self.control, session_id)
    }

    /// Begins to shut the agent down; tells what comes next.
    pub fn shutdown(&mut self) -> (r: ShutdownStart)
        ensures
            final(self).kernel == old(self).kernel,
            (final(self).control.deep_view(), r.deep_view()) == shutdown_begun(
                old(self).control.deep_view(),
            ),
    {
        self.control.begin_shutdown()
    }

    /// Checks whether stored sessions can be listed or searched.
    pub fn begin_discovery(&self) -> (r: Result<()>)
        ensures
            outcome(r) == discovery_check(
                self.control.deep_view(),
                self.kernel.has_session_storage,
            ),
    {
        match self.control.ensure_running() {
            Ok(_) => self.kernel.require_session_storage(),
            Err(error) => Err(error),
        }
    }

    /// Takes the outcome of listing stored sessions.
    pub fn list_sessions(
        &self,
        listed: std::result::Result<SessionPage, ErrorSource>,
    ) -> (r: Result<SessionPage>)
        ensures
            match discovery_check(self.control.deep_view(), self.kernel.has_session_storage) {
                Err(refusal) => r matches Err(error) && error.deep_view() == refusal,
                Ok(_) => match listed {
                    Ok(page) => r matches Ok(p) && p == page,
                    Err(source) => r matches Err(error) && error.deep_view()
                        == AgentErrorView::StorageError(
                        seq!["failed to list sessions from session storage"@]
                            + source.deep_view(),
                    ),
                },
            },
    {
        match self.begin_discovery() {
            Ok(_) => {},
            Err(error) => {
                return Err(error);
            },
        }
        match listed {
            Ok(page) => Ok(page),
            Err(source) => Err(
                AgentError::StorageError(
                    source.context("failed to list sessions from session storage"),
                ),
            ),
        }
    }

    /// Takes the outcome of a search for stored sessions.
    pub fn find_sessions(
        &self,
        found: std::result::Result<Vec<SessionSummary>, ErrorSource>,
    ) -> (r: Result<Vec<SessionSummary>>)
        ensures
            match discovery_check(self.control.deep_view(), self.kernel.has_session_storage) {
                Err(refusal) => r matches Err(error) && error.deep_view() == refusal,
                Ok(_) => match found {
                    Ok(summaries) => r matches Ok(s) && s == summaries,
                    Err(source) => r matches Err(error) && error.deep_view()
                        == AgentErrorView::StorageError(
                        seq!["failed to search sessions from session storage"@]
                            + source.deep_view(),
                    ),
                },
            },
    {
        match self.begin_discovery() {
            Ok(_) => {},
            Err(error) => {
                return Err(error);
            },
        }
        match found {
            Ok(summaries) => Ok(summaries),
            Err(source) => Err(
                AgentError::StorageError(
                    source.context("failed to search sessions from session storage"),
                ),
            ),
        }
    }

    /// Checks whether a session can be deleted.
    pub fn begin_deletion(&self, session_id: &str) -> (r: Result<()>)
        ensures
            outcome(r) == deletion_check(
                self.control.deep_view(),
                session_id@,
                self.kernel.has_session_storage,
            ),
    {
        match self.control.ensure_running() {
            Ok(_) => {},
            Err(error) => {
                return Err(error);
            },
        }
        match self.control.ensure_session_not_active(session_id) {
            Ok(_) => self.kernel.require_session_storage(),
            Err(error) => Err(error),
        }
    }

    /// Takes the outcome of deleting a session.
    pub fn delete_session(
        &self,
        session_id: &str,
        deleted: std::result::Result<(), ErrorSource>,
    ) -> (r: Result<()>)
        ensures
            match deletion_check(
                self.control.deep_view(),
                session_id@,
                self.kernel.has_session_storage,
            ) {
                Err(refusal) => r matches Err(error) && error.deep_view() == refusal,
                Ok(_) => match deleted {
                    Ok(_) => r is Ok,
                    Err(source) => r matches Err(error) && error.deep_view()
                        == AgentErrorView::StorageError(
                        seq!["failed to delete session '"@ + session_id@ + "'"@]
                            + source.deep_view(),
                    ),
                },
            },
    {
        match self.begin_deletion(session_id) {
            Ok(_) => {},
            Err(error) => {
                return Err(error);
            },
        }
        match deleted {
            Ok(_) => Ok(()),
            Err(source) => {
                let message = "failed to delete session '".to_owned().concat(session_id).concat("'");
                Err(AgentError::StorageError(source.context(message.as_str())))
            },
        }
    }
}

} // verus!
