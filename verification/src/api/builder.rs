//! Building an agent: what is registered is checked before any plugin starts.

use crate::api::agent::{Agent, AgentKernel, ModelRegistry, RegisteredModel, RegisteredView};
use crate::application::plugin_manager::{
    first_stage, lemma_repeated_prefix, plugin_ids, repeated, ConfiguredPlugin, ConfiguredView,
    PluginBuild, PluginManager, PluginStageView,
};
use crate::application::session_control::fresh_control;
use crate::application::skill_manager::{latest_definitions, SkillManager};
use crate::application::tool_dispatcher::{RegisteredTool, RegisteredToolView};
use crate::domain::config::AgentConfig;
use crate::domain::error::{invalid_input, outcome, AgentError, AgentErrorView, Result};
use crate::domain::hook::HookEvent;
use crate::domain::types::{SkillDefinition, SkillView};
use crate::json::JsonValue;
use crate::ports::model::{ModelInfo, ModelInfoView};
use crate::ports::plugin::{PluginDescriptor, RegistrationView};
use crate::registry::Registry;
use crate::text::is_blank;
use vstd::prelude::*;
use vstd::string::*;

verus! {

broadcast use vstd::std_specs::vec::vec_clone_deep_view_proof;

/// A model that a provider offers.
#[derive(Debug, PartialEq, Eq)]
pub struct ModelOffer {
    /// The model.
    pub info: ModelInfo,
    /// Number of tokens above which a context is compacted first.
    pub compact_limit: usize,
}

/// Model of [`ModelOffer`].
#[verifier::ext_equal]
pub struct ModelOfferView {
    pub info: ModelInfoView,
    pub compact_limit: usize,
}

impl DeepView for ModelOffer {
    type V = ModelOfferView;

    open spec fn deep_view(&self) -> ModelOfferView {
        ModelOfferView { info: self.info.deep_view(), compact_limit: self.compact_limit }
    }
}

/// A provider and its models. The provider itself belongs to the host, which
/// finds it by its id.
#[derive(Debug, PartialEq, Eq)]
pub struct ProviderOffer {
    /// Id of the provider.
    pub id: String,
    /// Its models.
    pub models: Vec<ModelOffer>,
}

/// Model of [`ProviderOffer`].
#[verifier::ext_equal]
pub struct ProviderOfferView {
    pub id: Seq<char>,
    pub models: Seq<ModelOfferView>,
}

impl DeepView for ProviderOffer {
    type V = ProviderOfferView;

    open spec fn deep_view(&self) -> ProviderOfferView {
        ProviderOfferView { id: self.id@, models: self.models.deep_view() }
    }
}

/// Marks a builder without a provider.
#[derive(Debug, Clone, Copy, PartialEq, Eq, Structural)]
pub struct NoProvider;

/// Marks a builder with at least one provider.
#[derive(Debug, Clone, Copy, PartialEq, Eq, Structural)]
pub struct HasProvider;

// ---------------------------------------------------------------------------
// Checks of the configuration
// ---------------------------------------------------------------------------
/// A name taken twice.
pub open spec fn conflict(kind: Seq<char>, name: Seq<char>) -> AgentErrorView {
    AgentErrorView::NameConflict { kind, name }
}

/// Refuses a storage that is registered more than once.
pub fn validate_storage_duplicate(kind: &'static str, count: usize) -> (r: Result<()>)
    ensures
        outcome(r) == (if count > 1 {
            Err::<(), AgentErrorView>(AgentErrorView::StorageDuplicate { kind: kind@ })
        } else {
            Ok(())
        }),
{
    if count > 1 {
        Err(AgentError::StorageDuplicate { kind })
    } else {
        Ok(())
    }
}

/// The error for a setting that must not be zero.
pub open spec fn not_positive(name: Seq<char>) -> AgentErrorView {
    AgentErrorView::InputValidation { message: name + " must be greater than 0"@ }
}

/// Refuses zero.
pub fn validate_positive_u64(name: &'static str, value: u64) -> (r: Result<()>)
    ensures
        outcome(r) == (if value == 0 {
            Err::<(), AgentErrorView>(not_positive(name@))
        } else {
            Ok(())
        }),
{
    if value == 0 {
        Err(AgentError::InputValidation { message: name.to_owned().concat(" must be greater than 0") })
    } else {
        Ok(())
    }
}

/// Refuses zero.
pub fn validate_positive_usize(name: &'static str, value: usize) -> (r: Result<()>)
    ensures
        outcome(r) == (if value == 0 {
            Err::<(), AgentErrorView>(not_positive(name@))
        } else {
            Ok(())
        }),
{
    if value == 0 {
        Err(AgentError::InputValidation { message: name.to_owned().concat(" must be greater than 0") })
    } else {
        Ok(())
    }
}

/// What is wrong with the storages and settings, if anything.
pub open spec fn setting_problem(
    config: AgentConfig,
    providers: int,
    session_storages: usize,
    memory_storages: usize,
) -> Option<AgentErrorView> {
    if session_storages > 1 {
        Some(AgentErrorView::StorageDuplicate { kind: "session"@ })
    } else if memory_storages > 1 {
        Some(AgentErrorView::StorageDuplicate { kind: "memory"@ })
    } else if providers == 0 {
        Some(AgentErrorView::NoModelProvider)
    } else if !config.compact_threshold_in_range {
        Some(
            AgentErrorView::InputValidation { message: "compact_threshold must be in (0, 1)"@ },
        )
    } else if config.tool_timeout_ms == 0 {
        Some(not_positive("tool_timeout_ms"@))
    } else if config.max_tool_calls_per_turn == 0 {
        Some(not_positive("max_tool_calls_per_turn"@))
    } else if config.memory_checkpoint_interval == 0 {
        Some(not_positive("memory_checkpoint_interval"@))
    } else if config.memory_max_items == 0 {
        Some(not_positive("memory_max_items"@))
    } else if config.tool_output_max_bytes <= config.tool_output_metadata_max_bytes {
        Some(
            AgentErrorView::InputValidation {
                message:
                    "tool_output_max_bytes must be greater than tool_output_metadata_max_bytes"@,
            },
        )
    } else if is_blank(config.memory_namespace@) {
        Some(AgentErrorView::InputValidation { message: "memory_namespace must not be empty"@ })
    } else if is_blank(config.default_model@) {
        Some(AgentErrorView::InputValidation { message: "default_model must not be empty"@ })
    } else {
        None
    }
}

/// Checks storages and settings.
pub fn validate_settings(
    config: &AgentConfig,
    providers: usize,
    session_storages: usize,
    memory_storages: usize,
) -> (r: Result<()>)
    ensures
        match setting_problem(*config, providers as int, session_storages, memory_storages) {
            Some(problem) => r matches Err(error) && error.deep_view() == problem,
            None => r is Ok,
        },
{
    match validate_storage_duplicate("session", session_storages) {
        Ok(_) => {},
        Err(error) => {
            return Err(error);
        },
    }
    match validate_storage_duplicate("memory", memory_storages) {
        Ok(_) => {},
        Err(error) => {
            return Err(error);
        },
    }
    if providers == 0 {
        return Err(AgentError::NoModelProvider);
    }
    if !config.compact_threshold_in_range {
        return Err(invalid_input("compact_threshold must be in (0, 1)"));
    }
    match validate_positive_u64("tool_timeout_ms", config.tool_timeout_ms) {
        Ok(_) => {},
        Err(error) => {
            return Err(error);
        },
    }
    match validate_positive_usize("max_tool_calls_per_turn", config.max_tool_calls_per_turn) {
        Ok(_) => {},
        Err(error) => {
            return Err(error);
        },
    }
    match validate_positive_u64("memory_checkpoint_interval", config.memory_checkpoint_interval) {
        Ok(_) => {},
        Err(error) => {
            return Err(error);
        },
    }
    match validate_positive_usize("memory_max_items", config.memory_max_items) {
        Ok(_) => {},
        Err(error) => {
            return Err(error);
        },
    }
    if config.tool_output_max_bytes <= config.tool_output_metadata_max_bytes {
        return Err(
            invalid_input(
                "tool_output_max_bytes must be greater than tool_output_metadata_max_bytes",
            ),
        );
    }
    if config.memory_namespace.as_str().trim().is_empty() {
        return Err(invalid_input("memory_namespace must not be empty"));
    }
    if config.default_model.as_str().trim().is_empty() {
        return Err(invalid_input("default_model must not be empty"));
    }
    Ok(())
}

// ---------------------------------------------------------------------------
// Models
// ---------------------------------------------------------------------------
/// Models by id after a provider's models have been added one after the other;
/// an id must not be taken.
pub open spec fn with_models(
    models: Map<Seq<char>, RegisteredView>,
    provider_id: Seq<char>,
    offers: Seq<ModelOfferView>,
) -> std::result::Result<Map<Seq<char>, RegisteredView>, AgentErrorView>
    decreases offers.len(),
{
    if offers.len() == 0 {
        Ok(models)
    } else {
        match with_models(models, provider_id, offers.drop_last()) {
            Err(error) => Err(error),
            Ok(before) => {
                let offer = offers.last();
                if before.contains_key(offer.info.id) {
                    Err(conflict("model"@, offer.info.id))
                } else {
                    Ok(
                        before.insert(
                            offer.info.id,
                            RegisteredView {
                                provider_id,
                                info: offer.info,
                                compact_limit: offer.compact_limit,
                            },
                        ),
                    )
                }
            },
        }
    }
}

/// Providers and models after all providers have been added one after the
/// other; a provider id must not be taken.
pub open spec fn models_of(providers: Seq<ProviderOfferView>) -> std::result::Result<
    (Set<Seq<char>>, Map<Seq<char>, RegisteredView>),
    AgentErrorView,
>
    decreases providers.len(),
{
    if providers.len() == 0 {
        Ok((Set::empty(), Map::empty()))
    } else {
        match models_of(providers.drop_last()) {
            Err(error) => Err(error),
            Ok((ids, models)) => {
                let provider = providers.last();
                if ids.contains(provider.id) {
                    Err(conflict("model provider"@, provider.id))
                } else {
                    match with_models(models, provider.id, provider.models) {
                        Err(error) => Err(error),
                        Ok(more) => Ok((ids.insert(provider.id), more)),
                    }
                }
            },
        }
    }
}

/// Whether a registry holds exactly the given providers and models.
pub open spec fn registers(
    registry: ModelRegistry,
    ids: Set<Seq<char>>,
    models: Map<Seq<char>, RegisteredView>,
) -> bool {
    &&& forall|id: Seq<char>| #[trigger] registry.has_provider(id) == ids.contains(id)
    &&& forall|id: Seq<char>| #[trigger]
        registry.model(id) == (if models.contains_key(id) {
            Some(models[id])
        } else {
            None
        })
}

/// The ids of providers, in order.
pub open spec fn provider_ids_of(providers: Seq<ProviderOfferView>) -> Seq<Seq<char>> {
    providers.map_values(|provider: ProviderOfferView| provider.id)
}

/// The ids of offered models, in order.
pub open spec fn offer_ids(offers: Seq<ModelOfferView>) -> Seq<Seq<char>> {
    offers.map_values(|offer: ModelOfferView| offer.info.id)
}

/// The ids of the models of all providers, in order.
pub open spec fn model_ids_of(providers: Seq<ProviderOfferView>) -> Seq<Seq<char>>
    decreases providers.len(),
{
    if providers.len() == 0 {
        Seq::empty()
    } else {
        model_ids_of(providers.drop_last()) + offer_ids(providers.last().models)
    }
}

proof fn lemma_with_models_prefix(
    models: Map<Seq<char>, RegisteredView>,
    provider_id: Seq<char>,
    offers: Seq<ModelOfferView>,
    count: int,
)
    requires
        0 <= count <= offers.len(),
        with_models(models, provider_id, offers.take(count)) is Err,
    ensures
        with_models(models, provider_id, offers) == with_models(
            models,
            provider_id,
            offers.take(count),
        ),
    decreases offers.len() - count,
{
    if count == offers.len() {
        assert(offers.take(count) =~= offers);
    } else {
        assert(offers.take(count + 1).drop_last() =~= offers.take(count));
        lemma_with_models_prefix(models, provider_id, offers, count + 1);
    }
}

proof fn lemma_models_of_prefix(providers: Seq<ProviderOfferView>, count: int)
    requires
        0 <= count <= providers.len(),
        models_of(providers.take(count)) is Err,
    ensures
        models_of(providers) == models_of(providers.take(count)),
    decreases providers.len() - count,
{
    if count == providers.len() {
        assert(providers.take(count) =~= providers);
    } else {
        assert(providers.take(count + 1).drop_last() =~= providers.take(count));
        lemma_models_of_prefix(providers, count + 1);
    }
}

fn add_models(
    registry: ModelRegistry,
    provider_id: &str,
    offers: &Vec<ModelOffer>,
    Ghost(ids): Ghost<Set<Seq<char>>>,
    Ghost(models): Ghost<Map<Seq<char>, RegisteredView>>,
) -> (r: Result<ModelRegistry>)
    requires
        registers(registry, ids, models),
    ensures
        match with_models(models, provider_id@, offers.deep_view()) {
            Ok(more) => r matches Ok(after) && {
                &&& registers(after, ids, more)
                &&& after.provider_ids() == registry.provider_ids()
                &&& after.model_ids() == registry.model_ids() + offer_ids(offers.deep_view())
            },
            Err(problem) => r matches Err(error) && error.deep_view() == problem,
        },
{
    let ghost all = offers.deep_view();
    let ghost mut known = models;
    let ghost before = registry;
    let mut registry = registry;
    let mut i: usize = 0;
    proof {
        assert(before.model_ids() + offer_ids(all.take(0)) =~= before.model_ids());
    }
    while i < offers.len()
        invariant
            i <= offers.len(),
            all == offers.deep_view(),
            registers(registry, ids, known),
            registry.provider_ids() == before.provider_ids(),
            registry.model_ids() == before.model_ids() + offer_ids(all.take(i as int)),
            with_models(models, provider_id@, all.take(i as int)) == Ok::<_, AgentErrorView>(known),
        decreases offers.len() - i,
    {
        let offer = &offers[i];
        proof {
            assert(all.take(i + 1).drop_last() =~= all.take(i as int));
            assert(all.take(i + 1).last() == offer.deep_view());
        }
        if registry.contains_model(offer.info.id.as_str()) {
            proof {
                lemma_with_models_prefix(models, provider_id@, all, i + 1);
            }
            return Err(AgentError::NameConflict { kind: "model", name: offer.info.id.clone() });
        }
        let model = RegisteredModel {
            provider_id: provider_id.to_owned(),
            info: offer.info.clone(),
            compact_limit: offer.compact_limit,
        };
        proof {
            known = known.insert(offer.info.id@, model.deep_view());
            assert(offer_ids(all.take(i + 1)) =~= offer_ids(all.take(i as int)).push(
                offer.info.id@,
            ));
            assert(before.model_ids() + offer_ids(all.take(i + 1)) =~= registry.model_ids().push(
                offer.info.id@,
            ));
        }
        registry = registry.with_model(model);
        i += 1;
    }
    proof {
        assert(all.take(all.len() as int) =~= all);
    }
    Ok(registry)
}

/// Registers providers and their models, in order.
pub fn build_model_registry(providers: &Vec<ProviderOffer>) -> (r: Result<ModelRegistry>)
    ensures
        match models_of(providers.deep_view()) {
            Ok((ids, models)) => r matches Ok(registry) && {
                &&& registers(registry, ids, models)
                &&& registry.provider_ids() == provider_ids_of(providers.deep_view())
                &&& registry.model_ids() == model_ids_of(providers.deep_view())
            },
            Err(problem) => r matches Err(error) && error.deep_view() == problem,
        },
{
    let ghost all = providers.deep_view();
    let ghost mut ids: Set<Seq<char>> = Set::empty();
    let ghost mut models: Map<Seq<char>, RegisteredView> = Map::empty();
    let mut registry = ModelRegistry::new();
    let mut i: usize = 0;
    proof {
        assert(registry.provider_ids() =~= provider_ids_of(all.take(0)));
    }
    while i < providers.len()
        invariant
            i <= providers.len(),
            all == providers.deep_view(),
            registers(registry, ids, models),
            registry.provider_ids() == provider_ids_of(all.take(i as int)),
            registry.model_ids() == model_ids_of(all.take(i as int)),
            models_of(all.take(i as int)) == Ok::<_, AgentErrorView>((ids, models)),
        decreases providers.len() - i,
    {
        let provider = &providers[i];
        proof {
            assert(all.take(i + 1).drop_last() =~= all.take(i as int));
            assert(all.take(i + 1).last() == provider.deep_view());
        }
        if registry.contains_provider(provider.id.as_str()) {
            proof {
                lemma_models_of_prefix(all, i + 1);
            }
            return Err(
                AgentError::NameConflict { kind: "model provider", name: provider.id.clone() },
            );
        }
        match add_models(
            registry,
            provider.id.as_str(),
            &provider.models,
            Ghost(ids),
            Ghost(models),
        ) {
            Ok(after) => {
                registry = after.with_provider(provider.id.as_str());
                proof {
                    models = with_models(models, provider.id@, provider.models.deep_view())->Ok_0;
                    ids = ids.insert(provider.id@);
                    assert(provider_ids_of(all.take(i + 1)) =~= provider_ids_of(
                        all.take(i as int),
                    ).push(provider.id@));
                }
            },
            Err(error) => {
                proof {
                    lemma_models_of_prefix(all, i + 1);
                }
                return Err(error);
            },
        }
        i += 1;
    }
    proof {
        assert(all.take(all.len() as int) =~= all);
    }
    Ok(registry)
}

/// What is wrong with the models named in a configuration, if anything.
pub open spec fn model_problem(config: AgentConfig, known: Set<Seq<char>>) -> Option<AgentErrorView> {
    if !known.contains(config.default_model@) {
        Some(AgentErrorView::InvalidDefaultModel(config.default_model@))
    } else if config.compact_model matches Some(model_id) && !known.contains(model_id@) {
        Some(
            AgentErrorView::InvalidModelConfig {
                kind: "compact"@,
                model_id: config.compact_model->0@,
            },
        )
    } else if config.memory_model matches Some(model_id) && !known.contains(model_id@) {
        Some(
            AgentErrorView::InvalidModelConfig {
                kind: "memory"@,
                model_id: config.memory_model->0@,
            },
        )
    } else {
        None
    }
}

/// Checks that an optional model is registered.
pub fn validate_optional_model(
    kind: &'static str,
    model_id: &Option<String>,
    registry: &ModelRegistry,
) -> (r: Result<()>)
    ensures
        match model_id {
            Some(id) => if registry.model(id@) is None {
                r matches Err(error) && error.deep_view() == (AgentErrorView::InvalidModelConfig {
                    kind: kind@,
                    model_id: id@,
                })
            } else {
                r is Ok
            },
            None => r is Ok,
        },
{
    match model_id {
        Some(id) => {
            if registry.contains_model(id.as_str()) {
                Ok(())
            } else {
                Err(AgentError::InvalidModelConfig { kind, model_id: id.clone() })
            }
        },
        None => Ok(()),
    }
}

/// Checks that the models named in a configuration are registered.
pub fn validate_model_config(config: &AgentConfig, registry: &ModelRegistry) -> (r: Result<()>)
    ensures
        match model_problem(*config, registry.known_models()) {
            Some(problem) => r matches Err(error) && error.deep_view() == problem,
            None => r is Ok,
        },
{
    if !registry.contains_model(config.default_model.as_str()) {
        return Err(AgentError::InvalidDefaultModel(config.default_model.clone()));
    }
    match validate_optional_model("compact", &config.compact_model, registry) {
        Ok(_) => {},
        Err(error) => {
            return Err(error);
        },
    }
    validate_optional_model("memory", &config.memory_model, registry)
}

// ---------------------------------------------------------------------------
// Tools and skills
// ---------------------------------------------------------------------------
/// The names of tools.
pub open spec fn tool_names(tools: Seq<RegisteredToolView>) -> Seq<Seq<char>> {
    tools.map_values(|tool: RegisteredToolView| tool.definition.name)
}

/// The views of registered tools.
pub open spec fn tool_views(tools: Registry<RegisteredTool>) -> Seq<RegisteredToolView> {
    tools.values().map_values(|tool: RegisteredTool| tool.deep_view())
}

/// Registers tools under their names; a name must not occur twice.
pub fn build_tool_registry(tools: &Vec<RegisteredTool>) -> (r: Result<Registry<RegisteredTool>>)
    ensures
        match repeated(tool_names(tools.deep_view())) {
            Some(name) => r matches Err(error) && error.deep_view() == conflict("tool"@, name),
            None => r matches Ok(registry) && {
                &&& registry.keys() == tool_names(tools.deep_view())
                &&& tool_views(registry) == tools.deep_view()
                &&& registry.paired()
            },
        },
{
    let ghost all = tools.deep_view();
    let ghost names = tool_names(all);
    let mut registry: Registry<RegisteredTool> = Registry::new();
    let mut i: usize = 0;
    proof {
        assert(registry.keys() =~= names.take(0));
        assert(tool_views(registry) =~= all.take(0));
    }
    while i < tools.len()
        invariant
            i <= tools.len(),
            all == tools.deep_view(),
            names == tool_names(all),
            registry.keys() == names.take(i as int),
            tool_views(registry) == all.take(i as int),
            repeated(names.take(i as int)) is None,
            registry.paired(),
        decreases tools.len() - i,
    {
        let tool = tools[i].clone();
        let ghost shown = tool.deep_view();
        let ghost before = registry;
        proof {
            assert(names.take(i + 1).drop_last() =~= names.take(i as int));
            assert(names[i as int] == tool.definition.name@);
            assert(names.take(i + 1).last() == tool.definition.name@);
        }
        if registry.contains(tool.definition.name.as_str()) {
            proof {
                lemma_repeated_prefix(names, i + 1);
            }
            return Err(AgentError::NameConflict { kind: "tool", name: tool.definition.name });
        }
        registry = registry.insert(tool.definition.name.clone(), tool);
        proof {
            assert(registry.keys() =~= names.take(i + 1));
            assert(tool_views(registry) =~= tool_views(before).push(shown));
            assert(tool_views(registry) =~= all.take(i + 1));
        }
        i += 1;
    }
    proof {
        assert(names.take(names.len() as int) =~= names);
        assert(all.take(all.len() as int) =~= all);
    }
    Ok(registry)
}

/// The first required tool that is not there, if any.
pub open spec fn missing_tool(required: Seq<Seq<char>>, tools: Seq<Seq<char>>) -> Option<Seq<char>>
    decreases required.len(),
{
    if required.len() == 0 {
        None
    } else {
        match missing_tool(required.drop_last(), tools) {
            Some(name) => Some(name),
            None => if tools.contains(required.last()) {
                None
            } else {
                Some(required.last())
            },
        }
    }
}

/// The names of skills.
pub open spec fn skill_names(skills: Seq<SkillView>) -> Seq<Seq<char>> {
    skills.map_values(|skill: SkillView| skill.name)
}

/// What is wrong with skills, if anything: the first one whose name is taken or
/// that lacks a tool.
pub open spec fn skill_problem(skills: Seq<SkillView>, tools: Seq<Seq<char>>) -> Option<
    AgentErrorView,
>
    decreases skills.len(),
{
    if skills.len() == 0 {
        None
    } else {
        match skill_problem(skills.drop_last(), tools) {
            Some(problem) => Some(problem),
            None => {
                let skill = skills.last();
                if skill_names(skills.drop_last()).contains(skill.name) {
                    Some(conflict("skill"@, skill.name))
                } else {
                    match missing_tool(skill.required_tools, tools) {
                        Some(tool) => Some(
                            AgentErrorView::SkillDependencyNotMet { skill: skill.name, tool },
                        ),
                        None => None,
                    }
                }
            },
        }
    }
}

proof fn lemma_missing_prefix(required: Seq<Seq<char>>, tools: Seq<Seq<char>>, count: int)
    requires
        0 <= count <= required.len(),
        missing_tool(required.take(count), tools) is Some,
    ensures
        missing_tool(required, tools) == missing_tool(required.take(count), tools),
    decreases required.len() - count,
{
    if count == required.len() {
        assert(required.take(count) =~= required);
    } else {
        assert(required.take(count + 1).drop_last() =~= required.take(count));
        lemma_missing_prefix(required, tools, count + 1);
    }
}

proof fn lemma_skill_problem_prefix(skills: Seq<SkillView>, tools: Seq<Seq<char>>, count: int)
    requires
        0 <= count <= skills.len(),
        skill_problem(skills.take(count), tools) is Some,
    ensures
        skill_problem(skills, tools) == skill_problem(skills.take(count), tools),
    decreases skills.len() - count,
{
    if count == skills.len() {
        assert(skills.take(count) =~= skills);
    } else {
        assert(skills.take(count + 1).drop_last() =~= skills.take(count));
        lemma_skill_problem_prefix(skills, tools, count + 1);
    }
}

fn find_missing_tool(required: &Vec<String>, tools: &Registry<RegisteredTool>) -> (r: Option<String>)
    ensures
        r.deep_view() == missing_tool(required.deep_view(), tools.keys()),
{
    let ghost all = required.deep_view();
    let mut i: usize = 0;
    while i < required.len()
        invariant
            i <= required.len(),
            all == required.deep_view(),
            missing_tool(all.take(i as int), tools.keys()) is None,
        decreases required.len() - i,
    {
        proof {
            assert(all.take(i + 1).drop_last() =~= all.take(i as int));
            assert(all.take(i + 1).last() == required[i as int]@);
        }
        if !tools.contains(required[i].as_str()) {
            proof {
                lemma_missing_prefix(all, tools.keys(), i + 1);
            }
            return Some(required[i].clone());
        }
        i += 1;
    }
    proof {
        assert(all.take(all.len() as int) =~= all);
    }
    None
}

/// Registers skills; a name must not occur twice, and the tools that a skill
/// requires must be there.
pub fn build_skill_registry(
    skills: &Vec<SkillDefinition>,
    tools: &Registry<RegisteredTool>,
) -> (r: Result<SkillManager>)
    ensures
        match skill_problem(skills.deep_view(), tools.keys()) {
            Some(problem) => r matches Err(error) && error.deep_view() == problem,
            None => r matches Ok(manager) && manager.deep_view() == skills.deep_view(),
        },
{
    let ghost all = skills.deep_view();
    let mut seen: Registry<()> = Registry::new();
    let mut i: usize = 0;
    proof {
        assert(seen.keys() =~= skill_names(all.take(0)));
    }
    while i < skills.len()
        invariant
            i <= skills.len(),
            all == skills.deep_view(),
            seen.keys() == skill_names(all.take(i as int)),
            skill_problem(all.take(i as int), tools.keys()) is None,
        decreases skills.len() - i,
    {
        let skill = &skills[i];
        proof {
            assert(all.take(i + 1).drop_last() =~= all.take(i as int));
            assert(all.take(i + 1).last() == skill.deep_view());
        }
        if seen.contains(skill.name.as_str()) {
            proof {
                lemma_skill_problem_prefix(all, tools.keys(), i + 1);
            }
            return Err(AgentError::NameConflict { kind: "skill", name: skill.name.clone() });
        }
        match find_missing_tool(&skill.required_tools, tools) {
            Some(tool) => {
                proof {
                    lemma_skill_problem_prefix(all, tools.keys(), i + 1);
                }
                return Err(
                    AgentError::SkillDependencyNotMet { skill: skill.name.clone(), tool },
                );
            },
            None => {},
        }
        seen = seen.insert(skill.name.clone(), ());
        proof {
            assert(seen.keys() =~= skill_names(all.take(i + 1)));
        }
        i += 1;
    }
    proof {
        assert(all.take(all.len() as int) =~= all);
        lemma_accepted_skills_stay(all, tools.keys());
    }
    Ok(SkillManager::new(skills.clone()))
}

proof fn lemma_accepted_skills_stay(skills: Seq<SkillView>, tools: Seq<Seq<char>>)
    requires
        skill_problem(skills, tools) is None,
    ensures
        latest_definitions(skills) == skills,
    decreases skills.len(),
{
    if skills.len() > 0 {
        let front = skills.drop_last();
        lemma_accepted_skills_stay(front, tools);
        let name = skills.last().name;
        lemma_place_of_absent(front, name);
        assert(front.push(skills.last()) =~= skills);
    }
}

proof fn lemma_place_of_absent(skills: Seq<SkillView>, name: Seq<char>)
    requires
        !skill_names(skills).contains(name),
    ensures
        crate::application::skill_manager::place_of(skills, name) == skills.len(),
    decreases skills.len(),
{
    if skills.len() > 0 {
        assert(skill_names(skills)[0] == skills[0].name);
        let rest = skills.drop_first();
        assert forall|i: int| 0 <= i < skill_names(rest).len() implies skill_names(rest)[i]
            != name by {
            assert(skill_names(rest)[i] == skill_names(skills)[i + 1]);
        }
        lemma_place_of_absent(rest, name);
    }
}

// ---------------------------------------------------------------------------
// The builder
// ---------------------------------------------------------------------------
/// Collects what an agent is built from.
pub struct AgentBuilder<S = NoProvider> {
    /// Configuration.
    pub config: AgentConfig,
    /// Providers, in order of registration.
    pub providers: Vec<ProviderOffer>,
    /// Tools, in order of registration.
    pub tools: Vec<RegisteredTool>,
    /// Skills, in order of registration.
    pub skills: Vec<SkillDefinition>,
    /// Plugins, in order of registration.
    pub plugins: Vec<ConfiguredPlugin>,
    /// How often a session storage was registered.
    pub session_storages: usize,
    /// How often a memory storage was registered.
    pub memory_storages: usize,
    /// Whether a provider is there.
    pub state: S,
}

/// What is wrong with all that was registered, if anything.
pub open spec fn build_problem(
    config: AgentConfig,
    providers: Seq<ProviderOfferView>,
    tools: Seq<RegisteredToolView>,
    skills: Seq<SkillView>,
    plugins: Seq<ConfiguredView>,
    session_storages: usize,
    memory_storages: usize,
) -> Option<AgentErrorView> {
    match setting_problem(config, providers.len() as int, session_storages, memory_storages) {
        Some(problem) => Some(problem),
        None => match models_of(providers) {
            Err(problem) => Some(problem),
            Ok((_, models)) => match model_problem(config, models.dom()) {
                Some(problem) => Some(problem),
                None => match repeated(tool_names(tools)) {
                    Some(name) => Some(conflict("tool"@, name)),
                    None => match skill_problem(skills, tool_names(tools)) {
                        Some(problem) => Some(problem),
                        None => match repeated(plugin_ids(plugins)) {
                            Some(id) => Some(conflict("plugin"@, id)),
                            None => None,
                        },
                    },
                },
            },
        },
    }
}

/// An agent that only waits for its plugins to start.
pub struct AgentParts {
    /// Configuration.
    pub config: AgentConfig,
    /// Providers and models.
    pub models: ModelRegistry,
    /// Tools.
    pub tools: Registry<RegisteredTool>,
    /// Skills.
    pub skills: SkillManager,
    /// Whether sessions are stored.
    pub has_session_storage: bool,
    /// Whether memories are stored.
    pub has_memory_storage: bool,
    /// The start of the plugins.
    pub plugins: PluginBuild,
}

impl AgentBuilder<NoProvider> {
    /// A builder with nothing registered.
    pub fn new(config: AgentConfig) -> (r: Self)
        ensures
            r.config == config,
            r.providers@.len() == 0,
            r.tools@.len() == 0,
            r.skills@.len() == 0,
            r.plugins@.len() == 0,
            r.session_storages == 0,
            r.memory_storages == 0,
    {
        AgentBuilder {
            config,
            providers: Vec::new(),
            tools: Vec::new(),
            skills: Vec::new(),
            plugins: Vec::new(),
            session_storages: 0,
            memory_storages: 0,
            state: NoProvider,
        }
    }
}

impl<S> AgentBuilder<S> {
    /// Registers a provider.
    pub fn register_model_provider(self, provider: ProviderOffer) -> (r: AgentBuilder<HasProvider>)
        ensures
            r.providers@ == self.providers@.push(provider),
            r.config == self.config,
            r.tools == self.tools,
            r.skills == self.skills,
            r.plugins == self.plugins,
            r.session_storages == self.session_storages,
            r.memory_storages == self.memory_storages,
    {
        let mut providers = self.providers;
        providers.push(provider);
        AgentBuilder {
            config: self.config,
            providers,
            tools: self.tools,
            skills: self.skills,
            plugins: self.plugins,
            session_storages: self.session_storages,
            memory_storages: self.memory_storages,
            state: HasProvider,
        }
    }

    /// Registers a tool.
    pub fn register_tool(self, tool: RegisteredTool) -> (r: Self)
        ensures
            r.tools@ == self.tools@.push(tool),
            r == (AgentBuilder { tools: r.tools, ..self }),
    {
        let mut tools = self.tools;
        tools.push(tool);
        AgentBuilder { tools, ..self }
    }

    /// Registers a skill.
    pub fn register_skill(self, skill: SkillDefinition) -> (r: Self)
        ensures
            r.skills@ == self.skills@.push(skill),
            r == (AgentBuilder { skills: r.skills, ..self }),
    {
        let mut skills = self.skills;
        skills.push(skill);
        AgentBuilder { skills, ..self }
    }

    /// Registers a plugin with its configuration.
    pub fn register_plugin(self, descriptor: PluginDescriptor, config: JsonValue) -> (r: Self)
        ensures
            r.plugins@ == self.plugins@.push(ConfiguredPlugin { descriptor, config }),
            r == (AgentBuilder { plugins: r.plugins, ..self }),
    {
        let mut plugins = self.plugins;
        plugins.push(ConfiguredPlugin { descriptor, config });
        AgentBuilder { plugins, ..self }
    }

    /// Registers a session storage.
    pub fn register_session_storage(self) -> (r: Self)
        ensures
            r.session_storages == (if self.session_storages < usize::MAX {
                (self.session_storages + 1) as usize
            } else {
                usize::MAX
            }),
            r == (AgentBuilder { session_storages: r.session_storages, ..self }),
    {
        let session_storages: usize = self.session_storages.saturating_add(1);
        AgentBuilder { session_storages, ..self }
    }

    /// Registers a memory storage.
    pub fn register_memory_storage(self) -> (r: Self)
        ensures
            r.memory_storages == (if self.memory_storages < usize::MAX {
                (self.memory_storages + 1) as usize
            } else {
                usize::MAX
            }),
            r == (AgentBuilder { memory_storages: r.memory_storages, ..self }),
    {
        let memory_storages: usize = self.memory_storages.saturating_add(1);
        AgentBuilder { memory_storages, ..self }
    }

    /// Checks all that was registered. Plugins are started afterwards.
    pub fn build(self) -> (r: Result<AgentParts>)
        ensures
            match build_problem(
                self.config,
                self.providers.deep_view(),
                self.tools.deep_view(),
                self.skills.deep_view(),
                self.plugins.deep_view(),
                self.session_storages,
                self.memory_storages,
            ) {
                Some(problem) => r matches Err(error) && error.deep_view() == problem,
                None => r matches Ok(parts) && {
                    let (ids, models) = models_of(self.providers.deep_view())->Ok_0;
                    &&& parts.config == self.config
                    &&& registers(parts.models, ids, models)
                    &&& parts.models.provider_ids() == provider_ids_of(self.providers.deep_view())
                    &&& parts.models.model_ids() == model_ids_of(self.providers.deep_view())
                    &&& parts.tools.keys() == tool_names(self.tools.deep_view())
                    &&& tool_views(parts.tools) == self.tools.deep_view()
                    &&& parts.skills.deep_view() == self.skills.deep_view()
                    &&& parts.has_session_storage == (self.session_storages > 0)
                    &&& parts.has_memory_storage == (self.memory_storages > 0)
                    &&& parts.plugins.plugins == self.plugins
                    &&& parts.plugins.stage.deep_view() == first_stage(
                        self.plugins@.len() as int,
                    )
                    &&& forall|event: HookEvent| #[trigger]
                        parts.plugins.hooks.registered(event) == Seq::<RegistrationView>::empty()
                },
            },
    {
        match validate_settings(
            &self.config,
            self.providers.len(),
            self.session_storages,
            self.memory_storages,
        ) {
            Ok(_) => {},
            Err(error) => {
                return Err(error);
            },
        }
        let models = match build_model_registry(&self.providers) {
            Ok(models) => models,
            Err(error) => {
                return Err(error);
            },
        };
        proof {
            let known = models_of(self.providers.deep_view())->Ok_0.1;
            assert(models.known_models() =~= known.dom());
        }
        match validate_model_config(&self.config, &models) {
            Ok(_) => {},
            Err(error) => {
                return Err(error);
            },
        }
        let tools = match build_tool_registry(&self.tools) {
            Ok(tools) => tools,
            Err(error) => {
                return Err(error);
            },
        };
        let skills = match build_skill_registry(&self.skills, &tools) {
            Ok(skills) => skills,
            Err(error) => {
                return Err(error);
            },
        };
        match PluginManager::new().build(self.plugins) {
            Ok(plugins) => Ok(
                AgentParts {
                    config: self.config,
                    models,
                    tools,
                    skills,
                    has_session_storage: self.session_storages > 0,
                    has_memory_storage: self.memory_storages > 0,
                    plugins,
                },
            ),
            Err(error) => Err(error),
        }
    }
}

impl AgentParts {
    /// The agent, once its plugins have started, or why they could not be.
    pub fn assemble(self) -> (r: Result<Agent>)
        requires
            self.plugins.stage is Started || self.plugins.stage is RollBack,
        ensures
            match self.plugins.stage.deep_view() {
                PluginStageView::RollBack(_, problem) => r matches Err(error) && error.deep_view()
                    == problem,
                _ => r matches Ok(agent) && {
                    &&& agent.control.deep_view() == fresh_control()
                    &&& agent.kernel.config == self.config
                    &&& agent.kernel.models == self.models
                    &&& agent.kernel.tools == self.tools
                    &&& agent.kernel.skills == self.skills
                    &&& agent.kernel.hooks == self.plugins.hooks
                    &&& agent.kernel.has_session_storage == self.has_session_storage
                    &&& agent.kernel.has_memory_storage == self.has_memory_storage
                    &&& agent.kernel.plugins.deep_view()
                        == self.plugins.plugins.deep_view().map_values(
                        |plugin: ConfiguredView| plugin.descriptor,
                    )
                },
            },
    {
        match self.plugins.finish() {
            Ok(started) => {
                let (plugins, hooks) = started;
                Ok(
                    Agent::new(
                        AgentKernel {
                            config: self.config,
                            models: self.models,
                            tools: self.tools,
                            skills: self.skills,
                            plugins,
                            hooks,
                            has_session_storage: self.has_session_storage,
                            has_memory_storage: self.has_memory_storage,
                        },
                    ),
                )
            },
            Err(error) => Err(error),
        }
    }
}

// ---------------------------------------------------------------------------
// Laws
// ---------------------------------------------------------------------------
/// Providers are accepted exactly where no provider id and no model id occurs
/// twice. The ids in order of registration are then those of the registered
/// providers and models.
pub proof fn law_accepted_ids_are_distinct(providers: Seq<ProviderOfferView>)
    ensures
        models_of(providers) is Ok <==> {
            &&& provider_ids_of(providers).no_duplicates()
            &&& model_ids_of(providers).no_duplicates()
        },
        models_of(providers) matches Ok((ids, models)) ==> {
            &&& forall|id: Seq<char>| #[trigger]
                ids.contains(id) <==> provider_ids_of(providers).contains(id)
            &&& forall|id: Seq<char>| #[trigger]
                models.contains_key(id) <==> model_ids_of(providers).contains(id)
        },
    decreases providers.len(),
{
    if providers.len() > 0 {
        let front = providers.drop_last();
        let provider = providers.last();
        law_accepted_ids_are_distinct(front);
        assert(provider_ids_of(providers) =~= provider_ids_of(front).push(provider.id));
        lemma_distinct_push(provider_ids_of(front), provider.id);
        lemma_distinct_prefix(model_ids_of(front), offer_ids(provider.models));
        if let Ok((ids, models)) = models_of(front) {
            lemma_offers_accepted(models, model_ids_of(front), provider.id, provider.models);
        }
    }
}

proof fn lemma_offers_accepted(
    models: Map<Seq<char>, RegisteredView>,
    known: Seq<Seq<char>>,
    provider_id: Seq<char>,
    offers: Seq<ModelOfferView>,
)
    requires
        known.no_duplicates(),
        forall|id: Seq<char>| #[trigger] models.contains_key(id) <==> known.contains(id),
    ensures
        with_models(models, provider_id, offers) is Ok <==> (known + offer_ids(
            offers,
        )).no_duplicates(),
        with_models(models, provider_id, offers) matches Ok(more) ==> forall|id: Seq<char>|
            #[trigger] more.contains_key(id) <==> (known + offer_ids(offers)).contains(id),
    decreases offers.len(),
{
    if offers.len() == 0 {
        assert(known + offer_ids(offers) =~= known);
    } else {
        let front = offers.drop_last();
        let id = offers.last().info.id;
        lemma_offers_accepted(models, known, provider_id, front);
        assert(known + offer_ids(offers) =~= (known + offer_ids(front)).push(id));
        lemma_distinct_push(known + offer_ids(front), id);
    }
}

proof fn lemma_distinct_push(ids: Seq<Seq<char>>, id: Seq<char>)
    ensures
        ids.push(id).no_duplicates() <==> ids.no_duplicates() && !ids.contains(id),
        forall|other: Seq<char>| #[trigger]
            ids.push(id).contains(other) <==> other == id || ids.contains(other),
{
    let more = ids.push(id);
    assert(more[ids.len() as int] == id);
    assert forall|i: int| 0 <= i < ids.len() implies more[i] == #[trigger] ids[i] by {}
    if ids.no_duplicates() && !ids.contains(id) {
        assert forall|a: int, b: int|
            0 <= a < more.len() && 0 <= b < more.len() && a != b implies more[a] != more[b] by {
            if a < ids.len() {
                assert(ids.contains(ids[a]));
            }
            if b < ids.len() {
                assert(ids.contains(ids[b]));
            }
        }
    }
    if more.no_duplicates() {
        assert forall|a: int, b: int|
            0 <= a < ids.len() && 0 <= b < ids.len() && a != b implies ids[a] != ids[b] by {
            assert(more[a] == ids[a] && more[b] == ids[b]);
        }
    }
    assert forall|other: Seq<char>| #[trigger]
        more.contains(other) <==> other == id || ids.contains(other) by {
        if ids.contains(other) {
            let i = ids.index_of(other);
            assert(more[i] == other);
        }
    }
}

proof fn lemma_distinct_prefix(ids: Seq<Seq<char>>, more: Seq<Seq<char>>)
    ensures
        (ids + more).no_duplicates() ==> ids.no_duplicates(),
{
    let all = ids + more;
    if all.no_duplicates() {
        assert forall|a: int, b: int|
            0 <= a < ids.len() && 0 <= b < ids.len() && a != b implies ids[a] != ids[b] by {
            assert(all[a] == ids[a] && all[b] == ids[b]);
        }
    }
}

/// Every model of a built agent belongs to a provider of the agent.
pub proof fn law_models_have_providers(providers: Seq<ProviderOfferView>, id: Seq<char>)
    requires
        models_of(providers) is Ok,
        models_of(providers)->Ok_0.1.contains_key(id),
    ensures
        models_of(providers)->Ok_0.0.contains(models_of(providers)->Ok_0.1[id].provider_id),
        models_of(providers)->Ok_0.1[id].info.id == id,
    decreases providers.len(),
{
    if providers.len() > 0 {
        let front = providers.drop_last();
        let provider = providers.last();
        let (ids, models) = models_of(front)->Ok_0;
        lemma_with_models_origin(models, provider.id, provider.models, id);
        if models.contains_key(id) {
            law_models_have_providers(front, id);
        }
    }
}

proof fn lemma_with_models_origin(
    models: Map<Seq<char>, RegisteredView>,
    provider_id: Seq<char>,
    offers: Seq<ModelOfferView>,
    id: Seq<char>,
)
    requires
        with_models(models, provider_id, offers) is Ok,
    ensures
        ({
            let more = with_models(models, provider_id, offers)->Ok_0;
            &&& models.contains_key(id) ==> more.contains_key(id) && more[id] == models[id]
            &&& !models.contains_key(id) && more.contains_key(id) ==> more[id].provider_id
                == provider_id && more[id].info.id == id
        }),
    decreases offers.len(),
{
    if offers.len() > 0 {
        lemma_with_models_origin(models, provider_id, offers.drop_last(), id);
    }
}

/// The models named in the configuration of a built agent are registered, no
/// tool name or plugin id occurs twice, and the limits are in order.
pub proof fn law_configured_models_are_known(
    config: AgentConfig,
    providers: Seq<ProviderOfferView>,
    tools: Seq<RegisteredToolView>,
    skills: Seq<SkillView>,
    plugins: Seq<ConfiguredView>,
    session_storages: usize,
    memory_storages: usize,
)
    requires
        build_problem(
            config,
            providers,
            tools,
            skills,
            plugins,
            session_storages,
            memory_storages,
        ) is None,
    ensures
        ({
            let models = models_of(providers)->Ok_0.1;
            &&& models.contains_key(config.default_model@)
            &&& config.compact_model matches Some(id) ==> models.contains_key(id@)
            &&& config.memory_model matches Some(id) ==> models.contains_key(id@)
        }),
        tool_names(tools).no_duplicates(),
        plugin_ids(plugins).no_duplicates(),
        config.max_tool_calls_per_turn > 0,
        config.memory_checkpoint_interval > 0,
        config.tool_output_metadata_max_bytes < config.tool_output_max_bytes,
{
    crate::application::plugin_manager::law_plugin_ids_are_unique(tool_names(tools));
    crate::application::plugin_manager::law_plugin_ids_are_unique(plugin_ids(plugins));
}

/// The tools that a skill of a built agent requires are registered.
pub proof fn law_skills_have_their_tools(
    skills: Seq<SkillView>,
    tools: Seq<Seq<char>>,
    i: int,
    j: int,
)
    requires
        skill_problem(skills, tools) is None,
        0 <= i < skills.len(),
        0 <= j < skills[i].required_tools.len(),
    ensures
        tools.contains(skills[i].required_tools[j]),
    decreases skills.len(),
{
    let front = skills.drop_last();
    if i < front.len() {
        law_skills_have_their_tools(front, tools, i, j);
    } else {
        lemma_nothing_missing(skills[i].required_tools, tools, j);
    }
}

proof fn lemma_nothing_missing(required: Seq<Seq<char>>, tools: Seq<Seq<char>>, j: int)
    requires
        missing_tool(required, tools) is None,
        0 <= j < required.len(),
    ensures
        tools.contains(required[j]),
    decreases required.len(),
{
    if j < required.len() - 1 {
        lemma_nothing_missing(required.drop_last(), tools, j);
    }
}

} // verus!
