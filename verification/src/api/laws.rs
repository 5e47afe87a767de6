//! Laws of the surface: which inputs and configurations are taken, and what an
//! agent makes of them.

use crate::api::agent::{
    deletion_check, discovery_check, provider_of, AgentKernel, ModelRegistry, RegisteredView,
};
use crate::api::builder::{
    build_problem, law_accepted_ids_are_distinct, law_skills_have_their_tools, missing_tool,
    model_ids_of, models_of, provider_ids_of, skill_names, skill_problem, tool_names, with_models,
    ModelOfferView, ProviderOfferView,
};
use crate::api::session::{
    block_problem, checked_message, compact_model_of, compact_prompt_of, definitions_of,
    first_problem, handle_of, has_content, input_problem, memory_model_of, setup_problem,
};
use crate::application::plugin_manager::{plugin_ids, repeated, ConfiguredView};
use crate::application::session_control::{ControlView, SlotView};
use crate::application::session_runtime::RuntimeView;
use crate::application::skill_laws::{
    law_every_invoked_skill_is_found, law_skills_are_found_by_name,
};
use crate::application::skill_manager::{
    input_names, known_skills, law_invocations_are_split, unknown_names,
};
use crate::application::tool_dispatcher::{RegisteredTool, RegisteredToolView};
use crate::domain::config::AgentConfig;
use crate::domain::error::AgentErrorView;
use crate::domain::types::{ContentBlockView, MessageView, SkillView};
use crate::prompt::templates::DEFAULT_COMPACT_PROMPT;
use crate::registry::Registry;
use crate::text::is_blank;
use vstd::prelude::*;
use vstd::string::*;

verus! {

// ---------------------------------------------------------------------------
// Input
// ---------------------------------------------------------------------------
/// What is wrong with a block by itself, if anything.
pub open spec fn fault_of(block: ContentBlockView, vision: bool) -> Option<Seq<char>> {
    match block {
        ContentBlockView::Text(_) => None,
        ContentBlockView::Image { data, media_type } => if !vision {
            Some("current model does not support image input"@)
        } else if is_blank(data) || is_blank(media_type) {
            Some("image input must contain non-empty data and media_type"@)
        } else {
            None
        },
        ContentBlockView::File { name, media_type, text } => if is_blank(name) || is_blank(
            media_type,
        ) || is_blank(text) {
            Some("file input must contain non-empty name, media_type and text"@)
        } else {
            None
        },
    }
}

proof fn lemma_first_problem(blocks: Seq<ContentBlockView>, vision: bool)
    ensures
        first_problem(blocks, vision) is None <==> forall|i: int|
            0 <= i < blocks.len() ==> fault_of(#[trigger] blocks[i], vision) is None,
        first_problem(blocks, vision) is Some ==> exists|i: int|
            {
                &&& 0 <= i < blocks.len()
                &&& fault_of(#[trigger] blocks[i], vision) == first_problem(blocks, vision)
                &&& forall|j: int| 0 <= j < i ==> fault_of(#[trigger] blocks[j], vision) is None
            },
    decreases blocks.len(),
{
    if blocks.len() > 0 {
        let front = blocks.drop_last();
        lemma_first_problem(front, vision);
        assert(block_problem(blocks.last(), vision) == fault_of(blocks.last(), vision));
        if first_problem(front, vision) is Some {
            let i = choose|i: int|
                {
                    &&& 0 <= i < front.len()
                    &&& fault_of(#[trigger] front[i], vision) == first_problem(front, vision)
                    &&& forall|j: int| 0 <= j < i ==> fault_of(#[trigger] front[j], vision) is None
                };
            assert(blocks[i] == front[i]);
            assert forall|j: int| 0 <= j < i implies fault_of(#[trigger] blocks[j], vision)
                is None by {
                assert(front[j] == blocks[j]);
            }
        } else {
            let last = blocks.len() - 1;
            assert forall|j: int| 0 <= j < last implies fault_of(#[trigger] blocks[j], vision)
                is None by {
                assert(front[j] == blocks[j]);
            }
            assert(blocks[last] == blocks.last());
        }
    }
}

/// An input is taken exactly where it has blocks, none of them is at fault, and
/// not all of them are blank texts.
pub proof fn law_sound_input_is_taken(blocks: Seq<ContentBlockView>, vision: bool)
    ensures
        input_problem(blocks, vision) is None <==> {
            &&& forall|i: int|
                0 <= i < blocks.len() ==> fault_of(#[trigger] blocks[i], vision) is None
            &&& exists|i: int|
                0 <= i < blocks.len() && !((#[trigger] blocks[i]) matches ContentBlockView::Text(
                    text,
                ) && is_blank(text))
        },
{
    lemma_first_problem(blocks, vision);
    if exists|i: int| 0 <= i < blocks.len() && has_content(#[trigger] blocks[i]) {
        let i = choose|i: int| 0 <= i < blocks.len() && has_content(#[trigger] blocks[i]);
        assert(!(blocks[i] matches ContentBlockView::Text(text) && is_blank(text)));
    }
    if exists|i: int|
        0 <= i < blocks.len() && !((#[trigger] blocks[i]) matches ContentBlockView::Text(text)
            && is_blank(text)) {
        let i = choose|i: int|
            0 <= i < blocks.len() && !((#[trigger] blocks[i]) matches ContentBlockView::Text(text)
                && is_blank(text));
        assert(has_content(blocks[i]));
    }
}

/// A refused input is told why: that it is empty, what is wrong with its first
/// faulty block, or that it holds nothing but blank texts.
pub proof fn law_refused_input_is_told_why(blocks: Seq<ContentBlockView>, vision: bool, i: int)
    ensures
        input_problem(Seq::empty(), vision) == Some(
            "user input must contain at least one content block"@,
        ),
        0 <= i < blocks.len() && fault_of(blocks[i], vision) is Some && (forall|j: int|
            0 <= j < i ==> fault_of(#[trigger] blocks[j], vision) is None) ==> input_problem(
            blocks,
            vision,
        ) == fault_of(blocks[i], vision),
        blocks.len() > 0 && (forall|j: int|
            0 <= j < blocks.len() ==> ((#[trigger] blocks[j]) matches ContentBlockView::Text(text)
                && is_blank(text))) ==> input_problem(blocks, vision) == Some(
            "user input must contain non-empty content"@,
        ),
{
    lemma_first_problem(blocks, vision);
    if 0 <= i < blocks.len() && fault_of(blocks[i], vision) is Some && (forall|j: int|
        0 <= j < i ==> fault_of(#[trigger] blocks[j], vision) is None) {
        let k = choose|k: int|
            {
                &&& 0 <= k < blocks.len()
                &&& fault_of(#[trigger] blocks[k], vision) == first_problem(blocks, vision)
                &&& forall|j: int| 0 <= j < k ==> fault_of(#[trigger] blocks[j], vision) is None
            };
        assert(k == i);
    }
}

/// A message that is taken injects one system message for each invoked skill, in
/// the order of the invocations, with the name of the skill and its whole prompt.
pub proof fn law_message_injects_invoked_skills(
    kernel: AgentKernel,
    model_id: Seq<char>,
    input: Seq<ContentBlockView>,
    injections: Seq<MessageView>,
    i: int,
)
    requires
        checked_message(kernel, model_id, input) == Ok::<Seq<MessageView>, AgentErrorView>(
            injections,
        ),
    ensures
        kernel.models.model(model_id) is Some,
        injections.len() == input_names(input).len(),
        forall|k: int| 0 <= k < injections.len() ==> (#[trigger] injections[k]) is System,
        0 <= i < injections.len() ==> exists|skill: SkillView|
            {
                &&& #[trigger] kernel.skills.deep_view().contains(skill)
                &&& skill.name == input_names(input)[i]
                &&& injections[i] == (MessageView::System {
                    content: "<skill>\n<name>"@ + skill.name + "</name>\n"@ + skill.prompt_template
                        + "\n</skill>"@,
                })
            },
{
    let skills = kernel.skills.deep_view();
    let names = input_names(input);
    law_invocations_are_split(skills, names);
    if 0 <= i < injections.len() {
        law_every_invoked_skill_is_found(skills, names, i);
        assert(skills.contains(known_skills(skills, names)[i]));
    }
}

proof fn lemma_first_unknown(skills: Seq<SkillView>, names: Seq<Seq<char>>)
    requires
        unknown_names(skills, names).len() > 0,
    ensures
        exists|i: int|
            {
                &&& 0 <= i < names.len()
                &&& #[trigger] names[i] == unknown_names(skills, names)[0]
                &&& unknown_names(skills, names.take(i)).len() == 0
                &&& forall|k: int|
                    0 <= k < skills.len() ==> (#[trigger] skills[k]).name != names[i]
            },
    decreases names.len(),
{
    let front = names.drop_last();
    law_skills_are_found_by_name(skills, names.last());
    if unknown_names(skills, front).len() > 0 {
        lemma_first_unknown(skills, front);
        let i = choose|i: int|
            {
                &&& 0 <= i < front.len()
                &&& #[trigger] front[i] == unknown_names(skills, front)[0]
                &&& unknown_names(skills, front.take(i)).len() == 0
                &&& forall|k: int|
                    0 <= k < skills.len() ==> (#[trigger] skills[k]).name != front[i]
            };
        assert(names[i] == front[i]);
        assert(names.take(i) =~= front.take(i));
    } else {
        let last = names.len() - 1;
        assert(names.take(last) =~= front);
        assert(names[last] == names.last());
    }
}

/// A message is refused for an unknown model, for a faulty input, or for the first
/// name that it invokes and no skill has; in any other case it is taken.
pub proof fn law_refused_message_is_told_why(
    kernel: AgentKernel,
    model_id: Seq<char>,
    input: Seq<ContentBlockView>,
)
    ensures
        kernel.models.model(model_id) is None ==> checked_message(kernel, model_id, input) == Err::<
            Seq<MessageView>,
            AgentErrorView,
        >(AgentErrorView::ModelNotSupported(model_id)),
        kernel.models.model(model_id) matches Some(model) ==> match input_problem(
            input,
            model.info.capabilities.vision,
        ) {
            Some(message) => checked_message(kernel, model_id, input) == Err::<
                Seq<MessageView>,
                AgentErrorView,
            >(AgentErrorView::InputValidation { message }),
            None => match checked_message(kernel, model_id, input) {
                Ok(_) => forall|i: int|
                    #![trigger input_names(input)[i]]
                    0 <= i < input_names(input).len() ==> exists|k: int|
                        0 <= k < kernel.skills.deep_view().len() && (
                        #[trigger] kernel.skills.deep_view()[k]).name == input_names(input)[i],
                Err(error) => error matches AgentErrorView::SkillNotFound(name) && input_names(
                    input,
                ).contains(name) && forall|k: int|
                    0 <= k < kernel.skills.deep_view().len() ==> (
                    #[trigger] kernel.skills.deep_view()[k]).name != name,
            },
        },
{
    let skills = kernel.skills.deep_view();
    let names = input_names(input);
    if unknown_names(skills, names).len() > 0 {
        lemma_first_unknown(skills, names);
    } else {
        assert forall|i: int| #![trigger names[i]] 0 <= i < names.len() implies exists|k: int|
            0 <= k < skills.len() && (#[trigger] skills[k]).name == names[i] by {
            law_every_invoked_skill_is_found(skills, names, i);
            let skill = known_skills(skills, names)[i];
            let k = skills.index_of(skill);
            assert(skills[k].name == names[i]);
        }
    }
}

// ---------------------------------------------------------------------------
// Models
// ---------------------------------------------------------------------------
/// A model is reached through the provider that it was registered with. An unknown
/// model, or one whose provider is missing, is an error that names it.
pub proof fn law_model_is_reached_through_its_provider(models: ModelRegistry, model_id: Seq<char>)
    ensures
        match models.model(model_id) {
            None => provider_of(models, model_id) == Err::<Seq<char>, AgentErrorView>(
                AgentErrorView::ModelNotSupported(model_id),
            ),
            Some(model) => if models.has_provider(model.provider_id) {
                provider_of(models, model_id) == Ok::<Seq<char>, AgentErrorView>(model.provider_id)
            } else {
                provider_of(models, model_id) matches Err(AgentErrorView::ProviderError {
                    message,
                    retryable,
                    ..
                }) && !retryable && message == "provider '"@ + model.provider_id + "' for model '"@
                    + model_id + "' is not registered"@
            },
        },
{
}

/// Compaction and memories use the models that are configured for them, or that of
/// the session; the compaction prompt is the configured one, or the built-in one.
pub proof fn law_configured_models_are_used(kernel: AgentKernel, model_id: Seq<char>)
    ensures
        kernel.config.compact_model matches Some(id) ==> compact_model_of(kernel, model_id) == id@,
        kernel.config.compact_model is None ==> compact_model_of(kernel, model_id) == model_id,
        kernel.config.memory_model matches Some(id) ==> memory_model_of(kernel, model_id) == id@,
        kernel.config.memory_model is None ==> memory_model_of(kernel, model_id) == model_id,
        kernel.config.compact_prompt matches Some(text) ==> compact_prompt_of(kernel) == text@,
        kernel.config.compact_prompt is None ==> compact_prompt_of(kernel)
            == DEFAULT_COMPACT_PROMPT@,
{
}

/// A turn can be set up exactly where the models that it may ask can be reached:
/// that of the session, that for compaction, and, where memories are stored, that
/// for memories.
pub proof fn law_turn_needs_its_models(kernel: AgentKernel, model_id: Seq<char>)
    ensures
        setup_problem(kernel, model_id) is None <==> {
            &&& provider_of(kernel.models, model_id) is Ok
            &&& provider_of(kernel.models, compact_model_of(kernel, model_id)) is Ok
            &&& kernel.has_memory_storage ==> provider_of(
                kernel.models,
                memory_model_of(kernel, model_id),
            ) is Ok
        },
        provider_of(kernel.models, model_id) matches Err(error) ==> setup_problem(kernel, model_id)
            == Some(error),
{
}

/// All tools are offered, in their order, each as it was described.
pub proof fn law_all_tools_are_offered(tools: Registry<RegisteredTool>, i: int)
    requires
        0 <= i < tools.values().len(),
    ensures
        definitions_of(tools).len() == tools.values().len(),
        definitions_of(tools)[i].name == tools.values()[i].definition.name@,
        definitions_of(tools)[i].description == tools.values()[i].definition.description@,
        definitions_of(tools)[i].parameters == tools.values()[i].definition.deep_view().parameters,
{
}

/// A handle names the session that it stands for, and what it is bound to.
pub proof fn law_handle_names_its_session(rt: RuntimeView)
    ensures
        handle_of(rt).session_id == rt.session_id,
        handle_of(rt).model_id == rt.model_id,
        handle_of(rt).memory_namespace == rt.memory_namespace,
        handle_of(rt).system_prompt_override == rt.system_prompt_override,
{
}

// ---------------------------------------------------------------------------
// Stored sessions
// ---------------------------------------------------------------------------
/// Stored sessions are searched and deleted only by a running agent with a
/// storage, and the active session is not deleted.
pub proof fn law_stored_sessions_are_guarded(c: ControlView, id: Seq<char>, has_storage: bool)
    ensures
        discovery_check(c, has_storage) is Ok <==> c.lifecycle is Running && has_storage,
        deletion_check(c, id, has_storage) is Ok <==> c.lifecycle is Running && has_storage && !(
        c.slot matches SlotView::Active { session_id, .. } && session_id == id),
        !(c.lifecycle is Running) ==> discovery_check(c, has_storage) == Err::<(), AgentErrorView>(
            AgentErrorView::AgentShutdown,
        ) && deletion_check(c, id, has_storage) == Err::<(), AgentErrorView>(
            AgentErrorView::AgentShutdown,
        ),
        c.lifecycle is Running && (c.slot matches SlotView::Active { session_id, .. } && session_id
            == id) ==> deletion_check(c, id, has_storage) == Err::<(), AgentErrorView>(
            AgentErrorView::SessionBusy,
        ),
{
}

// ---------------------------------------------------------------------------
// Building
// ---------------------------------------------------------------------------
proof fn lemma_with_models_keeps(
    models: Map<Seq<char>, RegisteredView>,
    provider_id: Seq<char>,
    offers: Seq<ModelOfferView>,
    k: int,
)
    requires
        with_models(models, provider_id, offers) is Ok,
    ensures
        ({
            let more = with_models(models, provider_id, offers)->Ok_0;
            &&& forall|id: Seq<char>| #[trigger]
                models.contains_key(id) ==> more.contains_key(id) && more[id] == models[id]
            &&& 0 <= k < offers.len() ==> more.contains_key(offers[k].info.id)
                && more[offers[k].info.id] == (RegisteredView {
                provider_id,
                info: offers[k].info,
                compact_limit: offers[k].compact_limit,
            })
        }),
    decreases offers.len(),
{
    if offers.len() > 0 {
        lemma_with_models_keeps(models, provider_id, offers.drop_last(), k);
    }
}

/// Every offered model is registered under its id, with its own description and
/// limit and with the provider that offers it.
pub proof fn law_offered_models_are_registered(
    providers: Seq<ProviderOfferView>,
    p: int,
    k: int,
)
    requires
        models_of(providers) is Ok,
        0 <= p < providers.len(),
        0 <= k < providers[p].models.len(),
    ensures
        ({
            let models = models_of(providers)->Ok_0.1;
            let offer = providers[p].models[k];
            &&& models.contains_key(offer.info.id)
            &&& models[offer.info.id].provider_id == providers[p].id
            &&& models[offer.info.id].info == offer.info
            &&& models[offer.info.id].compact_limit == offer.compact_limit
        }),
    decreases providers.len(),
{
    let front = providers.drop_last();
    let provider = providers.last();
    let models = models_of(front)->Ok_0.1;
    if p < front.len() {
        law_offered_models_are_registered(front, p, k);
        lemma_with_models_keeps(models, provider.id, provider.models, 0);
        assert(models.contains_key(front[p].models[k].info.id));
    } else {
        lemma_with_models_keeps(models, provider.id, provider.models, k);
    }
}

proof fn lemma_repeated(ids: Seq<Seq<char>>)
    ensures
        repeated(ids) is None <==> forall|i: int, j: int|
            0 <= i < j < ids.len() ==> #[trigger] ids[i] != #[trigger] ids[j],
        repeated(ids) matches Some(id) ==> exists|i: int, j: int|
            0 <= i < j < ids.len() && #[trigger] ids[i] == id && #[trigger] ids[j] == id,
    decreases ids.len(),
{
    if ids.len() > 0 {
        let front = ids.drop_last();
        lemma_repeated(front);
        let last = ids.len() - 1;
        if let Some(id) = repeated(front) {
            let (i, j) = choose|i: int, j: int|
                0 <= i < j < front.len() && #[trigger] front[i] == id && #[trigger] front[j] == id;
            assert(ids[i] == id && ids[j] == id);
        } else if front.contains(ids.last()) {
            let i = front.index_of(ids.last());
            assert(ids[i] == ids.last() && ids[last] == ids.last());
        } else {
            assert forall|i: int, j: int| 0 <= i < j < ids.len() implies #[trigger] ids[i]
                != #[trigger] ids[j] by {
                assert(front[i] == ids[i]);
                if j < last {
                    assert(front[j] == ids[j]);
                }
            }
        }
    }
}

/// The first id that occurs a second time is reported, and none where all differ.
pub proof fn law_repeated_id_is_reported(ids: Seq<Seq<char>>)
    ensures
        repeated(ids) is None <==> forall|i: int, j: int|
            0 <= i < j < ids.len() ==> #[trigger] ids[i] != #[trigger] ids[j],
        repeated(ids) matches Some(id) ==> exists|i: int, j: int|
            0 <= i < j < ids.len() && #[trigger] ids[i] == id && #[trigger] ids[j] == id,
{
    lemma_repeated(ids);
}

proof fn lemma_missing_tool(required: Seq<Seq<char>>, tools: Seq<Seq<char>>)
    ensures
        missing_tool(required, tools) is None <==> forall|j: int|
            0 <= j < required.len() ==> tools.contains(#[trigger] required[j]),
        missing_tool(required, tools) matches Some(name) ==> required.contains(name)
            && !tools.contains(name),
    decreases required.len(),
{
    if required.len() > 0 {
        let front = required.drop_last();
        lemma_missing_tool(front, tools);
        let last = required.len() - 1;
        if let Some(name) = missing_tool(front, tools) {
            let j = front.index_of(name);
            assert(required[j] == name);
        } else {
            assert(required[last] == required.last());
            assert forall|j: int| 0 <= j < last implies tools.contains(#[trigger] required[j]) by {
                assert(front[j] == required[j]);
            }
        }
    }
}

proof fn lemma_skill_problem(skills: Seq<SkillView>, tools: Seq<Seq<char>>)
    ensures
        skill_problem(skills, tools) is None <==> {
            &&& forall|i: int, j: int|
                0 <= i < j < skills.len() ==> (#[trigger] skills[i]).name != (
                #[trigger] skills[j]).name
            &&& forall|i: int, j: int|
                #![trigger skills[i].required_tools[j]]
                0 <= i < skills.len() && 0 <= j < skills[i].required_tools.len() ==> tools.contains(
                    skills[i].required_tools[j],
                )
        },
    decreases skills.len(),
{
    if skills.len() > 0 {
        let front = skills.drop_last();
        let skill = skills.last();
        let last = skills.len() - 1;
        lemma_skill_problem(front, tools);
        lemma_missing_tool(skill.required_tools, tools);
        assert(skills[last] == skill);
        let names = skill_names(front);
        if skill_problem(skills, tools) is None {
            assert forall|i: int, j: int| 0 <= i < j < skills.len() implies (
            #[trigger] skills[i]).name != (#[trigger] skills[j]).name by {
                assert(front[i] == skills[i]);
                assert(names[i] == skills[i].name);
                if j < last {
                    assert(front[j] == skills[j]);
                }
            }
            assert forall|i: int, j: int|
                #![trigger skills[i].required_tools[j]]
                0 <= i < skills.len() && 0 <= j
                    < skills[i].required_tools.len() implies tools.contains(
                skills[i].required_tools[j],
            ) by {
                law_skills_have_their_tools(skills, tools, i, j);
            }
        } else if skill_problem(front, tools) is Some {
            if forall|i: int, j: int|
                0 <= i < j < skills.len() ==> (#[trigger] skills[i]).name != (
                #[trigger] skills[j]).name {
                assert forall|i: int, j: int| 0 <= i < j < front.len() implies (
                #[trigger] front[i]).name != (#[trigger] front[j]).name by {
                    assert(front[i] == skills[i] && front[j] == skills[j]);
                }
                let (i, j) = choose|i: int, j: int|
                    #![trigger front[i].required_tools[j]]
                    0 <= i < front.len() && 0 <= j < front[i].required_tools.len()
                        && !tools.contains(front[i].required_tools[j]);
                assert(front[i] == skills[i]);
                assert(!tools.contains(skills[i].required_tools[j]));
            }
        } else if names.contains(skill.name) {
            let i = names.index_of(skill.name);
            assert(front[i] == skills[i]);
            assert(skills[i].name == skills[last].name);
        } else {
            let name = missing_tool(skill.required_tools, tools)->0;
            let j = skill.required_tools.index_of(name);
            assert(!tools.contains(skills[last].required_tools[j]));
        }
    }
}

/// An agent is built exactly where its parts fit: one storage of each kind at
/// most, at least one provider, settings in range, ids and names that occur once,
/// configured models that are offered, and skills whose tools are there.
pub proof fn law_fitting_parts_are_built(
    config: AgentConfig,
    providers: Seq<ProviderOfferView>,
    tools: Seq<RegisteredToolView>,
    skills: Seq<SkillView>,
    plugins: Seq<ConfiguredView>,
    session_storages: usize,
    memory_storages: usize,
)
    ensures
        build_problem(
            config,
            providers,
            tools,
            skills,
            plugins,
            session_storages,
            memory_storages,
        ) is None <==> {
            &&& session_storages <= 1
            &&& memory_storages <= 1
            &&& providers.len() > 0
            &&& config.compact_threshold_in_range
            &&& config.tool_timeout_ms > 0
            &&& config.max_tool_calls_per_turn > 0
            &&& config.memory_checkpoint_interval > 0
            &&& config.memory_max_items > 0
            &&& config.tool_output_max_bytes > config.tool_output_metadata_max_bytes
            &&& !is_blank(config.memory_namespace@)
            &&& !is_blank(config.default_model@)
            &&& provider_ids_of(providers).no_duplicates()
            &&& model_ids_of(providers).no_duplicates()
            &&& model_ids_of(providers).contains(config.default_model@)
            &&& config.compact_model matches Some(id) ==> model_ids_of(providers).contains(id@)
            &&& config.memory_model matches Some(id) ==> model_ids_of(providers).contains(id@)
            &&& forall|i: int, j: int|
                0 <= i < j < tools.len() ==> (#[trigger] tools[i]).definition.name != (
                #[trigger] tools[j]).definition.name
            &&& forall|i: int, j: int|
                0 <= i < j < skills.len() ==> (#[trigger] skills[i]).name != (
                #[trigger] skills[j]).name
            &&& forall|i: int, j: int|
                #![trigger skills[i].required_tools[j]]
                0 <= i < skills.len() && 0 <= j < skills[i].required_tools.len() ==> tool_names(
                    tools,
                ).contains(skills[i].required_tools[j])
            &&& forall|i: int, j: int|
                0 <= i < j < plugins.len() ==> (#[trigger] plugins[i]).descriptor.id != (
                #[trigger] plugins[j]).descriptor.id
        },
{
    law_accepted_ids_are_distinct(providers);
    lemma_repeated(tool_names(tools));
    lemma_repeated(plugin_ids(plugins));
    lemma_skill_problem(skills, tool_names(tools));
    let names = tool_names(tools);
    let ids = plugin_ids(plugins);
    assert forall|i: int| 0 <= i < tools.len() implies names[i] == (
    #[trigger] tools[i]).definition.name by {}
    assert forall|i: int| 0 <= i < plugins.len() implies ids[i] == (
    #[trigger] plugins[i]).descriptor.id by {}
    if repeated(names) is None {
        assert forall|i: int, j: int| 0 <= i < j < tools.len() implies (
        #[trigger] tools[i]).definition.name != (#[trigger] tools[j]).definition.name by {
            assert(names[i] != names[j]);
        }
    } else {
        let (i, j) = choose|i: int, j: int|
            0 <= i < j < names.len() && #[trigger] names[i] == repeated(names)->0
                && #[trigger] names[j] == repeated(names)->0;
        assert(tools[i].definition.name == tools[j].definition.name);
    }
    if repeated(ids) is None {
        assert forall|i: int, j: int| 0 <= i < j < plugins.len() implies (
        #[trigger] plugins[i]).descriptor.id != (#[trigger] plugins[j]).descriptor.id by {
            assert(ids[i] != ids[j]);
        }
    } else {
        let (i, j) = choose|i: int, j: int|
            0 <= i < j < ids.len() && #[trigger] ids[i] == repeated(ids)->0 && #[trigger] ids[j]
                == repeated(ids)->0;
        assert(plugins[i].descriptor.id == plugins[j].descriptor.id);
    }
}

} // verus!
