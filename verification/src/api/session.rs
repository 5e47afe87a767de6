//! Session handles: what a message is checked for and what its turn works with.

use crate::api::agent::{provider_of, AgentKernel};
use crate::application::session_control::{close_begun, turn_started, AgentControl};
use crate::application::session_runtime::{RuntimeView, SessionRuntime};
use crate::application::skill_manager::{
    injection_of, input_names, known_skills, listed_skills, unknown_names,
};
use crate::application::tool_dispatcher::{RegisteredTool, ToolDispatcher, ToolLimits};
use crate::application::turn_rules::turn_sound;
use crate::application::turn_state::{StageView, Turn, TurnDeps};
use crate::domain::error::{invalid_input, outcome, AgentErrorView, Result};
use crate::domain::ledger::successor;
use crate::domain::types::{
    ContentBlock, ContentBlockView, Message, MessageView, SkillDefinition, SkillView, UserInput,
};
use crate::ports::model::{ModelCapabilities, ToolDefinition, ToolDefinitionView};
use crate::prompt::templates::DEFAULT_COMPACT_PROMPT;
use crate::registry::Registry;
use crate::text::{decimal, is_blank};
use vstd::prelude::*;
use vstd::string::*;

verus! {

broadcast use vstd::std_specs::vec::vec_clone_deep_view_proof;

/// A handle of the active session.
#[derive(Debug, Clone)]
pub struct SessionHandle {
    session_id: String,
    model_id: String,
    memory_namespace: String,
    system_prompt_override: Option<String>,
}

/// Model of [`SessionHandle`].
#[verifier::ext_equal]
pub struct HandleView {
    pub session_id: Seq<char>,
    pub model_id: Seq<char>,
    pub memory_namespace: Seq<char>,
    pub system_prompt_override: Option<Seq<char>>,
}

impl DeepView for SessionHandle {
    type V = HandleView;

    closed spec fn deep_view(&self) -> HandleView {
        HandleView {
            session_id: self.session_id@,
            model_id: self.model_id@,
            memory_namespace: self.memory_namespace@,
            system_prompt_override: self.system_prompt_override.deep_view(),
        }
    }
}

/// Two handles are equal where they belong to one session.
impl PartialEq for SessionHandle {
    fn eq(&self, other: &Self) -> (r: bool) {
        self.session_id == other.session_id
    }
}

impl Eq for SessionHandle {

}

impl vstd::std_specs::cmp::PartialEqSpecImpl for SessionHandle {
    open spec fn obeys_eq_spec() -> bool {
        true
    }

    open spec fn eq_spec(&self, other: &Self) -> bool {
        self.deep_view().session_id == other.deep_view().session_id
    }
}

/// The handle of a session.
pub open spec fn handle_of(rt: RuntimeView) -> HandleView {
    HandleView {
        session_id: rt.session_id,
        model_id: rt.model_id,
        memory_namespace: rt.memory_namespace,
        system_prompt_override: rt.system_prompt_override,
    }
}

// ---------------------------------------------------------------------------
// Checks of an input
// ---------------------------------------------------------------------------
/// What is wrong with a content block, if anything.
pub open spec fn block_problem(block: ContentBlockView, vision: bool) -> Option<Seq<char>> {
    match block {
        ContentBlockView::Text(_) => None,
        ContentBlockView::Image { data, media_type } => if !vision {
            Some("current model does not support image input"@)
        } else if is_blank(data) || is_blank(media_type) {
            Some("image input must contain non-empty data and media_type"@)
        } else {
            None
        },
        ContentBlockView::File { name, media_type, text } => if is_blank(name) || is_blank(
            media_type,
        ) || is_blank(text) {
            Some("file input must contain non-empty name, media_type and text"@)
        } else {
            None
        },
    }
}

/// The first problem of content blocks, if any.
pub open spec fn first_problem(blocks: Seq<ContentBlockView>, vision: bool) -> Option<Seq<char>>
    decreases blocks.len(),
{
    if blocks.len() == 0 {
        None
    } else {
        match first_problem(blocks.drop_last(), vision) {
            Some(problem) => Some(problem),
            None => block_problem(blocks.last(), vision),
        }
    }
}

/// Whether a content block says anything.
pub open spec fn has_content(block: ContentBlockView) -> bool {
    match block {
        ContentBlockView::Text(text) => !is_blank(text),
        _ => true,
    }
}

/// What is wrong with an input, if anything.
pub open spec fn input_problem(blocks: Seq<ContentBlockView>, vision: bool) -> Option<Seq<char>> {
    if blocks.len() == 0 {
        Some("user input must contain at least one content block"@)
    } else {
        match first_problem(blocks, vision) {
            Some(problem) => Some(problem),
            None => if exists|i: int| 0 <= i < blocks.len() && has_content(#[trigger] blocks[i]) {
                None
            } else {
                Some("user input must contain non-empty content"@)
            },
        }
    }
}

proof fn lemma_first_problem_prefix(blocks: Seq<ContentBlockView>, vision: bool, count: int)
    requires
        0 <= count <= blocks.len(),
        first_problem(blocks.take(count), vision) is Some,
    ensures
        first_problem(blocks, vision) == first_problem(blocks.take(count), vision),
    decreases blocks.len() - count,
{
    if count == blocks.len() {
        assert(blocks.take(count) =~= blocks);
    } else {
        assert(blocks.take(count + 1).drop_last() =~= blocks.take(count));
        lemma_first_problem_prefix(blocks, vision, count + 1);
    }
}

fn blank(text: &String) -> (r: bool)
    ensures
        r == is_blank(text@),
{
    text.as_str().trim().is_empty()
}

/// Checks an input before anything else is done with it.
pub fn validate_user_input(input: &UserInput, capabilities: ModelCapabilities) -> (r: Result<()>)
    ensures
        match input_problem(input.deep_view(), capabilities.vision) {
            Some(message) => r matches Err(error) && error.deep_view()
                == (AgentErrorView::InputValidation { message }),
            None => r is Ok,
        },
{
    let ghost all = input.deep_view();
    if input.content.len() == 0 {
        return Err(invalid_input("user input must contain at least one content block"));
    }
    let mut has_meaningful_content = false;
    let mut i: usize = 0;
    while i < input.content.len()
        invariant
            i <= input.content.len(),
            input.content.len() > 0,
            all == input.content.deep_view(),
            first_problem(all.take(i as int), capabilities.vision) is None,
            has_meaningful_content == exists|j: int|
                0 <= j < i && has_content(#[trigger] all[j]),
        decreases input.content.len() - i,
    {
        proof {
            assert(all.take(i + 1).drop_last() =~= all.take(i as int));
            assert(all[i as int] == input.content[i as int].deep_view());
            assert(all.take(i + 1).last() == all[i as int]);
            if first_problem(all.take(i + 1), capabilities.vision) is Some {
                lemma_first_problem_prefix(all, capabilities.vision, i + 1);
            }
        }
        match &input.content[i] {
            ContentBlock::Text(text) => {
                if !blank(text) {
                    has_meaningful_content = true;
                }
            },
            ContentBlock::Image { data, media_type } => {
                if !capabilities.vision {
                    return Err(invalid_input("current model does not support image input"));
                }
                if blank(data) || blank(media_type) {
                    return Err(
                        invalid_input("image input must contain non-empty data and media_type"),
                    );
                }
                has_meaningful_content = true;
            },
            ContentBlock::File { name, media_type, text } => {
                if blank(name) || blank(media_type) || blank(text) {
                    return Err(
                        invalid_input(
                            "file input must contain non-empty name, media_type and text",
                        ),
                    );
                }
                has_meaningful_content = true;
            },
        }
        i += 1;
    }
    proof {
        assert(all.take(all.len() as int) =~= all);
    }
    if !has_meaningful_content {
        return Err(invalid_input("user input must contain non-empty content"));
    }
    Ok(())
}

// ---------------------------------------------------------------------------
// Messages
// ---------------------------------------------------------------------------
/// A message whose turn has been admitted.
#[derive(Debug)]
pub struct PendingTurn {
    /// The message.
    pub input: UserInput,
    /// Messages of the skills that it invokes.
    pub skill_injections: Vec<Message>,
}

/// The messages of the skills that an input invokes, or why it is refused.
pub open spec fn checked_message(
    kernel: AgentKernel,
    model_id: Seq<char>,
    input: Seq<ContentBlockView>,
) -> std::result::Result<Seq<MessageView>, AgentErrorView> {
    match kernel.models.model(model_id) {
        None => Err(AgentErrorView::ModelNotSupported(model_id)),
        Some(model) => match input_problem(input, model.info.capabilities.vision) {
            Some(message) => Err(AgentErrorView::InputValidation { message }),
            None => {
                let skills = kernel.skills.deep_view();
                let names = input_names(input);
                if unknown_names(skills, names).len() > 0 {
                    Err(AgentErrorView::SkillNotFound(unknown_names(skills, names)[0]))
                } else {
                    Ok(
                        known_skills(skills, names).map_values(
                            |skill: SkillView| injection_of(skill),
                        ),
                    )
                }
            },
        },
    }
}

impl PendingTurn {
    /// The turn of the message, which takes the session's next number.
    pub fn begin(self, runtime: &mut SessionRuntime) -> (r: Turn)
        ensures
            final(runtime).deep_view() == (RuntimeView {
                turn_index: successor(old(runtime).deep_view().turn_index),
                ..old(runtime).deep_view()
            }),
            r.deep_view().turn_id == "turn-"@ + decimal(
                successor(old(runtime).deep_view().turn_index) as nat,
            ),
            r.deep_view().input == self.input.deep_view(),
            r.deep_view().skill_injections == self.skill_injections.deep_view(),
            r.deep_view().stage == StageView::Start,
            r.deep_view().sections.len() == 0,
            r.deep_view().memories.len() == 0,
            r.deep_view().allow_tools,
            !r.deep_view().limit_reached,
            !r.deep_view().retried,
            r.deep_view().tool_calls_count == 0,
            r.deep_view().outbox.len() == 0,
            r.deep_view().saving is None,
            r.deep_view().dispatch is None,
            turn_sound(r.deep_view()),
    {
        let turn_id = runtime.allocate_turn_id();
        Turn::begin(turn_id, self.input, self.skill_injections)
    }
}

/// What a turn works with, and the providers behind its models.
pub struct TurnSetup<'a> {
    /// What the turn works with.
    pub deps: TurnDeps<'a>,
    /// Id of the provider of the session's model.
    pub provider: String,
    /// Id of the provider of the model for compaction.
    pub compact_provider: String,
    /// Id of the provider of the model for memory extraction, if there is one.
    pub memory_provider: Option<String>,
}

/// The model for compaction: the configured one, or the session's.
pub open spec fn compact_model_of(kernel: AgentKernel, model_id: Seq<char>) -> Seq<char> {
    match kernel.config.compact_model {
        Some(id) => id@,
        None => model_id,
    }
}

/// The model for memory extraction: the configured one, or the session's.
pub open spec fn memory_model_of(kernel: AgentKernel, model_id: Seq<char>) -> Seq<char> {
    match kernel.config.memory_model {
        Some(id) => id@,
        None => model_id,
    }
}

/// The prompt for compaction: the configured one, or the default.
pub open spec fn compact_prompt_of(kernel: AgentKernel) -> Seq<char> {
    match kernel.config.compact_prompt {
        Some(text) => text@,
        None => DEFAULT_COMPACT_PROMPT@,
    }
}

/// The definitions of registered tools, in order.
pub open spec fn definitions_of(tools: Registry<RegisteredTool>) -> Seq<ToolDefinitionView> {
    tools.values().map_values(|tool: RegisteredTool| tool.definition.deep_view())
}

/// The first model that cannot be had, if any.
pub open spec fn setup_problem(kernel: AgentKernel, model_id: Seq<char>) -> Option<AgentErrorView> {
    match provider_of(kernel.models, model_id) {
        Err(problem) => Some(problem),
        Ok(_) => match provider_of(kernel.models, compact_model_of(kernel, model_id)) {
            Err(problem) => Some(problem),
            Ok(_) => if kernel.has_memory_storage {
                match provider_of(kernel.models, memory_model_of(kernel, model_id)) {
                    Err(problem) => Some(problem),
                    Ok(_) => None,
                }
            } else {
                None
            },
        },
    }
}

fn collect_definitions(tools: &Registry<RegisteredTool>) -> (r: Vec<ToolDefinition>)
    ensures
        r.deep_view() == definitions_of(*tools),
{
    let items = tools.items();
    let ghost wanted = definitions_of(*tools);
    let mut out: Vec<ToolDefinition> = Vec::new();
    let mut i: usize = 0;
    while i < items.len()
        invariant
            i <= items.len(),
            items@ == tools.values(),
            wanted == definitions_of(*tools),
            out.deep_view() =~= wanted.take(i as int),
        decreases items.len() - i,
    {
        let ghost before = out.deep_view();
        out.push(items[i].definition.clone());
        proof {
            assert(out.deep_view() =~= before.push(wanted[i as int]));
        }
        i += 1;
    }
    proof {
        assert(wanted.take(wanted.len() as int) =~= wanted);
    }
    out
}

fn collect_listed(kernel: &AgentKernel) -> (r: Vec<SkillDefinition>)
    ensures
        r.deep_view() == listed_skills(kernel.skills.deep_view()),
{
    let listed = kernel.skills.implicit_skills();
    let ghost wanted = listed.deep_view();
    let mut out: Vec<SkillDefinition> = Vec::new();
    let mut i: usize = 0;
    while i < listed.len()
        invariant
            i <= listed.len(),
            wanted == listed.deep_view(),
            out.deep_view() =~= wanted.take(i as int),
        decreases listed.len() - i,
    {
        let ghost before = out.deep_view();
        out.push(listed[i].clone());
        proof {
            assert(out.deep_view() =~= before.push(wanted[i as int]));
        }
        i += 1;
    }
    proof {
        assert(wanted.take(wanted.len() as int) =~= wanted);
    }
    out
}

fn or_else(choice: &Option<String>, default: &str) -> (r: String)
    ensures
        r@ == (match choice {
            Some(text) => text@,
            None => default@,
        }),
{
    match choice {
        Some(text) => text.clone(),
        None => default.to_owned(),
    }
}

impl SessionHandle {
    /// The handle of a session.
    pub fn new(runtime: &SessionRuntime) -> (r: Self)
        ensures
            r.deep_view() == handle_of(runtime.deep_view()),
    {
        SessionHandle {
            session_id: runtime.session_id.clone(),
            model_id: runtime.model_id.clone(),
            memory_namespace: runtime.memory_namespace.clone(),
            system_prompt_override: runtime.system_prompt_override.clone(),
        }
    }

    /// Session id.
    pub fn session_id(&self) -> (r: &str)
        ensures
            r@ == self.deep_view().session_id,
    {
        self.session_id.as_str()
    }

    /// Model that the session is bound to.
    pub fn model_id(&self) -> (r: &str)
        ensures
            r@ == self.deep_view().model_id,
    {
        self.model_id.as_str()
    }

    /// Memory namespace that the session is bound to.
    pub fn memory_namespace(&self) -> (r: &str)
        ensures
            r@ == self.deep_view().memory_namespace,
    {
        self.memory_namespace.as_str()
    }

    /// Addition to the system prompt.
    pub fn system_prompt_override(&self) -> (r: Option<&str>)
        ensures
            r.deep_view() == self.deep_view().system_prompt_override,
    {
        match &self.system_prompt_override {
            Some(text) => Some(text.as_str()),
            None => None,
        }
    }

    /// Checks a message and works out the messages of the skills that it
    /// invokes.
    pub fn check_message(&self, kernel: &AgentKernel, input: &UserInput) -> (r: Result<Vec<Message>>)
        ensures
            outcome(r) == checked_message(*kernel, self.deep_view().model_id, input.deep_view()),
    {
        let capabilities = match kernel.models.resolve_model(self.model_id.as_str()) {
            Ok(model) => model.info.capabilities,
            Err(error) => {
                return Err(error);
            },
        };
        match validate_user_input(input, capabilities) {
            Ok(_) => {},
            Err(error) => {
                return Err(error);
            },
        }
        kernel.skills.injections(input)
    }

    /// Admits a message: it is checked first, and only one turn runs at a time.
    pub fn send_message(
        &self,
        kernel: &AgentKernel,
        control: &mut AgentControl,
        input: UserInput,
    ) -> (r: Result<PendingTurn>)
        ensures
            match checked_message(*kernel, self.deep_view().model_id, input.deep_view()) {
                Err(problem) => {
                    &&& final(control).deep_view() == old(control).deep_view()
                    &&& r matches Err(error) && error.deep_view() == problem
                },
                Ok(injections) => {
                    let (after, started) = turn_started(
                        old(control).deep_view(),
                        self.deep_view().session_id,
                    );
                    &&& final(control).deep_view() == after
                    &&& match started {
                        Err(problem) => r matches Err(error) && error.deep_view() == problem,
                        Ok(_) => r matches Ok(pending) && pending.input.deep_view()
                            == input.deep_view() && pending.skill_injections.deep_view()
                            == injections,
                    }
                },
            },
    {
        let skill_injections = match self.check_message(kernel, &input) {
            Ok(messages) => messages,
            Err(error) => {
                return Err(error);
            },
        };
        match control.start_turn(self.session_id.as_str()) {
            Ok(_) => Ok(PendingTurn { input, skill_injections }),
            Err(error) => Err(error),
        }
    }

    /// Begins to close the session; tells whether a turn is to be ended first.
    pub fn close(&self, control: &mut AgentControl) -> (r: Result<bool>)
        ensures
            (final(control).deep_view(), outcome(r)) == close_begun(
                old(control).deep_view(),
                self.deep_view().session_id,
            ),
    {
        control.begin_close(self.session_id.as_str())
    }

    /// What the turns of the session work with.
    pub fn turn_setup<'a>(&self, kernel: &'a AgentKernel) -> (r: Result<TurnSetup<'a>>)
        ensures
            match setup_problem(*kernel, self.deep_view().model_id) {
                Some(problem) => r matches Err(error) && error.deep_view() == problem,
                None => r matches Ok(setup) && {
                    let model_id = self.deep_view().model_id;
                    let compact_model = compact_model_of(*kernel, model_id);
                    let memory_model = memory_model_of(*kernel, model_id);
                    let models = kernel.models;
                    &&& Ok::<_, AgentErrorView>(setup.provider@) == provider_of(models, model_id)
                    &&& Ok::<_, AgentErrorView>(setup.compact_provider@) == provider_of(
                        models,
                        compact_model,
                    )
                    &&& if kernel.has_memory_storage {
                        &&& setup.deps.memory_model_id matches Some(id) && id@ == memory_model
                        &&& setup.memory_provider matches Some(id) && Ok::<_, AgentErrorView>(
                            id@,
                        ) == provider_of(models, memory_model)
                    } else {
                        &&& setup.deps.memory_model_id is None
                        &&& setup.memory_provider is None
                    }
                    &&& setup.deps.config == kernel.config
                    &&& models.model(model_id) matches Some(model) && setup.deps.capabilities
                        == model.info.capabilities
                    &&& models.model(compact_model) matches Some(model)
                        && setup.deps.compact_capabilities == model.info.capabilities
                    &&& setup.deps.compact_model_id@ == compact_model
                    &&& setup.deps.compact_prompt@ == compact_prompt_of(*kernel)
                    &&& setup.deps.plugins.deep_view() == kernel.plugins.deep_view()
                    &&& setup.deps.implicit_skills.deep_view() == listed_skills(
                        kernel.skills.deep_view(),
                    )
                    &&& setup.deps.tool_definitions.deep_view() == definitions_of(kernel.tools)
                    &&& *setup.deps.dispatcher.tools == kernel.tools
                    &&& setup.deps.dispatcher.limits == (ToolLimits {
                        timeout_ms: kernel.config.tool_timeout_ms,
                        output_max_bytes: kernel.config.tool_output_max_bytes,
                        metadata_max_bytes: kernel.config.tool_output_metadata_max_bytes,
                    })
                    &&& *setup.deps.hooks == kernel.hooks
                },
            },
    {
        let model_id = self.model_id.as_str();
        let provider = match kernel.models.resolve_provider(model_id) {
            Ok(id) => id,
            Err(error) => {
                return Err(error);
            },
        };
        let capabilities = match kernel.models.resolve_model(model_id) {
            Ok(model) => model.info.capabilities,
            Err(error) => {
                return Err(error);
            },
        };
        let compact_model_id = or_else(&kernel.config.compact_model, model_id);
        let compact_provider = match kernel.models.resolve_provider(compact_model_id.as_str()) {
            Ok(id) => id,
            Err(error) => {
                return Err(error);
            },
        };
        let compact_capabilities = match kernel.models.resolve_model(compact_model_id.as_str()) {
            Ok(model) => model.info.capabilities,
            Err(error) => {
                return Err(error);
            },
        };
        let (memory_model_id, memory_provider) = if kernel.has_memory_storage {
            let memory_model = or_else(&kernel.config.memory_model, model_id);
            match kernel.models.resolve_provider(memory_model.as_str()) {
                Ok(id) => (Some(memory_model), Some(id)),
                Err(error) => {
                    return Err(error);
                },
            }
        } else {
            (None, None)
        };
        Ok(
            TurnSetup {
                deps: TurnDeps {
                    config: &kernel.config,
                    capabilities,
                    plugins: kernel.plugins.clone(),
                    implicit_skills: collect_listed(kernel),
                    tool_definitions: collect_definitions(&kernel.tools),
                    dispatcher: ToolDispatcher {
                        tools: &kernel.tools,
                        limits: ToolLimits {
                            timeout_ms: kernel.config.tool_timeout_ms,
                            output_max_bytes: kernel.config.tool_output_max_bytes,
                            metadata_max_bytes: kernel.config.tool_output_metadata_max_bytes,
                        },
                    },
                    hooks: &kernel.hooks,
                    compact_model_id,
                    compact_capabilities,
                    compact_prompt: or_else(&kernel.config.compact_prompt, DEFAULT_COMPACT_PROMPT),
                    memory_model_id,
                },
                provider,
                compact_provider,
                memory_provider,
            },
        )
    }
}

// ---------------------------------------------------------------------------
// Laws
// ---------------------------------------------------------------------------
/// An input of nothing but blank texts is refused.
pub proof fn law_blank_input_is_refused(blocks: Seq<ContentBlockView>, vision: bool)
    requires
        forall|i: int|
            0 <= i < blocks.len() ==> ((#[trigger] blocks[i]) matches ContentBlockView::Text(text)
                && is_blank(text)),
    ensures
        input_problem(blocks, vision) is Some,
{
}

/// An image is refused exactly where the model takes none or a part of it is
/// blank; a file without a blank part is always taken.
pub proof fn law_blocks_are_judged_alone(block: ContentBlockView, vision: bool)
    ensures
        input_problem(seq![block], vision) is None <==> match block {
            ContentBlockView::Text(text) => !is_blank(text),
            ContentBlockView::Image { data, media_type } => vision && !is_blank(data) && !is_blank(
                media_type,
            ),
            ContentBlockView::File { name, media_type, text } => !is_blank(name) && !is_blank(
                media_type,
            ) && !is_blank(text),
        },
{
    let blocks = seq![block];
    assert(blocks.drop_last() =~= Seq::<ContentBlockView>::empty());
    assert(blocks[0] == block);
    assert(first_problem(blocks.drop_last(), vision) is None);
}

} // verus!
