//! Rendering of the system prompt.

use crate::domain::config::{environment_xml, AgentConfig, EnvironmentView};
use crate::domain::types::{Memory, MemoryView, SkillDefinition, SkillView};
use crate::ports::plugin::{PluginDescriptor, PluginView};
use crate::prompt::templates::{render_memory_read_path, MEMORY_READ_PATH_HEAD};
use crate::text::{is_blank, join, joined, trimmed};
use vstd::prelude::*;
use vstd::string::*;

verus! {

broadcast use vstd::std_specs::vec::vec_clone_deep_view_proof;

/// What a prompt is built from, besides the configuration.
#[derive(Debug, Clone, PartialEq, Eq)]
pub struct PromptBuildContext {
    /// Skills listed to the model.
    pub implicit_skills: Vec<SkillDefinition>,
    /// Active plugins.
    pub plugins: Vec<PluginDescriptor>,
    /// Memories of the turn.
    pub memories: Vec<Memory>,
    /// Sections appended by plugins.
    pub dynamic_sections: Vec<String>,
}

impl Default for PromptBuildContext {
    fn default() -> (r: Self)
        ensures
            r.implicit_skills@.len() == 0,
            r.plugins@.len() == 0,
            r.memories@.len() == 0,
            r.dynamic_sections@.len() == 0,
    {
        PromptBuildContext {
            implicit_skills: Vec::new(),
            plugins: Vec::new(),
            memories: Vec::new(),
            dynamic_sections: Vec::new(),
        }
    }
}

/// A rendered prompt.
#[derive(Debug, Clone, PartialEq, Eq)]
pub struct RenderedPrompt {
    /// The whole system prompt.
    pub text: String,
}

/// Renders system prompts.
#[derive(Debug, Clone, Copy)]
pub struct PromptBuilder;

/// The value as a list of at most one.
pub open spec fn optional(value: Option<Seq<char>>) -> Seq<Seq<char>> {
    match value {
        Some(text) => seq![text],
        None => Seq::empty(),
    }
}

/// The trimmed text, unless nothing is left of it.
pub open spec fn normalized(text: Option<Seq<char>>) -> Option<Seq<char>> {
    match text {
        Some(t) => if is_blank(t) {
            None
        } else {
            Some(trimmed(t))
        },
        None => None,
    }
}

/// The trimmed texts that are not blank, in order.
pub open spec fn meaningful(texts: Seq<Seq<char>>) -> Seq<Seq<char>>
    decreases texts.len(),
{
    if texts.len() == 0 {
        Seq::empty()
    } else {
        meaningful(texts.drop_last()) + optional(normalized(Some(texts.last())))
    }
}

/// The texts that are not blank, in order and as they are.
pub open spec fn not_blank(texts: Seq<Seq<char>>) -> Seq<Seq<char>>
    decreases texts.len(),
{
    if texts.len() == 0 {
        Seq::empty()
    } else if is_blank(texts.last()) {
        not_blank(texts.drop_last())
    } else {
        not_blank(texts.drop_last()).push(texts.last())
    }
}

/// A body between an opening and a closing tag, each on its own line.
pub open spec fn tagged(tag: Seq<char>, body: Seq<char>) -> Seq<char> {
    "<"@ + tag + ">\n"@ + body + "\n</"@ + tag + ">"@
}

/// The section of project instructions.
pub open spec fn instructions_section(instructions: Seq<Seq<char>>) -> Option<Seq<char>> {
    if meaningful(instructions).len() == 0 {
        None
    } else {
        Some(tagged("system_instructions"@, joined(meaningful(instructions), "\n\n"@)))
    }
}

/// The section of the session's own prompt.
pub open spec fn override_section(text: Option<Seq<char>>) -> Option<Seq<char>> {
    match normalized(text) {
        Some(t) => Some(tagged("system_prompt_override"@, t)),
        None => None,
    }
}

/// The section of the communication style.
pub open spec fn personality_section(text: Option<Seq<char>>) -> Option<Seq<char>> {
    match normalized(text) {
        Some(t) => Some(
            "<personality_spec>\nUser has requested new communication style. Follow the instructions below:\n\n"@
                + t + "\n</personality_spec>"@,
        ),
        None => None,
    }
}

/// One skill of the list.
pub open spec fn skill_line(skill: SkillView) -> Seq<char> {
    "- "@ + skill.name + ": "@ + skill.description
}

/// Text in front of the skill list.
pub const SKILLS_HEAD: &'static str =
    "## Skills\n\nBelow is the list of skills available in this session. Each skill is a\nreusable prompt template that can be invoked by the user.\n\n### Available skills\n";

/// Text behind the skill list.
pub const SKILLS_TAIL: &'static str =
    "\n\n### How to use skills\n- Trigger rules: Skills are activated ONLY when the user explicitly\n  uses /skill_name syntax. Do not activate skills on your own.\n- If the user invokes a skill, follow the skill's prompt instructions\n  for that turn. Multiple invocations mean use them all.\n- If the user writes /something that is not in the skill list,\n  treat it as regular user text and continue with the best fallback.\n- Suggestion: If a task clearly matches a skill's description, you\n  may suggest the user invoke it (e.g., \"you can use /commit for\n  this\"), but do NOT invoke it yourself.\n- Coordination: If multiple skills apply, choose the minimal set and\n  state the order.";

/// The section of listed skills.
pub open spec fn skills_section(skills: Seq<SkillView>) -> Option<Seq<char>> {
    if skills.len() == 0 {
        None
    } else {
        Some(
            SKILLS_HEAD@ + joined(skills.map_values(|skill: SkillView| skill_line(skill)), "\n"@)
                + SKILLS_TAIL@,
        )
    }
}

/// One plugin of the list.
pub open spec fn plugin_line(plugin: PluginView) -> Seq<char> {
    "- "@ + plugin.id + " ("@ + plugin.display_name + "): "@ + plugin.description
}

/// Text in front of the plugin list.
pub const PLUGINS_HEAD: &'static str =
    "## Plugins\n\nThe following plugins are active in this session. Plugins extend the\nagent's capabilities by hooking into lifecycle events.\n\n### Active plugins\n";

/// The section of active plugins.
pub open spec fn plugins_section(plugins: Seq<PluginView>) -> Option<Seq<char>> {
    if plugins.len() == 0 {
        None
    } else {
        Some(
            PLUGINS_HEAD@ + joined(
                plugins.map_values(|plugin: PluginView| plugin_line(plugin)),
                "\n"@,
            ),
        )
    }
}

/// One memory of the list.
pub open spec fn memory_line(memory: MemoryView) -> Seq<char> {
    let tags = if memory.tags.len() == 0 {
        Seq::empty()
    } else {
        "; tags: "@ + joined(memory.tags, ", "@)
    };
    "- ["@ + memory.id + "] "@ + memory.content + " (source: "@ + memory.source + tags + ")"@
}

/// The section of memories.
pub open spec fn memories_section(memories: Seq<MemoryView>) -> Option<Seq<char>> {
    if memories.len() == 0 {
        None
    } else {
        Some(
            MEMORY_READ_PATH_HEAD@ + joined(
                memories.map_values(|memory: MemoryView| memory_line(memory)),
                "\n"@,
            ),
        )
    }
}

/// The section of the host environment.
pub open spec fn environment_section(environment: Option<EnvironmentView>) -> Option<Seq<char>> {
    match environment {
        Some(env) => Some(environment_xml(env)),
        None => None,
    }
}

/// The sections of a prompt, in their order.
pub open spec fn prompt_sections(
    instructions: Seq<Seq<char>>,
    override_text: Option<Seq<char>>,
    personality: Option<Seq<char>>,
    environment: Option<EnvironmentView>,
    skills: Seq<SkillView>,
    plugins: Seq<PluginView>,
    memories: Seq<MemoryView>,
    dynamic_sections: Seq<Seq<char>>,
) -> Seq<Seq<char>> {
    optional(instructions_section(instructions)) + optional(override_section(override_text))
        + optional(personality_section(personality)) + optional(skills_section(skills)) + optional(
        plugins_section(plugins),
    ) + optional(memories_section(memories)) + optional(environment_section(environment))
        + not_blank(dynamic_sections)
}

/// The trimmed text, unless nothing is left of it.
pub fn normalize_optional_text<'a>(text: Option<&'a str>) -> (r: Option<&'a str>)
    ensures
        r.deep_view() == normalized(text.deep_view()),
{
    match text {
        Some(t) => {
            let t = t.trim();
            if t.is_empty() {
                None
            } else {
                Some(t)
            }
        },
        None => None,
    }
}

/// Renders the section of project instructions.
pub fn render_system_instructions(system_instructions: &Vec<String>) -> (r: Option<String>)
    ensures
        r.deep_view() == instructions_section(system_instructions.deep_view()),
{
    let ghost all = system_instructions.deep_view();
    let mut kept: Vec<String> = Vec::new();
    let mut i: usize = 0;
    proof {
        assert(kept.deep_view() =~= meaningful(all.take(0)));
    }
    while i < system_instructions.len()
        invariant
            i <= system_instructions.len(),
            all == system_instructions.deep_view(),
            kept.deep_view() == meaningful(all.take(i as int)),
        decreases system_instructions.len() - i,
    {
        let ghost before = kept.deep_view();
        let instruction = system_instructions[i].as_str().trim();
        proof {
            assert(all.take(i + 1).drop_last() =~= all.take(i as int));
            assert(all.take(i + 1).last() == system_instructions[i as int]@);
        }
        if !instruction.is_empty() {
            kept.push(instruction.to_owned());
            proof {
                assert(kept.deep_view() =~= before + seq![instruction@]);
            }
        } else {
            proof {
                assert(kept.deep_view() =~= before + Seq::<Seq<char>>::empty());
            }
        }
        i += 1;
    }
    proof {
        assert(all.take(all.len() as int) =~= all);
    }
    if kept.len() == 0 {
        return None;
    }
    Some(render_tagged_section("system_instructions", join(&kept, "\n\n").as_str()))
}

/// Wraps a body in a tag.
pub fn render_tagged_section(tag: &str, body: &str) -> (r: String)
    ensures
        r@ == tagged(tag@, body@),
{
    "<".to_owned().concat(tag).concat(">\n").concat(body).concat("\n</").concat(tag).concat(">")
}

/// Renders the section of the communication style.
pub fn render_personality_section(personality: &str) -> (r: String)
    ensures
        r@
            == "<personality_spec>\nUser has requested new communication style. Follow the instructions below:\n\n"@
            + personality@ + "\n</personality_spec>"@,
{
    "<personality_spec>\nUser has requested new communication style. Follow the instructions below:\n\n".to_owned().concat(
        personality,
    ).concat("\n</personality_spec>")
}

/// Renders the section of listed skills.
pub fn render_skill_list_section(skills: &Vec<SkillDefinition>) -> (r: Option<String>)
    ensures
        r.deep_view() == skills_section(skills.deep_view()),
{
    if skills.len() == 0 {
        return None;
    }
    let ghost wanted = skills.deep_view().map_values(|skill: SkillView| skill_line(skill));
    let mut lines: Vec<String> = Vec::new();
    let mut i: usize = 0;
    while i < skills.len()
        invariant
            i <= skills.len(),
            wanted == skills.deep_view().map_values(|skill: SkillView| skill_line(skill)),
            lines.deep_view() =~= wanted.take(i as int),
        decreases skills.len() - i,
    {
        let ghost before = lines.deep_view();
        let skill = &skills[i];
        lines.push(
            "- ".to_owned().concat(skill.name.as_str()).concat(": ").concat(
                skill.description.as_str(),
            ),
        );
        proof {
            assert(lines.deep_view() =~= before.push(wanted[i as int]));
        }
        i += 1;
    }
    proof {
        assert(wanted.take(skills.len() as int) =~= wanted);
    }
    Some(SKILLS_HEAD.to_owned().concat(join(&lines, "\n").as_str()).concat(SKILLS_TAIL))
}

/// Renders the section of active plugins.
pub fn render_plugin_list_section(plugins: &Vec<PluginDescriptor>) -> (r: Option<String>)
    ensures
        r.deep_view() == plugins_section(plugins.deep_view()),
{
    if plugins.len() == 0 {
        return None;
    }
    let ghost wanted = plugins.deep_view().map_values(|plugin: PluginView| plugin_line(plugin));
    let mut lines: Vec<String> = Vec::new();
    let mut i: usize = 0;
    while i < plugins.len()
        invariant
            i <= plugins.len(),
            wanted == plugins.deep_view().map_values(|plugin: PluginView| plugin_line(plugin)),
            lines.deep_view() =~= wanted.take(i as int),
        decreases plugins.len() - i,
    {
        let ghost before = lines.deep_view();
        let plugin = &plugins[i];
        lines.push(
            "- ".to_owned().concat(plugin.id.as_str()).concat(" (").concat(
                plugin.display_name.as_str(),
            ).concat("): ").concat(plugin.description.as_str()),
        );
        proof {
            assert(lines.deep_view() =~= before.push(wanted[i as int]));
        }
        i += 1;
    }
    proof {
        assert(wanted.take(plugins.len() as int) =~= wanted);
    }
    Some(PLUGINS_HEAD.to_owned().concat(join(&lines, "\n").as_str()))
}

fn render_memory_item(memory: &Memory) -> (r: String)
    ensures
        r@ == memory_line(memory.deep_view()),
{
    let tags_suffix = if memory.tags.len() == 0 {
        String::new()
    } else {
        "; tags: ".to_owned().concat(join(&memory.tags, ", ").as_str())
    };
    "- [".to_owned().concat(memory.id.as_str()).concat("] ").concat(
        memory.content.as_str(),
    ).concat(" (source: ").concat(memory.source.as_str()).concat(tags_suffix.as_str()).concat(")")
}

/// Renders the section of memories.
pub fn render_memories_section(memories: &Vec<Memory>) -> (r: Option<String>)
    ensures
        r.deep_view() == memories_section(memories.deep_view()),
{
    if memories.len() == 0 {
        return None;
    }
    let ghost wanted = memories.deep_view().map_values(|memory: MemoryView| memory_line(memory));
    let mut lines: Vec<String> = Vec::new();
    let mut i: usize = 0;
    while i < memories.len()
        invariant
            i <= memories.len(),
            wanted == memories.deep_view().map_values(|memory: MemoryView| memory_line(memory)),
            lines.deep_view() =~= wanted.take(i as int),
        decreases memories.len() - i,
    {
        let ghost before = lines.deep_view();
        lines.push(render_memory_item(&memories[i]));
        proof {
            assert(lines.deep_view() =~= before.push(wanted[i as int]));
        }
        i += 1;
    }
    proof {
        assert(wanted.take(memories.len() as int) =~= wanted);
    }
    Some(render_memory_read_path(join(&lines, "\n").as_str()))
}

fn push_optional(sections: &mut Vec<String>, section: Option<String>)
    ensures
        final(sections).deep_view() == old(sections).deep_view() + optional(section.deep_view()),
{
    match section {
        Some(text) => {
            sections.push(text);
        },
        None => {},
    }
    proof {
        assert(sections.deep_view() =~= old(sections).deep_view() + optional(section.deep_view()));
    }
}

impl PromptBuilder {
    /// A builder.
    pub fn new() -> (r: Self)
        ensures
            r == PromptBuilder,
    {
        PromptBuilder
    }

    /// Renders the system prompt: its sections in order, a blank line between
    /// each two.
    pub fn build(
        &self,
        agent_config: &AgentConfig,
        system_prompt_override: Option<&str>,
        context: &PromptBuildContext,
    ) -> (r: RenderedPrompt)
        ensures
            r.text@ == joined(
                prompt_sections(
                    agent_config.system_instructions.deep_view(),
                    system_prompt_override.deep_view(),
                    agent_config.personality.deep_view(),
                    agent_config.environment_context.deep_view(),
                    context.implicit_skills.deep_view(),
                    context.plugins.deep_view(),
                    context.memories.deep_view(),
                    context.dynamic_sections.deep_view(),
                ),
                "\n\n"@,
            ),
    {
        let mut sections: Vec<String> = Vec::new();
        proof {
            assert(sections.deep_view() =~= Seq::<Seq<char>>::empty());
        }
        push_optional(
            &mut sections,
            render_system_instructions(&agent_config.system_instructions),
        );
        proof {
            assert(sections.deep_view() =~= optional(
                instructions_section(agent_config.system_instructions.deep_view()),
            ));
        }
        push_optional(
            &mut sections,
            match normalize_optional_text(system_prompt_override) {
                Some(text) => Some(render_tagged_section("system_prompt_override", text)),
                None => None,
            },
        );
        let personality = match &agent_config.personality {
            Some(text) => Some(text.as_str()),
            None => None,
        };
        push_optional(
            &mut sections,
            match normalize_optional_text(personality) {
                Some(text) => Some(render_personality_section(text)),
                None => None,
            },
        );
        push_optional(&mut sections, render_skill_list_section(&context.implicit_skills));
        push_optional(&mut sections, render_plugin_list_section(&context.plugins));
        push_optional(&mut sections, render_memories_section(&context.memories));
        push_optional(
            &mut sections,
            match &agent_config.environment_context {
                Some(environment) => Some(environment.serialize_to_xml()),
                None => None,
            },
        );
        let ghost head = sections.deep_view();
        let ghost all = context.dynamic_sections.deep_view();
        let mut i: usize = 0;
        proof {
            assert(sections.deep_view() =~= head + not_blank(all.take(0)));
        }
        while i < context.dynamic_sections.len()
            invariant
                i <= context.dynamic_sections.len(),
                all == context.dynamic_sections.deep_view(),
                sections.deep_view() == head + not_blank(all.take(i as int)),
            decreases context.dynamic_sections.len() - i,
        {
            let ghost before = sections.deep_view();
            let section = &context.dynamic_sections[i];
            proof {
                assert(all.take(i + 1).drop_last() =~= all.take(i as int));
                assert(all.take(i + 1).last() == section@);
            }
            if !section.as_str().trim().is_empty() {
                sections.push(section.clone());
                proof {
                    assert(sections.deep_view() =~= before.push(section@));
                    assert(sections.deep_view() =~= head + not_blank(all.take(i + 1)));
                }
            }
            i += 1;
        }
        proof {
            assert(all.take(all.len() as int) =~= all);
        }
        RenderedPrompt { text: join(&sections, "\n\n") }
    }
}

} // verus!
