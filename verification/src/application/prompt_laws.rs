//! Laws of the prompt: everything that is configured for a turn is shown in it,
//! whole and in a fixed order.

use crate::application::prompt_builder::{
    environment_section, instructions_section, meaningful, memories_section, memory_line,
    not_blank, optional, override_section, personality_section, plugin_line, plugins_section,
    prompt_sections, skill_line, skills_section, PLUGINS_HEAD, SKILLS_HEAD, SKILLS_TAIL,
};
use crate::application::session_runtime::RuntimeView;
use crate::application::turn_rules::turn_prompt;
use crate::application::turn_state::{TurnDeps, TurnView};
use crate::domain::config::{environment_xml, EnvironmentView};
use crate::domain::types::{MemoryView, SkillView};
use crate::ports::plugin::PluginView;
use crate::prompt::templates::MEMORY_READ_PATH_HEAD;
use crate::text::{is_blank, joined, trimmed};
use crate::text_laws::{law_joined_texts_are_shown, lemma_shows, lemma_shows_through, shows};
use vstd::prelude::*;
use vstd::string::*;

verus! {

// ---------------------------------------------------------------------------
// Sections
// ---------------------------------------------------------------------------
/// Blank texts are left out, and all others kept in their order, trimmed.
pub proof fn law_blank_texts_are_left_out(texts: Seq<Seq<char>>, text: Seq<char>)
    ensures
        meaningful(Seq::empty()).len() == 0,
        meaningful(texts.push(text)) == (if is_blank(text) {
            meaningful(texts)
        } else {
            meaningful(texts).push(trimmed(text))
        }),
        not_blank(Seq::empty()).len() == 0,
        not_blank(texts.push(text)) == (if is_blank(text) {
            not_blank(texts)
        } else {
            not_blank(texts).push(text)
        }),
{
    assert(texts.push(text).drop_last() =~= texts);
    if is_blank(text) {
        assert(meaningful(texts.push(text)) =~= meaningful(texts));
    } else {
        assert(meaningful(texts.push(text)) =~= meaningful(texts).push(trimmed(text)));
    }
}

proof fn lemma_meaningful_holds(texts: Seq<Seq<char>>, i: int)
    requires
        0 <= i < texts.len(),
        !is_blank(texts[i]),
    ensures
        meaningful(texts).contains(trimmed(texts[i])),
    decreases texts.len(),
{
    let front = texts.drop_last();
    assert(texts =~= front.push(texts.last()));
    law_blank_texts_are_left_out(front, texts.last());
    let before = meaningful(front);
    if i == texts.len() - 1 {
        assert(meaningful(texts)[before.len() as int] == trimmed(texts[i]));
    } else {
        lemma_meaningful_holds(front, i);
        let k = before.index_of(trimmed(texts[i]));
        assert(meaningful(texts)[k] == trimmed(texts[i]));
    }
}

proof fn lemma_not_blank_holds(texts: Seq<Seq<char>>, i: int)
    requires
        0 <= i < texts.len(),
        !is_blank(texts[i]),
    ensures
        not_blank(texts).contains(texts[i]),
    decreases texts.len(),
{
    let front = texts.drop_last();
    assert(texts =~= front.push(texts.last()));
    law_blank_texts_are_left_out(front, texts.last());
    let before = not_blank(front);
    if i == texts.len() - 1 {
        assert(not_blank(texts)[before.len() as int] == texts[i]);
    } else {
        lemma_not_blank_holds(front, i);
        let k = before.index_of(texts[i]);
        assert(not_blank(texts)[k] == texts[i]);
    }
}

/// Every instruction that is not blank is shown.
pub proof fn law_instructions_are_shown(instructions: Seq<Seq<char>>, i: int)
    requires
        0 <= i < instructions.len(),
        !is_blank(instructions[i]),
    ensures
        instructions_section(instructions) matches Some(section) && shows(
            section,
            trimmed(instructions[i]),
        ) && section == "<"@ + "system_instructions"@ + ">\n"@ + joined(
            meaningful(instructions),
            "\n\n"@,
        ) + "\n</"@ + "system_instructions"@ + ">"@,
{
    lemma_meaningful_holds(instructions, i);
    let texts = meaningful(instructions);
    let k = texts.index_of(trimmed(instructions[i]));
    law_joined_texts_are_shown(texts, "\n\n"@, k);
    let body = joined(texts, "\n\n"@);
    let section = instructions_section(instructions)->0;
    lemma_shows(
        section,
        "<"@ + "system_instructions"@ + ">\n"@,
        body,
        "\n</"@ + "system_instructions"@ + ">"@,
    );
    lemma_shows_through(section, body, texts[k]);
}

/// A prompt of the session and a personality are shown trimmed, each in its frame;
/// blank ones are not shown.
pub proof fn law_override_and_personality_are_shown(text: Seq<char>)
    ensures
        is_blank(text) ==> override_section(Some(text)) is None && personality_section(Some(text))
            is None,
        override_section(None) is None,
        personality_section(None) is None,
        !is_blank(text) ==> override_section(Some(text)) == Some(
            "<"@ + "system_prompt_override"@ + ">\n"@ + trimmed(text) + "\n</"@
                + "system_prompt_override"@ + ">"@,
        ),
        !is_blank(text) ==> personality_section(Some(text)) == Some(
            "<personality_spec>\nUser has requested new communication style. Follow the instructions below:\n\n"@
                + trimmed(text) + "\n</personality_spec>"@,
        ),
{
}

/// Every skill is listed with its name and its description.
pub proof fn law_skills_are_listed(skills: Seq<SkillView>, i: int)
    requires
        0 <= i < skills.len(),
    ensures
        skills_section(skills) matches Some(section) && shows(
            section,
            "- "@ + skills[i].name + ": "@ + skills[i].description,
        ),
        skills_section(Seq::empty()) is None,
{
    let lines = skills.map_values(|skill: SkillView| skill_line(skill));
    law_joined_texts_are_shown(lines, "\n"@, i);
    let section = skills_section(skills)->0;
    let body = joined(lines, "\n"@);
    lemma_shows(
        section,
        SKILLS_HEAD@,
        body,
        SKILLS_TAIL@,
    );
    lemma_shows_through(section, body, lines[i]);
}

/// Every plugin is listed with its id, its name and its description.
pub proof fn law_plugins_are_listed(plugins: Seq<PluginView>, i: int)
    requires
        0 <= i < plugins.len(),
    ensures
        plugins_section(plugins) matches Some(section) && shows(
            section,
            "- "@ + plugins[i].id + " ("@ + plugins[i].display_name + "): "@
                + plugins[i].description,
        ),
        plugins_section(Seq::empty()) is None,
{
    let lines = plugins.map_values(|plugin: PluginView| plugin_line(plugin));
    law_joined_texts_are_shown(lines, "\n"@, i);
    let section = plugins_section(plugins)->0;
    let body = joined(lines, "\n"@);
    lemma_shows(section, PLUGINS_HEAD@, body, Seq::empty());
    lemma_shows_through(section, body, lines[i]);
}

/// Every memory is listed with its id, its content, its source and its tags.
pub proof fn law_memories_are_listed(memories: Seq<MemoryView>, i: int)
    requires
        0 <= i < memories.len(),
    ensures
        memories_section(memories) matches Some(section) && {
            let memory = memories[i];
            &&& memory.tags.len() == 0 ==> shows(
                section,
                "- ["@ + memory.id + "] "@ + memory.content + " (source: "@ + memory.source + ")"@,
            )
            &&& memory.tags.len() > 0 ==> shows(
                section,
                "- ["@ + memory.id + "] "@ + memory.content + " (source: "@ + memory.source + (
                "; tags: "@ + joined(memory.tags, ", "@)) + ")"@,
            )
        },
        memories_section(Seq::empty()) is None,
{
    let lines = memories.map_values(|memory: MemoryView| memory_line(memory));
    law_joined_texts_are_shown(lines, "\n"@, i);
    let section = memories_section(memories)->0;
    let body = joined(lines, "\n"@);
    lemma_shows(section, MEMORY_READ_PATH_HEAD@, body, Seq::empty());
    lemma_shows_through(section, body, lines[i]);
    let memory = memories[i];
    if memory.tags.len() == 0 {
        assert(lines[i] =~= "- ["@ + memory.id + "] "@ + memory.content + " (source: "@
            + memory.source + ")"@);
    }
}

// ---------------------------------------------------------------------------
// The prompt
// ---------------------------------------------------------------------------
/// The sections of a prompt stand in a fixed order: instructions, the prompt of
/// the session, personality, skills, plugins, memories and environment, and behind
/// them the sections that hooks have added. What is missing leaves no gap.
pub proof fn law_sections_stand_in_order(
    instructions: Seq<Seq<char>>,
    override_text: Option<Seq<char>>,
    personality: Option<Seq<char>>,
    environment: Option<EnvironmentView>,
    skills: Seq<SkillView>,
    plugins: Seq<PluginView>,
    memories: Seq<MemoryView>,
    dynamic_sections: Seq<Seq<char>>,
)
    ensures
        ({
            let fixed = seq![
                instructions_section(instructions),
                override_section(override_text),
                personality_section(personality),
                skills_section(skills),
                plugins_section(plugins),
                memories_section(memories),
                environment_section(environment),
            ];
            &&& environment_section(environment) == (match environment {
                Some(env) => Some(environment_xml(env)),
                None => None,
            })
            &&& prompt_sections(
                instructions,
                override_text,
                personality,
                environment,
                skills,
                plugins,
                memories,
                dynamic_sections,
            ) == present(fixed) + not_blank(dynamic_sections)
        }),
{
    let env = environment_section(environment);
    let one = Seq::empty().push(instructions_section(instructions));
    let two = one.push(override_section(override_text));
    let three = two.push(personality_section(personality));
    let four = three.push(skills_section(skills));
    let five = four.push(plugins_section(plugins));
    let six = five.push(memories_section(memories));
    lemma_present_push(Seq::empty(), instructions_section(instructions));
    lemma_present_push(one, override_section(override_text));
    lemma_present_push(two, personality_section(personality));
    lemma_present_push(three, skills_section(skills));
    lemma_present_push(four, plugins_section(plugins));
    lemma_present_push(five, memories_section(memories));
    lemma_present_push(six, env);
    assert(present(Seq::empty()) + optional(instructions_section(instructions)) =~= optional(
        instructions_section(instructions),
    ));
    assert(six.push(env) =~= seq![
        instructions_section(instructions),
        override_section(override_text),
        personality_section(personality),
        skills_section(skills),
        plugins_section(plugins),
        memories_section(memories),
        env,
    ]);
}

proof fn lemma_present_push(texts: Seq<Option<Seq<char>>>, text: Option<Seq<char>>)
    ensures
        present(texts.push(text)) == present(texts) + optional(text),
{
    assert(texts.push(text).drop_last() =~= texts);
    assert(present(texts.push(text)) =~= present(texts) + optional(text));
}

/// The texts that are there, in their order.
pub open spec fn present(texts: Seq<Option<Seq<char>>>) -> Seq<Seq<char>>
    decreases texts.len(),
{
    if texts.len() == 0 {
        Seq::empty()
    } else {
        match texts.last() {
            Some(text) => present(texts.drop_last()).push(text),
            None => present(texts.drop_last()),
        }
    }
}

/// Whether a prompt shows a section, if it is there.
pub open spec fn shows_section(prompt: Seq<char>, section: Option<Seq<char>>) -> bool {
    section matches Some(text) ==> shows(prompt, text)
}

proof fn lemma_section_is_shown(sections: Seq<Seq<char>>, i: int)
    requires
        0 <= i < sections.len(),
    ensures
        shows(joined(sections, "\n\n"@), sections[i]),
{
    law_joined_texts_are_shown(sections, "\n\n"@, i);
}

/// The prompt of a turn shows everything that there is for it: the sections for
/// the agent's instructions, the prompt of the session, personality, environment,
/// listed skills, plugins and recalled memories, and every section that hooks have
/// added to it.
pub proof fn law_prompt_shows_everything(d: TurnDeps, t: TurnView, rt: RuntimeView, i: int)
    ensures
        ({
            let prompt = turn_prompt(d, t, rt);
            &&& shows_section(
                prompt,
                instructions_section(d.config.system_instructions.deep_view()),
            )
            &&& shows_section(prompt, override_section(rt.system_prompt_override))
            &&& shows_section(prompt, personality_section(d.config.personality.deep_view()))
            &&& shows_section(prompt, skills_section(d.implicit_skills.deep_view()))
            &&& shows_section(prompt, plugins_section(d.plugins.deep_view()))
            &&& shows_section(prompt, memories_section(t.memories))
            &&& d.config.environment_context.deep_view() matches Some(env) ==> shows(
                prompt,
                environment_xml(env),
            )
            &&& 0 <= i < t.sections.len() && !is_blank(t.sections[i]) ==> shows(
                prompt,
                t.sections[i],
            )
        }),
{
    let a = optional(instructions_section(d.config.system_instructions.deep_view()));
    let b = optional(override_section(rt.system_prompt_override));
    let c = optional(personality_section(d.config.personality.deep_view()));
    let e = optional(skills_section(d.implicit_skills.deep_view()));
    let f = optional(plugins_section(d.plugins.deep_view()));
    let g = optional(memories_section(t.memories));
    let env = match d.config.environment_context.deep_view() {
        Some(env) => Some(environment_xml(env)),
        None => None,
    };
    let h = optional(env);
    let added = not_blank(t.sections);
    let all = a + b + c + e + f + g + h + added;
    assert(turn_prompt(d, t, rt) == joined(all, "\n\n"@));
    if a.len() > 0 {
        assert(all[0] == a[0]);
        lemma_section_is_shown(all, 0);
    }
    if b.len() > 0 {
        let k = a.len() as int;
        assert(all[k] == b[0]);
        lemma_section_is_shown(all, k);
    }
    if c.len() > 0 {
        let k = (a + b).len() as int;
        assert(all[k] == c[0]);
        lemma_section_is_shown(all, k);
    }
    if e.len() > 0 {
        let k = (a + b + c).len() as int;
        assert(all[k] == e[0]);
        lemma_section_is_shown(all, k);
    }
    if f.len() > 0 {
        let k = (a + b + c + e).len() as int;
        assert(all[k] == f[0]);
        lemma_section_is_shown(all, k);
    }
    if g.len() > 0 {
        let k = (a + b + c + e + f).len() as int;
        assert(all[k] == g[0]);
        lemma_section_is_shown(all, k);
    }
    if h.len() > 0 {
        let k = (a + b + c + e + f + g).len() as int;
        assert(all[k] == h[0]);
        lemma_section_is_shown(all, k);
    }
    if 0 <= i < t.sections.len() && !is_blank(t.sections[i]) {
        lemma_not_blank_holds(t.sections, i);
        let k = (a + b + c + e + f + g + h).len() + added.index_of(t.sections[i]);
        assert(all[k] == t.sections[i]);
        lemma_section_is_shown(all, k);
    }
}

} // verus!
