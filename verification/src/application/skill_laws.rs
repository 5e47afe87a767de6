//! Laws of skills: what invokes a skill, and what an invoked skill adds to a turn.

use crate::application::skill_manager::{
    ends_no_path, injection_of, input_names, invoked_at, invoked_before, invoked_names,
    known_skills, latest_definitions, listed_skills, name_end, named, names_skill, place_of,
    unknown_names,
};
use crate::domain::types::{ContentBlockView, MessageView, SkillView};
use crate::text::is_white_space;
use vstd::prelude::*;
use vstd::string::*;

verus! {

/// Whether a character may be part of the name of a skill.
pub open spec fn name_character(c: char) -> bool {
    ||| 'a' <= c <= 'z'
    ||| 'A' <= c <= 'Z'
    ||| '0' <= c <= '9'
    ||| c == '-'
    ||| c == '_'
}

proof fn lemma_name_end_is(text: Seq<char>, from: int, end: int)
    requires
        0 <= from <= end <= text.len(),
        forall|i: int| from <= i < end ==> names_skill(#[trigger] text[i]),
        end < text.len() ==> !names_skill(text[end]),
    ensures
        name_end(text, from) == end,
    decreases end - from,
{
    if from < end {
        assert(names_skill(text[from]));
        lemma_name_end_is(text, from + 1, end);
    }
}

/// Whether a name may stop in front of a character: the punctuation that closes a
/// bracket, a quote or a part of a sentence.
pub open spec fn closing_mark(c: char) -> bool {
    seq![
        ')',
        ']',
        '}',
        '"',
        '\'',
        ',',
        ':',
        ';',
        '!',
        '?',
        '，',
        '。',
        '！',
        '？',
        '；',
        '：',
        '、',
    ].contains(c)
}

/// A slash with a name behind it, up to the first character that is no part of a
/// name, invokes exactly where nothing in front of it or behind it makes it part
/// of a word or a path: in front, white space or an opening bracket or quote;
/// behind, white space or a closing mark, also behind a full stop.
pub proof fn law_invocation_stands_alone(text: Seq<char>, position: int, end: int)
    requires
        0 <= position < position + 1 < end <= text.len(),
        text[position] == '/',
        forall|i: int| position + 1 <= i < end ==> name_character(#[trigger] text[i]),
        end < text.len() ==> !name_character(text[end]),
    ensures
        invoked_at(text, position) == (if (position == 0 || is_white_space(text[position - 1])
            || seq!['(', '[', '{', '"', '\''].contains(text[position - 1])) && (end == text.len()
            || is_white_space(text[end]) || closing_mark(text[end]) || (text[end] == '.' && (end
            + 1 == text.len() || closing_mark(text[end + 1])))) {
            Some(text.subrange(position + 1, end))
        } else {
            None
        }),
{
    assert forall|i: int| position + 1 <= i < end implies names_skill(#[trigger] text[i]) by {
        assert(name_character(text[i]));
    }
    lemma_name_end_is(text, position + 1, end);
    if end < text.len() {
        lemma_closing_mark(text[end]);
    }
    if end + 1 < text.len() {
        lemma_closing_mark(text[end + 1]);
    }
    if position > 0 {
        let c = text[position - 1];
        let opening = seq!['(', '[', '{', '"', '\''];
        assert(opening[0] == '(' && opening[1] == '[' && opening[2] == '{' && opening[3] == '"'
            && opening[4] == '\'');
        if opening.contains(c) {
            let k = opening.index_of(c);
            assert(0 <= k < 5);
        }
    }
}

proof fn lemma_closing_mark(c: char)
    ensures
        closing_mark(c) <==> ends_no_path(c),
{
    let marks = seq![
        ')',
        ']',
        '}',
        '"',
        '\'',
        ',',
        ':',
        ';',
        '!',
        '?',
        '，',
        '。',
        '！',
        '？',
        '；',
        '：',
        '、',
    ];
    assert(marks[0] == ')' && marks[1] == ']' && marks[2] == '}' && marks[3] == '"' && marks[4]
        == '\'' && marks[5] == ',' && marks[6] == ':' && marks[7] == ';' && marks[8] == '!'
        && marks[9] == '?' && marks[10] == '，' && marks[11] == '。' && marks[12] == '！' && marks[13]
        == '？' && marks[14] == '；' && marks[15] == '：' && marks[16] == '、');
    if marks.contains(c) {
        let k = marks.index_of(c);
        assert(0 <= k < 17);
    }
}

/// Without a slash, or without a name behind it, nothing is invoked; nor is
/// anything invoked in the middle of a word.
pub proof fn law_other_text_invokes_nothing(text: Seq<char>, position: int)
    requires
        0 <= position < text.len(),
        text[position] != '/' || position + 1 == text.len() || !name_character(text[position + 1])
            || (position > 0 && name_character(text[position - 1])),
    ensures
        invoked_at(text, position) is None,
{
}

/// The names that a text invokes are exactly those that stand behind its slashes.
pub proof fn law_invoked_names_are_complete(text: Seq<char>, count: int, name: Seq<char>)
    requires
        0 <= count <= text.len(),
    ensures
        invoked_before(text, count).contains(name) <==> exists|i: int|
            0 <= i < count && #[trigger] invoked_at(text, i) == Some(name),
        count == text.len() ==> invoked_before(text, count) == invoked_names(text),
    decreases count,
{
    if count > 0 {
        law_invoked_names_are_complete(text, count - 1, name);
        let before = invoked_before(text, count - 1);
        let last = invoked_at(text, count - 1);
        if let Some(found) = last {
            let all = before.push(found);
            assert(all[before.len() as int] == found);
            if before.contains(name) {
                let i = before.index_of(name);
                assert(all[i] == name);
            }
            if all.contains(name) {
                let i = all.index_of(name);
                if i < before.len() {
                    assert(before[i] == name);
                }
            }
        }
        if invoked_before(text, count).contains(name) {
            if last != Some(name) {
                assert(before.contains(name));
            }
        }
    }
}

/// Names are invoked in the order in which they stand in a text, once for each
/// time they stand there.
pub proof fn law_names_are_invoked_in_order(text: Seq<char>, count: int)
    requires
        0 <= count < text.len(),
    ensures
        invoked_before(text, 0).len() == 0,
        match invoked_at(text, count) {
            Some(name) => invoked_before(text, count + 1) == invoked_before(text, count).push(name),
            None => invoked_before(text, count + 1) == invoked_before(text, count),
        },
{
}

/// An input invokes what its texts invoke, in their order; images and files invoke
/// nothing.
pub proof fn law_texts_of_input_invoke(blocks: Seq<ContentBlockView>, block: ContentBlockView)
    ensures
        input_names(Seq::empty()).len() == 0,
        input_names(blocks.push(block)) == (match block {
            ContentBlockView::Text(text) => input_names(blocks) + invoked_names(text),
            _ => input_names(blocks),
        }),
{
    assert(blocks.push(block).drop_last() =~= blocks);
}

/// A name finds the first skill of that name, and nothing exactly where no skill
/// has it.
pub proof fn law_skills_are_found_by_name(skills: Seq<SkillView>, name: Seq<char>)
    ensures
        named(skills, name) matches Some(skill) ==> skill.name == name && skills.contains(skill),
        named(skills, name) is None <==> forall|i: int|
            0 <= i < skills.len() ==> (#[trigger] skills[i]).name != name,
    decreases skills.len(),
{
    if skills.len() > 0 {
        let rest = skills.drop_first();
        law_skills_are_found_by_name(rest, name);
        if skills[0].name != name {
            if let Some(skill) = named(rest, name) {
                let i = rest.index_of(skill);
                assert(skills[i + 1] == skill);
            }
            if named(rest, name) is None {
                assert forall|i: int| 0 <= i < skills.len() implies (#[trigger] skills[i]).name
                    != name by {
                    if i > 0 {
                        assert(rest[i - 1] == skills[i]);
                    }
                }
            }
            if forall|i: int| 0 <= i < skills.len() ==> (#[trigger] skills[i]).name != name {
                assert forall|i: int| 0 <= i < rest.len() implies (#[trigger] rest[i]).name
                    != name by {
                    assert(rest[i] == skills[i + 1]);
                }
            }
        }
    }
}

/// Where every invoked name is known, the invoked skills are those of the names,
/// one for one and in order.
pub proof fn law_every_invoked_skill_is_found(
    skills: Seq<SkillView>,
    names: Seq<Seq<char>>,
    i: int,
)
    requires
        unknown_names(skills, names).len() == 0,
        0 <= i < names.len(),
    ensures
        known_skills(skills, names).len() == names.len(),
        known_skills(skills, names)[i].name == names[i],
        skills.contains(known_skills(skills, names)[i]),
    decreases names.len(),
{
    let front = names.drop_last();
    law_skills_are_found_by_name(skills, names.last());
    if front.len() > 0 {
        law_every_invoked_skill_is_found(
            skills,
            front,
            if i < front.len() {
                i
            } else {
                0
            },
        );
    } else {
        assert(known_skills(skills, front).len() == 0);
        assert(unknown_names(skills, front).len() == 0);
    }
}

/// A name that no skill has is reported, and names that are known are not.
pub proof fn law_unknown_names_are_reported(
    skills: Seq<SkillView>,
    names: Seq<Seq<char>>,
    name: Seq<char>,
)
    ensures
        unknown_names(skills, Seq::empty()).len() == 0,
        unknown_names(skills, names.push(name)) == (if exists|i: int|
            0 <= i < skills.len() && (#[trigger] skills[i]).name == name {
            unknown_names(skills, names)
        } else {
            unknown_names(skills, names).push(name)
        }),
{
    assert(names.push(name).drop_last() =~= names);
    law_skills_are_found_by_name(skills, name);
}

/// An invoked skill is injected as a system message with its name and its whole
/// prompt.
pub proof fn law_injection_holds_the_prompt(skill: SkillView)
    ensures
        injection_of(skill) == (MessageView::System {
            content: "<skill>\n<name>"@ + skill.name + "</name>\n"@ + skill.prompt_template
                + "\n</skill>"@,
        }),
{
}

proof fn lemma_place_found(skills: Seq<SkillView>, name: Seq<char>)
    ensures
        0 <= place_of(skills, name) <= skills.len(),
        place_of(skills, name) < skills.len() ==> skills[place_of(skills, name)].name == name,
        forall|i: int| 0 <= i < place_of(skills, name) ==> (#[trigger] skills[i]).name != name,
    decreases skills.len(),
{
    if skills.len() > 0 && skills[0].name != name {
        let rest = skills.drop_first();
        lemma_place_found(rest, name);
        assert forall|i: int| 0 <= i < place_of(skills, name) implies (#[trigger] skills[i]).name
            != name by {
            if i > 0 {
                assert(rest[i - 1] == skills[i]);
            }
        }
    }
}

/// A later definition of a skill takes the place of the earlier one and leaves the
/// others alone; the first definition of a name comes last.
pub proof fn law_later_definition_counts(skills: Seq<SkillView>, skill: SkillView)
    ensures
        latest_definitions(Seq::empty()).len() == 0,
        ({
            let before = latest_definitions(skills);
            let after = latest_definitions(skills.push(skill));
            let had = exists|i: int| 0 <= i < before.len() && (#[trigger] before[i]).name
                == skill.name;
            &&& !had ==> after == before.push(skill)
            &&& had ==> after.len() == before.len() && exists|place: int|
                {
                    &&& 0 <= place < before.len()
                    &&& (#[trigger] before[place]).name == skill.name
                    &&& after[place] == skill
                    &&& forall|i: int|
                        0 <= i < before.len() && i != place ==> #[trigger] after[i] == before[i]
                }
        }),
{
    assert(skills.push(skill).drop_last() =~= skills);
    let before = latest_definitions(skills);
    lemma_place_found(before, skill.name);
    let place = place_of(before, skill.name);
    if place < before.len() {
        assert(before[place].name == skill.name);
    }
}

/// The skills that a model is shown stand in their order.
pub proof fn law_listed_skills_keep_order(skills: Seq<SkillView>, skill: SkillView)
    ensures
        listed_skills(Seq::empty()).len() == 0,
        listed_skills(skills.push(skill)) == (if skill.allow_implicit_invocation {
            listed_skills(skills).push(skill)
        } else {
            listed_skills(skills)
        }),
{
    assert(skills.push(skill).drop_last() =~= skills);
}

} // verus!
