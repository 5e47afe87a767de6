//! Registered skills and their explicit invocation with `/name`.

use crate::domain::error::{AgentError, AgentErrorView, Result};
use crate::domain::types::{
    ContentBlock, ContentBlockView, Message, MessageView, SkillDefinition, SkillView, UserInput,
};
use crate::registry::Registry;
use crate::text::{chars_of, is_white_space, text_of};
use vstd::prelude::*;
use vstd::string::*;

verus! {

// ---------------------------------------------------------------------------
// Invocations in a text
// ---------------------------------------------------------------------------
/// Whether a character may stand in a skill name.
pub open spec fn names_skill(c: char) -> bool {
    ||| '0' <= c <= '9'
    ||| 'A' <= c <= 'Z'
    ||| 'a' <= c <= 'z'
    ||| c == '_'
    ||| c == '-'
}

/// Whether an invocation may start behind a character, or at the start of a
/// text.
pub open spec fn may_precede(previous: Option<char>) -> bool {
    match previous {
        None => true,
        Some(c) => is_white_space(c) || c == '(' || c == '[' || c == '{' || c == '"' || c == '\'',
    }
}

/// Whether a character closes a name without making it a path.
pub open spec fn ends_no_path(c: char) -> bool {
    ||| c == ')'
    ||| c == ']'
    ||| c == '}'
    ||| c == '"'
    ||| c == '\''
    ||| c == ','
    ||| c == ':'
    ||| c == ';'
    ||| c == '!'
    ||| c == '?'
    ||| c == '，'
    ||| c == '。'
    ||| c == '！'
    ||| c == '？'
    ||| c == '；'
    ||| c == '：'
    ||| c == '、'
}

/// Whether a name that ends in front of `cursor` is an invocation and no part
/// of a path, a route or a file name.
pub open spec fn may_follow(text: Seq<char>, cursor: int) -> bool {
    if cursor >= text.len() {
        true
    } else if is_white_space(text[cursor]) {
        true
    } else if text[cursor] == '.' {
        cursor + 1 >= text.len() || ends_no_path(text[cursor + 1])
    } else {
        ends_no_path(text[cursor])
    }
}

/// Where the run of name characters from `from` on ends.
pub open spec fn name_end(text: Seq<char>, from: int) -> int
    decreases text.len() - from,
{
    if 0 <= from < text.len() && names_skill(text[from]) {
        name_end(text, from + 1)
    } else {
        from
    }
}

/// The skill name invoked at a position, if there is an invocation.
pub open spec fn invoked_at(text: Seq<char>, position: int) -> Option<Seq<char>> {
    let previous = if position > 0 {
        Some(text[position - 1])
    } else {
        None
    };
    let end = name_end(text, position + 1);
    if text[position] == '/' && may_precede(previous) && end > position + 1 && may_follow(
        text,
        end,
    ) {
        Some(text.subrange(position + 1, end))
    } else {
        None
    }
}

/// The names invoked at the first `count` positions, in order.
pub open spec fn invoked_before(text: Seq<char>, count: int) -> Seq<Seq<char>>
    decreases count,
{
    if count <= 0 {
        Seq::empty()
    } else {
        match invoked_at(text, count - 1) {
            Some(name) => invoked_before(text, count - 1).push(name),
            None => invoked_before(text, count - 1),
        }
    }
}

/// The names that a text invokes, in order.
pub open spec fn invoked_names(text: Seq<char>) -> Seq<Seq<char>> {
    invoked_before(text, text.len() as int)
}

/// The names that an input invokes: only its texts count.
pub open spec fn input_names(blocks: Seq<ContentBlockView>) -> Seq<Seq<char>>
    decreases blocks.len(),
{
    if blocks.len() == 0 {
        Seq::empty()
    } else {
        match blocks.last() {
            ContentBlockView::Text(text) => input_names(blocks.drop_last()) + invoked_names(text),
            _ => input_names(blocks.drop_last()),
        }
    }
}

proof fn lemma_name_end_range(text: Seq<char>, from: int)
    requires
        0 <= from <= text.len(),
    ensures
        from <= name_end(text, from) <= text.len(),
    decreases text.len() - from,
{
    if from < text.len() && names_skill(text[from]) {
        lemma_name_end_range(text, from + 1);
    }
}

/// Whether a character may stand in a skill name.
pub fn is_skill_name_char(character: char) -> (r: bool)
    ensures
        r == names_skill(character),
{
    (character >= '0' && character <= '9') || (character >= 'A' && character <= 'Z') || (character
        >= 'a' && character <= 'z') || character == '_' || character == '-'
}

/// Whether an invocation may start behind a character.
pub fn is_invocation_prefix(previous: Option<char>) -> (r: bool)
    ensures
        r == may_precede(previous),
{
    match previous {
        None => true,
        Some(c) => c.is_whitespace() || c == '(' || c == '[' || c == '{' || c == '"' || c == '\'',
    }
}

/// Whether a character closes a name without making it a path.
pub fn is_non_path_terminator(character: char) -> (r: bool)
    ensures
        r == ends_no_path(character),
{
    character == ')' || character == ']' || character == '}' || character == '"' || character
        == '\'' || character == ',' || character == ':' || character == ';' || character == '!'
        || character == '?' || character == '，' || character == '。' || character == '！'
        || character == '？' || character == '；' || character == '：' || character == '、'
}

/// Whether a name that ends in front of `cursor` is an invocation.
pub fn is_invocation_suffix(characters: &Vec<char>, cursor: usize) -> (r: bool)
    ensures
        r == may_follow(characters@, cursor as int),
{
    let count: usize = characters.len();
    if cursor >= count {
        return true;
    }
    let next = characters[cursor];
    if next.is_whitespace() {
        true
    } else if next == '.' {
        cursor + 1 >= count || is_non_path_terminator(characters[cursor + 1])
    } else {
        is_non_path_terminator(next)
    }
}

/// The names that a text invokes, in order.
pub fn parse_skill_names(text: &str) -> (r: Vec<String>)
    ensures
        r.deep_view() == invoked_names(text@),
{
    let characters = chars_of(text);
    let count: usize = characters.len();
    let mut names: Vec<String> = Vec::new();
    let mut index: usize = 0;
    proof {
        assert(names.deep_view() =~= Seq::<Seq<char>>::empty());
    }
    while index < count
        invariant
            count == characters.len(),
            characters@ == text@,
            index <= count,
            names.deep_view() == invoked_before(text@, index as int),
        decreases count - index,
    {
        let ghost before = names.deep_view();
        let previous = if index > 0 {
            Some(characters[index - 1])
        } else {
            None
        };
        if characters[index] == '/' && is_invocation_prefix(previous) {
            let mut cursor: usize = index + 1;
            proof {
                lemma_name_end_range(text@, index + 1);
            }
            while cursor < count && is_skill_name_char(characters[cursor])
                invariant
                    count == characters.len(),
                    characters@ == text@,
                    index < cursor <= count,
                    name_end(text@, index + 1) == name_end(text@, cursor as int),
                decreases count - cursor,
            {
                cursor += 1;
            }
            proof {
                assert(name_end(text@, cursor as int) == cursor);
            }
            if cursor > index + 1 && is_invocation_suffix(&characters, cursor) {
                let name = text_of(&characters, index + 1, cursor);
                let ghost shown = name@;
                names.push(name);
                proof {
                    assert(names.deep_view() =~= before.push(shown));
                }
            }
        }
        index += 1;
    }
    names
}

// ---------------------------------------------------------------------------
// The manager
// ---------------------------------------------------------------------------
/// The definition with a name, if there is one.
pub open spec fn named(skills: Seq<SkillView>, name: Seq<char>) -> Option<SkillView>
    decreases skills.len(),
{
    if skills.len() == 0 {
        None
    } else if skills[0].name == name {
        Some(skills[0])
    } else {
        named(skills.drop_first(), name)
    }
}

/// The position of the definition with a name, or the length without one.
pub open spec fn place_of(skills: Seq<SkillView>, name: Seq<char>) -> int
    decreases skills.len(),
{
    if skills.len() == 0 || skills[0].name == name {
        0
    } else {
        1 + place_of(skills.drop_first(), name)
    }
}

/// Definitions in order of their names' first registration; of several with one
/// name, the last counts.
pub open spec fn latest_definitions(skills: Seq<SkillView>) -> Seq<SkillView>
    decreases skills.len(),
{
    if skills.len() == 0 {
        Seq::empty()
    } else {
        let before = latest_definitions(skills.drop_last());
        let place = place_of(before, skills.last().name);
        if place < before.len() {
            before.update(place, skills.last())
        } else {
            before.push(skills.last())
        }
    }
}

/// The definitions of the known names, in order.
pub open spec fn known_skills(skills: Seq<SkillView>, names: Seq<Seq<char>>) -> Seq<SkillView>
    decreases names.len(),
{
    if names.len() == 0 {
        Seq::empty()
    } else {
        match named(skills, names.last()) {
            Some(skill) => known_skills(skills, names.drop_last()).push(skill),
            None => known_skills(skills, names.drop_last()),
        }
    }
}

/// The names without a definition, in order.
pub open spec fn unknown_names(skills: Seq<SkillView>, names: Seq<Seq<char>>) -> Seq<Seq<char>>
    decreases names.len(),
{
    if names.len() == 0 {
        Seq::empty()
    } else {
        match named(skills, names.last()) {
            Some(_) => unknown_names(skills, names.drop_last()),
            None => unknown_names(skills, names.drop_last()).push(names.last()),
        }
    }
}

/// The skills listed to the model, in order.
pub open spec fn listed_skills(skills: Seq<SkillView>) -> Seq<SkillView>
    decreases skills.len(),
{
    if skills.len() == 0 {
        Seq::empty()
    } else if skills.last().allow_implicit_invocation {
        listed_skills(skills.drop_last()).push(skills.last())
    } else {
        listed_skills(skills.drop_last())
    }
}

/// The message that injects a skill.
pub open spec fn injection_of(skill: SkillView) -> MessageView {
    MessageView::System {
        content: "<skill>\n<name>"@ + skill.name + "</name>\n"@ + skill.prompt_template
            + "\n</skill>"@,
    }
}

/// Registered skills.
pub struct SkillManager {
    skills: Registry<SkillDefinition>,
}

/// The views of registered skills.
pub open spec fn views(skills: Seq<SkillDefinition>) -> Seq<SkillView> {
    skills.map_values(|skill: SkillDefinition| skill.deep_view())
}

/// Whether every skill stands under its own name, and no name occurs twice.
pub open spec fn under_own_name(skills: Registry<SkillDefinition>) -> bool {
    &&& skills.keys().len() == skills.values().len()
    &&& forall|i: int|
        0 <= i < skills.values().len() ==> (#[trigger] skills.values()[i]).name@
            == skills.keys()[i]
    &&& skills.keys().no_duplicates()
}

impl DeepView for SkillManager {
    type V = Seq<SkillView>;

    closed spec fn deep_view(&self) -> Seq<SkillView> {
        views(self.skills.values())
    }
}

proof fn lemma_place_of(skills: Seq<SkillView>, name: Seq<char>)
    ensures
        0 <= place_of(skills, name) <= skills.len(),
        place_of(skills, name) < skills.len() ==> skills[place_of(skills, name)].name == name
            && named(skills, name) == Some(skills[place_of(skills, name)]),
        place_of(skills, name) == skills.len() ==> named(skills, name) is None,
        forall|i: int| 0 <= i < place_of(skills, name) ==> (#[trigger] skills[i]).name != name,
    decreases skills.len(),
{
    if skills.len() > 0 && skills[0].name != name {
        let rest = skills.drop_first();
        lemma_place_of(rest, name);
        assert forall|i: int| 0 <= i < place_of(skills, name) implies (#[trigger] skills[i]).name
            != name by {
            if i > 0 {
                assert(skills[i] == rest[i - 1]);
            }
        }
    }
}

proof fn lemma_found(skills: Registry<SkillDefinition>, name: Seq<char>)
    requires
        under_own_name(skills),
    ensures
        skills.keys().contains(name) <==> named(views(skills.values()), name) is Some,
        skills.keys().contains(name) ==> {
            &&& place_of(views(skills.values()), name) == skills.keys().index_of(name)
            &&& place_of(views(skills.values()), name) < skills.values().len()
            &&& skills.find(name) matches Some(skill) && named(views(skills.values()), name)
                == Some(skill.deep_view())
        },
        !skills.keys().contains(name) ==> place_of(views(skills.values()), name)
            == skills.values().len(),
{
    let all = views(skills.values());
    lemma_place_of(all, name);
    let place = place_of(all, name);
    if skills.keys().contains(name) {
        let i = skills.keys().index_of(name);
        assert(skills.keys()[i] == name);
        assert(all[i].name == name);
        assert(place <= i);
        assert(skills.values()[place].name@ == skills.keys()[place]);
        assert(place == i);
    } else if place < all.len() {
        assert(skills.values()[place].name@ == skills.keys()[place]);
        assert(skills.keys()[place] == name);
    }
}

impl SkillManager {
    #[verifier::type_invariant]
    spec fn inv(self) -> bool {
        under_own_name(self.skills)
    }

    /// A manager of the given skills.
    pub fn new(skills: Vec<SkillDefinition>) -> (r: Self)
        ensures
            r.deep_view() == latest_definitions(skills.deep_view()),
    {
        let ghost all = skills.deep_view();
        let mut registry: Registry<SkillDefinition> = Registry::new();
        let mut i: usize = 0;
        proof {
            assert(views(registry.values()) =~= latest_definitions(all.take(0)));
        }
        while i < skills.len()
            invariant
                i <= skills.len(),
                all == skills.deep_view(),
                under_own_name(registry),
                views(registry.values()) == latest_definitions(all.take(i as int)),
            decreases skills.len() - i,
        {
            let skill = skills[i].clone();
            let ghost shown = skill.deep_view();
            let ghost before = registry;
            proof {
                assert(all.take(i + 1).drop_last() =~= all.take(i as int));
                assert(all.take(i + 1).last() == shown);
                lemma_found(before, skill.name@);
                if before.keys().contains(skill.name@) {
                    assert(before.keys()[before.keys().index_of(skill.name@)] == skill.name@);
                }
            }
            registry = registry.insert(skill.name.clone(), skill);
            proof {
                assert(views(registry.values()) =~= latest_definitions(all.take(i + 1)));
                if !before.keys().contains(shown.name) {
                    assert(registry.keys().no_duplicates()) by {
                        assert forall|a: int, b: int|
                            0 <= a < registry.keys().len() && 0 <= b < registry.keys().len() && a
                                != b implies registry.keys()[a] != registry.keys()[b] by {
                            if a < before.keys().len() {
                                assert(before.keys().contains(before.keys()[a]));
                            }
                            if b < before.keys().len() {
                                assert(before.keys().contains(before.keys()[b]));
                            }
                        }
                    }
                }
            }
            i += 1;
        }
        proof {
            assert(all.take(all.len() as int) =~= all);
        }
        SkillManager { skills: registry }
    }

    /// The skill with a name.
    pub fn get(&self, name: &str) -> (r: Option<&SkillDefinition>)
        ensures
            r.deep_view() == named(self.deep_view(), name@),
    {
        proof {
            use_type_invariant(self);
            lemma_found(self.skills, name@);
        }
        self.skills.get(name)
    }

    /// The invoked skills, and the invoked names without a skill, each in order
    /// and as often as they occur.
    pub fn parse_invocations<'a>(&'a self, input: &UserInput) -> (r: (
        Vec<&'a SkillDefinition>,
        Vec<String>,
    ))
        ensures
            r.0.deep_view() == known_skills(self.deep_view(), input_names(input.deep_view())),
            r.1.deep_view() == unknown_names(self.deep_view(), input_names(input.deep_view())),
    {
        let names = invoked_in(input);
        let ghost all = names.deep_view();
        let mut matched: Vec<&'a SkillDefinition> = Vec::new();
        let mut unknown: Vec<String> = Vec::new();
        let mut i: usize = 0;
        proof {
            assert(matched.deep_view() =~= known_skills(self.deep_view(), all.take(0)));
            assert(unknown.deep_view() =~= unknown_names(self.deep_view(), all.take(0)));
        }
        while i < names.len()
            invariant
                i <= names.len(),
                all == names.deep_view(),
                matched.deep_view() == known_skills(self.deep_view(), all.take(i as int)),
                unknown.deep_view() == unknown_names(self.deep_view(), all.take(i as int)),
            decreases names.len() - i,
        {
            let ghost matched_before = matched.deep_view();
            let ghost unknown_before = unknown.deep_view();
            proof {
                assert(all.take(i + 1).drop_last() =~= all.take(i as int));
                assert(all.take(i + 1).last() == names[i as int]@);
            }
            match self.get(names[i].as_str()) {
                Some(skill) => {
                    matched.push(skill);
                    proof {
                        assert(matched.deep_view() =~= matched_before.push(skill.deep_view()));
                    }
                },
                None => {
                    unknown.push(names[i].clone());
                    proof {
                        assert(unknown.deep_view() =~= unknown_before.push(all[i as int]));
                    }
                },
            }
            i += 1;
        }
        proof {
            assert(all.take(all.len() as int) =~= all);
        }
        (matched, unknown)
    }

    /// The invoked skills; the first name without a skill is an error.
    pub fn resolve_invocations<'a>(&'a self, input: &UserInput) -> (r: Result<
        Vec<&'a SkillDefinition>,
    >)
        ensures
            ({
                let names = input_names(input.deep_view());
                let unknown = unknown_names(self.deep_view(), names);
                if unknown.len() > 0 {
                    r matches Err(error) && error.deep_view() == AgentErrorView::SkillNotFound(
                        unknown[0],
                    )
                } else {
                    r matches Ok(skills) && skills.deep_view() == known_skills(
                        self.deep_view(),
                        names,
                    )
                }
            }),
    {
        let (matched, unknown) = self.parse_invocations(input);
        let ghost missing = unknown.deep_view();
        if unknown.len() > 0 {
            proof {
                assert(missing[0] == unknown[0]@);
            }
            return Err(AgentError::SkillNotFound(unknown[0].clone()));
        }
        Ok(matched)
    }

    /// The message that injects a skill.
    pub fn render_injection(&self, skill: &SkillDefinition) -> (r: Message)
        ensures
            r.deep_view() == injection_of(skill.deep_view()),
    {
        Message::System {
            content: "<skill>\n<name>".to_owned().concat(skill.name.as_str()).concat(
                "</name>\n",
            ).concat(skill.prompt_template.as_str()).concat("\n</skill>"),
        }
    }

    /// The messages that inject the skills invoked by an input, in order.
    pub fn injections(&self, input: &UserInput) -> (r: Result<Vec<Message>>)
        ensures
            ({
                let names = input_names(input.deep_view());
                let unknown = unknown_names(self.deep_view(), names);
                if unknown.len() > 0 {
                    r matches Err(error) && error.deep_view() == AgentErrorView::SkillNotFound(
                        unknown[0],
                    )
                } else {
                    r matches Ok(messages) && messages.deep_view() == known_skills(
                        self.deep_view(),
                        names,
                    ).map_values(|skill: SkillView| injection_of(skill))
                }
            }),
    {
        let skills = match self.resolve_invocations(input) {
            Ok(skills) => skills,
            Err(error) => {
                return Err(error);
            },
        };
        let ghost wanted = skills.deep_view().map_values(|skill: SkillView| injection_of(skill));
        let mut messages: Vec<Message> = Vec::new();
        let mut i: usize = 0;
        while i < skills.len()
            invariant
                i <= skills.len(),
                wanted == skills.deep_view().map_values(|skill: SkillView| injection_of(skill)),
                messages.deep_view() =~= wanted.take(i as int),
            decreases skills.len() - i,
        {
            let ghost before = messages.deep_view();
            messages.push(self.render_injection(skills[i]));
            proof {
                assert(messages.deep_view() =~= before.push(wanted[i as int]));
            }
            i += 1;
        }
        proof {
            assert(wanted.take(wanted.len() as int) =~= wanted);
        }
        Ok(messages)
    }

    /// The skills listed to the model, in order of registration.
    pub fn implicit_skills<'a>(&'a self) -> (r: Vec<&'a SkillDefinition>)
        ensures
            r.deep_view() == listed_skills(self.deep_view()),
    {
        let items = self.skills.items();
        let ghost all = self.deep_view();
        let mut out: Vec<&'a SkillDefinition> = Vec::new();
        let mut i: usize = 0;
        proof {
            assert(out.deep_view() =~= listed_skills(all.take(0)));
        }
        while i < items.len()
            invariant
                i <= items.len(),
                all == views(items@),
                out.deep_view() == listed_skills(all.take(i as int)),
            decreases items.len() - i,
        {
            let ghost before = out.deep_view();
            proof {
                assert(all.take(i + 1).drop_last() =~= all.take(i as int));
                assert(all.take(i + 1).last() == items[i as int].deep_view());
            }
            if items[i].allow_implicit_invocation {
                out.push(&items[i]);
                proof {
                    assert(out.deep_view() =~= before.push(all[i as int]));
                }
            }
            i += 1;
        }
        proof {
            assert(all.take(all.len() as int) =~= all);
        }
        out
    }
}

fn invoked_in(input: &UserInput) -> (r: Vec<String>)
    ensures
        r.deep_view() == input_names(input.deep_view()),
{
    let ghost all = input.deep_view();
    let mut names: Vec<String> = Vec::new();
    let mut i: usize = 0;
    proof {
        assert(names.deep_view() =~= input_names(all.take(0)));
    }
    while i < input.content.len()
        invariant
            i <= input.content.len(),
            all == input.content.deep_view(),
            names.deep_view() == input_names(all.take(i as int)),
        decreases input.content.len() - i,
    {
        let ghost before = names.deep_view();
        proof {
            assert(all.take(i + 1).drop_last() =~= all.take(i as int));
            assert(all.take(i + 1).last() == input.content[i as int].deep_view());
        }
        match &input.content[i] {
            ContentBlock::Text(text) => {
                let mut found = parse_skill_names(text.as_str());
                let ghost shown = found.deep_view();
                names.append(&mut found);
                proof {
                    assert(names.deep_view() =~= before + shown);
                }
            },
            _ => {},
        }
        i += 1;
    }
    proof {
        assert(all.take(all.len() as int) =~= all);
    }
    names
}

// ---------------------------------------------------------------------------
// Laws
// ---------------------------------------------------------------------------
/// A name between two slashes is part of a path and never an invocation.
pub proof fn law_paths_invoke_nothing(text: Seq<char>, position: int)
    requires
        0 <= position < text.len(),
        name_end(text, position + 1) < text.len(),
        text[name_end(text, position + 1)] == '/',
    ensures
        invoked_at(text, position) is None,
{
}

/// Every invoked name is not empty and made of name characters alone.
pub proof fn law_invoked_names_are_names(text: Seq<char>, position: int)
    requires
        0 <= position < text.len(),
    ensures
        invoked_at(text, position) matches Some(name) ==> {
            &&& name.len() > 0
            &&& forall|i: int| 0 <= i < name.len() ==> names_skill(#[trigger] name[i])
        },
{
    lemma_name_end_range(text, position + 1);
    if invoked_at(text, position) is Some {
        let end = name_end(text, position + 1);
        let name = text.subrange(position + 1, end);
        assert forall|i: int| 0 <= i < name.len() implies names_skill(#[trigger] name[i]) by {
            lemma_name_end_names(text, position + 1, position + 1 + i);
        }
    }
}

proof fn lemma_name_end_names(text: Seq<char>, from: int, at: int)
    requires
        0 <= from <= at < name_end(text, from),
        from <= text.len(),
    ensures
        at < text.len(),
        names_skill(text[at]),
    decreases at - from,
{
    lemma_name_end_range(text, from);
    if from < at {
        lemma_name_end_names(text, from + 1, at);
    }
}

/// Every invoked name is either known or reported as unknown, and none is lost.
pub proof fn law_invocations_are_split(skills: Seq<SkillView>, names: Seq<Seq<char>>)
    ensures
        known_skills(skills, names).len() + unknown_names(skills, names).len() == names.len(),
        forall|i: int|
            0 <= i < unknown_names(skills, names).len() ==> named(
                skills,
                #[trigger] unknown_names(skills, names)[i],
            ) is None,
    decreases names.len(),
{
    if names.len() > 0 {
        law_invocations_are_split(skills, names.drop_last());
    }
}

/// The skills listed to the model are exactly those that allow it.
pub proof fn law_listed_skills_allow_it(skills: Seq<SkillView>, skill: SkillView)
    ensures
        listed_skills(skills).contains(skill) <==> skills.contains(skill)
            && skill.allow_implicit_invocation,
    decreases skills.len(),
{
    if skills.len() > 0 {
        let front = skills.drop_last();
        let last = skills.last();
        law_listed_skills_allow_it(front, skill);
        assert(skills =~= front.push(last));
        if skills.contains(skill) {
            let i = choose|i: int| 0 <= i < skills.len() && skills[i] == skill;
            if i < front.len() {
                assert(front[i] == skill);
            }
        }
        if front.contains(skill) {
            let i = choose|i: int| 0 <= i < front.len() && front[i] == skill;
            assert(skills[i] == skill);
        }
        let listed = listed_skills(front);
        if last.allow_implicit_invocation {
            assert(listed.push(last)[listed.len() as int] == last);
            if listed.contains(skill) {
                let i = choose|i: int| 0 <= i < listed.len() && listed[i] == skill;
                assert(listed.push(last)[i] == skill);
            }
            if listed.push(last).contains(skill) {
                let i = choose|i: int|
                    0 <= i < listed.push(last).len() && listed.push(last)[i] == skill;
                if i < listed.len() {
                    assert(listed[i] == skill);
                }
            }
            assert(skills[skills.len() - 1] == last);
        }
    }
}

} // verus!
