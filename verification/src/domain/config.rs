//! Configuration of an agent and of its sessions.

use crate::text::{chars_of, join, joined, lines, split_lines};
use vstd::prelude::*;
use vstd::string::*;

verus! {

broadcast use vstd::std_specs::vec::vec_clone_deep_view_proof;

/// Static configuration of an agent.
///
/// The ratio that triggers proactive compaction is a floating-point number of
/// the host. Two facts of it matter here: whether it lies in range, which
/// `compact_threshold_in_range` tells, and the token limit that it gives for a
/// model, which is registered with the model.
#[derive(Debug, Clone)]
pub struct AgentConfig {
    /// Model used by new sessions.
    pub default_model: String,
    /// Project instructions, in order.
    pub system_instructions: Vec<String>,
    /// Optional communication style.
    pub personality: Option<String>,
    /// Optional facts about the host environment.
    pub environment_context: Option<EnvironmentContext>,
    /// Tool timeout in milliseconds.
    pub tool_timeout_ms: u64,
    /// Most tool calls in one turn.
    pub max_tool_calls_per_turn: usize,
    /// Byte budget of one tool result.
    pub tool_output_max_bytes: usize,
    /// Byte budget of the metadata of a tool result.
    pub tool_output_metadata_max_bytes: usize,
    /// Whether the compaction ratio lies strictly between 0 and 1.
    pub compact_threshold_in_range: bool,
    /// Optional model for compaction.
    pub compact_model: Option<String>,
    /// Optional prompt for compaction.
    pub compact_prompt: Option<String>,
    /// Optional model for memory extraction.
    pub memory_model: Option<String>,
    /// Number of turns between memory checkpoints.
    pub memory_checkpoint_interval: u64,
    /// Most memories injected into one request.
    pub memory_max_items: usize,
    /// Namespace of the agent's memories.
    pub memory_namespace: String,
}

impl AgentConfig {
    /// Whether every field but the model and the namespace has its default.
    pub open spec fn has_defaults(self) -> bool {
        &&& self.system_instructions@.len() == 0
        &&& self.personality is None
        &&& self.environment_context is None
        &&& self.tool_timeout_ms == 120_000
        &&& self.max_tool_calls_per_turn == 50
        &&& self.tool_output_max_bytes == 1_048_576
        &&& self.tool_output_metadata_max_bytes == 65_536
        &&& self.compact_threshold_in_range
        &&& self.compact_model is None
        &&& self.compact_prompt is None
        &&& self.memory_model is None
        &&& self.memory_checkpoint_interval == 10
        &&& self.memory_max_items == 20
    }

    /// A configuration with default values.
    pub fn new(default_model: &str, memory_namespace: &str) -> (r: Self)
        ensures
            r.default_model@ == default_model@,
            r.memory_namespace@ == memory_namespace@,
            r.has_defaults(),
    {
        AgentConfig {
            default_model: default_model.to_owned(),
            memory_namespace: memory_namespace.to_owned(),
            system_instructions: Vec::new(),
            personality: None,
            environment_context: None,
            tool_timeout_ms: 120_000,
            max_tool_calls_per_turn: 50,
            tool_output_max_bytes: 1_048_576,
            tool_output_metadata_max_bytes: 65_536,
            compact_threshold_in_range: true,
            compact_model: None,
            compact_prompt: None,
            memory_model: None,
            memory_checkpoint_interval: 10,
            memory_max_items: 20,
        }
    }
}

impl Default for AgentConfig {
    fn default() -> (r: Self)
        ensures
            r.default_model@ == Seq::<char>::empty(),
            r.memory_namespace@ == Seq::<char>::empty(),
            r.has_defaults(),
    {
        proof {
            reveal_strlit("");
        }
        AgentConfig::new("", "")
    }
}

/// Overrides of one session.
#[derive(Debug, PartialEq, Eq)]
pub struct SessionConfig {
    /// Optional model of the session.
    pub model_id: Option<String>,
    /// Optional addition to the system prompt.
    pub system_prompt_override: Option<String>,
}

/// Model of [`SessionConfig`].
#[verifier::ext_equal]
pub struct SessionConfigView {
    pub model_id: Option<Seq<char>>,
    pub system_prompt_override: Option<Seq<char>>,
}

impl DeepView for SessionConfig {
    type V = SessionConfigView;

    open spec fn deep_view(&self) -> SessionConfigView {
        SessionConfigView {
            model_id: self.model_id.deep_view(),
            system_prompt_override: self.system_prompt_override.deep_view(),
        }
    }
}

impl Clone for SessionConfig {
    fn clone(&self) -> (r: Self)
        ensures
            r.deep_view() == self.deep_view(),
    {
        SessionConfig {
            model_id: self.model_id.clone(),
            system_prompt_override: self.system_prompt_override.clone(),
        }
    }
}

impl Default for SessionConfig {
    fn default() -> (r: Self)
        ensures
            r.model_id is None,
            r.system_prompt_override is None,
    {
        SessionConfig { model_id: None, system_prompt_override: None }
    }
}

/// Facts about the host environment that the model may see.
#[derive(Debug, Clone, PartialEq, Eq)]
pub struct EnvironmentContext {
    /// Working directory of the host.
    pub cwd: Option<String>,
    /// Shell of the host.
    pub shell: Option<String>,
    /// Current local date.
    pub current_date: Option<String>,
    /// Current time zone.
    pub timezone: Option<String>,
    /// Optional network policy.
    pub network: Option<NetworkContext>,
    /// Optional description of sub-agents.
    pub subagents: Option<String>,
}

/// Network policy that the model may see.
#[derive(Debug, Clone, PartialEq, Eq)]
pub struct NetworkContext {
    /// Domains that may be reached.
    pub allowed_domains: Vec<String>,
    /// Domains that may not be reached.
    pub denied_domains: Vec<String>,
}

impl Default for EnvironmentContext {
    fn default() -> (r: Self)
        ensures
            r.cwd is None,
            r.shell is None,
            r.current_date is None,
            r.timezone is None,
            r.network is None,
            r.subagents is None,
    {
        EnvironmentContext {
            cwd: None,
            shell: None,
            current_date: None,
            timezone: None,
            network: None,
            subagents: None,
        }
    }
}

impl Default for NetworkContext {
    fn default() -> (r: Self)
        ensures
            r.allowed_domains@.len() == 0,
            r.denied_domains@.len() == 0,
    {
        NetworkContext { allowed_domains: Vec::new(), denied_domains: Vec::new() }
    }
}

/// Model of [`EnvironmentContext`]; the network is a pair of allowed and
/// denied domains.
#[verifier::ext_equal]
pub struct EnvironmentView {
    pub cwd: Option<Seq<char>>,
    pub shell: Option<Seq<char>>,
    pub current_date: Option<Seq<char>>,
    pub timezone: Option<Seq<char>>,
    pub network: Option<(Seq<Seq<char>>, Seq<Seq<char>>)>,
    pub subagents: Option<Seq<char>>,
}

impl DeepView for NetworkContext {
    type V = (Seq<Seq<char>>, Seq<Seq<char>>);

    open spec fn deep_view(&self) -> (Seq<Seq<char>>, Seq<Seq<char>>) {
        (self.allowed_domains.deep_view(), self.denied_domains.deep_view())
    }
}

impl DeepView for EnvironmentContext {
    type V = EnvironmentView;

    open spec fn deep_view(&self) -> EnvironmentView {
        EnvironmentView {
            cwd: self.cwd.deep_view(),
            shell: self.shell.deep_view(),
            current_date: self.current_date.deep_view(),
            timezone: self.timezone.deep_view(),
            network: self.network.deep_view(),
            subagents: self.subagents.deep_view(),
        }
    }
}

/// The XML entity of a character, or the character itself.
pub open spec fn escaped_char(c: char) -> Seq<char> {
    if c == '&' {
        "&amp;"@
    } else if c == '<' {
        "&lt;"@
    } else if c == '>' {
        "&gt;"@
    } else if c == '"' {
        "&quot;"@
    } else if c == '\'' {
        "&apos;"@
    } else {
        seq![c]
    }
}

/// `s` with every markup character exchanged for its entity.
pub open spec fn escaped(s: Seq<char>) -> Seq<char>
    decreases s.len(),
{
    if s.len() == 0 {
        Seq::empty()
    } else {
        escaped(s.drop_last()) + escaped_char(s.last())
    }
}

/// One element per line: none for an absent value.
pub open spec fn element_lines(
    open: Seq<char>,
    value: Option<Seq<char>>,
    close: Seq<char>,
) -> Seq<Seq<char>> {
    match value {
        Some(text) => seq![open + escaped(text) + close],
        None => Seq::empty(),
    }
}

/// Each text escaped and wrapped.
pub open spec fn wrapped_lines(
    open: Seq<char>,
    texts: Seq<Seq<char>>,
    close: Seq<char>,
) -> Seq<Seq<char>> {
    texts.map_values(|text: Seq<char>| open + escaped(text) + close)
}

/// Lines of the network element.
pub open spec fn network_lines(
    network: Option<(Seq<Seq<char>>, Seq<Seq<char>>)>,
) -> Seq<Seq<char>> {
    match network {
        Some((allowed, denied)) => seq!["  <network enabled=\"true\">"@] + wrapped_lines(
            "    <allowed>"@,
            allowed,
            "</allowed>"@,
        ) + wrapped_lines("    <denied>"@, denied, "</denied>"@) + seq!["  </network>"@],
        None => Seq::empty(),
    }
}

/// Lines of the sub-agent element.
pub open spec fn subagent_lines(subagents: Option<Seq<char>>) -> Seq<Seq<char>> {
    match subagents {
        Some(text) => seq!["  <subagents>"@] + wrapped_lines("    "@, lines(text), ""@)
            + seq!["  </subagents>"@],
        None => Seq::empty(),
    }
}

/// The lines inside the environment element.
pub open spec fn environment_lines(env: EnvironmentView) -> Seq<Seq<char>> {
    element_lines("  <cwd>"@, env.cwd, "</cwd>"@) + element_lines(
        "  <shell>"@,
        env.shell,
        "</shell>"@,
    ) + element_lines("  <current_date>"@, env.current_date, "</current_date>"@) + element_lines(
        "  <timezone>"@,
        env.timezone,
        "</timezone>"@,
    ) + network_lines(env.network) + subagent_lines(env.subagents)
}

/// The environment element.
pub open spec fn environment_xml(env: EnvironmentView) -> Seq<char> {
    if environment_lines(env).len() == 0 {
        "<environment_context />"@
    } else {
        "<environment_context>\n"@ + joined(environment_lines(env), "\n"@)
            + "\n</environment_context>"@
    }
}

/// Exchanges markup characters for their XML entities.
pub fn xml_escape(value: &str) -> (r: String)
    ensures
        r@ == escaped(value@),
{
    let chars = chars_of(value);
    let mut out = String::new();
    let mut i: usize = 0;
    while i < chars.len()
        invariant
            i <= chars.len(),
            out@ == escaped(chars@.take(i as int)),
        decreases chars.len() - i,
    {
        let c = chars[i];
        proof {
            assert(chars@.take(i + 1).drop_last() =~= chars@.take(i as int));
            assert(chars@.take(i + 1).last() == c);
        }
        if c == '&' {
            out.append("&amp;");
        } else if c == '<' {
            out.append("&lt;");
        } else if c == '>' {
            out.append("&gt;");
        } else if c == '"' {
            out.append("&quot;");
        } else if c == '\'' {
            out.append("&apos;");
        } else {
            let ghost before = out@;
            out.push(c);
            assert(before.push(c) =~= before + seq![c]);
        }
        i += 1;
    }
    proof {
        assert(chars@.take(chars.len() as int) =~= value@);
    }
    out
}

fn push_element(out: &mut Vec<String>, open: &str, value: &Option<String>, close: &str)
    ensures
        final(out).deep_view() == old(out).deep_view() + element_lines(
            open@,
            value.deep_view(),
            close@,
        ),
{
    match value {
        Some(text) => {
            let line = open.to_owned().concat(xml_escape(text.as_str()).as_str()).concat(close);
            out.push(line);
            proof {
                assert(out.deep_view() =~= old(out).deep_view() + element_lines(
                    open@,
                    value.deep_view(),
                    close@,
                ));
            }
        },
        None => {
            proof {
                assert(out.deep_view() =~= old(out).deep_view() + element_lines(
                    open@,
                    value.deep_view(),
                    close@,
                ));
            }
        },
    }
}

fn push_wrapped(out: &mut Vec<String>, open: &str, texts: &Vec<String>, close: &str)
    ensures
        final(out).deep_view() == old(out).deep_view() + wrapped_lines(
            open@,
            texts.deep_view(),
            close@,
        ),
{
    let mut i: usize = 0;
    proof {
        assert(out.deep_view() =~= old(out).deep_view() + wrapped_lines(
            open@,
            texts.deep_view().take(0),
            close@,
        ));
    }
    while i < texts.len()
        invariant
            i <= texts.len(),
            out.deep_view() == old(out).deep_view() + wrapped_lines(
                open@,
                texts.deep_view().take(i as int),
                close@,
            ),
        decreases texts.len() - i,
    {
        let ghost before = out.deep_view();
        let line = open.to_owned().concat(xml_escape(texts[i].as_str()).as_str()).concat(close);
        out.push(line);
        proof {
            assert(out.deep_view() =~= before.push(line@));
            assert(wrapped_lines(open@, texts.deep_view().take(i + 1), close@) =~= wrapped_lines(
                open@,
                texts.deep_view().take(i as int),
                close@,
            ).push(line@));
            assert(out.deep_view() =~= old(out).deep_view() + wrapped_lines(
                open@,
                texts.deep_view().take(i + 1),
                close@,
            ));
        }
        i += 1;
    }
    proof {
        assert(texts.deep_view().take(texts.len() as int) =~= texts.deep_view());
    }
}

fn push_line(out: &mut Vec<String>, line: &str)
    ensures
        final(out).deep_view() == old(out).deep_view() + seq![line@],
{
    out.push(line.to_owned());
    proof {
        assert(out.deep_view() =~= old(out).deep_view() + seq![line@]);
    }
}

impl EnvironmentContext {
    /// Renders the context as the XML fragment of the system prompt.
    pub fn serialize_to_xml(&self) -> (r: String)
        ensures
            r@ == environment_xml(self.deep_view()),
    {
        let mut out: Vec<String> = Vec::new();
        push_element(&mut out, "  <cwd>", &self.cwd, "</cwd>");
        push_element(&mut out, "  <shell>", &self.shell, "</shell>");
        push_element(&mut out, "  <current_date>", &self.current_date, "</current_date>");
        push_element(&mut out, "  <timezone>", &self.timezone, "</timezone>");
        let ghost head = out.deep_view();
        match &self.network {
            Some(network) => {
                push_line(&mut out, "  <network enabled=\"true\">");
                push_wrapped(&mut out, "    <allowed>", &network.allowed_domains, "</allowed>");
                push_wrapped(&mut out, "    <denied>", &network.denied_domains, "</denied>");
                push_line(&mut out, "  </network>");
            },
            None => {},
        }
        proof {
            assert(out.deep_view() =~= head + network_lines(self.network.deep_view()));
        }
        let ghost middle = out.deep_view();
        match &self.subagents {
            Some(subagents) => {
                push_line(&mut out, "  <subagents>");
                let parts = split_lines(subagents.as_str());
                push_wrapped(&mut out, "    ", &parts, "");
                push_line(&mut out, "  </subagents>");
            },
            None => {},
        }
        proof {
            assert(out.deep_view() =~= middle + subagent_lines(self.subagents.deep_view()));
            assert(out.deep_view() =~= environment_lines(self.deep_view()));
        }
        if out.len() == 0 {
            "<environment_context />".to_owned()
        } else {
            "<environment_context>\n".to_owned().concat(join(&out, "\n").as_str()).concat(
                "\n</environment_context>",
            )
        }
    }
}

} // verus!
