//! Laws of the environment that a model is shown: every part of it stands there
//! escaped, in a fixed order.

use crate::domain::config::{
    element_lines, environment_lines, environment_xml, escaped, escaped_char, network_lines,
    subagent_lines, EnvironmentView,
};
use crate::text::{joined, lines};
use crate::text_laws::{law_joined_texts_are_shown, lemma_shows, lemma_shows_through, shows};
use vstd::prelude::*;
use vstd::string::*;

verus! {

// ---------------------------------------------------------------------------
// Escaping
// ---------------------------------------------------------------------------
proof fn lemma_escaped_concat(a: Seq<char>, b: Seq<char>)
    ensures
        escaped(a + b) == escaped(a) + escaped(b),
    decreases b.len(),
{
    if b.len() == 0 {
        assert(a + b =~= a);
        assert(escaped(a) + escaped(b) =~= escaped(a));
    } else {
        assert((a + b).drop_last() =~= a + b.drop_last());
        lemma_escaped_concat(a, b.drop_last());
        assert(escaped(a) + escaped(b) =~= escaped(a) + escaped(b.drop_last()) + escaped_char(
            b.last(),
        ));
    }
}

/// A text is escaped character by character.
pub proof fn law_escaping_goes_by_character(a: Seq<char>, b: Seq<char>, c: char)
    ensures
        escaped(Seq::empty()).len() == 0,
        escaped(a + b) == escaped(a) + escaped(b),
        c == '&' ==> escaped(seq![c]) == "&amp;"@,
        c == '<' ==> escaped(seq![c]) == "&lt;"@,
        c == '>' ==> escaped(seq![c]) == "&gt;"@,
        c == '"' ==> escaped(seq![c]) == "&quot;"@,
        c == '\'' ==> escaped(seq![c]) == "&apos;"@,
        c != '&' && c != '<' && c != '>' && c != '"' && c != '\'' ==> escaped(seq![c]) == seq![c],
{
    lemma_escaped_concat(a, b);
    assert(seq![c].drop_last() =~= Seq::empty());
    assert(escaped(seq![c].drop_last()) =~= Seq::empty());
    assert(escaped(seq![c]) =~= escaped_char(c));
}

/// An escaped text holds no character that could be taken for markup, but for the
/// ampersands of its own entities.
pub proof fn law_escaped_text_holds_no_markup(s: Seq<char>)
    ensures
        forall|i: int|
            0 <= i < escaped(s).len() ==> {
                let c = #[trigger] escaped(s)[i];
                c != '<' && c != '>' && c != '"' && c != '\''
            },
    decreases s.len(),
{
    if s.len() > 0 {
        law_escaped_text_holds_no_markup(s.drop_last());
        reveal_strlit("&amp;");
        reveal_strlit("&lt;");
        reveal_strlit("&gt;");
        reveal_strlit("&quot;");
        reveal_strlit("&apos;");
        let before = escaped(s.drop_last());
        let last = escaped_char(s.last());
        assert forall|i: int| 0 <= i < escaped(s).len() implies {
            let c = #[trigger] escaped(s)[i];
            c != '<' && c != '>' && c != '"' && c != '\''
        } by {
            if i < before.len() {
                assert(escaped(s)[i] == before[i]);
            } else {
                assert(escaped(s)[i] == last[i - before.len()]);
            }
        }
    }
}

// ---------------------------------------------------------------------------
// Environment
// ---------------------------------------------------------------------------
/// How many lines a part takes that may be missing.
pub open spec fn count_of(value: Option<Seq<char>>) -> int {
    if value is Some {
        1
    } else {
        0
    }
}

/// How many lines the network takes.
pub open spec fn network_count(network: Option<(Seq<Seq<char>>, Seq<Seq<char>>)>) -> int {
    match network {
        Some((allowed, denied)) => (allowed.len() + denied.len() + 2) as int,
        None => 0,
    }
}

/// How many lines the subagents take.
pub open spec fn subagent_count(subagents: Option<Seq<char>>) -> int {
    match subagents {
        Some(text) => (lines(text).len() + 2) as int,
        None => 0,
    }
}

proof fn lemma_six_parts(
    a: Seq<Seq<char>>,
    b: Seq<Seq<char>>,
    c: Seq<Seq<char>>,
    d: Seq<Seq<char>>,
    e: Seq<Seq<char>>,
    f: Seq<Seq<char>>,
)
    ensures
        ({
            let whole = a + b + c + d + e + f;
            let second = a.len() as int;
            let third = second + b.len();
            let fourth = third + c.len();
            let fifth = fourth + d.len();
            let sixth = fifth + e.len();
            &&& whole.len() == sixth + f.len()
            &&& forall|k: int| 0 <= k < a.len() ==> whole[k] == #[trigger] a[k]
            &&& forall|k: int| 0 <= k < b.len() ==> whole[second + k] == #[trigger] b[k]
            &&& forall|k: int| 0 <= k < c.len() ==> whole[third + k] == #[trigger] c[k]
            &&& forall|k: int| 0 <= k < d.len() ==> whole[fourth + k] == #[trigger] d[k]
            &&& forall|k: int| 0 <= k < e.len() ==> whole[fifth + k] == #[trigger] e[k]
            &&& forall|k: int| 0 <= k < f.len() ==> whole[sixth + k] == #[trigger] f[k]
        }),
{
}

proof fn lemma_environment_parts(env: EnvironmentView)
    ensures
        ({
            let all = environment_lines(env);
            let cwd = element_lines("  <cwd>"@, env.cwd, "</cwd>"@);
            let shell = element_lines("  <shell>"@, env.shell, "</shell>"@);
            let date = element_lines(
                "  <current_date>"@,
                env.current_date,
                "</current_date>"@,
            );
            let zone = element_lines("  <timezone>"@, env.timezone, "</timezone>"@);
            let net = network_lines(env.network);
            let sub = subagent_lines(env.subagents);
            let second = count_of(env.cwd);
            let third = second + count_of(env.shell);
            let fourth = third + count_of(env.current_date);
            let fifth = fourth + count_of(env.timezone);
            let sixth = fifth + net.len();
            &&& all.len() == sixth + sub.len()
            &&& forall|k: int| 0 <= k < cwd.len() ==> all[k] == #[trigger] cwd[k]
            &&& forall|k: int| 0 <= k < shell.len() ==> all[second + k] == #[trigger] shell[k]
            &&& forall|k: int| 0 <= k < date.len() ==> all[third + k] == #[trigger] date[k]
            &&& forall|k: int| 0 <= k < zone.len() ==> all[fourth + k] == #[trigger] zone[k]
            &&& forall|k: int| 0 <= k < net.len() ==> all[fifth + k] == #[trigger] net[k]
            &&& forall|k: int| 0 <= k < sub.len() ==> all[sixth + k] == #[trigger] sub[k]
        }),
{
    let cwd = element_lines("  <cwd>"@, env.cwd, "</cwd>"@);
    let shell = element_lines("  <shell>"@, env.shell, "</shell>"@);
    let date = element_lines("  <current_date>"@, env.current_date, "</current_date>"@);
    let zone = element_lines("  <timezone>"@, env.timezone, "</timezone>"@);
    let net = network_lines(env.network);
    let sub = subagent_lines(env.subagents);
    lemma_six_parts(cwd, shell, date, zone, net, sub);
}

proof fn lemma_network_size(network: Option<(Seq<Seq<char>>, Seq<Seq<char>>)>)
    ensures
        network_lines(network).len() == network_count(network),
{
}

proof fn lemma_subagents_size(subagents: Option<Seq<char>>)
    ensures
        subagent_lines(subagents).len() == subagent_count(subagents),
{
}

/// The single parts of an environment stand first and in a fixed order, each
/// with its whole text: directory, shell, date and time zone. What is missing
/// leaves no gap.
pub proof fn law_environment_stands_in_order(env: EnvironmentView)
    ensures
        ({
            let all = environment_lines(env);
            let shell = count_of(env.cwd);
            let date = shell + count_of(env.shell);
            let zone = date + count_of(env.current_date);
            let network = zone + count_of(env.timezone);
            &&& all.len() == network + network_count(env.network) + subagent_count(env.subagents)
            &&& env.cwd matches Some(text) ==> all[0] == "  <cwd>"@ + escaped(text) + "</cwd>"@
            &&& env.shell matches Some(text) ==> all[shell] == "  <shell>"@ + escaped(text)
                + "</shell>"@
            &&& env.current_date matches Some(text) ==> all[date] == "  <current_date>"@ + escaped(
                text,
            ) + "</current_date>"@
            &&& env.timezone matches Some(text) ==> all[zone] == "  <timezone>"@ + escaped(text)
                + "</timezone>"@
        }),
{
    lemma_environment_parts(env);
    lemma_network_size(env.network);
    lemma_subagents_size(env.subagents);
    let all = environment_lines(env);
    let shell = count_of(env.cwd);
    let date = shell + count_of(env.shell);
    let zone = date + count_of(env.current_date);
    if let Some(text) = env.cwd {
        assert(all[0] == element_lines("  <cwd>"@, env.cwd, "</cwd>"@)[0]);
    }
    if let Some(text) = env.shell {
        assert(all[shell + 0] == element_lines("  <shell>"@, env.shell, "</shell>"@)[0]);
    }
    if let Some(text) = env.current_date {
        assert(all[date + 0] == element_lines(
            "  <current_date>"@,
            env.current_date,
            "</current_date>"@,
        )[0]);
    }
    if let Some(text) = env.timezone {
        assert(all[zone + 0] == element_lines(
            "  <timezone>"@,
            env.timezone,
            "</timezone>"@,
        )[0]);
    }
}

/// The network stands behind the single parts, with every allowed host and then
/// every denied one, in their order.
pub proof fn law_network_shows_every_host(
    env: EnvironmentView,
    allowed: Seq<Seq<char>>,
    denied: Seq<Seq<char>>,
    i: int,
)
    requires
        env.network == Some((allowed, denied)),
    ensures
        ({
            let all = environment_lines(env);
            let start = count_of(env.cwd) + count_of(env.shell) + count_of(env.current_date)
                + count_of(env.timezone);
            &&& all[start] == "  <network enabled=\"true\">"@
            &&& 0 <= i < allowed.len() ==> all[start + 1 + i] == "    <allowed>"@ + escaped(
                allowed[i],
            ) + "</allowed>"@
            &&& 0 <= i < denied.len() ==> all[start + 1 + allowed.len() + i] == "    <denied>"@
                + escaped(denied[i]) + "</denied>"@
            &&& all[start + 1 + allowed.len() + denied.len()] == "  </network>"@
        }),
{
    lemma_environment_parts(env);
    let all = environment_lines(env);
    let net = network_lines(env.network);
    let start = count_of(env.cwd) + count_of(env.shell) + count_of(env.current_date) + count_of(
        env.timezone,
    );
    lemma_network_size(env.network);
    assert(all[start + 0] == net[0]);
    if 0 <= i < allowed.len() {
        assert(all[start + (1 + i)] == net[1 + i]);
    }
    if 0 <= i < denied.len() {
        assert(all[start + (1 + allowed.len() + i)] == net[1 + allowed.len() + i]);
    }
    assert(all[start + (net.len() - 1)] == net[net.len() - 1]);
}

/// The subagents stand last, line by line.
pub proof fn law_subagents_are_shown(env: EnvironmentView, text: Seq<char>, i: int)
    requires
        env.subagents == Some(text),
    ensures
        ({
            let all = environment_lines(env);
            let start = all.len() - lines(text).len() - 2;
            &&& start >= 0
            &&& all[start] == "  <subagents>"@
            &&& 0 <= i < lines(text).len() ==> all[start + 1 + i] == "    "@ + escaped(
                lines(text)[i],
            ) + ""@
            &&& all.last() == "  </subagents>"@
        }),
{
    lemma_environment_parts(env);
    lemma_subagents_size(env.subagents);
    let all = environment_lines(env);
    let sub = subagent_lines(env.subagents);
    let start = all.len() - sub.len();
    assert(all[start + 0] == sub[0]);
    if 0 <= i < lines(text).len() {
        assert(all[start + (1 + i)] == sub[1 + i]);
    }
    assert(all[start + (sub.len() - 1)] == sub[sub.len() - 1]);
}

/// An environment without any part is an empty element; otherwise every line
/// stands between the tags.
pub proof fn law_environment_is_framed(env: EnvironmentView, i: int)
    ensures
        env.cwd is None && env.shell is None && env.current_date is None && env.timezone is None
            && env.network is None && env.subagents is None ==> environment_xml(env)
            == "<environment_context />"@,
        0 <= i < environment_lines(env).len() ==> {
            &&& shows(environment_xml(env), environment_lines(env)[i])
            &&& environment_xml(env) == "<environment_context>\n"@ + joined(
                environment_lines(env),
                "\n"@,
            ) + "\n</environment_context>"@
        },
{
    law_environment_stands_in_order(env);
    let all = environment_lines(env);
    if 0 <= i < all.len() {
        let body = joined(all, "\n"@);
        law_joined_texts_are_shown(all, "\n"@, i);
        lemma_shows(
            environment_xml(env),
            "<environment_context>\n"@,
            body,
            "\n</environment_context>"@,
        );
        lemma_shows_through(environment_xml(env), body, all[i]);
    }
}

} // verus!
