//! Laws of error texts: an error names its code and everything that it carries.

use crate::domain::error::{
    error_code, error_component, error_detail, error_text, outermost, AgentErrorView,
};
use crate::text::decimal;
use crate::text_laws::{lemma_shows, lemma_shows_through, shows};
use vstd::prelude::*;
use vstd::string::*;

verus! {

/// The parts that an error carries for its reader.
pub open spec fn carried(error: AgentErrorView) -> Seq<Seq<char>> {
    match error {
        AgentErrorView::NameConflict { kind, name } => seq![kind, name],
        AgentErrorView::SkillDependencyNotMet { skill, tool } => seq![skill, tool],
        AgentErrorView::PluginInitFailed { id, source } => if source.len() > 0 {
            seq![id, source[0]]
        } else {
            seq![id]
        },
        AgentErrorView::PluginHookContractViolation { plugin_id, message } => seq![
            plugin_id,
            message,
        ],
        AgentErrorView::StorageDuplicate { kind } => seq![kind],
        AgentErrorView::InvalidDefaultModel(value) => seq![value],
        AgentErrorView::InvalidModelConfig { kind, model_id } => seq![kind, model_id],
        AgentErrorView::InputValidation { message } => seq![message],
        AgentErrorView::ModelNotSupported(value) => seq![value],
        AgentErrorView::ProviderError { message, .. } => seq![message],
        AgentErrorView::ToolExecutionError { name, source } => if source.len() > 0 {
            seq![name, source[0]]
        } else {
            seq![name]
        },
        AgentErrorView::ToolTimeout { name, timeout_ms } => seq![name, decimal(timeout_ms as nat)],
        AgentErrorView::ToolNotFound(value) => seq![value],
        AgentErrorView::SkillNotFound(value) => seq![value],
        AgentErrorView::SessionNotFound(value) => seq![value],
        AgentErrorView::StorageError(source) => if source.len() > 0 {
            seq![source[0]]
        } else {
            Seq::empty()
        },
        AgentErrorView::MaxToolCallsExceeded { limit } => seq![decimal(limit as nat)],
        AgentErrorView::CompactError { message } => seq![message],
        AgentErrorView::PluginAborted { hook, reason } => seq![hook, reason],
        AgentErrorView::InternalPanic { message } => seq![message],
        _ => Seq::empty(),
    }
}

proof fn lemma_ends(text: Seq<char>, before: Seq<char>, part: Seq<char>)
    requires
        text == before + part,
    ensures
        shows(text, part),
{
    lemma_shows(text, before, part, Seq::empty());
}

proof fn lemma_starts(text: Seq<char>, part: Seq<char>, after: Seq<char>)
    requires
        text == part + after,
    ensures
        shows(text, part),
{
    lemma_shows(text, Seq::empty(), part, after);
}

proof fn lemma_detail_shows(error: AgentErrorView, i: int)
    requires
        0 <= i < carried(error).len(),
    ensures
        error_detail(error) matches Some(detail) && shows(detail, carried(error)[i]),
{
    let detail = error_detail(error)->0;
    let part = carried(error)[i];
    match error {
        AgentErrorView::NameConflict { kind, name } => {
            lemma_shows(detail, kind + " name '"@, name, "' is duplicated"@);
            lemma_shows(detail, Seq::empty(), kind, " name '"@ + name + "' is duplicated"@);
        },
        AgentErrorView::SkillDependencyNotMet { skill, tool } => {
            lemma_shows(detail, "skill '"@, skill, "' requires tool '"@ + tool + "'"@);
            lemma_shows(detail, "skill '"@ + skill + "' requires tool '"@, tool, "'"@);
        },
        AgentErrorView::PluginInitFailed { id, source } => {
            lemma_shows(detail, "plugin '"@, id, "': "@ + outermost(source));
            lemma_ends(detail, "plugin '"@ + id + "': "@, outermost(source));
        },
        AgentErrorView::PluginHookContractViolation { plugin_id, message } => {
            lemma_shows(detail, "plugin '"@, plugin_id, "': "@ + message);
            lemma_ends(detail, "plugin '"@ + plugin_id + "': "@, message);
        },
        AgentErrorView::StorageDuplicate { kind } => {
            lemma_starts(detail, kind, " storage registered more than once"@);
        },
        AgentErrorView::InvalidDefaultModel(value) => {
            lemma_shows(detail, "default model '"@, value, "' is not registered"@);
        },
        AgentErrorView::InvalidModelConfig { kind, model_id } => {
            lemma_shows(detail, Seq::empty(), kind, " model '"@ + model_id
                + "' is not registered"@);
            lemma_shows(detail, kind + " model '"@, model_id, "' is not registered"@);
        },
        AgentErrorView::ModelNotSupported(value) => {
            lemma_shows(detail, "model '"@, value, "' is not supported"@);
        },
        AgentErrorView::ToolExecutionError { name, source } => {
            lemma_shows(detail, "tool '"@, name, "': "@ + outermost(source));
            lemma_ends(detail, "tool '"@ + name + "': "@, outermost(source));
        },
        AgentErrorView::ToolTimeout { name, timeout_ms } => {
            let number = decimal(timeout_ms as nat);
            lemma_shows(detail, "tool '"@, name, "' timed out after "@ + number + "ms"@);
            lemma_shows(detail, "tool '"@ + name + "' timed out after "@, number, "ms"@);
        },
        AgentErrorView::ToolNotFound(value) => {
            lemma_shows(detail, "tool '"@, value, "'"@);
        },
        AgentErrorView::SkillNotFound(value) => {
            lemma_shows(detail, "skill '"@, value, "'"@);
        },
        AgentErrorView::SessionNotFound(value) => {
            lemma_shows(detail, "session '"@, value, "'"@);
        },
        AgentErrorView::MaxToolCallsExceeded { limit } => {
            lemma_shows(detail, "exceeded "@, decimal(limit as nat), " tool calls in one turn"@);
        },
        AgentErrorView::CompactError { message } => {
            lemma_ends(detail, "context compaction failed: "@, message);
        },
        AgentErrorView::PluginAborted { hook, reason } => {
            lemma_shows(detail, "hook '"@, hook, "' aborted: "@ + reason);
            lemma_ends(detail, "hook '"@ + hook + "' aborted: "@, reason);
        },
        AgentErrorView::InternalPanic { message } => {
            lemma_ends(detail, "background task panicked: "@, message);
        },
        _ => {
            lemma_shows(detail, Seq::empty(), part, Seq::empty());
        },
    }
}

/// The text of an error starts with its code in brackets and shows everything that
/// the error carries for its reader.
pub proof fn law_error_text_names_everything(error: AgentErrorView, i: int)
    ensures
        ("["@ + error_code(error) + "]"@).is_prefix_of(error_text(error)),
        0 <= i < carried(error).len() ==> shows(error_text(error), carried(error)[i]),
{
    let head = "["@ + error_code(error) + "]"@;
    let text = error_text(error);
    assert(text.take(head.len() as int) =~= head);
    if 0 <= i < carried(error).len() {
        lemma_detail_shows(error, i);
        let detail = error_detail(error)->0;
        lemma_ends(text, head + " "@, detail);
        lemma_shows_through(text, detail, carried(error)[i]);
    }
}

/// An error comes from the part of the agent that its kind belongs to.
pub proof fn law_errors_name_their_component(error: AgentErrorView)
    ensures
        error is ProviderError || error is CompactError ==> error_component(error) == "provider"@,
        error is ToolExecutionError || error is ToolTimeout || error is ToolNotFound
            ==> error_component(error) == "tool"@,
        error is PluginInitFailed || error is PluginHookContractViolation || error is PluginAborted
            ==> error_component(error) == "plugin"@,
        error is StorageError ==> error_component(error) == "storage"@,
        error is SessionBusy || error is TurnBusy || error is SessionNotFound
            || error is SkillNotFound || error is InputValidation || error is AgentShutdown
            || error is MaxToolCallsExceeded || error is ModelNotSupported
            || error is RequestCancelled ==> error_component(error) == "agent"@,
{
}

} // verus!
