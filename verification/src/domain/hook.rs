//! Hook contract shared by plugins and the application layer.

use crate::clock::Timestamp;
use crate::domain::types::{ContentBlockView, ToolOutput, ToolOutputView, UserInput};
use crate::json::JsonValue;
use vstd::prelude::*;

verus! {

broadcast use vstd::std_specs::vec::vec_clone_deep_view_proof;

/// Points at which plugins may act.
#[derive(Debug, Clone, Copy, PartialEq, Eq, Hash, Structural)]
pub enum HookEvent {
    /// Before a session becomes active.
    SessionStart,
    /// When a session is closed.
    SessionEnd,
    /// Before a turn starts.
    TurnStart,
    /// After a turn ended.
    TurnEnd,
    /// Before a tool call.
    BeforeToolUse,
    /// After a tool call.
    AfterToolUse,
    /// Before the context is compacted.
    BeforeCompact,
}

impl DeepView for HookEvent {
    type V = HookEvent;

    open spec fn deep_view(&self) -> HookEvent {
        *self
    }
}

/// The stable name of a hook.
pub open spec fn hook_name(event: HookEvent) -> Seq<char> {
    match event {
        HookEvent::SessionStart => "SessionStart"@,
        HookEvent::SessionEnd => "SessionEnd"@,
        HookEvent::TurnStart => "TurnStart"@,
        HookEvent::TurnEnd => "TurnEnd"@,
        HookEvent::BeforeToolUse => "BeforeToolUse"@,
        HookEvent::AfterToolUse => "AfterToolUse"@,
        HookEvent::BeforeCompact => "BeforeCompact"@,
    }
}

/// Different hooks have different names.
pub proof fn lemma_hook_names_distinct(a: HookEvent, b: HookEvent)
    ensures
        hook_name(a) == hook_name(b) ==> a == b,
{
    reveal_strlit("SessionStart");
    reveal_strlit("SessionEnd");
    reveal_strlit("TurnStart");
    reveal_strlit("TurnEnd");
    reveal_strlit("BeforeToolUse");
    reveal_strlit("AfterToolUse");
    reveal_strlit("BeforeCompact");
    if hook_name(a) == hook_name(b) {
        assert(hook_name(a).len() == hook_name(b).len());
        assert(hook_name(a)[0] == hook_name(b)[0]);
        assert(hook_name(a)[6] == hook_name(b)[6]);
    }
}

impl HookEvent {
    /// Whether a handler may return a patch.
    pub fn supports_patch(&self) -> (r: bool)
        ensures
            r == (*self is TurnStart || *self is BeforeToolUse),
    {
        match self {
            HookEvent::TurnStart | HookEvent::BeforeToolUse => true,
            _ => false,
        }
    }

    /// The stable name of the hook.
    pub fn as_str(&self) -> (r: &'static str)
        ensures
            r@ == hook_name(*self),
    {
        match self {
            HookEvent::SessionStart => "SessionStart",
            HookEvent::SessionEnd => "SessionEnd",
            HookEvent::TurnStart => "TurnStart",
            HookEvent::TurnEnd => "TurnEnd",
            HookEvent::BeforeToolUse => "BeforeToolUse",
            HookEvent::AfterToolUse => "AfterToolUse",
            HookEvent::BeforeCompact => "BeforeCompact",
        }
    }
}

/// Data of one hook event.
#[derive(Debug, PartialEq, Eq)]
pub enum HookData {
    /// A session starts.
    SessionStart {
        /// Model of the session.
        model_id: String,
    },
    /// A session ends.
    SessionEnd {
        /// Number of messages in the session.
        message_count: usize,
    },
    /// A turn starts.
    TurnStart {
        /// Input of the turn.
        user_input: UserInput,
        /// Dynamic sections collected so far.
        dynamic_sections: Vec<String>,
    },
    /// A turn ended.
    TurnEnd {
        /// Final output of the assistant.
        assistant_output: String,
        /// Number of tool calls in the turn.
        tool_calls_count: usize,
        /// Whether the turn was cancelled.
        cancelled: bool,
    },
    /// A tool is about to run.
    BeforeToolUse {
        /// Tool name.
        tool_name: String,
        /// Arguments of the call.
        arguments: JsonValue,
    },
    /// A tool has run.
    AfterToolUse {
        /// Tool name.
        tool_name: String,
        /// Tool output.
        output: ToolOutput,
        /// Duration in milliseconds.
        duration_ms: u64,
        /// Whether the tool succeeded.
        success: bool,
    },
    /// The context is about to be compacted.
    BeforeCompact {
        /// Number of visible messages.
        message_count: usize,
        /// Estimated number of tokens.
        estimated_tokens: usize,
    },
}

/// Model of [`HookData`].
#[verifier::ext_equal]
pub enum HookDataView {
    SessionStart { model_id: Seq<char> },
    SessionEnd { message_count: usize },
    TurnStart { user_input: Seq<ContentBlockView>, dynamic_sections: Seq<Seq<char>> },
    TurnEnd { assistant_output: Seq<char>, tool_calls_count: usize, cancelled: bool },
    BeforeToolUse { tool_name: Seq<char>, arguments: Seq<char> },
    AfterToolUse { tool_name: Seq<char>, output: ToolOutputView, duration_ms: u64, success: bool },
    BeforeCompact { message_count: usize, estimated_tokens: usize },
}

impl DeepView for HookData {
    type V = HookDataView;

    open spec fn deep_view(&self) -> HookDataView {
        match self {
            HookData::SessionStart { model_id } => HookDataView::SessionStart {
                model_id: model_id@,
            },
            HookData::SessionEnd { message_count } => HookDataView::SessionEnd {
                message_count: *message_count,
            },
            HookData::TurnStart { user_input, dynamic_sections } => HookDataView::TurnStart {
                user_input: user_input.deep_view(),
                dynamic_sections: dynamic_sections.deep_view(),
            },
            HookData::TurnEnd { assistant_output, tool_calls_count, cancelled } =>
            HookDataView::TurnEnd {
                assistant_output: assistant_output@,
                tool_calls_count: *tool_calls_count,
                cancelled: *cancelled,
            },
            HookData::BeforeToolUse { tool_name, arguments } => HookDataView::BeforeToolUse {
                tool_name: tool_name@,
                arguments: arguments.deep_view(),
            },
            HookData::AfterToolUse { tool_name, output, duration_ms, success } =>
            HookDataView::AfterToolUse {
                tool_name: tool_name@,
                output: output.deep_view(),
                duration_ms: *duration_ms,
                success: *success,
            },
            HookData::BeforeCompact { message_count, estimated_tokens } =>
            HookDataView::BeforeCompact {
                message_count: *message_count,
                estimated_tokens: *estimated_tokens,
            },
        }
    }
}

impl Clone for HookData {
    fn clone(&self) -> (r: Self)
        ensures
            r.deep_view() == self.deep_view(),
    {
        match self {
            HookData::SessionStart { model_id } => HookData::SessionStart {
                model_id: model_id.clone(),
            },
            HookData::SessionEnd { message_count } => HookData::SessionEnd {
                message_count: *message_count,
            },
            HookData::TurnStart { user_input, dynamic_sections } => HookData::TurnStart {
                user_input: user_input.clone(),
                dynamic_sections: dynamic_sections.clone(),
            },
            HookData::TurnEnd { assistant_output, tool_calls_count, cancelled } =>
            HookData::TurnEnd {
                assistant_output: assistant_output.clone(),
                tool_calls_count: *tool_calls_count,
                cancelled: *cancelled,
            },
            HookData::BeforeToolUse { tool_name, arguments } => HookData::BeforeToolUse {
                tool_name: tool_name.clone(),
                arguments: arguments.clone(),
            },
            HookData::AfterToolUse { tool_name, output, duration_ms, success } =>
            HookData::AfterToolUse {
                tool_name: tool_name.clone(),
                output: output.clone(),
                duration_ms: *duration_ms,
                success: *success,
            },
            HookData::BeforeCompact { message_count, estimated_tokens } =>
            HookData::BeforeCompact {
                message_count: *message_count,
                estimated_tokens: *estimated_tokens,
            },
        }
    }
}

/// What one handler is given.
#[derive(Debug, PartialEq, Eq)]
pub struct HookPayload {
    /// The event.
    pub event: HookEvent,
    /// Session id.
    pub session_id: String,
    /// Turn id, if the event belongs to a turn.
    pub turn_id: Option<String>,
    /// Configuration of the plugin.
    pub plugin_config: JsonValue,
    /// Data of the event.
    pub data: HookData,
    /// Time of the dispatch.
    pub timestamp: Timestamp,
}

/// Model of [`HookPayload`].
#[verifier::ext_equal]
pub struct HookPayloadView {
    pub event: HookEvent,
    pub session_id: Seq<char>,
    pub turn_id: Option<Seq<char>>,
    pub plugin_config: Seq<char>,
    pub data: HookDataView,
    pub timestamp: Timestamp,
}

impl DeepView for HookPayload {
    type V = HookPayloadView;

    open spec fn deep_view(&self) -> HookPayloadView {
        HookPayloadView {
            event: self.event,
            session_id: self.session_id@,
            turn_id: self.turn_id.deep_view(),
            plugin_config: self.plugin_config.deep_view(),
            data: self.data.deep_view(),
            timestamp: self.timestamp,
        }
    }
}

impl Clone for HookPayload {
    fn clone(&self) -> (r: Self)
        ensures
            r.deep_view() == self.deep_view(),
    {
        HookPayload {
            event: self.event,
            session_id: self.session_id.clone(),
            turn_id: self.turn_id.clone(),
            plugin_config: self.plugin_config.clone(),
            data: self.data.clone(),
            timestamp: self.timestamp,
        }
    }
}

/// A change that a handler asks for.
#[derive(Debug, Clone, PartialEq, Eq)]
pub enum HookPatch {
    /// Adds dynamic sections to the prompt of the turn.
    TurnStart {
        /// Sections to append.
        append_dynamic_sections: Vec<String>,
    },
    /// Replaces the arguments of a tool call.
    BeforeToolUse {
        /// The new arguments.
        arguments: JsonValue,
    },
}

/// Model of [`HookPatch`].
#[verifier::ext_equal]
pub enum HookPatchView {
    TurnStart { append_dynamic_sections: Seq<Seq<char>> },
    BeforeToolUse { arguments: Seq<char> },
}

impl DeepView for HookPatch {
    type V = HookPatchView;

    open spec fn deep_view(&self) -> HookPatchView {
        match self {
            HookPatch::TurnStart { append_dynamic_sections } => HookPatchView::TurnStart {
                append_dynamic_sections: append_dynamic_sections.deep_view(),
            },
            HookPatch::BeforeToolUse { arguments } => HookPatchView::BeforeToolUse {
                arguments: arguments.deep_view(),
            },
        }
    }
}

/// Whether a patch belongs to an event.
pub open spec fn patch_matches(patch: HookPatchView, event: HookEvent) -> bool {
    match patch {
        HookPatchView::TurnStart { .. } => event is TurnStart,
        HookPatchView::BeforeToolUse { .. } => event is BeforeToolUse,
    }
}

impl HookPatch {
    /// Whether the patch belongs to the event.
    pub fn matches(&self, event: HookEvent) -> (r: bool)
        ensures
            r == patch_matches(self.deep_view(), event),
    {
        match (self, event) {
            (HookPatch::TurnStart { .. }, HookEvent::TurnStart) => true,
            (HookPatch::BeforeToolUse { .. }, HookEvent::BeforeToolUse) => true,
            _ => false,
        }
    }
}

/// Answer of a handler.
#[derive(Debug, Clone, PartialEq, Eq)]
pub enum HookResult {
    /// Go on.
    Continue,
    /// Go on with a change.
    ContinueWith(HookPatch),
    /// Abort the operation.
    Abort(String),
}

/// Model of [`HookResult`].
#[verifier::ext_equal]
pub enum HookResultView {
    Continue,
    ContinueWith(HookPatchView),
    Abort(Seq<char>),
}

impl DeepView for HookResult {
    type V = HookResultView;

    open spec fn deep_view(&self) -> HookResultView {
        match self {
            HookResult::Continue => HookResultView::Continue,
            HookResult::ContinueWith(patch) => HookResultView::ContinueWith(patch.deep_view()),
            HookResult::Abort(reason) => HookResultView::Abort(reason@),
        }
    }
}

} // verus!
