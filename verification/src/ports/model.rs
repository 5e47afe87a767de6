//! Values exchanged with model providers.

use crate::domain::error::ErrorSource;
use crate::domain::types::{Message, MessageView};
use crate::json::JsonValue;
use vstd::prelude::*;

verus! {

broadcast use vstd::std_specs::vec::vec_clone_deep_view_proof;

/// What a model can do.
#[derive(Debug, Clone, Copy, PartialEq, Eq, Structural)]
pub struct ModelCapabilities {
    /// Whether the model can call tools.
    pub tool_use: bool,
    /// Whether the model takes images.
    pub vision: bool,
    /// Whether the provider streams.
    pub streaming: bool,
}

impl DeepView for ModelCapabilities {
    type V = ModelCapabilities;

    open spec fn deep_view(&self) -> ModelCapabilities {
        *self
    }
}

impl Default for ModelCapabilities {
    fn default() -> (r: Self)
        ensures
            !r.tool_use && !r.vision && !r.streaming,
    {
        ModelCapabilities { tool_use: false, vision: false, streaming: false }
    }
}

/// A model offered by a provider.
#[derive(Debug, PartialEq, Eq)]
pub struct ModelInfo {
    /// Model id.
    pub id: String,
    /// Name shown to the user.
    pub display_name: String,
    /// Size of the context window in tokens.
    pub context_window: usize,
    /// Capabilities.
    pub capabilities: ModelCapabilities,
}

/// Model of [`ModelInfo`].
#[verifier::ext_equal]
pub struct ModelInfoView {
    pub id: Seq<char>,
    pub display_name: Seq<char>,
    pub context_window: usize,
    pub capabilities: ModelCapabilities,
}

impl DeepView for ModelInfo {
    type V = ModelInfoView;

    open spec fn deep_view(&self) -> ModelInfoView {
        ModelInfoView {
            id: self.id@,
            display_name: self.display_name@,
            context_window: self.context_window,
            capabilities: self.capabilities,
        }
    }
}

impl Clone for ModelInfo {
    fn clone(&self) -> (r: Self)
        ensures
            r.deep_view() == self.deep_view(),
    {
        ModelInfo {
            id: self.id.clone(),
            display_name: self.display_name.clone(),
            context_window: self.context_window,
            capabilities: self.capabilities,
        }
    }
}

/// A tool as the provider sees it.
#[derive(Debug, PartialEq, Eq)]
pub struct ToolDefinition {
    /// Tool name.
    pub name: String,
    /// Description.
    pub description: String,
    /// JSON schema of the arguments.
    pub parameters: JsonValue,
}

/// Model of [`ToolDefinition`].
#[verifier::ext_equal]
pub struct ToolDefinitionView {
    pub name: Seq<char>,
    pub description: Seq<char>,
    pub parameters: Seq<char>,
}

impl DeepView for ToolDefinition {
    type V = ToolDefinitionView;

    open spec fn deep_view(&self) -> ToolDefinitionView {
        ToolDefinitionView {
            name: self.name@,
            description: self.description@,
            parameters: self.parameters.deep_view(),
        }
    }
}

impl Clone for ToolDefinition {
    fn clone(&self) -> (r: Self)
        ensures
            r.deep_view() == self.deep_view(),
    {
        ToolDefinition {
            name: self.name.clone(),
            description: self.description.clone(),
            parameters: self.parameters.clone(),
        }
    }
}

/// A request to a provider. The sampling temperature is a floating-point
/// setting of the host and never set here.
#[derive(Debug, PartialEq, Eq)]
pub struct ChatRequest {
    /// Target model.
    pub model_id: String,
    /// Messages in order.
    pub messages: Vec<Message>,
    /// Tools that the model may call.
    pub tools: Vec<ToolDefinition>,
    /// Optional limit of output tokens.
    pub max_tokens: Option<u32>,
    /// Optional hint on reasoning effort.
    pub reasoning_effort: Option<String>,
}

/// Model of [`ChatRequest`].
#[verifier::ext_equal]
pub struct ChatRequestView {
    pub model_id: Seq<char>,
    pub messages: Seq<MessageView>,
    pub tools: Seq<ToolDefinitionView>,
    pub max_tokens: Option<u32>,
    pub reasoning_effort: Option<Seq<char>>,
}

impl DeepView for ChatRequest {
    type V = ChatRequestView;

    open spec fn deep_view(&self) -> ChatRequestView {
        ChatRequestView {
            model_id: self.model_id@,
            messages: self.messages.deep_view(),
            tools: self.tools.deep_view(),
            max_tokens: self.max_tokens,
            reasoning_effort: self.reasoning_effort.deep_view(),
        }
    }
}

impl Clone for ChatRequest {
    fn clone(&self) -> (r: Self)
        ensures
            r.deep_view() == self.deep_view(),
    {
        ChatRequest {
            model_id: self.model_id.clone(),
            messages: self.messages.clone(),
            tools: self.tools.clone(),
            max_tokens: self.max_tokens,
            reasoning_effort: self.reasoning_effort.clone(),
        }
    }
}

/// Token usage reported by a provider.
#[derive(Debug, Clone, Copy, PartialEq, Eq, Structural)]
pub struct TokenUsage {
    /// Input tokens.
    pub input_tokens: u64,
    /// Output tokens.
    pub output_tokens: u64,
}

impl Default for TokenUsage {
    fn default() -> (r: Self)
        ensures
            r.input_tokens == 0,
            r.output_tokens == 0,
    {
        TokenUsage { input_tokens: 0, output_tokens: 0 }
    }
}

/// An error reported by a provider.
#[derive(Debug, Clone, PartialEq, Eq)]
pub struct ChatError {
    /// Message for the user.
    pub message: String,
    /// Whether a retry may succeed.
    pub retryable: bool,
    /// Whether the request did not fit the context window.
    pub is_context_length_exceeded: bool,
}

/// Model of [`ChatError`].
#[verifier::ext_equal]
pub struct ChatErrorView {
    pub message: Seq<char>,
    pub retryable: bool,
    pub is_context_length_exceeded: bool,
}

impl DeepView for ChatError {
    type V = ChatErrorView;

    open spec fn deep_view(&self) -> ChatErrorView {
        ChatErrorView {
            message: self.message@,
            retryable: self.retryable,
            is_context_length_exceeded: self.is_context_length_exceeded,
        }
    }
}

/// One event of a provider's answer.
#[derive(Debug, Clone, PartialEq, Eq)]
pub enum ChatEvent {
    /// More text.
    TextDelta(String),
    /// More reasoning.
    ReasoningDelta(String),
    /// A tool call.
    ToolCall {
        /// Call id chosen by the provider.
        call_id: String,
        /// Tool name.
        tool_name: String,
        /// JSON arguments.
        arguments: JsonValue,
    },
    /// End of the answer.
    Done {
        /// Token usage.
        usage: TokenUsage,
    },
    /// The provider failed.
    Error(ChatError),
}

/// Model of [`ChatEvent`].
#[verifier::ext_equal]
pub enum ChatEventView {
    TextDelta(Seq<char>),
    ReasoningDelta(Seq<char>),
    ToolCall { call_id: Seq<char>, tool_name: Seq<char>, arguments: Seq<char> },
    Done { usage: TokenUsage },
    Error(ChatErrorView),
}

impl DeepView for ChatEvent {
    type V = ChatEventView;

    open spec fn deep_view(&self) -> ChatEventView {
        match self {
            ChatEvent::TextDelta(text) => ChatEventView::TextDelta(text@),
            ChatEvent::ReasoningDelta(text) => ChatEventView::ReasoningDelta(text@),
            ChatEvent::ToolCall { call_id, tool_name, arguments } => ChatEventView::ToolCall {
                call_id: call_id@,
                tool_name: tool_name@,
                arguments: arguments.deep_view(),
            },
            ChatEvent::Done { usage } => ChatEventView::Done { usage: *usage },
            ChatEvent::Error(error) => ChatEventView::Error(error.deep_view()),
        }
    }
}

/// What the next read of a provider's stream gave.
#[derive(Debug, PartialEq, Eq)]
pub enum StreamItem {
    /// An event.
    Event(ChatEvent),
    /// The stream itself failed.
    Failed(ErrorSource),
    /// The stream is over.
    End,
}

/// Model of [`StreamItem`].
#[verifier::ext_equal]
pub enum StreamItemView {
    Event(ChatEventView),
    Failed(Seq<Seq<char>>),
    End,
}

impl DeepView for StreamItem {
    type V = StreamItemView;

    open spec fn deep_view(&self) -> StreamItemView {
        match self {
            StreamItem::Event(event) => StreamItemView::Event(event.deep_view()),
            StreamItem::Failed(source) => StreamItemView::Failed(source.deep_view()),
            StreamItem::End => StreamItemView::End,
        }
    }
}

} // verus!
