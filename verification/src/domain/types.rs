//! Value objects shared by all layers.

use crate::clock::Timestamp;
use crate::json::JsonValue;
use vstd::prelude::*;

verus! {

broadcast use vstd::std_specs::vec::vec_clone_deep_view_proof;

/// A logical block of message content.
#[derive(Debug, PartialEq, Eq)]
pub enum ContentBlock {
    /// Plain text.
    Text(String),
    /// Inline image.
    Image {
        /// Encoded image data.
        data: String,
        /// MIME type of the image.
        media_type: String,
    },
    /// Inline file.
    File {
        /// File name shown to the model.
        name: String,
        /// MIME type of the file.
        media_type: String,
        /// Text of the file.
        text: String,
    },
}

/// Model of [`ContentBlock`].
#[verifier::ext_equal]
pub enum ContentBlockView {
    Text(Seq<char>),
    Image { data: Seq<char>, media_type: Seq<char> },
    File { name: Seq<char>, media_type: Seq<char>, text: Seq<char> },
}

impl DeepView for ContentBlock {
    type V = ContentBlockView;

    open spec fn deep_view(&self) -> ContentBlockView {
        match self {
            ContentBlock::Text(text) => ContentBlockView::Text(text@),
            ContentBlock::Image { data, media_type } => ContentBlockView::Image {
                data: data@,
                media_type: media_type@,
            },
            ContentBlock::File { name, media_type, text } => ContentBlockView::File {
                name: name@,
                media_type: media_type@,
                text: text@,
            },
        }
    }
}

impl Clone for ContentBlock {
    fn clone(&self) -> (r: Self)
        ensures
            r.deep_view() == self.deep_view(),
    {
        match self {
            ContentBlock::Text(text) => ContentBlock::Text(text.clone()),
            ContentBlock::Image { data, media_type } => ContentBlock::Image {
                data: data.clone(),
                media_type: media_type.clone(),
            },
            ContentBlock::File { name, media_type, text } => ContentBlock::File {
                name: name.clone(),
                media_type: media_type.clone(),
                text: text.clone(),
            },
        }
    }
}

/// Whether an assistant message was finished.
#[derive(Debug, Clone, Copy, PartialEq, Eq, Structural)]
pub enum MessageStatus {
    /// The message ended normally.
    Complete,
    /// The message was interrupted.
    Incomplete,
}

/// Output of a tool execution.
#[derive(Debug, PartialEq, Eq)]
pub struct ToolOutput {
    /// Content visible to the model.
    pub content: String,
    /// Whether the result stands for an error.
    pub is_error: bool,
    /// Structured metadata kept for audit and recovery.
    pub metadata: JsonValue,
}

/// Model of [`ToolOutput`].
#[verifier::ext_equal]
pub struct ToolOutputView {
    pub content: Seq<char>,
    pub is_error: bool,
    pub metadata: Seq<char>,
}

impl DeepView for ToolOutput {
    type V = ToolOutputView;

    open spec fn deep_view(&self) -> ToolOutputView {
        ToolOutputView {
            content: self.content@,
            is_error: self.is_error,
            metadata: self.metadata.deep_view(),
        }
    }
}

impl Clone for ToolOutput {
    fn clone(&self) -> (r: Self)
        ensures
            r.deep_view() == self.deep_view(),
    {
        ToolOutput {
            content: self.content.clone(),
            is_error: self.is_error,
            metadata: self.metadata.clone(),
        }
    }
}

/// A conversation message.
#[derive(Debug, PartialEq, Eq)]
#[allow(inconsistent_fields)]
pub enum Message {
    /// Message of the user.
    User {
        /// Content blocks given by the caller.
        content: Vec<ContentBlock>,
    },
    /// Message of the assistant.
    Assistant {
        /// Content blocks generated by the model.
        content: Vec<ContentBlock>,
        /// Whether the message was finished.
        status: MessageStatus,
    },
    /// Tool call requested by the model.
    ToolCall {
        /// Call id chosen by the provider.
        call_id: String,
        /// Tool name.
        tool_name: String,
        /// JSON arguments.
        arguments: JsonValue,
    },
    /// Result of a tool call.
    ToolResult {
        /// Call id chosen by the provider.
        call_id: String,
        /// Tool output.
        output: ToolOutput,
    },
    /// System message injected by the agent.
    System {
        /// Text of the message.
        content: String,
    },
}

/// Model of [`Message`].
#[verifier::ext_equal]
#[allow(inconsistent_fields)]
pub enum MessageView {
    User { content: Seq<ContentBlockView> },
    Assistant { content: Seq<ContentBlockView>, status: MessageStatus },
    ToolCall { call_id: Seq<char>, tool_name: Seq<char>, arguments: Seq<char> },
    ToolResult { call_id: Seq<char>, output: ToolOutputView },
    System { content: Seq<char> },
}

impl DeepView for Message {
    type V = MessageView;

    open spec fn deep_view(&self) -> MessageView {
        match self {
            Message::User { content } => MessageView::User { content: content.deep_view() },
            Message::Assistant { content, status } => MessageView::Assistant {
                content: content.deep_view(),
                status: *status,
            },
            Message::ToolCall { call_id, tool_name, arguments } => MessageView::ToolCall {
                call_id: call_id@,
                tool_name: tool_name@,
                arguments: arguments.deep_view(),
            },
            Message::ToolResult { call_id, output } => MessageView::ToolResult {
                call_id: call_id@,
                output: output.deep_view(),
            },
            Message::System { content } => MessageView::System { content: content@ },
        }
    }
}

impl Clone for Message {
    fn clone(&self) -> (r: Self)
        ensures
            r.deep_view() == self.deep_view(),
    {
        match self {
            Message::User { content } => Message::User { content: content.clone() },
            Message::Assistant { content, status } => Message::Assistant {
                content: content.clone(),
                status: *status,
            },
            Message::ToolCall { call_id, tool_name, arguments } => Message::ToolCall {
                call_id: call_id.clone(),
                tool_name: tool_name.clone(),
                arguments: arguments.clone(),
            },
            Message::ToolResult { call_id, output } => Message::ToolResult {
                call_id: call_id.clone(),
                output: output.clone(),
            },
            Message::System { content } => Message::System { content: content.clone() },
        }
    }
}

/// Input of one turn.
#[derive(Debug, PartialEq, Eq)]
pub struct UserInput {
    /// Content blocks given by the caller.
    pub content: Vec<ContentBlock>,
}

impl DeepView for UserInput {
    type V = Seq<ContentBlockView>;

    open spec fn deep_view(&self) -> Seq<ContentBlockView> {
        self.content.deep_view()
    }
}

impl Clone for UserInput {
    fn clone(&self) -> (r: Self)
        ensures
            r.deep_view() == self.deep_view(),
    {
        UserInput { content: self.content.clone() }
    }
}

/// A skill registered when the agent is built.
#[derive(Debug, PartialEq, Eq)]
pub struct SkillDefinition {
    /// Unique name, used in `/name` invocations.
    pub name: String,
    /// Name shown to the user.
    pub display_name: String,
    /// Short description shown in the prompt.
    pub description: String,
    /// Prompt fragment injected when the skill is invoked.
    pub prompt_template: String,
    /// Names of the tools that the skill depends on.
    pub required_tools: Vec<String>,
    /// Whether the skill is listed to the model.
    pub allow_implicit_invocation: bool,
}

/// Model of [`SkillDefinition`].
#[verifier::ext_equal]
pub struct SkillView {
    pub name: Seq<char>,
    pub display_name: Seq<char>,
    pub description: Seq<char>,
    pub prompt_template: Seq<char>,
    pub required_tools: Seq<Seq<char>>,
    pub allow_implicit_invocation: bool,
}

impl DeepView for SkillDefinition {
    type V = SkillView;

    open spec fn deep_view(&self) -> SkillView {
        SkillView {
            name: self.name@,
            display_name: self.display_name@,
            description: self.description@,
            prompt_template: self.prompt_template@,
            required_tools: self.required_tools.deep_view(),
            allow_implicit_invocation: self.allow_implicit_invocation,
        }
    }
}

impl Clone for SkillDefinition {
    fn clone(&self) -> (r: Self)
        ensures
            r.deep_view() == self.deep_view(),
    {
        SkillDefinition {
            name: self.name.clone(),
            display_name: self.display_name.clone(),
            description: self.description.clone(),
            prompt_template: self.prompt_template.clone(),
            required_tools: self.required_tools.clone(),
            allow_implicit_invocation: self.allow_implicit_invocation,
        }
    }
}

/// A memory kept across sessions.
#[derive(Debug, PartialEq, Eq)]
pub struct Memory {
    /// Globally unique id.
    pub id: String,
    /// Namespace that the memory belongs to.
    pub namespace: String,
    /// Content of the memory.
    pub content: String,
    /// Where the memory came from.
    pub source: String,
    /// Tags.
    pub tags: Vec<String>,
    /// Time of creation.
    pub created_at: Timestamp,
    /// Time of the last update.
    pub updated_at: Timestamp,
}

/// Model of [`Memory`].
#[verifier::ext_equal]
pub struct MemoryView {
    pub id: Seq<char>,
    pub namespace: Seq<char>,
    pub content: Seq<char>,
    pub source: Seq<char>,
    pub tags: Seq<Seq<char>>,
    pub created_at: Timestamp,
    pub updated_at: Timestamp,
}

impl DeepView for Memory {
    type V = MemoryView;

    open spec fn deep_view(&self) -> MemoryView {
        MemoryView {
            id: self.id@,
            namespace: self.namespace@,
            content: self.content@,
            source: self.source@,
            tags: self.tags.deep_view(),
            created_at: self.created_at,
            updated_at: self.updated_at,
        }
    }
}

impl Clone for Memory {
    fn clone(&self) -> (r: Self)
        ensures
            r.deep_view() == self.deep_view(),
    {
        Memory {
            id: self.id.clone(),
            namespace: self.namespace.clone(),
            content: self.content.clone(),
            source: self.source.clone(),
            tags: self.tags.clone(),
            created_at: self.created_at,
            updated_at: self.updated_at,
        }
    }
}

} // verus!
