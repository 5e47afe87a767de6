//! Assembly of provider requests.

use crate::application::prompt_builder::RenderedPrompt;
use crate::domain::error::{invalid_input, outcome, AgentErrorView, Result};
use crate::domain::types::{
    ContentBlock, ContentBlockView, Message, MessageView, ToolOutput, ToolOutputView,
};
use crate::json::JsonValue;
use crate::ports::model::{
    ChatRequest, ChatRequestView, ModelCapabilities, ToolDefinition, ToolDefinitionView,
};
use vstd::prelude::*;
use vstd::string::*;

verus! {

broadcast use vstd::std_specs::vec::vec_clone_deep_view_proof;

/// The resolved configuration of a session.
#[derive(Debug, Clone, PartialEq, Eq)]
pub struct ResolvedSessionConfig {
    /// Model of the session.
    pub model_id: String,
    /// Addition to the system prompt.
    pub system_prompt_override: Option<String>,
}

/// What a request is built from.
#[derive(Debug, Clone, PartialEq, Eq)]
pub struct RequestContext {
    /// Visible history.
    pub messages: Vec<Message>,
    /// Capabilities of the model.
    pub model_capabilities: ModelCapabilities,
    /// Tools of the session.
    pub tool_definitions: Vec<ToolDefinition>,
}

/// Options of one request.
#[derive(Debug, Clone, Copy, PartialEq, Eq, Structural)]
pub struct RequestBuildOptions {
    /// Whether the request offers tools.
    pub allow_tools: bool,
}

impl Default for RequestBuildOptions {
    fn default() -> (r: Self)
        ensures
            r.allow_tools,
    {
        RequestBuildOptions { allow_tools: true }
    }
}

/// Builds provider requests.
#[derive(Debug, Clone, Copy)]
pub struct ChatRequestBuilder;

/// A content block as the provider sees it: files become text.
pub open spec fn provider_block(block: ContentBlockView) -> ContentBlockView {
    match block {
        ContentBlockView::File { name, media_type, text } => ContentBlockView::Text(
            "<file>\n<name>"@ + name + "</name>\n<media_type>"@ + media_type + "</media_type>\n"@
                + text + "\n</file>"@,
        ),
        _ => block,
    }
}

/// Content blocks as the provider sees them.
pub open spec fn provider_blocks(blocks: Seq<ContentBlockView>) -> Seq<ContentBlockView> {
    blocks.map_values(|block: ContentBlockView| provider_block(block))
}

/// A message as the provider sees it: tool metadata is left out.
pub open spec fn provider_message(message: MessageView) -> MessageView {
    match message {
        MessageView::User { content } => MessageView::User { content: provider_blocks(content) },
        MessageView::Assistant { content, status } => MessageView::Assistant {
            content: provider_blocks(content),
            status,
        },
        MessageView::ToolResult { call_id, output } => MessageView::ToolResult {
            call_id,
            output: ToolOutputView { metadata: "{}"@, ..output },
        },
        _ => message,
    }
}

/// Messages as the provider sees them.
pub open spec fn provider_messages(messages: Seq<MessageView>) -> Seq<MessageView> {
    messages.map_values(|message: MessageView| provider_message(message))
}

/// Whether a list of blocks holds an image.
pub open spec fn blocks_hold_image(blocks: Seq<ContentBlockView>) -> bool {
    exists|i: int| 0 <= i < blocks.len() && (#[trigger] blocks[i]) is Image
}

/// Whether a message holds an image.
pub open spec fn message_holds_image(message: MessageView) -> bool {
    match message {
        MessageView::User { content } => blocks_hold_image(content),
        MessageView::Assistant { content, .. } => blocks_hold_image(content),
        _ => false,
    }
}

/// Whether any message holds an image.
pub open spec fn hold_image(messages: Seq<MessageView>) -> bool {
    exists|i: int| 0 <= i < messages.len() && message_holds_image(#[trigger] messages[i])
}

/// The request for a prompt and a history, or why it cannot be made.
pub open spec fn request_of(
    prompt: Seq<char>,
    messages: Seq<MessageView>,
    capabilities: ModelCapabilities,
    tool_definitions: Seq<ToolDefinitionView>,
    model_id: Seq<char>,
    allow_tools: bool,
) -> std::result::Result<ChatRequestView, AgentErrorView> {
    let tools = if allow_tools {
        tool_definitions
    } else {
        Seq::empty()
    };
    if tools.len() > 0 && !capabilities.tool_use {
        Err(
            AgentErrorView::InputValidation {
                message: "model '"@ + model_id + "' does not support tool use"@,
            },
        )
    } else if hold_image(messages) && !capabilities.vision {
        Err(
            AgentErrorView::InputValidation {
                message: "model '"@ + model_id + "' does not support image input"@,
            },
        )
    } else {
        Ok(
            ChatRequestView {
                model_id,
                messages: seq![MessageView::System { content: prompt }] + provider_messages(
                    messages,
                ),
                tools,
                max_tokens: None,
                reasoning_effort: None,
            },
        )
    }
}

fn blocks_contain_image(blocks: &Vec<ContentBlock>) -> (r: bool)
    ensures
        r == blocks_hold_image(blocks.deep_view()),
{
    let mut i: usize = 0;
    while i < blocks.len()
        invariant
            i <= blocks.len(),
            forall|j: int| 0 <= j < i ==> !((#[trigger] blocks.deep_view()[j]) is Image),
        decreases blocks.len() - i,
    {
        proof {
            assert(blocks.deep_view()[i as int] == blocks[i as int].deep_view());
        }
        match &blocks[i] {
            ContentBlock::Image { .. } => {
                return true;
            },
            _ => {},
        }
        i += 1;
    }
    false
}

/// Whether any message holds an image.
pub fn messages_contain_image(messages: &Vec<Message>) -> (r: bool)
    ensures
        r == hold_image(messages.deep_view()),
{
    let mut i: usize = 0;
    while i < messages.len()
        invariant
            i <= messages.len(),
            forall|j: int|
                0 <= j < i ==> !message_holds_image(#[trigger] messages.deep_view()[j]),
        decreases messages.len() - i,
    {
        proof {
            assert(messages.deep_view()[i as int] == messages[i as int].deep_view());
        }
        let found = match &messages[i] {
            Message::User { content } => blocks_contain_image(content),
            Message::Assistant { content, .. } => blocks_contain_image(content),
            _ => false,
        };
        if found {
            return true;
        }
        i += 1;
    }
    false
}

/// Maps a content block to what the provider sees.
pub fn map_content_block_for_provider(block: &ContentBlock) -> (r: ContentBlock)
    ensures
        r.deep_view() == provider_block(block.deep_view()),
{
    match block {
        ContentBlock::Text(text) => ContentBlock::Text(text.clone()),
        ContentBlock::Image { data, media_type } => ContentBlock::Image {
            data: data.clone(),
            media_type: media_type.clone(),
        },
        ContentBlock::File { name, media_type, text } => ContentBlock::Text(
            "<file>\n<name>".to_owned().concat(name.as_str()).concat(
                "</name>\n<media_type>",
            ).concat(media_type.as_str()).concat("</media_type>\n").concat(text.as_str()).concat(
                "\n</file>",
            ),
        ),
    }
}

/// Maps content blocks to what the provider sees.
pub fn map_content_blocks_for_provider(content: &Vec<ContentBlock>) -> (r: Vec<ContentBlock>)
    ensures
        r.deep_view() == provider_blocks(content.deep_view()),
{
    let mut out: Vec<ContentBlock> = Vec::new();
    let mut i: usize = 0;
    while i < content.len()
        invariant
            i <= content.len(),
            out.deep_view() =~= provider_blocks(content.deep_view()).take(i as int),
        decreases content.len() - i,
    {
        let ghost before = out.deep_view();
        out.push(map_content_block_for_provider(&content[i]));
        proof {
            assert(out.deep_view() =~= before.push(provider_blocks(content.deep_view())[i as int]));
        }
        i += 1;
    }
    out
}

/// Maps a message to what the provider sees.
pub fn map_message_for_provider(message: &Message) -> (r: Message)
    ensures
        r.deep_view() == provider_message(message.deep_view()),
{
    match message {
        Message::User { content } => Message::User {
            content: map_content_blocks_for_provider(content),
        },
        Message::Assistant { content, status } => Message::Assistant {
            content: map_content_blocks_for_provider(content),
            status: *status,
        },
        Message::ToolResult { call_id, output } => Message::ToolResult {
            call_id: call_id.clone(),
            output: ToolOutput {
                content: output.content.clone(),
                is_error: output.is_error,
                metadata: JsonValue::empty_object(),
            },
        },
        _ => message.clone(),
    }
}

fn validate_request_capabilities(
    capabilities: ModelCapabilities,
    model_id: &str,
    messages: &Vec<Message>,
    tools: &Vec<ToolDefinition>,
) -> (r: Result<()>)
    ensures
        outcome(r) == (if tools.deep_view().len() > 0 && !capabilities.tool_use {
            Err(
                AgentErrorView::InputValidation {
                    message: "model '"@ + model_id@ + "' does not support tool use"@,
                },
            )
        } else if hold_image(messages.deep_view()) && !capabilities.vision {
            Err(
                AgentErrorView::InputValidation {
                    message: "model '"@ + model_id@ + "' does not support image input"@,
                },
            )
        } else {
            Ok(())
        }),
{
    if tools.len() > 0 && !capabilities.tool_use {
        return Err(
            invalid_input(
                "model '".to_owned().concat(model_id).concat(
                    "' does not support tool use",
                ).as_str(),
            ),
        );
    }
    if messages_contain_image(messages) && !capabilities.vision {
        return Err(
            invalid_input(
                "model '".to_owned().concat(model_id).concat(
                    "' does not support image input",
                ).as_str(),
            ),
        );
    }
    Ok(())
}

impl ChatRequestBuilder {
    /// A builder.
    pub fn new() -> (r: Self)
        ensures
            r == ChatRequestBuilder,
    {
        ChatRequestBuilder
    }

    /// Assembles a request from a rendered prompt and the visible history.
    pub fn build(
        &self,
        rendered_prompt: &RenderedPrompt,
        request_context: &RequestContext,
        session_config: &ResolvedSessionConfig,
        options: &RequestBuildOptions,
    ) -> (r: Result<ChatRequest>)
        ensures
            outcome(r) == request_of(
                rendered_prompt.text@,
                request_context.messages.deep_view(),
                request_context.model_capabilities,
                request_context.tool_definitions.deep_view(),
                session_config.model_id@,
                options.allow_tools,
            ),
    {
        let tools = if options.allow_tools {
            request_context.tool_definitions.clone()
        } else {
            Vec::new()
        };
        assert(options.allow_tools || tools.deep_view() =~= Seq::<ToolDefinitionView>::empty());
        match validate_request_capabilities(
            request_context.model_capabilities,
            session_config.model_id.as_str(),
            &request_context.messages,
            &tools,
        ) {
            Ok(_) => {},
            Err(error) => {
                return Err(error);
            },
        }
        let history = &request_context.messages;
        let mut messages: Vec<Message> = Vec::new();
        messages.push(Message::System { content: rendered_prompt.text.clone() });
        let ghost head = seq![MessageView::System { content: rendered_prompt.text@ }];
        let ghost mapped = provider_messages(history.deep_view());
        let mut i: usize = 0;
        while i < history.len()
            invariant
                i <= history.len(),
                mapped == provider_messages(history.deep_view()),
                messages.deep_view() =~= head + mapped.take(i as int),
            decreases history.len() - i,
        {
            let ghost before = messages.deep_view();
            messages.push(map_message_for_provider(&history[i]));
            proof {
                assert(messages.deep_view() =~= before.push(mapped[i as int]));
            }
            i += 1;
        }
        proof {
            assert(mapped.take(history.len() as int) =~= mapped);
        }
        Ok(
            ChatRequest {
                model_id: session_config.model_id.clone(),
                messages,
                tools,
                max_tokens: None,
                reasoning_effort: None,
            },
        )
    }
}

/// A request that does not allow tools offers none, whatever the session has.
pub proof fn law_no_tools_offered(
    prompt: Seq<char>,
    messages: Seq<MessageView>,
    capabilities: ModelCapabilities,
    tools: Seq<ToolDefinitionView>,
    model_id: Seq<char>,
)
    ensures
        request_of(prompt, messages, capabilities, tools, model_id, false) matches Ok(request)
            ==> request.tools.len() == 0,
        hold_image(messages) && !capabilities.vision || request_of(
            prompt,
            messages,
            capabilities,
            tools,
            model_id,
            false,
        ) is Ok,
{
}

/// The history of a request has no file blocks and no tool metadata.
pub proof fn law_provider_history_is_plain(messages: Seq<MessageView>, i: int, j: int)
    requires
        0 <= i < messages.len(),
    ensures
        provider_messages(messages).len() == messages.len(),
        match provider_messages(messages)[i] {
            MessageView::User { content } => 0 <= j < content.len() ==> !(content[j] is File),
            MessageView::Assistant { content, .. } => 0 <= j < content.len() ==> !(
            content[j] is File),
            MessageView::ToolResult { output, .. } => output.metadata == "{}"@,
            _ => true,
        },
{
}

} // verus!
