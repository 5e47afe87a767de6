//! Laws of requests: a model gets the prompt and the whole history, each message
//! with everything that it says.

use crate::application::request_builder::{
    hold_image, message_holds_image, provider_block, provider_message, provider_messages,
    request_of,
};
use crate::domain::error::AgentErrorView;
use crate::domain::types::{ContentBlockView, MessageStatus, MessageView, ToolOutputView};
use crate::ports::model::{ModelCapabilities, ToolDefinitionView};
use crate::text_laws::{lemma_shows, shows};
use vstd::prelude::*;
use vstd::string::*;

verus! {

/// What stands in front of the text of a file: its name and its type.
pub open spec fn file_opening(name: Seq<char>, media_type: Seq<char>) -> Seq<char> {
    "<file>\n<name>"@ + name + "</name>\n<media_type>"@ + media_type + "</media_type>\n"@
}

/// A file is sent as text: the opening lines with its name and type, then its
/// whole text, then the closing line.
pub proof fn law_file_is_sent_whole(name: Seq<char>, media_type: Seq<char>, text: Seq<char>)
    ensures
        provider_block(ContentBlockView::File { name, media_type, text }) == ContentBlockView::Text(
            file_opening(name, media_type) + text + "\n</file>"@,
        ),
        provider_block(ContentBlockView::File { name, media_type, text })
            matches ContentBlockView::Text(sent) && shows(sent, text) && shows(sent, name) && shows(
            sent,
            media_type,
        ),
{
    let sent = file_opening(name, media_type) + text + "\n</file>"@;
    lemma_shows(sent, file_opening(name, media_type), text, "\n</file>"@);
    lemma_shows(
        sent,
        "<file>\n<name>"@,
        name,
        "</name>\n<media_type>"@ + media_type + "</media_type>\n"@ + text + "\n</file>"@,
    );
    lemma_shows(
        sent,
        "<file>\n<name>"@ + name + "</name>\n<media_type>"@,
        media_type,
        "</media_type>\n"@ + text + "\n</file>"@,
    );
}

/// Files that differ in one of name, type and text alone are sent differently.
pub proof fn law_different_files_are_sent_differently(
    name: Seq<char>,
    other_name: Seq<char>,
    media_type: Seq<char>,
    other_type: Seq<char>,
    text: Seq<char>,
    other_text: Seq<char>,
)
    ensures
        text != other_text ==> provider_block(ContentBlockView::File { name, media_type, text })
            != provider_block(ContentBlockView::File { name, media_type, text: other_text }),
        name != other_name ==> provider_block(ContentBlockView::File { name, media_type, text })
            != provider_block(ContentBlockView::File { name: other_name, media_type, text }),
        media_type != other_type ==> provider_block(
            ContentBlockView::File { name, media_type, text },
        ) != provider_block(ContentBlockView::File { name, media_type: other_type, text }),
{
    law_file_is_sent_whole(name, media_type, text);
    law_file_is_sent_whole(name, media_type, other_text);
    law_file_is_sent_whole(other_name, media_type, text);
    law_file_is_sent_whole(name, other_type, text);
    let tail = "\n</file>"@;
    let opening = file_opening(name, media_type);
    lemma_middle_is_kept(opening, text, other_text, tail);
    let before = "<file>\n<name>"@;
    let behind = "</name>\n<media_type>"@ + media_type + "</media_type>\n"@ + text + tail;
    lemma_middle_is_kept(before, name, other_name, behind);
    assert(opening + text + tail =~= before + name + behind);
    assert(file_opening(other_name, media_type) + text + tail =~= before + other_name + behind);
    let front = before + name + "</name>\n<media_type>"@;
    let rest = "</media_type>\n"@ + text + tail;
    lemma_middle_is_kept(front, media_type, other_type, rest);
    assert(opening + text + tail =~= front + media_type + rest);
    assert(file_opening(name, other_type) + text + tail =~= front + other_type + rest);
}

proof fn lemma_middle_is_kept(
    before: Seq<char>,
    middle: Seq<char>,
    other: Seq<char>,
    after: Seq<char>,
)
    ensures
        before + middle + after == before + other + after ==> middle == other,
{
    let a = before + middle + after;
    let b = before + other + after;
    if a == b {
        assert(a.len() == b.len());
        assert(middle =~= a.skip(before.len() as int).take(middle.len() as int));
        assert(other =~= b.skip(before.len() as int).take(other.len() as int));
    }
}

/// Texts and images are sent as they are.
pub proof fn law_other_blocks_are_sent_as_they_are(block: ContentBlockView)
    requires
        !(block is File),
    ensures
        provider_block(block) == block,
{
}

/// Every block of a message is sent, in its place, and the message keeps its kind.
pub proof fn law_every_block_is_sent(
    content: Seq<ContentBlockView>,
    status: MessageStatus,
    i: int,
)
    requires
        0 <= i < content.len(),
    ensures
        provider_message(MessageView::User { content }) matches MessageView::User { content: sent }
            && sent.len() == content.len() && sent[i] == provider_block(content[i]),
        provider_message(MessageView::Assistant { content, status })
            matches MessageView::Assistant { content: sent, status: s } && s == status && sent.len()
            == content.len() && sent[i] == provider_block(content[i]),
{
}

/// Calls and system messages are sent as they are. A result is sent with its
/// call, its content and its error flag, and without its metadata.
pub proof fn law_calls_and_results_are_sent(
    call_id: Seq<char>,
    tool_name: Seq<char>,
    arguments: Seq<char>,
    output: ToolOutputView,
    content: Seq<char>,
)
    ensures
        provider_message(MessageView::ToolCall { call_id, tool_name, arguments }) == (
        MessageView::ToolCall { call_id, tool_name, arguments }),
        provider_message(MessageView::System { content }) == (MessageView::System { content }),
        provider_message(MessageView::ToolResult { call_id, output }) == (MessageView::ToolResult {
            call_id,
            output: ToolOutputView {
                content: output.content,
                is_error: output.is_error,
                metadata: "{}"@,
            },
        }),
{
}

/// A request starts with the prompt and goes on with the whole history, message
/// by message; it names its model and offers all tools, or none where tools are
/// not allowed. It leaves length and effort to the provider.
pub proof fn law_request_holds_everything(
    prompt: Seq<char>,
    messages: Seq<MessageView>,
    capabilities: ModelCapabilities,
    tools: Seq<ToolDefinitionView>,
    model_id: Seq<char>,
    allow_tools: bool,
    i: int,
)
    requires
        0 <= i < messages.len(),
    ensures
        request_of(prompt, messages, capabilities, tools, model_id, allow_tools) matches Ok(request)
            ==> {
            &&& request.model_id == model_id
            &&& request.messages.len() == messages.len() + 1
            &&& request.messages[0] == (MessageView::System { content: prompt })
            &&& request.messages[i + 1] == provider_message(messages[i])
            &&& allow_tools ==> request.tools == tools
            &&& !allow_tools ==> request.tools.len() == 0
            &&& request.max_tokens is None
            &&& request.reasoning_effort is None
        },
{
}

/// A request without history is the prompt alone.
pub proof fn law_request_without_history(
    prompt: Seq<char>,
    capabilities: ModelCapabilities,
    tools: Seq<ToolDefinitionView>,
    model_id: Seq<char>,
    allow_tools: bool,
)
    ensures
        request_of(prompt, Seq::empty(), capabilities, tools, model_id, allow_tools) matches Ok(
            request,
        ) ==> request.model_id == model_id && request.messages == seq![
            MessageView::System { content: prompt },
        ] && request.tools == (if allow_tools {
            tools
        } else {
            Seq::empty()
        }),
{
    assert(seq![MessageView::System { content: prompt }] + provider_messages(Seq::empty()) =~= seq![
        MessageView::System { content: prompt },
    ]);
}

/// Whether a message holds an image among its blocks.
pub open spec fn shows_image(message: MessageView) -> bool {
    match message {
        MessageView::User { content } => exists|j: int|
            0 <= j < content.len() && (#[trigger] content[j]) is Image,
        MessageView::Assistant { content, .. } => exists|j: int|
            0 <= j < content.len() && (#[trigger] content[j]) is Image,
        _ => false,
    }
}

/// A request is refused exactly where it would offer tools to a model that has
/// no use for them, or show an image to one that cannot see; the error says which
/// and names the model.
pub proof fn law_request_is_refused(
    prompt: Seq<char>,
    messages: Seq<MessageView>,
    capabilities: ModelCapabilities,
    tools: Seq<ToolDefinitionView>,
    model_id: Seq<char>,
    allow_tools: bool,
)
    ensures
        ({
            let request = request_of(prompt, messages, capabilities, tools, model_id, allow_tools);
            let offers = allow_tools && tools.len() > 0;
            let shown = exists|i: int| 0 <= i < messages.len() && shows_image(
                #[trigger] messages[i],
            );
            &&& request is Err <==> (offers && !capabilities.tool_use) || (shown
                && !capabilities.vision)
            &&& offers && !capabilities.tool_use ==> (request matches Err(error) && error == (
            AgentErrorView::InputValidation {
                message: "model '"@ + model_id + "' does not support tool use"@,
            }))
            &&& shown && !capabilities.vision && !(offers && !capabilities.tool_use) ==> (
            request matches Err(error) && error == (AgentErrorView::InputValidation {
                message: "model '"@ + model_id + "' does not support image input"@,
            }))
        }),
{
    let shown = exists|i: int| 0 <= i < messages.len() && shows_image(#[trigger] messages[i]);
    if shown {
        let i = choose|i: int| 0 <= i < messages.len() && shows_image(#[trigger] messages[i]);
        assert(message_holds_image(messages[i]));
    }
    if hold_image(messages) {
        let i = choose|i: int|
            0 <= i < messages.len() && message_holds_image(
                #[trigger] messages[i],
            );
        assert(shows_image(messages[i]));
    }
}

} // verus!
