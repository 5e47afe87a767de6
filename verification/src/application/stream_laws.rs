//! Laws of model streams: what each piece adds to an answer, and how a stream
//! ends.

use crate::application::stream::{
    collected, consumed, AnswerView, CollectedView, ConsumedView, TextPurpose,
};
use crate::application::tool_dispatcher::RequestedView;
use crate::domain::error::AgentErrorView;
use crate::domain::event::EventPayloadView;
use crate::ports::model::{ChatErrorView, ChatEventView, StreamItemView};
use vstd::prelude::*;
use vstd::string::*;

verus! {

/// A piece of text is appended to the answer and announced; nothing else of the
/// answer changes.
pub proof fn law_text_is_appended(
    answer: AnswerView,
    delta: Seq<char>,
    allow_tools: bool,
    cancelled: bool,
)
    ensures
        consumed(
            answer,
            StreamItemView::Event(ChatEventView::TextDelta(delta)),
            allow_tools,
            cancelled,
        ) matches ConsumedView::More(after, event) && {
            &&& after.assistant_output == answer.assistant_output + delta
            &&& after.tool_calls == answer.tool_calls
            &&& event == Some(EventPayloadView::TextDelta(delta))
        },
{
}

/// A piece of reasoning is announced and is no part of the answer.
pub proof fn law_reasoning_is_announced_only(
    answer: AnswerView,
    delta: Seq<char>,
    allow_tools: bool,
    cancelled: bool,
)
    ensures
        consumed(
            answer,
            StreamItemView::Event(ChatEventView::ReasoningDelta(delta)),
            allow_tools,
            cancelled,
        ) == ConsumedView::More(answer, Some(EventPayloadView::ReasoningDelta(delta))),
{
}

/// A call is kept behind the others, with its id, tool and arguments. Where tools
/// are not allowed it is an error of the provider.
pub proof fn law_call_is_kept(
    answer: AnswerView,
    call_id: Seq<char>,
    tool_name: Seq<char>,
    arguments: Seq<char>,
    cancelled: bool,
)
    ensures
        consumed(
            answer,
            StreamItemView::Event(ChatEventView::ToolCall { call_id, tool_name, arguments }),
            true,
            cancelled,
        ) matches ConsumedView::More(after, event) && {
            &&& after.assistant_output == answer.assistant_output
            &&& after.tool_calls == answer.tool_calls.push(
                RequestedView { call_id, tool_name, arguments },
            )
            &&& event is None
        },
        consumed(
            answer,
            StreamItemView::Event(ChatEventView::ToolCall { call_id, tool_name, arguments }),
            false,
            cancelled,
        ) matches ConsumedView::Failed(error)
            && error matches AgentErrorView::ProviderError { message, retryable, .. } && message
            == "provider emitted a tool call after tools were disabled"@ && !retryable,
{
}

/// A finished answer is exactly what was gathered.
pub proof fn law_answer_is_complete(
    answer: AnswerView,
    done: ChatEventView,
    allow_tools: bool,
    cancelled: bool,
)
    requires
        done is Done,
    ensures
        consumed(answer, StreamItemView::Event(done), allow_tools, cancelled)
            == ConsumedView::Complete(answer),
{
}

/// In a cancelled turn, a stream that breaks off leaves what was gathered, however
/// it broke.
pub proof fn law_cancelled_stream_keeps_answer(
    answer: AnswerView,
    item: StreamItemView,
    allow_tools: bool,
)
    requires
        item is End || item is Failed || item matches StreamItemView::Event(ChatEventView::Error(_)),
    ensures
        consumed(answer, item, allow_tools, true) == ConsumedView::Cancelled(answer),
{
}

/// Otherwise an error that the provider reports is passed on with its message and
/// whether a retry may help, unless the context was too long for the model. A
/// stream that fails or ends early is an error of its own.
pub proof fn law_broken_stream_fails(
    answer: AnswerView,
    error: ChatErrorView,
    source: Seq<Seq<char>>,
    allow_tools: bool,
)
    ensures
        error.is_context_length_exceeded ==> consumed(
            answer,
            StreamItemView::Event(ChatEventView::Error(error)),
            allow_tools,
            false,
        ) is TooLong,
        !error.is_context_length_exceeded ==> (consumed(
            answer,
            StreamItemView::Event(ChatEventView::Error(error)),
            allow_tools,
            false,
        ) matches ConsumedView::Failed(AgentErrorView::ProviderError {
            message,
            source: chain,
            retryable,
        }) && message == error.message && retryable == error.retryable && chain == seq![
            error.message,
        ]),
        consumed(answer, StreamItemView::Failed(source), allow_tools, false)
            matches ConsumedView::Failed(AgentErrorView::ProviderError {
            message,
            source: chain,
            retryable,
        }) && message == "provider stream failed"@ && !retryable && chain == seq![
            "model provider stream returned an error"@,
        ] + source,
        consumed(answer, StreamItemView::End, allow_tools, false)
            matches ConsumedView::Failed(AgentErrorView::ProviderError {
            message,
            source: chain,
            retryable,
        }) && message == "provider stream ended before completion"@ && !retryable && chain == seq![
            "provider stream ended without a done event"@,
        ],
{
}

/// A text that is gathered alone grows by each piece of text, ignores reasoning
/// and is complete when the stream says so.
pub proof fn law_text_is_gathered(
    purpose: TextPurpose,
    text: Seq<char>,
    delta: Seq<char>,
    done: ChatEventView,
    cancelled: bool,
)
    requires
        done is Done,
    ensures
        collected(
            purpose,
            text,
            StreamItemView::Event(ChatEventView::TextDelta(delta)),
            cancelled,
        ) == CollectedView::More(text + delta),
        collected(
            purpose,
            text,
            StreamItemView::Event(ChatEventView::ReasoningDelta(delta)),
            cancelled,
        ) == CollectedView::More(text),
        collected(purpose, text, StreamItemView::Event(done), cancelled) == CollectedView::Complete(
            text,
        ),
{
}

/// A text that is gathered alone never comes of a stream that broke off: in a
/// cancelled turn the request counts as cancelled, otherwise the error says what
/// happened. A tool call is an error in either case.
pub proof fn law_broken_text_fails(
    purpose: TextPurpose,
    text: Seq<char>,
    error: ChatErrorView,
    source: Seq<Seq<char>>,
    call: ChatEventView,
    item: StreamItemView,
    cancelled: bool,
)
    requires
        call is ToolCall,
        item is End || item is Failed || item matches StreamItemView::Event(ChatEventView::Error(_)),
    ensures
        collected(purpose, text, item, true) == CollectedView::Failed(
            AgentErrorView::RequestCancelled,
        ),
        collected(
            purpose,
            text,
            StreamItemView::Event(ChatEventView::Error(error)),
            false,
        ) matches CollectedView::Failed(AgentErrorView::ProviderError {
            message,
            source: chain,
            retryable,
        }) && message == error.message && retryable == error.retryable && chain == seq![
            error.message,
        ],
        collected(purpose, text, StreamItemView::Failed(source), false)
            matches CollectedView::Failed(AgentErrorView::ProviderError {
            message,
            source: chain,
            retryable,
        }) && !retryable && message == (match purpose {
            TextPurpose::Compaction => "compact model stream failed"@,
            TextPurpose::Extraction => "memory extraction stream failed"@,
        }) && chain.len() == source.len() + 1 && chain.skip(1) == source,
        collected(purpose, text, StreamItemView::End, false)
            matches CollectedView::Failed(AgentErrorView::ProviderError { message, retryable, .. })
            && !retryable && message == (match purpose {
            TextPurpose::Compaction => "compact model stream ended before completion"@,
            TextPurpose::Extraction => "memory extraction stream ended before completion"@,
        }),
        collected(purpose, text, StreamItemView::Event(call), cancelled)
            matches CollectedView::Failed(problem) && match purpose {
            TextPurpose::Compaction => problem == (AgentErrorView::CompactError {
                message: "compact model emitted an unexpected tool call"@,
            }),
            TextPurpose::Extraction => problem is ProviderError && problem->ProviderError_message
                == "memory extraction emitted an unexpected tool call"@,
        },
{
    match purpose {
        TextPurpose::Compaction => {
            assert((seq!["compact model stream returned an error"@] + source).skip(1) =~= source);
        },
        TextPurpose::Extraction => {
            assert((seq!["memory extraction stream returned an error"@] + source).skip(1)
                =~= source);
        },
    }
}

} // verus!
