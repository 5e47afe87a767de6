//! Reading of provider streams: answers of the main model, and plain texts of
//! the models for compaction and memory extraction.

use crate::application::tool_dispatcher::{RequestedToolCall, RequestedView};
use crate::domain::error::{AgentError, AgentErrorView, ErrorSource};
use crate::domain::event::{AgentEventPayload, EventPayloadView};
use crate::ports::model::{
    ChatError, ChatErrorView, ChatEvent, ChatEventView, StreamItem, StreamItemView,
};
use vstd::prelude::*;
use vstd::string::*;

verus! {

/// A provider error that is not worth a retry.
pub open spec fn provider_error(message: Seq<char>, source: Seq<Seq<char>>) -> AgentErrorView {
    AgentErrorView::ProviderError { message, source, retryable: false }
}

/// The error for an error event of a provider.
pub open spec fn reported_error(error: ChatErrorView) -> AgentErrorView {
    AgentErrorView::ProviderError {
        message: error.message,
        source: seq![error.message],
        retryable: error.retryable,
    }
}

/// A provider error that is not worth a retry.
pub fn provider_failure(message: &str, source: ErrorSource) -> (r: AgentError)
    ensures
        r.deep_view() == provider_error(message@, source.deep_view()),
{
    AgentError::ProviderError { message: message.to_owned(), source, retryable: false }
}

/// The error for an error event of a provider.
pub fn reported_failure(error: ChatError) -> (r: AgentError)
    ensures
        r.deep_view() == reported_error(error.deep_view()),
{
    let source = ErrorSource::new(error.message.as_str());
    AgentError::ProviderError { message: error.message, source, retryable: error.retryable }
}

// ---------------------------------------------------------------------------
// Plain texts
// ---------------------------------------------------------------------------
/// What a plain text is collected for.
#[derive(Debug, Clone, Copy, PartialEq, Eq, Structural)]
pub enum TextPurpose {
    /// A summary of the context.
    Compaction,
    /// A memory extraction.
    Extraction,
}

/// What is known of a plain text after one more read.
#[verifier::ext_equal]
pub enum CollectedView {
    /// More is to come.
    More(Seq<char>),
    /// The text is complete.
    Complete(Seq<char>),
    /// The text cannot be had.
    Failed(AgentErrorView),
}

/// The error for a stream that failed.
pub open spec fn stream_failure(purpose: TextPurpose, source: Seq<Seq<char>>) -> AgentErrorView {
    match purpose {
        TextPurpose::Compaction => provider_error(
            "compact model stream failed"@,
            seq!["compact model stream returned an error"@] + source,
        ),
        TextPurpose::Extraction => provider_error(
            "memory extraction stream failed"@,
            seq!["memory extraction stream returned an error"@] + source,
        ),
    }
}

/// The error for a tool call in a plain text.
pub open spec fn unexpected_tool_call(purpose: TextPurpose) -> AgentErrorView {
    match purpose {
        TextPurpose::Compaction => AgentErrorView::CompactError {
            message: "compact model emitted an unexpected tool call"@,
        },
        TextPurpose::Extraction => provider_error(
            "memory extraction emitted an unexpected tool call"@,
            seq!["memory extraction request must not use tools"@],
        ),
    }
}

/// The error for a stream that ends too early.
pub open spec fn premature_end(purpose: TextPurpose) -> AgentErrorView {
    match purpose {
        TextPurpose::Compaction => provider_error(
            "compact model stream ended before completion"@,
            seq!["compact stream ended without a done event"@],
        ),
        TextPurpose::Extraction => provider_error(
            "memory extraction stream ended before completion"@,
            seq!["memory extraction stream ended without a done event"@],
        ),
    }
}

/// A plain text after one more read. Once the request is cancelled, any
/// failure counts as the cancellation.
pub open spec fn collected(
    purpose: TextPurpose,
    text: Seq<char>,
    item: StreamItemView,
    cancelled: bool,
) -> CollectedView {
    match item {
        StreamItemView::Event(ChatEventView::TextDelta(delta)) => CollectedView::More(
            text + delta,
        ),
        StreamItemView::Event(ChatEventView::ReasoningDelta(_)) => CollectedView::More(text),
        StreamItemView::Event(ChatEventView::Done { .. }) => CollectedView::Complete(text),
        StreamItemView::Event(ChatEventView::ToolCall { .. }) => CollectedView::Failed(
            unexpected_tool_call(purpose),
        ),
        StreamItemView::Event(ChatEventView::Error(error)) => CollectedView::Failed(
            if cancelled {
                AgentErrorView::RequestCancelled
            } else {
                reported_error(error)
            },
        ),
        StreamItemView::Failed(source) => CollectedView::Failed(
            if cancelled {
                AgentErrorView::RequestCancelled
            } else {
                stream_failure(purpose, source)
            },
        ),
        StreamItemView::End => CollectedView::Failed(
            if cancelled {
                AgentErrorView::RequestCancelled
            } else {
                premature_end(purpose)
            },
        ),
    }
}

/// What is known of a plain text after one more read.
#[derive(Debug, PartialEq, Eq)]
pub enum Collected {
    /// More is to come.
    More(String),
    /// The text is complete.
    Complete(String),
    /// The text cannot be had.
    Failed(AgentError),
}

impl DeepView for Collected {
    type V = CollectedView;

    open spec fn deep_view(&self) -> CollectedView {
        match self {
            Collected::More(text) => CollectedView::More(text@),
            Collected::Complete(text) => CollectedView::Complete(text@),
            Collected::Failed(error) => CollectedView::Failed(error.deep_view()),
        }
    }
}

/// Takes one more read of a plain text.
pub fn collect_text(
    purpose: TextPurpose,
    text: String,
    item: StreamItem,
    cancelled: bool,
) -> (r: Collected)
    ensures
        r.deep_view() == collected(purpose, text@, item.deep_view(), cancelled),
{
    match item {
        StreamItem::Event(event) => match event {
            ChatEvent::TextDelta(delta) => Collected::More(text.concat(delta.as_str())),
            ChatEvent::ReasoningDelta(_) => Collected::More(text),
            ChatEvent::Done { .. } => Collected::Complete(text),
            ChatEvent::ToolCall { .. } => Collected::Failed(
                match purpose {
                    TextPurpose::Compaction => AgentError::CompactError {
                        message: "compact model emitted an unexpected tool call".to_owned(),
                    },
                    TextPurpose::Extraction => provider_failure(
                        "memory extraction emitted an unexpected tool call",
                        ErrorSource::new("memory extraction request must not use tools"),
                    ),
                },
            ),
            ChatEvent::Error(error) => Collected::Failed(
                if cancelled {
                    AgentError::RequestCancelled
                } else {
                    reported_failure(error)
                },
            ),
        },
        StreamItem::Failed(source) => Collected::Failed(
            if cancelled {
                AgentError::RequestCancelled
            } else {
                match purpose {
                    TextPurpose::Compaction => provider_failure(
                        "compact model stream failed",
                        source.context("compact model stream returned an error"),
                    ),
                    TextPurpose::Extraction => provider_failure(
                        "memory extraction stream failed",
                        source.context("memory extraction stream returned an error"),
                    ),
                }
            },
        ),
        StreamItem::End => Collected::Failed(
            if cancelled {
                AgentError::RequestCancelled
            } else {
                match purpose {
                    TextPurpose::Compaction => provider_failure(
                        "compact model stream ended before completion",
                        ErrorSource::new("compact stream ended without a done event"),
                    ),
                    TextPurpose::Extraction => provider_failure(
                        "memory extraction stream ended before completion",
                        ErrorSource::new("memory extraction stream ended without a done event"),
                    ),
                }
            },
        ),
    }
}

/// The text deltas of a list of events, one behind the other.
pub open spec fn text_of_events(events: Seq<ChatEventView>) -> Seq<char>
    decreases events.len(),
{
    if events.len() == 0 {
        Seq::empty()
    } else {
        match events.last() {
            ChatEventView::TextDelta(delta) => text_of_events(events.drop_last()) + delta,
            _ => text_of_events(events.drop_last()),
        }
    }
}

/// Whether an event only adds to an answer.
pub open spec fn is_delta(event: ChatEventView) -> bool {
    event is TextDelta || event is ReasoningDelta
}

/// The text collected from deltas.
pub open spec fn collected_all(purpose: TextPurpose, events: Seq<ChatEventView>) -> CollectedView
    decreases events.len(),
{
    if events.len() == 0 {
        CollectedView::More(Seq::empty())
    } else {
        match collected_all(purpose, events.drop_last()) {
            CollectedView::More(text) => collected(
                purpose,
                text,
                StreamItemView::Event(events.last()),
                false,
            ),
            other => other,
        }
    }
}

/// A stream of deltas that ends with `Done` gives the texts of its deltas, one
/// behind the other.
pub proof fn law_collected_text(
    purpose: TextPurpose,
    deltas: Seq<ChatEventView>,
    done: ChatEventView,
)
    requires
        forall|i: int| 0 <= i < deltas.len() ==> is_delta(#[trigger] deltas[i]),
        done is Done,
    ensures
        collected_all(purpose, deltas) == CollectedView::More(text_of_events(deltas)),
        collected_all(purpose, deltas.push(done)) == CollectedView::Complete(
            text_of_events(deltas),
        ),
    decreases deltas.len(),
{
    if deltas.len() > 0 {
        let front = deltas.drop_last();
        assert forall|i: int| 0 <= i < front.len() implies is_delta(#[trigger] front[i]) by {
            assert(front[i] == deltas[i]);
        }
        assert(is_delta(deltas[deltas.len() - 1]));
        law_collected_text(purpose, front, done);
    }
    assert(deltas.push(done).drop_last() =~= deltas);
}

// ---------------------------------------------------------------------------
// Answers of the main model
// ---------------------------------------------------------------------------
/// An answer of the main model, as far as it has been read.
#[derive(Debug, PartialEq, Eq)]
pub struct ModelAnswer {
    /// Text of the assistant.
    pub assistant_output: String,
    /// Tool calls requested by the model.
    pub tool_calls: Vec<RequestedToolCall>,
}

/// Model of [`ModelAnswer`].
#[verifier::ext_equal]
pub struct AnswerView {
    pub assistant_output: Seq<char>,
    pub tool_calls: Seq<RequestedView>,
}

impl DeepView for ModelAnswer {
    type V = AnswerView;

    open spec fn deep_view(&self) -> AnswerView {
        AnswerView {
            assistant_output: self.assistant_output@,
            tool_calls: self.tool_calls.deep_view(),
        }
    }
}

impl ModelAnswer {
    /// An answer of which nothing has been read.
    pub fn new() -> (r: Self)
        ensures
            r.deep_view() == (AnswerView {
                assistant_output: Seq::empty(),
                tool_calls: Seq::empty(),
            }),
    {
        let tool_calls: Vec<RequestedToolCall> = Vec::new();
        proof {
            assert(tool_calls.deep_view() =~= Seq::<RequestedView>::empty());
        }
        ModelAnswer { assistant_output: String::new(), tool_calls }
    }
}

/// What is known of an answer after one more read.
#[verifier::ext_equal]
pub enum ConsumedView {
    /// More is to come; the event is announced, if there is one.
    More(AnswerView, Option<EventPayloadView>),
    /// The answer is complete.
    Complete(AnswerView),
    /// The turn was cancelled; this much had been read.
    Cancelled(AnswerView),
    /// The request did not fit the context window.
    TooLong,
    /// The answer cannot be had.
    Failed(AgentErrorView),
}

/// An answer after one more read. Once the turn is cancelled, a failure or an
/// early end counts as the cancellation; a tool call is refused where none was
/// offered.
pub open spec fn consumed(
    answer: AnswerView,
    item: StreamItemView,
    allow_tools: bool,
    cancelled: bool,
) -> ConsumedView {
    match item {
        StreamItemView::Event(ChatEventView::TextDelta(delta)) => ConsumedView::More(
            AnswerView { assistant_output: answer.assistant_output + delta, ..answer },
            Some(EventPayloadView::TextDelta(delta)),
        ),
        StreamItemView::Event(ChatEventView::ReasoningDelta(delta)) => ConsumedView::More(
            answer,
            Some(EventPayloadView::ReasoningDelta(delta)),
        ),
        StreamItemView::Event(ChatEventView::ToolCall { call_id, tool_name, arguments }) => {
            if allow_tools {
                ConsumedView::More(
                    AnswerView {
                        tool_calls: answer.tool_calls.push(
                            RequestedView { call_id, tool_name, arguments },
                        ),
                        ..answer
                    },
                    None,
                )
            } else {
                ConsumedView::Failed(
                    provider_error(
                        "provider emitted a tool call after tools were disabled"@,
                        seq!["provider emitted tool call in final no-tools request"@],
                    ),
                )
            }
        },
        StreamItemView::Event(ChatEventView::Done { .. }) => ConsumedView::Complete(answer),
        StreamItemView::Event(ChatEventView::Error(error)) => if cancelled {
            ConsumedView::Cancelled(answer)
        } else if error.is_context_length_exceeded {
            ConsumedView::TooLong
        } else {
            ConsumedView::Failed(reported_error(error))
        },
        StreamItemView::Failed(source) => if cancelled {
            ConsumedView::Cancelled(answer)
        } else {
            ConsumedView::Failed(
                provider_error(
                    "provider stream failed"@,
                    seq!["model provider stream returned an error"@] + source,
                ),
            )
        },
        StreamItemView::End => if cancelled {
            ConsumedView::Cancelled(answer)
        } else {
            ConsumedView::Failed(
                provider_error(
                    "provider stream ended before completion"@,
                    seq!["provider stream ended without a done event"@],
                ),
            )
        },
    }
}

/// What is known of an answer after one more read.
#[derive(Debug, PartialEq, Eq)]
pub enum Consumed {
    /// More is to come; the event is announced, if there is one.
    More(ModelAnswer, Option<AgentEventPayload>),
    /// The answer is complete.
    Complete(ModelAnswer),
    /// The turn was cancelled; this much had been read.
    Cancelled(ModelAnswer),
    /// The request did not fit the context window.
    TooLong,
    /// The answer cannot be had.
    Failed(AgentError),
}

impl DeepView for Consumed {
    type V = ConsumedView;

    open spec fn deep_view(&self) -> ConsumedView {
        match self {
            Consumed::More(answer, event) => ConsumedView::More(
                answer.deep_view(),
                event.deep_view(),
            ),
            Consumed::Complete(answer) => ConsumedView::Complete(answer.deep_view()),
            Consumed::Cancelled(answer) => ConsumedView::Cancelled(answer.deep_view()),
            Consumed::TooLong => ConsumedView::TooLong,
            Consumed::Failed(error) => ConsumedView::Failed(error.deep_view()),
        }
    }
}

/// Takes one more read of the main model's stream.
pub fn consume_provider_stream(
    answer: ModelAnswer,
    item: StreamItem,
    allow_tools: bool,
    cancelled: bool,
) -> (r: Consumed)
    ensures
        r.deep_view() == consumed(answer.deep_view(), item.deep_view(), allow_tools, cancelled),
{
    match item {
        StreamItem::Event(event) => match event {
            ChatEvent::TextDelta(delta) => {
                let assistant_output = answer.assistant_output.concat(delta.as_str());
                Consumed::More(
                    ModelAnswer { assistant_output, tool_calls: answer.tool_calls },
                    Some(AgentEventPayload::TextDelta(delta)),
                )
            },
            ChatEvent::ReasoningDelta(delta) => Consumed::More(
                answer,
                Some(AgentEventPayload::ReasoningDelta(delta)),
            ),
            ChatEvent::ToolCall { call_id, tool_name, arguments } => {
                if allow_tools {
                    let call = RequestedToolCall { call_id, tool_name, arguments };
                    let ghost view = call.deep_view();
                    let mut tool_calls = answer.tool_calls;
                    let ghost before = tool_calls.deep_view();
                    tool_calls.push(call);
                    proof {
                        assert(tool_calls.deep_view() =~= before.push(view));
                    }
                    Consumed::More(
                        ModelAnswer { assistant_output: answer.assistant_output, tool_calls },
                        None,
                    )
                } else {
                    Consumed::Failed(
                        provider_failure(
                            "provider emitted a tool call after tools were disabled",
                            ErrorSource::new(
                                "provider emitted tool call in final no-tools request",
                            ),
                        ),
                    )
                }
            },
            ChatEvent::Done { .. } => Consumed::Complete(answer),
            ChatEvent::Error(error) => {
                if cancelled {
                    Consumed::Cancelled(answer)
                } else if error.is_context_length_exceeded {
                    Consumed::TooLong
                } else {
                    Consumed::Failed(reported_failure(error))
                }
            },
        },
        StreamItem::Failed(source) => {
            if cancelled {
                Consumed::Cancelled(answer)
            } else {
                Consumed::Failed(
                    provider_failure(
                        "provider stream failed",
                        source.context("model provider stream returned an error"),
                    ),
                )
            }
        },
        StreamItem::End => {
            if cancelled {
                Consumed::Cancelled(answer)
            } else {
                Consumed::Failed(
                    provider_failure(
                        "provider stream ended before completion",
                        ErrorSource::new("provider stream ended without a done event"),
                    ),
                )
            }
        },
    }
}

/// The answer read from a list of events, as long as more is to come.
pub open spec fn consumed_all(events: Seq<ChatEventView>, allow_tools: bool) -> ConsumedView
    decreases events.len(),
{
    if events.len() == 0 {
        ConsumedView::More(
            AnswerView { assistant_output: Seq::empty(), tool_calls: Seq::empty() },
            None,
        )
    } else {
        match consumed_all(events.drop_last(), allow_tools) {
            ConsumedView::More(answer, _) => consumed(
                answer,
                StreamItemView::Event(events.last()),
                allow_tools,
                false,
            ),
            other => other,
        }
    }
}

/// The tool calls among a list of events, in order.
pub open spec fn calls_of_events(events: Seq<ChatEventView>) -> Seq<RequestedView>
    decreases events.len(),
{
    if events.len() == 0 {
        Seq::empty()
    } else {
        match events.last() {
            ChatEventView::ToolCall { call_id, tool_name, arguments } => calls_of_events(
                events.drop_last(),
            ).push(RequestedView { call_id, tool_name, arguments }),
            _ => calls_of_events(events.drop_last()),
        }
    }
}

/// An answer that ends with `Done` holds the texts and the tool calls of its
/// events, in order.
pub proof fn law_consumed_answer(events: Seq<ChatEventView>, done: ChatEventView)
    requires
        forall|i: int|
            0 <= i < events.len() ==> is_delta(#[trigger] events[i]) || events[i] is ToolCall,
        done is Done,
    ensures
        consumed_all(events.push(done), true) == ConsumedView::Complete(
            AnswerView {
                assistant_output: text_of_events(events),
                tool_calls: calls_of_events(events),
            },
        ),
    decreases events.len(),
{
    lemma_consumed_prefix(events);
    assert(events.push(done).drop_last() =~= events);
}

proof fn lemma_consumed_prefix(events: Seq<ChatEventView>)
    requires
        forall|i: int|
            0 <= i < events.len() ==> is_delta(#[trigger] events[i]) || events[i] is ToolCall,
    ensures
        consumed_all(events, true) matches ConsumedView::More(answer, _) && answer == (
        AnswerView {
            assistant_output: text_of_events(events),
            tool_calls: calls_of_events(events),
        }),
    decreases events.len(),
{
    if events.len() > 0 {
        let front = events.drop_last();
        assert forall|i: int| 0 <= i < front.len() implies is_delta(#[trigger] front[i])
            || front[i] is ToolCall by {
            assert(front[i] == events[i]);
        }
        lemma_consumed_prefix(front);
        assert(is_delta(events[events.len() - 1]) || events[events.len() - 1] is ToolCall);
    }
}

/// An answer to a request without tools never holds a tool call.
pub proof fn law_no_calls_without_tools(
    answer: AnswerView,
    item: StreamItemView,
    cancelled: bool,
)
    requires
        answer.tool_calls.len() == 0,
    ensures
        match consumed(answer, item, false, cancelled) {
            ConsumedView::More(after, _) => after.tool_calls.len() == 0,
            ConsumedView::Complete(after) => after.tool_calls.len() == 0,
            ConsumedView::Cancelled(after) => after.tool_calls.len() == 0,
            _ => true,
        },
{
}

} // verus!
