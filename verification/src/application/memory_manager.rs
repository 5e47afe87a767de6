//! Memories of a turn and the extraction of new ones from the ledger.

use crate::application::prompt_builder::{normalized, optional};
use crate::clock::Timestamp;
use crate::domain::error::{AgentError, AgentErrorView, ErrorSource};
use crate::domain::ledger::{
    LedgerEvent, LedgerEventPayload, LedgerEventView, PayloadView, SessionLedger,
};
use crate::domain::types::{
    ContentBlock, ContentBlockView, Memory, MemoryView, Message, MessageStatus, MessageView,
    UserInput,
};
use crate::ports::model::{ChatRequest, ChatRequestView, ToolDefinition, ToolDefinitionView};
use crate::prompt::templates::{MEMORY_STAGE_ONE_INPUT, MEMORY_STAGE_ONE_SYSTEM};
use crate::text::{decimal, decimal_text, join, joined, replace_all, replaced};
use vstd::prelude::*;
use vstd::string::*;

verus! {

broadcast use vstd::std_specs::vec::vec_clone_deep_view_proof;

// ---------------------------------------------------------------------------
// Memories of a turn
// ---------------------------------------------------------------------------
/// The trimmed texts of the text blocks that are not blank.
pub open spec fn query_parts(blocks: Seq<ContentBlockView>) -> Seq<Seq<char>>
    decreases blocks.len(),
{
    if blocks.len() == 0 {
        Seq::empty()
    } else {
        match blocks.last() {
            ContentBlockView::Text(text) => query_parts(blocks.drop_last()) + optional(
                normalized(Some(text)),
            ),
            _ => query_parts(blocks.drop_last()),
        }
    }
}

/// What memories are searched for: the explicit text of the input, if any.
pub open spec fn query_of(blocks: Seq<ContentBlockView>) -> Option<Seq<char>> {
    if query_parts(blocks).len() == 0 {
        None
    } else {
        Some(joined(query_parts(blocks), "\n"@))
    }
}

/// What memories are searched for.
pub fn explicit_text_query(input: &UserInput) -> (r: Option<String>)
    ensures
        r.deep_view() == query_of(input.deep_view()),
{
    let ghost all = input.deep_view();
    let mut parts: Vec<String> = Vec::new();
    let mut i: usize = 0;
    proof {
        assert(parts.deep_view() =~= query_parts(all.take(0)));
    }
    while i < input.content.len()
        invariant
            i <= input.content.len(),
            all == input.content.deep_view(),
            parts.deep_view() == query_parts(all.take(i as int)),
        decreases input.content.len() - i,
    {
        let ghost before = parts.deep_view();
        proof {
            assert(all.take(i + 1).drop_last() =~= all.take(i as int));
            assert(all.take(i + 1).last() == input.content[i as int].deep_view());
            assert(before + Seq::<Seq<char>>::empty() =~= before);
        }
        match &input.content[i] {
            ContentBlock::Text(text) => {
                let part = text.as_str().trim();
                if !part.is_empty() {
                    parts.push(part.to_owned());
                    proof {
                        assert(parts.deep_view() =~= before + seq![part@]);
                    }
                }
            },
            _ => {},
        }
        i += 1;
    }
    proof {
        assert(all.take(all.len() as int) =~= all);
    }
    if parts.len() == 0 {
        None
    } else {
        Some(join(&parts, "\n"))
    }
}

/// Whether a list holds a memory with an id.
pub open spec fn holds_id(memories: Seq<MemoryView>, id: Seq<char>) -> bool {
    exists|i: int| 0 <= i < memories.len() && (#[trigger] memories[i]).id == id
}

/// The memories in order, each id only where it first occurs.
pub open spec fn distinct(memories: Seq<MemoryView>) -> Seq<MemoryView>
    decreases memories.len(),
{
    if memories.len() == 0 {
        Seq::empty()
    } else {
        let front = distinct(memories.drop_last());
        if holds_id(front, memories.last().id) {
            front
        } else {
            front.push(memories.last())
        }
    }
}

/// At most `max` of a list, from its front.
pub open spec fn at_most(memories: Seq<MemoryView>, max: int) -> Seq<MemoryView> {
    if memories.len() <= max {
        memories
    } else {
        memories.take(max)
    }
}

/// The memories of a turn with a search: those loaded at the start, then those
/// found, each id once, and at most `max_items` of them (but at least the first,
/// where there is one).
pub open spec fn merged(
    bootstrap: Seq<MemoryView>,
    searched: Seq<MemoryView>,
    max_items: usize,
) -> Seq<MemoryView> {
    at_most(
        distinct(bootstrap + searched),
        if max_items == 0 {
            1
        } else {
            max_items as int
        },
    )
}

fn contains_id(memories: &Vec<Memory>, id: &String) -> (r: bool)
    ensures
        r == holds_id(memories.deep_view(), id@),
{
    let mut i: usize = 0;
    while i < memories.len()
        invariant
            i <= memories.len(),
            forall|j: int| 0 <= j < i ==> (#[trigger] memories.deep_view()[j]).id != id@,
        decreases memories.len() - i,
    {
        proof {
            assert(memories.deep_view()[i as int].id == memories[i as int].id@);
        }
        if memories[i].id == *id {
            return true;
        }
        i += 1;
    }
    false
}

/// At most `max_items` memories, from the front.
pub fn limit_memories(memories: &Vec<Memory>, max_items: usize) -> (r: Vec<Memory>)
    ensures
        r.deep_view() == at_most(memories.deep_view(), max_items as int),
{
    let mut out: Vec<Memory> = Vec::new();
    let mut i: usize = 0;
    while i < memories.len() && i < max_items
        invariant
            i <= memories.len(),
            i <= max_items,
            out.deep_view() =~= memories.deep_view().take(i as int),
        decreases memories.len() - i,
    {
        let ghost before = out.deep_view();
        out.push(memories[i].clone());
        proof {
            assert(out.deep_view() =~= before.push(memories.deep_view()[i as int]));
        }
        i += 1;
    }
    out
}

proof fn lemma_distinct_grows(memories: Seq<MemoryView>, i: int, j: int)
    requires
        0 <= i <= j <= memories.len(),
    ensures
        distinct(memories.take(i)).is_prefix_of(distinct(memories.take(j))),
    decreases j - i,
{
    if i < j {
        lemma_distinct_grows(memories, i, j - 1);
        assert(memories.take(j).drop_last() =~= memories.take(j - 1));
    }
}

/// Merges the memories loaded at the start with those found.
pub fn merge_memories(
    bootstrap_memories: &Vec<Memory>,
    searched_memories: &Vec<Memory>,
    max_items: usize,
) -> (r: Vec<Memory>)
    ensures
        r.deep_view() == merged(
            bootstrap_memories.deep_view(),
            searched_memories.deep_view(),
            max_items,
        ),
{
    let ghost all = bootstrap_memories.deep_view() + searched_memories.deep_view();
    let cap: usize = if max_items == 0 {
        1
    } else {
        max_items
    };
    let mut chain = bootstrap_memories.clone();
    let mut rest = searched_memories.clone();
    chain.append(&mut rest);
    proof {
        assert(chain.deep_view() =~= all);
    }
    let mut out: Vec<Memory> = Vec::new();
    let mut i: usize = 0;
    proof {
        assert(out.deep_view() =~= distinct(all.take(0)));
    }
    while i < chain.len()
        invariant
            i <= chain.len(),
            all == chain.deep_view(),
            all == bootstrap_memories.deep_view() + searched_memories.deep_view(),
            cap == (if max_items == 0 {
                1
            } else {
                max_items as int
            }),
            out.deep_view() == distinct(all.take(i as int)),
            out.len() < cap,
        decreases chain.len() - i,
    {
        let ghost before = out.deep_view();
        proof {
            assert(all.take(i + 1).drop_last() =~= all.take(i as int));
            assert(all.take(i + 1).last() == chain[i as int].deep_view());
        }
        if !contains_id(&out, &chain[i].id) {
            out.push(chain[i].clone());
            proof {
                assert(out.deep_view() =~= before.push(all[i as int]));
            }
        }
        i += 1;
        if out.len() >= cap {
            proof {
                lemma_distinct_grows(all, i as int, all.len() as int);
                assert(all.take(all.len() as int) =~= all);
                assert(out.deep_view() =~= at_most(distinct(all), cap as int));
            }
            return out;
        }
    }
    proof {
        assert(all.take(all.len() as int) =~= all);
    }
    out
}

/// The memories of a turn never hold an id twice, keep the order of the sources
/// and stay within the limit.
pub proof fn law_merged_memories(
    bootstrap: Seq<MemoryView>,
    searched: Seq<MemoryView>,
    max_items: usize,
)
    ensures
        forall|i: int, j: int|
            0 <= i < j < merged(bootstrap, searched, max_items).len() ==> (#[trigger] merged(
                bootstrap,
                searched,
                max_items,
            )[i]).id != (#[trigger] merged(bootstrap, searched, max_items)[j]).id,
        max_items > 0 ==> merged(bootstrap, searched, max_items).len() <= max_items,
        merged(bootstrap, searched, max_items).is_prefix_of(distinct(bootstrap + searched)),
{
    lemma_distinct_ids(bootstrap + searched);
    let all = distinct(bootstrap + searched);
    let some = merged(bootstrap, searched, max_items);
    assert forall|i: int, j: int| 0 <= i < j < some.len() implies (#[trigger] some[i]).id != (
    #[trigger] some[j]).id by {
        assert(some[i] == all[i] && some[j] == all[j]);
    }
}

proof fn lemma_distinct_ids(memories: Seq<MemoryView>)
    ensures
        forall|i: int, j: int|
            0 <= i < j < distinct(memories).len() ==> (#[trigger] distinct(memories)[i]).id != (
            #[trigger] distinct(memories)[j]).id,
    decreases memories.len(),
{
    if memories.len() > 0 {
        lemma_distinct_ids(memories.drop_last());
        let front = distinct(memories.drop_last());
        let whole = distinct(memories);
        assert forall|i: int, j: int| 0 <= i < j < whole.len() implies (#[trigger] whole[i]).id != (
        #[trigger] whole[j]).id by {
            if j < front.len() {
                assert(whole[i] == front[i] && whole[j] == front[j]);
            } else {
                assert(whole[i] == front[i]);
            }
        }
    }
}

/// Where memories of a turn come from.
#[derive(Debug, PartialEq, Eq)]
pub enum TurnMemories {
    /// They are known without a search.
    Ready(Vec<Memory>),
    /// A search with this text is needed.
    Search(String),
}

/// The memories of a turn without a search: none is made where the input holds
/// no explicit text.
pub fn load_turn_memories(
    bootstrap_memories: &Vec<Memory>,
    input: &UserInput,
    max_items: usize,
) -> (r: TurnMemories)
    ensures
        match query_of(input.deep_view()) {
            Some(query) => r matches TurnMemories::Search(q) && q@ == query,
            None => r matches TurnMemories::Ready(memories) && memories.deep_view() == at_most(
                bootstrap_memories.deep_view(),
                max_items as int,
            ),
        },
{
    match explicit_text_query(input) {
        Some(query) => TurnMemories::Search(query),
        None => TurnMemories::Ready(limit_memories(bootstrap_memories, max_items)),
    }
}

/// The error for a storage operation on memories.
pub open spec fn memory_storage_error(
    head: Seq<char>,
    name: Seq<char>,
    source: Seq<Seq<char>>,
) -> AgentErrorView {
    AgentErrorView::StorageError(seq![head + name + "'"@] + source)
}

/// The error for a storage operation on memories.
pub fn memory_storage_failure(head: &str, name: &str, source: ErrorSource) -> (r: AgentError)
    ensures
        r.deep_view() == memory_storage_error(head@, name@, source.deep_view()),
{
    let message = head.to_owned().concat(name).concat("'");
    AgentError::StorageError(source.context(message.as_str()))
}

// ---------------------------------------------------------------------------
// Rendering of the ledger
// ---------------------------------------------------------------------------
/// The events with a number above `seq`.
pub open spec fn events_after(events: Seq<LedgerEventView>, seq: u64) -> Seq<LedgerEventView>
    decreases events.len(),
{
    if events.len() == 0 {
        Seq::empty()
    } else if events.last().seq > seq {
        events_after(events.drop_last(), seq).push(events.last())
    } else {
        events_after(events.drop_last(), seq)
    }
}

/// The events behind a checkpoint.
pub fn incremental_events_after(ledger: &SessionLedger, last_checkpoint_seq: u64) -> (r: Vec<
    LedgerEvent,
>)
    ensures
        r.deep_view() == events_after(ledger.deep_view(), last_checkpoint_seq),
{
    let events = ledger.events();
    let ghost all = ledger.deep_view();
    let mut out: Vec<LedgerEvent> = Vec::new();
    let mut i: usize = 0;
    proof {
        assert(out.deep_view() =~= events_after(all.take(0), last_checkpoint_seq));
    }
    while i < events.len()
        invariant
            i <= events.len(),
            all == events.deep_view(),
            out.deep_view() == events_after(all.take(i as int), last_checkpoint_seq),
        decreases events.len() - i,
    {
        let ghost before = out.deep_view();
        proof {
            assert(all.take(i + 1).drop_last() =~= all.take(i as int));
            assert(all.take(i + 1).last() == events[i as int].deep_view());
        }
        if events[i].seq > last_checkpoint_seq {
            out.push(events[i].clone());
            proof {
                assert(out.deep_view() =~= before.push(all[i as int]));
            }
        }
        i += 1;
    }
    proof {
        assert(all.take(all.len() as int) =~= all);
    }
    out
}

/// The text of a content block.
pub open spec fn block_text(block: ContentBlockView) -> Seq<char> {
    match block {
        ContentBlockView::Text(text) => text,
        ContentBlockView::Image { media_type, .. } => "<image media_type=\""@ + media_type
            + "\" />"@,
        ContentBlockView::File { name, media_type, text } => "<file name=\""@ + name
            + "\" media_type=\""@ + media_type + "\">\n"@ + text + "\n</file>"@,
    }
}

/// The text of content blocks.
pub open spec fn blocks_text(blocks: Seq<ContentBlockView>) -> Seq<char> {
    joined(blocks.map_values(|block: ContentBlockView| block_text(block)), "\n"@)
}

/// The name of a message status.
pub open spec fn status_name(status: MessageStatus) -> Seq<char> {
    match status {
        MessageStatus::Complete => "complete"@,
        MessageStatus::Incomplete => "incomplete"@,
    }
}

/// The name of a truth value.
pub open spec fn bool_name(value: bool) -> Seq<char> {
    if value {
        "true"@
    } else {
        "false"@
    }
}

/// The line of a ledger event; metadata has none.
pub open spec fn event_line(event: LedgerEventView) -> Option<Seq<char>> {
    let head = "[seq:"@ + decimal(event.seq as nat) + "] "@;
    match event.payload {
        PayloadView::UserMessage { content } => Some(head + "user: "@ + blocks_text(content)),
        PayloadView::AssistantMessage { content, status } => Some(
            head + "assistant("@ + status_name(status) + "): "@ + blocks_text(content),
        ),
        PayloadView::ToolCall { call_id, tool_name, arguments } => Some(
            head + "tool_call "@ + tool_name + "#"@ + call_id + ": "@ + arguments,
        ),
        PayloadView::ToolResult { call_id, output } => Some(
            head + "tool_result "@ + call_id + " (is_error="@ + bool_name(output.is_error)
                + "): "@ + output.content,
        ),
        PayloadView::SystemMessage { content } => Some(head + "system: "@ + content),
        PayloadView::Metadata { .. } => None,
    }
}

/// The lines of all events that have one.
pub open spec fn event_lines(events: Seq<LedgerEventView>) -> Seq<Seq<char>>
    decreases events.len(),
{
    if events.len() == 0 {
        Seq::empty()
    } else {
        event_lines(events.drop_last()) + optional(event_line(events.last()))
    }
}

/// The text of a list of events.
pub open spec fn events_text(events: Seq<LedgerEventView>) -> Seq<char> {
    joined(event_lines(events), "\n"@)
}

/// Renders one content block.
pub fn render_content_block(block: &ContentBlock) -> (r: String)
    ensures
        r@ == block_text(block.deep_view()),
{
    match block {
        ContentBlock::Text(text) => text.clone(),
        ContentBlock::Image { media_type, .. } => "<image media_type=\"".to_owned().concat(
            media_type.as_str(),
        ).concat("\" />"),
        ContentBlock::File { name, media_type, text } => "<file name=\"".to_owned().concat(
            name.as_str(),
        ).concat("\" media_type=\"").concat(media_type.as_str()).concat("\">\n").concat(
            text.as_str(),
        ).concat("\n</file>"),
    }
}

/// Renders content blocks.
pub fn render_content_blocks(content: &Vec<ContentBlock>) -> (r: String)
    ensures
        r@ == blocks_text(content.deep_view()),
{
    let ghost wanted = content.deep_view().map_values(|block: ContentBlockView| block_text(block));
    let mut parts: Vec<String> = Vec::new();
    let mut i: usize = 0;
    while i < content.len()
        invariant
            i <= content.len(),
            wanted == content.deep_view().map_values(
                |block: ContentBlockView| block_text(block),
            ),
            parts.deep_view() =~= wanted.take(i as int),
        decreases content.len() - i,
    {
        let ghost before = parts.deep_view();
        parts.push(render_content_block(&content[i]));
        proof {
            assert(parts.deep_view() =~= before.push(wanted[i as int]));
        }
        i += 1;
    }
    proof {
        assert(wanted.take(content.len() as int) =~= wanted);
    }
    join(&parts, "\n")
}

/// Names a message status.
pub fn render_message_status(status: MessageStatus) -> (r: &'static str)
    ensures
        r@ == status_name(status),
{
    match status {
        MessageStatus::Complete => "complete",
        MessageStatus::Incomplete => "incomplete",
    }
}

/// Renders one ledger event.
pub fn render_ledger_event(event: &LedgerEvent) -> (r: Option<String>)
    ensures
        r.deep_view() == event_line(event.deep_view()),
{
    let head = "[seq:".to_owned().concat(decimal_text(event.seq).as_str()).concat("] ");
    match &event.payload {
        LedgerEventPayload::UserMessage { content } => Some(
            head.concat("user: ").concat(render_content_blocks(content).as_str()),
        ),
        LedgerEventPayload::AssistantMessage { content, status } => Some(
            head.concat("assistant(").concat(render_message_status(*status)).concat("): ").concat(
                render_content_blocks(content).as_str(),
            ),
        ),
        LedgerEventPayload::ToolCall { call_id, tool_name, arguments } => Some(
            head.concat("tool_call ").concat(tool_name.as_str()).concat("#").concat(
                call_id.as_str(),
            ).concat(": ").concat(arguments.text()),
        ),
        LedgerEventPayload::ToolResult { call_id, output } => {
            let flag = if output.is_error {
                "true"
            } else {
                "false"
            };
            Some(
                head.concat("tool_result ").concat(call_id.as_str()).concat(" (is_error=").concat(
                    flag,
                ).concat("): ").concat(output.content.as_str()),
            )
        },
        LedgerEventPayload::SystemMessage { content } => Some(
            head.concat("system: ").concat(content.as_str()),
        ),
        LedgerEventPayload::Metadata { .. } => None,
    }
}

/// Renders a list of events.
pub fn render_incremental_events(events: &Vec<LedgerEvent>) -> (r: String)
    ensures
        r@ == events_text(events.deep_view()),
{
    let ghost all = events.deep_view();
    let mut lines: Vec<String> = Vec::new();
    let mut i: usize = 0;
    proof {
        assert(lines.deep_view() =~= event_lines(all.take(0)));
    }
    while i < events.len()
        invariant
            i <= events.len(),
            all == events.deep_view(),
            lines.deep_view() == event_lines(all.take(i as int)),
        decreases events.len() - i,
    {
        let ghost before = lines.deep_view();
        proof {
            assert(all.take(i + 1).drop_last() =~= all.take(i as int));
            assert(all.take(i + 1).last() == events[i as int].deep_view());
            assert(before + Seq::<Seq<char>>::empty() =~= before);
        }
        match render_ledger_event(&events[i]) {
            Some(line) => {
                let ghost shown = line@;
                lines.push(line);
                proof {
                    assert(lines.deep_view() =~= before + seq![shown]);
                }
            },
            None => {},
        }
        i += 1;
    }
    proof {
        assert(all.take(all.len() as int) =~= all);
    }
    join(&lines, "\n")
}

/// The user text of an extraction request.
pub open spec fn extraction_input(
    namespace: Seq<char>,
    source: Seq<char>,
    existing_json: Seq<char>,
    rendered_events: Seq<char>,
) -> Seq<char> {
    let contents = "namespace: "@ + namespace + "\nsource: "@ + source
        + "\n\nexisting memories json:\n"@ + existing_json + "\n\nincremental ledger events:\n"@
        + rendered_events;
    replaced(
        replaced(
            replaced(MEMORY_STAGE_ONE_INPUT@, "{rollout_path}"@, source),
            "{rollout_cwd}"@,
            namespace,
        ),
        "{rollout_contents}"@,
        contents,
    )
}

/// The request of an extraction.
pub open spec fn extraction_request(
    namespace: Seq<char>,
    source: Seq<char>,
    existing_json: Seq<char>,
    rendered_events: Seq<char>,
    model_id: Seq<char>,
) -> ChatRequestView {
    ChatRequestView {
        model_id,
        messages: seq![
            MessageView::System { content: MEMORY_STAGE_ONE_SYSTEM@ },
            MessageView::User {
                content: seq![
                    ContentBlockView::Text(
                        extraction_input(namespace, source, existing_json, rendered_events),
                    ),
                ],
            },
        ],
        tools: Seq::empty(),
        max_tokens: None,
        reasoning_effort: None,
    }
}

/// Builds the request of an extraction. The memories that exist already are
/// given as JSON text.
pub fn build_extraction_request(
    namespace: &str,
    source: &str,
    existing_json: &str,
    rendered_events: &str,
    model_id: &str,
) -> (r: ChatRequest)
    ensures
        r.deep_view() == extraction_request(
            namespace@,
            source@,
            existing_json@,
            rendered_events@,
            model_id@,
        ),
{
    proof {
        reveal_strlit("{rollout_path}");
        reveal_strlit("{rollout_cwd}");
        reveal_strlit("{rollout_contents}");
    }
    let contents = "namespace: ".to_owned().concat(namespace).concat("\nsource: ").concat(
        source,
    ).concat("\n\nexisting memories json:\n").concat(existing_json).concat(
        "\n\nincremental ledger events:\n",
    ).concat(rendered_events);
    let with_path = replace_all(MEMORY_STAGE_ONE_INPUT, "{rollout_path}", source);
    let with_cwd = replace_all(with_path.as_str(), "{rollout_cwd}", namespace);
    let text = replace_all(with_cwd.as_str(), "{rollout_contents}", contents.as_str());
    let ghost shown = text@;
    let mut content: Vec<ContentBlock> = Vec::new();
    content.push(ContentBlock::Text(text));
    proof {
        assert(content.deep_view() =~= seq![ContentBlockView::Text(shown)]);
    }
    let ghost blocks = content.deep_view();
    let mut messages: Vec<Message> = Vec::new();
    messages.push(Message::System { content: MEMORY_STAGE_ONE_SYSTEM.to_owned() });
    messages.push(Message::User { content });
    proof {
        assert(messages.deep_view() =~= seq![
            MessageView::System { content: MEMORY_STAGE_ONE_SYSTEM@ },
            MessageView::User { content: blocks },
        ]);
    }
    let tools: Vec<ToolDefinition> = Vec::new();
    proof {
        assert(tools.deep_view() =~= Seq::<ToolDefinitionView>::empty());
    }
    ChatRequest {
        model_id: model_id.to_owned(),
        messages,
        tools,
        max_tokens: None,
        reasoning_effort: None,
    }
}

// ---------------------------------------------------------------------------
// Operations on memories
// ---------------------------------------------------------------------------
/// An operation that the extraction model asks for.
#[derive(Debug, PartialEq, Eq)]
pub enum MemoryOperation {
    /// A new memory.
    Create {
        /// Content.
        content: String,
        /// Tags.
        tags: Vec<String>,
    },
    /// New content for a memory.
    Update {
        /// Id of the memory.
        target_id: String,
        /// Content.
        content: String,
        /// Tags.
        tags: Vec<String>,
    },
    /// Removal of a memory.
    Delete {
        /// Id of the memory.
        target_id: String,
    },
}

/// Model of [`MemoryOperation`].
#[verifier::ext_equal]
pub enum OperationView {
    Create { content: Seq<char>, tags: Seq<Seq<char>> },
    Update { target_id: Seq<char>, content: Seq<char>, tags: Seq<Seq<char>> },
    Delete { target_id: Seq<char> },
}

impl DeepView for MemoryOperation {
    type V = OperationView;

    open spec fn deep_view(&self) -> OperationView {
        match self {
            MemoryOperation::Create { content, tags } => OperationView::Create {
                content: content@,
                tags: tags.deep_view(),
            },
            MemoryOperation::Update { target_id, content, tags } => OperationView::Update {
                target_id: target_id@,
                content: content@,
                tags: tags.deep_view(),
            },
            MemoryOperation::Delete { target_id } => OperationView::Delete {
                target_id: target_id@,
            },
        }
    }
}

/// What the extraction model returned.
#[derive(Debug, PartialEq, Eq)]
pub struct ExtractionResult {
    /// The operations, in order.
    pub memory_operations: Vec<MemoryOperation>,
    /// Summary of the rollout.
    pub rollout_summary: String,
    /// Short name of the rollout.
    pub rollout_slug: String,
}

/// A change to the memory storage.
#[derive(Debug, PartialEq, Eq)]
pub enum MemoryWrite {
    /// Stores a memory under its id.
    Upsert(Memory),
    /// Removes the memory with an id.
    Delete(String),
}

/// Model of [`MemoryWrite`].
#[verifier::ext_equal]
pub enum WriteView {
    Upsert(MemoryView),
    Delete(Seq<char>),
}

impl DeepView for MemoryWrite {
    type V = WriteView;

    open spec fn deep_view(&self) -> WriteView {
        match self {
            MemoryWrite::Upsert(memory) => WriteView::Upsert(memory.deep_view()),
            MemoryWrite::Delete(id) => WriteView::Delete(id@),
        }
    }
}

impl Clone for MemoryWrite {
    fn clone(&self) -> (r: Self)
        ensures
            r.deep_view() == self.deep_view(),
    {
        match self {
            MemoryWrite::Upsert(memory) => MemoryWrite::Upsert(memory.clone()),
            MemoryWrite::Delete(id) => MemoryWrite::Delete(id.clone()),
        }
    }
}

/// A list of memories as a map from ids, where later entries count.
pub open spec fn by_id(memories: Seq<MemoryView>) -> Map<Seq<char>, MemoryView>
    decreases memories.len(),
{
    if memories.len() == 0 {
        Map::empty()
    } else {
        by_id(memories.drop_last()).insert(memories.last().id, memories.last())
    }
}

/// A new memory.
pub open spec fn new_memory(
    id: Seq<char>,
    namespace: Seq<char>,
    source: Seq<char>,
    content: Seq<char>,
    tags: Seq<Seq<char>>,
    now: Timestamp,
) -> MemoryView {
    MemoryView { id, namespace, content, source, tags, created_at: now, updated_at: now }
}

/// The memories known after an operation, and the write that it causes: an
/// update of an unknown memory creates one, the removal of an unknown memory
/// does nothing.
pub open spec fn operated(
    known: Map<Seq<char>, MemoryView>,
    operation: OperationView,
    namespace: Seq<char>,
    source: Seq<char>,
    id: Seq<char>,
    now: Timestamp,
) -> (Map<Seq<char>, MemoryView>, Option<WriteView>) {
    match operation {
        OperationView::Create { content, tags } => {
            let memory = new_memory(id, namespace, source, content, tags, now);
            (known.insert(id, memory), Some(WriteView::Upsert(memory)))
        },
        OperationView::Update { target_id, content, tags } => if known.contains_key(target_id) {
            let memory = MemoryView {
                content,
                source,
                tags,
                updated_at: now,
                ..known[target_id]
            };
            (known.insert(memory.id, memory), Some(WriteView::Upsert(memory)))
        } else {
            let memory = new_memory(id, namespace, source, content, tags, now);
            (known.insert(id, memory), Some(WriteView::Upsert(memory)))
        },
        OperationView::Delete { target_id } => if known.contains_key(target_id) {
            (known.remove(target_id), Some(WriteView::Delete(target_id)))
        } else {
            (known, None)
        },
    }
}

proof fn lemma_by_id_push(memories: Seq<MemoryView>, memory: MemoryView)
    ensures
        by_id(memories.push(memory)) == by_id(memories).insert(memory.id, memory),
{
    assert(memories.push(memory).drop_last() =~= memories);
}

fn find_memory(known: &Vec<Memory>, id: &String) -> (r: Option<Memory>)
    ensures
        match r {
            Some(memory) => by_id(known.deep_view()).contains_key(id@) && by_id(
                known.deep_view(),
            )[id@] == memory.deep_view(),
            None => !by_id(known.deep_view()).contains_key(id@),
        },
{
    let ghost all = known.deep_view();
    let mut i: usize = known.len();
    proof {
        assert(all.take(i as int) =~= all);
    }
    while i > 0
        invariant
            i <= known.len(),
            all == known.deep_view(),
            by_id(all).contains_key(id@) == by_id(all.take(i as int)).contains_key(id@),
            by_id(all).contains_key(id@) ==> by_id(all)[id@] == by_id(all.take(i as int))[id@],
        decreases i,
    {
        i -= 1;
        proof {
            assert(all.take(i + 1).drop_last() =~= all.take(i as int));
            assert(all.take(i + 1).last() == known[i as int].deep_view());
        }
        if known[i].id == *id {
            return Some(known[i].clone());
        }
    }
    None
}

fn without_memory(known: &Vec<Memory>, id: &String) -> (r: Vec<Memory>)
    ensures
        by_id(r.deep_view()) == by_id(known.deep_view()).remove(id@),
{
    let ghost all = known.deep_view();
    let mut out: Vec<Memory> = Vec::new();
    let mut i: usize = 0;
    proof {
        assert(out.deep_view() =~= Seq::<MemoryView>::empty());
        assert(all.take(0) =~= Seq::<MemoryView>::empty());
        assert(by_id(out.deep_view()) =~= by_id(all.take(0)).remove(id@));
    }
    while i < known.len()
        invariant
            i <= known.len(),
            all == known.deep_view(),
            by_id(out.deep_view()) == by_id(all.take(i as int)).remove(id@),
        decreases known.len() - i,
    {
        let ghost before = out.deep_view();
        proof {
            assert(all.take(i + 1) =~= all.take(i as int).push(all[i as int]));
            lemma_by_id_push(all.take(i as int), all[i as int]);
        }
        if known[i].id != *id {
            out.push(known[i].clone());
            proof {
                assert(out.deep_view() =~= before.push(all[i as int]));
                lemma_by_id_push(before, all[i as int]);
            }
        }
        proof {
            assert(by_id(out.deep_view()) =~= by_id(all.take(i + 1)).remove(id@));
        }
        i += 1;
    }
    proof {
        assert(all.take(all.len() as int) =~= all);
    }
    out
}

/// A new memory.
pub fn build_new_memory(
    id: String,
    namespace: &str,
    source: &str,
    content: &str,
    tags: &Vec<String>,
    now: Timestamp,
) -> (r: Memory)
    ensures
        r.deep_view() == new_memory(id@, namespace@, source@, content@, tags.deep_view(), now),
{
    Memory {
        id,
        namespace: namespace.to_owned(),
        content: content.to_owned(),
        source: source.to_owned(),
        tags: tags.clone(),
        created_at: now,
        updated_at: now,
    }
}

/// A memory with new content.
pub fn build_updated_memory(
    existing: Memory,
    source: &str,
    content: &str,
    tags: &Vec<String>,
    now: Timestamp,
) -> (r: Memory)
    ensures
        r.deep_view() == (MemoryView {
            content: content@,
            source: source@,
            tags: tags.deep_view(),
            updated_at: now,
            ..existing.deep_view()
        }),
{
    Memory {
        id: existing.id,
        namespace: existing.namespace,
        content: content.to_owned(),
        source: source.to_owned(),
        tags: tags.clone(),
        created_at: existing.created_at,
        updated_at: now,
    }
}

fn push_known(known: &mut Vec<Memory>, memory: Memory)
    ensures
        by_id(final(known).deep_view()) == by_id(old(known).deep_view()).insert(
            memory.deep_view().id,
            memory.deep_view(),
        ),
{
    let ghost view = memory.deep_view();
    known.push(memory);
    proof {
        assert(known.deep_view() =~= old(known).deep_view().push(view));
        lemma_by_id_push(old(known).deep_view(), view);
    }
}

/// Applies one operation to the memories known so far.
pub fn apply_memory_operation(
    known: &mut Vec<Memory>,
    operation: &MemoryOperation,
    namespace: &str,
    source: &str,
    id: String,
    now: Timestamp,
) -> (r: Option<MemoryWrite>)
    ensures
        (by_id(final(known).deep_view()), r.deep_view()) == operated(
            by_id(old(known).deep_view()),
            operation.deep_view(),
            namespace@,
            source@,
            id@,
            now,
        ),
{
    match operation {
        MemoryOperation::Create { content, tags } => {
            let memory = build_new_memory(id, namespace, source, content.as_str(), tags, now);
            push_known(known, memory.clone());
            Some(MemoryWrite::Upsert(memory))
        },
        MemoryOperation::Update { target_id, content, tags } => match find_memory(
            known,
            target_id,
        ) {
            Some(existing) => {
                let memory = build_updated_memory(existing, source, content.as_str(), tags, now);
                push_known(known, memory.clone());
                Some(MemoryWrite::Upsert(memory))
            },
            None => {
                let memory = build_new_memory(id, namespace, source, content.as_str(), tags, now);
                push_known(known, memory.clone());
                Some(MemoryWrite::Upsert(memory))
            },
        },
        MemoryOperation::Delete { target_id } => match find_memory(known, target_id) {
            Some(_) => {
                let rest = without_memory(known, target_id);
                *known = rest;
                Some(MemoryWrite::Delete(target_id.clone()))
            },
            None => None,
        },
    }
}

/// An update of an unknown memory does what a creation does.
pub proof fn law_update_degrades_to_create(
    known: Map<Seq<char>, MemoryView>,
    target_id: Seq<char>,
    content: Seq<char>,
    tags: Seq<Seq<char>>,
    namespace: Seq<char>,
    source: Seq<char>,
    id: Seq<char>,
    now: Timestamp,
)
    requires
        !known.contains_key(target_id),
    ensures
        operated(
            known,
            OperationView::Update { target_id, content, tags },
            namespace,
            source,
            id,
            now,
        ) == operated(known, OperationView::Create { content, tags }, namespace, source, id, now),
{
}

/// The removal of an unknown memory writes nothing.
pub proof fn law_unknown_delete_is_ignored(
    known: Map<Seq<char>, MemoryView>,
    target_id: Seq<char>,
    namespace: Seq<char>,
    source: Seq<char>,
    id: Seq<char>,
    now: Timestamp,
)
    requires
        !known.contains_key(target_id),
    ensures
        operated(known, OperationView::Delete { target_id }, namespace, source, id, now) == (
            known,
            None::<WriteView>,
        ),
{
}

} // verus!
