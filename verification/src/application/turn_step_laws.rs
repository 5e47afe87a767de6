//! Laws of the single steps of a turn: what each of them stores, announces and
//! asks for, and what it leaves alone.

use crate::application::context_manager::{estimated, plan_of, settled_marker, PlanView};
use crate::application::memory_extraction::extraction_start;
use crate::application::memory_manager::{merged, query_of};
use crate::application::prompt_builder::not_blank;
use crate::application::request_builder::provider_message;
use crate::application::session_runtime::RuntimeView;
use crate::application::stream::{premature_end, AnswerView, TextPurpose};
use crate::application::tool_batch::{
    launch_events, parallel_outcome, running, serial_record, ParallelView, SerialView,
};
use crate::application::tool_dispatcher::{
    completed_of, end_events, hooks_answered, offered, raw_of, BatchOutcomeView, BatchView,
    CompletionView, ExecutionView, OfferView, PreparationView, PreparedView, RawView, RecordView,
    RegisteredTool, RequestedView,
};
use crate::application::tool_laws::{
    has_room, law_answers_go_one_for_one, law_every_open_call_runs, law_mutating_batch,
    law_parallel_outcome,
};
use crate::application::turn_rules::{
    advanced, appended_sections, hooks_settled, skill_payloads, summarised, summary_request,
    tools_size, turn_extracted, turn_next, turn_opened, turn_prompt, turn_read, turn_request,
    turn_saved, turn_searched, turn_tool_ended, DemandView,
};
use crate::application::turn_state::{
    BatchRunView, ChatRole, OutgoingView, StageView, TurnActionView, TurnDeps, TurnView,
};
use crate::clock::Timestamp;
use crate::domain::error::AgentErrorView;
use crate::domain::event::EventPayloadView;
use crate::domain::hook::{HookDataView, HookEvent, HookPatchView};
use crate::domain::ledger::{
    next_number, LedgerEventView, MetadataKey, MetadataValueView, PayloadView,
};
use crate::domain::state::TurnOutcomeView;
use crate::domain::types::{ContentBlockView, MemoryView, MessageStatus, MessageView};
use crate::ports::model::{ChatEventView, StreamItemView, ToolDefinitionView};
use crate::text::{decimal, utf8_len};
use vstd::prelude::*;
use vstd::string::*;

verus! {

/// Whether two states of a turn agree on everything but what is to go out and
/// what comes next.
pub open spec fn otherwise_same(t: TurnView, u: TurnView) -> bool {
    &&& u.turn_id == t.turn_id
    &&& u.input == t.input
    &&& u.skill_injections == t.skill_injections
    &&& u.sections == t.sections
    &&& u.memories == t.memories
    &&& u.tool_calls_count == t.tool_calls_count
    &&& u.allow_tools == t.allow_tools
    &&& u.limit_reached == t.limit_reached
    &&& u.retried == t.retried
    &&& u.saving == t.saving
    &&& u.dispatch == t.dispatch
}

/// Whether a turn has failed with an error and lets nothing more go out.
pub open spec fn failed_with(u: TurnView, error: AgentErrorView) -> bool {
    &&& u.stage == StageView::Finished(TurnOutcomeView::Failed(error))
    &&& u.outbox.len() == 0
    &&& u.saving is None
    &&& u.dispatch is None
}

// ---------------------------------------------------------------------------
// Start
// ---------------------------------------------------------------------------
proof fn lemma_skill_payloads(messages: Seq<MessageView>)
    requires
        forall|i: int| 0 <= i < messages.len() ==> (#[trigger] messages[i]) is System,
    ensures
        skill_payloads(messages).len() == messages.len(),
        forall|i: int|
            #![trigger messages[i]]
            0 <= i < messages.len() ==> skill_payloads(messages)[i]
                == OutgoingView::Persist(
                PayloadView::SystemMessage { content: messages[i]->System_content },
            ),
    decreases messages.len(),
{
    if messages.len() > 0 {
        let front = messages.drop_last();
        assert(messages[messages.len() - 1] is System);
        assert forall|i: int| 0 <= i < front.len() implies (#[trigger] front[i]) is System by {
            assert(front[i] == messages[i]);
        }
        lemma_skill_payloads(front);
        assert forall|i: int|
            #![trigger messages[i]]
            0 <= i < messages.len() implies skill_payloads(
            messages,
        )[i] == OutgoingView::Persist(
            PayloadView::SystemMessage { content: messages[i]->System_content },
        ) by {
            if i < front.len() {
                assert(front[i] == messages[i]);
            }
        }
    }
}

/// When the hooks let a turn start, it stores one system message per injected
/// skill, in their order and with exactly their content, and then the message of
/// the user, behind whatever was to go out before.
pub proof fn law_started_turn_stores_skills_and_input(
    d: TurnDeps,
    t: TurnView,
    patches: Seq<HookPatchView>,
    i: int,
)
    requires
        t.stage is Start,
        forall|k: int| 0 <= k < t.skill_injections.len() ==> (#[trigger] t.skill_injections[k])
            is System,
    ensures
        ({
            let u = hooks_settled(d, t, Ok(patches));
            let n = t.skill_injections.len();
            let start = t.outbox.len();
            &&& u.outbox.len() == start + n + 1
            &&& forall|k: int| 0 <= k < start ==> #[trigger] u.outbox[k] == t.outbox[k]
            &&& 0 <= i < n ==> u.outbox[start + i] == OutgoingView::Persist(
                PayloadView::SystemMessage { content: t.skill_injections[i]->System_content },
            )
            &&& u.outbox.last() == OutgoingView::Persist(
                PayloadView::UserMessage { content: t.input },
            )
            &&& u.stage is Recall
            &&& u.sections == appended_sections(patches)
            &&& otherwise_same(TurnView { sections: u.sections, ..t }, u)
        }),
{
    lemma_skill_payloads(t.skill_injections);
}

/// Of the patches of a starting turn, every section that is not blank is added to
/// the prompt, in the order of the patches.
pub proof fn law_sections_are_appended(patches: Seq<HookPatchView>, patch: HookPatchView)
    ensures
        appended_sections(Seq::empty()).len() == 0,
        appended_sections(patches.push(patch)) == (match patch {
            HookPatchView::TurnStart { append_dynamic_sections } => appended_sections(patches)
                + not_blank(append_dynamic_sections),
            HookPatchView::BeforeToolUse { .. } => appended_sections(patches),
        }),
{
    assert(patches.push(patch).drop_last() =~= patches);
}

/// Hooks of a starting turn are told its input.
pub proof fn law_start_is_told(d: TurnDeps, t: TurnView, rt: RuntimeView, cancelled: bool)
    requires
        t.stage is Start,
    ensures
        advanced(d, t, rt, cancelled) == (
            t,
            DemandView::Hooks(
                HookEvent::TurnStart,
                HookDataView::TurnStart { user_input: t.input, dynamic_sections: Seq::empty() },
            ),
        ),
{
}

// ---------------------------------------------------------------------------
// Memories
// ---------------------------------------------------------------------------
/// Where memories are stored, the turn searches those of its namespace with the
/// texts of its input, up to the limit. Without texts, or without storage, it
/// takes those at hand.
pub proof fn law_memories_are_recalled(
    d: TurnDeps,
    t: TurnView,
    rt: RuntimeView,
    cancelled: bool,
)
    requires
        t.stage is Recall,
    ensures
        ({
            let (u, demand) = advanced(d, t, rt, cancelled);
            &&& d.memory_model_id is None ==> u.memories == rt.bootstrap_memories
                && u.stage is Request
            &&& d.memory_model_id is Some && query_of(t.input) is Some ==> u == t && demand
                == DemandView::Act(
                TurnActionView::SearchMemories {
                    namespace: rt.memory_namespace,
                    query: query_of(t.input)->0,
                    limit: d.config.memory_max_items,
                },
            )
            &&& d.memory_model_id is Some && query_of(t.input) is None ==> {
                &&& u.stage is Request
                &&& u.memories.is_prefix_of(rt.bootstrap_memories)
                &&& u.memories.len() == if rt.bootstrap_memories.len()
                    <= d.config.memory_max_items {
                    rt.bootstrap_memories.len() as int
                } else {
                    d.config.memory_max_items as int
                }
            }
            &&& otherwise_same(TurnView { memories: u.memories, ..t }, u)
            &&& u.outbox == t.outbox
        }),
{
}

/// What a search finds joins the memories at hand; a search that fails ends the
/// turn with an error that names the namespace.
pub proof fn law_found_memories_are_used(
    d: TurnDeps,
    t: TurnView,
    rt: RuntimeView,
    memories: Seq<MemoryView>,
    source: Seq<Seq<char>>,
)
    ensures
        ({
            let u = turn_searched(d, t, rt, Ok(memories));
            &&& u.memories == merged(rt.bootstrap_memories, memories, d.config.memory_max_items)
            &&& u.stage is Request
            &&& u.outbox == t.outbox
            &&& otherwise_same(TurnView { memories: u.memories, ..t }, u)
        }),
        failed_with(
            turn_searched(d, t, rt, Err(source)),
            AgentErrorView::StorageError(
                seq!["failed to search memories for namespace '"@ + rt.memory_namespace + "'"@]
                    + source,
            ),
        ),
{
}

// ---------------------------------------------------------------------------
// Requests
// ---------------------------------------------------------------------------
proof fn lemma_tools_size_concat(a: Seq<ToolDefinitionView>, b: Seq<ToolDefinitionView>)
    ensures
        tools_size(a + b) == tools_size(a) + tools_size(b),
    decreases b.len(),
{
    if b.len() == 0 {
        assert(a + b =~= a);
    } else {
        assert((a + b).drop_last() =~= a + b.drop_last());
        lemma_tools_size_concat(a, b.drop_last());
    }
}

/// The size of tools is the sum over them of all that describes them.
pub proof fn law_tools_size_sums_texts(
    a: Seq<ToolDefinitionView>,
    b: Seq<ToolDefinitionView>,
    tool: ToolDefinitionView,
)
    ensures
        tools_size(a + b) == tools_size(a) + tools_size(b),
        tools_size(seq![tool]) == utf8_len(tool.name) + utf8_len(tool.description) + utf8_len(
            tool.parameters,
        ),
        tools_size(Seq::empty()) == 0,
{
    lemma_tools_size_concat(a, b);
    assert(seq![tool].drop_last() =~= Seq::empty());
    assert(tools_size(seq![tool].drop_last()) == 0);
}

/// Before it asks the model, a turn compacts its context exactly where history,
/// prompt and offered tools together are estimated above the limit.
pub proof fn law_large_context_is_compacted(
    d: TurnDeps,
    t: TurnView,
    rt: RuntimeView,
    cancelled: bool,
)
    requires
        t.stage is Request,
        utf8_len(turn_prompt(d, t, rt)) <= usize::MAX,
        tools_size(d.tool_definitions.deep_view()) <= usize::MAX,
    ensures
        ({
            let (u, demand) = advanced(d, t, rt, cancelled);
            let offered = if t.allow_tools {
                tools_size(d.tool_definitions.deep_view()) as int
            } else {
                0
            };
            let total = estimated(rt.context.visible) + utf8_len(turn_prompt(d, t, rt)) / 4
                + offered / 4;
            &&& total <= usize::MAX ==> (u.stage is Gate <==> total > rt.context.compact_limit)
            &&& total > usize::MAX ==> (u.stage is Gate <==> usize::MAX > rt.context.compact_limit)
            &&& u.stage is Gate || u.stage is Send
            &&& !u.retried
            &&& u.outbox == t.outbox
            &&& otherwise_same(TurnView { retried: false, ..t }, u)
        }),
{
}

/// The model of the session is asked with the prompt of the turn and the whole
/// visible history, message by message, and offered all tools as long as they are
/// allowed. A request that cannot be made fails the turn.
pub proof fn law_model_sees_whole_history(
    d: TurnDeps,
    t: TurnView,
    rt: RuntimeView,
    cancelled: bool,
    i: int,
)
    requires
        t.stage is Send,
        0 <= i < rt.context.visible.len(),
    ensures
        ({
            let (u, demand) = advanced(d, t, rt, cancelled);
            match turn_request(d, t, rt) {
                Ok(_) => {
                    &&& u == t
                    &&& demand matches DemandView::Act(TurnActionView::OpenChat(role, request)) && {
                        &&& role is Main
                        &&& request.model_id == rt.model_id
                        &&& request.messages.len() == rt.context.visible.len() + 1
                        &&& request.messages[0] == (MessageView::System {
                            content: turn_prompt(d, t, rt),
                        })
                        &&& request.messages[i + 1] == provider_message(rt.context.visible[i])
                        &&& t.allow_tools ==> request.tools == d.tool_definitions.deep_view()
                        &&& !t.allow_tools ==> request.tools.len() == 0
                    }
                },
                Err(error) => failed_with(u, error),
            }
        }),
{
}

/// Once a request is under way, the answer is gathered from nothing. One that
/// cannot be sent interrupts a cancelled turn and fails any other.
pub proof fn law_opened_request_is_read(
    t: TurnView,
    rt: RuntimeView,
    source: Seq<Seq<char>>,
    cancelled: bool,
)
    requires
        t.stage is Send,
    ensures
        turn_opened(t, rt, Ok(()), cancelled) == (TurnView {
            stage: StageView::Stream(
                AnswerView { assistant_output: Seq::empty(), tool_calls: Seq::empty() },
            ),
            ..t
        }),
        cancelled ==> turn_opened(t, rt, Err(source), cancelled) == (TurnView {
            stage: StageView::Ending { cancelled: true, assistant_output: Seq::empty() },
            ..t
        }),
        !cancelled ==> failed_with(
            turn_opened(t, rt, Err(source), cancelled),
            AgentErrorView::ProviderError {
                message: "failed to start provider chat request"@,
                source: seq!["model provider failed to start chat request"@] + source,
                retryable: false,
            },
        ),
{
}

// ---------------------------------------------------------------------------
// Answers
// ---------------------------------------------------------------------------
/// While an answer comes in, each piece of text or reasoning is announced, text
/// and calls are kept, and nothing is stored.
pub proof fn law_answer_is_gathered(
    d: TurnDeps,
    t: TurnView,
    rt: RuntimeView,
    answer: AnswerView,
    delta: Seq<char>,
    call: RequestedView,
    cancelled: bool,
)
    requires
        t.stage == StageView::Stream(answer),
    ensures
        turn_read(
            d,
            t,
            rt,
            StreamItemView::Event(ChatEventView::TextDelta(delta)),
            cancelled,
        ) == (TurnView {
            outbox: t.outbox.push(OutgoingView::Notify(EventPayloadView::TextDelta(delta))),
            stage: StageView::Stream(
                AnswerView {
                    assistant_output: answer.assistant_output + delta,
                    tool_calls: answer.tool_calls,
                },
            ),
            ..t
        }),
        turn_read(
            d,
            t,
            rt,
            StreamItemView::Event(ChatEventView::ReasoningDelta(delta)),
            cancelled,
        ) == (TurnView {
            outbox: t.outbox.push(OutgoingView::Notify(EventPayloadView::ReasoningDelta(delta))),
            ..t
        }),
        t.allow_tools ==> turn_read(
            d,
            t,
            rt,
            StreamItemView::Event(
                ChatEventView::ToolCall {
                    call_id: call.call_id,
                    tool_name: call.tool_name,
                    arguments: call.arguments,
                },
            ),
            cancelled,
        ) == (TurnView {
            stage: StageView::Stream(
                AnswerView {
                    assistant_output: answer.assistant_output,
                    tool_calls: answer.tool_calls.push(call),
                },
            ),
            ..t
        }),
{
}

/// A finished answer is stored as a complete message, unless it holds no text.
/// Without calls the turn ends with that text; with calls they are prepared, all
/// of them and in their order.
pub proof fn law_finished_answer_is_stored(
    d: TurnDeps,
    t: TurnView,
    rt: RuntimeView,
    answer: AnswerView,
    done: ChatEventView,
    cancelled: bool,
)
    requires
        t.stage == StageView::Stream(answer),
        done is Done,
    ensures
        ({
            let u = turn_read(d, t, rt, StreamItemView::Event(done), cancelled);
            &&& answer.assistant_output.len() > 0 ==> u.outbox == t.outbox.push(
                OutgoingView::Persist(
                    PayloadView::AssistantMessage {
                        content: seq![ContentBlockView::Text(answer.assistant_output)],
                        status: MessageStatus::Complete,
                    },
                ),
            )
            &&& answer.assistant_output.len() == 0 ==> u.outbox == t.outbox
            &&& answer.tool_calls.len() == 0 ==> u.stage == (StageView::Ending {
                cancelled: false,
                assistant_output: answer.assistant_output,
            })
            &&& answer.tool_calls.len() > 0 ==> (u.stage matches StageView::Prepare {
                preparation,
                pending,
            } && pending == answer.tool_calls && preparation.calls.len() == 0
                && preparation.skip is None && (preparation.has_mutating <==> exists|k: int|
                0 <= k < answer.tool_calls.len() && (d.dispatcher.tools.find(
                    (#[trigger] answer.tool_calls[k]).tool_name,
                ) matches Some(tool) && tool.is_mutating)))
            &&& otherwise_same(t, u)
        }),
{
    law_mutating_batch(*d.dispatcher.tools, answer.tool_calls);
}

/// An answer that is cut short by a cancellation is stored as incomplete, as far
/// as it came, and the turn ends as cancelled. Its calls are dropped.
pub proof fn law_cancelled_answer_is_stored(
    d: TurnDeps,
    t: TurnView,
    rt: RuntimeView,
    answer: AnswerView,
    item: StreamItemView,
)
    requires
        t.stage == StageView::Stream(answer),
        item is End || item is Failed || item matches StreamItemView::Event(ChatEventView::Error(_)),
    ensures
        ({
            let u = turn_read(d, t, rt, item, true);
            &&& answer.assistant_output.len() > 0 ==> u.outbox == t.outbox.push(
                OutgoingView::Persist(
                    PayloadView::AssistantMessage {
                        content: seq![ContentBlockView::Text(answer.assistant_output)],
                        status: MessageStatus::Incomplete,
                    },
                ),
            )
            &&& answer.assistant_output.len() == 0 ==> u.outbox == t.outbox
            &&& u.stage == (StageView::Ending {
                cancelled: true,
                assistant_output: answer.assistant_output,
            })
            &&& otherwise_same(t, u)
        }),
{
}

/// An answer that breaks off otherwise fails the turn, and nothing of it is
/// stored.
pub proof fn law_broken_answer_fails_turn(
    d: TurnDeps,
    t: TurnView,
    rt: RuntimeView,
    answer: AnswerView,
    item: StreamItemView,
)
    requires
        t.stage == StageView::Stream(answer),
        item is End || item is Failed || (item matches StreamItemView::Event(
            ChatEventView::Error(error),
        ) && !error.is_context_length_exceeded),
    ensures
        turn_read(d, t, rt, item, false).stage matches StageView::Finished(
            TurnOutcomeView::Failed(error),
        ) && error is ProviderError && failed_with(turn_read(d, t, rt, item, false), error),
{
}

// ---------------------------------------------------------------------------
// Tools
// ---------------------------------------------------------------------------
/// Calls are prepared one by one, from the first on: a call that needs no hook is
/// settled at once, any other waits for the hooks, which are told of it.
pub proof fn law_calls_are_prepared_in_order(
    d: TurnDeps,
    t: TurnView,
    rt: RuntimeView,
    cancelled: bool,
    preparation: PreparationView,
    pending: Seq<RequestedView>,
)
    requires
        t.stage == (StageView::Prepare { preparation, pending }),
        pending.len() > 0,
    ensures
        ({
            let (u, demand) = advanced(d, t, rt, cancelled);
            let known = match d.dispatcher.tools.find(pending[0].tool_name) {
                Some(tool) => Some(tool.is_mutating),
                None => None,
            };
            match offered(preparation, pending[0], known, d.dispatcher.limits) {
                OfferView::Settled(after) => {
                    &&& u.stage == (StageView::Prepare {
                        preparation: after,
                        pending: pending.drop_first(),
                    })
                    &&& u.outbox == t.outbox
                    &&& otherwise_same(t, u)
                },
                OfferView::AskHooks(data) => u == t && demand == DemandView::Hooks(
                    HookEvent::BeforeToolUse,
                    data,
                ),
            }
        }),
{
}

/// The hooks' answer settles the call that they were asked about, and no other.
pub proof fn law_hooks_settle_one_call(
    d: TurnDeps,
    t: TurnView,
    preparation: PreparationView,
    pending: Seq<RequestedView>,
    tool: RegisteredTool,
    answer: std::result::Result<Seq<HookPatchView>, AgentErrorView>,
)
    requires
        t.stage == (StageView::Prepare { preparation, pending }),
        pending.len() > 0,
        d.dispatcher.tools.find(pending[0].tool_name) == Some(tool),
    ensures
        ({
            let u = hooks_settled(d, t, answer);
            match hooks_answered(
                preparation,
                pending[0],
                tool.is_mutating,
                answer,
                d.dispatcher.limits,
            ) {
                Ok(after) => {
                    &&& u.stage == (StageView::Prepare {
                        preparation: after,
                        pending: pending.drop_first(),
                    })
                    &&& u.outbox == t.outbox
                    &&& otherwise_same(t, u)
                },
                Err(error) => failed_with(u, error),
            }
        }),
{
}

/// A call on which the hooks abort is not among those that run, whatever else the
/// batch holds; the turn goes on with the other calls.
pub proof fn law_aborted_call_is_not_run(
    d: TurnDeps,
    t: TurnView,
    preparation: PreparationView,
    pending: Seq<RequestedView>,
    hook: Seq<char>,
    reason: Seq<char>,
)
    requires
        t.stage == (StageView::Prepare { preparation, pending }),
        pending.len() > 0,
    ensures
        hooks_settled(d, t, Err(AgentErrorView::PluginAborted { hook, reason })).stage
            matches StageView::Prepare { preparation: after, pending: left } && {
            &&& left == pending.drop_first()
            &&& after.calls.len() == preparation.calls.len() + 1
            &&& after.calls.last().call_id == pending[0].call_id
            &&& after.calls.last().execution is Synthetic
            &&& !after.calls.last().execution->record.success
            &&& after.calls.last().execution->record.output.is_error
            &&& preparation.has_mutating ==> after.skip == Some(
                "[Tool skipped: previous tool aborted by plugin]"@,
            )
        },
{
}

/// Once all calls are prepared, each is stored in order, with the arguments that
/// it runs with, and the batch is started with exactly these calls.
pub proof fn law_prepared_calls_are_stored(
    d: TurnDeps,
    t: TurnView,
    rt: RuntimeView,
    cancelled: bool,
    preparation: PreparationView,
    i: int,
)
    requires
        t.stage == (StageView::Prepare { preparation, pending: Seq::empty() }),
        0 <= i < preparation.calls.len(),
    ensures
        ({
            let (u, demand) = advanced(d, t, rt, cancelled);
            &&& u.outbox.len() == t.outbox.len() + preparation.calls.len()
            &&& forall|k: int| 0 <= k < t.outbox.len() ==> #[trigger] u.outbox[k] == t.outbox[k]
            &&& u.outbox[t.outbox.len() + i] == OutgoingView::Persist(
                PayloadView::ToolCall {
                    call_id: preparation.calls[i].call_id,
                    tool_name: preparation.calls[i].tool_name,
                    arguments: preparation.calls[i].effective_arguments,
                },
            )
            &&& u.stage == StageView::Execute(
                BatchView { calls: preparation.calls, has_mutating: preparation.has_mutating },
            )
            &&& otherwise_same(t, u)
        }),
{
}

/// A batch with mutating tools runs its calls one after the other, from the first
/// on and with nothing answered yet.
pub proof fn law_mutating_batch_runs_serially(
    d: TurnDeps,
    t: TurnView,
    rt: RuntimeView,
    cancelled: bool,
    batch: BatchView,
)
    requires
        t.stage == StageView::Execute(batch),
        batch.has_mutating,
    ensures
        advanced(d, t, rt, cancelled).0 == (TurnView {
            stage: StageView::Serial(
                SerialView {
                    calls: batch.calls,
                    position: 0,
                    results: Seq::empty(),
                    cancelled: false,
                    stop_after_batch: false,
                },
            ),
            ..t
        }),
{
}

/// In a cancelled turn, a batch without mutating tools runs nothing: every call is
/// answered as cancelled.
pub proof fn law_cancelled_batch_runs_nothing(
    d: TurnDeps,
    t: TurnView,
    rt: RuntimeView,
    batch: BatchView,
    i: int,
)
    requires
        t.stage == StageView::Execute(batch),
        !batch.has_mutating,
        0 <= i < batch.calls.len(),
    ensures
        ({
            let (u, demand) = advanced(d, t, rt, true);
            &&& u.outbox == t.outbox
            &&& otherwise_same(t, u)
            &&& u.stage matches StageView::Results(outcome) && {
                &&& outcome.cancelled
                &&& !outcome.stop_after_batch
                &&& outcome.results.len() == batch.calls.len()
                &&& outcome.results[i].call_id == batch.calls[i].call_id
                &&& !outcome.results[i].success
                &&& outcome.results[i].output.is_error
                &&& has_room(d.dispatcher.limits, "[Tool cancelled]"@)
                    ==> outcome.results[i].output.content == "[Tool cancelled]"@
            }
        }),
{
    law_answers_go_one_for_one(
        batch.calls,
        0,
        "[Tool cancelled]"@,
        d.dispatcher.limits,
        i,
    );
}

/// Otherwise such a batch is announced and started whole: calls with a ready
/// result have it in their slot, and the turn waits for as many tools as there
/// are other calls.
pub proof fn law_parallel_batch_is_started(
    d: TurnDeps,
    t: TurnView,
    rt: RuntimeView,
    batch: BatchView,
    i: int,
)
    requires
        t.stage == StageView::Execute(batch),
        !batch.has_mutating,
        batch.calls.len() <= usize::MAX,
        running(batch.calls).len() <= usize::MAX,
        0 <= i < batch.calls.len(),
    ensures
        ({
            let (u, demand) = advanced(d, t, rt, false);
            &&& u.outbox.len() == t.outbox.len() + launch_events(batch.calls).len()
            &&& forall|k: int| 0 <= k < t.outbox.len() ==> #[trigger] u.outbox[k] == t.outbox[k]
            &&& forall|k: int|
                0 <= k < launch_events(batch.calls).len() ==> #[trigger] u.outbox[t.outbox.len()
                    + k] == OutgoingView::Notify(launch_events(batch.calls)[k])
            &&& otherwise_same(t, u)
            &&& u.stage matches StageView::Parallel { batch: started, left, started: under_way }
                && {
                &&& started.calls == batch.calls
                &&& started.slots.len() == batch.calls.len()
                &&& !started.stop_after_batch
                &&& !under_way
                &&& left == running(batch.calls).len()
                &&& match batch.calls[i].execution {
                    ExecutionView::Execute { .. } => started.slots[i] is None,
                    ExecutionView::Synthetic { record, .. } => started.slots[i] == Some(record),
                }
            }
        }),
{
    let (u, demand) = advanced(d, t, rt, false);
    assert forall|k: int| 0 <= k < launch_events(batch.calls).len() implies #[trigger] u.outbox[
    t.outbox.len() + k] == OutgoingView::Notify(launch_events(batch.calls)[k]) by {}
}

/// The tools of a parallel batch run at once: one run for each call without a
/// ready result, under the number of the call and with its input.
pub proof fn law_parallel_tools_run_at_once(
    d: TurnDeps,
    t: TurnView,
    rt: RuntimeView,
    cancelled: bool,
    batch: ParallelView,
    left: usize,
    k: int,
)
    requires
        t.stage == (StageView::Parallel { batch, left, started: false }),
        left > 0,
        batch.calls.len() <= usize::MAX,
        0 <= k < running(batch.calls).len(),
    ensures
        ({
            let (u, demand) = advanced(d, t, rt, cancelled);
            &&& u == (TurnView { stage: StageView::Parallel { batch, left, started: true }, ..t })
            &&& demand matches DemandView::Act(TurnActionView::RunTools(runs)) && {
                let index = running(batch.calls)[k] as int;
                &&& runs.len() == running(batch.calls).len()
                &&& runs[k].index == index
                &&& runs[k].input.call_id == batch.calls[index].call_id
                &&& runs[k].input.tool_name == batch.calls[index].tool_name
                &&& runs[k].input.arguments == batch.calls[index].effective_arguments
                &&& batch.calls[index].execution is Execute
            }
        }),
{
    let index = running(batch.calls)[k] as int;
    law_every_open_call_runs(batch.calls, index);
    assert(running(batch.calls).contains(index as usize));
}

/// While tools of a parallel batch are under way, the turn waits for them; when
/// none is left, the batch is over with what is in its slots.
pub proof fn law_parallel_batch_waits(
    d: TurnDeps,
    t: TurnView,
    rt: RuntimeView,
    cancelled: bool,
    batch: ParallelView,
    left: usize,
    records: Seq<RecordView>,
)
    requires
        t.stage == (StageView::Parallel { batch, left, started: true }),
        records.len() == batch.slots.len(),
        forall|k: int| 0 <= k < records.len() ==> #[trigger] batch.slots[k] == Some(records[k]),
    ensures
        left > 0 ==> advanced(d, t, rt, cancelled) == (
            t,
            DemandView::Act(TurnActionView::AwaitTool),
        ),
        left == 0 ==> advanced(d, t, rt, cancelled).0 == (TurnView {
            stage: StageView::Results(
                BatchOutcomeView {
                    results: records,
                    cancelled,
                    stop_after_batch: batch.stop_after_batch,
                },
            ),
            ..t
        }),
{
    if left == 0 {
        law_parallel_outcome(batch, cancelled, 0);
        let results = parallel_outcome(batch, cancelled)->Ok_0.results;
        assert forall|k: int| 0 <= k < records.len() implies results[k] == records[k] by {
            assert(batch.slots[k] == Some(records[k]));
            law_parallel_outcome(batch, cancelled, k);
        }
        assert(results =~= records);
    }
}

/// In a serial batch, the call that is up is announced and run alone, under its
/// number and with its input.
pub proof fn law_serial_call_runs_alone(
    d: TurnDeps,
    t: TurnView,
    rt: RuntimeView,
    cancelled: bool,
    batch: SerialView,
)
    requires
        0 <= batch.position < batch.calls.len() <= usize::MAX,
        batch.calls[batch.position].execution is Execute,
    ensures
        t.stage == StageView::Serial(batch) && !cancelled ==> advanced(d, t, rt, cancelled).0 == (
        TurnView {
            outbox: t.outbox.push(
                OutgoingView::Notify(
                    EventPayloadView::ToolCallStart {
                        call_id: batch.calls[batch.position].call_id,
                        tool_name: batch.calls[batch.position].tool_name,
                        arguments: batch.calls[batch.position].effective_arguments,
                    },
                ),
            ),
            stage: StageView::SerialRun(batch),
            ..t
        }),
        t.stage == StageView::SerialRun(batch) ==> ({
            let (u, demand) = advanced(d, t, rt, cancelled);
            &&& u == t
            &&& demand matches DemandView::Act(TurnActionView::RunTools(runs)) && {
                &&& runs.len() == 1
                &&& runs[0].index == batch.position
                &&& runs[0].input.call_id == batch.calls[batch.position].call_id
                &&& runs[0].input.tool_name == batch.calls[batch.position].tool_name
                &&& runs[0].input.arguments == batch.calls[batch.position].effective_arguments
            }
        }),
{
}

/// In a serial batch, a call with a ready result is not run: its result is taken
/// over, and an unknown tool is announced as an error.
pub proof fn law_serial_ready_result_is_taken(
    d: TurnDeps,
    t: TurnView,
    rt: RuntimeView,
    batch: SerialView,
    record: RecordView,
    error: Option<Seq<char>>,
)
    requires
        t.stage == StageView::Serial(batch),
        0 <= batch.position < batch.calls.len(),
        batch.calls[batch.position].execution == (ExecutionView::Synthetic { record, error }),
    ensures
        ({
            let (u, demand) = advanced(d, t, rt, false);
            &&& u.stage matches StageView::Serial(after) && after.results == batch.results.push(
                record,
            ) && after.position == batch.position + 1 && after.calls == batch.calls
            &&& u.outbox == match error {
                Some(name) => t.outbox.push(
                    OutgoingView::Notify(
                        EventPayloadView::Error(AgentErrorView::ToolNotFound(name)),
                    ),
                ),
                None => t.outbox,
            }
            &&& otherwise_same(t, u)
        }),
{
}

/// A serial batch is over behind its last call, with one result per call.
pub proof fn law_serial_batch_ends(
    d: TurnDeps,
    t: TurnView,
    rt: RuntimeView,
    batch: SerialView,
)
    requires
        t.stage == StageView::Serial(batch),
        batch.position == batch.calls.len(),
    ensures
        advanced(d, t, rt, false).0 == (TurnView {
            stage: StageView::Results(
                BatchOutcomeView {
                    results: batch.results,
                    cancelled: batch.cancelled,
                    stop_after_batch: batch.stop_after_batch,
                },
            ),
            ..t
        }),
{
}

/// The end of a tool is announced for the call that it ran, and hooks are asked
/// about it before the result counts.
pub proof fn law_ended_tool_is_announced(
    d: TurnDeps,
    t: TurnView,
    index: usize,
    completion: CompletionView,
    duration_ms: u64,
    call: PreparedView,
)
    requires
        match t.stage {
            StageView::SerialRun(batch) => call == batch.calls[batch.position],
            StageView::Parallel { batch, left, .. } => call == batch.calls[index as int] && left
                > 0,
            _ => false,
        },
    ensures
        ({
            let u = turn_tool_ended(d, t, index, completion, duration_ms);
            let raw = raw_of(call, completion, duration_ms, d.dispatcher.limits);
            let events = end_events(raw);
            &&& u.outbox.len() == t.outbox.len() + events.len()
            &&& forall|k: int| 0 <= k < t.outbox.len() ==> #[trigger] u.outbox[k] == t.outbox[k]
            &&& u.outbox.last() == OutgoingView::Notify(events.last())
            &&& u.outbox[t.outbox.len() as int] == OutgoingView::Notify(events[0])
            &&& u.stage matches StageView::After { run, index: place, raw: ended } && {
                &&& place == index
                &&& ended == raw
                &&& match t.stage {
                    StageView::SerialRun(batch) => run == BatchRunView::Serial(batch),
                    StageView::Parallel { batch, left, .. } => run == BatchRunView::Parallel(
                        batch,
                        (left - 1) as usize,
                    ),
                    _ => false,
                }
            }
            &&& otherwise_same(t, u)
        }),
{
}

/// A result that the hooks have seen counts for its call: in a serial batch it is
/// recorded, in a parallel one it fills the slot of the call and no other. An
/// abort by a hook is remembered; any other error fails the turn.
pub proof fn law_seen_result_counts(
    d: TurnDeps,
    t: TurnView,
    run: BatchRunView,
    index: usize,
    raw: RawView,
    answer: std::result::Result<Seq<HookPatchView>, AgentErrorView>,
    k: int,
)
    requires
        t.stage == (StageView::After { run, index, raw }),
        run matches BatchRunView::Parallel(batch, _) ==> index < batch.slots.len(),
    ensures
        ({
            let u = hooks_settled(d, t, answer);
            match completed_of(raw, answer, d.dispatcher.limits) {
                Ok(done) => {
                    &&& u.outbox == t.outbox
                    &&& otherwise_same(t, u)
                    &&& match run {
                        BatchRunView::Serial(batch) => u.stage == StageView::Serial(
                            serial_record(batch, done, d.dispatcher.limits),
                        ),
                        BatchRunView::Parallel(batch, left) => {
                            &&& u.stage matches StageView::Parallel {
                                batch: after,
                                left: remaining,
                                started,
                            } && {
                                &&& started
                                &&& remaining == left
                                &&& after.calls == batch.calls
                                &&& after.slots.len() == batch.slots.len()
                                &&& after.slots[index as int] == Some(done.record)
                                &&& 0 <= k < batch.slots.len() && k != index ==> after.slots[k]
                                    == batch.slots[k]
                                &&& after.stop_after_batch == (batch.stop_after_batch
                                    || done.after_tool_abort)
                            }
                        },
                    }
                },
                Err(error) => failed_with(u, error),
            }
        }),
{
}

/// Every result of a batch is stored, in order and with its output, before the
/// turn goes on.
pub proof fn law_results_are_stored(
    d: TurnDeps,
    t: TurnView,
    rt: RuntimeView,
    cancelled: bool,
    batch: BatchOutcomeView,
    i: int,
)
    requires
        t.stage == StageView::Results(batch),
        0 <= i < batch.results.len(),
    ensures
        ({
            let (u, demand) = advanced(d, t, rt, cancelled);
            &&& u.outbox.len() == t.outbox.len() + batch.results.len()
            &&& forall|k: int| 0 <= k < t.outbox.len() ==> #[trigger] u.outbox[k] == t.outbox[k]
            &&& u.outbox[t.outbox.len() + i] == OutgoingView::Persist(
                PayloadView::ToolResult {
                    call_id: batch.results[i].call_id,
                    output: batch.results[i].output,
                },
            )
            &&& u.stage == (StageView::Judge {
                count: batch.results.len() as int,
                cancelled: batch.cancelled,
                stop: batch.stop_after_batch,
            })
            &&& otherwise_same(t, u)
        }),
{
}

/// Behind a batch, its calls are counted. A cancelled turn ends; one above its
/// limit asks a last time without tools, which is announced and noted with the
/// limit; any other asks again, without tools if a hook has stopped them.
pub proof fn law_batch_is_judged(
    d: TurnDeps,
    t: TurnView,
    rt: RuntimeView,
    now_cancelled: bool,
    count: int,
    cancelled: bool,
    stop: bool,
)
    requires
        t.stage == (StageView::Judge { count, cancelled, stop }),
        0 <= count,
        t.tool_calls_count + count <= usize::MAX,
    ensures
        ({
            let (u, demand) = advanced(d, t, rt, now_cancelled);
            let limit = d.config.max_tool_calls_per_turn;
            let above = t.tool_calls_count + count > limit;
            &&& u.tool_calls_count == t.tool_calls_count + count
            &&& cancelled ==> u.outbox == t.outbox && u.stage == (StageView::Ending {
                cancelled: true,
                assistant_output: Seq::empty(),
            }) && u.allow_tools == t.allow_tools && u.limit_reached == t.limit_reached
            &&& !cancelled ==> u.stage is Request
            &&& !cancelled && above ==> {
                &&& !u.allow_tools
                &&& u.limit_reached
                &&& u.outbox.len() == t.outbox.len() + 2
                &&& forall|k: int| 0 <= k < t.outbox.len() ==> #[trigger] u.outbox[k] == t.outbox[k]
                &&& u.outbox[t.outbox.len() as int] == OutgoingView::Notify(
                    EventPayloadView::Error(AgentErrorView::MaxToolCallsExceeded { limit }),
                )
                &&& u.outbox.last() == OutgoingView::Persist(
                    PayloadView::SystemMessage {
                        content: "[TOOL_LIMIT_REACHED] You have reached the maximum number of tool calls ("@
                            + decimal(limit as nat)
                            + ") for this turn. You MUST NOT call any more tools. Summarize your progress and provide a final response."@,
                    },
                )
            }
            &&& !cancelled && !above ==> u.allow_tools == (t.allow_tools && !stop)
                && u.limit_reached == t.limit_reached && u.outbox == t.outbox
            &&& otherwise_same(
                TurnView {
                    tool_calls_count: u.tool_calls_count,
                    allow_tools: u.allow_tools,
                    limit_reached: u.limit_reached,
                    ..t
                },
                u,
            )
        }),
{
}

// ---------------------------------------------------------------------------
// Compaction
// ---------------------------------------------------------------------------
/// Hooks are told how large a context is before it is compacted, and a compaction
/// that they let pass is planned next.
pub proof fn law_compaction_is_told(
    d: TurnDeps,
    t: TurnView,
    rt: RuntimeView,
    cancelled: bool,
    patches: Seq<HookPatchView>,
)
    requires
        t.stage is Gate,
        rt.context.visible.len() <= usize::MAX,
    ensures
        advanced(d, t, rt, cancelled).0 == t,
        advanced(d, t, rt, cancelled).1 == DemandView::Hooks(
            HookEvent::BeforeCompact,
            HookDataView::BeforeCompact {
                message_count: rt.context.visible.len() as usize,
                estimated_tokens: estimated(rt.context.visible),
            },
        ),
        hooks_settled(d, t, Ok(patches)) == (TurnView { stage: StageView::Compact, ..t }),
{
}

/// The compaction model is asked to summarise exactly the messages that the plan
/// replaces, with the compaction prompt and without tools.
pub proof fn law_summary_is_asked_for(
    d: TurnDeps,
    t: TurnView,
    rt: RuntimeView,
    cancelled: bool,
    plan: PlanView,
    i: int,
)
    requires
        t.stage is Compact,
        plan_of(rt.ledger, rt.context.latest) == Ok::<PlanView, AgentErrorView>(plan),
        0 <= i < plan.compactable.len(),
    ensures
        advanced(d, t, rt, cancelled).0.stage matches StageView::Ask { plan: kept, request } ==> {
            &&& kept == plan
            &&& request.model_id == d.compact_model_id@
            &&& request.messages.len() == plan.compactable.len() + 1
            &&& request.messages[0] == (MessageView::System { content: d.compact_prompt@ })
            &&& request.messages[i + 1] == provider_message(plan.compactable[i])
            &&& request.tools.len() == 0
            &&& otherwise_same(t, advanced(d, t, rt, cancelled).0)
            &&& advanced(d, t, rt, cancelled).0.outbox == t.outbox
        },
        d.compact_capabilities.vision ==> advanced(d, t, rt, cancelled).0.stage is Ask,
{
}

/// Where nothing can be compacted, the request is made as it is, unless the
/// provider has refused it before. Where no summary can be asked for, the context
/// is settled without one.
pub proof fn law_compaction_without_summary(
    d: TurnDeps,
    t: TurnView,
    rt: RuntimeView,
    cancelled: bool,
    source: Seq<Seq<char>>,
)
    ensures
        t.stage is Compact ==> match plan_of(rt.ledger, rt.context.latest) {
            Err(error) => if t.retried {
                failed_with(advanced(d, t, rt, cancelled).0, error)
            } else {
                advanced(d, t, rt, cancelled).0 == (TurnView { stage: StageView::Send, ..t })
            },
            Ok(plan) => advanced(d, t, rt, cancelled).0.stage is Ask || exists|error: AgentErrorView|
                error is InputValidation && advanced(d, t, rt, cancelled).0
                    == #[trigger] summarised(t, rt, plan, Err(error)),
        },
        t.stage matches StageView::Ask { plan, .. } ==> turn_opened(t, rt, Err(source), cancelled)
            == summarised(
            t,
            rt,
            plan,
            Err(
                AgentErrorView::ProviderError {
                    message: "failed to start compact chat request"@,
                    source: seq!["compact model failed to start chat request"@] + source,
                    retryable: false,
                },
            ),
        ),
{
    if t.stage is Compact {
        if let Ok(plan) = plan_of(rt.ledger, rt.context.latest) {
            if let Err(error) = summary_request(d, plan) {
                assert(error is InputValidation);
                assert(advanced(d, t, rt, cancelled).0 == summarised(t, rt, plan, Err(error)));
            }
        }
    }
}

/// The request for a summary goes to the host as it is, and its answer is gathered
/// from nothing, piece by piece.
pub proof fn law_summary_is_gathered(
    d: TurnDeps,
    t: TurnView,
    rt: RuntimeView,
    cancelled: bool,
    delta: Seq<char>,
)
    ensures
        t.stage matches StageView::Ask { plan, request } ==> {
            &&& advanced(d, t, rt, cancelled) == (
                t,
                DemandView::Act(TurnActionView::OpenChat(ChatRole::Compaction, request)),
            )
            &&& turn_opened(t, rt, Ok(()), cancelled) == (TurnView {
                stage: StageView::Summarize { plan, text: Seq::empty() },
                ..t
            })
        },
        t.stage matches StageView::Summarize { plan, text } ==> {
            &&& advanced(d, t, rt, cancelled) == (t, DemandView::Act(TurnActionView::ReadChat))
            &&& turn_read(
                d,
                t,
                rt,
                StreamItemView::Event(ChatEventView::TextDelta(delta)),
                cancelled,
            ) == (TurnView { stage: StageView::Summarize { plan, text: text + delta }, ..t })
        },
        t.stage is Stream ==> advanced(d, t, rt, cancelled) == (
            t,
            DemandView::Act(TurnActionView::ReadChat),
        ),
{
}

/// A compaction that succeeds is stored with its marker and announced, and the
/// request is made. One that was cancelled ends the turn. One that fails is passed
/// over, unless the provider has refused the request before.
pub proof fn law_compaction_is_stored(
    t: TurnView,
    rt: RuntimeView,
    plan: PlanView,
    attempt: std::result::Result<Seq<char>, AgentErrorView>,
)
    ensures
        ({
            let u = summarised(t, rt, plan, attempt);
            match settled_marker(plan, attempt, rt.context.context_window) {
                Ok(marker) => {
                    &&& u.outbox == t.outbox.push(
                        OutgoingView::Persist(
                            PayloadView::Metadata {
                                key: MetadataKey::ContextCompaction,
                                value: MetadataValueView::ContextCompaction(marker),
                            },
                        ),
                    ).push(OutgoingView::Notify(EventPayloadView::ContextCompacted))
                    &&& u.stage is Send
                    &&& otherwise_same(t, u)
                },
                Err(AgentErrorView::RequestCancelled) => {
                    &&& u.outbox == t.outbox
                    &&& u.stage == (StageView::Ending {
                        cancelled: true,
                        assistant_output: Seq::empty(),
                    })
                    &&& otherwise_same(t, u)
                },
                Err(error) => if t.retried {
                    failed_with(u, error)
                } else {
                    u == (TurnView { stage: StageView::Send, ..t })
                },
            }
        }),
{
}

/// A complete summary is settled whole, and a request for one that could not be
/// sent or broke off is settled as an error.
pub proof fn law_summary_is_settled(
    d: TurnDeps,
    t: TurnView,
    rt: RuntimeView,
    plan: PlanView,
    text: Seq<char>,
    done: ChatEventView,
    cancelled: bool,
)
    requires
        t.stage == (StageView::Summarize { plan, text }),
        done is Done,
    ensures
        turn_read(d, t, rt, StreamItemView::Event(done), cancelled) == summarised(
            t,
            rt,
            plan,
            Ok(text),
        ),
        turn_read(d, t, rt, StreamItemView::End, true) == summarised(
            t,
            rt,
            plan,
            Err(AgentErrorView::RequestCancelled),
        ),
        exists|error: AgentErrorView|
            !(error is RequestCancelled) && turn_read(d, t, rt, StreamItemView::End, false)
                == #[trigger] summarised(t, rt, plan, Err(error)),
{
    let error = premature_end(
        TextPurpose::Compaction,
    );
    assert(turn_read(d, t, rt, StreamItemView::End, false) == summarised(t, rt, plan, Err(error)));
}

// ---------------------------------------------------------------------------
// End
// ---------------------------------------------------------------------------
/// Hooks of an ending turn are told its last text, its number of tool calls and
/// whether it was cancelled.
pub proof fn law_end_is_told(
    d: TurnDeps,
    t: TurnView,
    rt: RuntimeView,
    now_cancelled: bool,
    cancelled: bool,
    assistant_output: Seq<char>,
)
    requires
        t.stage == (StageView::Ending { cancelled, assistant_output }),
    ensures
        advanced(d, t, rt, now_cancelled) == (
            t,
            DemandView::Hooks(
                HookEvent::TurnEnd,
                HookDataView::TurnEnd {
                    assistant_output,
                    tool_calls_count: t.tool_calls_count,
                    cancelled,
                },
            ),
        ),
{
}

/// Behind the hooks, a cancelled turn is announced as cancelled, one that reached
/// its limit fails with it, and any other comes to its checkpoint. An error of a
/// hook fails the turn.
pub proof fn law_ending_is_settled(
    d: TurnDeps,
    t: TurnView,
    cancelled: bool,
    assistant_output: Seq<char>,
    patches: Seq<HookPatchView>,
    error: AgentErrorView,
)
    requires
        t.stage == (StageView::Ending { cancelled, assistant_output }),
    ensures
        cancelled ==> hooks_settled(d, t, Ok(patches)) == (TurnView {
            outbox: t.outbox.push(OutgoingView::Notify(EventPayloadView::TurnCancelled)),
            stage: StageView::Finished(TurnOutcomeView::Cancelled),
            ..t
        }),
        !cancelled && t.limit_reached ==> hooks_settled(d, t, Ok(patches)) == (TurnView {
            stage: StageView::Finished(
                TurnOutcomeView::Failed(
                    AgentErrorView::MaxToolCallsExceeded {
                        limit: d.config.max_tool_calls_per_turn,
                    },
                ),
            ),
            ..t
        }),
        !cancelled && !t.limit_reached ==> hooks_settled(d, t, Ok(patches)) == (TurnView {
            stage: StageView::Checkpoint,
            ..t
        }),
        failed_with(hooks_settled(d, t, Err(error)), error),
{
}

/// Memories are extracted at every so many turns, as configured, where they are
/// stored at all: from the events behind the last checkpoint, for the namespace of
/// the session and with the memory model. Otherwise the turn completes at once.
pub proof fn law_checkpoint_extracts_memories(
    d: TurnDeps,
    t: TurnView,
    rt: RuntimeView,
    cancelled: bool,
)
    requires
        t.stage is Checkpoint,
        d.config.memory_checkpoint_interval > 0,
    ensures
        ({
            let (u, demand) = advanced(d, t, rt, cancelled);
            let due = d.memory_model_id is Some && rt.turn_index
                % d.config.memory_checkpoint_interval == 0;
            &&& due ==> u == t && (demand matches DemandView::Act(TurnActionView::Extract(run)) && {
                &&& run.namespace == rt.memory_namespace
                &&& run.source == "checkpoint"@
                &&& run.model_id == d.memory_model_id->0@
                &&& (run.last_seq, run.stage) == extraction_start(
                    rt.ledger,
                    rt.last_memory_checkpoint_seq,
                )
            })
            &&& !due ==> u == (TurnView {
                outbox: t.outbox.push(OutgoingView::Notify(EventPayloadView::TurnComplete)),
                stage: StageView::Finished(TurnOutcomeView::Completed),
                ..t
            })
        }),
{
}

/// An extraction that covered events is noted with the last of them before the
/// turn completes; one that failed or covered none leaves no note, and the turn
/// completes all the same.
pub proof fn law_extraction_is_noted(
    t: TurnView,
    seq: u64,
    error: AgentErrorView,
)
    ensures
        turn_extracted(t, Ok(Some(seq))) == (TurnView {
            outbox: t.outbox.push(
                OutgoingView::Persist(
                    PayloadView::Metadata {
                        key: MetadataKey::MemoryCheckpoint,
                        value: MetadataValueView::MemoryCheckpoint(seq),
                    },
                ),
            ).push(OutgoingView::Notify(EventPayloadView::TurnComplete)),
            stage: StageView::Finished(TurnOutcomeView::Completed),
            ..t
        }),
        turn_extracted(t, Ok(None)) == (TurnView {
            outbox: t.outbox.push(OutgoingView::Notify(EventPayloadView::TurnComplete)),
            stage: StageView::Finished(TurnOutcomeView::Completed),
            ..t
        }),
        turn_extracted(t, Err(error)) == turn_extracted(t, Ok(None)),
{
}

// ---------------------------------------------------------------------------
// What goes out
// ---------------------------------------------------------------------------
/// What is to go out goes out in order, before the turn takes another step: a
/// payload for the ledger under the next number, an event for the caller under the
/// next event number, each as it was put in.
pub proof fn law_outbox_goes_out_in_order(
    d: TurnDeps,
    t: TurnView,
    rt: RuntimeView,
    cancelled: bool,
    now: Timestamp,
)
    requires
        t.saving is None,
        t.dispatch is None,
        t.outbox.len() > 0,
    ensures
        ({
            let (u, after, action) = turn_next(d, t, rt, cancelled, now);
            &&& u.outbox == t.outbox.drop_first()
            &&& u.stage == t.stage
            &&& match t.outbox[0] {
                OutgoingView::Persist(payload) => {
                    &&& after == rt
                    &&& action matches TurnActionView::Save(event) && {
                        &&& event.seq == next_number(rt.ledger)
                        &&& event.timestamp == now
                        &&& event.payload == payload
                        &&& u.saving == Some(event)
                    }
                },
                OutgoingView::Notify(payload) => {
                    &&& u.saving is None
                    &&& after.ledger == rt.ledger
                    &&& rt.event_sequence < u64::MAX ==> after.event_sequence == rt.event_sequence
                        + 1
                    &&& action matches TurnActionView::Emit(event) && {
                        &&& event.session_id == rt.session_id
                        &&& event.turn_id == t.turn_id
                        &&& event.timestamp == now
                        &&& event.sequence == rt.event_sequence
                        &&& event.payload == payload
                    }
                },
            }
        }),
{
}

/// A stored event joins the ledger as it was handed out, and the turn goes on
/// where it was; one that could not be stored fails the turn and leaves the
/// session as it was.
pub proof fn law_stored_event_lets_turn_go_on(
    t: TurnView,
    rt: RuntimeView,
    event: LedgerEventView,
    source: Seq<Seq<char>>,
)
    requires
        t.saving == Some(event),
        !(event.payload is Metadata),
    ensures
        turn_saved(t, rt, Ok(())).0 == (TurnView { saving: None, ..t }),
        turn_saved(t, rt, Ok(())).1.ledger == rt.ledger.push(event),
        turn_saved(t, rt, Err(source)).1 == rt,
        turn_saved(t, rt, Err(source)).0.stage matches StageView::Finished(
            TurnOutcomeView::Failed(error),
        ) && error is StorageError && failed_with(turn_saved(t, rt, Err(source)).0, error),
{
}

/// While an event is being stored, or a hook asked, the turn asks for that again
/// and does nothing else.
pub proof fn law_open_demand_is_repeated(
    d: TurnDeps,
    t: TurnView,
    rt: RuntimeView,
    cancelled: bool,
    now: Timestamp,
)
    ensures
        t.saving matches Some(event) ==> turn_next(d, t, rt, cancelled, now) == (
            t,
            rt,
            TurnActionView::Save(event),
        ),
        t.saving is None ==> (t.dispatch matches Some(dispatch) ==> turn_next(
            d,
            t,
            rt,
            cancelled,
            now,
        ) == (t, rt, TurnActionView::CallHook(dispatch.calls[dispatch.position]))),
{
}

} // verus!
