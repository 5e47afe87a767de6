//! The rules of a turn: how its state follows from what the host reports.

use crate::application::context_manager::{
    capped, compact_error, estimated, plan_of, settled_marker, PlanView,
};
use crate::application::hook_registry::{absorbed, calls_of, DispatchView};
use crate::application::memory_extraction::{extraction_start, ExtractionView};
use crate::application::memory_manager::{at_most, memory_storage_error, merged, query_of};
use crate::application::prompt_builder::{not_blank, prompt_sections};
use crate::application::request_builder::request_of;
use crate::application::session_runtime::{persisted, RuntimeView};
use crate::application::stream::{
    collected, consumed, provider_error, AnswerView, CollectedView, ConsumedView, TextPurpose,
};
use crate::application::tool_batch::{
    answered_from, launch_events, parallel_outcome, ready_record, running, serial_next,
    serial_record, ParallelView, SerialStepView, SerialView,
};
use crate::application::tool_dispatcher::{
    after_data, any_mutating, completed_of, end_events, hooks_answered, input_of, mutates, offered,
    raw_of, start_event, BatchOutcomeView, BatchView, CompletionView, OfferView, PreparationView,
    PreparedView, RecordView, RequestedView,
};
use crate::application::turn_state::{
    BatchRunView, ChatRole, OutgoingView, StageView, ToolRunView, TurnActionView, TurnDeps,
    TurnView,
};
use crate::clock::Timestamp;
use crate::domain::error::AgentErrorView;
use crate::domain::event::{AgentEventView, EventPayloadView};
use crate::domain::hook::{HookDataView, HookEvent, HookPatchView, HookResultView};
use crate::domain::ledger::{
    next_number, successor, LedgerEventView, MetadataKey, MetadataValueView, PayloadView,
};
use crate::domain::state::TurnOutcomeView;
use crate::domain::types::{ContentBlockView, MemoryView, MessageStatus, MessageView};
use crate::ports::model::{ChatRequestView, StreamItemView, ToolDefinitionView};
use crate::text::{decimal, joined, utf8_len};
use vstd::prelude::*;

verus! {

// ---------------------------------------------------------------------------
// What a turn stores and announces
// ---------------------------------------------------------------------------
/// An assistant message for the ledger.
pub open spec fn assistant_payload(text: Seq<char>, status: MessageStatus) -> PayloadView {
    PayloadView::AssistantMessage { content: seq![ContentBlockView::Text(text)], status }
}

/// The notice that no more tools may be called.
pub open spec fn limit_notice(limit: usize) -> Seq<char> {
    "[TOOL_LIMIT_REACHED] You have reached the maximum number of tool calls ("@ + decimal(
        limit as nat,
    ) + ") for this turn. You MUST NOT call any more tools. Summarize your progress and provide a final response."@
}

/// The system messages among `messages`, for the ledger.
pub open spec fn skill_payloads(messages: Seq<MessageView>) -> Seq<OutgoingView>
    decreases messages.len(),
{
    if messages.len() == 0 {
        Seq::empty()
    } else {
        let before = skill_payloads(messages.drop_last());
        match messages.last() {
            MessageView::System { content } => before.push(
                OutgoingView::Persist(PayloadView::SystemMessage { content }),
            ),
            _ => before,
        }
    }
}

/// Prepared calls, for the ledger.
pub open spec fn call_payloads(calls: Seq<PreparedView>) -> Seq<OutgoingView> {
    calls.map_values(
        |call: PreparedView|
            OutgoingView::Persist(
                PayloadView::ToolCall {
                    call_id: call.call_id,
                    tool_name: call.tool_name,
                    arguments: call.effective_arguments,
                },
            ),
    )
}

/// Results, for the ledger.
pub open spec fn result_payloads(results: Seq<RecordView>) -> Seq<OutgoingView> {
    results.map_values(
        |record: RecordView|
            OutgoingView::Persist(
                PayloadView::ToolResult { call_id: record.call_id, output: record.output },
            ),
    )
}

/// Events, for the caller.
pub open spec fn announced(events: Seq<EventPayloadView>) -> Seq<OutgoingView> {
    events.map_values(|event: EventPayloadView| OutgoingView::Notify(event))
}

/// The sections that the patches of a turn start append, without blank ones.
pub open spec fn appended_sections(patches: Seq<HookPatchView>) -> Seq<Seq<char>>
    decreases patches.len(),
{
    if patches.len() == 0 {
        Seq::empty()
    } else {
        let before = appended_sections(patches.drop_last());
        match patches.last() {
            HookPatchView::TurnStart { append_dynamic_sections } => before + not_blank(
                append_dynamic_sections,
            ),
            HookPatchView::BeforeToolUse { .. } => before,
        }
    }
}

// ---------------------------------------------------------------------------
// Requests
// ---------------------------------------------------------------------------
/// The system prompt of a turn.
pub open spec fn turn_prompt(d: TurnDeps, t: TurnView, rt: RuntimeView) -> Seq<char> {
    joined(
        prompt_sections(
            d.config.system_instructions.deep_view(),
            rt.system_prompt_override,
            d.config.personality.deep_view(),
            d.config.environment_context.deep_view(),
            d.implicit_skills.deep_view(),
            d.plugins.deep_view(),
            t.memories,
            t.sections,
        ),
        "\n\n"@,
    )
}

/// The request of a turn to the session's model, or why it cannot be made.
pub open spec fn turn_request(d: TurnDeps, t: TurnView, rt: RuntimeView) -> std::result::Result<
    ChatRequestView,
    AgentErrorView,
> {
    request_of(
        turn_prompt(d, t, rt),
        rt.context.visible,
        d.capabilities,
        d.tool_definitions.deep_view(),
        rt.model_id,
        t.allow_tools,
    )
}

/// Bytes of tool definitions.
pub open spec fn tools_size(tools: Seq<ToolDefinitionView>) -> nat
    decreases tools.len(),
{
    if tools.len() == 0 {
        0
    } else {
        tools_size(tools.drop_last()) + utf8_len(tools.last().name) + utf8_len(
            tools.last().description,
        ) + utf8_len(tools.last().parameters)
    }
}

/// Whether the next request calls for a compaction first.
pub open spec fn compaction_due(d: TurnDeps, t: TurnView, rt: RuntimeView) -> bool {
    let tools_bytes = if t.allow_tools {
        capped(tools_size(d.tool_definitions.deep_view()))
    } else {
        0
    };
    capped(
        (estimated(rt.context.visible) + capped(utf8_len(turn_prompt(d, t, rt))) / 4 + tools_bytes
            / 4) as nat,
    ) > rt.context.compact_limit
}

/// The request for a summary, or why it cannot be made.
pub open spec fn summary_request(d: TurnDeps, plan: PlanView) -> std::result::Result<
    ChatRequestView,
    AgentErrorView,
> {
    request_of(
        d.compact_prompt@,
        plan.compactable,
        d.compact_capabilities,
        Seq::empty(),
        d.compact_model_id@,
        false,
    )
}

/// Whether a memory checkpoint is due after the current turn.
pub open spec fn checkpoint_due(d: TurnDeps, rt: RuntimeView) -> bool {
    &&& d.memory_model_id is Some
    &&& d.config.memory_checkpoint_interval > 0
    &&& rt.turn_index % d.config.memory_checkpoint_interval == 0
}

/// The extraction of a memory checkpoint.
pub open spec fn checkpoint_run(d: TurnDeps, rt: RuntimeView) -> ExtractionView {
    let (last_seq, stage) = extraction_start(rt.ledger, rt.last_memory_checkpoint_seq);
    ExtractionView {
        namespace: rt.memory_namespace,
        source: "checkpoint"@,
        model_id: d.memory_model_id->0@,
        last_seq,
        stage,
    }
}

/// The runs of a parallel batch.
pub open spec fn parallel_runs(batch: ParallelView) -> Seq<ToolRunView> {
    running(batch.calls).map_values(
        |index: usize| ToolRunView { index, input: input_of(batch.calls[index as int]) },
    )
}

// ---------------------------------------------------------------------------
// Ends
// ---------------------------------------------------------------------------
/// A turn that fails at once: nothing more is stored or announced.
pub open spec fn failed(t: TurnView, error: AgentErrorView) -> TurnView {
    TurnView {
        outbox: Seq::empty(),
        saving: None,
        dispatch: None,
        stage: StageView::Finished(TurnOutcomeView::Failed(error)),
        ..t
    }
}

/// A cancelled turn: what the assistant said is stored as interrupted, and
/// hooks are told.
pub open spec fn interrupted_turn(t: TurnView, text: Seq<char>) -> TurnView {
    TurnView {
        outbox: if text.len() > 0 {
            t.outbox.push(
                OutgoingView::Persist(assistant_payload(text, MessageStatus::Incomplete)),
            )
        } else {
            t.outbox
        },
        stage: StageView::Ending { cancelled: true, assistant_output: text },
        ..t
    }
}

/// A completed turn: its last event says so.
pub open spec fn completed(t: TurnView) -> TurnView {
    TurnView {
        outbox: t.outbox.push(OutgoingView::Notify(EventPayloadView::TurnComplete)),
        stage: StageView::Finished(TurnOutcomeView::Completed),
        ..t
    }
}

// ---------------------------------------------------------------------------
// Compaction
// ---------------------------------------------------------------------------
/// A turn whose context cannot be compacted: it fails where the provider has
/// refused the request, and otherwise sends the request as it is.
pub open spec fn uncompacted(t: TurnView, error: AgentErrorView) -> TurnView {
    if t.retried {
        failed(t, error)
    } else {
        TurnView { stage: StageView::Send, ..t }
    }
}

/// A turn after the attempt to have its context summarised: the marker is
/// stored and announced, and the request is sent.
pub open spec fn summarised(
    t: TurnView,
    rt: RuntimeView,
    plan: PlanView,
    attempt: std::result::Result<Seq<char>, AgentErrorView>,
) -> TurnView {
    match settled_marker(plan, attempt, rt.context.context_window) {
        Ok(marker) => TurnView {
            outbox: t.outbox.push(
                OutgoingView::Persist(
                    PayloadView::Metadata {
                        key: MetadataKey::ContextCompaction,
                        value: MetadataValueView::ContextCompaction(marker),
                    },
                ),
            ).push(OutgoingView::Notify(EventPayloadView::ContextCompacted)),
            stage: StageView::Send,
            ..t
        },
        Err(AgentErrorView::RequestCancelled) => interrupted_turn(t, Seq::empty()),
        Err(error) => uncompacted(t, error),
    }
}

/// A turn that plans a compaction.
pub open spec fn planned(d: TurnDeps, t: TurnView, rt: RuntimeView) -> TurnView {
    match plan_of(rt.ledger, rt.context.latest) {
        Err(error) => uncompacted(t, error),
        Ok(plan) => match summary_request(d, plan) {
            Ok(request) => TurnView { stage: StageView::Ask { plan, request }, ..t },
            Err(error) => summarised(t, rt, plan, Err(error)),
        },
    }
}

// ---------------------------------------------------------------------------
// Tools
// ---------------------------------------------------------------------------
/// A turn that runs a prepared batch: one call after the other where a tool
/// changes something, and otherwise all at once.
pub open spec fn launched(d: TurnDeps, t: TurnView, batch: BatchView, cancelled: bool) -> TurnView {
    if batch.has_mutating {
        TurnView {
            stage: StageView::Serial(
                SerialView {
                    calls: batch.calls,
                    position: 0,
                    results: Seq::empty(),
                    cancelled: false,
                    stop_after_batch: false,
                },
            ),
            ..t
        }
    } else if cancelled {
        TurnView {
            stage: StageView::Results(
                BatchOutcomeView {
                    results: answered_from(
                        batch.calls,
                        0,
                        "[Tool cancelled]"@,
                        d.dispatcher.limits,
                    ),
                    cancelled: true,
                    stop_after_batch: false,
                },
            ),
            ..t
        }
    } else {
        TurnView {
            outbox: t.outbox + announced(launch_events(batch.calls)),
            stage: StageView::Parallel {
                batch: ParallelView {
                    calls: batch.calls,
                    slots: batch.calls.map_values(|call: PreparedView| ready_record(call)),
                    stop_after_batch: false,
                },
                left: running(batch.calls).len() as usize,
                started: false,
            },
            ..t
        }
    }
}

/// A turn whose serial batch goes on.
pub open spec fn stepped(d: TurnDeps, t: TurnView, batch: SerialView, cancelled: bool) -> TurnView {
    let (after, step) = serial_next(batch, cancelled, d.dispatcher.limits);
    match step {
        SerialStepView::Finished => TurnView {
            stage: StageView::Results(
                BatchOutcomeView {
                    results: after.results,
                    cancelled: after.cancelled,
                    stop_after_batch: after.stop_after_batch,
                },
            ),
            ..t
        },
        SerialStepView::Recorded(event) => TurnView {
            outbox: match event {
                Some(payload) => t.outbox.push(OutgoingView::Notify(payload)),
                None => t.outbox,
            },
            stage: StageView::Serial(after),
            ..t
        },
        SerialStepView::Execute => TurnView {
            outbox: t.outbox.push(
                OutgoingView::Notify(start_event(after.calls[after.position])),
            ),
            stage: StageView::SerialRun(after),
            ..t
        },
    }
}

/// How a turn goes on after a batch: a cancelled turn ends; above the limit of
/// tool calls the model is asked for a last answer; and once a hook has
/// stopped the batch, no more tools are offered.
pub open spec fn judged(d: TurnDeps, t: TurnView, count: int, cancelled: bool, stop: bool) -> TurnView {
    let limit = d.config.max_tool_calls_per_turn;
    let total = capped((t.tool_calls_count + count) as nat);
    let counted = TurnView { tool_calls_count: total, ..t };
    if cancelled {
        interrupted_turn(counted, Seq::empty())
    } else if total > limit {
        TurnView {
            outbox: counted.outbox.push(
                OutgoingView::Notify(
                    EventPayloadView::Error(AgentErrorView::MaxToolCallsExceeded { limit }),
                ),
            ).push(
                OutgoingView::Persist(PayloadView::SystemMessage { content: limit_notice(limit) }),
            ),
            allow_tools: false,
            limit_reached: true,
            stage: StageView::Request,
            ..counted
        }
    } else {
        TurnView {
            allow_tools: counted.allow_tools && !stop,
            stage: StageView::Request,
            ..counted
        }
    }
}

// ---------------------------------------------------------------------------
// Steps
// ---------------------------------------------------------------------------
/// What a step of the turn itself asks for.
#[verifier::ext_equal]
pub enum DemandView {
    /// Call the hooks of an event.
    Hooks(HookEvent, HookDataView),
    /// Something of the host.
    Act(TurnActionView),
}

/// A turn that looks for its memories.
pub open spec fn recalled(d: TurnDeps, t: TurnView, rt: RuntimeView) -> (TurnView, DemandView) {
    let proceed = DemandView::Act(TurnActionView::Proceed);
    if d.memory_model_id is None {
        (
            TurnView {
                memories: rt.bootstrap_memories,
                stage: StageView::Request,
                ..t
            },
            proceed,
        )
    } else {
        match query_of(t.input) {
            Some(query) => (
                t,
                DemandView::Act(
                    TurnActionView::SearchMemories {
                        namespace: rt.memory_namespace,
                        query,
                        limit: d.config.memory_max_items,
                    },
                ),
            ),
            None => (
                TurnView {
                    memories: at_most(
                        rt.bootstrap_memories,
                        d.config.memory_max_items as int,
                    ),
                    stage: StageView::Request,
                    ..t
                },
                proceed,
            ),
        }
    }
}

/// A turn that prepares its next tool call, or has prepared all of them.
pub open spec fn prepared(
    d: TurnDeps,
    t: TurnView,
    preparation: PreparationView,
    pending: Seq<RequestedView>,
) -> (TurnView, DemandView) {
    let proceed = DemandView::Act(TurnActionView::Proceed);
    if pending.len() == 0 {
        (
            TurnView {
                outbox: t.outbox + call_payloads(preparation.calls),
                stage: StageView::Execute(
                    BatchView {
                        calls: preparation.calls,
                        has_mutating: preparation.has_mutating,
                    },
                ),
                ..t
            },
            proceed,
        )
    } else {
        match offered(
            preparation,
            pending[0],
            mutates(*d.dispatcher.tools, pending[0].tool_name),
            d.dispatcher.limits,
        ) {
            OfferView::Settled(after) => (
                TurnView {
                    stage: StageView::Prepare {
                        preparation: after,
                        pending: pending.drop_first(),
                    },
                    ..t
                },
                proceed,
            ),
            OfferView::AskHooks(data) => (
                t,
                DemandView::Hooks(HookEvent::BeforeToolUse, data),
            ),
        }
    }
}

/// A turn whose parallel batch starts, goes on or is done.
pub open spec fn stepped_parallel(
    t: TurnView,
    batch: ParallelView,
    left: usize,
    started: bool,
    cancelled: bool,
) -> (TurnView, DemandView) {
    let proceed = DemandView::Act(TurnActionView::Proceed);
    if left == 0 {
        (
            match parallel_outcome(batch, cancelled) {
                Ok(outcome) => TurnView { stage: StageView::Results(outcome), ..t },
                Err(error) => failed(t, error),
            },
            proceed,
        )
    } else if started {
        (t, DemandView::Act(TurnActionView::AwaitTool))
    } else {
        (
            TurnView { stage: StageView::Parallel { batch, left, started: true }, ..t },
            DemandView::Act(TurnActionView::RunTools(parallel_runs(batch))),
        )
    }
}

/// A turn that takes a memory checkpoint where one is due.
pub open spec fn checkpointed(d: TurnDeps, t: TurnView, rt: RuntimeView) -> (TurnView, DemandView) {
    let proceed = DemandView::Act(TurnActionView::Proceed);
    if checkpoint_due(d, rt) {
        (t, DemandView::Act(TurnActionView::Extract(checkpoint_run(d, rt))))
    } else {
        (completed(t), proceed)
    }
}

/// One step of a turn with nothing to store, to announce or to ask of hooks.
pub open spec fn advanced(d: TurnDeps, t: TurnView, rt: RuntimeView, cancelled: bool) -> (
    TurnView,
    DemandView,
) {
    let proceed = DemandView::Act(TurnActionView::Proceed);
    match t.stage {
        StageView::Start => (
            t,
            DemandView::Hooks(
                HookEvent::TurnStart,
                HookDataView::TurnStart { user_input: t.input, dynamic_sections: Seq::empty() },
            ),
        ),
        StageView::Recall => recalled(d, t, rt),
        StageView::Request => (
            TurnView {
                retried: false,
                stage: if compaction_due(d, t, rt) {
                    StageView::Gate
                } else {
                    StageView::Send
                },
                ..t
            },
            proceed,
        ),
        StageView::Gate => (
            t,
            DemandView::Hooks(
                HookEvent::BeforeCompact,
                HookDataView::BeforeCompact {
                    message_count: rt.context.visible.len() as usize,
                    estimated_tokens: estimated(rt.context.visible),
                },
            ),
        ),
        StageView::Compact => (planned(d, t, rt), proceed),
        StageView::Ask { request, .. } => (
            t,
            DemandView::Act(TurnActionView::OpenChat(ChatRole::Compaction, request)),
        ),
        StageView::Summarize { .. } => (t, DemandView::Act(TurnActionView::ReadChat)),
        StageView::Send => match turn_request(d, t, rt) {
            Ok(request) => (
                t,
                DemandView::Act(TurnActionView::OpenChat(ChatRole::Main, request)),
            ),
            Err(error) => (failed(t, error), proceed),
        },
        StageView::Stream(_) => (t, DemandView::Act(TurnActionView::ReadChat)),
        StageView::Prepare { preparation, pending } => prepared(d, t, preparation, pending),
        StageView::Execute(batch) => (launched(d, t, batch, cancelled), proceed),
        StageView::Serial(batch) => (stepped(d, t, batch, cancelled), proceed),
        StageView::SerialRun(batch) => (
            t,
            DemandView::Act(
                TurnActionView::RunTools(
                    seq![
                        ToolRunView {
                            index: batch.position as usize,
                            input: input_of(batch.calls[batch.position]),
                        },
                    ],
                ),
            ),
        ),
        StageView::Parallel { batch, left, started } => stepped_parallel(
            t,
            batch,
            left,
            started,
            cancelled,
        ),
        StageView::After { raw, .. } => (
            t,
            DemandView::Hooks(HookEvent::AfterToolUse, after_data(raw)),
        ),
        StageView::Results(outcome) => (
            TurnView {
                outbox: t.outbox + result_payloads(outcome.results),
                stage: StageView::Judge {
                    count: outcome.results.len() as int,
                    cancelled: outcome.cancelled,
                    stop: outcome.stop_after_batch,
                },
                ..t
            },
            proceed,
        ),
        StageView::Judge { count, cancelled: was_cancelled, stop } => (
            judged(d, t, count, was_cancelled, stop),
            proceed,
        ),
        StageView::Ending { cancelled: was_cancelled, assistant_output } => (
            t,
            DemandView::Hooks(
                HookEvent::TurnEnd,
                HookDataView::TurnEnd {
                    assistant_output,
                    tool_calls_count: t.tool_calls_count,
                    cancelled: was_cancelled,
                },
            ),
        ),
        StageView::Checkpoint => checkpointed(d, t, rt),
        StageView::Finished(_) => (t, DemandView::Act(TurnActionView::Finish)),
    }
}

/// A turn after all hooks of the current event have answered, or one of them
/// ended the dispatch.
pub open spec fn hooks_settled(
    d: TurnDeps,
    t: TurnView,
    answer: std::result::Result<Seq<HookPatchView>, AgentErrorView>,
) -> TurnView {
    match t.stage {
        StageView::Start => match answer {
            Ok(patches) => TurnView {
                sections: appended_sections(patches),
                outbox: t.outbox + skill_payloads(t.skill_injections).push(
                    OutgoingView::Persist(PayloadView::UserMessage { content: t.input }),
                ),
                stage: StageView::Recall,
                ..t
            },
            Err(error) => failed(t, error),
        },
        StageView::Gate => match answer {
            Ok(_) => TurnView { stage: StageView::Compact, ..t },
            Err(AgentErrorView::PluginAborted { .. }) => uncompacted(
                t,
                compact_error("BeforeCompact hook aborted fallback compaction"@),
            ),
            Err(error) => failed(t, error),
        },
        StageView::Prepare { preparation, pending } => match hooks_answered(
            preparation,
            pending[0],
            mutates(*d.dispatcher.tools, pending[0].tool_name) == Some(true),
            answer,
            d.dispatcher.limits,
        ) {
            Ok(after) => TurnView {
                stage: StageView::Prepare { preparation: after, pending: pending.drop_first() },
                ..t
            },
            Err(error) => failed(t, error),
        },
        StageView::After { run, index, raw } => match completed_of(
            raw,
            answer,
            d.dispatcher.limits,
        ) {
            Ok(done) => TurnView {
                stage: match run {
                    BatchRunView::Serial(batch) => StageView::Serial(
                        serial_record(batch, done, d.dispatcher.limits),
                    ),
                    BatchRunView::Parallel(batch, left) => StageView::Parallel {
                        batch: ParallelView {
                            slots: batch.slots.update(index as int, Some(done.record)),
                            stop_after_batch: batch.stop_after_batch || done.after_tool_abort,
                            ..batch
                        },
                        left,
                        started: true,
                    },
                },
                ..t
            },
            Err(error) => failed(t, error),
        },
        StageView::Ending { cancelled, .. } => match answer {
            Ok(_) => if cancelled {
                TurnView {
                    outbox: t.outbox.push(OutgoingView::Notify(EventPayloadView::TurnCancelled)),
                    stage: StageView::Finished(TurnOutcomeView::Cancelled),
                    ..t
                }
            } else if t.limit_reached {
                TurnView {
                    stage: StageView::Finished(
                        TurnOutcomeView::Failed(
                            AgentErrorView::MaxToolCallsExceeded {
                                limit: d.config.max_tool_calls_per_turn,
                            },
                        ),
                    ),
                    ..t
                }
            } else {
                TurnView { stage: StageView::Checkpoint, ..t }
            },
            Err(error) => failed(t, error),
        },
        _ => t,
    }
}

/// A turn after its own step: hooks that are asked for are called, unless there
/// are none.
pub open spec fn served(
    d: TurnDeps,
    t: TurnView,
    rt: RuntimeView,
    demand: DemandView,
    now: Timestamp,
) -> (TurnView, TurnActionView) {
    match demand {
        DemandView::Act(action) => (t, action),
        DemandView::Hooks(event, data) => {
            let calls = calls_of(
                d.hooks.registered(event),
                event,
                rt.session_id,
                Some(t.turn_id),
                data,
                now,
            );
            if calls.len() == 0 {
                (hooks_settled(d, t, Ok(Seq::empty())), TurnActionView::Proceed)
            } else {
                (
                    TurnView {
                        dispatch: Some(
                            DispatchView { event, calls, position: 0, patches: Seq::empty() },
                        ),
                        ..t
                    },
                    TurnActionView::CallHook(calls[0]),
                )
            }
        },
    }
}

/// What a turn does next: an event is stored before the next one, hooks answer
/// one after the other, everything to store and to announce goes out in order,
/// and only then the turn itself goes on.
pub open spec fn turn_next(
    d: TurnDeps,
    t: TurnView,
    rt: RuntimeView,
    cancelled: bool,
    now: Timestamp,
) -> (TurnView, RuntimeView, TurnActionView) {
    match t.saving {
        Some(event) => (t, rt, TurnActionView::Save(event)),
        None => match t.dispatch {
            Some(dispatch) => (
                t,
                rt,
                TurnActionView::CallHook(dispatch.calls[dispatch.position]),
            ),
            None => if t.outbox.len() > 0 {
                let rest = TurnView { outbox: t.outbox.drop_first(), ..t };
                match t.outbox[0] {
                    OutgoingView::Persist(payload) => {
                        let event = LedgerEventView {
                            seq: next_number(rt.ledger),
                            timestamp: now,
                            payload,
                        };
                        (
                            TurnView { saving: Some(event), ..rest },
                            rt,
                            TurnActionView::Save(event),
                        )
                    },
                    OutgoingView::Notify(payload) => (
                        rest,
                        RuntimeView { event_sequence: successor(rt.event_sequence), ..rt },
                        TurnActionView::Emit(
                            AgentEventView {
                                session_id: rt.session_id,
                                turn_id: t.turn_id,
                                timestamp: now,
                                sequence: rt.event_sequence,
                                payload,
                            },
                        ),
                    ),
                }
            } else {
                let (after, demand) = advanced(d, t, rt, cancelled);
                let (after, action) = served(d, after, rt, demand, now);
                (after, rt, action)
            },
        },
    }
}

// ---------------------------------------------------------------------------
// Reports of the host
// ---------------------------------------------------------------------------
/// After the attempt to store the event of `t.saving`: a failure ends the turn.
pub open spec fn turn_saved(
    t: TurnView,
    rt: RuntimeView,
    saved: std::result::Result<(), Seq<Seq<char>>>,
) -> (TurnView, RuntimeView) {
    let (after, result) = persisted(rt, t.saving->0, saved);
    match result {
        Ok(_) => (TurnView { saving: None, ..t }, after),
        Err(error) => (failed(t, error), after),
    }
}

/// After the answer of one hook handler.
pub open spec fn turn_hook_answered(d: TurnDeps, t: TurnView, result: HookResultView) -> TurnView {
    let dispatch = t.dispatch->0;
    let asked = TurnView { dispatch: None, ..t };
    match absorbed(
        dispatch.event,
        dispatch.calls[dispatch.position].plugin_id,
        dispatch.patches,
        result,
    ) {
        Ok(patches) => if dispatch.position + 1 < dispatch.calls.len() {
            TurnView {
                dispatch: Some(
                    DispatchView { position: dispatch.position + 1, patches, ..dispatch },
                ),
                ..t
            }
        } else {
            hooks_settled(d, asked, Ok(patches))
        },
        Err(error) => hooks_settled(d, asked, Err(error)),
    }
}

/// After a search for memories.
pub open spec fn turn_searched(
    d: TurnDeps,
    t: TurnView,
    rt: RuntimeView,
    found: std::result::Result<Seq<MemoryView>, Seq<Seq<char>>>,
) -> TurnView {
    match found {
        Ok(memories) => TurnView {
            memories: merged(rt.bootstrap_memories, memories, d.config.memory_max_items),
            stage: StageView::Request,
            ..t
        },
        Err(source) => failed(
            t,
            memory_storage_error(
                "failed to search memories for namespace '"@,
                rt.memory_namespace,
                source,
            ),
        ),
    }
}

/// After a request has been sent.
pub open spec fn turn_opened(
    t: TurnView,
    rt: RuntimeView,
    opened: std::result::Result<(), Seq<Seq<char>>>,
    cancelled: bool,
) -> TurnView {
    match t.stage {
        StageView::Ask { plan, .. } => match opened {
            Ok(_) => TurnView { stage: StageView::Summarize { plan, text: Seq::empty() }, ..t },
            Err(source) => summarised(
                t,
                rt,
                plan,
                Err(
                    provider_error(
                        "failed to start compact chat request"@,
                        seq!["compact model failed to start chat request"@] + source,
                    ),
                ),
            ),
        },
        StageView::Send => match opened {
            Ok(_) => TurnView {
                stage: StageView::Stream(
                    AnswerView { assistant_output: Seq::empty(), tool_calls: Seq::empty() },
                ),
                ..t
            },
            Err(source) => if cancelled {
                interrupted_turn(t, Seq::empty())
            } else {
                failed(
                    t,
                    provider_error(
                        "failed to start provider chat request"@,
                        seq!["model provider failed to start chat request"@] + source,
                    ),
                )
            },
        },
        _ => t,
    }
}

/// A turn whose model has answered: the text is stored; without tool calls the
/// turn ends, otherwise they are prepared.
pub open spec fn answered(d: TurnDeps, t: TurnView, answer: AnswerView) -> TurnView {
    let told = TurnView {
        outbox: if answer.assistant_output.len() > 0 {
            t.outbox.push(
                OutgoingView::Persist(
                    assistant_payload(answer.assistant_output, MessageStatus::Complete),
                ),
            )
        } else {
            t.outbox
        },
        ..t
    };
    if answer.tool_calls.len() == 0 {
        TurnView {
            stage: StageView::Ending {
                cancelled: false,
                assistant_output: answer.assistant_output,
            },
            ..told
        }
    } else {
        TurnView {
            stage: StageView::Prepare {
                preparation: PreparationView {
                    has_mutating: any_mutating(*d.dispatcher.tools, answer.tool_calls),
                    skip: None,
                    calls: Seq::empty(),
                },
                pending: answer.tool_calls,
            },
            ..told
        }
    }
}

/// After one more read of an answer.
pub open spec fn turn_read(
    d: TurnDeps,
    t: TurnView,
    rt: RuntimeView,
    item: StreamItemView,
    cancelled: bool,
) -> TurnView {
    match t.stage {
        StageView::Summarize { plan, text } => match collected(
            TextPurpose::Compaction,
            text,
            item,
            cancelled,
        ) {
            CollectedView::More(text) => TurnView {
                stage: StageView::Summarize { plan, text },
                ..t
            },
            CollectedView::Complete(text) => summarised(t, rt, plan, Ok(text)),
            CollectedView::Failed(error) => summarised(t, rt, plan, Err(error)),
        },
        StageView::Stream(answer) => match consumed(answer, item, t.allow_tools, cancelled) {
            ConsumedView::More(answer, event) => TurnView {
                outbox: match event {
                    Some(payload) => t.outbox.push(OutgoingView::Notify(payload)),
                    None => t.outbox,
                },
                stage: StageView::Stream(answer),
                ..t
            },
            ConsumedView::Complete(answer) => answered(d, t, answer),
            ConsumedView::Cancelled(answer) => interrupted_turn(t, answer.assistant_output),
            ConsumedView::TooLong => if t.retried {
                failed(
                    t,
                    compact_error(
                        "provider still rejected the request after fallback compaction"@,
                    ),
                )
            } else {
                TurnView { retried: true, stage: StageView::Gate, ..t }
            },
            ConsumedView::Failed(error) => failed(t, error),
        },
        _ => t,
    }
}

/// After a tool has ended.
pub open spec fn turn_tool_ended(
    d: TurnDeps,
    t: TurnView,
    index: usize,
    completion: CompletionView,
    duration_ms: u64,
) -> TurnView {
    match t.stage {
        StageView::SerialRun(batch) => {
            let raw = raw_of(
                batch.calls[batch.position],
                completion,
                duration_ms,
                d.dispatcher.limits,
            );
            TurnView {
                outbox: t.outbox + announced(end_events(raw)),
                stage: StageView::After { run: BatchRunView::Serial(batch), index, raw },
                ..t
            }
        },
        StageView::Parallel { batch, left, .. } => {
            let raw = raw_of(
                batch.calls[index as int],
                completion,
                duration_ms,
                d.dispatcher.limits,
            );
            TurnView {
                outbox: t.outbox + announced(end_events(raw)),
                stage: StageView::After {
                    run: BatchRunView::Parallel(batch, (left - 1) as usize),
                    index,
                    raw,
                },
                ..t
            }
        },
        _ => t,
    }
}

/// After a memory extraction: a failed one is passed over.
pub open spec fn turn_extracted(
    t: TurnView,
    result: std::result::Result<Option<u64>, AgentErrorView>,
) -> TurnView {
    match result {
        Ok(Some(seq)) => completed(
            TurnView {
                outbox: t.outbox.push(
                    OutgoingView::Persist(
                        PayloadView::Metadata {
                            key: MetadataKey::MemoryCheckpoint,
                            value: MetadataValueView::MemoryCheckpoint(seq),
                        },
                    ),
                ),
                ..t
            },
        ),
        _ => completed(t),
    }
}

// ---------------------------------------------------------------------------
// Soundness
// ---------------------------------------------------------------------------
/// Whether a stage waits for hooks.
pub open spec fn asks_hooks(stage: StageView) -> bool {
    match stage {
        StageView::Start | StageView::Gate | StageView::After { .. } | StageView::Ending { .. } =>
        true,
        StageView::Prepare { pending, .. } => pending.len() > 0,
        _ => false,
    }
}

/// Whether a serial batch stands at one of its calls.
pub open spec fn at_call(batch: SerialView) -> bool {
    0 <= batch.position < batch.calls.len()
}

/// Whether the parts of a turn fit together.
pub open spec fn turn_sound(t: TurnView) -> bool {
    &&& t.dispatch matches Some(dispatch) ==> {
        &&& 0 <= dispatch.position < dispatch.calls.len()
        &&& asks_hooks(t.stage)
    }
    &&& match t.stage {
        StageView::Stream(answer) => !t.allow_tools ==> answer.tool_calls.len() == 0,
        StageView::Prepare { .. } => t.allow_tools,
        StageView::Serial(batch) => 0 <= batch.position,
        StageView::SerialRun(batch) => at_call(batch),
        StageView::Parallel { batch, .. } => batch.slots.len() == batch.calls.len(),
        StageView::After { run, index, .. } => match run {
            BatchRunView::Serial(batch) => at_call(batch),
            BatchRunView::Parallel(batch, _) => {
                &&& batch.slots.len() == batch.calls.len()
                &&& index < batch.slots.len()
            },
        },
        _ => true,
    }
}

proof fn lemma_settled_sound(
    d: TurnDeps,
    t: TurnView,
    answer: std::result::Result<Seq<HookPatchView>, AgentErrorView>,
)
    requires
        turn_sound(t),
        t.dispatch is None,
        asks_hooks(t.stage),
    ensures
        turn_sound(hooks_settled(d, t, answer)),
        hooks_settled(d, t, answer).dispatch is None,
{
}

/// One step keeps the parts of a turn together, and asks hooks only where the
/// turn waits for them.
pub proof fn lemma_advanced_sound(d: TurnDeps, t: TurnView, rt: RuntimeView, cancelled: bool)
    requires
        turn_sound(t),
        t.dispatch is None,
    ensures
        turn_sound(advanced(d, t, rt, cancelled).0),
        advanced(d, t, rt, cancelled).0.dispatch is None,
        advanced(d, t, rt, cancelled).1 is Hooks ==> asks_hooks(
            advanced(d, t, rt, cancelled).0.stage,
        ),
{
}

/// Whatever a turn does next, its parts still fit together.
pub proof fn law_next_keeps_sound(
    d: TurnDeps,
    t: TurnView,
    rt: RuntimeView,
    cancelled: bool,
    now: Timestamp,
)
    requires
        turn_sound(t),
    ensures
        turn_sound(turn_next(d, t, rt, cancelled, now).0),
{
    if t.saving is None && t.dispatch is None && t.outbox.len() == 0 {
        lemma_advanced_sound(d, t, rt, cancelled);
        let (after, demand) = advanced(d, t, rt, cancelled);
        if demand is Hooks {
            lemma_settled_sound(d, after, Ok(Seq::empty()));
        }
    }
}

/// Whatever a hook answers, the parts of a turn still fit together.
pub proof fn law_hook_answer_keeps_sound(d: TurnDeps, t: TurnView, result: HookResultView)
    requires
        turn_sound(t),
        t.dispatch is Some,
    ensures
        turn_sound(turn_hook_answered(d, t, result)),
{
    let dispatch = t.dispatch->0;
    let asked = TurnView { dispatch: None, ..t };
    let answer = absorbed(
        dispatch.event,
        dispatch.calls[dispatch.position].plugin_id,
        dispatch.patches,
        result,
    );
    lemma_settled_sound(d, asked, answer);
}

} // verus!
