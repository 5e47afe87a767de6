//! The turn engine: runs one turn as a state machine. The host asks what to do
//! next, does it, and reports what came of it.

use crate::application::context_manager::{build_compaction_request, CompactionPlan};
use crate::application::memory_extraction::Extraction;
use crate::application::memory_manager::{
    load_turn_memories, memory_storage_failure, merge_memories, TurnMemories,
};
use crate::application::prompt_builder::{not_blank, PromptBuildContext, PromptBuilder, RenderedPrompt};
use crate::application::request_builder::{
    ChatRequestBuilder, RequestBuildOptions, ResolvedSessionConfig,
};
use crate::application::session_runtime::{storage_result, SessionRuntime};
use crate::application::stream::{
    collect_text, consume_provider_stream, provider_failure, Collected, Consumed, ModelAnswer,
    TextPurpose,
};
use crate::application::tool_batch::{
    cancelled_outcome, running, ParallelBatch, SerialBatch, SerialStep,
};
use crate::application::tool_dispatcher::{
    input_of, BatchPreparation, Offer, PreparedToolBatch, PreparedToolCall, PreparedView,
    RequestedToolCall, ToolCompletion, ToolExecutionRecord,
};
use crate::application::turn_rules::{
    advanced, announced, answered, appended_sections, asks_hooks, call_payloads, checkpoint_due,
    checkpointed, compaction_due, completed, failed, hooks_settled, interrupted_turn, judged,
    launched, law_hook_answer_keeps_sound, law_next_keeps_sound, lemma_advanced_sound,
    parallel_runs, planned, prepared, recalled, result_payloads, served, skill_payloads, stepped,
    stepped_parallel, summarised, tools_size, turn_extracted, turn_hook_answered, turn_next,
    turn_opened, turn_prompt, turn_read, turn_request, turn_saved, turn_searched, turn_sound,
    turn_tool_ended, uncompacted, DemandView,
};
use crate::application::turn_state::{
    BatchRun, ChatRole, Outgoing, OutgoingView, Stage, StageView, ToolRun, ToolRunView, Turn,
    TurnAction, TurnDeps, TurnView,
};
use crate::clock::{utc_now, Timestamp};
use crate::domain::error::{outcome, AgentError, ErrorSource, Result};
use crate::domain::event::AgentEventPayload;
use crate::domain::hook::{HookData, HookDataView, HookEvent, HookPatch, HookResult};
use crate::domain::ledger::{LedgerEventPayload, MetadataKey, MetadataValue};
use crate::domain::state::TurnOutcome;
use crate::domain::types::{
    ContentBlock, ContentBlockView, Memory, MemoryView, Message, MessageStatus, UserInput,
};
use crate::ports::model::{ChatRequest, StreamItem, ToolDefinition};
use crate::text::{byte_len, decimal_text};
use vstd::prelude::*;
use vstd::string::*;

verus! {

broadcast use vstd::std_specs::vec::vec_clone_deep_view_proof;

// ---------------------------------------------------------------------------
// What a turn stores and announces
// ---------------------------------------------------------------------------
/// The content blocks of an assistant text.
pub fn assistant_content(text: String) -> (r: Vec<ContentBlock>)
    ensures
        r.deep_view() == seq![ContentBlockView::Text(text@)],
{
    let mut r: Vec<ContentBlock> = Vec::new();
    r.push(ContentBlock::Text(text));
    proof {
        assert(r.deep_view() =~= seq![ContentBlockView::Text(text@)]);
    }
    r
}

/// The sections that the patches of a turn start append, without blank ones.
pub fn collect_dynamic_sections(patches: &Vec<HookPatch>) -> (r: Vec<String>)
    ensures
        r.deep_view() == appended_sections(patches.deep_view()),
{
    let ghost all = patches.deep_view();
    let mut out: Vec<String> = Vec::new();
    let mut i: usize = 0;
    proof {
        assert(out.deep_view() =~= appended_sections(all.take(0)));
    }
    while i < patches.len()
        invariant
            i <= patches.len(),
            all == patches.deep_view(),
            out.deep_view() == appended_sections(all.take(i as int)),
        decreases patches.len() - i,
    {
        proof {
            assert(all.take(i + 1).drop_last() =~= all.take(i as int));
            assert(all.take(i + 1).last() == patches[i as int].deep_view());
        }
        match &patches[i] {
            HookPatch::TurnStart { append_dynamic_sections } => {
                push_not_blank(&mut out, append_dynamic_sections);
            },
            HookPatch::BeforeToolUse { .. } => {},
        }
        i += 1;
    }
    proof {
        assert(all.take(all.len() as int) =~= all);
    }
    out
}

fn push_not_blank(out: &mut Vec<String>, sections: &Vec<String>)
    ensures
        final(out).deep_view() == old(out).deep_view() + not_blank(sections.deep_view()),
{
    let ghost head = out.deep_view();
    let ghost all = sections.deep_view();
    let mut i: usize = 0;
    proof {
        assert(head + not_blank(all.take(0)) =~= head);
    }
    while i < sections.len()
        invariant
            i <= sections.len(),
            all == sections.deep_view(),
            out.deep_view() == head + not_blank(all.take(i as int)),
        decreases sections.len() - i,
    {
        let ghost before = out.deep_view();
        proof {
            assert(all.take(i + 1).drop_last() =~= all.take(i as int));
            assert(all.take(i + 1).last() == sections[i as int]@);
        }
        if !sections[i].as_str().trim().is_empty() {
            out.push(sections[i].clone());
            proof {
                assert(out.deep_view() =~= before.push(all[i as int]));
                assert(out.deep_view() =~= head + not_blank(all.take(i + 1)));
            }
        }
        i += 1;
    }
    proof {
        assert(all.take(all.len() as int) =~= all);
    }
}

fn push_skill_payloads(outbox: &mut Vec<Outgoing>, messages: &Vec<Message>)
    ensures
        final(outbox).deep_view() == old(outbox).deep_view() + skill_payloads(
            messages.deep_view(),
        ),
{
    let ghost head = outbox.deep_view();
    let ghost all = messages.deep_view();
    let mut i: usize = 0;
    proof {
        assert(head + skill_payloads(all.take(0)) =~= head);
    }
    while i < messages.len()
        invariant
            i <= messages.len(),
            all == messages.deep_view(),
            outbox.deep_view() == head + skill_payloads(all.take(i as int)),
        decreases messages.len() - i,
    {
        let ghost before = outbox.deep_view();
        proof {
            assert(all.take(i + 1).drop_last() =~= all.take(i as int));
            assert(all.take(i + 1).last() == messages[i as int].deep_view());
        }
        match &messages[i] {
            Message::System { content } => {
                let item = Outgoing::Persist(
                    LedgerEventPayload::SystemMessage { content: content.clone() },
                );
                let ghost shown = item.deep_view();
                outbox.push(item);
                proof {
                    assert(outbox.deep_view() =~= before.push(shown));
                    assert(outbox.deep_view() =~= head + skill_payloads(all.take(i + 1)));
                }
            },
            _ => {},
        }
        i += 1;
    }
    proof {
        assert(all.take(all.len() as int) =~= all);
    }
}

fn push_call_payloads(outbox: &mut Vec<Outgoing>, calls: &Vec<PreparedToolCall>)
    ensures
        final(outbox).deep_view() == old(outbox).deep_view() + call_payloads(calls.deep_view()),
{
    let ghost head = outbox.deep_view();
    let ghost wanted = call_payloads(calls.deep_view());
    let mut i: usize = 0;
    while i < calls.len()
        invariant
            i <= calls.len(),
            wanted == call_payloads(calls.deep_view()),
            outbox.deep_view() =~= head + wanted.take(i as int),
        decreases calls.len() - i,
    {
        let ghost before = outbox.deep_view();
        outbox.push(
            Outgoing::Persist(
                LedgerEventPayload::ToolCall {
                    call_id: calls[i].call_id.clone(),
                    tool_name: calls[i].tool_name.clone(),
                    arguments: calls[i].effective_arguments.clone(),
                },
            ),
        );
        proof {
            assert(outbox.deep_view() =~= before.push(wanted[i as int]));
        }
        i += 1;
    }
    proof {
        assert(wanted.take(wanted.len() as int) =~= wanted);
    }
}

fn push_result_payloads(outbox: &mut Vec<Outgoing>, results: &Vec<ToolExecutionRecord>)
    ensures
        final(outbox).deep_view() == old(outbox).deep_view() + result_payloads(
            results.deep_view(),
        ),
{
    let ghost head = outbox.deep_view();
    let ghost wanted = result_payloads(results.deep_view());
    let mut i: usize = 0;
    while i < results.len()
        invariant
            i <= results.len(),
            wanted == result_payloads(results.deep_view()),
            outbox.deep_view() =~= head + wanted.take(i as int),
        decreases results.len() - i,
    {
        let ghost before = outbox.deep_view();
        outbox.push(
            Outgoing::Persist(
                LedgerEventPayload::ToolResult {
                    call_id: results[i].call_id.clone(),
                    output: results[i].output.clone(),
                },
            ),
        );
        proof {
            assert(outbox.deep_view() =~= before.push(wanted[i as int]));
        }
        i += 1;
    }
    proof {
        assert(wanted.take(wanted.len() as int) =~= wanted);
    }
}

fn push_events(outbox: &mut Vec<Outgoing>, events: Vec<AgentEventPayload>)
    ensures
        final(outbox).deep_view() == old(outbox).deep_view() + announced(events.deep_view()),
    decreases events.len(),
{
    let ghost all = events.deep_view();
    let mut front = events;
    match front.pop() {
        None => {
            proof {
                assert(outbox.deep_view() + announced(all) =~= outbox.deep_view());
            }
        },
        Some(last) => {
            let ghost shown = last.deep_view();
            proof {
                assert(front.deep_view() =~= all.drop_last());
                assert(all.last() == shown);
            }
            push_events(outbox, front);
            let ghost before = outbox.deep_view();
            outbox.push(Outgoing::Notify(last));
            proof {
                assert(outbox.deep_view() =~= before.push(OutgoingView::Notify(shown)));
                assert(announced(all) =~= announced(all.drop_last()).push(
                    OutgoingView::Notify(shown),
                ));
                assert(outbox.deep_view() =~= old(outbox).deep_view() + announced(all));
            }
        },
    }
}

fn push_outgoing(outbox: &mut Vec<Outgoing>, item: Outgoing)
    ensures
        final(outbox).deep_view() == old(outbox).deep_view().push(item.deep_view()),
{
    let ghost shown = item.deep_view();
    outbox.push(item);
    proof {
        assert(outbox.deep_view() =~= old(outbox).deep_view().push(shown));
    }
}

// ---------------------------------------------------------------------------
// Requests
// ---------------------------------------------------------------------------
fn render_prompt(deps: &TurnDeps, turn: &Turn, runtime: &SessionRuntime) -> (r: RenderedPrompt)
    ensures
        r.text@ == turn_prompt(*deps, turn.deep_view(), runtime.deep_view()),
{
    let system_prompt_override = match &runtime.system_prompt_override {
        Some(text) => Some(text.as_str()),
        None => None,
    };
    PromptBuilder::new().build(
        deps.config,
        system_prompt_override,
        &PromptBuildContext {
            implicit_skills: deps.implicit_skills.clone(),
            plugins: deps.plugins.clone(),
            memories: turn.memories.clone(),
            dynamic_sections: turn.sections.clone(),
        },
    )
}

fn build_request(deps: &TurnDeps, turn: &Turn, runtime: &SessionRuntime) -> (r: Result<ChatRequest>)
    ensures
        outcome(r) == turn_request(*deps, turn.deep_view(), runtime.deep_view()),
{
    let prompt = render_prompt(deps, turn, runtime);
    let context = runtime.context_manager.build_request_context(
        deps.capabilities,
        deps.tool_definitions.clone(),
    );
    ChatRequestBuilder::new().build(
        &prompt,
        &context,
        &ResolvedSessionConfig {
            model_id: runtime.model_id.clone(),
            system_prompt_override: runtime.system_prompt_override.clone(),
        },
        &RequestBuildOptions { allow_tools: turn.allow_tools },
    )
}

/// Bytes of tool definitions, saturating.
pub fn tools_bytes(tools: &Vec<ToolDefinition>) -> (r: usize)
    ensures
        r == crate::application::context_manager::capped(tools_size(tools.deep_view())),
{
    let ghost all = tools.deep_view();
    let mut total: usize = 0;
    let mut i: usize = 0;
    while i < tools.len()
        invariant
            i <= tools.len(),
            all == tools.deep_view(),
            total == crate::application::context_manager::capped(tools_size(all.take(i as int))),
        decreases tools.len() - i,
    {
        proof {
            assert(all.take(i + 1).drop_last() =~= all.take(i as int));
            assert(all.take(i + 1).last() == tools[i as int].deep_view());
        }
        total = total.saturating_add(byte_len(tools[i].name.as_str())).saturating_add(
            byte_len(tools[i].description.as_str()),
        ).saturating_add(byte_len(tools[i].parameters.text()));
        i += 1;
    }
    proof {
        assert(all.take(all.len() as int) =~= all);
    }
    total
}

fn needs_compaction(deps: &TurnDeps, turn: &Turn, runtime: &SessionRuntime) -> (r: bool)
    ensures
        r == compaction_due(*deps, turn.deep_view(), runtime.deep_view()),
{
    let prompt_bytes: usize = byte_len(render_prompt(deps, turn, runtime).text.as_str());
    let tool_bytes: usize = if turn.allow_tools {
        tools_bytes(&deps.tool_definitions)
    } else {
        0
    };
    runtime.context_manager.needs_compaction(prompt_bytes, tool_bytes)
}

fn is_checkpoint_due(deps: &TurnDeps, runtime: &SessionRuntime) -> (r: bool)
    ensures
        r == checkpoint_due(*deps, runtime.deep_view()),
{
    let interval: u64 = deps.config.memory_checkpoint_interval;
    deps.memory_model_id.is_some() && interval > 0 && runtime.turn_index % interval == 0
}

proof fn lemma_running_in_range(calls: Seq<PreparedView>)
    requires
        calls.len() <= usize::MAX,
    ensures
        forall|i: int|
            0 <= i < running(calls).len() ==> (#[trigger] running(calls)[i]) < calls.len(),
        running(calls).len() <= calls.len(),
    decreases calls.len(),
{
    if calls.len() > 0 {
        lemma_running_in_range(calls.drop_last());
    }
}

fn collect_runs(batch: &ParallelBatch) -> (r: Vec<ToolRun>)
    ensures
        r.deep_view() == parallel_runs(batch.deep_view()),
{
    let positions = batch.running();
    let ghost wanted = parallel_runs(batch.deep_view());
    proof {
        lemma_running_in_range(batch.deep_view().calls);
    }
    let mut out: Vec<ToolRun> = Vec::new();
    let mut i: usize = 0;
    while i < positions.len()
        invariant
            i <= positions.len(),
            positions@ == running(batch.deep_view().calls),
            forall|j: int|
                0 <= j < positions@.len() ==> (#[trigger] positions@[j])
                    < batch.deep_view().calls.len(),
            wanted == parallel_runs(batch.deep_view()),
            out.deep_view() =~= wanted.take(i as int),
        decreases positions.len() - i,
    {
        let ghost before = out.deep_view();
        let index: usize = positions[i];
        out.push(ToolRun { index, input: batch.call(index).tool_input() });
        proof {
            assert(out.deep_view() =~= before.push(wanted[i as int]));
        }
        i += 1;
    }
    proof {
        assert(wanted.take(wanted.len() as int) =~= wanted);
    }
    out
}

fn current_run(batch: &SerialBatch) -> (r: Vec<ToolRun>)
    requires
        batch.deep_view().position < batch.deep_view().calls.len(),
    ensures
        r.deep_view() == seq![
            ToolRunView {
                index: batch.deep_view().position as usize,
                input: input_of(batch.deep_view().calls[batch.deep_view().position]),
            },
        ],
{
    let mut runs: Vec<ToolRun> = Vec::new();
    let run = ToolRun { index: batch.position(), input: batch.current().tool_input() };
    let ghost shown = run.deep_view();
    runs.push(run);
    proof {
        assert(runs.deep_view() =~= seq![shown]);
    }
    runs
}

fn start_data(input: &UserInput) -> (r: HookData)
    ensures
        r.deep_view() == (HookDataView::TurnStart {
            user_input: input.deep_view(),
            dynamic_sections: Seq::empty(),
        }),
{
    let dynamic_sections: Vec<String> = Vec::new();
    proof {
        assert(dynamic_sections.deep_view() =~= Seq::<Seq<char>>::empty());
    }
    HookData::TurnStart { user_input: input.clone(), dynamic_sections }
}

// ---------------------------------------------------------------------------
// Steps
// ---------------------------------------------------------------------------
/// A turn that stands in the given stage.
spec fn at_stage(turn: TurnView, stage: StageView) -> TurnView {
    TurnView { stage, ..turn }
}

/// Whether a stage comes before the tool calls of a model answer.
spec fn before_tools(stage: StageView) -> bool {
    ||| stage is Start
    ||| stage is Recall
    ||| stage is Request
    ||| stage is Gate
    ||| stage is Compact
    ||| stage is Ask
    ||| stage is Summarize
    ||| stage is Send
    ||| stage is Stream
}

/// Whether a stage belongs to the tool calls of a model answer.
spec fn amid_tools(stage: StageView) -> bool {
    ||| stage is Prepare
    ||| stage is Execute
    ||| stage is Serial
    ||| stage is SerialRun
    ||| stage is Parallel
    ||| stage is After
    ||| stage is Results
    ||| stage is Judge
}

/// What a step of the turn itself asks for.
enum Demand {
    Hooks(HookEvent, HookData),
    Act(TurnAction),
}

impl DeepView for Demand {
    type V = DemandView;

    closed spec fn deep_view(&self) -> DemandView {
        match self {
            Demand::Hooks(event, data) => DemandView::Hooks(*event, data.deep_view()),
            Demand::Act(action) => DemandView::Act(action.deep_view()),
        }
    }
}

impl Turn {
    /// A turn that has not started yet.
    pub fn begin(turn_id: String, input: UserInput, skill_injections: Vec<Message>) -> (r: Self)
        ensures
            r.deep_view() == (TurnView {
                turn_id: turn_id@,
                input: input.deep_view(),
                skill_injections: skill_injections.deep_view(),
                sections: Seq::empty(),
                memories: Seq::empty(),
                tool_calls_count: 0,
                allow_tools: true,
                limit_reached: false,
                retried: false,
                outbox: Seq::empty(),
                saving: None,
                dispatch: None,
                stage: StageView::Start,
            }),
            turn_sound(r.deep_view()),
    {
        let sections: Vec<String> = Vec::new();
        let memories: Vec<Memory> = Vec::new();
        let outbox: Vec<Outgoing> = Vec::new();
        proof {
            assert(sections.deep_view() =~= Seq::<Seq<char>>::empty());
            assert(memories.deep_view() =~= Seq::<MemoryView>::empty());
            assert(outbox.deep_view() =~= Seq::<OutgoingView>::empty());
        }
        Turn {
            turn_id,
            input,
            skill_injections,
            sections,
            memories,
            tool_calls_count: 0,
            allow_tools: true,
            limit_reached: false,
            retried: false,
            outbox,
            saving: None,
            dispatch: None,
            stage: Stage::Start,
        }
    }

    fn fail(self, error: AgentError) -> (r: Self)
        ensures
            r.deep_view() == failed(self.deep_view(), error.deep_view()),
    {
        let outbox: Vec<Outgoing> = Vec::new();
        proof {
            assert(outbox.deep_view() =~= Seq::<OutgoingView>::empty());
        }
        Turn {
            outbox,
            saving: None,
            dispatch: None,
            stage: Stage::Finished(TurnOutcome::Failed(error)),
            ..self
        }
    }

    fn interrupt(self, text: String) -> (r: Self)
        ensures
            r.deep_view() == interrupted_turn(self.deep_view(), text@),
    {
        let mut turn = self;
        if !text.as_str().is_empty() {
            push_outgoing(
                &mut turn.outbox,
                Outgoing::Persist(
                    LedgerEventPayload::AssistantMessage {
                        content: assistant_content(text.clone()),
                        status: MessageStatus::Incomplete,
                    },
                ),
            );
        }
        turn.stage = Stage::Ending { cancelled: true, assistant_output: text };
        turn
    }

    fn complete(self) -> (r: Self)
        ensures
            r.deep_view() == completed(self.deep_view()),
    {
        let mut turn = self;
        push_outgoing(&mut turn.outbox, Outgoing::Notify(AgentEventPayload::TurnComplete));
        turn.stage = Stage::Finished(TurnOutcome::Completed);
        turn
    }

    fn leave_uncompacted(self, error: AgentError) -> (r: Self)
        ensures
            r.deep_view() == uncompacted(self.deep_view(), error.deep_view()),
    {
        if self.retried {
            self.fail(error)
        } else {
            Turn { stage: Stage::Send, ..self }
        }
    }

    fn summarise(self, runtime: &SessionRuntime, plan: &CompactionPlan, attempt: Result<String>) -> (r:
        Self)
        ensures
            r.deep_view() == summarised(
                self.deep_view(),
                runtime.deep_view(),
                plan.deep_view(),
                outcome(attempt),
            ),
    {
        match runtime.context_manager.generate_compaction_marker(plan, attempt) {
            Ok(marker) => {
                let mut turn = self;
                push_outgoing(
                    &mut turn.outbox,
                    Outgoing::Persist(
                        LedgerEventPayload::Metadata {
                            key: MetadataKey::ContextCompaction,
                            value: MetadataValue::ContextCompaction(marker),
                        },
                    ),
                );
                push_outgoing(
                    &mut turn.outbox,
                    Outgoing::Notify(AgentEventPayload::ContextCompacted),
                );
                turn.stage = Stage::Send;
                turn
            },
            Err(AgentError::RequestCancelled) => {
                let text = String::new();
                proof {
                    assert(text@ =~= Seq::<char>::empty());
                }
                self.interrupt(text)
            },
            Err(error) => self.leave_uncompacted(error),
        }
    }

    fn plan(self, deps: &TurnDeps, runtime: &SessionRuntime) -> (r: Self)
        ensures
            r.deep_view() == planned(*deps, self.deep_view(), runtime.deep_view()),
    {
        match runtime.context_manager.plan_compaction(&runtime.ledger) {
            Err(error) => self.leave_uncompacted(error),
            Ok(plan) => match build_compaction_request(
                &plan,
                deps.compact_model_id.as_str(),
                deps.compact_capabilities,
                deps.compact_prompt.as_str(),
            ) {
                Ok(request) => Turn { stage: Stage::Ask { plan, request }, ..self },
                Err(error) => self.summarise(runtime, &plan, Err(error)),
            },
        }
    }

    fn launch(self, deps: &TurnDeps, batch: PreparedToolBatch, cancelled: bool) -> (r: Self)
        ensures
            r.deep_view() == launched(*deps, self.deep_view(), batch.deep_view(), cancelled),
    {
        if batch.has_mutating {
            Turn { stage: Stage::Serial(SerialBatch::new(batch)), ..self }
        } else if cancelled {
            Turn {
                stage: Stage::Results(cancelled_outcome(batch, deps.dispatcher.limits)),
                ..self
            }
        } else {
            let mut turn = self;
            let parallel = ParallelBatch::new(batch);
            push_events(&mut turn.outbox, parallel.launch_events());
            let left: usize = parallel.running().len();
            turn.stage = Stage::Parallel { batch: parallel, left, started: false };
            turn
        }
    }

    fn step_serial(self, deps: &TurnDeps, batch: SerialBatch, cancelled: bool) -> (r: Self)
        ensures
            r.deep_view() == stepped(*deps, self.deep_view(), batch.deep_view(), cancelled),
    {
        let mut turn = self;
        let mut serial = batch;
        match serial.next(cancelled, deps.dispatcher.limits) {
            SerialStep::Finished => {
                turn.stage = Stage::Results(serial.into_outcome());
            },
            SerialStep::Recorded(event) => {
                match event {
                    Some(payload) => {
                        push_outgoing(&mut turn.outbox, Outgoing::Notify(payload));
                    },
                    None => {},
                }
                turn.stage = Stage::Serial(serial);
            },
            SerialStep::Execute => {
                let event = serial.current().start_event();
                push_outgoing(&mut turn.outbox, Outgoing::Notify(event));
                turn.stage = Stage::SerialRun(serial);
            },
        }
        turn
    }

    fn judge(self, deps: &TurnDeps, count: usize, cancelled: bool, stop: bool) -> (r: Self)
        ensures
            r.deep_view() == judged(*deps, self.deep_view(), count as int, cancelled, stop),
    {
        let limit: usize = deps.config.max_tool_calls_per_turn;
        let mut turn = self;
        turn.tool_calls_count = turn.tool_calls_count.saturating_add(count);
        if cancelled {
            let text = String::new();
            proof {
                assert(text@ =~= Seq::<char>::empty());
            }
            return turn.interrupt(text);
        }
        if turn.tool_calls_count > limit {
            push_outgoing(
                &mut turn.outbox,
                Outgoing::Notify(
                    AgentEventPayload::Error(AgentError::MaxToolCallsExceeded { limit }),
                ),
            );
            let notice =
                "[TOOL_LIMIT_REACHED] You have reached the maximum number of tool calls (".to_owned().concat(
            decimal_text(limit as u64).as_str()).concat(
                ") for this turn. You MUST NOT call any more tools. Summarize your progress and provide a final response.",
            );
            push_outgoing(
                &mut turn.outbox,
                Outgoing::Persist(LedgerEventPayload::SystemMessage { content: notice }),
            );
            turn.allow_tools = false;
            turn.limit_reached = true;
        } else if stop {
            turn.allow_tools = false;
        }
        turn.stage = Stage::Request;
        turn
    }

    /// A step up to the end of a model answer.
    #[verifier::spinoff_prover]
    fn advance_model(
        self,
        deps: &TurnDeps,
        runtime: &SessionRuntime,
        cancelled: bool,
        stage: Stage,
    ) -> (r: (Self, Demand))
        requires
            turn_sound(at_stage(self.deep_view(), stage.deep_view())),
            before_tools(stage.deep_view()),
        ensures
            (r.0.deep_view(), r.1.deep_view()) == advanced(
                *deps,
                at_stage(self.deep_view(), stage.deep_view()),
                runtime.deep_view(),
                cancelled,
            ),
    {
        let mut turn = self;
        match stage {
            Stage::Start => {
                turn.stage = Stage::Start;
                let data = start_data(&turn.input);
                (turn, Demand::Hooks(HookEvent::TurnStart, data))
            },
            Stage::Recall => turn.recall(deps, runtime),
            Stage::Request => {
                let due = needs_compaction(deps, &turn, runtime);
                turn.retried = false;
                turn.stage = if due {
                    Stage::Gate
                } else {
                    Stage::Send
                };
                (turn, Demand::Act(TurnAction::Proceed))
            },
            Stage::Gate => {
                turn.stage = Stage::Gate;
                let data = HookData::BeforeCompact {
                    message_count: runtime.context_manager.visible_messages().len(),
                    estimated_tokens: runtime.context_manager.estimated_tokens(),
                };
                (turn, Demand::Hooks(HookEvent::BeforeCompact, data))
            },
            Stage::Compact => {
                turn.stage = Stage::Compact;
                (turn.plan(deps, runtime), Demand::Act(TurnAction::Proceed))
            },
            Stage::Ask { plan, request } => {
                let action = TurnAction::OpenChat(ChatRole::Compaction, request.clone());
                turn.stage = Stage::Ask { plan, request };
                (turn, Demand::Act(action))
            },
            Stage::Summarize { plan, text } => {
                turn.stage = Stage::Summarize { plan, text };
                (turn, Demand::Act(TurnAction::ReadChat))
            },
            Stage::Send => {
                turn.stage = Stage::Send;
                match build_request(deps, &turn, runtime) {
                    Ok(request) => (
                        turn,
                        Demand::Act(TurnAction::OpenChat(ChatRole::Main, request)),
                    ),
                    Err(error) => (turn.fail(error), Demand::Act(TurnAction::Proceed)),
                }
            },
            Stage::Stream(answer) => {
                turn.stage = Stage::Stream(answer);
                (turn, Demand::Act(TurnAction::ReadChat))
            },
            stage => {
                turn.stage = stage;
                (turn, Demand::Act(TurnAction::Proceed))
            },
        }
    }

    /// A step of the tool calls.
    #[verifier::spinoff_prover]
    fn advance_tools(
        self,
        deps: &TurnDeps,
        runtime: &SessionRuntime,
        cancelled: bool,
        stage: Stage,
    ) -> (r: (Self, Demand))
        requires
            turn_sound(at_stage(self.deep_view(), stage.deep_view())),
            amid_tools(stage.deep_view()),
        ensures
            (r.0.deep_view(), r.1.deep_view()) == advanced(
                *deps,
                at_stage(self.deep_view(), stage.deep_view()),
                runtime.deep_view(),
                cancelled,
            ),
    {
        let mut turn = self;
        match stage {
            Stage::Prepare { preparation, pending } => turn.prepare(deps, preparation, pending),
            Stage::Execute(batch) => (
                turn.launch(deps, batch, cancelled),
                Demand::Act(TurnAction::Proceed),
            ),
            Stage::Serial(batch) => (
                turn.step_serial(deps, batch, cancelled),
                Demand::Act(TurnAction::Proceed),
            ),
            Stage::SerialRun(batch) => {
                let runs = current_run(&batch);
                turn.stage = Stage::SerialRun(batch);
                (turn, Demand::Act(TurnAction::RunTools(runs)))
            },
            Stage::Parallel { batch, left, started } => turn.step_parallel(
                batch,
                left,
                started,
                cancelled,
            ),
            Stage::After { run, index, raw } => {
                let data = raw.after_tool_data();
                turn.stage = Stage::After { run, index, raw };
                (turn, Demand::Hooks(HookEvent::AfterToolUse, data))
            },
            Stage::Results(outcome) => {
                push_result_payloads(&mut turn.outbox, &outcome.results);
                turn.stage = Stage::Judge {
                    count: outcome.results.len(),
                    cancelled: outcome.cancelled,
                    stop: outcome.stop_after_batch,
                };
                (turn, Demand::Act(TurnAction::Proceed))
            },
            Stage::Judge { count, cancelled: was_cancelled, stop } => (
                turn.judge(deps, count, was_cancelled, stop),
                Demand::Act(TurnAction::Proceed),
            ),
            stage => {
                turn.stage = stage;
                (turn, Demand::Act(TurnAction::Proceed))
            },
        }
    }

    fn advance(self, deps: &TurnDeps, runtime: &SessionRuntime, cancelled: bool) -> (r: (
        Self,
        Demand,
    ))
        requires
            turn_sound(self.deep_view()),
        ensures
            (r.0.deep_view(), r.1.deep_view()) == advanced(
                *deps,
                self.deep_view(),
                runtime.deep_view(),
                cancelled,
            ),
    {
        let mut turn = self;
        let mut stage = Stage::Start;
        std::mem::swap(&mut stage, &mut turn.stage);
        match stage {
            Stage::Start
            | Stage::Recall
            | Stage::Request
            | Stage::Gate
            | Stage::Compact
            | Stage::Ask { .. }
            | Stage::Summarize { .. }
            | Stage::Send
            | Stage::Stream(_) => turn.advance_model(deps, runtime, cancelled, stage),
            Stage::Prepare { .. }
            | Stage::Execute(_)
            | Stage::Serial(_)
            | Stage::SerialRun(_)
            | Stage::Parallel { .. }
            | Stage::After { .. }
            | Stage::Results(_)
            | Stage::Judge { .. } => turn.advance_tools(deps, runtime, cancelled, stage),
            Stage::Ending { cancelled: was_cancelled, assistant_output } => {
                let data = HookData::TurnEnd {
                    assistant_output: assistant_output.clone(),
                    tool_calls_count: turn.tool_calls_count,
                    cancelled: was_cancelled,
                };
                turn.stage = Stage::Ending { cancelled: was_cancelled, assistant_output };
                (turn, Demand::Hooks(HookEvent::TurnEnd, data))
            },
            Stage::Checkpoint => turn.take_checkpoint(deps, runtime),
            Stage::Finished(outcome) => {
                turn.stage = Stage::Finished(outcome);
                (turn, Demand::Act(TurnAction::Finish))
            },
        }
    }

    fn recall(self, deps: &TurnDeps, runtime: &SessionRuntime) -> (r: (Self, Demand))
        ensures
            (r.0.deep_view(), r.1.deep_view()) == recalled(
                *deps,
                TurnView { stage: StageView::Recall, ..self.deep_view() },
                runtime.deep_view(),
            ),
    {
        let mut turn = self;
        if deps.memory_model_id.is_none() {
            turn.memories = runtime.bootstrap_memories.clone();
            turn.stage = Stage::Request;
            return (turn, Demand::Act(TurnAction::Proceed));
        }
        match load_turn_memories(
            &runtime.bootstrap_memories,
            &turn.input,
            deps.config.memory_max_items,
        ) {
            TurnMemories::Ready(memories) => {
                turn.memories = memories;
                turn.stage = Stage::Request;
                (turn, Demand::Act(TurnAction::Proceed))
            },
            TurnMemories::Search(query) => {
                turn.stage = Stage::Recall;
                (
                    turn,
                    Demand::Act(
                        TurnAction::SearchMemories {
                            namespace: runtime.memory_namespace.clone(),
                            query,
                            limit: deps.config.memory_max_items,
                        },
                    ),
                )
            },
        }
    }

    fn prepare(
        self,
        deps: &TurnDeps,
        preparation: BatchPreparation,
        pending: Vec<RequestedToolCall>,
    ) -> (r: (Self, Demand))
        ensures
            (r.0.deep_view(), r.1.deep_view()) == prepared(
                *deps,
                TurnView {
                    stage: StageView::Prepare {
                        preparation: preparation.deep_view(),
                        pending: pending.deep_view(),
                    },
                    ..self.deep_view()
                },
                preparation.deep_view(),
                pending.deep_view(),
            ),
    {
        let mut turn = self;
        let mut preparation = preparation;
        let mut pending = pending;
        let ghost asked = pending.deep_view();
        if pending.len() == 0 {
            let batch = preparation.finish();
            push_call_payloads(&mut turn.outbox, &batch.calls);
            turn.stage = Stage::Execute(batch);
            return (turn, Demand::Act(TurnAction::Proceed));
        }
        proof {
            assert(asked[0] == pending[0].deep_view());
        }
        match deps.dispatcher.offer(&mut preparation, &pending[0]) {
            Offer::Settled => {
                pending.remove(0);
                proof {
                    assert(pending.deep_view() =~= asked.drop_first());
                }
                turn.stage = Stage::Prepare { preparation, pending };
                (turn, Demand::Act(TurnAction::Proceed))
            },
            Offer::AskHooks(data) => {
                turn.stage = Stage::Prepare { preparation, pending };
                (turn, Demand::Hooks(HookEvent::BeforeToolUse, data))
            },
        }
    }

    fn step_parallel(self, batch: ParallelBatch, left: usize, started: bool, cancelled: bool) -> (r:
        (Self, Demand))
        ensures
            (r.0.deep_view(), r.1.deep_view()) == stepped_parallel(
                TurnView {
                    stage: StageView::Parallel { batch: batch.deep_view(), left, started },
                    ..self.deep_view()
                },
                batch.deep_view(),
                left,
                started,
                cancelled,
            ),
    {
        let mut turn = self;
        if left == 0 {
            match batch.into_outcome(cancelled) {
                Ok(outcome) => {
                    turn.stage = Stage::Results(outcome);
                    (turn, Demand::Act(TurnAction::Proceed))
                },
                Err(error) => (turn.fail(error), Demand::Act(TurnAction::Proceed)),
            }
        } else if started {
            turn.stage = Stage::Parallel { batch, left, started };
            (turn, Demand::Act(TurnAction::AwaitTool))
        } else {
            let runs = collect_runs(&batch);
            turn.stage = Stage::Parallel { batch, left, started: true };
            (turn, Demand::Act(TurnAction::RunTools(runs)))
        }
    }

    fn take_checkpoint(self, deps: &TurnDeps, runtime: &SessionRuntime) -> (r: (Self, Demand))
        ensures
            (r.0.deep_view(), r.1.deep_view()) == checkpointed(
                *deps,
                TurnView { stage: StageView::Checkpoint, ..self.deep_view() },
                runtime.deep_view(),
            ),
    {
        let mut turn = self;
        if is_checkpoint_due(deps, runtime) {
            match &deps.memory_model_id {
                Some(model_id) => {
                    turn.stage = Stage::Checkpoint;
                    let run = Extraction::begin(
                        &runtime.ledger,
                        runtime.last_memory_checkpoint_seq,
                        runtime.memory_namespace.clone(),
                        "checkpoint".to_owned(),
                        model_id.clone(),
                    );
                    return (turn, Demand::Act(TurnAction::Extract(run)));
                },
                None => {},
            }
        }
        (turn.complete(), Demand::Act(TurnAction::Proceed))
    }

    fn settle_hooks(self, deps: &TurnDeps, answer: Result<Vec<HookPatch>>) -> (r: Self)
        requires
            turn_sound(self.deep_view()),
            self.deep_view().dispatch is None,
            asks_hooks(self.deep_view().stage),
        ensures
            r.deep_view() == hooks_settled(*deps, self.deep_view(), outcome(answer)),
    {
        let mut turn = self;
        let mut stage = Stage::Start;
        std::mem::swap(&mut stage, &mut turn.stage);
        match stage {
            Stage::Start => match answer {
                Ok(patches) => {
                    turn.sections = collect_dynamic_sections(&patches);
                    push_skill_payloads(&mut turn.outbox, &turn.skill_injections);
                    push_outgoing(
                        &mut turn.outbox,
                        Outgoing::Persist(
                            LedgerEventPayload::UserMessage { content: turn.input.content.clone() },
                        ),
                    );
                    proof {
                        assert(turn.outbox.deep_view() =~= self.outbox.deep_view()
                            + skill_payloads(self.skill_injections.deep_view()).push(
                            turn.outbox.deep_view().last(),
                        ));
                    }
                    turn.stage = Stage::Recall;
                    turn
                },
                Err(error) => turn.fail(error),
            },
            Stage::Gate => match answer {
                Ok(_) => {
                    turn.stage = Stage::Compact;
                    turn
                },
                Err(AgentError::PluginAborted { .. }) => turn.leave_uncompacted(
                    AgentError::CompactError {
                        message: "BeforeCompact hook aborted fallback compaction".to_owned(),
                    },
                ),
                Err(error) => turn.fail(error),
            },
            Stage::Prepare { preparation: mut preparation, pending: mut pending } => {
                let ghost asked = pending.deep_view();
                proof {
                    assert(asked[0] == pending[0].deep_view());
                }
                let call = pending.remove(0);
                proof {
                    assert(pending.deep_view() =~= asked.drop_first());
                }
                match deps.dispatcher.settle_offer(&mut preparation, call, answer) {
                    Ok(_) => {
                        turn.stage = Stage::Prepare { preparation, pending };
                        turn
                    },
                    Err(error) => turn.fail(error),
                }
            },
            Stage::After { run, index, raw } => match deps.dispatcher.finalize_tool_execution(
                raw,
                answer,
            ) {
                Ok(done) => {
                    turn.stage = match run {
                        BatchRun::Serial(batch) => {
                            let mut batch = batch;
                            batch.record(done, deps.dispatcher.limits);
                            Stage::Serial(batch)
                        },
                        BatchRun::Parallel(batch, left) => {
                            let mut batch = batch;
                            batch.record(index, done);
                            Stage::Parallel { batch, left, started: true }
                        },
                    };
                    turn
                },
                Err(error) => turn.fail(error),
            },
            Stage::Ending { cancelled, assistant_output: _ } => match answer {
                Ok(_) => {
                    if cancelled {
                        push_outgoing(
                            &mut turn.outbox,
                            Outgoing::Notify(AgentEventPayload::TurnCancelled),
                        );
                        turn.stage = Stage::Finished(TurnOutcome::Cancelled);
                    } else if turn.limit_reached {
                        turn.stage = Stage::Finished(
                            TurnOutcome::Failed(
                                AgentError::MaxToolCallsExceeded {
                                    limit: deps.config.max_tool_calls_per_turn,
                                },
                            ),
                        );
                    } else {
                        turn.stage = Stage::Checkpoint;
                    }
                    turn
                },
                Err(error) => turn.fail(error),
            },
            stage => {
                turn.stage = stage;
                turn
            },
        }
    }

    /// What the turn does next, at the given time.
    pub fn next_at(
        self,
        deps: &TurnDeps,
        runtime: &mut SessionRuntime,
        cancelled: bool,
        now: Timestamp,
    ) -> (r: (Self, TurnAction))
        requires
            turn_sound(self.deep_view()),
        ensures
            (r.0.deep_view(), final(runtime).deep_view(), r.1.deep_view()) == turn_next(
                *deps,
                self.deep_view(),
                old(runtime).deep_view(),
                cancelled,
                now,
            ),
            turn_sound(r.0.deep_view()),
    {
        proof {
            law_next_keeps_sound(*deps, self.deep_view(), runtime.deep_view(), cancelled, now);
        }
        let mut turn = self;
        match &turn.saving {
            Some(event) => {
                let action = TurnAction::Save(event.clone());
                return (turn, action);
            },
            None => {},
        }
        match &turn.dispatch {
            Some(dispatch) => {
                match dispatch.next_call() {
                    Some(call) => {
                        let action = TurnAction::CallHook(call.clone());
                        return (turn, action);
                    },
                    None => {},
                }
            },
            None => {},
        }
        if turn.outbox.len() > 0 {
            let ghost queue = turn.outbox.deep_view();
            proof {
                assert(queue[0] == turn.outbox[0].deep_view());
            }
            let item = turn.outbox.remove(0);
            proof {
                assert(turn.outbox.deep_view() =~= queue.drop_first());
            }
            return match item {
                Outgoing::Persist(payload) => {
                    let event = runtime.allocate_event_at(payload, now);
                    let action = TurnAction::Save(event.clone());
                    turn.saving = Some(event);
                    (turn, action)
                },
                Outgoing::Notify(payload) => {
                    let event = runtime.next_event_at(turn.turn_id.as_str(), payload, now);
                    (turn, TurnAction::Emit(event))
                },
            };
        }
        proof {
            lemma_advanced_sound(*deps, self.deep_view(), runtime.deep_view(), cancelled);
        }
        let (turn, demand) = turn.advance(deps, runtime, cancelled);
        turn.serve(deps, runtime, demand, now)
    }

    fn serve(self, deps: &TurnDeps, runtime: &SessionRuntime, demand: Demand, now: Timestamp) -> (r:
        (Self, TurnAction))
        requires
            turn_sound(self.deep_view()),
            self.deep_view().dispatch is None,
            demand.deep_view() is Hooks ==> asks_hooks(self.deep_view().stage),
        ensures
            (r.0.deep_view(), r.1.deep_view()) == served(
                *deps,
                self.deep_view(),
                runtime.deep_view(),
                demand.deep_view(),
                now,
            ),
    {
        let mut turn = self;
        match demand {
            Demand::Act(action) => (turn, action),
            Demand::Hooks(event, data) => {
                let dispatch = deps.hooks.dispatch_at(
                    event,
                    runtime.session_id.as_str(),
                    Some(turn.turn_id.as_str()),
                    &data,
                    now,
                );
                match dispatch.next_call() {
                    Some(call) => {
                        let action = TurnAction::CallHook(call.clone());
                        turn.dispatch = Some(dispatch);
                        (turn, action)
                    },
                    None => {
                        let patches = dispatch.into_patches();
                        (turn.settle_hooks(deps, Ok(patches)), TurnAction::Proceed)
                    },
                }
            },
        }
    }

    /// What the turn does next, now.
    pub fn next(self, deps: &TurnDeps, runtime: &mut SessionRuntime, cancelled: bool) -> (r: (
        Self,
        TurnAction,
    ))
        requires
            turn_sound(self.deep_view()),
        ensures
            exists|now: Timestamp|
                (r.0.deep_view(), final(runtime).deep_view(), r.1.deep_view())
                    == #[trigger] turn_next(
                    *deps,
                    self.deep_view(),
                    old(runtime).deep_view(),
                    cancelled,
                    now,
                ),
            turn_sound(r.0.deep_view()),
    {
        let now = utc_now();
        self.next_at(deps, runtime, cancelled, now)
    }

    // -----------------------------------------------------------------------
    // Reports of the host
    // -----------------------------------------------------------------------
    /// Takes the outcome of storing an event.
    pub fn saved(
        self,
        runtime: &mut SessionRuntime,
        saved: std::result::Result<(), ErrorSource>,
    ) -> (r: Self)
        requires
            turn_sound(self.deep_view()),
            self.deep_view().saving is Some,
        ensures
            (r.deep_view(), final(runtime).deep_view()) == turn_saved(
                self.deep_view(),
                old(runtime).deep_view(),
                storage_result(saved),
            ),
            turn_sound(r.deep_view()),
    {
        let mut turn = self;
        let mut saving = None;
        std::mem::swap(&mut saving, &mut turn.saving);
        match saving {
            Some(event) => match runtime.persist_and_project(event, saved) {
                Ok(_) => turn,
                Err(error) => turn.fail(error),
            },
            None => turn,
        }
    }

    /// Takes the answer of a hook handler.
    pub fn hook_answered(self, deps: &TurnDeps, result: HookResult) -> (r: Self)
        requires
            turn_sound(self.deep_view()),
            self.deep_view().dispatch is Some,
        ensures
            r.deep_view() == turn_hook_answered(*deps, self.deep_view(), result.deep_view()),
            turn_sound(r.deep_view()),
    {
        proof {
            law_hook_answer_keeps_sound(*deps, self.deep_view(), result.deep_view());
        }
        let mut turn = self;
        let mut pending = None;
        std::mem::swap(&mut pending, &mut turn.dispatch);
        match pending {
            Some(dispatch) => {
                let mut dispatch = dispatch;
                match dispatch.accept(result) {
                    Ok(_) => {
                        if dispatch.next_call().is_some() {
                            turn.dispatch = Some(dispatch);
                            turn
                        } else {
                            turn.settle_hooks(deps, Ok(dispatch.into_patches()))
                        }
                    },
                    Err(error) => turn.settle_hooks(deps, Err(error)),
                }
            },
            None => turn,
        }
    }

    /// Takes the outcome of a search for memories.
    pub fn searched(
        self,
        deps: &TurnDeps,
        runtime: &SessionRuntime,
        found: std::result::Result<Vec<Memory>, ErrorSource>,
    ) -> (r: Self)
        requires
            turn_sound(self.deep_view()),
            self.deep_view().stage is Recall,
            self.deep_view().dispatch is None,
        ensures
            r.deep_view() == turn_searched(
                *deps,
                self.deep_view(),
                runtime.deep_view(),
                storage_result(found),
            ),
            turn_sound(r.deep_view()),
    {
        match found {
            Ok(memories) => {
                let merged = merge_memories(
                    &runtime.bootstrap_memories,
                    &memories,
                    deps.config.memory_max_items,
                );
                Turn { memories: merged, stage: Stage::Request, ..self }
            },
            Err(source) => self.fail(
                memory_storage_failure(
                    "failed to search memories for namespace '",
                    runtime.memory_namespace.as_str(),
                    source,
                ),
            ),
        }
    }

    /// Takes the outcome of sending a request.
    pub fn opened(
        self,
        runtime: &SessionRuntime,
        opened: std::result::Result<(), ErrorSource>,
        cancelled: bool,
    ) -> (r: Self)
        requires
            turn_sound(self.deep_view()),
            self.deep_view().stage is Ask || self.deep_view().stage is Send,
            self.deep_view().dispatch is None,
        ensures
            r.deep_view() == turn_opened(
                self.deep_view(),
                runtime.deep_view(),
                storage_result(opened),
                cancelled,
            ),
            turn_sound(r.deep_view()),
    {
        let mut turn = self;
        let mut stage = Stage::Start;
        std::mem::swap(&mut stage, &mut turn.stage);
        match stage {
            Stage::Ask { plan, request: _ } => match opened {
                Ok(_) => {
                    let text = String::new();
                    proof {
                        assert(text@ =~= Seq::<char>::empty());
                    }
                    turn.stage = Stage::Summarize { plan, text };
                    turn
                },
                Err(source) => turn.summarise(
                    runtime,
                    &plan,
                    Err(
                        provider_failure(
                            "failed to start compact chat request",
                            source.context("compact model failed to start chat request"),
                        ),
                    ),
                ),
            },
            Stage::Send => match opened {
                Ok(_) => {
                    turn.stage = Stage::Stream(ModelAnswer::new());
                    turn
                },
                Err(source) => {
                    if cancelled {
                        let text = String::new();
                        proof {
                            assert(text@ =~= Seq::<char>::empty());
                        }
                        turn.interrupt(text)
                    } else {
                        turn.fail(
                            provider_failure(
                                "failed to start provider chat request",
                                source.context("model provider failed to start chat request"),
                            ),
                        )
                    }
                },
            },
            stage => {
                turn.stage = stage;
                turn
            },
        }
    }

    fn answer(self, deps: &TurnDeps, answer: ModelAnswer) -> (r: Self)
        ensures
            r.deep_view() == answered(*deps, self.deep_view(), answer.deep_view()),
    {
        let mut turn = self;
        let ModelAnswer { assistant_output, tool_calls } = answer;
        if !assistant_output.as_str().is_empty() {
            push_outgoing(
                &mut turn.outbox,
                Outgoing::Persist(
                    LedgerEventPayload::AssistantMessage {
                        content: assistant_content(assistant_output.clone()),
                        status: MessageStatus::Complete,
                    },
                ),
            );
        }
        if tool_calls.len() == 0 {
            turn.stage = Stage::Ending { cancelled: false, assistant_output };
        } else {
            let preparation = deps.dispatcher.prepare_batch(&tool_calls);
            turn.stage = Stage::Prepare { preparation, pending: tool_calls };
        }
        turn
    }

    /// Takes the next item of an answer.
    pub fn read(
        self,
        deps: &TurnDeps,
        runtime: &SessionRuntime,
        item: StreamItem,
        cancelled: bool,
    ) -> (r: Self)
        requires
            turn_sound(self.deep_view()),
            self.deep_view().stage is Summarize || self.deep_view().stage is Stream,
            self.deep_view().dispatch is None,
        ensures
            r.deep_view() == turn_read(
                *deps,
                self.deep_view(),
                runtime.deep_view(),
                item.deep_view(),
                cancelled,
            ),
            turn_sound(r.deep_view()),
    {
        let mut turn = self;
        let mut stage = Stage::Start;
        std::mem::swap(&mut stage, &mut turn.stage);
        match stage {
            Stage::Summarize { plan, text } => match collect_text(
                TextPurpose::Compaction,
                text,
                item,
                cancelled,
            ) {
                Collected::More(text) => {
                    turn.stage = Stage::Summarize { plan, text };
                    turn
                },
                Collected::Complete(text) => turn.summarise(runtime, &plan, Ok(text)),
                Collected::Failed(error) => turn.summarise(runtime, &plan, Err(error)),
            },
            Stage::Stream(answer) => match consume_provider_stream(
                answer,
                item,
                turn.allow_tools,
                cancelled,
            ) {
                Consumed::More(answer, event) => {
                    match event {
                        Some(payload) => {
                            push_outgoing(&mut turn.outbox, Outgoing::Notify(payload));
                        },
                        None => {},
                    }
                    turn.stage = Stage::Stream(answer);
                    turn
                },
                Consumed::Complete(answer) => turn.answer(deps, answer),
                Consumed::Cancelled(answer) => turn.interrupt(answer.assistant_output),
                Consumed::TooLong => {
                    if turn.retried {
                        turn.fail(
                            AgentError::CompactError {
                                message:
                                    "provider still rejected the request after fallback compaction".to_owned(),
                            },
                        )
                    } else {
                        turn.retried = true;
                        turn.stage = Stage::Gate;
                        turn
                    }
                },
                Consumed::Failed(error) => turn.fail(error),
            },
            stage => {
                turn.stage = stage;
                turn
            },
        }
    }

    /// Takes the end of a tool.
    pub fn tool_ended(
        self,
        deps: &TurnDeps,
        index: usize,
        completion: ToolCompletion,
        duration_ms: u64,
    ) -> (r: Self)
        requires
            turn_sound(self.deep_view()),
            self.deep_view().dispatch is None,
            match self.deep_view().stage {
                StageView::SerialRun(_) => true,
                StageView::Parallel { batch, left, .. } => left > 0 && index < batch.calls.len(),
                _ => false,
            },
        ensures
            r.deep_view() == turn_tool_ended(
                *deps,
                self.deep_view(),
                index,
                completion.deep_view(),
                duration_ms,
            ),
            turn_sound(r.deep_view()),
    {
        let mut turn = self;
        let mut stage = Stage::Start;
        std::mem::swap(&mut stage, &mut turn.stage);
        match stage {
            Stage::SerialRun(batch) => {
                let raw = deps.dispatcher.perform_tool_execution(
                    batch.current(),
                    completion,
                    duration_ms,
                );
                push_events(&mut turn.outbox, raw.end_events());
                turn.stage = Stage::After { run: BatchRun::Serial(batch), index, raw };
                turn
            },
            Stage::Parallel { batch, left, started: _ } => {
                let raw = deps.dispatcher.perform_tool_execution(
                    batch.call(index),
                    completion,
                    duration_ms,
                );
                push_events(&mut turn.outbox, raw.end_events());
                turn.stage = Stage::After {
                    run: BatchRun::Parallel(batch, left - 1),
                    index,
                    raw,
                };
                turn
            },
            stage => {
                turn.stage = stage;
                turn
            },
        }
    }

    /// Takes the result of a memory extraction.
    pub fn extracted(self, result: Result<Option<u64>>) -> (r: Self)
        requires
            turn_sound(self.deep_view()),
            self.deep_view().stage is Checkpoint,
            self.deep_view().dispatch is None,
        ensures
            r.deep_view() == turn_extracted(self.deep_view(), outcome(result)),
            turn_sound(r.deep_view()),
    {
        let mut turn = self;
        match result {
            Ok(Some(seq)) => {
                push_outgoing(
                    &mut turn.outbox,
                    Outgoing::Persist(
                        LedgerEventPayload::Metadata {
                            key: MetadataKey::MemoryCheckpoint,
                            value: MetadataValue::MemoryCheckpoint(seq),
                        },
                    ),
                );
            },
            _ => {},
        }
        turn.complete()
    }

    /// The outcome of a turn that is over.
    pub fn into_outcome(self) -> (r: Option<TurnOutcome>)
        ensures
            match self.deep_view().stage {
                StageView::Finished(end) => r matches Some(o) && o.deep_view() == end,
                _ => r is None,
            },
    {
        match self.stage {
            Stage::Finished(end) => Some(end),
            _ => None,
        }
    }
}

} // verus!
