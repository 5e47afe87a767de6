//! The state of a running turn and what it needs from the host.

use crate::application::context_manager::{CompactionPlan, PlanView};
use crate::application::hook_registry::{
    DispatchView, HookCall, HookCallView, HookDispatch, HookRegistry,
};
use crate::application::memory_extraction::{Extraction, ExtractionView};
use crate::application::stream::{AnswerView, ModelAnswer};
use crate::application::tool_batch::{ParallelBatch, ParallelView, SerialBatch, SerialView};
use crate::application::tool_dispatcher::{
    BatchOutcomeView, BatchPreparation, BatchView, PreparationView, PreparedToolBatch, RawToolExecution,
    RawView, RequestedToolCall, RequestedView, ToolBatchOutcome, ToolDispatcher,
};
use crate::domain::config::AgentConfig;
use crate::domain::event::{AgentEvent, AgentEventPayload, AgentEventView, EventPayloadView};
use crate::domain::ledger::{LedgerEvent, LedgerEventPayload, LedgerEventView, PayloadView};
use crate::domain::state::{TurnOutcome, TurnOutcomeView};
use crate::domain::types::{
    ContentBlockView, Memory, MemoryView, Message, MessageView, SkillDefinition, UserInput,
};
use crate::ports::model::{ChatRequest, ChatRequestView, ModelCapabilities, ToolDefinition};
use crate::ports::plugin::PluginDescriptor;
use crate::ports::tool::{ToolInput, ToolInputView};
use vstd::prelude::*;

verus! {

/// What a turn works with; none of it changes while the turn runs.
pub struct TurnDeps<'a> {
    /// Configuration of the agent.
    pub config: &'a AgentConfig,
    /// Capabilities of the session's model.
    pub capabilities: ModelCapabilities,
    /// Active plugins.
    pub plugins: Vec<PluginDescriptor>,
    /// Skills listed to the model.
    pub implicit_skills: Vec<SkillDefinition>,
    /// Tools of the session.
    pub tool_definitions: Vec<ToolDefinition>,
    /// Tools by name, and their limits.
    pub dispatcher: ToolDispatcher<'a>,
    /// Hooks of all plugins.
    pub hooks: &'a HookRegistry,
    /// Model for compaction.
    pub compact_model_id: String,
    /// Capabilities of the model for compaction.
    pub compact_capabilities: ModelCapabilities,
    /// Prompt for compaction.
    pub compact_prompt: String,
    /// Model for memory extraction, where memories are stored at all.
    pub memory_model_id: Option<String>,
}

/// Something to store or to announce.
#[derive(Debug)]
pub enum Outgoing {
    /// A payload for the ledger.
    Persist(LedgerEventPayload),
    /// A payload for the caller.
    Notify(AgentEventPayload),
}

/// Model of [`Outgoing`].
#[verifier::ext_equal]
pub enum OutgoingView {
    Persist(PayloadView),
    Notify(EventPayloadView),
}

impl DeepView for Outgoing {
    type V = OutgoingView;

    open spec fn deep_view(&self) -> OutgoingView {
        match self {
            Outgoing::Persist(payload) => OutgoingView::Persist(payload.deep_view()),
            Outgoing::Notify(payload) => OutgoingView::Notify(payload.deep_view()),
        }
    }
}

/// The batch that a finished run belongs to.
#[derive(Debug)]
pub enum BatchRun {
    /// A serial batch.
    Serial(SerialBatch),
    /// A parallel batch, and how many of its runs are still under way.
    Parallel(ParallelBatch, usize),
}

/// Model of [`BatchRun`].
#[verifier::ext_equal]
pub enum BatchRunView {
    Serial(SerialView),
    Parallel(ParallelView, usize),
}

impl DeepView for BatchRun {
    type V = BatchRunView;

    open spec fn deep_view(&self) -> BatchRunView {
        match self {
            BatchRun::Serial(batch) => BatchRunView::Serial(batch.deep_view()),
            BatchRun::Parallel(batch, left) => BatchRunView::Parallel(batch.deep_view(), *left),
        }
    }
}

/// How far a turn has come.
#[derive(Debug)]
pub enum Stage {
    /// Hooks are asked whether the turn may start.
    Start,
    /// The memories of the turn are to be loaded.
    Recall,
    /// The model is to be asked, after a compaction where one is due.
    Request,
    /// Hooks are asked whether the context may be compacted.
    Gate,
    /// A compaction is to be planned.
    Compact,
    /// A summary is to be asked for.
    Ask {
        /// What is compacted.
        plan: CompactionPlan,
        /// The request for the summary.
        request: ChatRequest,
    },
    /// A summary is being read.
    Summarize {
        /// What is compacted.
        plan: CompactionPlan,
        /// The summary so far.
        text: String,
    },
    /// The request to the model is to be sent.
    Send,
    /// The answer of the model is being read.
    Stream(ModelAnswer),
    /// Tool calls are being prepared.
    Prepare {
        /// The calls prepared so far.
        preparation: BatchPreparation,
        /// The calls still to prepare.
        pending: Vec<RequestedToolCall>,
    },
    /// Prepared tool calls are to be run.
    Execute(PreparedToolBatch),
    /// A serial batch goes on to its next call.
    Serial(SerialBatch),
    /// The current call of a serial batch runs.
    SerialRun(SerialBatch),
    /// Calls of a parallel batch run.
    Parallel {
        /// The batch.
        batch: ParallelBatch,
        /// Number of runs still under way.
        left: usize,
        /// Whether the runs have been started.
        started: bool,
    },
    /// Hooks are told about a finished run.
    After {
        /// The batch of the run.
        run: BatchRun,
        /// Position of the call.
        index: usize,
        /// The finished run.
        raw: RawToolExecution,
    },
    /// The results of a batch are to be stored.
    Results(ToolBatchOutcome),
    /// It is to be decided how the turn goes on after a batch.
    Judge {
        /// Number of results.
        count: usize,
        /// Whether the turn was cancelled.
        cancelled: bool,
        /// Whether no more tools may be offered.
        stop: bool,
    },
    /// Hooks are told that the turn ends.
    Ending {
        /// Whether the turn was cancelled.
        cancelled: bool,
        /// Last output of the assistant.
        assistant_output: String,
    },
    /// A memory checkpoint is taken where one is due.
    Checkpoint,
    /// The turn is over.
    Finished(TurnOutcome),
}

/// Model of [`Stage`].
#[verifier::ext_equal]
pub enum StageView {
    Start,
    Recall,
    Request,
    Gate,
    Compact,
    Ask { plan: PlanView, request: ChatRequestView },
    Summarize { plan: PlanView, text: Seq<char> },
    Send,
    Stream(AnswerView),
    Prepare { preparation: PreparationView, pending: Seq<RequestedView> },
    Execute(BatchView),
    Serial(SerialView),
    SerialRun(SerialView),
    Parallel { batch: ParallelView, left: usize, started: bool },
    After { run: BatchRunView, index: usize, raw: RawView },
    Results(BatchOutcomeView),
    Judge { count: int, cancelled: bool, stop: bool },
    Ending { cancelled: bool, assistant_output: Seq<char> },
    Checkpoint,
    Finished(TurnOutcomeView),
}

impl DeepView for Stage {
    type V = StageView;

    open spec fn deep_view(&self) -> StageView {
        match self {
            Stage::Start => StageView::Start,
            Stage::Recall => StageView::Recall,
            Stage::Request => StageView::Request,
            Stage::Gate => StageView::Gate,
            Stage::Compact => StageView::Compact,
            Stage::Ask { plan, request } => StageView::Ask {
                plan: plan.deep_view(),
                request: request.deep_view(),
            },
            Stage::Summarize { plan, text } => StageView::Summarize {
                plan: plan.deep_view(),
                text: text@,
            },
            Stage::Send => StageView::Send,
            Stage::Stream(answer) => StageView::Stream(answer.deep_view()),
            Stage::Prepare { preparation, pending } => StageView::Prepare {
                preparation: preparation.deep_view(),
                pending: pending.deep_view(),
            },
            Stage::Execute(batch) => StageView::Execute(batch.deep_view()),
            Stage::Serial(batch) => StageView::Serial(batch.deep_view()),
            Stage::SerialRun(batch) => StageView::SerialRun(batch.deep_view()),
            Stage::Parallel { batch, left, started } => StageView::Parallel {
                batch: batch.deep_view(),
                left: *left,
                started: *started,
            },
            Stage::After { run, index, raw } => StageView::After {
                run: run.deep_view(),
                index: *index,
                raw: raw.deep_view(),
            },
            Stage::Results(outcome) => StageView::Results(outcome.deep_view()),
            Stage::Judge { count, cancelled, stop } => StageView::Judge {
                count: *count as int,
                cancelled: *cancelled,
                stop: *stop,
            },
            Stage::Ending { cancelled, assistant_output } => StageView::Ending {
                cancelled: *cancelled,
                assistant_output: assistant_output@,
            },
            Stage::Checkpoint => StageView::Checkpoint,
            Stage::Finished(outcome) => StageView::Finished(outcome.deep_view()),
        }
    }
}

/// A running turn.
#[derive(Debug)]
pub struct Turn {
    /// Turn id.
    pub turn_id: String,
    /// Input of the turn.
    pub input: UserInput,
    /// Messages of the skills that the input invokes.
    pub skill_injections: Vec<Message>,
    /// Dynamic sections given by plugins.
    pub sections: Vec<String>,
    /// Memories of the turn.
    pub memories: Vec<Memory>,
    /// Number of tool results so far.
    pub tool_calls_count: usize,
    /// Whether tools are offered.
    pub allow_tools: bool,
    /// Whether the limit of tool calls has been exceeded.
    pub limit_reached: bool,
    /// Whether a request that was too long has been retried.
    pub retried: bool,
    /// What is still to be stored or announced, in order.
    pub outbox: Vec<Outgoing>,
    /// The ledger event being stored.
    pub saving: Option<LedgerEvent>,
    /// The hooks being called.
    pub dispatch: Option<HookDispatch>,
    /// How far the turn has come.
    pub stage: Stage,
}

/// Model of [`Turn`].
#[verifier::ext_equal]
pub struct TurnView {
    pub turn_id: Seq<char>,
    pub input: Seq<ContentBlockView>,
    pub skill_injections: Seq<MessageView>,
    pub sections: Seq<Seq<char>>,
    pub memories: Seq<MemoryView>,
    pub tool_calls_count: usize,
    pub allow_tools: bool,
    pub limit_reached: bool,
    pub retried: bool,
    pub outbox: Seq<OutgoingView>,
    pub saving: Option<LedgerEventView>,
    pub dispatch: Option<DispatchView>,
    pub stage: StageView,
}

impl DeepView for Turn {
    type V = TurnView;

    open spec fn deep_view(&self) -> TurnView {
        TurnView {
            turn_id: self.turn_id@,
            input: self.input.deep_view(),
            skill_injections: self.skill_injections.deep_view(),
            sections: self.sections.deep_view(),
            memories: self.memories.deep_view(),
            tool_calls_count: self.tool_calls_count,
            allow_tools: self.allow_tools,
            limit_reached: self.limit_reached,
            retried: self.retried,
            outbox: self.outbox.deep_view(),
            saving: self.saving.deep_view(),
            dispatch: self.dispatch.deep_view(),
            stage: self.stage.deep_view(),
        }
    }
}

/// Which model a request goes to.
#[derive(Debug, Clone, Copy, PartialEq, Eq, Structural)]
pub enum ChatRole {
    /// The model of the session.
    Main,
    /// The model for compaction.
    Compaction,
}

/// One tool to run: the position of its call, and its input.
#[derive(Debug, PartialEq, Eq)]
pub struct ToolRun {
    /// Position of the call in its batch.
    pub index: usize,
    /// Input of the tool.
    pub input: ToolInput,
}

/// Model of [`ToolRun`].
#[verifier::ext_equal]
pub struct ToolRunView {
    pub index: usize,
    pub input: ToolInputView,
}

impl DeepView for ToolRun {
    type V = ToolRunView;

    open spec fn deep_view(&self) -> ToolRunView {
        ToolRunView { index: self.index, input: self.input.deep_view() }
    }
}

/// What a turn needs from the host.
#[derive(Debug)]
pub enum TurnAction {
    /// Store a ledger event, and report the outcome.
    Save(LedgerEvent),
    /// Hand an event to the caller.
    Emit(AgentEvent),
    /// Call a hook handler, and report its answer.
    CallHook(HookCall),
    /// Search memories, and report what was found.
    SearchMemories {
        /// Namespace of the session.
        namespace: String,
        /// What to search for.
        query: String,
        /// Most memories to return.
        limit: usize,
    },
    /// Send a request, and report whether the answer started.
    OpenChat(ChatRole, ChatRequest),
    /// Read the next item of the answer.
    ReadChat,
    /// Start tools, and report the first that ends.
    RunTools(Vec<ToolRun>),
    /// Wait for the next started tool to end.
    AwaitTool,
    /// Carry out a memory extraction, and report its result.
    Extract(Extraction),
    /// Nothing; ask again.
    Proceed,
    /// Nothing more; the turn is over.
    Finish,
}

/// Model of [`TurnAction`].
#[verifier::ext_equal]
pub enum TurnActionView {
    Save(LedgerEventView),
    Emit(AgentEventView),
    CallHook(HookCallView),
    SearchMemories { namespace: Seq<char>, query: Seq<char>, limit: usize },
    OpenChat(ChatRole, ChatRequestView),
    ReadChat,
    RunTools(Seq<ToolRunView>),
    AwaitTool,
    Extract(ExtractionView),
    Proceed,
    Finish,
}

impl DeepView for TurnAction {
    type V = TurnActionView;

    open spec fn deep_view(&self) -> TurnActionView {
        match self {
            TurnAction::Save(event) => TurnActionView::Save(event.deep_view()),
            TurnAction::Emit(event) => TurnActionView::Emit(event.deep_view()),
            TurnAction::CallHook(call) => TurnActionView::CallHook(call.deep_view()),
            TurnAction::SearchMemories { namespace, query, limit } =>
            TurnActionView::SearchMemories {
                namespace: namespace@,
                query: query@,
                limit: *limit,
            },
            TurnAction::OpenChat(role, request) => TurnActionView::OpenChat(
                *role,
                request.deep_view(),
            ),
            TurnAction::ReadChat => TurnActionView::ReadChat,
            TurnAction::RunTools(runs) => TurnActionView::RunTools(runs.deep_view()),
            TurnAction::AwaitTool => TurnActionView::AwaitTool,
            TurnAction::Extract(run) => TurnActionView::Extract(run.deep_view()),
            TurnAction::Proceed => TurnActionView::Proceed,
            TurnAction::Finish => TurnActionView::Finish,
        }
    }
}

} // verus!
