//! Whole agents, driven step by step against scripted providers, tools,
//! plugins and storages.

use std::cell::RefCell;
use std::collections::{BTreeMap, VecDeque};
use std::rc::Rc;

use youyou_agent::api::{ModelOffer, PendingTurn, ProviderOffer};
use youyou_agent::application::memory_extraction::{Extraction, ExtractionAction};
use youyou_agent::application::memory_manager::{ExtractionResult, MemoryOperation, MemoryWrite};
use youyou_agent::application::plugin_manager::PluginAction;
use youyou_agent::application::session_closing::{settle_shutdown, SessionClosing};
use youyou_agent::application::session_control::ShutdownStart;
use youyou_agent::application::session_runtime::SessionRuntime;
use youyou_agent::application::session_service::{SessionAction, SessionOpening};
use youyou_agent::application::tool_dispatcher::{RegisteredTool, ToolCompletion};
use youyou_agent::application::turn_state::{ChatRole, ToolRun, Turn, TurnAction};
use youyou_agent::clock::Timestamp;
use youyou_agent::domain::ErrorSource;
use youyou_agent::json::JsonValue;
use youyou_agent::ports::StreamItem;
use youyou_agent::{
    Agent, AgentBuilder, AgentConfig, AgentError, AgentEvent, AgentEventPayload, ChatError,
    ChatEvent, ChatRequest, ContentBlock, HookEvent, HookPatch, HookResult, LedgerEvent,
    LedgerEventPayload, Memory, Message, MessageStatus, MetadataKey, ModelCapabilities, ModelInfo,
    PluginDescriptor, SessionConfig, SessionHandle, SessionPage, SessionSearchQuery,
    SessionSummary, SkillDefinition, TokenUsage, ToolDefinition, ToolInput, ToolOutput,
    TurnOutcome, UserInput,
};

const RESUME_CANCEL_NOTICE: &str = "[此消息因用户取消而中断]";

// ---------------------------------------------------------------------------
// Providers
// ---------------------------------------------------------------------------

enum Step {
    Emit(ChatEvent),
    WaitForCancel,
}

struct ProviderState {
    id: String,
    models: Vec<ModelInfo>,
    scripts: VecDeque<Vec<Step>>,
    requests: Vec<ChatRequest>,
}

#[derive(Clone)]
struct FakeProvider {
    state: Rc<RefCell<ProviderState>>,
}

impl FakeProvider {
    fn new(id: &str, models: Vec<ModelInfo>) -> Self {
        FakeProvider {
            state: Rc::new(RefCell::new(ProviderState {
                id: id.to_string(),
                models,
                scripts: VecDeque::new(),
                requests: Vec::new(),
            })),
        }
    }

    fn id(&self) -> String {
        self.state.borrow().id.clone()
    }

    fn enqueue_script(&self, steps: Vec<Step>) {
        self.state.borrow_mut().scripts.push_back(steps);
    }

    fn chat_calls(&self) -> usize {
        self.state.borrow().requests.len()
    }

    fn requests(&self) -> Vec<ChatRequest> {
        self.state.borrow().requests.clone()
    }

    fn chat(&self, request: ChatRequest) -> VecDeque<Step> {
        let mut state = self.state.borrow_mut();
        state.requests.push(request);
        match state.scripts.pop_front() {
            Some(script) => script.into_iter().collect(),
            None => VecDeque::from(vec![done()]),
        }
    }
}

// ---------------------------------------------------------------------------
// Tools
// ---------------------------------------------------------------------------

struct ToolState {
    inputs: Vec<ToolInput>,
    started_at: Vec<u64>,
    finished_at: Vec<u64>,
    timed_out: usize,
}

#[derive(Clone)]
struct FakeTool {
    name: String,
    mutating: bool,
    delay_ms: u64,
    failure: Option<String>,
    hangs: bool,
    output: ToolOutput,
    state: Rc<RefCell<ToolState>>,
}

impl FakeTool {
    fn new(name: &str, mutating: bool) -> Self {
        FakeTool {
            name: name.to_string(),
            mutating,
            delay_ms: 0,
            failure: None,
            hangs: false,
            output: ToolOutput {
                content: "ok".to_string(),
                is_error: false,
                metadata: JsonValue::empty_object(),
            },
            state: Rc::new(RefCell::new(ToolState {
                inputs: Vec::new(),
                started_at: Vec::new(),
                finished_at: Vec::new(),
                timed_out: 0,
            })),
        }
    }

    fn with_delay_ms(mut self, delay_ms: u64) -> Self {
        self.delay_ms = delay_ms;
        self
    }

    fn with_failure(mut self, message: &str) -> Self {
        self.failure = Some(message.to_string());
        self
    }

    fn wait_for_timeout_cancel(mut self) -> Self {
        self.hangs = true;
        self
    }

    fn with_output(mut self, output: ToolOutput) -> Self {
        self.output = output;
        self
    }

    fn execute_calls(&self) -> usize {
        self.state.borrow().inputs.len()
    }

    fn first_started_at(&self) -> u64 {
        self.state.borrow().started_at[0]
    }

    fn first_finished_at(&self) -> u64 {
        self.state.borrow().finished_at[0]
    }
}

// ---------------------------------------------------------------------------
// Plugins
// ---------------------------------------------------------------------------

struct PluginState {
    initialize: usize,
    apply: usize,
    shutdown: usize,
}

#[derive(Clone)]
struct FakePlugin {
    descriptor: PluginDescriptor,
    initialize_error: Option<String>,
    taps: Option<(HookEvent, HookResult)>,
    state: Rc<RefCell<PluginState>>,
}

impl FakePlugin {
    fn new(id: &str, tapped_hooks: Vec<HookEvent>) -> Self {
        FakePlugin {
            descriptor: PluginDescriptor {
                id: id.to_string(),
                display_name: id.to_string(),
                description: format!("plugin {id}"),
                tapped_hooks,
            },
            initialize_error: None,
            taps: None,
            state: Rc::new(RefCell::new(PluginState { initialize: 0, apply: 0, shutdown: 0 })),
        }
    }

    fn failing(mut self, message: &str) -> Self {
        self.initialize_error = Some(message.to_string());
        self
    }

    fn tapping(mut self, event: HookEvent, result: HookResult) -> Self {
        self.taps = Some((event, result));
        self
    }

    fn initialize_calls(&self) -> usize {
        self.state.borrow().initialize
    }

    fn apply_calls(&self) -> usize {
        self.state.borrow().apply
    }

    fn shutdown_calls(&self) -> usize {
        self.state.borrow().shutdown
    }
}

fn aborting_plugin(id: &str, event: HookEvent, reason: &str) -> FakePlugin {
    FakePlugin::new(id, vec![event]).tapping(event, HookResult::Abort(reason.to_string()))
}

// ---------------------------------------------------------------------------
// Storages
// ---------------------------------------------------------------------------

enum Failing {
    UserMessage,
    Metadata(MetadataKey),
}

struct SessionState {
    sessions: BTreeMap<String, Vec<LedgerEvent>>,
    summaries: BTreeMap<String, SessionSummary>,
    failing: Vec<Failing>,
}

#[derive(Clone)]
struct FakeSessionStorage {
    state: Rc<RefCell<SessionState>>,
}

impl FakeSessionStorage {
    fn new() -> Self {
        FakeSessionStorage {
            state: Rc::new(RefCell::new(SessionState {
                sessions: BTreeMap::new(),
                summaries: BTreeMap::new(),
                failing: Vec::new(),
            })),
        }
    }

    fn fail_on(&self, rule: Failing) {
        self.state.borrow_mut().failing.push(rule);
    }

    fn clear_failures(&self) {
        self.state.borrow_mut().failing.clear();
    }

    fn saved_events(&self, session_id: &str) -> Vec<LedgerEvent> {
        match self.state.borrow().sessions.get(session_id) {
            Some(events) => events.clone(),
            None => Vec::new(),
        }
    }

    fn summaries(&self) -> Vec<SessionSummary> {
        self.state.borrow().summaries.values().cloned().collect()
    }

    fn save_event(&self, session_id: &str, event: LedgerEvent) -> Result<(), ErrorSource> {
        let mut state = self.state.borrow_mut();
        let refused = state.failing.iter().any(|rule| match (rule, &event.payload) {
            (Failing::UserMessage, LedgerEventPayload::UserMessage { .. }) => true,
            (Failing::Metadata(expected), LedgerEventPayload::Metadata { key, .. }) => {
                expected == key
            }
            _ => false,
        });
        if refused {
            return Err(ErrorSource::new("simulated persistence failure"));
        }
        let summary =
            state.summaries.entry(session_id.to_string()).or_insert_with(|| SessionSummary {
                session_id: session_id.to_string(),
                title: None,
                created_at: event.timestamp,
                updated_at: event.timestamp,
                message_count: 0,
            });
        summary.updated_at = event.timestamp;
        if matches!(
            event.payload,
            LedgerEventPayload::UserMessage { .. } | LedgerEventPayload::AssistantMessage { .. }
        ) {
            summary.message_count += 1;
        }
        state.sessions.entry(session_id.to_string()).or_default().push(event);
        Ok(())
    }

    fn load_session(&self, session_id: &str) -> Option<Vec<LedgerEvent>> {
        self.state.borrow().sessions.get(session_id).cloned()
    }
}

struct MemoryState {
    memories: Vec<Memory>,
    list_recent_namespaces: Vec<String>,
    search_calls: Vec<(String, String, usize)>,
}

#[derive(Clone)]
struct FakeMemoryStorage {
    state: Rc<RefCell<MemoryState>>,
}

impl FakeMemoryStorage {
    fn new() -> Self {
        FakeMemoryStorage {
            state: Rc::new(RefCell::new(MemoryState {
                memories: Vec::new(),
                list_recent_namespaces: Vec::new(),
                search_calls: Vec::new(),
            })),
        }
    }

    fn insert(&self, memory: Memory) {
        self.state.borrow_mut().memories.push(memory);
    }

    fn memories(&self) -> Vec<Memory> {
        self.state.borrow().memories.clone()
    }

    fn list_recent_namespaces(&self) -> Vec<String> {
        self.state.borrow().list_recent_namespaces.clone()
    }

    fn search_calls(&self) -> Vec<(String, String, usize)> {
        self.state.borrow().search_calls.clone()
    }

    fn newest(&self, namespace: &str, limit: usize) -> Vec<Memory> {
        let mut found: Vec<Memory> = self
            .state
            .borrow()
            .memories
            .iter()
            .filter(|memory| memory.namespace == namespace)
            .cloned()
            .collect();
        found.sort_by(|left, right| {
            (right.updated_at.seconds, right.updated_at.nanos)
                .cmp(&(left.updated_at.seconds, left.updated_at.nanos))
        });
        found.truncate(limit);
        found
    }

    fn list_recent(&self, namespace: &str, limit: usize) -> Vec<Memory> {
        self.state.borrow_mut().list_recent_namespaces.push(namespace.to_string());
        self.newest(namespace, limit)
    }

    fn search(&self, namespace: &str, query: &str, limit: usize) -> Vec<Memory> {
        self.state.borrow_mut().search_calls.push((
            namespace.to_string(),
            query.to_string(),
            limit,
        ));
        self.newest(namespace, limit)
    }

    fn write(&self, write: MemoryWrite) {
        let mut state = self.state.borrow_mut();
        match write {
            MemoryWrite::Upsert(memory) => {
                match state.memories.iter().position(|known| known.id == memory.id) {
                    Some(position) => state.memories[position] = memory,
                    None => state.memories.push(memory),
                }
            }
            MemoryWrite::Delete(id) => state.memories.retain(|known| known.id != id),
        }
    }
}

/// Reads what the extraction model returned.
fn parse_extraction(text: &str) -> Option<ExtractionResult> {
    let value: serde_json::Value = serde_json::from_str(text).ok()?;
    let mut memory_operations = Vec::new();
    for operation in value.get("memoryOperations")?.as_array()? {
        let text_of = |name: &str| operation.get(name).and_then(|v| v.as_str()).map(str::to_string);
        let tags = match operation.get("tags").and_then(|v| v.as_array()) {
            Some(tags) => tags.iter().filter_map(|t| t.as_str()).map(str::to_string).collect(),
            None => Vec::new(),
        };
        memory_operations.push(match operation.get("action")?.as_str()? {
            "create" => MemoryOperation::Create { content: text_of("content")?, tags },
            "update" => MemoryOperation::Update {
                target_id: text_of("targetId")?,
                content: text_of("content")?,
                tags,
            },
            "delete" => MemoryOperation::Delete { target_id: text_of("targetId")? },
            _ => return None,
        });
    }
    Some(ExtractionResult {
        memory_operations,
        rollout_summary: String::new(),
        rollout_slug: String::new(),
    })
}

// ---------------------------------------------------------------------------
// The host
// ---------------------------------------------------------------------------

struct HostBuilder {
    config: AgentConfig,
    threshold: f64,
    providers: Vec<FakeProvider>,
    tools: Vec<FakeTool>,
    skills: Vec<SkillDefinition>,
    plugins: Vec<FakePlugin>,
    sessions: Vec<FakeSessionStorage>,
    memories: Vec<FakeMemoryStorage>,
}

fn host(config: AgentConfig) -> HostBuilder {
    HostBuilder {
        config,
        threshold: 0.8,
        providers: Vec::new(),
        tools: Vec::new(),
        skills: Vec::new(),
        plugins: Vec::new(),
        sessions: Vec::new(),
        memories: Vec::new(),
    }
}

impl HostBuilder {
    fn threshold(mut self, threshold: f64) -> Self {
        self.threshold = threshold;
        self
    }

    fn provider(mut self, provider: &FakeProvider) -> Self {
        self.providers.push(provider.clone());
        self
    }

    fn tool(mut self, tool: &FakeTool) -> Self {
        self.tools.push(tool.clone());
        self
    }

    fn skill(mut self, skill: SkillDefinition) -> Self {
        self.skills.push(skill);
        self
    }

    fn plugin(mut self, plugin: &FakePlugin) -> Self {
        self.plugins.push(plugin.clone());
        self
    }

    fn session_storage(mut self, storage: &FakeSessionStorage) -> Self {
        self.sessions.push(storage.clone());
        self
    }

    fn memory_storage(mut self, storage: &FakeMemoryStorage) -> Self {
        self.memories.push(storage.clone());
        self
    }

    fn build(self) -> Result<Host, AgentError> {
        let mut config = self.config;
        config.compact_threshold_in_range = self.threshold > 0.0 && self.threshold < 1.0;
        let threshold = self.threshold;
        // A builder without providers is of another type than one with some.
        if self.providers.is_empty() {
            return match AgentBuilder::new(config).build() {
                Ok(_) => panic!("an agent needs a provider"),
                Err(error) => Err(error),
            };
        }
        let offer = |provider: &FakeProvider| ProviderOffer {
            id: provider.id(),
            models: provider
                .state
                .borrow()
                .models
                .iter()
                .map(|info| ModelOffer {
                    info: info.clone(),
                    compact_limit: (info.context_window as f64 * threshold) as usize,
                })
                .collect(),
        };
        let mut builder =
            AgentBuilder::new(config).register_model_provider(offer(&self.providers[0]));
        for provider in &self.providers[1..] {
            builder = builder.register_model_provider(offer(provider));
        }
        for tool in &self.tools {
            builder = builder.register_tool(RegisteredTool {
                definition: ToolDefinition {
                    name: tool.name.clone(),
                    description: format!("{} tool", tool.name),
                    parameters: json(
                        r#"{"type":"object","properties":{"value":{"type":"string"}},"required":[]}"#,
                    ),
                },
                is_mutating: tool.mutating,
            });
        }
        for skill in &self.skills {
            builder = builder.register_skill(skill.clone());
        }
        for plugin in &self.plugins {
            builder =
                builder.register_plugin(plugin.descriptor.clone(), json(r#"{"enabled":true}"#));
        }
        for _ in &self.sessions {
            builder = builder.register_session_storage();
        }
        for _ in &self.memories {
            builder = builder.register_memory_storage();
        }
        let mut parts = builder.build()?;
        let mut handlers = Vec::new();
        loop {
            match parts.plugins.next() {
                PluginAction::Initialize { index, .. } => {
                    let plugin = &self.plugins[index];
                    plugin.state.borrow_mut().initialize += 1;
                    let result = match &plugin.initialize_error {
                        Some(message) => Err(ErrorSource::new(message)),
                        None => Ok(()),
                    };
                    parts.plugins = parts.plugins.initialized(result);
                }
                PluginAction::Apply { index, mut context } => {
                    let plugin = &self.plugins[index];
                    plugin.state.borrow_mut().apply += 1;
                    if let Some((event, result)) = &plugin.taps {
                        handlers.push(result.clone());
                        let _ = context.tap(*event, handlers.len() - 1);
                    }
                    parts.plugins = parts.plugins.applied(context);
                }
                PluginAction::ShutDown { index } => {
                    self.plugins[index].state.borrow_mut().shutdown += 1;
                    parts.plugins = parts.plugins.shut_down();
                }
                PluginAction::Finish => break,
            }
        }
        let agent = parts.assemble()?;
        Ok(Host {
            agent,
            providers: self.providers,
            tools: self.tools,
            plugins: self.plugins,
            handlers,
            sessions: self.sessions.into_iter().next(),
            memories: self.memories.into_iter().next(),
            runtime: None,
            now_ms: 0,
        })
    }
}

struct Host {
    agent: Agent,
    providers: Vec<FakeProvider>,
    tools: Vec<FakeTool>,
    plugins: Vec<FakePlugin>,
    handlers: Vec<HookResult>,
    sessions: Option<FakeSessionStorage>,
    memories: Option<FakeMemoryStorage>,
    runtime: Option<SessionRuntime>,
    now_ms: u64,
}

struct Under {
    index: usize,
    name: String,
    ends_at: u64,
    completion: ToolCompletion,
}

struct RunningTurn {
    turn: Option<Turn>,
    stream: VecDeque<Step>,
    under_way: Vec<Under>,
    events: Vec<AgentEvent>,
    cancelled: bool,
}

enum Progress {
    Event,
    Step,
    Blocked,
    Over,
}

impl Host {
    fn provider(&self, id: &str) -> FakeProvider {
        self.providers.iter().find(|p| p.id() == id).cloned().expect("known provider")
    }

    fn save(&self, session_id: &str, event: LedgerEvent) -> Result<(), ErrorSource> {
        match &self.sessions {
            Some(storage) => storage.save_event(session_id, event),
            None => Ok(()),
        }
    }

    fn open(&mut self, opening: SessionOpening) -> Result<SessionHandle, AgentError> {
        let mut opening = opening;
        loop {
            let (next, action) = opening.next(&self.agent.kernel);
            opening = match action {
                SessionAction::Load(id) => {
                    let storage = self.sessions.as_ref().expect("session storage");
                    next.loaded(&self.agent.kernel, Ok(storage.load_session(&id)))
                }
                SessionAction::ListRecent { namespace, limit } => {
                    let storage = self.memories.as_ref().expect("memory storage");
                    next.remembered(Ok(storage.list_recent(&namespace, limit)))
                }
                SessionAction::CallHook(call) => {
                    next.hook_answered(self.handlers[call.handler].clone())
                }
                SessionAction::Save(event) => {
                    let saved = self.save(&next.session_id, event);
                    next.saved(saved)
                }
                SessionAction::Extract(_) => panic!("an opening extracts nothing"),
                SessionAction::Proceed => next,
                SessionAction::Finish => {
                    let (runtime, handle) = next.finish(&mut self.agent.control)?;
                    self.runtime = Some(runtime);
                    return Ok(handle);
                }
            };
        }
    }

    fn new_session(&mut self, config: SessionConfig) -> Result<SessionHandle, AgentError> {
        let opening = self.agent.new_session(config)?;
        self.open(opening)
    }

    fn resume_session(&mut self, id: &str) -> Result<SessionHandle, AgentError> {
        let opening = self.agent.resume_session(id)?;
        self.open(opening)
    }

    fn extract(&mut self, run: Extraction, provider: &str) -> Result<Option<u64>, AgentError> {
        let provider = self.provider(provider);
        let storage = self.memories.clone().expect("memory storage");
        let mut stream = VecDeque::new();
        let mut run = run;
        loop {
            let (next, action) = run.next();
            run = match action {
                ExtractionAction::ListMemories { namespace } => {
                    let listed = storage.newest(&namespace, usize::MAX);
                    let rendered = format!("{} memories", listed.len());
                    next.listed(Ok((listed, rendered)))
                }
                ExtractionAction::OpenChat(request) => {
                    stream = provider.chat(request);
                    next.opened(Ok(()))
                }
                ExtractionAction::ReadChat => match stream.pop_front() {
                    Some(Step::Emit(event)) => next.item(StreamItem::Event(event), false),
                    _ => next.item(StreamItem::End, false),
                },
                ExtractionAction::Parse(text) => next.parsed(parse_extraction(&text)),
                ExtractionAction::Write(write) => {
                    storage.write(write);
                    next.written(Ok(()))
                }
                ExtractionAction::Proceed => next,
                ExtractionAction::Finished => return next.into_result(),
            };
        }
    }

    fn send_message(
        &mut self,
        handle: &SessionHandle,
        input: UserInput,
    ) -> Result<RunningTurn, AgentError> {
        let pending: PendingTurn =
            handle.send_message(&self.agent.kernel, &mut self.agent.control, input)?;
        let runtime = self.runtime.as_mut().expect("active session");
        Ok(RunningTurn {
            turn: Some(pending.begin(runtime)),
            stream: VecDeque::new(),
            under_way: Vec::new(),
            events: Vec::new(),
            cancelled: false,
        })
    }

    fn start_tool(&mut self, run: ToolRun) -> Under {
        let tool = self
            .tools
            .iter()
            .find(|tool| tool.name == run.input.tool_name)
            .cloned()
            .expect("known tool");
        let timeout = self.agent.kernel.config.tool_timeout_ms;
        tool.state.borrow_mut().inputs.push(run.input);
        tool.state.borrow_mut().started_at.push(self.now_ms);
        let (ends_at, completion) = if tool.hangs || tool.delay_ms >= timeout {
            (self.now_ms + timeout, ToolCompletion::TimedOut)
        } else {
            let completion = match &tool.failure {
                Some(message) => ToolCompletion::Failed(ErrorSource::new(message)),
                None => ToolCompletion::Output(tool.output.clone()),
            };
            (self.now_ms + tool.delay_ms, completion)
        };
        Under { index: run.index, name: tool.name, ends_at, completion }
    }

    /// Takes the run that ends first.
    fn next_ended(&mut self, running: &mut RunningTurn) -> Under {
        let mut first = 0;
        for position in 1..running.under_way.len() {
            if running.under_way[position].ends_at < running.under_way[first].ends_at {
                first = position;
            }
        }
        let ended = running.under_way.remove(first);
        self.now_ms = self.now_ms.max(ended.ends_at);
        let tool = self.tools.iter().find(|tool| tool.name == ended.name).expect("known tool");
        let mut state = tool.state.borrow_mut();
        state.finished_at.push(self.now_ms);
        if ended.completion == ToolCompletion::TimedOut {
            state.timed_out += 1;
        }
        drop(state);
        ended
    }

    /// One step of a turn.
    fn step(&mut self, handle: &SessionHandle, running: &mut RunningTurn) -> Progress {
        let mut runtime = self.runtime.take().expect("active session");
        let turn = running.turn.take().expect("running turn");
        let setup = handle.turn_setup(&self.agent.kernel).expect("models are known");
        let deps = &setup.deps;
        let cancelled = running.cancelled;
        let (turn, action) = turn.next(deps, &mut runtime, cancelled);
        let mut progress = Progress::Step;
        let turn = match action {
            TurnAction::Save(event) => {
                let saved = self.save(handle.session_id(), event);
                turn.saved(&mut runtime, saved)
            }
            TurnAction::Emit(event) => {
                running.events.push(event);
                progress = Progress::Event;
                turn
            }
            TurnAction::CallHook(call) => {
                turn.hook_answered(deps, self.handlers[call.handler].clone())
            }
            TurnAction::SearchMemories { namespace, query, limit } => {
                let storage = self.memories.as_ref().expect("memory storage");
                let found = storage.search(&namespace, &query, limit);
                turn.searched(deps, &runtime, Ok(found))
            }
            TurnAction::OpenChat(role, request) => {
                let id = match role {
                    ChatRole::Main => &setup.provider,
                    ChatRole::Compaction => &setup.compact_provider,
                };
                running.stream = self.provider(id).chat(request);
                turn.opened(&runtime, Ok(()), cancelled)
            }
            TurnAction::ReadChat => {
                if cancelled {
                    turn.read(deps, &runtime, StreamItem::End, true)
                } else {
                    match running.stream.pop_front() {
                        Some(Step::Emit(event)) => {
                            turn.read(deps, &runtime, StreamItem::Event(event), false)
                        }
                        Some(Step::WaitForCancel) => {
                            running.stream.push_front(Step::WaitForCancel);
                            progress = Progress::Blocked;
                            turn
                        }
                        None => turn.read(deps, &runtime, StreamItem::End, false),
                    }
                }
            }
            TurnAction::RunTools(runs) => {
                drop(setup);
                for run in runs {
                    let under = self.start_tool(run);
                    running.under_way.push(under);
                }
                let ended = self.next_ended(running);
                let setup = handle.turn_setup(&self.agent.kernel).expect("models are known");
                turn.tool_ended(&setup.deps, ended.index, ended.completion, 1)
            }
            TurnAction::AwaitTool => {
                drop(setup);
                let ended = self.next_ended(running);
                let setup = handle.turn_setup(&self.agent.kernel).expect("models are known");
                turn.tool_ended(&setup.deps, ended.index, ended.completion, 1)
            }
            TurnAction::Extract(run) => {
                let provider = setup.memory_provider.clone().expect("memory provider");
                drop(setup);
                let result = self.extract(run, &provider);
                turn.extracted(result)
            }
            TurnAction::Proceed => turn,
            TurnAction::Finish => {
                progress = Progress::Over;
                turn
            }
        };
        running.turn = Some(turn);
        self.runtime = Some(runtime);
        progress
    }

    /// Runs a turn until an event arrives; `false` when it is over or blocked.
    fn next_event(&mut self, handle: &SessionHandle, running: &mut RunningTurn) -> bool {
        loop {
            match self.step(handle, running) {
                Progress::Event => return true,
                Progress::Step => {}
                Progress::Blocked | Progress::Over => return false,
            }
        }
    }

    /// Runs a turn to its end.
    fn finish_turn(&mut self, handle: &SessionHandle, running: &mut RunningTurn) -> TurnOutcome {
        while self.next_event(handle, running) {}
        self.agent.control.clear_running_turn(handle.session_id());
        running
            .turn
            .take()
            .expect("running turn")
            .into_outcome()
            .expect("a turn that is not blocked ends")
    }

    fn run_turn(&mut self, handle: &SessionHandle, input: UserInput) -> TurnOutcome {
        let mut running = self.send_message(handle, input).expect("turn should start");
        self.finish_turn(handle, &mut running)
    }

    /// Cancels a turn at the first event that `when` accepts.
    fn cancel_turn(
        &mut self,
        handle: &SessionHandle,
        input: UserInput,
        when: fn(&AgentEventPayload) -> bool,
    ) -> (TurnOutcome, Vec<AgentEvent>) {
        let mut running = self.send_message(handle, input).expect("turn should start");
        while self.next_event(handle, &mut running) {
            if when(&running.events[running.events.len() - 1].payload) {
                running.cancelled = true;
                break;
            }
        }
        let outcome = self.finish_turn(handle, &mut running);
        (outcome, running.events)
    }

    fn close(
        &mut self,
        handle: &SessionHandle,
        turn: Option<&mut RunningTurn>,
    ) -> Result<Option<TurnOutcome>, AgentError> {
        let id = handle.session_id().to_string();
        let running = handle.close(&mut self.agent.control)?;
        let mut outcome = None;
        if running {
            let turn = turn.expect("the running turn");
            turn.cancelled = true;
            outcome = Some(self.finish_turn(handle, turn));
        }
        let mut runtime = self.runtime.take().expect("active session");
        let mut closing = SessionClosing::begin();
        loop {
            let (next, action) = closing.next(&self.agent.kernel, &runtime);
            closing = match action {
                SessionAction::CallHook(call) => {
                    next.hook_answered(self.handlers[call.handler].clone())
                }
                SessionAction::Extract(run) => {
                    let provider = self
                        .agent
                        .kernel
                        .models
                        .resolve_provider(&run.model_id)
                        .expect("memory provider");
                    let result = self.extract(run, &provider);
                    next.extracted(result)
                }
                SessionAction::Save(event) => {
                    let saved = self.save(&id, event);
                    next.saved(&mut runtime, saved)
                }
                SessionAction::Proceed => next,
                SessionAction::Finish => {
                    let result = next.finish(&mut self.agent.control, &id);
                    if result.is_err() {
                        self.runtime = Some(runtime);
                    }
                    return match result {
                        Ok(()) => Ok(outcome),
                        Err(error) => Err(error),
                    };
                }
                SessionAction::Load(_) | SessionAction::ListRecent { .. } => {
                    panic!("a closing loads nothing")
                }
            };
        }
    }

    fn end_shutdown(&mut self, closed: Result<(), AgentError>) -> Result<(), AgentError> {
        let count = self.plugins.len();
        for index in settle_shutdown(&mut self.agent.control, closed, count)? {
            self.plugins[index].state.borrow_mut().shutdown += 1;
        }
        self.agent.control.finish_shutdown();
        Ok(())
    }

    fn shutdown(&mut self, handle: Option<&SessionHandle>) -> Result<(), AgentError> {
        match self.agent.shutdown() {
            ShutdownStart::Nothing => Ok(()),
            ShutdownStart::Plugins => self.end_shutdown(Ok(())),
            ShutdownStart::Close(id) => {
                let handle = handle.expect("the active session");
                assert_eq!(handle.session_id(), id);
                let closed = self.close(handle, None).map(|_| ());
                self.end_shutdown(closed)
            }
        }
    }

    fn list_sessions(&self) -> Result<SessionPage, AgentError> {
        self.agent.begin_discovery()?;
        let storage = self.sessions.as_ref().expect("session storage");
        self.agent
            .list_sessions(Ok(SessionPage { sessions: storage.summaries(), next_cursor: None }))
    }

    fn find_sessions(&self, query: &SessionSearchQuery) -> Result<Vec<SessionSummary>, AgentError> {
        self.agent.begin_discovery()?;
        let storage = self.sessions.as_ref().expect("session storage");
        let mut found = storage.summaries();
        found.retain(|summary| match query {
            SessionSearchQuery::IdPrefix(prefix) => summary.session_id.starts_with(prefix),
            SessionSearchQuery::TitleContains(word) => match &summary.title {
                Some(title) => title.contains(word),
                None => false,
            },
        });
        self.agent.find_sessions(Ok(found))
    }

    fn delete_session(&self, id: &str) -> Result<(), AgentError> {
        self.agent.begin_deletion(id)?;
        let storage = self.sessions.as_ref().expect("session storage");
        storage.state.borrow_mut().sessions.remove(id);
        self.agent.delete_session(id, Ok(()))
    }
}

// ---------------------------------------------------------------------------
// Values
// ---------------------------------------------------------------------------

fn json(text: &str) -> JsonValue {
    JsonValue::parse(text).expect("the text is JSON")
}

fn base_config(default_model: &str) -> AgentConfig {
    AgentConfig::new(default_model, "memory/test")
}

fn model_info(id: &str, context_window: usize) -> ModelInfo {
    ModelInfo {
        id: id.to_string(),
        display_name: id.to_string(),
        context_window,
        capabilities: ModelCapabilities { tool_use: true, vision: true, streaming: true },
    }
}

fn provider(id: &str, model: &str, context_window: usize) -> FakeProvider {
    FakeProvider::new(id, vec![model_info(model, context_window)])
}

fn provider_a() -> FakeProvider {
    provider("provider-a", "model-a", 128_000)
}

fn text_input(text: &str) -> UserInput {
    UserInput { content: vec![ContentBlock::Text(text.to_string())] }
}

fn done() -> Step {
    Step::Emit(ChatEvent::Done { usage: TokenUsage::default() })
}

fn text_delta(text: &str) -> Step {
    Step::Emit(ChatEvent::TextDelta(text.to_string()))
}

fn assistant_script(text: &str) -> Vec<Step> {
    vec![text_delta(text), done()]
}

fn tool_call(call_id: &str, tool_name: &str, arguments: &str) -> Step {
    Step::Emit(ChatEvent::ToolCall {
        call_id: call_id.to_string(),
        tool_name: tool_name.to_string(),
        arguments: json(arguments),
    })
}

fn error_script(message: &str, is_context_length_exceeded: bool) -> Vec<Step> {
    vec![Step::Emit(ChatEvent::Error(ChatError {
        message: message.to_string(),
        retryable: false,
        is_context_length_exceeded,
    }))]
}

fn completed_script() -> Vec<Step> {
    vec![
        text_delta("hello"),
        Step::Emit(ChatEvent::ReasoningDelta("thinking".to_string())),
        done(),
    ]
}

fn cancellable_script() -> Vec<Step> {
    vec![text_delta("partial"), Step::WaitForCancel]
}

fn repeated_text(ch: char, len: usize) -> String {
    std::iter::repeat(ch).take(len).collect()
}

fn sample_skill(name: &str, required_tools: Vec<&str>) -> SkillDefinition {
    SkillDefinition {
        name: name.to_string(),
        display_name: name.to_string(),
        description: format!("skill {name}"),
        prompt_template: "Use the skill.".to_string(),
        required_tools: required_tools.into_iter().map(str::to_string).collect(),
        allow_implicit_invocation: true,
    }
}

fn sample_memory(id: &str, namespace: &str, content: &str, minute: i64) -> Memory {
    let at = Timestamp { seconds: 1_774_310_400 + 60 * minute, nanos: 0 };
    Memory {
        id: id.to_string(),
        namespace: namespace.to_string(),
        content: content.to_string(),
        source: "manual".to_string(),
        tags: vec!["test".to_string()],
        created_at: at,
        updated_at: at,
    }
}

fn is_text_delta(payload: &AgentEventPayload) -> bool {
    matches!(payload, AgentEventPayload::TextDelta(_))
}

fn is_tool_start(payload: &AgentEventPayload) -> bool {
    matches!(payload, AgentEventPayload::ToolCallStart { .. })
}

fn content_text(content: &[ContentBlock]) -> String {
    content
        .iter()
        .map(|block| match block {
            ContentBlock::Text(text) => text.clone(),
            ContentBlock::Image { .. } | ContentBlock::File { .. } => {
                panic!("only text is expected here")
            }
        })
        .collect::<String>()
}

fn history_messages(request: &ChatRequest) -> &[Message] {
    &request.messages[1..]
}

fn system_prompt(request: &ChatRequest) -> &str {
    match request.messages.first() {
        Some(Message::System { content }) => content,
        other => panic!("expected leading system prompt, got {other:?}"),
    }
}

fn user_texts(request: &ChatRequest) -> Vec<String> {
    history_messages(request)
        .iter()
        .filter_map(|message| match message {
            Message::User { content } => Some(content_text(content)),
            _ => None,
        })
        .collect()
}

fn assistant_texts(request: &ChatRequest) -> Vec<String> {
    history_messages(request)
        .iter()
        .filter_map(|message| match message {
            Message::Assistant { content, .. } => Some(content_text(content)),
            _ => None,
        })
        .collect()
}

fn system_texts(request: &ChatRequest) -> Vec<String> {
    history_messages(request)
        .iter()
        .filter_map(|message| match message {
            Message::System { content } => Some(content.clone()),
            _ => None,
        })
        .collect()
}

fn tool_trace(request: &ChatRequest) -> Vec<String> {
    history_messages(request)
        .iter()
        .filter_map(|message| match message {
            Message::ToolCall { call_id, tool_name, arguments } => {
                Some(format!("call:{call_id}:{tool_name}:{}", arguments.text()))
            }
            Message::ToolResult { call_id, output } => {
                Some(format!("result:{call_id}:{}:{}", output.is_error, output.content))
            }
            _ => None,
        })
        .collect()
}

fn last_request(provider: &FakeProvider) -> ChatRequest {
    provider.requests().last().cloned().expect("a request")
}

fn compactions(events: &[LedgerEvent]) -> usize {
    events
        .iter()
        .filter(|event| {
            matches!(
                event.payload,
                LedgerEventPayload::Metadata { key: MetadataKey::ContextCompaction, .. }
            )
        })
        .count()
}

// ---------------------------------------------------------------------------
// Building
// ---------------------------------------------------------------------------

#[test]
fn rejects_missing_model_provider() {
    let result = host(base_config("model-a")).build();

    assert!(matches!(result, Err(AgentError::NoModelProvider)));
}

#[test]
fn rejects_duplicate_model_id_across_providers() {
    let result = host(base_config("model-a"))
        .provider(&provider("provider-a", "model-a", 128_000))
        .provider(&provider("provider-b", "model-a", 128_000))
        .build();

    assert!(matches!(
        result,
        Err(AgentError::NameConflict { kind: "model", name }) if name == "model-a"
    ));
}

#[test]
fn rejects_duplicate_tool_name() {
    let result = host(base_config("model-a"))
        .provider(&provider_a())
        .tool(&FakeTool::new("tool-a", false))
        .tool(&FakeTool::new("tool-a", false))
        .build();

    assert!(matches!(
        result,
        Err(AgentError::NameConflict { kind: "tool", name }) if name == "tool-a"
    ));
}

#[test]
fn rejects_duplicate_skill_name() {
    let result = host(base_config("model-a"))
        .provider(&provider_a())
        .skill(sample_skill("skill-a", Vec::new()))
        .skill(sample_skill("skill-a", Vec::new()))
        .build();

    assert!(matches!(
        result,
        Err(AgentError::NameConflict { kind: "skill", name }) if name == "skill-a"
    ));
}

#[test]
fn rejects_invalid_default_model() {
    let mut config = base_config("model-a");
    config.default_model = "missing-model".to_string();

    let result = host(config).provider(&provider_a()).build();

    assert!(matches!(
        result,
        Err(AgentError::InvalidDefaultModel(model_id)) if model_id == "missing-model"
    ));
}

#[test]
fn rejects_invalid_compact_threshold() {
    let result = host(base_config("model-a")).threshold(1.2).provider(&provider_a()).build();

    assert!(matches!(
        result,
        Err(AgentError::InputValidation { message }) if message.contains("compact_threshold")
    ));
}

#[test]
fn rejects_invalid_memory_namespace() {
    let mut config = base_config("model-a");
    config.memory_namespace = "   ".to_string();

    let result = host(config).provider(&provider_a()).build();

    assert!(matches!(
        result,
        Err(AgentError::InputValidation { message }) if message.contains("memory_namespace")
    ));
}

#[test]
fn rejects_skill_missing_tool_dependency() {
    let result = host(base_config("model-a"))
        .provider(&provider_a())
        .skill(sample_skill("skill-a", vec!["missing-tool"]))
        .build();

    assert!(matches!(
        result,
        Err(AgentError::SkillDependencyNotMet { skill, tool })
            if skill == "skill-a" && tool == "missing-tool"
    ));
}

#[test]
fn builder_contract_plugin_initialize_failure_rolls_back_prior_plugins() {
    let plugin_ok = FakePlugin::new("plugin-ok", vec![HookEvent::TurnStart])
        .tapping(HookEvent::TurnStart, HookResult::Continue);
    let plugin_bad = FakePlugin::new("plugin-bad", Vec::new()).failing("boom");

    let result = host(base_config("model-a"))
        .provider(&provider_a())
        .plugin(&plugin_ok)
        .plugin(&plugin_bad)
        .build();

    assert!(matches!(
        result,
        Err(AgentError::PluginInitFailed { id, .. }) if id == "plugin-bad"
    ));
    assert_eq!(plugin_ok.initialize_calls(), 1);
    assert_eq!(plugin_ok.shutdown_calls(), 1);
    assert_eq!(plugin_bad.initialize_calls(), 1);
    assert_eq!(plugin_bad.shutdown_calls(), 0);
}

#[test]
fn plugin_apply_failure_rolls_back_initialized_plugins() {
    let plugin_ok = FakePlugin::new("plugin-ok", vec![HookEvent::TurnStart])
        .tapping(HookEvent::TurnStart, HookResult::Continue);
    let plugin_bad = FakePlugin::new("plugin-bad", vec![HookEvent::SessionStart])
        .tapping(HookEvent::TurnStart, HookResult::Continue);

    let result = host(base_config("model-a"))
        .provider(&provider_a())
        .plugin(&plugin_ok)
        .plugin(&plugin_bad)
        .build();

    assert!(matches!(
        result,
        Err(AgentError::PluginHookContractViolation { plugin_id, .. })
            if plugin_id == "plugin-bad"
    ));
    assert_eq!(plugin_ok.initialize_calls(), 1);
    assert_eq!(plugin_ok.shutdown_calls(), 1);
    assert_eq!(plugin_bad.initialize_calls(), 1);
    assert_eq!(plugin_bad.shutdown_calls(), 1);
    assert_eq!(plugin_bad.apply_calls(), 1);
}

#[test]
fn rejects_duplicate_session_storage() {
    let result = host(base_config("model-a"))
        .provider(&provider_a())
        .session_storage(&FakeSessionStorage::new())
        .session_storage(&FakeSessionStorage::new())
        .build();

    assert!(matches!(
        result,
        Err(AgentError::StorageDuplicate { kind }) if kind == "session"
    ));
}

#[test]
fn rejects_duplicate_memory_storage() {
    let result = host(base_config("model-a"))
        .provider(&provider_a())
        .memory_storage(&FakeMemoryStorage::new())
        .memory_storage(&FakeMemoryStorage::new())
        .build();

    assert!(matches!(
        result,
        Err(AgentError::StorageDuplicate { kind }) if kind == "memory"
    ));
}

#[test]
fn rejects_duplicate_plugin_id() {
    let first = FakePlugin::new("plugin-a", Vec::new());
    let second = FakePlugin::new("plugin-a", Vec::new());

    let result =
        host(base_config("model-a")).provider(&provider_a()).plugin(&first).plugin(&second).build();

    assert!(matches!(
        result,
        Err(AgentError::NameConflict { kind: "plugin", name }) if name == "plugin-a"
    ));
    assert_eq!(first.initialize_calls(), 0);
}

#[test]
fn rejects_unknown_compact_and_memory_models() {
    let mut config = base_config("model-a");
    config.compact_model = Some("nowhere".to_string());
    assert!(matches!(
        host(config).provider(&provider_a()).build(),
        Err(AgentError::InvalidModelConfig { .. })
    ));

    let mut config = base_config("model-a");
    config.memory_model = Some("nowhere".to_string());
    assert!(matches!(
        host(config).provider(&provider_a()).build(),
        Err(AgentError::InvalidModelConfig { .. })
    ));
}

#[test]
fn rejects_zero_limits() {
    let mut timeout = base_config("model-a");
    timeout.tool_timeout_ms = 0;
    let mut calls = base_config("model-a");
    calls.max_tool_calls_per_turn = 0;
    let mut items = base_config("model-a");
    items.memory_max_items = 0;

    for (config, name) in [
        (timeout, "tool_timeout_ms"),
        (calls, "max_tool_calls_per_turn"),
        (items, "memory_max_items"),
    ] {
        assert!(matches!(
            host(config).provider(&provider_a()).build(),
            Err(AgentError::InputValidation { message }) if message.contains(name)
        ));
    }
}

#[test]
fn a_plugin_without_a_declared_hook_is_refused() {
    let plugin = FakePlugin::new("plugin-a", vec![HookEvent::TurnStart, HookEvent::TurnEnd])
        .tapping(HookEvent::TurnStart, HookResult::Continue);

    let built = host(base_config("model-a")).provider(&provider_a()).plugin(&plugin).build();

    match built {
        Ok(_) => assert_eq!(plugin.shutdown_calls(), 0),
        Err(error) => panic!("a hook may be declared and never tapped: {}", error.to_text()),
    }
}

// ---------------------------------------------------------------------------
// Sessions
// ---------------------------------------------------------------------------

#[test]
fn new_session_claims_slot_with_reservation() {
    let mut host = host(base_config("model-a")).provider(&provider_a()).build().expect("agent");

    let session = host.new_session(SessionConfig::default()).expect("session should be created");

    assert!(!session.session_id().is_empty());
    assert!(matches!(
        host.new_session(SessionConfig::default()),
        Err(AgentError::SessionBusy)
    ));
}

#[test]
fn handles_are_equal_where_they_belong_to_one_session() {
    let sessions = FakeSessionStorage::new();
    let mut host = host(base_config("model-a"))
        .provider(&provider_a())
        .session_storage(&sessions)
        .build()
        .expect("agent");

    let first = host.new_session(SessionConfig::default()).expect("first session");
    host.close(&first, None).expect("close");
    let resumed = host.resume_session(first.session_id()).expect("resumed session");
    host.close(&resumed, None).expect("close");
    let second = host.new_session(SessionConfig::default()).expect("second session");

    assert_eq!(first.session_id().len(), 36);
    assert_eq!(first.session_id(), resumed.session_id());
    assert!(first == resumed);
    assert!(first != second);
}

#[test]
fn session_start_abort_rolls_back_reserved_slot() {
    let plugin = aborting_plugin("abort-on-start", HookEvent::SessionStart, "blocked by plugin");
    let mut host = host(base_config("model-a"))
        .provider(&provider_a())
        .plugin(&plugin)
        .build()
        .expect("agent should build");

    for _ in 0..2 {
        assert!(matches!(
            host.new_session(SessionConfig::default()),
            Err(AgentError::PluginAborted { hook, reason })
                if hook == "SessionStart" && reason == "blocked by plugin"
        ));
    }
}

#[test]
fn resume_restores_pinned_model_and_memory_namespace() {
    let sessions = FakeSessionStorage::new();
    let memories = FakeMemoryStorage::new();
    let models = FakeProvider::new(
        "provider-a",
        vec![model_info("model-a", 128_000), model_info("model-b", 128_000)],
    );
    let mut first = host(AgentConfig::new("model-a", "memory/original"))
        .provider(&models)
        .session_storage(&sessions)
        .memory_storage(&memories)
        .build()
        .expect("agent should build");
    let session = first
        .new_session(SessionConfig {
            model_id: Some("model-b".to_string()),
            system_prompt_override: Some("override prompt".to_string()),
        })
        .expect("session should be created");
    let session_id = session.session_id().to_string();
    first.close(&session, None).expect("session should close cleanly");

    let mut second = host(AgentConfig::new("model-a", "memory/changed"))
        .provider(&models)
        .session_storage(&sessions)
        .memory_storage(&memories)
        .build()
        .expect("resumed agent should build");
    let resumed = second.resume_session(&session_id).expect("session should resume");

    assert_eq!(resumed.model_id(), "model-b");
    assert_eq!(resumed.memory_namespace(), "memory/original");
    assert_eq!(resumed.system_prompt_override(), Some("override prompt"));
    assert_eq!(
        memories.list_recent_namespaces().last().map(String::as_str),
        Some("memory/original")
    );
}

#[test]
fn critical_metadata_persist_failure_aborts_session_creation() {
    let sessions = FakeSessionStorage::new();
    sessions.fail_on(Failing::Metadata(MetadataKey::SessionConfig));
    let mut host = host(base_config("model-a"))
        .provider(&provider_a())
        .session_storage(&sessions)
        .build()
        .expect("agent should build");

    let creation = host.new_session(SessionConfig::default());

    assert!(matches!(creation, Err(AgentError::StorageError(_))));
    assert!(sessions.summaries().is_empty());

    sessions.clear_failures();
    let session = host
        .new_session(SessionConfig::default())
        .expect("session should succeed after clearing failure");
    assert!(!session.session_id().is_empty());
}

#[test]
fn session_busy_when_active_session_exists() {
    let mut host = host(base_config("model-a"))
        .provider(&provider_a())
        .session_storage(&FakeSessionStorage::new())
        .build()
        .expect("agent should build");
    let session = host.new_session(SessionConfig::default()).expect("session should be created");

    assert!(matches!(
        host.resume_session(session.session_id()),
        Err(AgentError::SessionBusy)
    ));
}

#[test]
fn delete_active_session_returns_session_busy() {
    let mut host = host(base_config("model-a"))
        .provider(&provider_a())
        .session_storage(&FakeSessionStorage::new())
        .build()
        .expect("agent should build");
    let session = host.new_session(SessionConfig::default()).expect("session should be created");

    assert!(matches!(
        host.delete_session(session.session_id()),
        Err(AgentError::SessionBusy)
    ));
}

#[test]
fn discovery_apis_require_session_storage() {
    let mut host = host(base_config("model-a")).provider(&provider_a()).build().expect("agent");
    let missing = |error: &AgentError| {
        matches!(
            error,
            AgentError::StorageError(source)
                if source.message().contains("SessionStorage not registered")
        )
    };

    assert!(host.list_sessions().is_err_and(|error| missing(&error)));
    assert!(host
        .find_sessions(&SessionSearchQuery::IdPrefix("abc".to_string()))
        .is_err_and(|error| missing(&error)));
    assert!(host.delete_session("abc").is_err_and(|error| missing(&error)));
    assert!(host.resume_session("abc").is_err_and(|error| missing(&error)));
}

#[test]
fn summary_is_eventually_consistent_with_ledger() {
    let sessions = FakeSessionStorage::new();
    let mut host = host(base_config("model-a"))
        .provider(&provider_a())
        .session_storage(&sessions)
        .build()
        .expect("agent should build");
    let session = host.new_session(SessionConfig::default()).expect("session should be created");

    let page = host.list_sessions().expect("sessions should list");
    let summary = page
        .sessions
        .iter()
        .find(|summary| summary.session_id == session.session_id())
        .expect("summary should exist");
    let saved_events = sessions.saved_events(session.session_id());
    let last_event = saved_events.last().expect("metadata events should exist");

    assert_eq!(saved_events.len(), 2);
    assert_eq!(summary.updated_at, last_event.timestamp);
    assert_eq!(summary.message_count, 0);
}

#[test]
fn resuming_an_unknown_session_frees_the_slot() {
    let mut host = host(base_config("model-a"))
        .provider(&provider_a())
        .session_storage(&FakeSessionStorage::new())
        .build()
        .expect("agent should build");

    assert!(matches!(
        host.resume_session("nowhere"),
        Err(AgentError::SessionNotFound(id)) if id == "nowhere"
    ));
    assert!(host.new_session(SessionConfig::default()).is_ok());
}

#[test]
fn an_unknown_session_model_frees_the_slot() {
    let mut host = host(base_config("model-a")).provider(&provider_a()).build().expect("agent");

    let refused = host.new_session(SessionConfig {
        model_id: Some("model-z".to_string()),
        system_prompt_override: None,
    });

    assert!(matches!(refused, Err(AgentError::ModelNotSupported(id)) if id == "model-z"));
    assert!(host.new_session(SessionConfig::default()).is_ok());
}

#[test]
fn a_failing_load_is_reported_with_its_session() {
    let mut host = host(base_config("model-a"))
        .provider(&provider_a())
        .session_storage(&FakeSessionStorage::new())
        .build()
        .expect("agent should build");
    let opening =
        SessionOpening::resume(&host.agent.kernel, &mut host.agent.control, "s-1").expect("slot");
    let (opening, _) = opening.next(&host.agent.kernel);
    let opening = opening.loaded(&host.agent.kernel, Err(ErrorSource::new("disk is gone")));

    let result = opening.finish(&mut host.agent.control);

    assert!(matches!(
        result,
        Err(AgentError::StorageError(source))
            if source.chain == ["failed to load session 's-1'", "disk is gone"]
    ));
    assert!(host.new_session(SessionConfig::default()).is_ok());
}

#[test]
fn failing_bootstrap_memories_refuse_the_session() {
    let mut host = host(base_config("model-a"))
        .provider(&provider_a())
        .memory_storage(&FakeMemoryStorage::new())
        .build()
        .expect("agent should build");
    let opening = SessionOpening::create(
        &host.agent.kernel,
        &mut host.agent.control,
        SessionConfig::default(),
    )
    .expect("slot");
    let (opening, action) = opening.next(&host.agent.kernel);
    assert!(matches!(
        action,
        SessionAction::ListRecent { namespace, limit } if namespace == "memory/test" && limit == 20
    ));
    let opening = opening.remembered(Err(ErrorSource::new("disk is gone")));

    assert!(matches!(
        opening.finish(&mut host.agent.control),
        Err(AgentError::StorageError(source))
            if source.message() == "failed to load bootstrap memories for namespace 'memory/test'"
    ));
}

#[test]
fn a_second_shutdown_does_nothing_and_nothing_opens_after_it() {
    let first = FakePlugin::new("plugin-a", Vec::new());
    let second = FakePlugin::new("plugin-b", Vec::new());
    let mut host = host(base_config("model-a"))
        .provider(&provider_a())
        .plugin(&first)
        .plugin(&second)
        .build()
        .expect("agent should build");
    let session = host.new_session(SessionConfig::default()).expect("session should be created");

    assert!(host.shutdown(Some(&session)).is_ok());
    assert!(host.shutdown(None).is_ok());

    assert_eq!(first.shutdown_calls(), 1);
    assert_eq!(second.shutdown_calls(), 1);
    assert!(matches!(
        host.new_session(SessionConfig::default()),
        Err(AgentError::AgentShutdown)
    ));
    assert!(matches!(
        host.send_message(&session, text_input("hello")),
        Err(AgentError::SessionNotFound(_)) | Err(AgentError::AgentShutdown)
    ));
}

#[test]
fn a_refused_shutdown_leaves_the_agent_running() {
    let plugin = aborting_plugin("abort-on-end", HookEvent::SessionEnd, "not yet");
    let mut host = host(base_config("model-a"))
        .provider(&provider_a())
        .plugin(&plugin)
        .build()
        .expect("agent should build");
    let session = host.new_session(SessionConfig::default()).expect("session should be created");

    assert!(matches!(
        host.shutdown(Some(&session)),
        Err(AgentError::PluginAborted { hook, reason })
            if hook == "SessionEnd" && reason == "not yet"
    ));
    assert_eq!(plugin.shutdown_calls(), 0);
    assert!(matches!(host.run_turn(&session, text_input("hello")), TurnOutcome::Completed));
}

#[test]
fn shutdown_rejects_new_session_while_agent_is_shutting_down() {
    let model = provider("provider-a", "chat-model", 8_192);
    model.enqueue_script(cancellable_script());
    let mut host = host(base_config("chat-model")).provider(&model).build().expect("agent");
    let session = host.new_session(SessionConfig::default()).expect("session should be created");
    let mut turn = host.send_message(&session, text_input("hello")).expect("turn should start");
    while host.next_event(&session, &mut turn) {}

    assert_eq!(
        host.agent.shutdown(),
        ShutdownStart::Close(session.session_id().to_string())
    );
    assert!(matches!(
        host.new_session(SessionConfig::default()),
        Err(AgentError::AgentShutdown)
    ));
    let outcome = host.close(&session, Some(&mut turn)).expect("session should close");
    assert!(host.end_shutdown(Ok(())).is_ok());

    assert!(matches!(outcome, Some(TurnOutcome::Cancelled)));
}

#[test]
fn session_start_abort_does_not_leak_reserved_slot() {
    let plugin = aborting_plugin("abort-on-start", HookEvent::SessionStart, "blocked by plugin");
    let mut host = host(base_config("chat-model"))
        .provider(&provider("provider-a", "chat-model", 8_192))
        .plugin(&plugin)
        .build()
        .expect("agent should build");

    let first = host.new_session(SessionConfig::default());
    let second = host.new_session(SessionConfig::default());

    assert!(matches!(
        first,
        Err(AgentError::PluginAborted { hook, reason })
            if hook == "SessionStart" && reason == "blocked by plugin"
    ));
    assert!(matches!(
        second,
        Err(AgentError::PluginAborted { hook, reason })
            if hook == "SessionStart" && reason == "blocked by plugin"
    ));
}

#[test]
fn session_end_abort_does_not_poison_active_session() {
    let model = provider("provider-a", "chat-model", 8_192);
    model.enqueue_script(assistant_script("still alive after failed close"));
    let plugin = aborting_plugin("abort-on-end", HookEvent::SessionEnd, "blocked by plugin");
    let mut host = host(base_config("chat-model"))
        .provider(&model)
        .plugin(&plugin)
        .build()
        .expect("agent should build");
    let session = host.new_session(SessionConfig::default()).expect("session should be created");

    let close = host.close(&session, None);
    assert!(matches!(
        close,
        Err(AgentError::PluginAborted { hook, reason })
            if hook == "SessionEnd" && reason == "blocked by plugin"
    ));

    let outcome = host.run_turn(&session, text_input("session should still be usable"));
    assert!(matches!(outcome, TurnOutcome::Completed));
}

#[test]
fn acceptance_plugin_initialize_failure_rolls_back_prior_plugins() {
    let plugin_a = FakePlugin::new("plugin-a", Vec::new());
    let plugin_b = FakePlugin::new("plugin-b", Vec::new()).failing("boom");

    let result = host(base_config("chat-model"))
        .provider(&provider("provider-a", "chat-model", 8_192))
        .plugin(&plugin_a)
        .plugin(&plugin_b)
        .build();

    assert!(matches!(result, Err(AgentError::PluginInitFailed { .. })));
    assert_eq!(plugin_a.initialize_calls(), 1);
    assert_eq!(plugin_a.shutdown_calls(), 1);
    assert_eq!(plugin_b.initialize_calls(), 1);
}

// ---------------------------------------------------------------------------
// Turns
// ---------------------------------------------------------------------------

#[test]
fn turn_complete_is_last_event() {
    let model = provider_a();
    model.enqueue_script(completed_script());
    let mut host = host(base_config("model-a")).provider(&model).build().expect("agent");
    let session = host.new_session(SessionConfig::default()).expect("session should be created");
    let mut turn = host.send_message(&session, text_input("hello")).expect("turn should start");

    let outcome = host.finish_turn(&session, &mut turn);

    assert!(matches!(outcome, TurnOutcome::Completed));
    assert!(matches!(
        turn.events.last().map(|event| &event.payload),
        Some(AgentEventPayload::TurnComplete)
    ));
}

#[test]
fn event_sequence_is_monotonic_per_turn() {
    let model = provider_a();
    model.enqueue_script(completed_script());
    let mut host = host(base_config("model-a")).provider(&model).build().expect("agent");
    let session = host.new_session(SessionConfig::default()).expect("session should be created");
    let mut turn = host.send_message(&session, text_input("hello")).expect("turn should start");

    let _ = host.finish_turn(&session, &mut turn);
    let sequences: Vec<u64> = turn.events.iter().map(|event| event.sequence).collect();

    assert!(!sequences.is_empty());
    assert!(sequences.windows(2).all(|window| window[0] < window[1]));
}

#[test]
fn cancel_is_idempotent() {
    let model = provider_a();
    model.enqueue_script(cancellable_script());
    let mut host = host(base_config("model-a")).provider(&model).build().expect("agent");
    let session = host.new_session(SessionConfig::default()).expect("session should be created");
    let mut turn =
        host.send_message(&session, text_input("please stream")).expect("turn should start");

    assert!(host.next_event(&session, &mut turn));
    assert!(is_text_delta(&turn.events[0].payload));
    turn.cancelled = true;
    turn.cancelled = true;
    let outcome = host.finish_turn(&session, &mut turn);

    assert!(matches!(outcome, TurnOutcome::Cancelled));
    assert!(matches!(
        turn.events.last().map(|event| &event.payload),
        Some(AgentEventPayload::TurnCancelled)
    ));
}

#[test]
fn cancelled_turn_persists_incomplete_assistant_message() {
    let model = provider_a();
    model.enqueue_script(cancellable_script());
    let sessions = FakeSessionStorage::new();
    let mut host = host(base_config("model-a"))
        .provider(&model)
        .session_storage(&sessions)
        .build()
        .expect("agent should build");
    let session = host.new_session(SessionConfig::default()).expect("session should be created");

    let (outcome, _) = host.cancel_turn(&session, text_input("please stream"), is_text_delta);
    let saved_events = sessions.saved_events(session.session_id());

    assert!(matches!(outcome, TurnOutcome::Cancelled));
    assert!(saved_events.iter().any(|event| {
        matches!(
            &event.payload,
            LedgerEventPayload::AssistantMessage { content, status }
                if *status == MessageStatus::Incomplete
                    && matches!(content.first(), Some(ContentBlock::Text(text)) if text == "partial")
        )
    }));
}

#[test]
fn join_returns_outcome_after_events_are_consumed() {
    let model = provider_a();
    model.enqueue_script(completed_script());
    let mut host = host(base_config("model-a")).provider(&model).build().expect("agent");
    let session = host.new_session(SessionConfig::default()).expect("session should be created");
    let mut turn = host.send_message(&session, text_input("hello")).expect("turn should start");

    while host.next_event(&session, &mut turn) {}
    let outcome = host.finish_turn(&session, &mut turn);

    assert!(matches!(outcome, TurnOutcome::Completed));
}

#[test]
fn turn_busy_when_active_turn_exists() {
    let model = provider_a();
    model.enqueue_script(vec![Step::WaitForCancel]);
    let mut host = host(base_config("model-a")).provider(&model).build().expect("agent");
    let session = host.new_session(SessionConfig::default()).expect("session should be created");
    let mut first =
        host.send_message(&session, text_input("hello")).expect("first turn should start");

    let second = host.send_message(&session, text_input("again"));

    assert!(matches!(second, Err(AgentError::TurnBusy)));

    first.cancelled = true;
    let outcome = host.finish_turn(&session, &mut first);
    assert!(matches!(outcome, TurnOutcome::Cancelled));
}

#[test]
fn invalid_multimodal_input_fails_before_turn_spawn() {
    let mut blind = model_info("model-a", 128_000);
    blind.capabilities.vision = false;
    let model = FakeProvider::new("provider-a", vec![blind]);
    let mut host = host(base_config("model-a")).provider(&model).build().expect("agent");
    let session = host.new_session(SessionConfig::default()).expect("session should be created");

    let result = host.send_message(
        &session,
        UserInput {
            content: vec![ContentBlock::Image {
                data: "ZmFrZQ==".to_string(),
                media_type: "image/png".to_string(),
            }],
        },
    );

    assert!(matches!(
        result,
        Err(AgentError::InputValidation { message })
            if message.contains("does not support image input")
    ));
    assert_eq!(model.chat_calls(), 0);
}

#[test]
fn empty_input_is_refused_and_leaves_the_session_idle() {
    let mut host = host(base_config("model-a")).provider(&provider_a()).build().expect("agent");
    let session = host.new_session(SessionConfig::default()).expect("session should be created");

    for input in [UserInput { content: Vec::new() }, text_input("  \n ")] {
        assert!(matches!(
            host.send_message(&session, input),
            Err(AgentError::InputValidation { .. })
        ));
    }
    assert!(matches!(host.run_turn(&session, text_input("hello")), TurnOutcome::Completed));
}

#[test]
fn an_unknown_skill_starts_no_turn() {
    let model = provider_a();
    let mut host = host(base_config("model-a"))
        .provider(&model)
        .skill(sample_skill("commit", Vec::new()))
        .build()
        .expect("agent should build");
    let session = host.new_session(SessionConfig::default()).expect("session should be created");

    assert!(matches!(
        host.send_message(&session, text_input("/missing")),
        Err(AgentError::SkillNotFound(name)) if name == "missing"
    ));
    assert_eq!(model.chat_calls(), 0);

    assert!(matches!(host.run_turn(&session, text_input("/commit")), TurnOutcome::Completed));
    assert!(system_texts(&last_request(&model))
        .iter()
        .any(|text| text.contains("<name>commit</name>")));
}

#[test]
fn a_turn_is_stored_in_order() {
    let sessions = FakeSessionStorage::new();
    let model = provider_a();
    model.enqueue_script(vec![
        text_delta("let me look"),
        tool_call("call-1", "echo", r#"{"value":"x"}"#),
        done(),
    ]);
    model.enqueue_script(assistant_script("done"));
    let mut host = host(base_config("model-a"))
        .provider(&model)
        .tool(&FakeTool::new("echo", false))
        .session_storage(&sessions)
        .build()
        .expect("agent should build");
    let session = host.new_session(SessionConfig::default()).expect("session should be created");

    assert!(matches!(host.run_turn(&session, text_input("go")), TurnOutcome::Completed));

    let events = sessions.saved_events(session.session_id());
    let numbers: Vec<u64> = events.iter().map(|event| event.seq).collect();
    let kinds: Vec<&str> = events
        .iter()
        .map(|event| match &event.payload {
            LedgerEventPayload::UserMessage { .. } => "user",
            LedgerEventPayload::AssistantMessage { .. } => "assistant",
            LedgerEventPayload::ToolCall { .. } => "call",
            LedgerEventPayload::ToolResult { .. } => "result",
            LedgerEventPayload::SystemMessage { .. } => "system",
            LedgerEventPayload::Metadata { .. } => "metadata",
        })
        .collect();
    assert_eq!(numbers, (1..=events.len() as u64).collect::<Vec<u64>>());
    assert_eq!(
        kinds,
        ["metadata", "metadata", "user", "assistant", "call", "result", "assistant"]
    );
}

#[test]
fn a_provider_that_cannot_be_reached_fails_the_turn() {
    let model = provider_a();
    model.enqueue_script(error_script("out of order", false));
    let mut host = host(base_config("model-a")).provider(&model).build().expect("agent");
    let session = host.new_session(SessionConfig::default()).expect("session should be created");

    assert!(matches!(
        host.run_turn(&session, text_input("hello")),
        TurnOutcome::Failed(AgentError::ProviderError { .. })
    ));
    assert!(matches!(host.run_turn(&session, text_input("again")), TurnOutcome::Completed));
}

#[test]
fn an_aborted_turn_start_stores_nothing() {
    let sessions = FakeSessionStorage::new();
    let model = provider_a();
    let plugin = aborting_plugin("plugin-a", HookEvent::TurnStart, "no turn today");
    let mut host = host(base_config("model-a"))
        .provider(&model)
        .plugin(&plugin)
        .session_storage(&sessions)
        .build()
        .expect("agent should build");
    let session = host.new_session(SessionConfig::default()).expect("session should be created");

    assert!(matches!(
        host.run_turn(&session, text_input("hello")),
        TurnOutcome::Failed(AgentError::PluginAborted { hook, reason })
            if hook == "TurnStart" && reason == "no turn today"
    ));
    assert_eq!(sessions.saved_events(session.session_id()).len(), 2);
    assert_eq!(model.chat_calls(), 0);
}

#[test]
fn critical_turn_persistence_failure_stops_turn_immediately() {
    let sessions = FakeSessionStorage::new();
    sessions.fail_on(Failing::UserMessage);
    let model = provider("provider-a", "chat-model", 8_192);
    let mut host = host(base_config("chat-model"))
        .provider(&model)
        .session_storage(&sessions)
        .build()
        .expect("agent should build");
    let session = host.new_session(SessionConfig::default()).expect("session should be created");

    let outcome = host.run_turn(&session, text_input("should fail"));
    assert!(matches!(outcome, TurnOutcome::Failed(AgentError::StorageError(_))));
    assert!(!sessions
        .saved_events(session.session_id())
        .iter()
        .any(|event| matches!(event.payload, LedgerEventPayload::UserMessage { .. })));

    sessions.clear_failures();
    model.enqueue_script(assistant_script("recovered"));

    let outcome = host.run_turn(&session, text_input("after recover"));
    assert!(matches!(outcome, TurnOutcome::Completed));
}

#[test]
fn cancellation_boundaries_cover_stream_and_tool_execution() {
    let model = provider("provider-a", "chat-model", 8_192);
    model.enqueue_script(cancellable_script());
    let mut streaming = host(base_config("chat-model")).provider(&model).build().expect("agent");
    let session =
        streaming.new_session(SessionConfig::default()).expect("session should be created");
    let (outcome, _) = streaming.cancel_turn(&session, text_input("cancel stream"), is_text_delta);
    assert!(matches!(outcome, TurnOutcome::Cancelled));

    for (name, mutating) in [("read-tool", false), ("write-tool", true)] {
        let model = provider("provider-a", "chat-model", 8_192);
        model.enqueue_script(vec![tool_call("call-1", name, "{}"), done()]);
        let tool = FakeTool::new(name, mutating).with_delay_ms(120);
        let mut host = host(base_config("chat-model"))
            .provider(&model)
            .tool(&tool)
            .build()
            .expect("agent should build");
        let session =
            host.new_session(SessionConfig::default()).expect("session should be created");
        let (outcome, _) = host.cancel_turn(&session, text_input("cancel tool"), is_tool_start);
        assert!(matches!(outcome, TurnOutcome::Cancelled));
        assert_eq!(tool.execute_calls(), 1);
        assert_eq!(model.chat_calls(), 1);
    }
}

// ---------------------------------------------------------------------------
// Hooks and tools
// ---------------------------------------------------------------------------

fn section_plugin(id: &str, section: &str) -> FakePlugin {
    FakePlugin::new(id, vec![HookEvent::TurnStart]).tapping(
        HookEvent::TurnStart,
        HookResult::ContinueWith(HookPatch::TurnStart {
            append_dynamic_sections: vec![section.to_string()],
        }),
    )
}

#[test]
fn turn_start_patch_appends_dynamic_sections_in_order() {
    let model = provider_a();
    model.enqueue_script(vec![done()]);
    let mut host = host(base_config("model-a"))
        .provider(&model)
        .plugin(&section_plugin("plugin-a", "section-a"))
        .plugin(&section_plugin("plugin-b", "section-b"))
        .build()
        .expect("agent should build");
    let session = host.new_session(SessionConfig::default()).expect("session should be created");

    let outcome = host.run_turn(&session, text_input("hello"));
    let requests = model.requests();
    let prompt = system_prompt(&requests[0]);

    assert!(matches!(outcome, TurnOutcome::Completed));
    assert!(prompt.contains("section-a"));
    assert!(prompt.contains("section-b"));
    assert!(prompt.find("section-a") < prompt.find("section-b"));
}

#[test]
fn before_tool_use_patch_updates_effective_arguments() {
    let model = provider_a();
    model.enqueue_script(vec![tool_call("call-1", "echo", r#"{"value": "raw"}"#), done()]);
    model.enqueue_script(vec![done()]);
    let tool = FakeTool::new("echo", false);
    let sessions = FakeSessionStorage::new();
    let plugin = FakePlugin::new("plugin", vec![HookEvent::BeforeToolUse]).tapping(
        HookEvent::BeforeToolUse,
        HookResult::ContinueWith(HookPatch::BeforeToolUse {
            arguments: json(r#"{"value": "patched"}"#),
        }),
    );
    let mut host = host(base_config("model-a"))
        .provider(&model)
        .tool(&tool)
        .plugin(&plugin)
        .session_storage(&sessions)
        .build()
        .expect("agent should build");
    let session = host.new_session(SessionConfig::default()).expect("session should be created");

    let outcome = host.run_turn(&session, text_input("run tool"));
    let state = tool.state.borrow();

    assert!(matches!(outcome, TurnOutcome::Completed));
    assert_eq!(state.inputs.len(), 1);
    assert_eq!(state.inputs[0].arguments, json(r#"{"value": "patched"}"#));
    assert!(sessions.saved_events(session.session_id()).iter().any(|event| {
        matches!(
            &event.payload,
            LedgerEventPayload::ToolCall { arguments, .. }
                if *arguments == json(r#"{"value": "patched"}"#)
        )
    }));
}

#[test]
fn read_only_tools_execute_in_parallel() {
    let model = provider_a();
    model.enqueue_script(vec![
        tool_call("call-a", "read-a", "{}"),
        tool_call("call-b", "read-b", "{}"),
        done(),
    ]);
    model.enqueue_script(vec![done()]);
    let tool_a = FakeTool::new("read-a", false).with_delay_ms(120);
    let tool_b = FakeTool::new("read-b", false).with_delay_ms(120);
    let mut host = host(base_config("model-a"))
        .provider(&model)
        .tool(&tool_a)
        .tool(&tool_b)
        .build()
        .expect("agent should build");
    let session = host.new_session(SessionConfig::default()).expect("session should be created");

    let outcome = host.run_turn(&session, text_input("parallel"));

    assert!(matches!(outcome, TurnOutcome::Completed));
    assert_eq!(tool_a.execute_calls(), 1);
    assert_eq!(tool_b.execute_calls(), 1);
    assert!(tool_a.first_started_at() < tool_b.first_finished_at());
    assert!(tool_b.first_started_at() < tool_a.first_finished_at());
}

#[test]
fn results_of_parallel_tools_keep_the_order_of_the_calls() {
    let model = provider_a();
    model.enqueue_script(vec![
        tool_call("call-a", "read-a", "{}"),
        tool_call("call-b", "read-b", "{}"),
        done(),
    ]);
    model.enqueue_script(vec![done()]);
    let tool_a = FakeTool::new("read-a", false).with_delay_ms(200);
    let tool_b = FakeTool::new("read-b", false).with_delay_ms(10);
    let mut host = host(base_config("model-a"))
        .provider(&model)
        .tool(&tool_a)
        .tool(&tool_b)
        .build()
        .expect("agent should build");
    let session = host.new_session(SessionConfig::default()).expect("session should be created");

    assert!(matches!(host.run_turn(&session, text_input("go")), TurnOutcome::Completed));

    assert!(tool_b.first_finished_at() < tool_a.first_finished_at());
    assert_eq!(
        tool_trace(&last_request(&model)),
        [
            "call:call-a:read-a:{}",
            "call:call-b:read-b:{}",
            "result:call-a:false:ok",
            "result:call-b:false:ok",
        ]
    );
}

#[test]
fn mutating_tools_execute_in_model_order() {
    let model = provider_a();
    model.enqueue_script(vec![
        tool_call("call-a", "write-a", "{}"),
        tool_call("call-b", "write-b", "{}"),
        done(),
    ]);
    model.enqueue_script(vec![done()]);
    let tool_a = FakeTool::new("write-a", true).with_delay_ms(120);
    let tool_b = FakeTool::new("write-b", true).with_delay_ms(10);
    let mut host = host(base_config("model-a"))
        .provider(&model)
        .tool(&tool_a)
        .tool(&tool_b)
        .build()
        .expect("agent should build");
    let session = host.new_session(SessionConfig::default()).expect("session should be created");

    let outcome = host.run_turn(&session, text_input("serial"));

    assert!(matches!(outcome, TurnOutcome::Completed));
    assert_eq!(tool_a.execute_calls(), 1);
    assert_eq!(tool_b.execute_calls(), 1);
    assert!(tool_b.first_started_at() >= tool_a.first_finished_at());
}

#[test]
fn mutating_batch_short_circuits_after_failure() {
    let model = provider_a();
    model.enqueue_script(vec![
        tool_call("call-a", "write-a", "{}"),
        tool_call("call-b", "write-b", "{}"),
        done(),
    ]);
    model.enqueue_script(vec![done()]);
    let tool_a = FakeTool::new("write-a", true).with_failure("boom");
    let tool_b = FakeTool::new("write-b", true);
    let sessions = FakeSessionStorage::new();
    let mut host = host(base_config("model-a"))
        .provider(&model)
        .tool(&tool_a)
        .tool(&tool_b)
        .session_storage(&sessions)
        .build()
        .expect("agent should build");
    let session = host.new_session(SessionConfig::default()).expect("session should be created");

    let outcome = host.run_turn(&session, text_input("short circuit"));
    let saved_events = sessions.saved_events(session.session_id());

    assert!(matches!(outcome, TurnOutcome::Completed));
    assert_eq!(tool_b.execute_calls(), 0);
    assert!(saved_events.iter().any(|event| {
        matches!(
            &event.payload,
            LedgerEventPayload::ToolResult { call_id, output }
                if call_id == "call-b"
                    && output.content.contains("previous tool 'write-a' failed")
        )
    }));
}

#[test]
fn tool_timeout_cancels_only_timeout_token() {
    let mut config = base_config("model-a");
    config.tool_timeout_ms = 50;
    let model = provider_a();
    model.enqueue_script(vec![
        tool_call("call-slow", "slow", "{}"),
        tool_call("call-fast", "fast", "{}"),
        done(),
    ]);
    model.enqueue_script(vec![done()]);
    let slow = FakeTool::new("slow", false).wait_for_timeout_cancel();
    let fast = FakeTool::new("fast", false).with_delay_ms(10);
    let mut host = host(config)
        .provider(&model)
        .tool(&slow)
        .tool(&fast)
        .build()
        .expect("agent should build");
    let session = host.new_session(SessionConfig::default()).expect("session should be created");

    let outcome = host.run_turn(&session, text_input("timeout"));

    assert!(matches!(outcome, TurnOutcome::Completed));
    assert_eq!(slow.state.borrow().timed_out, 1);
    assert_eq!(fast.execute_calls(), 1);
    let trace = tool_trace(&last_request(&model));
    assert!(trace[2].starts_with("result:call-slow:true:"));
    assert_eq!(trace[3], "result:call-fast:false:ok");
}

#[test]
fn after_tool_use_abort_stops_follow_up_loop() {
    let model = provider_a();
    model.enqueue_script(vec![tool_call("call-1", "echo", "{}"), done()]);
    model.enqueue_script(assistant_script("final"));
    let tool = FakeTool::new("echo", false);
    let plugin = aborting_plugin("plugin", HookEvent::AfterToolUse, "stop tool loop");
    let mut host = host(base_config("model-a"))
        .provider(&model)
        .tool(&tool)
        .plugin(&plugin)
        .build()
        .expect("agent should build");
    let session = host.new_session(SessionConfig::default()).expect("session should be created");

    let outcome = host.run_turn(&session, text_input("after tool abort"));
    let requests = model.requests();

    assert!(matches!(outcome, TurnOutcome::Completed));
    assert_eq!(requests.len(), 2);
    assert!(requests[1].tools.is_empty());
}

#[test]
fn tool_output_respects_total_and_metadata_budgets() {
    let mut config = base_config("model-a");
    config.tool_output_max_bytes = 120;
    config.tool_output_metadata_max_bytes = 32;
    let model = provider_a();
    model.enqueue_script(vec![tool_call("call-1", "dump", "{}"), done()]);
    model.enqueue_script(vec![done()]);
    let sessions = FakeSessionStorage::new();
    let tool = FakeTool::new("dump", false).with_output(ToolOutput {
        content: "x".repeat(256),
        is_error: false,
        metadata: json(&format!(r#"{{"payload":"{}"}}"#, "y".repeat(256))),
    });
    let mut host = host(config)
        .provider(&model)
        .tool(&tool)
        .session_storage(&sessions)
        .build()
        .expect("agent should build");
    let session = host.new_session(SessionConfig::default()).expect("session should be created");

    let outcome = host.run_turn(&session, text_input("budgets"));
    let saved_events = sessions.saved_events(session.session_id());
    let tool_result = saved_events
        .iter()
        .find_map(|event| match &event.payload {
            LedgerEventPayload::ToolResult { output, .. } => Some(output.clone()),
            _ => None,
        })
        .expect("tool result should be persisted");
    let metadata: serde_json::Value =
        serde_json::from_str(tool_result.metadata.text()).expect("metadata is JSON");
    let total_bytes = tool_result.content.len() + tool_result.metadata.text().len();

    assert!(matches!(outcome, TurnOutcome::Completed));
    assert_eq!(metadata["_truncated"], serde_json::Value::Bool(true));
    assert!(tool_result.content.ends_with("[output truncated]"));
    assert!(total_bytes <= 120);
}

#[test]
fn max_tool_calls_exceeded_injects_limit_message_and_returns_failed_outcome() {
    let mut config = base_config("model-a");
    config.max_tool_calls_per_turn = 1;
    let model = provider_a();
    model.enqueue_script(vec![tool_call("call-1", "echo", "{}"), done()]);
    model.enqueue_script(vec![tool_call("call-2", "echo", "{}"), done()]);
    model.enqueue_script(assistant_script("final summary"));
    let sessions = FakeSessionStorage::new();
    let mut host = host(config)
        .provider(&model)
        .tool(&FakeTool::new("echo", false))
        .session_storage(&sessions)
        .build()
        .expect("agent should build");
    let session = host.new_session(SessionConfig::default()).expect("session should be created");

    let outcome = host.run_turn(&session, text_input("limit"));
    let requests = model.requests();

    assert!(matches!(
        outcome,
        TurnOutcome::Failed(AgentError::MaxToolCallsExceeded { limit }) if limit == 1
    ));
    assert_eq!(requests.len(), 3);
    assert!(requests[2].tools.is_empty());
    assert!(sessions.saved_events(session.session_id()).iter().any(|event| {
        matches!(
            &event.payload,
            LedgerEventPayload::SystemMessage { content }
                if content.contains("[TOOL_LIMIT_REACHED]")
        )
    }));
}

#[test]
fn max_tool_calls_exceeded_runs_final_no_tool_request() {
    let mut config = base_config("chat-model");
    config.max_tool_calls_per_turn = 1;
    let model = provider("provider-a", "chat-model", 8_192);
    model.enqueue_script(vec![
        tool_call("call-1", "echo", r#"{"value":"one"}"#),
        tool_call("call-2", "echo", r#"{"value":"two"}"#),
        done(),
    ]);
    model.enqueue_script(assistant_script("final after limit"));
    let sessions = FakeSessionStorage::new();
    let mut host = host(config)
        .provider(&model)
        .tool(&FakeTool::new("echo", false))
        .session_storage(&sessions)
        .build()
        .expect("agent should build");
    let session = host.new_session(SessionConfig::default()).expect("session should be created");

    let outcome = host.run_turn(&session, text_input("too many tools"));

    assert!(matches!(
        outcome,
        TurnOutcome::Failed(AgentError::MaxToolCallsExceeded { limit }) if limit == 1
    ));
    assert_eq!(model.chat_calls(), 2);
    let final_request = model.requests()[1].clone();
    assert!(final_request.tools.is_empty());
    assert!(system_texts(&final_request)
        .iter()
        .any(|text| text.contains("[TOOL_LIMIT_REACHED]")));
    assert!(sessions.saved_events(session.session_id()).iter().any(|event| {
        matches!(
            &event.payload,
            LedgerEventPayload::SystemMessage { content }
                if content.contains("[TOOL_LIMIT_REACHED]")
        )
    }));
}

fn run_after_tool_abort_case(mutating: bool) -> (usize, usize, usize, TurnOutcome) {
    let model = provider("provider-a", "chat-model", 8_192);
    model.enqueue_script(vec![
        tool_call("call-a", "tool-a", r#"{"value":"a"}"#),
        tool_call("call-b", "tool-b", r#"{"value":"b"}"#),
        done(),
    ]);
    model.enqueue_script(assistant_script("after tool abort"));
    let tool_a = FakeTool::new("tool-a", mutating).with_delay_ms(40);
    let tool_b = FakeTool::new("tool-b", mutating).with_delay_ms(40);
    let plugin = aborting_plugin("abort-plugin", HookEvent::AfterToolUse, "stop after tool");
    let mut host = host(base_config("chat-model"))
        .provider(&model)
        .tool(&tool_a)
        .tool(&tool_b)
        .plugin(&plugin)
        .build()
        .expect("agent should build");
    let session = host.new_session(SessionConfig::default()).expect("session should be created");
    let outcome = host.run_turn(&session, text_input("run tool"));
    (tool_a.execute_calls(), tool_b.execute_calls(), model.chat_calls(), outcome)
}

#[test]
fn after_tool_use_abort_behaves_differently_for_parallel_and_serial_batches() {
    let (parallel_a, parallel_b, parallel_calls, parallel_outcome) =
        run_after_tool_abort_case(false);
    let (serial_a, serial_b, serial_calls, serial_outcome) = run_after_tool_abort_case(true);

    assert!(matches!(parallel_outcome, TurnOutcome::Completed));
    assert_eq!(parallel_a, 1);
    assert_eq!(parallel_b, 1);
    assert_eq!(parallel_calls, 2);

    assert!(matches!(serial_outcome, TurnOutcome::Completed));
    assert_eq!(serial_a, 1);
    assert_eq!(serial_b, 0);
    assert_eq!(serial_calls, 2);
}

#[test]
fn synthetic_tool_messages_survive_resume_projection() {
    let sessions = FakeSessionStorage::new();
    let model = provider("provider-a", "chat-model", 8_192);
    model.enqueue_script(vec![tool_call("call-1", "missing-tool", "{}"), done()]);
    model.enqueue_script(assistant_script("after synthetic"));
    model.enqueue_script(assistant_script("live compare"));
    model.enqueue_script(assistant_script("after resume"));
    let mut host = host(base_config("chat-model"))
        .provider(&model)
        .session_storage(&sessions)
        .build()
        .expect("agent should build");
    let session = host.new_session(SessionConfig::default()).expect("session should be created");
    let session_id = session.session_id().to_string();

    assert!(matches!(host.run_turn(&session, text_input("first turn")), TurnOutcome::Completed));
    assert!(matches!(
        host.run_turn(&session, text_input("live comparison")),
        TurnOutcome::Completed
    ));

    let live_tool_trace = tool_trace(&model.requests()[2]);
    assert!(live_tool_trace.iter().any(|entry| entry.contains("missing-tool")));
    assert!(live_tool_trace
        .iter()
        .any(|entry| entry.contains("[Tool error] tool 'missing-tool' not found")));

    host.close(&session, None).expect("session should close");
    let resumed = host.resume_session(&session_id).expect("session should resume");
    assert!(matches!(host.run_turn(&resumed, text_input("after resume")), TurnOutcome::Completed));

    assert_eq!(tool_trace(&model.requests()[3]), live_tool_trace);
    assert!(sessions.saved_events(&session_id).iter().any(|event| {
        matches!(
            &event.payload,
            LedgerEventPayload::ToolResult { output, .. }
                if output.content.contains("[Tool error] tool 'missing-tool' not found")
        )
    }));
}

// ---------------------------------------------------------------------------
// Compaction
// ---------------------------------------------------------------------------

fn compact_config() -> AgentConfig {
    let mut config = base_config("chat-model");
    config.compact_model = Some("compact-model".to_string());
    config
}

fn chat_model() -> FakeProvider {
    provider("chat-provider", "chat-model", 512)
}

fn compact_model() -> FakeProvider {
    provider("compact-provider", "compact-model", 4_096)
}

#[test]
fn summary_compaction_resume_is_consistent_end_to_end() {
    let chat = chat_model();
    let compact = compact_model();
    let first_turn_user = repeated_text('a', 900);
    let first_turn_assistant = repeated_text('b', 900);
    chat.enqueue_script(assistant_script(&first_turn_assistant));
    compact.enqueue_script(assistant_script("summary checkpoint"));
    chat.enqueue_script(assistant_script("ack"));
    chat.enqueue_script(assistant_script("resume"));
    let mut host = host(compact_config())
        .provider(&chat)
        .provider(&compact)
        .session_storage(&FakeSessionStorage::new())
        .build()
        .expect("agent should build");
    let session = host.new_session(SessionConfig::default()).expect("session should be created");
    let session_id = session.session_id().to_string();

    assert!(matches!(
        host.run_turn(&session, text_input(&first_turn_user)),
        TurnOutcome::Completed
    ));
    assert!(matches!(
        host.run_turn(&session, text_input("keep current turn")),
        TurnOutcome::Completed
    ));

    let live_request = last_request(&chat);
    assert!(system_texts(&live_request).iter().any(|text| {
        text.contains("Another language model started to solve this problem")
            && text.contains("summary checkpoint")
    }));
    assert_eq!(user_texts(&live_request), vec!["keep current turn".to_string()]);
    assert!(!assistant_texts(&live_request)
        .iter()
        .any(|text| text.contains(first_turn_assistant.as_str())));

    host.close(&session, None).expect("session should close");
    let resumed = host.resume_session(&session_id).expect("session should resume");
    assert!(matches!(host.run_turn(&resumed, text_input("after resume")), TurnOutcome::Completed));

    let resumed_request = last_request(&chat);
    assert!(system_texts(&resumed_request).iter().any(|text| {
        text.contains("Another language model started to solve this problem")
            && text.contains("summary checkpoint")
    }));
    assert_eq!(
        user_texts(&resumed_request),
        vec!["keep current turn".to_string(), "after resume".to_string()]
    );
    assert_eq!(assistant_texts(&resumed_request), vec!["ack".to_string()]);
}

#[test]
fn summary_compaction_resume_matches_live_projection() {
    let sessions = FakeSessionStorage::new();
    let chat = chat_model();
    let compact = compact_model();
    let first_turn_user = repeated_text('a', 900);
    let first_turn_assistant = repeated_text('b', 900);
    chat.enqueue_script(assistant_script(&first_turn_assistant));
    compact.enqueue_script(assistant_script("summary checkpoint"));
    chat.enqueue_script(assistant_script("ack"));
    chat.enqueue_script(assistant_script("resume"));
    let mut host = host(compact_config())
        .provider(&chat)
        .provider(&compact)
        .session_storage(&sessions)
        .build()
        .expect("agent should build");
    let session = host.new_session(SessionConfig::default()).expect("session should be created");
    let session_id = session.session_id().to_string();

    assert!(matches!(
        host.run_turn(&session, text_input(&first_turn_user)),
        TurnOutcome::Completed
    ));
    assert!(matches!(
        host.run_turn(&session, text_input("keep current turn")),
        TurnOutcome::Completed
    ));

    let live_request = last_request(&chat);
    assert!(system_texts(&live_request).iter().any(|text| {
        text.contains("Another language model started to solve this problem")
            && text.contains("summary checkpoint")
    }));
    assert_eq!(user_texts(&live_request), vec!["keep current turn".to_string()]);
    assert!(!assistant_texts(&live_request)
        .iter()
        .any(|text| text.contains(first_turn_assistant.as_str())));

    host.close(&session, None).expect("session should close");
    let resumed = host.resume_session(&session_id).expect("session should resume");
    assert!(matches!(host.run_turn(&resumed, text_input("after resume")), TurnOutcome::Completed));

    let resumed_request = last_request(&chat);
    assert!(system_texts(&resumed_request).iter().any(|text| {
        text.contains("Another language model started to solve this problem")
            && text.contains("summary checkpoint")
    }));
    assert_eq!(
        user_texts(&resumed_request),
        vec!["keep current turn".to_string(), "after resume".to_string()]
    );
    assert_eq!(assistant_texts(&resumed_request), vec!["ack".to_string()]);
    assert_eq!(compactions(&sessions.saved_events(&session_id)), 1);
}

#[test]
fn truncation_compaction_resume_matches_live_projection() {
    let chat = chat_model();
    let compact = compact_model();
    let first_turn_user = repeated_text('c', 900);
    let first_turn_assistant = repeated_text('d', 900);
    chat.enqueue_script(assistant_script(&first_turn_assistant));
    compact.enqueue_script(error_script("compact unavailable", false));
    chat.enqueue_script(assistant_script("ack"));
    chat.enqueue_script(assistant_script("resume"));
    let mut host = host(compact_config())
        .provider(&chat)
        .provider(&compact)
        .session_storage(&FakeSessionStorage::new())
        .build()
        .expect("agent should build");
    let session = host.new_session(SessionConfig::default()).expect("session should be created");
    let session_id = session.session_id().to_string();
    let notice = "Earlier context was truncated because summary compaction was unavailable";

    assert!(matches!(
        host.run_turn(&session, text_input(&first_turn_user)),
        TurnOutcome::Completed
    ));
    assert!(matches!(
        host.run_turn(&session, text_input("keep current turn")),
        TurnOutcome::Completed
    ));

    let live_request = last_request(&chat);
    assert!(system_texts(&live_request).iter().any(|text| text.contains(notice)));
    assert_eq!(user_texts(&live_request), vec!["keep current turn".to_string()]);

    host.close(&session, None).expect("session should close");
    let resumed = host.resume_session(&session_id).expect("session should resume");
    assert!(matches!(host.run_turn(&resumed, text_input("after resume")), TurnOutcome::Completed));

    let resumed_request = last_request(&chat);
    assert!(system_texts(&resumed_request).iter().any(|text| text.contains(notice)));
    assert_eq!(
        user_texts(&resumed_request),
        vec!["keep current turn".to_string(), "after resume".to_string()]
    );
    assert_eq!(assistant_texts(&resumed_request), vec!["ack".to_string()]);
}

#[test]
fn current_turn_anchor_is_preserved_during_compact() {
    let chat = chat_model();
    let compact = compact_model();
    let first_turn_user = repeated_text('e', 900);
    let first_turn_assistant = repeated_text('f', 900);
    chat.enqueue_script(assistant_script(&first_turn_assistant));
    compact.enqueue_script(assistant_script("summary checkpoint"));
    chat.enqueue_script(assistant_script("ack"));
    let mut host = host(compact_config())
        .provider(&chat)
        .provider(&compact)
        .session_storage(&FakeSessionStorage::new())
        .build()
        .expect("agent should build");
    let session = host.new_session(SessionConfig::default()).expect("session should be created");

    assert!(matches!(
        host.run_turn(&session, text_input(&first_turn_user)),
        TurnOutcome::Completed
    ));
    assert!(matches!(
        host.run_turn(&session, text_input("keep current turn")),
        TurnOutcome::Completed
    ));

    let compact_request = last_request(&compact);
    let regular_request = last_request(&chat);
    assert!(user_texts(&compact_request).iter().all(|text| text != "keep current turn"));
    assert!(user_texts(&regular_request).iter().any(|text| text == "keep current turn"));
    assert!(user_texts(&compact_request).iter().any(|text| text == first_turn_user.as_str()));
}

#[test]
fn before_compact_abort_skips_only_estimate_trigger() {
    let sessions = FakeSessionStorage::new();
    let chat = chat_model();
    let compact = compact_model();
    let first_turn_user = repeated_text('g', 900);
    let first_turn_assistant = repeated_text('h', 900);
    let plugin = aborting_plugin("abort-before-compact", HookEvent::BeforeCompact, "skip compact");
    chat.enqueue_script(assistant_script(&first_turn_assistant));
    chat.enqueue_script(error_script("request is too large", true));
    let mut host = host(compact_config())
        .provider(&chat)
        .provider(&compact)
        .session_storage(&sessions)
        .plugin(&plugin)
        .build()
        .expect("agent should build");
    let session = host.new_session(SessionConfig::default()).expect("session should be created");

    assert!(matches!(
        host.run_turn(&session, text_input(&first_turn_user)),
        TurnOutcome::Completed
    ));
    assert!(matches!(
        host.run_turn(&session, text_input("keep current turn")),
        TurnOutcome::Failed(AgentError::CompactError { message })
            if message.contains("BeforeCompact hook aborted fallback compaction")
    ));
    assert_eq!(compact.chat_calls(), 0);
    assert_eq!(chat.chat_calls(), 2);
    assert_eq!(compactions(&sessions.saved_events(session.session_id())), 0);
}

#[test]
fn context_length_exceeded_retry_happens_once() {
    let sessions = FakeSessionStorage::new();
    let chat = chat_model();
    let compact = compact_model();
    let first_turn_user = repeated_text('i', 900);
    let first_turn_assistant = repeated_text('j', 900);
    chat.enqueue_script(assistant_script(&first_turn_assistant));
    chat.enqueue_script(error_script("first attempt too large", true));
    compact.enqueue_script(assistant_script("summary checkpoint"));
    chat.enqueue_script(error_script("retry still too large", true));
    let mut host = host(compact_config())
        .threshold(0.99)
        .provider(&chat)
        .provider(&compact)
        .session_storage(&sessions)
        .build()
        .expect("agent should build");
    let session = host.new_session(SessionConfig::default()).expect("session should be created");

    assert!(matches!(
        host.run_turn(&session, text_input(&first_turn_user)),
        TurnOutcome::Completed
    ));
    assert!(matches!(
        host.run_turn(&session, text_input("keep current turn")),
        TurnOutcome::Failed(AgentError::CompactError { message })
            if message.contains("provider still rejected the request after fallback compaction")
    ));
    assert_eq!(chat.chat_calls(), 3);
    assert_eq!(compact.chat_calls(), 1);
    assert_eq!(compactions(&sessions.saved_events(session.session_id())), 1);
}

#[test]
fn incomplete_message_resume_appends_cancel_notice_without_writing_ledger() {
    let sessions = FakeSessionStorage::new();
    let chat = chat_model();
    chat.enqueue_script(cancellable_script());
    chat.enqueue_script(assistant_script("resumed"));
    let mut host = host(compact_config())
        .provider(&chat)
        .provider(&compact_model())
        .session_storage(&sessions)
        .build()
        .expect("agent should build");
    let session = host.new_session(SessionConfig::default()).expect("session should be created");
    let session_id = session.session_id().to_string();
    let noticed = |events: &[LedgerEvent]| {
        events.iter().any(|event| {
            matches!(
                &event.payload,
                LedgerEventPayload::SystemMessage { content } if content == RESUME_CANCEL_NOTICE
            )
        })
    };

    let (outcome, _) = host.cancel_turn(&session, text_input("please stream"), is_text_delta);
    assert!(matches!(outcome, TurnOutcome::Cancelled));
    let saved_events = sessions.saved_events(&session_id);
    assert!(saved_events.iter().any(|event| {
        matches!(
            &event.payload,
            LedgerEventPayload::AssistantMessage { content, status }
                if *status == MessageStatus::Incomplete
                    && matches!(content.first(), Some(ContentBlock::Text(text)) if text == "partial")
        )
    }));
    assert!(!noticed(&saved_events));

    host.close(&session, None).expect("session should close");
    let resumed = host.resume_session(&session_id).expect("session should resume");
    assert!(matches!(host.run_turn(&resumed, text_input("after cancel")), TurnOutcome::Completed));

    let resumed_request = last_request(&chat);
    let history = history_messages(&resumed_request);
    assert!(matches!(
        history.first(),
        Some(Message::User { content }) if content_text(content) == "please stream"
    ));
    assert!(matches!(
        history.get(1),
        Some(Message::Assistant { content, status })
            if content_text(content) == "partial" && *status == MessageStatus::Incomplete
    ));
    assert!(matches!(
        history.get(2),
        Some(Message::System { content }) if content == RESUME_CANCEL_NOTICE
    ));
    assert!(matches!(
        history.last(),
        Some(Message::User { content }) if content_text(content) == "after cancel"
    ));
    assert!(!noticed(&sessions.saved_events(&session_id)));
}

#[test]
fn compact_marker_is_not_applied_if_persistence_fails() {
    let sessions = FakeSessionStorage::new();
    let chat = chat_model();
    let compact = compact_model();
    let first_turn_user = repeated_text('k', 900);
    let first_turn_assistant = repeated_text('l', 900);
    chat.enqueue_script(assistant_script(&first_turn_assistant));
    compact.enqueue_script(assistant_script("summary checkpoint"));
    sessions.fail_on(Failing::Metadata(MetadataKey::ContextCompaction));
    let mut host = host(compact_config())
        .provider(&chat)
        .provider(&compact)
        .session_storage(&sessions)
        .build()
        .expect("agent should build");
    let session = host.new_session(SessionConfig::default()).expect("session should be created");

    assert!(matches!(
        host.run_turn(&session, text_input(&first_turn_user)),
        TurnOutcome::Completed
    ));
    assert!(matches!(
        host.run_turn(&session, text_input("keep current turn")),
        TurnOutcome::Failed(AgentError::StorageError(_))
    ));
    assert_eq!(chat.chat_calls(), 1);
    assert_eq!(compact.chat_calls(), 1);
    assert_eq!(compactions(&sessions.saved_events(session.session_id())), 0);
}

// ---------------------------------------------------------------------------
// Memories
// ---------------------------------------------------------------------------

fn memory_config(namespace: &str) -> AgentConfig {
    let mut config = AgentConfig::new("chat-model", namespace);
    config.compact_model = Some("compact-model".to_string());
    config.memory_model = Some("memory-model".to_string());
    config.memory_checkpoint_interval = 10;
    config.memory_max_items = 8;
    config
}

struct Models {
    chat: FakeProvider,
    compact: FakeProvider,
    memory: FakeProvider,
}

fn memory_models(chat_window: usize) -> Models {
    Models {
        chat: provider("chat-provider", "chat-model", chat_window),
        compact: provider("compact-provider", "compact-model", 8_192),
        memory: provider("memory-provider", "memory-model", 8_192),
    }
}

fn memory_host(config: AgentConfig, models: &Models, memories: &FakeMemoryStorage) -> HostBuilder {
    host(config)
        .threshold(0.99)
        .provider(&models.chat)
        .provider(&models.compact)
        .provider(&models.memory)
        .memory_storage(memories)
}

fn empty_extraction_script() -> Vec<Step> {
    assistant_script(r#"{"memoryOperations":[],"rolloutSummary":"","rolloutSlug":""}"#)
}

fn extraction_user_text(request: &ChatRequest) -> String {
    match request.messages.get(1) {
        Some(Message::User { content }) => content_text(content),
        other => panic!("expected memory extraction user message, got {other:?}"),
    }
}

#[test]
fn bootstrap_memories_follow_list_recent_order() {
    let memories = FakeMemoryStorage::new();
    let models = memory_models(8_192);
    memories.insert(sample_memory("memory-1", "memory/test", "old note", -2));
    memories.insert(sample_memory("memory-2", "memory/test", "newest note", 0));
    memories.insert(sample_memory("memory-3", "memory/test", "middle note", -1));
    models.chat.enqueue_script(assistant_script("ok"));
    let mut host = memory_host(memory_config("memory/test"), &models, &memories)
        .build()
        .expect("agent should build");
    let session = host.new_session(SessionConfig::default()).expect("session should be created");

    assert!(matches!(host.run_turn(&session, text_input("hello")), TurnOutcome::Completed));

    let requests = models.chat.requests();
    let prompt = system_prompt(&requests[0]);
    let newest_pos = prompt.find("[memory-2] newest note").expect("newest memory");
    let middle_pos = prompt.find("[memory-3] middle note").expect("middle memory");
    let oldest_pos = prompt.find("[memory-1] old note").expect("oldest memory");
    assert!(newest_pos < middle_pos);
    assert!(middle_pos < oldest_pos);
}

#[test]
fn search_uses_only_explicit_text_blocks() {
    let memories = FakeMemoryStorage::new();
    let models = memory_models(8_192);
    models.chat.enqueue_script(assistant_script("ok"));
    let mut host = memory_host(memory_config("memory/test"), &models, &memories)
        .build()
        .expect("agent should build");
    let session = host.new_session(SessionConfig::default()).expect("session should be created");
    let input = UserInput {
        content: vec![
            ContentBlock::Text("alpha".to_string()),
            ContentBlock::Image {
                data: "aGVsbG8=".to_string(),
                media_type: "image/png".to_string(),
            },
            ContentBlock::File {
                name: "note.txt".to_string(),
                media_type: "text/plain".to_string(),
                text: "file body".to_string(),
            },
            ContentBlock::Text("beta".to_string()),
        ],
    };

    assert!(matches!(host.run_turn(&session, input), TurnOutcome::Completed));
    assert_eq!(
        memories.search_calls(),
        vec![("memory/test".to_string(), "alpha\nbeta".to_string(), 8)]
    );
}

#[test]
fn pure_image_or_file_turn_skips_memory_search() {
    let memories = FakeMemoryStorage::new();
    let models = memory_models(8_192);
    models.chat.enqueue_script(assistant_script("image ok"));
    models.chat.enqueue_script(assistant_script("file ok"));
    let mut host = memory_host(memory_config("memory/test"), &models, &memories)
        .build()
        .expect("agent should build");
    let session = host.new_session(SessionConfig::default()).expect("session should be created");
    let image_turn = UserInput {
        content: vec![ContentBlock::Image {
            data: "aGVsbG8=".to_string(),
            media_type: "image/png".to_string(),
        }],
    };
    let file_turn = UserInput {
        content: vec![ContentBlock::File {
            name: "note.txt".to_string(),
            media_type: "text/plain".to_string(),
            text: "body".to_string(),
        }],
    };

    assert!(matches!(host.run_turn(&session, image_turn), TurnOutcome::Completed));
    assert!(matches!(host.run_turn(&session, file_turn), TurnOutcome::Completed));
    assert!(memories.search_calls().is_empty());
}

#[test]
fn checkpoint_uses_ledger_seq_not_message_index() {
    let mut config = memory_config("memory/test");
    config.memory_checkpoint_interval = 1;
    let memories = FakeMemoryStorage::new();
    let models = memory_models(512);
    let first_turn_user = repeated_text('a', 900);
    let first_turn_assistant = repeated_text('b', 900);
    models.chat.enqueue_script(assistant_script(&first_turn_assistant));
    models.memory.enqueue_script(empty_extraction_script());
    models.compact.enqueue_script(assistant_script("summary checkpoint"));
    models.chat.enqueue_script(assistant_script("second assistant"));
    models.memory.enqueue_script(empty_extraction_script());
    let mut host = memory_host(config, &models, &memories)
        .threshold(0.8)
        .session_storage(&FakeSessionStorage::new())
        .build()
        .expect("agent should build");
    let session = host.new_session(SessionConfig::default()).expect("session should be created");

    assert!(matches!(
        host.run_turn(&session, text_input(&first_turn_user)),
        TurnOutcome::Completed
    ));
    assert!(matches!(host.run_turn(&session, text_input("second turn")), TurnOutcome::Completed));

    let extraction_text = extraction_user_text(&models.memory.requests()[1]);
    assert!(extraction_text.contains("second turn"));
    assert!(extraction_text.contains("second assistant"));
    assert!(!extraction_text.contains(first_turn_user.as_str()));
    assert!(!extraction_text.contains(first_turn_assistant.as_str()));
    assert!(!extraction_text.contains("summary checkpoint"));
}

#[test]
fn update_missing_target_id_degrades_to_create() {
    let mut config = memory_config("memory/test");
    config.memory_checkpoint_interval = 1;
    let memories = FakeMemoryStorage::new();
    let models = memory_models(8_192);
    models.chat.enqueue_script(assistant_script("ok"));
    models.memory.enqueue_script(assistant_script(
        r#"{"memoryOperations":[{"action":"update","targetId":"missing-id","content":"remember this","tags":["phase7"]}],"rolloutSummary":"","rolloutSlug":""}"#,
    ));
    let mut host = memory_host(config, &models, &memories).build().expect("agent should build");
    let session = host.new_session(SessionConfig::default()).expect("session should be created");

    assert!(matches!(host.run_turn(&session, text_input("hello")), TurnOutcome::Completed));

    let memories = memories.memories();
    assert_eq!(memories.len(), 1);
    assert_eq!(memories[0].content, "remember this");
    assert_eq!(memories[0].source, "checkpoint");
    assert_eq!(memories[0].namespace, "memory/test");
    assert_eq!(memories[0].tags, vec!["phase7".to_string()]);
    assert_ne!(memories[0].id, "missing-id");
    assert_eq!(memories[0].id.len(), 36);
}

#[test]
fn delete_missing_target_id_is_ignored() {
    let mut config = memory_config("memory/test");
    config.memory_checkpoint_interval = 1;
    let memories = FakeMemoryStorage::new();
    let models = memory_models(8_192);
    memories.insert(sample_memory("keep-id", "memory/test", "keep this", 0));
    models.chat.enqueue_script(assistant_script("ok"));
    models.memory.enqueue_script(assistant_script(
        r#"{"memoryOperations":[{"action":"delete","targetId":"missing-id"}],"rolloutSummary":"","rolloutSlug":""}"#,
    ));
    let mut host = memory_host(config, &models, &memories).build().expect("agent should build");
    let session = host.new_session(SessionConfig::default()).expect("session should be created");

    assert!(matches!(host.run_turn(&session, text_input("hello")), TurnOutcome::Completed));

    let memories = memories.memories();
    assert_eq!(memories.len(), 1);
    assert_eq!(memories[0].id, "keep-id");
    assert_eq!(memories[0].content, "keep this");
}

#[test]
fn close_extraction_failure_does_not_block_session_close() {
    let mut config = memory_config("memory/test");
    config.memory_checkpoint_interval = 100;
    let models = memory_models(8_192);
    models.chat.enqueue_script(assistant_script("ok"));
    models.memory.enqueue_script(error_script("close extraction failed", false));
    let mut host =
        memory_host(config, &models, &FakeMemoryStorage::new()).build().expect("agent");
    let session = host.new_session(SessionConfig::default()).expect("session should be created");

    assert!(matches!(host.run_turn(&session, text_input("hello")), TurnOutcome::Completed));
    host.close(&session, None).expect("close should not be blocked by extraction failure");
    assert_eq!(models.memory.chat_calls(), 1);

    let next_session = host
        .new_session(SessionConfig::default())
        .expect("slot should be released after close");
    assert!(!next_session.session_id().is_empty());
}

#[test]
fn resume_reuses_pinned_memory_namespace_from_ledger() {
    let sessions = FakeSessionStorage::new();
    let memories = FakeMemoryStorage::new();
    let models = memory_models(8_192);
    let mut first = memory_host(memory_config("memory/original"), &models, &memories)
        .session_storage(&sessions)
        .build()
        .expect("agent should build");
    let session = first.new_session(SessionConfig::default()).expect("session should be created");
    let session_id = session.session_id().to_string();
    first.close(&session, None).expect("session should close");
    models.chat.enqueue_script(assistant_script("ok"));

    let mut second = memory_host(memory_config("memory/changed"), &models, &memories)
        .session_storage(&sessions)
        .build()
        .expect("agent should build");
    let resumed = second.resume_session(&session_id).expect("session should resume");
    assert!(matches!(
        second.run_turn(&resumed, text_input("after resume")),
        TurnOutcome::Completed
    ));

    assert_eq!(
        memories.list_recent_namespaces().last().map(String::as_str),
        Some("memory/original")
    );
    assert_eq!(
        memories.search_calls().last().map(|call| call.0.as_str()),
        Some("memory/original")
    );
}

#[test]
fn a_closing_extraction_names_its_session_and_stores_a_checkpoint() {
    let sessions = FakeSessionStorage::new();
    let memories = FakeMemoryStorage::new();
    let models = memory_models(8_192);
    models.chat.enqueue_script(assistant_script("ok"));
    models.memory.enqueue_script(assistant_script(
        r#"{"memoryOperations":[{"action":"create","content":"note","tags":[]}],"rolloutSummary":"","rolloutSlug":""}"#,
    ));
    let mut host = memory_host(memory_config("memory/test"), &models, &memories)
        .session_storage(&sessions)
        .build()
        .expect("agent should build");
    let session = host.new_session(SessionConfig::default()).expect("session should be created");
    assert!(matches!(host.run_turn(&session, text_input("hello")), TurnOutcome::Completed));
    let before = sessions.saved_events(session.session_id());

    host.close(&session, None).expect("session should close");

    let memories = memories.memories();
    assert_eq!(memories.len(), 1);
    assert_eq!(memories[0].source, format!("session:{}", session.session_id()));
    let after = sessions.saved_events(session.session_id());
    assert_eq!(after.len(), before.len() + 1);
    assert!(matches!(
        &after[after.len() - 1].payload,
        LedgerEventPayload::Metadata { key: MetadataKey::MemoryCheckpoint, value }
            if *value
                == youyou_agent::domain::MetadataValue::MemoryCheckpoint(before.len() as u64)
    ));
}
