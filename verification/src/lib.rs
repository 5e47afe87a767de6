//! Single-session agent kernel: the rules, state machines and renderers behind
//! an agent, verified with Verus. Nothing here performs input or output.

pub mod api;
pub mod application;
pub mod clock;
pub mod domain;
pub mod json;
pub mod ports;
pub mod prompt;
pub mod registry;
pub mod text;
pub mod text_laws;

pub use api::{Agent, AgentBuilder, HasProvider, NoProvider, SessionHandle};
pub use domain::{
    AgentConfig, AgentError, AgentEvent, AgentEventPayload, CompactionMarker, ContentBlock,
    EnvironmentContext, HookData, HookEvent, HookPatch, HookPayload, HookResult, LedgerEvent,
    LedgerEventPayload, Memory, Message, MessageStatus, MetadataKey, NetworkContext, Result,
    SessionConfig, SessionLedger, SkillDefinition, ToolOutput, TurnOutcome, UserInput,
};
pub use ports::{
    ChatError, ChatEvent, ChatRequest, ModelCapabilities, ModelInfo, PluginContext,
    PluginDescriptor, SessionPage, SessionSearchQuery, SessionSummary, TokenUsage, ToolDefinition,
    ToolInput,
};
