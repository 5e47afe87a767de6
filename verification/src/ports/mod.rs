//! Values that cross the boundary to providers, tools, plugins and storages.

pub mod model;
pub mod plugin;
pub mod storage;
pub mod tool;

pub use model::{
    ChatError, ChatEvent, ChatRequest, ModelCapabilities, ModelInfo, StreamItem, TokenUsage,
    ToolDefinition,
};
pub use plugin::{HookRegistration, PluginContext, PluginDescriptor};
pub use storage::{SessionPage, SessionSearchQuery, SessionSummary};
pub use tool::ToolInput;
