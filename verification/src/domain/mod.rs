//! Domain types and their models.

pub mod config;
pub mod config_laws;
pub mod error;
pub mod error_laws;
pub mod event;
pub mod hook;
pub mod ledger;
pub mod state;
pub mod types;

pub use config::{AgentConfig, EnvironmentContext, NetworkContext, SessionConfig};
pub use error::{AgentError, ErrorSource, Result};
pub use event::{AgentEvent, AgentEventPayload};
pub use hook::{HookData, HookEvent, HookPatch, HookPayload, HookResult};
pub use ledger::{
    CompactionMarker, LedgerEvent, LedgerEventPayload, MetadataKey, MetadataValue, SessionLedger,
};
pub use state::TurnOutcome;
pub use types::{
    ContentBlock, Memory, Message, MessageStatus, SkillDefinition, ToolOutput, UserInput,
};
