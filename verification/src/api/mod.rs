//! The surface of the agent: its builder, the built agent and its sessions.

pub mod agent;
pub mod builder;
pub mod laws;
pub mod session;

pub use agent::{Agent, AgentKernel, ModelRegistry, RegisteredModel};
pub use builder::{AgentBuilder, AgentParts, HasProvider, ModelOffer, NoProvider, ProviderOffer};
pub use session::{PendingTurn, SessionHandle, TurnSetup};
