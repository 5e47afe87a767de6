//! Rules and state machines of the agent.

pub mod context_laws;
pub mod context_manager;
pub mod hook_laws;
pub mod hook_registry;
pub mod memory_extraction;
pub mod memory_laws;
pub mod memory_manager;
pub mod plugin_manager;
pub mod prompt_builder;
pub mod prompt_laws;
pub mod replay_laws;
pub mod request_builder;
pub mod request_laws;
pub mod session_closing;
pub mod session_control;
pub mod session_laws;
pub mod session_runtime;
pub mod session_service;
pub mod size_laws;
pub mod skill_laws;
pub mod skill_manager;
pub mod stream;
pub mod stream_laws;
pub mod tool_batch;
pub mod tool_dispatcher;
pub mod tool_laws;
pub mod tool_output;
pub mod turn_engine;
pub mod turn_laws;
pub mod turn_rules;
pub mod turn_state;
pub mod turn_step_laws;
