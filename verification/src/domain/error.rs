//! Structured errors.

use crate::text::{decimal, decimal_text};
use vstd::prelude::*;
use vstd::string::*;

verus! {

broadcast use vstd::std_specs::vec::vec_clone_deep_view_proof;

/// Why an operation failed: messages from the outermost context down to the
/// first cause.
#[derive(Debug, PartialEq, Eq)]
pub struct ErrorSource {
    /// The messages, outermost first.
    pub chain: Vec<String>,
}

impl DeepView for ErrorSource {
    type V = Seq<Seq<char>>;

    open spec fn deep_view(&self) -> Seq<Seq<char>> {
        self.chain.deep_view()
    }
}

impl Clone for ErrorSource {
    fn clone(&self) -> (r: Self)
        ensures
            r.deep_view() == self.deep_view(),
    {
        ErrorSource { chain: self.chain.clone() }
    }
}

/// The outermost message of a chain.
pub open spec fn outermost(chain: Seq<Seq<char>>) -> Seq<char> {
    if chain.len() > 0 {
        chain[0]
    } else {
        Seq::empty()
    }
}

impl ErrorSource {
    /// A source with one message.
    pub fn new(message: &str) -> (r: Self)
        ensures
            r.deep_view() == seq![message@],
    {
        let mut chain: Vec<String> = Vec::new();
        chain.push(message.to_owned());
        let r = ErrorSource { chain };
        assert(r.deep_view() =~= seq![message@]);
        r
    }

    /// The same source in an outer context.
    pub fn context(self, message: &str) -> (r: Self)
        ensures
            r.deep_view() == seq![message@] + self.deep_view(),
    {
        let mut chain: Vec<String> = Vec::new();
        chain.push(message.to_owned());
        let mut rest = self.chain;
        chain.append(&mut rest);
        let r = ErrorSource { chain };
        assert(r.deep_view() =~= seq![message@] + self.deep_view());
        r
    }

    /// The outermost message.
    pub fn message(&self) -> (r: String)
        ensures
            r@ == outermost(self.deep_view()),
    {
        if self.chain.len() > 0 {
            self.chain[0].clone()
        } else {
            String::new()
        }
    }
}

/// Result of an operation of the agent.
pub type Result<T> = std::result::Result<T, AgentError>;

/// Structured error of the agent.
#[derive(Debug, PartialEq, Eq)]
pub enum AgentError {
    /// No model provider was registered.
    NoModelProvider,
    /// A name that must be unique was registered twice.
    NameConflict {
        /// Kind of the resource.
        kind: &'static str,
        /// The duplicated name.
        name: String,
    },
    /// A skill depends on a tool that is not registered.
    SkillDependencyNotMet {
        /// Name of the skill.
        skill: String,
        /// Name of the missing tool.
        tool: String,
    },
    /// A plugin could not be initialised.
    PluginInitFailed {
        /// Id of the plugin.
        id: String,
        /// The plugin's error.
        source: ErrorSource,
    },
    /// A plugin broke the hook contract.
    PluginHookContractViolation {
        /// Id of the plugin.
        plugin_id: String,
        /// What was violated.
        message: String,
    },
    /// A storage was registered more than once.
    StorageDuplicate {
        /// Kind of the storage.
        kind: &'static str,
    },
    /// The default model is not registered.
    InvalidDefaultModel(String),
    /// A secondary model is not registered.
    InvalidModelConfig {
        /// The configuration field.
        kind: &'static str,
        /// The missing model.
        model_id: String,
    },
    /// An input is not valid.
    InputValidation {
        /// What is wrong with the input.
        message: String,
    },
    /// A session is already there.
    SessionBusy,
    /// A turn is already running.
    TurnBusy,
    /// The model is not registered.
    ModelNotSupported(String),
    /// A provider failed.
    ProviderError {
        /// Message for the user.
        message: String,
        /// The provider's error.
        source: ErrorSource,
        /// Whether a retry may succeed.
        retryable: bool,
    },
    /// A tool failed.
    ToolExecutionError {
        /// Name of the tool.
        name: String,
        /// The tool's error.
        source: ErrorSource,
    },
    /// A tool took too long.
    ToolTimeout {
        /// Name of the tool.
        name: String,
        /// The timeout.
        timeout_ms: u64,
    },
    /// A tool name is unknown.
    ToolNotFound(String),
    /// A skill name is unknown.
    SkillNotFound(String),
    /// A session id is unknown.
    SessionNotFound(String),
    /// A storage operation failed.
    StorageError(ErrorSource),
    /// A turn asked for too many tool calls.
    MaxToolCallsExceeded {
        /// The configured limit.
        limit: usize,
    },
    /// The context could not be compacted.
    CompactError {
        /// What failed.
        message: String,
    },
    /// A plugin aborted the operation.
    PluginAborted {
        /// Name of the hook.
        hook: &'static str,
        /// Reason given by the plugin.
        reason: String,
    },
    /// The request was cancelled.
    RequestCancelled,
    /// A background task panicked.
    InternalPanic {
        /// Summary of the panic.
        message: String,
    },
    /// The agent has been shut down.
    AgentShutdown,
}

/// Model of [`AgentError`].
#[verifier::ext_equal]
pub enum AgentErrorView {
    NoModelProvider,
    NameConflict { kind: Seq<char>, name: Seq<char> },
    SkillDependencyNotMet { skill: Seq<char>, tool: Seq<char> },
    PluginInitFailed { id: Seq<char>, source: Seq<Seq<char>> },
    PluginHookContractViolation { plugin_id: Seq<char>, message: Seq<char> },
    StorageDuplicate { kind: Seq<char> },
    InvalidDefaultModel(Seq<char>),
    InvalidModelConfig { kind: Seq<char>, model_id: Seq<char> },
    InputValidation { message: Seq<char> },
    SessionBusy,
    TurnBusy,
    ModelNotSupported(Seq<char>),
    ProviderError { message: Seq<char>, source: Seq<Seq<char>>, retryable: bool },
    ToolExecutionError { name: Seq<char>, source: Seq<Seq<char>> },
    ToolTimeout { name: Seq<char>, timeout_ms: u64 },
    ToolNotFound(Seq<char>),
    SkillNotFound(Seq<char>),
    SessionNotFound(Seq<char>),
    StorageError(Seq<Seq<char>>),
    MaxToolCallsExceeded { limit: usize },
    CompactError { message: Seq<char> },
    PluginAborted { hook: Seq<char>, reason: Seq<char> },
    RequestCancelled,
    InternalPanic { message: Seq<char> },
    AgentShutdown,
}

impl DeepView for AgentError {
    type V = AgentErrorView;

    open spec fn deep_view(&self) -> AgentErrorView {
        match self {
            AgentError::NoModelProvider => AgentErrorView::NoModelProvider,
            AgentError::NameConflict { kind, name } => {
                AgentErrorView::NameConflict { kind: kind@, name: name@ }
            },
            AgentError::SkillDependencyNotMet { skill, tool } => {
                AgentErrorView::SkillDependencyNotMet { skill: skill@, tool: tool@ }
            },
            AgentError::PluginInitFailed { id, source } => {
                AgentErrorView::PluginInitFailed { id: id@, source: source.deep_view() }
            },
            AgentError::PluginHookContractViolation { plugin_id, message } => AgentErrorView::PluginHookContractViolation {
                plugin_id: plugin_id@,
                message: message@,
            },
            AgentError::StorageDuplicate { kind } => {
                AgentErrorView::StorageDuplicate { kind: kind@ }
            },
            AgentError::InvalidDefaultModel(value) => AgentErrorView::InvalidDefaultModel(value@),
            AgentError::InvalidModelConfig { kind, model_id } => {
                AgentErrorView::InvalidModelConfig { kind: kind@, model_id: model_id@ }
            },
            AgentError::InputValidation { message } => {
                AgentErrorView::InputValidation { message: message@ }
            },
            AgentError::SessionBusy => AgentErrorView::SessionBusy,
            AgentError::TurnBusy => AgentErrorView::TurnBusy,
            AgentError::ModelNotSupported(value) => AgentErrorView::ModelNotSupported(value@),
            AgentError::ProviderError { message, source, retryable } => AgentErrorView::ProviderError {
                message: message@,
                source: source.deep_view(),
                retryable: *retryable,
            },
            AgentError::ToolExecutionError { name, source } => {
                AgentErrorView::ToolExecutionError { name: name@, source: source.deep_view() }
            },
            AgentError::ToolTimeout { name, timeout_ms } => {
                AgentErrorView::ToolTimeout { name: name@, timeout_ms: *timeout_ms }
            },
            AgentError::ToolNotFound(value) => AgentErrorView::ToolNotFound(value@),
            AgentError::SkillNotFound(value) => AgentErrorView::SkillNotFound(value@),
            AgentError::SessionNotFound(value) => AgentErrorView::SessionNotFound(value@),
            AgentError::StorageError(value) => AgentErrorView::StorageError(value.deep_view()),
            AgentError::MaxToolCallsExceeded { limit } => {
                AgentErrorView::MaxToolCallsExceeded { limit: *limit }
            },
            AgentError::CompactError { message } => {
                AgentErrorView::CompactError { message: message@ }
            },
            AgentError::PluginAborted { hook, reason } => {
                AgentErrorView::PluginAborted { hook: hook@, reason: reason@ }
            },
            AgentError::RequestCancelled => AgentErrorView::RequestCancelled,
            AgentError::InternalPanic { message } => {
                AgentErrorView::InternalPanic { message: message@ }
            },
            AgentError::AgentShutdown => AgentErrorView::AgentShutdown,
        }
    }
}

impl Clone for AgentError {
    fn clone(&self) -> (r: Self)
        ensures
            r.deep_view() == self.deep_view(),
    {
        match self {
            AgentError::NoModelProvider => AgentError::NoModelProvider,
            AgentError::NameConflict { kind, name } => {
                AgentError::NameConflict { kind: *kind, name: name.clone() }
            },
            AgentError::SkillDependencyNotMet { skill, tool } => {
                AgentError::SkillDependencyNotMet { skill: skill.clone(), tool: tool.clone() }
            },
            AgentError::PluginInitFailed { id, source } => {
                AgentError::PluginInitFailed { id: id.clone(), source: source.clone() }
            },
            AgentError::PluginHookContractViolation { plugin_id, message } => AgentError::PluginHookContractViolation {
                plugin_id: plugin_id.clone(),
                message: message.clone(),
            },
            AgentError::StorageDuplicate { kind } => AgentError::StorageDuplicate { kind: *kind },
            AgentError::InvalidDefaultModel(value) => {
                AgentError::InvalidDefaultModel(value.clone())
            },
            AgentError::InvalidModelConfig { kind, model_id } => {
                AgentError::InvalidModelConfig { kind: *kind, model_id: model_id.clone() }
            },
            AgentError::InputValidation { message } => {
                AgentError::InputValidation { message: message.clone() }
            },
            AgentError::SessionBusy => AgentError::SessionBusy,
            AgentError::TurnBusy => AgentError::TurnBusy,
            AgentError::ModelNotSupported(value) => AgentError::ModelNotSupported(value.clone()),
            AgentError::ProviderError { message, source, retryable } => AgentError::ProviderError {
                message: message.clone(),
                source: source.clone(),
                retryable: *retryable,
            },
            AgentError::ToolExecutionError { name, source } => {
                AgentError::ToolExecutionError { name: name.clone(), source: source.clone() }
            },
            AgentError::ToolTimeout { name, timeout_ms } => {
                AgentError::ToolTimeout { name: name.clone(), timeout_ms: *timeout_ms }
            },
            AgentError::ToolNotFound(value) => AgentError::ToolNotFound(value.clone()),
            AgentError::SkillNotFound(value) => AgentError::SkillNotFound(value.clone()),
            AgentError::SessionNotFound(value) => AgentError::SessionNotFound(value.clone()),
            AgentError::StorageError(value) => AgentError::StorageError(value.clone()),
            AgentError::MaxToolCallsExceeded { limit } => {
                AgentError::MaxToolCallsExceeded { limit: *limit }
            },
            AgentError::CompactError { message } => {
                AgentError::CompactError { message: message.clone() }
            },
            AgentError::PluginAborted { hook, reason } => {
                AgentError::PluginAborted { hook: *hook, reason: reason.clone() }
            },
            AgentError::RequestCancelled => AgentError::RequestCancelled,
            AgentError::InternalPanic { message } => {
                AgentError::InternalPanic { message: message.clone() }
            },
            AgentError::AgentShutdown => AgentError::AgentShutdown,
        }
    }
}

/// The stable code of an error.
pub open spec fn error_code(error: AgentErrorView) -> Seq<char> {
    match error {
        AgentErrorView::NoModelProvider => "NO_MODEL_PROVIDER"@,
        AgentErrorView::NameConflict { .. } => "NAME_CONFLICT"@,
        AgentErrorView::SkillDependencyNotMet { .. } => "SKILL_DEPENDENCY_NOT_MET"@,
        AgentErrorView::PluginInitFailed { .. } => "PLUGIN_INIT_FAILED"@,
        AgentErrorView::PluginHookContractViolation { .. } => "PLUGIN_HOOK_CONTRACT_VIOLATION"@,
        AgentErrorView::StorageDuplicate { .. } => "STORAGE_DUPLICATE"@,
        AgentErrorView::InvalidDefaultModel(_) => "INVALID_DEFAULT_MODEL"@,
        AgentErrorView::InvalidModelConfig { .. } => "INVALID_MODEL_CONFIG"@,
        AgentErrorView::InputValidation { .. } => "INPUT_VALIDATION"@,
        AgentErrorView::SessionBusy => "SESSION_BUSY"@,
        AgentErrorView::TurnBusy => "TURN_BUSY"@,
        AgentErrorView::ModelNotSupported(_) => "MODEL_NOT_SUPPORTED"@,
        AgentErrorView::ProviderError { .. } => "PROVIDER_ERROR"@,
        AgentErrorView::ToolExecutionError { .. } => "TOOL_EXECUTION_ERROR"@,
        AgentErrorView::ToolTimeout { .. } => "TOOL_TIMEOUT"@,
        AgentErrorView::ToolNotFound(_) => "TOOL_NOT_FOUND"@,
        AgentErrorView::SkillNotFound(_) => "SKILL_NOT_FOUND"@,
        AgentErrorView::SessionNotFound(_) => "SESSION_NOT_FOUND"@,
        AgentErrorView::StorageError(_) => "STORAGE_ERROR"@,
        AgentErrorView::MaxToolCallsExceeded { .. } => "MAX_TOOL_CALLS_EXCEEDED"@,
        AgentErrorView::CompactError { .. } => "COMPACT_ERROR"@,
        AgentErrorView::PluginAborted { .. } => "PLUGIN_ABORTED"@,
        AgentErrorView::RequestCancelled => "REQUEST_CANCELLED"@,
        AgentErrorView::InternalPanic { .. } => "INTERNAL_PANIC"@,
        AgentErrorView::AgentShutdown => "AGENT_SHUTDOWN"@,
    }
}

/// The component that an error comes from.
pub open spec fn error_component(error: AgentErrorView) -> Seq<char> {
    match error {
        AgentErrorView::ProviderError { .. } | AgentErrorView::CompactError { .. } => "provider"@,
        AgentErrorView::ToolExecutionError { .. }
        | AgentErrorView::ToolTimeout { .. }
        | AgentErrorView::ToolNotFound(_) => "tool"@,
        AgentErrorView::PluginInitFailed { .. }
        | AgentErrorView::PluginHookContractViolation { .. }
        | AgentErrorView::PluginAborted { .. } => "plugin"@,
        AgentErrorView::StorageError(_) => "storage"@,
        _ => "agent"@,
    }
}

/// What an error says behind its code, if anything.
pub open spec fn error_detail(error: AgentErrorView) -> Option<Seq<char>> {
    match error {
        AgentErrorView::NoModelProvider => Some("at least one ModelProvider is required"@),
        AgentErrorView::NameConflict { kind, name } => Some(
            kind + " name '"@ + name + "' is duplicated"@,
        ),
        AgentErrorView::SkillDependencyNotMet { skill, tool } => Some(
            "skill '"@ + skill + "' requires tool '"@ + tool + "'"@,
        ),
        AgentErrorView::PluginInitFailed { id, source } => Some(
            "plugin '"@ + id + "': "@ + outermost(source),
        ),
        AgentErrorView::PluginHookContractViolation { plugin_id, message } => Some(
            "plugin '"@ + plugin_id + "': "@ + message,
        ),
        AgentErrorView::StorageDuplicate { kind } => Some(
            kind + " storage registered more than once"@,
        ),
        AgentErrorView::InvalidDefaultModel(value) => Some(
            "default model '"@ + value + "' is not registered"@,
        ),
        AgentErrorView::InvalidModelConfig { kind, model_id } => Some(
            kind + " model '"@ + model_id + "' is not registered"@,
        ),
        AgentErrorView::InputValidation { message } => Some(message),
        AgentErrorView::SessionBusy => Some("a session is already running"@),
        AgentErrorView::TurnBusy => Some("a turn is already running in this session"@),
        AgentErrorView::ModelNotSupported(value) => Some(
            "model '"@ + value + "' is not supported"@,
        ),
        AgentErrorView::ProviderError { message, .. } => Some(message),
        AgentErrorView::ToolExecutionError { name, source } => Some(
            "tool '"@ + name + "': "@ + outermost(source),
        ),
        AgentErrorView::ToolTimeout { name, timeout_ms } => Some(
            "tool '"@ + name + "' timed out after "@ + decimal(timeout_ms as nat) + "ms"@,
        ),
        AgentErrorView::ToolNotFound(value) => Some("tool '"@ + value + "'"@),
        AgentErrorView::SkillNotFound(value) => Some("skill '"@ + value + "'"@),
        AgentErrorView::SessionNotFound(value) => Some("session '"@ + value + "'"@),
        AgentErrorView::StorageError(value) => Some(outermost(value)),
        AgentErrorView::MaxToolCallsExceeded { limit } => Some(
            "exceeded "@ + decimal(limit as nat) + " tool calls in one turn"@,
        ),
        AgentErrorView::CompactError { message } => Some("context compaction failed: "@ + message),
        AgentErrorView::PluginAborted { hook, reason } => Some(
            "hook '"@ + hook + "' aborted: "@ + reason,
        ),
        AgentErrorView::RequestCancelled => None,
        AgentErrorView::InternalPanic { message } => Some("background task panicked: "@ + message),
        AgentErrorView::AgentShutdown => Some("agent has been shut down"@),
    }
}

/// The text of an error: its code in brackets, then its detail.
pub open spec fn error_text(error: AgentErrorView) -> Seq<char> {
    match error_detail(error) {
        Some(detail) => "["@ + error_code(error) + "]"@ + " "@ + detail,
        None => "["@ + error_code(error) + "]"@,
    }
}

impl AgentError {
    /// A stable machine-readable code.
    pub fn code(&self) -> (r: &'static str)
        ensures
            r@ == error_code(self.deep_view()),
    {
        match self {
            AgentError::NoModelProvider => "NO_MODEL_PROVIDER",
            AgentError::NameConflict { .. } => "NAME_CONFLICT",
            AgentError::SkillDependencyNotMet { .. } => "SKILL_DEPENDENCY_NOT_MET",
            AgentError::PluginInitFailed { .. } => "PLUGIN_INIT_FAILED",
            AgentError::PluginHookContractViolation { .. } => "PLUGIN_HOOK_CONTRACT_VIOLATION",
            AgentError::StorageDuplicate { .. } => "STORAGE_DUPLICATE",
            AgentError::InvalidDefaultModel(_) => "INVALID_DEFAULT_MODEL",
            AgentError::InvalidModelConfig { .. } => "INVALID_MODEL_CONFIG",
            AgentError::InputValidation { .. } => "INPUT_VALIDATION",
            AgentError::SessionBusy => "SESSION_BUSY",
            AgentError::TurnBusy => "TURN_BUSY",
            AgentError::ModelNotSupported(_) => "MODEL_NOT_SUPPORTED",
            AgentError::ProviderError { .. } => "PROVIDER_ERROR",
            AgentError::ToolExecutionError { .. } => "TOOL_EXECUTION_ERROR",
            AgentError::ToolTimeout { .. } => "TOOL_TIMEOUT",
            AgentError::ToolNotFound(_) => "TOOL_NOT_FOUND",
            AgentError::SkillNotFound(_) => "SKILL_NOT_FOUND",
            AgentError::SessionNotFound(_) => "SESSION_NOT_FOUND",
            AgentError::StorageError(_) => "STORAGE_ERROR",
            AgentError::MaxToolCallsExceeded { .. } => "MAX_TOOL_CALLS_EXCEEDED",
            AgentError::CompactError { .. } => "COMPACT_ERROR",
            AgentError::PluginAborted { .. } => "PLUGIN_ABORTED",
            AgentError::RequestCancelled => "REQUEST_CANCELLED",
            AgentError::InternalPanic { .. } => "INTERNAL_PANIC",
            AgentError::AgentShutdown => "AGENT_SHUTDOWN",
        }
    }

    /// Whether a retry of the failed operation may succeed.
    pub fn retryable(&self) -> (r: bool)
        ensures
            r == (self.deep_view() matches AgentErrorView::ProviderError { retryable, .. }
                && retryable),
    {
        match self {
            AgentError::ProviderError { retryable, .. } => *retryable,
            _ => false,
        }
    }

    /// The component that the error comes from.
    pub fn source_component(&self) -> (r: &'static str)
        ensures
            r@ == error_component(self.deep_view()),
    {
        match self {
            AgentError::ProviderError { .. } | AgentError::CompactError { .. } => "provider",
            AgentError::ToolExecutionError { .. }
            | AgentError::ToolTimeout { .. }
            | AgentError::ToolNotFound(_) => "tool",
            AgentError::PluginInitFailed { .. }
            | AgentError::PluginHookContractViolation { .. }
            | AgentError::PluginAborted { .. } => "plugin",
            AgentError::StorageError(_) => "storage",
            _ => "agent",
        }
    }

    fn detail(&self) -> (r: Option<String>)
        ensures
            r.deep_view() == error_detail(self.deep_view()),
    {
        match self {
            AgentError::NoModelProvider => Some(
                "at least one ModelProvider is required".to_owned(),
            ),
            AgentError::NameConflict { kind, name } => Some(
                (*kind).to_owned().concat(" name '").concat(name.as_str())
                    .concat("' is duplicated"),
            ),
            AgentError::SkillDependencyNotMet { skill, tool } => Some(
                "skill '".to_owned().concat(skill.as_str()).concat("' requires tool '")
                    .concat(tool.as_str()).concat("'"),
            ),
            AgentError::PluginInitFailed { id, source } => Some(
                "plugin '".to_owned().concat(id.as_str()).concat("': ")
                    .concat(source.message().as_str()),
            ),
            AgentError::PluginHookContractViolation { plugin_id, message } => Some(
                "plugin '".to_owned().concat(plugin_id.as_str()).concat("': ")
                    .concat(message.as_str()),
            ),
            AgentError::StorageDuplicate { kind } => Some(
                (*kind).to_owned().concat(" storage registered more than once"),
            ),
            AgentError::InvalidDefaultModel(value) => Some(
                "default model '".to_owned().concat(value.as_str()).concat("' is not registered"),
            ),
            AgentError::InvalidModelConfig { kind, model_id } => Some(
                (*kind).to_owned().concat(" model '").concat(model_id.as_str())
                    .concat("' is not registered"),
            ),
            AgentError::InputValidation { message } => Some(message.clone()),
            AgentError::SessionBusy => Some("a session is already running".to_owned()),
            AgentError::TurnBusy => Some("a turn is already running in this session".to_owned()),
            AgentError::ModelNotSupported(value) => Some(
                "model '".to_owned().concat(value.as_str()).concat("' is not supported"),
            ),
            AgentError::ProviderError { message, .. } => Some(message.clone()),
            AgentError::ToolExecutionError { name, source } => Some(
                "tool '".to_owned().concat(name.as_str()).concat("': ")
                    .concat(source.message().as_str()),
            ),
            AgentError::ToolTimeout { name, timeout_ms } => Some(
                "tool '".to_owned().concat(name.as_str()).concat("' timed out after ")
                    .concat(decimal_text(*timeout_ms).as_str()).concat("ms"),
            ),
            AgentError::ToolNotFound(value) => Some(
                "tool '".to_owned().concat(value.as_str()).concat("'"),
            ),
            AgentError::SkillNotFound(value) => Some(
                "skill '".to_owned().concat(value.as_str()).concat("'"),
            ),
            AgentError::SessionNotFound(value) => Some(
                "session '".to_owned().concat(value.as_str()).concat("'"),
            ),
            AgentError::StorageError(value) => Some(value.message()),
            AgentError::MaxToolCallsExceeded { limit } => Some(
                "exceeded ".to_owned().concat(decimal_text(*limit as u64).as_str())
                    .concat(" tool calls in one turn"),
            ),
            AgentError::CompactError { message } => Some(
                "context compaction failed: ".to_owned().concat(message.as_str()),
            ),
            AgentError::PluginAborted { hook, reason } => Some(
                "hook '".to_owned().concat(hook).concat("' aborted: ").concat(reason.as_str()),
            ),
            AgentError::RequestCancelled => None,
            AgentError::InternalPanic { message } => Some(
                "background task panicked: ".to_owned().concat(message.as_str()),
            ),
            AgentError::AgentShutdown => Some("agent has been shut down".to_owned()),
        }
    }

    /// The text of the error.
    pub fn to_text(&self) -> (r: String)
        ensures
            r@ == error_text(self.deep_view()),
    {
        let head = "[".to_owned().concat(self.code()).concat("]");
        match self.detail() {
            Some(detail) => head.concat(" ").concat(detail.as_str()),
            None => head,
        }
    }
}

/// Model of a [`Result`].
pub open spec fn outcome<T: DeepView>(r: Result<T>) -> std::result::Result<T::V, AgentErrorView> {
    match r {
        Ok(value) => Ok(value.deep_view()),
        Err(error) => Err(error.deep_view()),
    }
}

/// An input that is not valid, for the given reason.
pub(crate) fn invalid_input(message: &str) -> (r: AgentError)
    ensures
        r.deep_view() == (AgentErrorView::InputValidation { message: message@ }),
{
    AgentError::InputValidation { message: message.to_owned() }
}

} // verus!
