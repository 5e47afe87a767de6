//! Single parts of the kernel on concrete values.

use youyou_agent::api::builder::{
    build_model_registry, validate_positive_u64, validate_positive_usize,
    validate_storage_duplicate,
};
use youyou_agent::api::session::validate_user_input;
use youyou_agent::api::{ModelOffer, ProviderOffer};
use youyou_agent::application::context_manager::{
    content_block_chars, estimate_messages_tokens, render_summary_message,
    render_truncation_summary, truncation_target_tokens, CompactionPlan, ContextManager,
};
use youyou_agent::application::hook_registry::HookRegistry;
use youyou_agent::application::memory_extraction::{Extraction, ExtractionAction};
use youyou_agent::application::memory_manager::{
    apply_memory_operation, build_extraction_request, explicit_text_query,
    incremental_events_after, merge_memories, render_content_blocks, render_incremental_events,
    render_message_status, ExtractionResult, MemoryOperation, MemoryWrite,
};
use youyou_agent::application::plugin_manager::{missing_hooks, shutdown_order};
use youyou_agent::application::session_control::{AgentControl, ShutdownStart};
use youyou_agent::application::session_runtime::{restore_session_state, SessionRuntime};
use youyou_agent::application::stream::{
    collect_text, consume_provider_stream, Collected, Consumed, ModelAnswer, TextPurpose,
};
use youyou_agent::application::tool_batch::{collect_ordered_results, SerialBatch, SerialStep};
use youyou_agent::application::tool_dispatcher::{
    saturating_duration_ms, skipped_not_found_output, tool_not_found_output, PreparedExecution,
    PreparedToolBatch, PreparedToolCall, SyntheticError, ToolLimits,
};
use youyou_agent::application::tool_output::{normalize_tool_output, truncate_content_to_budget};
use youyou_agent::application::turn_engine::assistant_content;
use youyou_agent::clock::Timestamp;
use youyou_agent::domain::{ErrorSource, MetadataValue};
use youyou_agent::json::JsonValue;
use youyou_agent::ports::{HookRegistration, StreamItem};
use youyou_agent::prompt::templates::render_memory_read_path;
use youyou_agent::registry::Registry;
use youyou_agent::text::{byte_len, decimal_text, join, same_text, split_lines};
use youyou_agent::{
    AgentConfig, AgentError, AgentEventPayload, ChatError, ChatEvent, CompactionMarker,
    ContentBlock, HookData, HookEvent, HookPatch, HookResult, LedgerEvent, LedgerEventPayload,
    Memory, Message, MessageStatus, MetadataKey, ModelCapabilities, ModelInfo, PluginContext,
    PluginDescriptor, SessionConfig, SessionLedger, TokenUsage, ToolOutput, UserInput,
};

fn at(seconds: i64) -> Timestamp {
    Timestamp { seconds, nanos: 0 }
}

fn json(text: &str) -> JsonValue {
    JsonValue::parse(text).expect("the text is JSON")
}

fn text_block(text: &str) -> ContentBlock {
    ContentBlock::Text(text.to_string())
}

fn user(seq: u64, text: &str) -> LedgerEvent {
    LedgerEvent {
        seq,
        timestamp: at(0),
        payload: LedgerEventPayload::UserMessage { content: vec![text_block(text)] },
    }
}

fn assistant(seq: u64, text: &str, status: MessageStatus) -> LedgerEvent {
    LedgerEvent {
        seq,
        timestamp: at(0),
        payload: LedgerEventPayload::AssistantMessage { content: vec![text_block(text)], status },
    }
}

fn metadata(seq: u64, key: MetadataKey, value: MetadataValue) -> LedgerEvent {
    LedgerEvent { seq, timestamp: at(0), payload: LedgerEventPayload::Metadata { key, value } }
}

fn compaction(seq: u64, through: u64, summary: &str) -> LedgerEvent {
    metadata(
        seq,
        MetadataKey::ContextCompaction,
        MetadataValue::ContextCompaction(CompactionMarker {
            replaces_through_seq: through,
            rendered_summary: summary.to_string(),
        }),
    )
}

fn memory(id: &str, content: &str) -> Memory {
    Memory {
        id: id.to_string(),
        namespace: "ns".to_string(),
        content: content.to_string(),
        source: "manual".to_string(),
        tags: Vec::new(),
        created_at: at(1),
        updated_at: at(1),
    }
}

fn vision(vision: bool) -> ModelCapabilities {
    ModelCapabilities { tool_use: true, vision, streaming: true }
}

fn output(content: &str, metadata: &str) -> ToolOutput {
    ToolOutput { content: content.to_string(), is_error: false, metadata: json(metadata) }
}

// ---------------------------------------------------------------------------
// Texts, JSON and registries
// ---------------------------------------------------------------------------

#[test]
fn json_values_are_held_in_their_compact_form() {
    assert_eq!(json(" { \"b\" : [1, 2] ,\n \"a\" : null } ").text(), r#"{"a":null,"b":[1,2]}"#);
    assert_eq!(JsonValue::null().text(), "null");
    assert_eq!(JsonValue::empty_object().text(), "{}");
    assert!(JsonValue::parse("{").is_none());
    assert!(JsonValue::parse("").is_none());
    assert_eq!(json("{}"), JsonValue::empty_object());
}

#[test]
fn texts_are_joined_and_split() {
    assert_eq!(join(&vec!["a".to_string(), "b".to_string(), "c".to_string()], ", "), "a, b, c");
    assert_eq!(join(&Vec::new(), ", "), "");
    assert_eq!(split_lines("a\nb\n"), ["a", "b"]);
    assert_eq!(split_lines("a\r\nb"), ["a", "b"]);
    assert!(split_lines("").is_empty());
    assert!(same_text("a", "a"));
    assert!(!same_text("a", "A"));
}

#[test]
fn numbers_are_written_in_decimal() {
    assert_eq!(decimal_text(0), "0");
    assert_eq!(decimal_text(10), "10");
    assert_eq!(decimal_text(u64::MAX), "18446744073709551615");
}

#[test]
fn byte_lengths_count_the_encoding() {
    assert_eq!(byte_len(""), 0);
    assert_eq!(byte_len("aé中🦀"), 1 + 2 + 3 + 4);
}

#[test]
fn registries_keep_the_order_of_first_registration() {
    let registry = Registry::new()
        .insert("b".to_string(), 1u64)
        .insert("a".to_string(), 2u64)
        .insert("b".to_string(), 3u64);

    assert_eq!(*registry.items(), vec![3, 2]);
    assert_eq!(registry.get("b"), Some(&3));
    assert_eq!(registry.get("a"), Some(&2));
    assert!(registry.contains("a"));
    assert!(!registry.contains("c"));
    assert_eq!(registry.get("c"), None);
}

#[test]
fn memories_are_introduced_by_their_read_path() {
    let rendered = render_memory_read_path("[m-1] note");

    assert!(rendered.starts_with("## Memory\n"));
    assert!(rendered.contains("### Memories\n[m-1] note"));
}

// ---------------------------------------------------------------------------
// Errors
// ---------------------------------------------------------------------------

#[test]
fn errors_have_codes_components_and_texts() {
    let source = || ErrorSource::new("root").context("outer");
    let cases: Vec<(AgentError, &str, &str)> = vec![
        (
            AgentError::NoModelProvider,
            "agent",
            "[NO_MODEL_PROVIDER] at least one ModelProvider is required",
        ),
        (
            AgentError::NameConflict { kind: "tool", name: "x".to_string() },
            "agent",
            "[NAME_CONFLICT] tool name 'x' is duplicated",
        ),
        (
            AgentError::SkillDependencyNotMet { skill: "s".to_string(), tool: "t".to_string() },
            "agent",
            "[SKILL_DEPENDENCY_NOT_MET] skill 's' requires tool 't'",
        ),
        (
            AgentError::PluginInitFailed { id: "p".to_string(), source: source() },
            "plugin",
            "[PLUGIN_INIT_FAILED] plugin 'p': outer",
        ),
        (
            AgentError::PluginHookContractViolation {
                plugin_id: "p".to_string(),
                message: "m".to_string(),
            },
            "plugin",
            "[PLUGIN_HOOK_CONTRACT_VIOLATION] plugin 'p': m",
        ),
        (
            AgentError::StorageDuplicate { kind: "memory" },
            "agent",
            "[STORAGE_DUPLICATE] memory storage registered more than once",
        ),
        (
            AgentError::InvalidDefaultModel("m".to_string()),
            "agent",
            "[INVALID_DEFAULT_MODEL] default model 'm' is not registered",
        ),
        (
            AgentError::InvalidModelConfig { kind: "compact", model_id: "m".to_string() },
            "agent",
            "[INVALID_MODEL_CONFIG] compact model 'm' is not registered",
        ),
        (
            AgentError::InputValidation { message: "m".to_string() },
            "agent",
            "[INPUT_VALIDATION] m",
        ),
        (AgentError::SessionBusy, "agent", "[SESSION_BUSY] a session is already running"),
        (AgentError::TurnBusy, "agent", "[TURN_BUSY] a turn is already running in this session"),
        (
            AgentError::ModelNotSupported("m".to_string()),
            "agent",
            "[MODEL_NOT_SUPPORTED] model 'm' is not supported",
        ),
        (
            AgentError::ProviderError {
                message: "m".to_string(),
                source: source(),
                retryable: true,
            },
            "provider",
            "[PROVIDER_ERROR] m",
        ),
        (
            AgentError::ToolExecutionError { name: "t".to_string(), source: source() },
            "tool",
            "[TOOL_EXECUTION_ERROR] tool 't': outer",
        ),
        (
            AgentError::ToolTimeout { name: "t".to_string(), timeout_ms: 50 },
            "tool",
            "[TOOL_TIMEOUT] tool 't' timed out after 50ms",
        ),
        (AgentError::ToolNotFound("t".to_string()), "tool", "[TOOL_NOT_FOUND] tool 't'"),
        (AgentError::SkillNotFound("s".to_string()), "agent", "[SKILL_NOT_FOUND] skill 's'"),
        (
            AgentError::SessionNotFound("s".to_string()),
            "agent",
            "[SESSION_NOT_FOUND] session 's'",
        ),
        (AgentError::StorageError(source()), "storage", "[STORAGE_ERROR] outer"),
        (
            AgentError::MaxToolCallsExceeded { limit: 7 },
            "agent",
            "[MAX_TOOL_CALLS_EXCEEDED] exceeded 7 tool calls in one turn",
        ),
        (
            AgentError::CompactError { message: "m".to_string() },
            "provider",
            "[COMPACT_ERROR] context compaction failed: m",
        ),
        (
            AgentError::PluginAborted { hook: "TurnStart", reason: "r".to_string() },
            "plugin",
            "[PLUGIN_ABORTED] hook 'TurnStart' aborted: r",
        ),
        (AgentError::RequestCancelled, "agent", "[REQUEST_CANCELLED]"),
        (
            AgentError::InternalPanic { message: "m".to_string() },
            "agent",
            "[INTERNAL_PANIC] background task panicked: m",
        ),
        (AgentError::AgentShutdown, "agent", "[AGENT_SHUTDOWN] agent has been shut down"),
    ];

    for (error, component, text) in cases {
        assert_eq!(error.to_text(), text);
        assert_eq!(error.source_component(), component, "{text}");
        assert!(text.starts_with(&format!("[{}]", error.code())));
        assert_eq!(error.retryable(), matches!(error, AgentError::ProviderError { .. }));
        assert_eq!(error.clone(), error);
    }
}

#[test]
fn contexts_are_put_in_front_of_an_error() {
    let source = ErrorSource::new("root").context("middle").context("outer");

    assert_eq!(source.chain, ["outer", "middle", "root"]);
    assert_eq!(source.message(), "outer");
}

// ---------------------------------------------------------------------------
// Ledgers and sessions
// ---------------------------------------------------------------------------

#[test]
fn ledgers_number_behind_their_last_event() {
    let mut ledger = SessionLedger::new();
    assert_eq!(ledger.next_seq(), 1);
    ledger.append(user(1, "a"));
    assert_eq!(ledger.next_seq(), 2);
    assert_eq!(SessionLedger::from_events(vec![user(4, "a"), user(9, "b")]).next_seq(), 10);
    assert_eq!(SessionLedger::from_events(vec![user(u64::MAX, "a")]).next_seq(), u64::MAX);
}

#[test]
fn the_latest_metadata_under_a_key_counts() {
    let ledger = SessionLedger::from_events(vec![
        metadata(1, MetadataKey::MemoryCheckpoint, MetadataValue::MemoryCheckpoint(3)),
        user(2, "a"),
        metadata(3, MetadataKey::MemoryCheckpoint, MetadataValue::MemoryCheckpoint(5)),
    ]);

    assert_eq!(
        ledger.latest_metadata(&MetadataKey::MemoryCheckpoint),
        Some(&MetadataValue::MemoryCheckpoint(5))
    );
    assert_eq!(ledger.latest_metadata(&MetadataKey::SessionConfig), None);
}

#[test]
fn a_session_state_is_restored_from_its_ledger() {
    let ledger = SessionLedger::from_events(vec![
        metadata(
            1,
            MetadataKey::SessionConfig,
            MetadataValue::SessionConfig(SessionConfig {
                model_id: Some("model-b".to_string()),
                system_prompt_override: Some("override".to_string()),
            }),
        ),
        metadata(
            2,
            MetadataKey::MemoryNamespace,
            MetadataValue::MemoryNamespace("ns".to_string()),
        ),
        user(3, "a"),
        assistant(4, "b", MessageStatus::Complete),
        user(5, "c"),
        metadata(6, MetadataKey::MemoryCheckpoint, MetadataValue::MemoryCheckpoint(4)),
    ]);

    let state = restore_session_state(&ledger, "model-a", "default").expect("valid metadata");

    assert_eq!(state.model_id, "model-b");
    assert_eq!(state.system_prompt_override, Some("override".to_string()));
    assert_eq!(state.memory_namespace, "ns");
    assert_eq!(state.last_memory_checkpoint_seq, 4);
    assert_eq!(state.turn_index, 2);

    let empty = restore_session_state(&SessionLedger::new(), "model-a", "default")
        .expect("an empty ledger has defaults");
    assert_eq!(empty.model_id, "model-a");
    assert_eq!(empty.memory_namespace, "default");
    assert_eq!(empty.last_memory_checkpoint_seq, 0);
    assert_eq!(empty.turn_index, 0);
}

#[test]
fn unreadable_metadata_is_an_error() {
    let ledger = SessionLedger::from_events(vec![metadata(
        1,
        MetadataKey::SessionConfig,
        MetadataValue::Malformed(ErrorSource::new("expected an object")),
    )]);

    assert!(matches!(
        restore_session_state(&ledger, "model-a", "default"),
        Err(AgentError::StorageError(source))
            if source.chain == ["failed to deserialize session config metadata", "expected an object"]
    ));
}

fn session() -> SessionRuntime {
    SessionRuntime::new(
        "s-1".to_string(),
        "model-a".to_string(),
        None,
        "ns".to_string(),
        1_000,
        800,
        Vec::new(),
    )
}

#[test]
fn an_event_that_cannot_be_stored_changes_nothing() {
    let mut runtime = session();
    let payload = LedgerEventPayload::UserMessage { content: vec![text_block("a")] };
    let event = runtime.allocate_event_at(payload, at(5));
    assert_eq!(event.seq, 1);

    let refused = runtime.persist_and_project(event.clone(), Err(ErrorSource::new("full")));
    assert!(matches!(
        refused,
        Err(AgentError::StorageError(source))
            if source.chain == ["failed to save ledger event 1 for session 's-1'", "full"]
    ));
    assert_eq!(runtime.message_count(), 0);
    assert!(runtime.context_manager.visible_messages().is_empty());

    assert!(runtime.persist_and_project(event, Ok(())).is_ok());
    assert_eq!(runtime.message_count(), 1);
    assert_eq!(runtime.context_manager.visible_messages().len(), 1);
}

#[test]
fn turns_and_events_are_numbered() {
    let mut runtime = session();

    assert_eq!(runtime.allocate_turn_id(), "turn-1");
    assert_eq!(runtime.allocate_turn_id(), "turn-2");
    let first = runtime.next_event_at("turn-2", AgentEventPayload::TurnComplete, at(9));
    let second = runtime.next_event("turn-2", AgentEventPayload::TurnComplete);
    assert_eq!(first.sequence, 1);
    assert_eq!(first.timestamp, at(9));
    assert_eq!(first.session_id, "s-1");
    assert_eq!(second.sequence, 2);
    assert!(second.timestamp.seconds > 1_700_000_000);
    let panicked = runtime.panic_event("turn-2");
    assert_eq!(panicked.sequence, 3);
    assert_eq!(panicked.turn_id, "turn-2");
    assert!(matches!(
        panicked.payload,
        AgentEventPayload::Error(AgentError::InternalPanic { message })
            if message == "background turn task panicked"
    ));
}

#[test]
fn the_live_context_is_the_rebuilt_one() {
    let events = vec![
        user(1, "first question"),
        assistant(2, "first answer", MessageStatus::Complete),
        user(3, "second question"),
        compaction(4, 2, "summary"),
        assistant(5, "second answer", MessageStatus::Complete),
    ];
    let mut runtime = session();
    for event in &events {
        assert!(runtime.persist_and_project(event.clone(), Ok(())).is_ok());
    }

    let ledger = SessionLedger::from_events(events);
    let rebuilt = ContextManager::rebuild_from_ledger(&ledger, 1_000, 800).expect("valid ledger");

    assert_eq!(rebuilt.visible_messages(), runtime.context_manager.visible_messages());
    assert_eq!(rebuilt.visible_messages().len(), 3);
    assert!(matches!(
        &rebuilt.visible_messages()[0],
        Message::System { content } if content == "summary"
    ));
}

#[test]
fn only_a_rebuilt_context_shows_that_a_message_was_interrupted() {
    let events = vec![user(1, "question"), assistant(2, "par", MessageStatus::Incomplete)];
    let mut runtime = session();
    for event in &events {
        assert!(runtime.persist_and_project(event.clone(), Ok(())).is_ok());
    }
    let rebuilt =
        ContextManager::rebuild_from_ledger(&SessionLedger::from_events(events), 1_000, 800)
            .expect("valid ledger");

    assert_eq!(runtime.context_manager.visible_messages().len(), 2);
    assert_eq!(rebuilt.visible_messages().len(), 3);
}

// ---------------------------------------------------------------------------
// Compaction
// ---------------------------------------------------------------------------

#[test]
fn four_bytes_are_estimated_as_one_token() {
    let messages = vec![
        Message::User { content: vec![text_block("中文")] },
        Message::System { content: "abc".to_string() },
    ];

    assert_eq!(content_block_chars(&text_block("中文")), 6);
    assert_eq!(estimate_messages_tokens(&messages), 2);
    assert_eq!(estimate_messages_tokens(&Vec::new()), 0);
    assert_eq!(truncation_target_tokens(1_000), 300);
    assert_eq!(truncation_target_tokens(usize::MAX), usize::MAX / 10);
}

#[test]
fn compaction_is_due_above_the_limit() {
    let mut context = ContextManager::new(100, 80);
    context.push(Message::System { content: "x".repeat(200) });

    assert_eq!(context.estimated_tokens(), 50);
    assert!(!context.needs_compaction(120, 0));
    assert!(!context.needs_compaction(120, 3));
    assert!(context.needs_compaction(120, 4));
}

#[test]
fn a_plan_keeps_the_current_turn() {
    let ledger = SessionLedger::from_events(vec![
        user(1, "old question"),
        assistant(2, "old answer", MessageStatus::Complete),
        user(3, "new question"),
        assistant(4, "working", MessageStatus::Complete),
    ]);

    let plan = CompactionPlan::build(&ledger, &None).expect("there is an earlier turn");

    assert_eq!(plan.compactable_messages.len(), 2);
    assert_eq!(plan.retained_messages.len(), 2);
    assert_eq!(plan.replaces_through_seq, 2);
}

#[test]
fn plans_need_an_anchor_and_something_before_it() {
    let none = SessionLedger::from_events(vec![assistant(1, "a", MessageStatus::Complete)]);
    let first = SessionLedger::from_events(vec![user(1, "a")]);

    assert!(matches!(
        CompactionPlan::build(&none, &None),
        Err(AgentError::CompactError { message })
            if message == "no current turn user anchor is available for compaction"
    ));
    assert!(matches!(
        CompactionPlan::build(&first, &None),
        Err(AgentError::CompactError { message })
            if message == "no earlier history can be compacted before the current turn"
    ));
}

#[test]
fn an_unusable_summary_falls_back_to_a_cut() {
    let ledger = SessionLedger::from_events(vec![
        user(1, "old question"),
        assistant(2, "old answer", MessageStatus::Complete),
        user(3, "new question"),
    ]);
    let context = ContextManager::new(10_000, 8_000);
    let plan = CompactionPlan::build(&ledger, &None).expect("there is an earlier turn");

    let summary = context
        .generate_compaction_marker(&plan, Ok(" the summary ".to_string()))
        .expect("a fitting summary");
    assert_eq!(summary.rendered_summary, render_summary_message("the summary"));
    assert_eq!(summary.replaces_through_seq, 2);

    for attempt in [
        Ok("  ".to_string()),
        Err(AgentError::CompactError { message: "m".to_string() }),
    ] {
        let cut = context.generate_compaction_marker(&plan, attempt).expect("a cut fits");
        assert_eq!(cut.rendered_summary, render_truncation_summary());
    }
    assert!(matches!(
        context.generate_compaction_marker(&plan, Err(AgentError::RequestCancelled)),
        Err(AgentError::RequestCancelled)
    ));

    let small = ContextManager::new(10, 8);
    assert!(matches!(
        small.generate_compaction_marker(&plan, Ok("summary".to_string())),
        Err(AgentError::CompactError { message })
            if message.starts_with("truncation fallback still cannot fit the preserved current turn: estimated ")
    ));
}

// ---------------------------------------------------------------------------
// Control
// ---------------------------------------------------------------------------

fn has_id_form(text: &str) -> bool {
    let digits = "0123456789abcdef";
    text.chars().count() == 36
        && text.chars().enumerate().all(|(i, c)| match i {
            8 | 13 | 18 | 23 => c == '-',
            14 => c == '4',
            19 => "89ab".contains(c),
            _ => digits.contains(c),
        })
}

#[test]
fn reservations_belong_to_their_holder() {
    let mut control = AgentControl::new();
    let reservation = control.claim_session_slot("s-1").expect("the slot is free");
    assert!(has_id_form(&reservation));
    assert!(matches!(control.claim_session_slot("s-2"), Err(AgentError::SessionBusy)));

    control.rollback_reservation("another");
    assert!(matches!(control.activate_session("another"), Err(AgentError::SessionBusy)));
    assert!(control.activate_session(&reservation).is_ok());
    control.rollback_reservation(&reservation);
    assert!(matches!(control.ensure_session_not_active("s-1"), Err(AgentError::SessionBusy)));
    assert!(control.ensure_session_not_active("s-2").is_ok());
}

#[test]
fn a_session_that_is_being_closed_starts_no_turn() {
    let mut control = AgentControl::new();
    let reservation = control.claim_session_slot("s-1").expect("the slot is free");
    assert!(control.activate_session(&reservation).is_ok());
    assert!(matches!(control.begin_close("s-2"), Err(AgentError::SessionNotFound(_))));

    assert!(control.start_turn("s-1").is_ok());
    assert!(matches!(control.start_turn("s-1"), Err(AgentError::TurnBusy)));
    assert!(matches!(control.begin_close("s-1"), Ok(true)));
    assert!(matches!(control.start_turn("s-1"), Err(AgentError::SessionBusy)));
    assert!(matches!(control.begin_close("s-1"), Err(AgentError::SessionBusy)));
    control.clear_running_turn("s-1");
    assert!(matches!(control.start_turn("s-1"), Err(AgentError::SessionBusy)));
    assert!(control.abort_close("s-1").is_ok());
    assert!(control.start_turn("s-1").is_ok());
    control.clear_running_turn("s-1");
    assert!(matches!(control.finish_close("s-1"), Err(AgentError::SessionBusy)));
    assert!(matches!(control.begin_close("s-1"), Ok(false)));
    assert!(control.finish_close("s-1").is_ok());
    assert!(matches!(control.start_turn("s-1"), Err(AgentError::SessionNotFound(_))));
    assert!(control.claim_session_slot("s-3").is_ok());
}

#[test]
fn a_shutdown_can_be_given_up() {
    let mut control = AgentControl::new();
    assert_eq!(control.begin_shutdown(), ShutdownStart::Plugins);
    assert!(matches!(control.ensure_running(), Err(AgentError::AgentShutdown)));
    assert_eq!(control.begin_shutdown(), ShutdownStart::Nothing);
    control.abort_shutdown();
    assert!(control.ensure_running().is_ok());
    assert_eq!(shutdown_order(3), [2, 1, 0]);
    assert!(shutdown_order(0).is_empty());
}

// ---------------------------------------------------------------------------
// Hooks
// ---------------------------------------------------------------------------

fn registration(plugin_id: &str, event: HookEvent, handler: usize) -> HookRegistration {
    HookRegistration {
        event,
        plugin_id: plugin_id.to_string(),
        plugin_config: json(&format!("{{\"n\":{handler}}}")),
        handler,
    }
}

fn section(text: &str) -> HookResult {
    HookResult::ContinueWith(HookPatch::TurnStart {
        append_dynamic_sections: vec![text.to_string()],
    })
}

fn turn_start() -> HookData {
    HookData::TurnStart {
        user_input: UserInput { content: vec![text_block("hello")] },
        dynamic_sections: Vec::new(),
    }
}

#[test]
fn hooks_are_called_in_order_of_registration() {
    let registry = HookRegistry::new()
        .register(registration("a", HookEvent::TurnStart, 0))
        .register(registration("b", HookEvent::TurnEnd, 1))
        .register(registration("c", HookEvent::TurnStart, 2));
    assert!(registry.has_registration(HookEvent::TurnStart, "c"));
    assert!(!registry.has_registration(HookEvent::TurnStart, "b"));

    let mut dispatch =
        registry.dispatch_at(HookEvent::TurnStart, "s-1", Some("turn-1"), &turn_start(), at(7));
    let first = dispatch.next_call().expect("the first handler").clone();
    assert_eq!(first.handler, 0);
    assert_eq!(first.payload.turn_id, Some("turn-1".to_string()));
    assert_eq!(first.payload.plugin_config.text(), "{\"n\":0}");
    assert!(dispatch.accept(section("x")).is_ok());
    let second = dispatch.next_call().expect("the second handler").clone();
    assert_eq!(second.handler, 2);
    assert_eq!(second.payload.timestamp, at(7));
    assert_eq!(second.payload.data, first.payload.data);
    assert!(dispatch.accept(section("y")).is_ok());
    assert!(dispatch.next_call().is_none());
    assert_eq!(dispatch.into_patches().len(), 2);
}

#[test]
fn an_abort_and_a_wrong_patch_end_a_dispatch() {
    let registry = HookRegistry::new()
        .register(registration("a", HookEvent::TurnStart, 0))
        .register(registration("b", HookEvent::SessionEnd, 1));
    let mut start = registry.dispatch(HookEvent::TurnStart, "s-1", None, &turn_start());
    assert!(matches!(
        start.accept(HookResult::Abort("no".to_string())),
        Err(AgentError::PluginAborted { hook: "TurnStart", reason }) if reason == "no"
    ));
    let mut start = registry.dispatch(HookEvent::TurnStart, "s-1", None, &turn_start());
    assert!(matches!(
        start.accept(HookResult::ContinueWith(HookPatch::BeforeToolUse {
            arguments: JsonValue::null(),
        })),
        Err(AgentError::PluginHookContractViolation { plugin_id, .. }) if plugin_id == "a"
    ));
    let data = HookData::SessionEnd { message_count: 0 };
    let mut end = registry.dispatch(HookEvent::SessionEnd, "s-1", None, &data);
    assert!(matches!(
        end.accept(section("x")),
        Err(AgentError::PluginHookContractViolation { plugin_id, .. }) if plugin_id == "b"
    ));
}

#[test]
fn plugins_tap_only_declared_hooks() {
    let descriptor = PluginDescriptor {
        id: "a".to_string(),
        display_name: "A".to_string(),
        description: "a plugin".to_string(),
        tapped_hooks: vec![HookEvent::TurnStart],
    };
    let mut context = PluginContext::new(descriptor.clone(), JsonValue::null());
    assert!(context.tap(HookEvent::TurnStart, 4).is_ok());
    assert_eq!(context.finish().expect("declared hooks only").len(), 1);

    let mut context = PluginContext::new(descriptor, JsonValue::null());
    assert!(context.tap(HookEvent::TurnEnd, 4).is_err());
    assert!(context.tap(HookEvent::TurnStart, 4).is_ok());
    assert!(matches!(
        context.finish(),
        Err(AgentError::PluginHookContractViolation { message, .. })
            if message == "attempted to tap undeclared hook TurnEnd"
    ));
}

#[test]
fn declared_hooks_without_a_handler_are_named() {
    let descriptor = PluginDescriptor {
        id: "a".to_string(),
        display_name: "A".to_string(),
        description: "a plugin".to_string(),
        tapped_hooks: vec![HookEvent::TurnStart, HookEvent::TurnEnd, HookEvent::AfterToolUse],
    };
    let registry = HookRegistry::new()
        .register(registration("a", HookEvent::TurnEnd, 0))
        .register(registration("b", HookEvent::TurnStart, 1));

    assert_eq!(
        missing_hooks(&descriptor, &registry),
        vec![HookEvent::TurnStart, HookEvent::AfterToolUse]
    );
}

#[test]
fn hooks_have_names_and_some_take_patches() {
    for (event, name, patched) in [
        (HookEvent::SessionStart, "SessionStart", false),
        (HookEvent::SessionEnd, "SessionEnd", false),
        (HookEvent::TurnStart, "TurnStart", true),
        (HookEvent::TurnEnd, "TurnEnd", false),
        (HookEvent::BeforeToolUse, "BeforeToolUse", true),
        (HookEvent::AfterToolUse, "AfterToolUse", false),
        (HookEvent::BeforeCompact, "BeforeCompact", false),
    ] {
        assert_eq!(event.as_str(), name);
        assert_eq!(event.supports_patch(), patched, "{name}");
    }
}

// ---------------------------------------------------------------------------
// Tools
// ---------------------------------------------------------------------------

#[test]
fn texts_are_cut_at_characters() {
    assert_eq!(truncate_content_to_budget("short", 5), "short");
    assert_eq!(
        truncate_content_to_budget(&"中".repeat(20), 24),
        "中\n\n[output truncated]"
    );
    assert_eq!(truncate_content_to_budget(&"x".repeat(40), 22), "xx\n\n[output truncated]");
    assert_eq!(truncate_content_to_budget(&"x".repeat(40), 20), "\n\n[output truncated]");
    assert_eq!(truncate_content_to_budget(&"x".repeat(40), 4), "\n\n[o");
    assert_eq!(truncate_content_to_budget("x", 0), "");
}

#[test]
fn outputs_are_kept_within_their_budgets() {
    let untouched = normalize_tool_output(output("ok", "{\"a\":1}"), 100, 50);
    assert_eq!(untouched, output("ok", "{\"a\":1}"));

    let large = format!("{{\"a\":\"{}\"}}", "y".repeat(92));
    let cut = normalize_tool_output(output(&"x".repeat(200), &large), 120, 50);
    assert_eq!(cut.metadata.text(), "{\"_original_bytes\":100,\"_truncated\":true}");
    assert_eq!(cut.content.len() + cut.metadata.text().len(), 120);
    assert_eq!(normalize_tool_output(cut.clone(), 120, 50), cut);
}

#[test]
fn durations_are_capped() {
    assert_eq!(saturating_duration_ms(12), 12);
    assert_eq!(saturating_duration_ms(u128::MAX), u64::MAX);
}

#[test]
fn unknown_tools_are_answered() {
    assert_eq!(tool_not_found_output("t").content, "[Tool error] tool 't' not found");
    assert!(tool_not_found_output("t").is_error);
    assert_eq!(skipped_not_found_output("t"), "[Tool skipped: previous tool 't' not found]");
    assert_eq!(
        SyntheticError::ToolNotFound { tool_name: "t".to_string() }.to_agent_error(),
        AgentError::ToolNotFound("t".to_string())
    );
}

fn limits() -> ToolLimits {
    ToolLimits { timeout_ms: 50, output_max_bytes: 1_000, metadata_max_bytes: 100 }
}

fn runnable(call_id: &str) -> PreparedToolCall {
    PreparedToolCall {
        call_id: call_id.to_string(),
        tool_name: "t".to_string(),
        effective_arguments: JsonValue::null(),
        execution: PreparedExecution::Execute { is_mutating: true },
    }
}

#[test]
fn a_cancelled_serial_batch_answers_the_remaining_calls() {
    let mut batch = SerialBatch::new(PreparedToolBatch {
        calls: vec![runnable("a"), runnable("b")],
        has_mutating: true,
    });
    assert_eq!(batch.next(false, limits()), SerialStep::Execute);
    assert_eq!(batch.next(true, limits()), SerialStep::Finished);

    let outcome = batch.into_outcome();

    assert!(outcome.cancelled);
    assert_eq!(outcome.results.len(), 2);
    for record in outcome.results {
        assert_eq!(record.output.content, "[Tool cancelled]");
        assert!(!record.success);
    }
}

#[test]
fn a_missing_result_of_a_parallel_batch_is_an_error() {
    assert!(matches!(
        collect_ordered_results(vec![None]),
        Err(AgentError::InternalPanic { .. })
    ));
    assert!(collect_ordered_results(Vec::new()).is_ok_and(|results| results.is_empty()));
}

// ---------------------------------------------------------------------------
// Streams
// ---------------------------------------------------------------------------

fn delta(text: &str) -> StreamItem {
    StreamItem::Event(ChatEvent::TextDelta(text.to_string()))
}

fn done() -> StreamItem {
    StreamItem::Event(ChatEvent::Done { usage: TokenUsage::default() })
}

fn call(call_id: &str) -> StreamItem {
    StreamItem::Event(ChatEvent::ToolCall {
        call_id: call_id.to_string(),
        tool_name: "t".to_string(),
        arguments: JsonValue::empty_object(),
    })
}

fn chat_error(too_long: bool) -> StreamItem {
    StreamItem::Event(ChatEvent::Error(ChatError {
        message: "busy".to_string(),
        retryable: true,
        is_context_length_exceeded: too_long,
    }))
}

#[test]
fn plain_texts_are_collected() {
    let purpose = TextPurpose::Compaction;
    assert_eq!(
        collect_text(purpose, "a".to_string(), delta("b"), false),
        Collected::More("ab".to_string())
    );
    assert_eq!(
        collect_text(purpose, "ab".to_string(), done(), false),
        Collected::Complete("ab".to_string())
    );
    assert!(matches!(
        collect_text(purpose, "ab".to_string(), call("c"), false),
        Collected::Failed(AgentError::CompactError { message })
            if message == "compact model emitted an unexpected tool call"
    ));
    assert!(matches!(
        collect_text(TextPurpose::Extraction, "ab".to_string(), call("c"), false),
        Collected::Failed(AgentError::ProviderError { .. })
    ));
    assert!(matches!(
        collect_text(purpose, "ab".to_string(), chat_error(false), false),
        Collected::Failed(AgentError::ProviderError { message, retryable: true, .. })
            if message == "busy"
    ));
    for item in [StreamItem::End, chat_error(false), StreamItem::Failed(ErrorSource::new("x"))] {
        assert_eq!(
            collect_text(TextPurpose::Extraction, String::new(), item, true),
            Collected::Failed(AgentError::RequestCancelled)
        );
    }
}

#[test]
fn answers_are_consumed() {
    let Consumed::More(answer, Some(AgentEventPayload::TextDelta(text))) =
        consume_provider_stream(ModelAnswer::new(), delta("hi"), true, false)
    else {
        panic!("a delta is handed on");
    };
    assert_eq!(text, "hi");
    let Consumed::More(answer, None) = consume_provider_stream(answer, call("c"), true, false)
    else {
        panic!("a tool call is kept");
    };
    let Consumed::Complete(answer) = consume_provider_stream(answer, done(), true, false) else {
        panic!("the answer is complete");
    };
    assert_eq!(answer.assistant_output, "hi");
    assert_eq!(answer.tool_calls.len(), 1);
    assert_eq!(answer.tool_calls[0].call_id, "c");

    assert!(matches!(
        consume_provider_stream(ModelAnswer::new(), call("c"), false, false),
        Consumed::Failed(AgentError::ProviderError { message, .. })
            if message == "provider emitted a tool call after tools were disabled"
    ));
    assert_eq!(
        consume_provider_stream(ModelAnswer::new(), chat_error(true), true, false),
        Consumed::TooLong
    );
    assert!(matches!(
        consume_provider_stream(ModelAnswer::new(), StreamItem::End, true, true),
        Consumed::Cancelled(_)
    ));
    assert!(matches!(
        consume_provider_stream(ModelAnswer::new(), StreamItem::End, true, false),
        Consumed::Failed(AgentError::ProviderError { .. })
    ));
    assert_eq!(assistant_content("hi".to_string()), vec![text_block("hi")]);
}

// ---------------------------------------------------------------------------
// Memories
// ---------------------------------------------------------------------------

#[test]
fn memories_of_a_turn_are_merged_without_repetition() {
    let merged = merge_memories(
        &vec![memory("a", "1"), memory("b", "2")],
        &vec![memory("b", "3"), memory("c", "4"), memory("d", "5")],
        3,
    );

    let ids: Vec<&str> = merged.iter().map(|m| m.id.as_str()).collect();
    assert_eq!(ids, ["a", "b", "c"]);
    assert_eq!(merged[1].content, "2");
}

#[test]
fn queries_are_made_of_texts_alone() {
    let image = ContentBlock::Image { data: "x".to_string(), media_type: "image/png".to_string() };
    assert_eq!(
        explicit_text_query(&UserInput {
            content: vec![text_block(" a "), image.clone(), text_block("  "), text_block("b")],
        }),
        Some("a\nb".to_string())
    );
    assert_eq!(explicit_text_query(&UserInput { content: vec![image] }), None);
}

#[test]
fn events_are_rendered_for_the_extraction() {
    let ledger = SessionLedger::from_events(vec![
        user(1, "old"),
        metadata(2, MetadataKey::MemoryCheckpoint, MetadataValue::MemoryCheckpoint(1)),
        user(3, "question"),
        assistant(4, "par", MessageStatus::Incomplete),
        LedgerEvent {
            seq: 5,
            timestamp: at(0),
            payload: LedgerEventPayload::ToolCall {
                call_id: "c".to_string(),
                tool_name: "t".to_string(),
                arguments: json("{\"a\": 1}"),
            },
        },
        LedgerEvent {
            seq: 6,
            timestamp: at(0),
            payload: LedgerEventPayload::ToolResult {
                call_id: "c".to_string(),
                output: output("ok", "{}"),
            },
        },
        LedgerEvent {
            seq: 7,
            timestamp: at(0),
            payload: LedgerEventPayload::SystemMessage { content: "note".to_string() },
        },
    ]);
    let fresh = incremental_events_after(&ledger, 1);

    assert_eq!(
        render_incremental_events(&fresh),
        "[seq:3] user: question\n[seq:4] assistant(incomplete): par\n[seq:5] tool_call t#c: {\"a\":1}\n[seq:6] tool_result c (is_error=false): ok\n[seq:7] system: note"
    );
    assert_eq!(render_message_status(MessageStatus::Complete), "complete");
    assert_eq!(
        render_content_blocks(&vec![
            text_block("a"),
            ContentBlock::Image { data: "x".to_string(), media_type: "image/png".to_string() },
            ContentBlock::File {
                name: "n".to_string(),
                media_type: "text/plain".to_string(),
                text: "b".to_string(),
            },
        ]),
        "a\n<image media_type=\"image/png\" />\n<file name=\"n\" media_type=\"text/plain\">\nb\n</file>"
    );
}

#[test]
fn memory_operations_become_writes() {
    let mut known = vec![memory("a", "old")];
    let operation = |known: &mut Vec<Memory>, operation: MemoryOperation| {
        apply_memory_operation(known, &operation, "ns", "checkpoint", "fresh".to_string(), at(9))
    };

    let update = operation(
        &mut known,
        MemoryOperation::Update {
            target_id: "a".to_string(),
            content: "new".to_string(),
            tags: vec!["x".to_string()],
        },
    );
    let Some(MemoryWrite::Upsert(updated)) = update else {
        panic!("an update writes");
    };
    assert_eq!(updated.id, "a");
    assert_eq!(updated.content, "new");
    assert_eq!(updated.source, "checkpoint");
    assert_eq!(updated.created_at, at(1));
    assert_eq!(updated.updated_at, at(9));

    let create = operation(
        &mut known,
        MemoryOperation::Update {
            target_id: "nowhere".to_string(),
            content: "other".to_string(),
            tags: Vec::new(),
        },
    );
    assert!(matches!(
        create,
        Some(MemoryWrite::Upsert(created))
            if created.id == "fresh" && created.created_at == at(9) && created.namespace == "ns"
    ));
    assert_eq!(
        operation(&mut known, MemoryOperation::Delete { target_id: "nowhere".to_string() }),
        None
    );
    assert_eq!(
        operation(&mut known, MemoryOperation::Delete { target_id: "a".to_string() }),
        Some(MemoryWrite::Delete("a".to_string()))
    );
    assert_eq!(
        operation(&mut known, MemoryOperation::Delete { target_id: "a".to_string() }),
        None
    );
}

#[test]
fn an_extraction_covers_what_lies_behind_its_checkpoint() {
    let ledger = SessionLedger::from_events(vec![user(1, "a"), user(2, "b")]);
    let begin = |checkpoint: u64| {
        Extraction::begin(
            &ledger,
            checkpoint,
            "ns".to_string(),
            "checkpoint".to_string(),
            "model-a".to_string(),
        )
    };

    let (run, action) = begin(2).next();
    assert!(matches!(action, ExtractionAction::Finished));
    assert_eq!(run.into_result(), Ok(None));

    let (run, action) = begin(1).next();
    assert!(matches!(
        action,
        ExtractionAction::ListMemories { namespace } if namespace == "ns"
    ));
    let run = run.listed(Err(ErrorSource::new("gone")));
    let (run, action) = run.next();
    assert!(matches!(action, ExtractionAction::Finished));
    assert!(matches!(run.into_result(), Err(AgentError::StorageError(_))));

    let (run, _) = begin(1).next();
    let (run, action) = run.listed(Ok((Vec::new(), "[]".to_string()))).next();
    assert!(matches!(
        action,
        ExtractionAction::OpenChat(request) if request.tools.is_empty() && request.messages.len() == 2
    ));
    let (run, _) = run.opened(Ok(())).next();
    let (run, _) = run.item(delta("not json"), false).next();
    let (run, action) = run.item(done(), false).next();
    assert!(matches!(action, ExtractionAction::Parse(text) if text == "not json"));
    let (run, _) = run.parsed(None).next();
    assert!(matches!(
        run.into_result(),
        Err(AgentError::ProviderError { message, retryable: false, .. })
            if message == "memory extraction output is not valid JSON"
    ));

    let (run, _) = begin(1).next();
    let (run, _) = run.listed(Ok((Vec::new(), "[]".to_string()))).next();
    let (run, _) = run.opened(Ok(())).next();
    let (run, action) = run.item(done(), false).next();
    assert!(matches!(action, ExtractionAction::Parse(text) if text.is_empty()));
    let mut run = run.parsed(Some(ExtractionResult {
        memory_operations: vec![MemoryOperation::Create {
            content: "note".to_string(),
            tags: Vec::new(),
        }],
        rollout_summary: String::new(),
        rollout_slug: String::new(),
    }));
    let mut written = 0;
    loop {
        let (next, action) = run.next();
        run = match action {
            ExtractionAction::Write(MemoryWrite::Upsert(memory)) => {
                assert_eq!(memory.content, "note");
                written += 1;
                next.written(Ok(()))
            }
            ExtractionAction::Finished => {
                assert_eq!(next.into_result(), Ok(Some(2)));
                break;
            }
            _ => next,
        };
    }
    assert_eq!(written, 1);
}

#[test]
fn extraction_requests_name_their_parts() {
    let request = build_extraction_request("ns", "checkpoint", "[]", "[seq:1] user: a", "model-a");

    assert_eq!(request.model_id, "model-a");
    assert!(matches!(
        &request.messages[1],
        Message::User { content }
            if matches!(&content[0], ContentBlock::Text(text) if text.contains("[seq:1] user: a"))
    ));
}

// ---------------------------------------------------------------------------
// Builders and inputs
// ---------------------------------------------------------------------------

#[test]
fn settings_must_be_positive_and_storages_single() {
    assert!(validate_positive_u64("n", 1).is_ok());
    assert!(matches!(
        validate_positive_u64("n", 0),
        Err(AgentError::InputValidation { message }) if message.contains("n")
    ));
    assert!(validate_positive_usize("n", 1).is_ok());
    assert!(validate_positive_usize("n", 0).is_err());
    assert!(validate_storage_duplicate("session", 1).is_ok());
    assert!(matches!(
        validate_storage_duplicate("session", 2),
        Err(AgentError::StorageDuplicate { kind: "session" })
    ));
}

#[test]
fn models_are_found_with_their_providers() {
    let offer = |id: &str, model: &str| ProviderOffer {
        id: id.to_string(),
        models: vec![ModelOffer {
            info: ModelInfo {
                id: model.to_string(),
                display_name: model.to_string(),
                context_window: 512,
                capabilities: vision(true),
            },
            compact_limit: 409,
        }],
    };
    let models = build_model_registry(&vec![offer("p-1", "m-1"), offer("p-2", "m-2")])
        .expect("different names");

    assert_eq!(models.resolve_provider("m-2"), Ok("p-2".to_string()));
    assert_eq!(models.resolve_context_window("m-1"), Ok(512));
    assert_eq!(
        models.resolve_context_window("m-3"),
        Err(AgentError::ModelNotSupported("m-3".to_string()))
    );
    assert!(matches!(
        build_model_registry(&vec![offer("p-1", "m-1"), offer("p-1", "m-2")]),
        Err(AgentError::NameConflict { kind: "model provider", name }) if name == "p-1"
    ));
    assert!(matches!(
        build_model_registry(&vec![offer("p-1", "m-1"), offer("p-2", "m-1")]),
        Err(AgentError::NameConflict { kind: "model", name }) if name == "m-1"
    ));
}

#[test]
fn default_settings_are_the_documented_ones() {
    let config = AgentConfig::new("model-a", "ns");

    assert_eq!(config.tool_timeout_ms, 120_000);
    assert_eq!(config.max_tool_calls_per_turn, 50);
    assert_eq!(config.tool_output_max_bytes, 1_048_576);
    assert_eq!(config.tool_output_metadata_max_bytes, 65_536);
    assert_eq!(config.memory_checkpoint_interval, 10);
    assert_eq!(config.memory_max_items, 20);
}

#[test]
fn inputs_are_checked_block_by_block() {
    let image = |data: &str| ContentBlock::Image {
        data: data.to_string(),
        media_type: "image/png".to_string(),
    };
    let file = |text: &str| ContentBlock::File {
        name: "n".to_string(),
        media_type: "text/plain".to_string(),
        text: text.to_string(),
    };
    let check = |content: Vec<ContentBlock>, sees: bool| {
        validate_user_input(&UserInput { content }, vision(sees))
    };

    assert!(check(vec![text_block("a")], false).is_ok());
    assert!(check(vec![text_block(" "), image("x")], true).is_ok());
    assert!(check(vec![image("x")], false).is_err());
    assert!(check(vec![image(" ")], true).is_err());
    assert!(check(vec![file("body")], false).is_ok());
    assert!(check(vec![text_block(" ")], true).is_err());
    assert!(matches!(
        check(Vec::new(), true),
        Err(AgentError::InputValidation { message })
            if message == "user input must contain at least one content block"
    ));
}
