//! Prompts, requests and skills.

use youyou_agent::application::prompt_builder::{PromptBuildContext, PromptBuilder};
use youyou_agent::application::request_builder::{
    ChatRequestBuilder, RequestBuildOptions, RequestContext, ResolvedSessionConfig,
};
use youyou_agent::application::skill_manager::SkillManager;
use youyou_agent::clock::Timestamp;
use youyou_agent::json::JsonValue;
use youyou_agent::{
    AgentConfig, AgentError, ContentBlock, EnvironmentContext, Memory, Message, MessageStatus,
    ModelCapabilities, NetworkContext, PluginDescriptor, SkillDefinition, ToolDefinition,
    ToolOutput, UserInput,
};

fn base_config() -> AgentConfig {
    let mut config = AgentConfig::new("model-a", "memory/test");
    config.system_instructions = vec!["You are the project agent.".to_string()];
    config.personality = Some("请直接、简洁、务实。".to_string());
    config.environment_context = Some(EnvironmentContext {
        cwd: Some("/tmp/project".into()),
        shell: Some("/bin/zsh".to_string()),
        current_date: Some("2026-03-24".to_string()),
        timezone: Some("Asia/Shanghai".to_string()),
        network: None,
        subagents: None,
    });
    config
}

fn sample_skill(name: &str, allow_implicit_invocation: bool) -> SkillDefinition {
    SkillDefinition {
        name: name.to_string(),
        display_name: name.to_string(),
        description: format!("skill {name}"),
        prompt_template: format!("Use {name}."),
        required_tools: Vec::new(),
        allow_implicit_invocation,
    }
}

fn sample_plugin(id: &str) -> PluginDescriptor {
    PluginDescriptor {
        id: id.to_string(),
        display_name: format!("Plugin {id}"),
        description: format!("plugin {id}"),
        tapped_hooks: Vec::new(),
    }
}

fn sample_memory(id: &str, content: &str) -> Memory {
    let now = Timestamp { seconds: 1_774_310_400, nanos: 0 };
    Memory {
        id: id.to_string(),
        namespace: "memory/test".to_string(),
        content: content.to_string(),
        source: "unit-test".to_string(),
        tags: vec!["phase3".to_string()],
        created_at: now,
        updated_at: now,
    }
}

fn sample_tool_definition(name: &str) -> ToolDefinition {
    ToolDefinition {
        name: name.to_string(),
        description: format!("tool {name}"),
        parameters: JsonValue::parse(r#"{"type":"object","properties":{},"required":[]}"#)
            .expect("the schema is JSON"),
    }
}

fn capabilities(vision: bool) -> ModelCapabilities {
    ModelCapabilities { tool_use: true, vision, streaming: true }
}

fn user_text(text: &str) -> Message {
    Message::User { content: vec![ContentBlock::Text(text.to_string())] }
}

fn session_config() -> ResolvedSessionConfig {
    ResolvedSessionConfig { model_id: "model-a".to_string(), system_prompt_override: None }
}

fn text_input(text: &str) -> UserInput {
    UserInput { content: vec![ContentBlock::Text(text.to_string())] }
}

fn assert_ordered(haystack: &str, needles: &[&str]) {
    let mut previous_index = 0;
    for needle in needles {
        let index = haystack[previous_index..].find(needle).map_or_else(
            || panic!("needle '{needle}' not found in prompt:\n{haystack}"),
            |offset| previous_index + offset,
        );
        assert!(
            index >= previous_index,
            "needle '{needle}' appeared out of order in prompt:\n{haystack}"
        );
        previous_index = index + needle.len();
    }
}

#[test]
fn implicit_skill_list_only_contains_allow_implicit_invocation() {
    let manager = SkillManager::new(vec![
        sample_skill("commit", true),
        sample_skill("review", false),
    ]);

    let implicit = manager.implicit_skills();
    let prompt = PromptBuilder::new().build(
        &base_config(),
        None,
        &PromptBuildContext {
            implicit_skills: implicit.into_iter().cloned().collect(),
            ..PromptBuildContext::default()
        },
    );

    assert_eq!(prompt.text.matches("- commit:").count(), 1);
    assert!(!prompt.text.contains("- review:"));
}

#[test]
fn unknown_skill_fails_before_turn_starts() {
    let manager = SkillManager::new(vec![sample_skill("commit", true)]);
    let input = UserInput { content: vec![ContentBlock::Text("/missing".to_string())] };

    let result = manager.resolve_invocations(&input);

    assert!(matches!(
        result,
        Err(AgentError::SkillNotFound(name)) if name == "missing"
    ));
}

#[test]
fn system_prompt_sections_follow_requirement_order() {
    let rendered = PromptBuilder::new().build(
        &base_config(),
        Some("session override"),
        &PromptBuildContext {
            implicit_skills: vec![sample_skill("commit", true)],
            plugins: vec![sample_plugin("lint")],
            memories: vec![sample_memory("memory-1", "remember the build command")],
            dynamic_sections: vec!["<dynamic>extra</dynamic>".to_string()],
        },
    );

    assert_ordered(
        &rendered.text,
        &[
            "<system_instructions>",
            "<system_prompt_override>",
            "<personality_spec>",
            "## Skills",
            "## Plugins",
            "## Memory",
            "<environment_context>",
            "<dynamic>extra</dynamic>",
        ],
    );
}

#[test]
fn tool_definitions_do_not_appear_in_prompt_text() {
    let tool_name = "tool-only-in-request";
    let rendered = PromptBuilder::new().build(&base_config(), None, &PromptBuildContext::default());
    let request = ChatRequestBuilder::new()
        .build(
            &rendered,
            &RequestContext {
                messages: vec![user_text("hello")],
                model_capabilities: capabilities(true),
                tool_definitions: vec![sample_tool_definition(tool_name)],
            },
            &session_config(),
            &RequestBuildOptions::default(),
        )
        .expect("request should build");

    assert!(!rendered.text.contains(tool_name));
    assert_eq!(request.tools.len(), 1);
    assert_eq!(request.tools[0].name, tool_name);
}

#[test]
fn environment_context_serializes_to_expected_xml() {
    let context = EnvironmentContext {
        cwd: Some("/tmp/project".into()),
        shell: Some("/bin/zsh".to_string()),
        current_date: Some("2026-03-24".to_string()),
        timezone: Some("Asia/Shanghai".to_string()),
        network: Some(NetworkContext {
            allowed_domains: vec!["example.com".to_string()],
            denied_domains: vec!["blocked.example".to_string()],
        }),
        subagents: Some("- worker-1: Atlas".to_string()),
    };

    let xml = context.serialize_to_xml();

    assert_eq!(
        xml,
        "<environment_context>\n  <cwd>/tmp/project</cwd>\n  <shell>/bin/zsh</shell>\n  <current_date>2026-03-24</current_date>\n  <timezone>Asia/Shanghai</timezone>\n  <network enabled=\"true\">\n    <allowed>example.com</allowed>\n    <denied>blocked.example</denied>\n  </network>\n  <subagents>\n    - worker-1: Atlas\n  </subagents>\n</environment_context>"
    );
}

#[test]
fn test_should_serialize_environment_context_to_xml() {
    let context = EnvironmentContext {
        cwd: Some("/tmp/project".into()),
        shell: Some("/bin/zsh".to_string()),
        current_date: Some("2026-03-22".to_string()),
        timezone: Some("Asia/Shanghai".to_string()),
        network: Some(NetworkContext {
            allowed_domains: vec!["example.com".to_string()],
            denied_domains: vec!["blocked.example".to_string()],
        }),
        subagents: Some("worker-1".to_string()),
    };

    let xml = context.serialize_to_xml();

    assert!(xml.contains("<environment_context>"));
    assert!(xml.contains("<cwd>/tmp/project</cwd>"));
    assert!(xml.contains("<shell>/bin/zsh</shell>"));
    assert!(xml.contains("<allowed>example.com</allowed>"));
    assert!(xml.contains("<denied>blocked.example</denied>"));
    assert!(xml.contains("<subagents>"));
}

#[test]
fn personality_is_wrapped_with_personality_spec_tag() {
    let rendered = PromptBuilder::new().build(&base_config(), None, &PromptBuildContext::default());

    assert!(rendered.text.contains(
        "<personality_spec>\nUser has requested new communication style. Follow the instructions below:\n\n请直接、简洁、务实。\n</personality_spec>"
    ));
}

#[test]
fn allow_tools_false_sends_empty_tools() {
    let request = ChatRequestBuilder::new()
        .build(
            &PromptBuilder::new().build(&base_config(), None, &PromptBuildContext::default()),
            &RequestContext {
                messages: vec![user_text("hello")],
                model_capabilities: capabilities(true),
                tool_definitions: vec![sample_tool_definition("search")],
            },
            &session_config(),
            &RequestBuildOptions { allow_tools: false },
        )
        .expect("request should build");

    assert!(request.tools.is_empty());
}

#[test]
fn image_requires_vision_capability() {
    let result = ChatRequestBuilder::new().build(
        &PromptBuilder::new().build(&base_config(), None, &PromptBuildContext::default()),
        &RequestContext {
            messages: vec![Message::User {
                content: vec![ContentBlock::Image {
                    data: "ZmFrZQ==".to_string(),
                    media_type: "image/png".to_string(),
                }],
            }],
            model_capabilities: capabilities(false),
            tool_definitions: Vec::new(),
        },
        &session_config(),
        &RequestBuildOptions::default(),
    );

    assert!(matches!(
        result,
        Err(AgentError::InputValidation { message })
            if message.contains("does not support image input")
    ));
}

#[test]
fn file_content_uses_text_channel_without_vision() {
    let request = ChatRequestBuilder::new()
        .build(
            &PromptBuilder::new().build(&base_config(), None, &PromptBuildContext::default()),
            &RequestContext {
                messages: vec![Message::User {
                    content: vec![ContentBlock::File {
                        name: "README.md".to_string(),
                        media_type: "text/markdown".to_string(),
                        text: "# Title".to_string(),
                    }],
                }],
                model_capabilities: capabilities(false),
                tool_definitions: Vec::new(),
            },
            &session_config(),
            &RequestBuildOptions::default(),
        )
        .expect("file inputs should not require vision");

    let Some(Message::User { content }) = request.messages.get(1) else {
        panic!("expected the normalized user message");
    };

    assert!(content.iter().all(|block| matches!(block, ContentBlock::Text(_))));
    assert!(matches!(
        content.first(),
        Some(ContentBlock::Text(text))
            if text.contains("<file>") && text.contains("<name>README.md</name>")
    ));
}

#[test]
fn test_should_parse_known_and_unknown_skill_invocations() {
    let manager = SkillManager::new(vec![sample_skill("commit", true)]);
    let input = UserInput {
        content: vec![ContentBlock::Text(
            "/commit\nunknown: /missing\nplain text".to_string(),
        )],
    };

    let (matched, unknown) = manager.parse_invocations(&input);

    assert_eq!(matched.len(), 1);
    assert_eq!(matched[0].name, "commit");
    assert_eq!(unknown, vec!["missing".to_string()]);
}

#[test]
fn test_should_render_skill_injection_as_system_message() {
    let manager = SkillManager::new(vec![sample_skill("review", true)]);
    let skill = manager.get("review").expect("expected skill");

    let message = manager.render_injection(skill);

    assert!(matches!(message, Message::System { .. }));
}

#[test]
fn test_should_not_parse_paths_as_skill_invocations() {
    let manager = SkillManager::new(vec![
        sample_skill("tmp", true),
        sample_skill("api", true),
        sample_skill("commit", true),
    ]);
    let input = UserInput {
        content: vec![ContentBlock::Text(
            "inspect /tmp/project and /api/v1/users, then run /commit.".to_string(),
        )],
    };

    let (matched, unknown) = manager.parse_invocations(&input);
    let matched_names = matched.iter().map(|skill| skill.name.as_str()).collect::<Vec<_>>();

    assert_eq!(matched_names, vec!["commit"]);
    assert!(unknown.is_empty());
}

#[test]
fn a_skill_named_twice_is_injected_twice() {
    let manager = SkillManager::new(vec![sample_skill("commit", true)]);

    let injections = manager.injections(&text_input("/commit and (/commit)")).expect("known skill");

    assert_eq!(injections.len(), 2);
    for injection in injections {
        assert!(matches!(
            injection,
            Message::System { content }
                if content == "<skill>\n<name>commit</name>\nUse commit.\n</skill>"
        ));
    }
}

#[test]
fn invocations_end_before_punctuation_but_not_inside_words() {
    let manager = SkillManager::new(vec![sample_skill("commit", true)]);

    for text in ["/commit", "(/commit)", "run /commit, now", "先 /commit。", "\"/commit\""] {
        let (matched, unknown) = manager.parse_invocations(&text_input(text));
        assert_eq!(matched.len(), 1, "{text}");
        assert!(unknown.is_empty(), "{text}");
    }
    for text in ["a/commit", "/commit/x", "//commit", "/ commit", "http://commit"] {
        let (matched, unknown) = manager.parse_invocations(&text_input(text));
        assert!(matched.is_empty(), "{text}");
        assert!(unknown.is_empty(), "{text}");
    }
}

#[test]
fn later_definitions_of_a_skill_replace_earlier_ones() {
    let mut second = sample_skill("commit", false);
    second.prompt_template = "Second.".to_string();
    let manager = SkillManager::new(vec![sample_skill("commit", true), second]);

    assert_eq!(manager.get("commit").expect("known skill").prompt_template, "Second.");
    assert!(manager.implicit_skills().is_empty());
    assert!(manager.get("other").is_none());
}

#[test]
fn prompt_of_an_empty_configuration_is_empty() {
    let rendered = PromptBuilder::new().build(
        &AgentConfig::new("model-a", "memory/test"),
        Some("   "),
        &PromptBuildContext::default(),
    );

    assert_eq!(rendered.text, "");
}

#[test]
fn prompt_sections_are_separated_by_blank_lines() {
    let mut config = AgentConfig::new("model-a", "memory/test");
    config.system_instructions = vec!["  one ".to_string(), " ".to_string(), "two".to_string()];
    let rendered = PromptBuilder::new().build(
        &config,
        Some(" override "),
        &PromptBuildContext {
            dynamic_sections: vec![" ".to_string(), "extra".to_string()],
            ..PromptBuildContext::default()
        },
    );

    assert_eq!(
        rendered.text,
        "<system_instructions>\none\n\ntwo\n</system_instructions>\n\n<system_prompt_override>\noverride\n</system_prompt_override>\n\nextra"
    );
}

#[test]
fn environment_values_are_escaped() {
    let context = EnvironmentContext {
        cwd: Some("/a<b>&\"c\"'d'".to_string()),
        ..EnvironmentContext::default()
    };

    assert_eq!(
        context.serialize_to_xml(),
        "<environment_context>\n  <cwd>/a&lt;b&gt;&amp;&quot;c&quot;&apos;d&apos;</cwd>\n</environment_context>"
    );
}

#[test]
fn requests_carry_the_history_behind_the_prompt() {
    let rendered = PromptBuilder::new().build(&base_config(), None, &PromptBuildContext::default());
    let history = vec![
        user_text("hello"),
        Message::Assistant {
            content: vec![ContentBlock::Text("hi".to_string())],
            status: MessageStatus::Complete,
        },
        Message::ToolResult {
            call_id: "call-1".to_string(),
            output: ToolOutput {
                content: "ok".to_string(),
                is_error: false,
                metadata: JsonValue::empty_object(),
            },
        },
    ];
    let request = ChatRequestBuilder::new()
        .build(
            &rendered,
            &RequestContext {
                messages: history.clone(),
                model_capabilities: capabilities(true),
                tool_definitions: Vec::new(),
            },
            &session_config(),
            &RequestBuildOptions::default(),
        )
        .expect("request should build");

    assert_eq!(request.model_id, "model-a");
    assert!(matches!(&request.messages[0], Message::System { content } if *content == rendered.text));
    assert_eq!(request.messages[1..], history[..]);
    assert!(request.max_tokens.is_none());
    assert!(request.reasoning_effort.is_none());
}

#[test]
fn tools_require_tool_use_capability() {
    let mut context = RequestContext {
        messages: vec![user_text("hello")],
        model_capabilities: ModelCapabilities { tool_use: false, vision: true, streaming: true },
        tool_definitions: vec![sample_tool_definition("search")],
    };
    let rendered = PromptBuilder::new().build(&base_config(), None, &PromptBuildContext::default());

    let refused = ChatRequestBuilder::new().build(
        &rendered,
        &context,
        &session_config(),
        &RequestBuildOptions::default(),
    );
    assert!(matches!(
        refused,
        Err(AgentError::InputValidation { message })
            if message == "model 'model-a' does not support tool use"
    ));

    context.tool_definitions.clear();
    assert!(ChatRequestBuilder::new()
        .build(&rendered, &context, &session_config(), &RequestBuildOptions::default())
        .is_ok());
}
