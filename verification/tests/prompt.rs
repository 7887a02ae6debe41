use yaml_prompt::prompt::CodexErr;
use yaml_prompt::prompt::Prompt;
use yaml_prompt::prompt::ResponseItem;
use yaml_prompt::prompt::YamlMessage;
use yaml_prompt::prompt::YamlPrompt;

fn msg(role: &str, content: &str) -> YamlMessage {
    YamlMessage { role: role.to_string(), content: content.to_string() }
}

#[test]
fn test_build_promotes_system_message() {
    let doc = YamlPrompt {
        messages: vec![msg("system", "A"), msg("user", "{{input}}")],
        model: None,
    };
    let vars = vec![("input".to_string(), "B".to_string())];
    let prompt = doc.to_prompt(&vars).unwrap();
    assert_eq!(prompt.input, vec![ResponseItem::UserMessage { content: "B".to_string() }]);
    assert_eq!(prompt.base_instructions_override, Some("A".to_string()));
}

#[test]
fn test_build_unknown_role_fails() {
    let doc = YamlPrompt {
        messages: vec![msg("user", "ok"), msg("tool", "x")],
        model: None,
    };
    let vars: Vec<(String, String)> = Vec::new();
    let err = doc.to_prompt(&vars).unwrap_err();
    assert_eq!(err, CodexErr::UnsupportedRole("tool".to_string()));
}

#[test]
fn test_build_empty_messages() {
    let doc = YamlPrompt { messages: Vec::new(), model: None };
    let vars: Vec<(String, String)> = Vec::new();
    let prompt = doc.to_prompt(&vars).unwrap();
    assert!(prompt.input.is_empty());
    assert_eq!(prompt.base_instructions_override, None);
}

#[test]
fn test_build_keeps_order_and_drops_every_system_message() {
    let doc = YamlPrompt {
        messages: vec![
            msg("user", "one"),
            msg("system", "first"),
            msg("assistant", "two"),
            msg("system", "second"),
            msg("user", "three"),
        ],
        model: None,
    };
    let vars: Vec<(String, String)> = Vec::new();
    let prompt = doc.to_prompt(&vars).unwrap();
    assert_eq!(
        prompt.input,
        vec![
            ResponseItem::UserMessage { content: "one".to_string() },
            ResponseItem::AssistantMessage { content: "two".to_string() },
            ResponseItem::UserMessage { content: "three".to_string() },
        ]
    );
    assert_eq!(prompt.base_instructions_override, Some("first".to_string()));
}

#[test]
fn test_build_substitutes_base_instructions() {
    let doc = YamlPrompt {
        messages: vec![msg("system", "be {{mood}}")],
        model: None,
    };
    let vars = vec![("mood".to_string(), "brief".to_string())];
    let prompt = doc.to_prompt(&vars).unwrap();
    assert!(prompt.input.is_empty());
    assert_eq!(prompt.base_instructions_override, Some("be brief".to_string()));
}

#[test]
fn test_get_model() {
    let with_model = YamlPrompt { messages: Vec::new(), model: Some("gpt-4".to_string()) };
    assert_eq!(with_model.get_model(), Some("gpt-4"));
    let without_model = YamlPrompt { messages: Vec::new(), model: None };
    assert_eq!(without_model.get_model(), None);
}

#[test]
fn test_error_messages() {
    assert_eq!(
        CodexErr::UnsupportedRole("tool".to_string()).message(),
        "Unsupported message role: tool"
    );
    assert_eq!(
        CodexErr::Io("missing.yml: not found".to_string()).message(),
        "Failed to read YAML prompt file: missing.yml: not found"
    );
    assert_eq!(
        CodexErr::Parse("bad indent".to_string()).message(),
        "Failed to parse YAML prompt: bad indent"
    );
}

#[test]
fn test_prompt_default_is_empty() {
    let prompt = Prompt::default();
    assert!(prompt.input.is_empty());
    assert_eq!(prompt.base_instructions_override, None);
}
