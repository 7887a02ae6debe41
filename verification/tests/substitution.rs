use yaml_prompt::substitution::substitute_template_vars;

#[test]
fn test_template_substitution() {
    let mut vars: Vec<(String, String)> = Vec::new();
    vars.push(("input".to_string(), "test input".to_string()));
    vars.push(("name".to_string(), "Alice".to_string()));

    let content = "Hello {{name}}, process this: {{input}}";
    let result = substitute_template_vars(content, &vars);

    assert_eq!(result, "Hello Alice, process this: test input");
}

#[test]
fn test_no_placeholders_unchanged() {
    let vars = vec![("input".to_string(), "payload".to_string())];
    let content = "plain text without any placeholder";
    assert_eq!(substitute_template_vars(content, &vars), content);
}

#[test]
fn test_substitute_twice_is_noop() {
    let vars = vec![
        ("name".to_string(), "Alice".to_string()),
        ("input".to_string(), "data".to_string()),
    ];
    let once = substitute_template_vars("Hello {{name}}: {{input}}", &vars);
    let twice = substitute_template_vars(&once, &vars);
    assert_eq!(twice, once);
}

#[test]
fn test_unknown_placeholder_left_verbatim() {
    let vars = vec![("name".to_string(), "Alice".to_string())];
    let result = substitute_template_vars("keep {{unknown}}, greet {{name}}", &vars);
    assert_eq!(result, "keep {{unknown}}, greet Alice");
}

#[test]
fn test_empty_variable_list() {
    let vars: Vec<(String, String)> = Vec::new();
    let content = "untouched {{input}}";
    assert_eq!(substitute_template_vars(content, &vars), content);
}

#[test]
fn test_repeated_placeholder() {
    let vars = vec![("x".to_string(), "ab".to_string())];
    assert_eq!(substitute_template_vars("{{x}}-{{x}}{{x}}", &vars), "ab-abab");
}
