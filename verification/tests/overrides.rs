use yaml_prompt::overrides::prepend_config_flags;
use yaml_prompt::overrides::CliConfigOverrides;

#[test]
fn test_merge_puts_global_overrides_first() {
    let mut mode_scope = CliConfigOverrides {
        raw_overrides: vec!["model=o3".to_string(), "sandbox=on".to_string()],
    };
    let global = CliConfigOverrides { raw_overrides: vec!["model=o4".to_string()] };
    prepend_config_flags(&mut mode_scope, global);
    assert_eq!(
        mode_scope.raw_overrides,
        vec!["model=o4".to_string(), "model=o3".to_string(), "sandbox=on".to_string()]
    );
}

#[test]
fn test_merge_with_empty_lists() {
    let mut mode_scope = CliConfigOverrides { raw_overrides: Vec::new() };
    let global = CliConfigOverrides { raw_overrides: vec!["a=1".to_string()] };
    prepend_config_flags(&mut mode_scope, global);
    assert_eq!(mode_scope.raw_overrides, vec!["a=1".to_string()]);

    let mut mode_scope = CliConfigOverrides { raw_overrides: vec!["b=2".to_string()] };
    let global = CliConfigOverrides { raw_overrides: Vec::new() };
    prepend_config_flags(&mut mode_scope, global);
    assert_eq!(mode_scope.raw_overrides, vec!["b=2".to_string()]);
}
