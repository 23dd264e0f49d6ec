use cargo_image_runner::config::Config;
use cargo_image_runner::context::Context;
use cargo_image_runner::template::TemplateProcessor;
use std::collections::HashMap;

#[test]
fn test_template_double_brace() {
    let mut vars = HashMap::new();
    vars.insert("NAME".to_string(), "test".to_string());
    vars.insert("VALUE".to_string(), "123".to_string());

    let content = "Hello {{NAME}}, value is {{VALUE}}";
    let result = TemplateProcessor::process(content, &vars).unwrap();
    assert_eq!(result, "Hello test, value is 123");
}

#[test]
fn test_template_dollar() {
    let mut vars = HashMap::new();
    vars.insert("VAR".to_string(), "substituted".to_string());

    let content = "This is $VAR";
    let result = TemplateProcessor::process(content, &vars).unwrap();
    assert_eq!(result, "This is substituted");
}

#[test]
fn test_template_mixed() {
    let mut vars = HashMap::new();
    vars.insert("A".to_string(), "alpha".to_string());
    vars.insert("B".to_string(), "beta".to_string());

    let content = "{{A}} and $B";
    let result = TemplateProcessor::process(content, &vars).unwrap();
    assert_eq!(result, "alpha and beta");
}

#[test]
fn test_template_no_vars() {
    let vars = HashMap::new();
    let content = "Hello, world!";
    let result = TemplateProcessor::process(content, &vars).unwrap();
    assert_eq!(result, "Hello, world!");
}

#[test]
fn test_template_empty_content() {
    let vars = HashMap::new();
    let result = TemplateProcessor::process("", &vars).unwrap();
    assert_eq!(result, "");
}

#[test]
fn test_template_unknown_var_preserved() {
    let mut vars = HashMap::new();
    vars.insert("KNOWN".to_string(), "value".to_string());

    let content = "{{KNOWN}} and {{UNKNOWN}}";
    let result = TemplateProcessor::process(content, &vars).unwrap();
    assert_eq!(result, "value and {{UNKNOWN}}");
}

#[test]
fn test_template_repeated_var() {
    let mut vars = HashMap::new();
    vars.insert("X".to_string(), "42".to_string());

    let content = "{{X}} + {{X}} = 2*{{X}}";
    let result = TemplateProcessor::process(content, &vars).unwrap();
    assert_eq!(result, "42 + 42 = 2*42");
}

#[test]
fn test_template_multiline() {
    let mut vars = HashMap::new();
    vars.insert("TIMEOUT".to_string(), "5".to_string());
    vars.insert("EXECUTABLE_NAME".to_string(), "kernel.elf".to_string());
    vars.insert("CMDLINE".to_string(), "quiet".to_string());

    let content = "timeout: {{TIMEOUT}}\n\n/My Kernel\n    protocol: limine\n    kernel_path: boot():/boot/{{EXECUTABLE_NAME}}\n    cmdline: {{CMDLINE}}";
    let result = TemplateProcessor::process(content, &vars).unwrap();
    assert_eq!(
        result,
        "timeout: 5\n\n/My Kernel\n    protocol: limine\n    kernel_path: boot():/boot/kernel.elf\n    cmdline: quiet"
    );
}

#[test]
fn test_template_with_limine_config() {
    let mut vars = HashMap::new();
    vars.insert("TIMEOUT".to_string(), "5".to_string());
    vars.insert("EXECUTABLE_NAME".to_string(), "my-kernel".to_string());

    let template = r#"timeout: {{TIMEOUT}}

/My Kernel
    protocol: limine
    kernel_path: boot():/boot/{{EXECUTABLE_NAME}}
"#;

    let result = TemplateProcessor::process(template, &vars).unwrap();
    assert_eq!(
        result,
        "timeout: 5\n\n/My Kernel\n    protocol: limine\n    kernel_path: boot():/boot/my-kernel\n"
    );
}

#[test]
fn test_template_with_all_builtin_vars() {
    let root = "/tmp/ws".to_string();
    let exe = "/tmp/ws/test-kernel".to_string();
    let ctx = Context::new(Config::default(), root.clone(), exe.clone(), &Vec::new());

    let template = "exe={{EXECUTABLE}} name={{EXECUTABLE_NAME}} root={{WORKSPACE_ROOT}} out={{OUTPUT_DIR}} test={{IS_TEST}}";
    let result = TemplateProcessor::process(template, &ctx.template_vars).unwrap();

    assert!(result.contains(&format!("exe={}", exe)));
    assert!(result.contains("name=test-kernel"));
    assert!(result.contains(&format!("root={}", root)));
    assert!(result.contains(&format!("out={}", "/tmp/ws/target/image-runner/output")));
    assert!(result.contains("test=0"));
}

#[test]
fn test_template_dollar_syntax() {
    let mut vars = HashMap::new();
    vars.insert("VERSION".to_string(), "1.0".to_string());

    let result = TemplateProcessor::process("v$VERSION", &vars).unwrap();
    assert_eq!(result, "v1.0");
}

#[test]
fn test_template_user_variables_from_config() {
    let mut config = Config::default();
    config.variables.insert("CUSTOM_VAR".to_string(), "custom_value".to_string());

    let ctx = Context::new(config, "/tmp/ws".to_string(), "/tmp/ws/kernel".to_string(), &Vec::new());

    let result = TemplateProcessor::process("{{CUSTOM_VAR}}", &ctx.template_vars).unwrap();
    assert_eq!(result, "custom_value");
}

#[test]
fn ordered_substitution_braces_before_dollars() {
    let vars = vec![
        ("A".to_string(), "$B".to_string()),
        ("B".to_string(), "x".to_string()),
    ];
    // {{A}} becomes "$B", which the dollar pass then fills
    assert_eq!(TemplateProcessor::process_ordered("{{A}}-$A", &vars), "x-x");
    assert_eq!(TemplateProcessor::process_ordered("$$A{{", &vars), "$x{{");
}
