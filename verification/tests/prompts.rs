use ddd_tool::prompts::{render, PromptParams};

#[test]
fn test_render_basic() {
    let template = "Hello {context}";
    let params = PromptParams::new().with_context("world".to_string());
    let result = render(template, &params).unwrap();
    assert_eq!(result, "Hello world");
}

#[test]
fn test_render_all_placeholders() {
    let template = "{context} {file} {Phase Name} {plan_file} {name}";
    let params = PromptParams::new()
        .with_context("c".to_string())
        .with_file("f".to_string())
        .with_phase_name("pn".to_string())
        .with_plan_file("pf".to_string())
        .with_name("n".to_string());
    let result = render(template, &params).unwrap();
    assert_eq!(result, "c f pn pf n");
}

#[test]
fn test_render_missing_context() {
    let template = "Hello {context}!";
    let params = PromptParams::new();
    let result = render(template, &params);
    assert!(result.is_err());
    assert_eq!(result.unwrap_err(), "Missing required parameter: {context}");
}

#[test]
fn test_render_partial_missing() {
    let template = "File: {file}, Name: {name}";
    let params = PromptParams::new().with_file("test.rs".to_string());
    let result = render(template, &params);
    assert!(result.is_err());
    assert_eq!(result.unwrap_err(), "Missing required parameter: {name}");
}

#[test]
fn test_render_all_provided() {
    let template = "Context: {context}, File: {file}, Name: {name}";
    let params = PromptParams::new()
        .with_context("test context".to_string())
        .with_file("test.rs".to_string())
        .with_name("test".to_string());
    let result = render(template, &params);
    assert!(result.is_ok());
    assert_eq!(result.unwrap(), "Context: test context, File: test.rs, Name: test");
}

#[test]
fn test_render_no_placeholders() {
    let template = "Hello world!";
    let params = PromptParams::new();
    let result = render(template, &params).unwrap();
    assert_eq!(result, "Hello world!");
}

#[test]
fn render_replaces_every_occurrence() {
    let params = PromptParams::new().with_name("X".to_string());
    assert_eq!(render("{name}-{name}{name}", &params).unwrap(), "X-XX");
}

#[test]
fn render_reports_the_first_missing_placeholder_in_checking_order() {
    let template = "{name} {plan_file} {Phase Name} {file}";
    let result = render(template, &PromptParams::new());
    assert_eq!(result.unwrap_err(), "Missing required parameter: {file}");
    let params = PromptParams::new().with_file("f".to_string());
    assert_eq!(render(template, &params).unwrap_err(), "Missing required parameter: {Phase Name}");
}

#[test]
fn render_fills_values_that_hold_later_placeholders() {
    let params = PromptParams::new()
        .with_context("{name}".to_string())
        .with_name("N".to_string());
    assert_eq!(render("[{context}]", &params).unwrap(), "[N]");
}

#[test]
fn render_ignores_unused_parameters_and_unknown_braces() {
    let params = PromptParams::new().with_plan_file("p".to_string());
    assert_eq!(render("{idx} {Phrase Name}", &params).unwrap(), "{idx} {Phrase Name}");
}

#[test]
fn render_handles_non_ascii_text() {
    let params = PromptParams::new().with_name("阶段1".to_string());
    assert_eq!(render("开始{name}的开发", &params).unwrap(), "开始阶段1的开发");
}

#[test]
fn render_with_every_parameter_never_fails() {
    let params = PromptParams::new()
        .with_context("a".to_string())
        .with_file("b".to_string())
        .with_phase_name("c".to_string())
        .with_plan_file("d".to_string())
        .with_name("e".to_string());
    assert!(render("{context}{file}{Phase Name}{plan_file}{name}{x}", &params).is_ok());
}
