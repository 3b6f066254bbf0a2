use agent_core::builtins::CalculatorTool;
use agent_core::builtins::DateTimeTool;
use agent_core::errors::AgentError;
use agent_core::json::JsonValue;
use agent_core::tool::Tool;
use agent_core::tool::ToolCall;
use agent_core::tool::ToolRegistry;
use agent_core::tool::ToolSchema;
use agent_core::tool::validate_against;
use agent_core::builtins::render_time;

/// A registry entry that is either the clock tool or the calculator's
/// schema with a stand-in evaluator.
enum TestTool {
    Clock(DateTimeTool),
    Calc(CalculatorTool),
}

impl Tool for TestTool {
    // Ghost member of the verified trait; never called at run time.
    fn spec_schema(&self) -> agent_core::tool::SchemaView {
        unreachable!()
    }

    fn schema(&self) -> ToolSchema {
        match self {
            TestTool::Clock(t) => t.schema(),
            TestTool::Calc(t) => t.schema(),
        }
    }

    fn execute(&self, call: &ToolCall) -> Result<agent_core::tool::ToolResult, AgentError> {
        match self {
            TestTool::Clock(t) => t.execute(call),
            TestTool::Calc(_) => Err(AgentError::ToolExecution(
                "no evaluator attached in this test".to_string(),
            )),
        }
    }
}

fn call(name: &str, arguments: Vec<(String, JsonValue)>) -> ToolCall {
    ToolCall { name: name.to_string(), arguments, id: None }
}

#[test]
fn test_tool_registry() {
    let mut registry: ToolRegistry<TestTool> = ToolRegistry::new();
    registry.register(TestTool::Clock(DateTimeTool));
    registry.register(TestTool::Calc(CalculatorTool));

    assert_eq!(registry.len(), 2);
    assert!(registry.get("datetime").is_some());
    assert!(registry.get("calculate").is_some());
    assert!(registry.get("unknown").is_none());
}

#[test]
fn test_execute_unregistered_name_is_tool_not_found() {
    let mut registry: ToolRegistry<TestTool> = ToolRegistry::new();
    registry.register(TestTool::Clock(DateTimeTool));

    let r = registry.execute(&call("nope", Vec::new()));
    assert_eq!(r.unwrap_err(), AgentError::ToolNotFound("nope".to_string()));
}

#[test]
fn test_execute_missing_required_argument_is_validation_error() {
    let mut registry: ToolRegistry<TestTool> = ToolRegistry::new();
    registry.register(TestTool::Calc(CalculatorTool));

    let r = registry.execute(&call("calculate", Vec::new()));
    assert_eq!(
        r.unwrap_err(),
        AgentError::ToolValidation("Missing required parameter: expression".to_string())
    );
}

#[test]
fn test_validate_names_first_missing_parameter() {
    let schema = CalculatorTool.schema();
    let empty = call("calculate", Vec::new());
    match validate_against(&schema, &empty) {
        Err(AgentError::ToolValidation(msg)) => {
            assert!(msg.contains("expression"));
        }
        other => panic!("expected a validation error, got {:?}", other),
    }

    let ok = call(
        "calculate",
        vec![("expression".to_string(), JsonValue::Text("2 + 2".to_string()))],
    );
    assert!(validate_against(&schema, &ok).is_ok());
}

#[test]
fn test_optional_parameters_pass_validation() {
    let schema = DateTimeTool.schema();
    let empty = call("datetime", Vec::new());
    assert!(validate_against(&schema, &empty).is_ok());
}

#[test]
fn test_registry_overwrites_on_same_name() {
    let mut registry: ToolRegistry<TestTool> = ToolRegistry::new();
    registry.register(TestTool::Clock(DateTimeTool));
    registry.register(TestTool::Clock(DateTimeTool));
    assert_eq!(registry.len(), 1);
    assert_eq!(registry.names(), vec!["datetime"]);
}

#[test]
fn test_prompt_section_lists_tools_deterministically() {
    let mut registry: ToolRegistry<TestTool> = ToolRegistry::new();
    registry.register(TestTool::Clock(DateTimeTool));
    registry.register(TestTool::Calc(CalculatorTool));

    let a = registry.generate_prompt_section();
    let b = registry.generate_prompt_section();
    assert_eq!(a, b);
    assert!(a.starts_with("## Available Tools\n\n"));
    let dt = a.find("### datetime").expect("datetime section");
    let calc = a.find("### calculate").expect("calculate section");
    assert!(dt < calc);
    assert!(a.contains("- `expression` (string) (required): "));
    assert!(a.contains("- `format` (string): "));
}

#[test]
fn test_render_time_formats_a_fixed_instant() {
    let unix = render_time(0, Some(&JsonValue::Text("unix".to_string())));
    assert_eq!(unix, "0");
    let unix_neg = render_time(-1_000_000, Some(&JsonValue::Text("unix".to_string())));
    assert_eq!(unix_neg, "-1");

    let iso = render_time(0, Some(&JsonValue::Text("iso".to_string())));
    assert!(iso.starts_with("1970-01-01T00:00:00"));
    assert!(iso.ends_with("+00:00"));

    // A non-string format argument falls back to the human rendering.
    let human = render_time(0, Some(&JsonValue::Num("3".to_string())));
    assert_eq!(human, "Thursday, January 01, 1970 at 00:00:00 UTC");
}

#[test]
fn test_datetime_tool_executes() {
    let t = DateTimeTool;
    let unix = call(
        "datetime",
        vec![("format".to_string(), JsonValue::Text("unix".to_string()))],
    );
    let r = t.execute(&unix).unwrap();
    assert!(r.success);
    assert_eq!(r.name, "datetime");
    // A current Unix timestamp: all digits, and in a plausible range.
    let secs: i64 = r.output.parse().expect("numeric output");
    assert!(secs > 1_600_000_000);

    let iso = call(
        "datetime",
        vec![("format".to_string(), JsonValue::Text("iso".to_string()))],
    );
    let iso_out = t.execute(&iso).unwrap().output;
    assert!(iso_out.contains('T'));
    assert!(iso_out.contains("+00:00"));

    let human = t.execute(&call("datetime", Vec::new())).unwrap().output;
    assert!(human.contains("UTC"));
}
