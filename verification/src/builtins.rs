//! Built-in capabilities: the clock tool, and the calculator's schema.
//!
//! The calculator's expression evaluator works in floating point and lives
//! with the host application; its schema and validation contract are
//! defined here so that callers and prompts can describe it.

use vstd::prelude::*;
use vstd::string::StringExecFns;

use crate::errors::AgentError;
use crate::json::JsonValue;
use crate::json::lookup;
use crate::json::spec_lookup;
use crate::outside::fmt_long_form;
use crate::outside::fmt_rfc3339;
use crate::outside::long_form_of;
use crate::outside::now_micros;
use crate::outside::rfc3339_of;
use crate::strutil::spec_i64_string;
use crate::strutil::i64_to_string;
use crate::strutil::str_eq;
use crate::tool::ParamView;
use crate::tool::ParameterSchema;
use crate::tool::SchemaView;
use crate::tool::Tool;
use crate::tool::ToolCall;
use crate::tool::ToolResult;
use crate::tool::ToolSchema;

verus! {

/// The format argument chosen for the clock tool: the `format` argument's
/// text when it is a string, else the default.
pub open spec fn spec_chosen_format(fmt_arg: Option<JsonValue>) -> Seq<char> {
    match fmt_arg {
        Some(JsonValue::Text(s)) => s@,
        _ => "human"@,
    }
}

/// What the clock tool prints for a given timestamp and format argument.
pub open spec fn spec_render_time(now: int, fmt_arg: Option<JsonValue>) -> Seq<char> {
    let c = spec_chosen_format(fmt_arg);
    if c == "iso"@ {
        rfc3339_of(now)
    } else if c == "unix"@ {
        spec_i64_string(now / 1000000)
    } else {
        long_form_of(now)
    }
}

/// Whole seconds of a microsecond timestamp, rounding toward minus
/// infinity.
fn secs_of_micros(m: i64) -> (r: i64)
    ensures
        r as int == (m as int) / 1000000,
{
    let q = m / 1_000_000;
    if m >= 0 {
        q
    } else {
        if q * 1_000_000 == m {
            q
        } else {
            q - 1
        }
    }
}

/// Render the current-time output for a sampled timestamp and the call's
/// `format` argument.
pub fn render_time(now: i64, fmt: Option<&JsonValue>) -> (r: String)
    ensures
        r@ == spec_render_time(
            now as int,
            match fmt {
                Some(v) => Some(*v),
                None => None,
            },
        ),
{
    let chosen: &str = match fmt {
        Some(v) => match v {
            JsonValue::Text(s) => s.as_str(),
            _ => "human",
        },
        None => "human",
    };
    if str_eq(chosen, "iso") {
        fmt_rfc3339(now)
    } else if str_eq(chosen, "unix") {
        i64_to_string(secs_of_micros(now))
    } else {
        fmt_long_form(now)
    }
}

/// The clock tool: reports the current date and time.
pub struct DateTimeTool;

impl Tool for DateTimeTool {
    open spec fn spec_schema(&self) -> SchemaView {
        SchemaView {
            name: "datetime"@,
            description: "Get the current date and time"@,
            parameters: seq![
                ParamView {
                    name: "format"@,
                    param_type: "string"@,
                    description: "Output format: 'iso', 'human', or 'unix'"@,
                    required: false,
                },
                ParamView {
                    name: "timezone"@,
                    param_type: "string"@,
                    description: "Timezone (default: UTC)"@,
                    required: false,
                },
            ],
            category: Some("time"@),
            has_side_effects: false,
        }
    }

    fn schema(&self) -> (r: ToolSchema) {
        let mut parameters: Vec<ParameterSchema> = Vec::new();
        parameters.push(
            ParameterSchema {
                name: String::from_str("format"),
                param_type: String::from_str("string"),
                description: String::from_str("Output format: 'iso', 'human', or 'unix'"),
                required: false,
                default: Some(JsonValue::Text(String::from_str("human"))),
                enum_values: Some(
                    vec![
                        JsonValue::Text(String::from_str("iso")),
                        JsonValue::Text(String::from_str("human")),
                        JsonValue::Text(String::from_str("unix")),
                    ],
                ),
            },
        );
        parameters.push(
            ParameterSchema {
                name: String::from_str("timezone"),
                param_type: String::from_str("string"),
                description: String::from_str("Timezone (default: UTC)"),
                required: false,
                default: Some(JsonValue::Text(String::from_str("UTC"))),
                enum_values: None,
            },
        );
        let r = ToolSchema {
            name: String::from_str("datetime"),
            description: String::from_str("Get the current date and time"),
            parameters,
            category: Some(String::from_str("time")),
            has_side_effects: false,
        };
        proof {
            assert(r@.parameters[0] =~= self.spec_schema().parameters[0]);
            assert(r@.parameters[1] =~= self.spec_schema().parameters[1]);
            assert(r@.parameters =~= self.spec_schema().parameters);
            assert(r@ =~= self.spec_schema());
        }
        r
    }

    /// Samples the clock once, then renders it in the requested format.
    fn execute(&self, call: &ToolCall) -> (r: Result<ToolResult, AgentError>)
        ensures
            r matches Ok(res) && {
                &&& res.success
                &&& res.name@ == "datetime"@
                &&& res.id is None
                &&& res.data is None
                &&& exists|t: int|
                    res.output@ == spec_render_time(
                        t,
                        spec_lookup(call.arguments@, "format"@),
                    )
            },
    {
        let now = now_micros();
        let fmt = lookup(&call.arguments, "format");
        let output = render_time(now, fmt);
        let res = ToolResult::success("datetime", output.as_str());
        proof {
            assert(res.output@ == spec_render_time(
                now as int,
                spec_lookup(call.arguments@, "format"@),
            ));
        }
        Ok(res)
    }
}

/// The calculator's capability schema.  Its evaluator is supplied by the
/// host application.
pub struct CalculatorTool;

impl CalculatorTool {
    /// The abstract schema of the calculator.
    pub open spec fn spec_schema(&self) -> SchemaView {
        SchemaView {
            name: "calculate"@,
            description: "Evaluate a mathematical expression"@,
            parameters: seq![
                ParamView {
                    name: "expression"@,
                    param_type: "string"@,
                    description: "Mathematical expression to evaluate (e.g., '2 + 2', '10 * 5')"@,
                    required: true,
                },
            ],
            category: Some("math"@),
            has_side_effects: false,
        }
    }

    /// Get the calculator's schema for capability description.
    pub fn schema(&self) -> (r: ToolSchema)
        ensures
            r@ == self.spec_schema(),
    {
        let mut parameters: Vec<ParameterSchema> = Vec::new();
        parameters.push(
            ParameterSchema {
                name: String::from_str("expression"),
                param_type: String::from_str("string"),
                description: String::from_str(
                    "Mathematical expression to evaluate (e.g., '2 + 2', '10 * 5')",
                ),
                required: true,
                default: None,
                enum_values: None,
            },
        );
        let r = ToolSchema {
            name: String::from_str("calculate"),
            description: String::from_str("Evaluate a mathematical expression"),
            parameters,
            category: Some(String::from_str("math")),
            has_side_effects: false,
        };
        proof {
            assert(r@.parameters[0] =~= self.spec_schema().parameters[0]);
            assert(r@.parameters =~= self.spec_schema().parameters);
            assert(r@ =~= self.spec_schema());
        }
        r
    }
}

} // verus!
