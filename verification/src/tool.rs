//! The tool contract and registry: capabilities are described by a
//! declarative schema, validated by presence-checking required parameters,
//! and dispatched by name with validate-then-execute discipline.

use vstd::prelude::*;
use vstd::string::StringExecFns;

use crate::errors::AgentError;
use crate::json::JsonValue;
use crate::json::spec_has_key;
use crate::json::has_key;
use crate::strutil::str_eq;

verus! {

/// Tool call request parsed from model output.
#[derive(Clone, Debug)]
pub struct ToolCall {
    /// Tool identifier
    pub name: String,
    /// Arguments as key-value pairs (keys unique)
    pub arguments: Vec<(String, JsonValue)>,
    /// Optional call ID for tracking
    pub id: Option<String>,
}

/// Result from tool execution.
#[derive(Clone, Debug)]
pub struct ToolResult {
    /// Tool that was called
    pub name: String,
    /// Call ID (if provided in request)
    pub id: Option<String>,
    /// Whether execution succeeded
    pub success: bool,
    /// Output (success message or error)
    pub output: String,
    /// Structured data (if applicable)
    pub data: Option<JsonValue>,
}

impl ToolResult {
    /// A successful result with the given output text.
    pub fn success(name: &str, output: &str) -> (r: Self)
        ensures
            r.name@ == name@,
            r.id is None,
            r.success,
            r.output@ == output@,
            r.data is None,
    {
        ToolResult {
            name: String::from_str(name),
            id: None,
            success: true,
            output: String::from_str(output),
            data: None,
        }
    }

    /// A failed result carrying the error text.
    pub fn failure(name: &str, error: &str) -> (r: Self)
        ensures
            r.name@ == name@,
            r.id is None,
            !r.success,
            r.output@ == error@,
            r.data is None,
    {
        ToolResult {
            name: String::from_str(name),
            id: None,
            success: false,
            output: String::from_str(error),
            data: None,
        }
    }

    /// Attach structured data.
    pub fn with_data(self, data: JsonValue) -> (r: Self)
        ensures
            r.name == self.name,
            r.id == self.id,
            r.success == self.success,
            r.output == self.output,
            r.data == Some(data),
    {
        ToolResult { data: Some(data), ..self }
    }

    /// Attach a call id.
    pub fn with_id(self, id: &str) -> (r: Self)
        ensures
            r.name == self.name,
            r.id matches Some(s) && s@ == id@,
            r.success == self.success,
            r.output == self.output,
            r.data == self.data,
    {
        ToolResult { id: Some(String::from_str(id)), ..self }
    }
}

/// The abstract content of a parameter declaration.
#[verifier::ext_equal]
pub struct ParamView {
    pub name: Seq<char>,
    pub param_type: Seq<char>,
    pub description: Seq<char>,
    pub required: bool,
}

/// Parameter definition for a tool schema.
#[derive(Clone, Debug)]
pub struct ParameterSchema {
    /// Parameter name
    pub name: String,
    /// Type tag (string, number, boolean, object, array)
    pub param_type: String,
    /// Human-readable description
    pub description: String,
    /// Whether this parameter is required
    pub required: bool,
    /// Default value if not provided
    pub default: Option<JsonValue>,
    /// Enumeration of allowed values
    pub enum_values: Option<Vec<JsonValue>>,
}

impl View for ParameterSchema {
    type V = ParamView;

    open spec fn view(&self) -> ParamView {
        ParamView {
            name: self.name@,
            param_type: self.param_type@,
            description: self.description@,
            required: self.required,
        }
    }
}

/// The abstract content of a tool schema: what validation and capability
/// description depend on.  Parameter defaults and enumerations are
/// impl-specific extras, stated by the individual tools.
#[verifier::ext_equal]
pub struct SchemaView {
    pub name: Seq<char>,
    pub description: Seq<char>,
    pub parameters: Seq<ParamView>,
    pub category: Option<Seq<char>>,
    pub has_side_effects: bool,
}

/// Tool definition schema, shown to the model for capability description.
#[derive(Clone, Debug)]
pub struct ToolSchema {
    /// Unique tool identifier
    pub name: String,
    /// Human-readable description (shown to the model)
    pub description: String,
    /// Parameter definitions
    pub parameters: Vec<ParameterSchema>,
    /// Category for grouping
    pub category: Option<String>,
    /// Whether the tool has side effects
    pub has_side_effects: bool,
}

impl View for ToolSchema {
    type V = SchemaView;

    open spec fn view(&self) -> SchemaView {
        SchemaView {
            name: self.name@,
            description: self.description@,
            parameters: self.parameters@.map(|i: int, p: ParameterSchema| p@),
            category: match self.category {
                Some(c) => Some(c@),
                None => None,
            },
            has_side_effects: self.has_side_effects,
        }
    }
}

/// The index of the first required parameter that is absent from the
/// arguments, if any.
pub open spec fn spec_first_missing(
    params: Seq<ParamView>,
    args: Seq<(String, JsonValue)>,
) -> Option<int>
    decreases params.len(),
{
    if params.len() == 0 {
        None
    } else if params[0].required && !spec_has_key(args, params[0].name) {
        Some(0)
    } else {
        match spec_first_missing(params.drop_first(), args) {
            Some(k) => Some(k + 1),
            None => None,
        }
    }
}

/// Whether a parameter is required but absent from the arguments.
pub open spec fn spec_param_missing(p: ParamView, args: Seq<(String, JsonValue)>) -> bool {
    p.required && !spec_has_key(args, p.name)
}

/// A prefix free of missing required parameters pins the first missing
/// index down.
proof fn lemma_first_missing_at(params: Seq<ParamView>, args: Seq<(String, JsonValue)>, i: int)
    requires
        0 <= i <= params.len(),
        forall|j: int| 0 <= j < i ==> !spec_param_missing(#[trigger] params[j], args),
    ensures
        i == params.len() ==> spec_first_missing(params, args) is None,
        i < params.len() && spec_param_missing(params[i], args) ==> spec_first_missing(
            params,
            args,
        ) == Some(i),
    decreases params.len(),
{
    if params.len() > 0 && i > 0 {
        assert(!spec_param_missing(params[0], args));
        assert(forall|j: int|
            0 <= j < i - 1 ==> params.drop_first()[j] == params[j + 1]
                && !spec_param_missing(#[trigger] params.drop_first()[j], args));
        lemma_first_missing_at(params.drop_first(), args, i - 1);
        if i < params.len() {
            assert(params.drop_first()[i - 1] == params[i]);
        }
    }
}

/// The message text of a validation failure for a missing parameter.
pub open spec fn spec_missing_message(name: Seq<char>) -> Seq<char> {
    "Missing required parameter: "@ + name
}

/// What a correct `validate` returns: `Ok` exactly when no required
/// parameter is missing, and otherwise a `ToolValidation` error naming the
/// first missing parameter.
pub open spec fn spec_validate_result(
    schema: SchemaView,
    args: Seq<(String, JsonValue)>,
    r: Result<(), AgentError>,
) -> bool {
    match spec_first_missing(schema.parameters, args) {
        None => r is Ok,
        Some(k) => r matches Err(AgentError::ToolValidation(msg)) && msg@ == spec_missing_message(
            schema.parameters[k].name,
        ),
    }
}

/// Tool trait: implement to add a new capability.
pub trait Tool {
    /// The abstract schema of the tool; fixed for a given tool value.
    spec fn spec_schema(&self) -> SchemaView;

    /// Get the tool's schema for capability description.
    fn schema(&self) -> (r: ToolSchema)
        ensures
            r@ == self.spec_schema(),
    ;

    /// Execute the tool with the given arguments.
    fn execute(&self, call: &ToolCall) -> (r: Result<ToolResult, AgentError>);

    /// Validate arguments before execution: every schema parameter marked
    /// required must be present, by name, in the call's arguments.  This is
    /// presence-checking only; value correctness is the tool's own concern.
    fn validate(&self, call: &ToolCall) -> (r: Result<(), AgentError>)
        ensures
            spec_validate_result(self.spec_schema(), call.arguments@, r),
    {
        let schema = self.schema();
        validate_against(&schema, call)
    }
}

/// Check a call's arguments against a schema: fail with `ToolValidation`
/// naming the first required parameter absent from the arguments.
pub fn validate_against(schema: &ToolSchema, call: &ToolCall) -> (r: Result<(), AgentError>)
    ensures
        spec_validate_result(schema@, call.arguments@, r),
{
    let n = schema.parameters.len();
    let mut i: usize = 0;
    while i < n
        invariant
            n == schema.parameters@.len(),
            0 <= i <= n,
            forall|j: int|
                0 <= j < i ==> !spec_param_missing(#[trigger] schema@.parameters[j], call.arguments@),
        decreases n - i,
    {
        let p = &schema.parameters[i];
        if p.required && !has_key(&call.arguments, p.name.as_str()) {
            proof {
                lemma_first_missing_at(schema@.parameters, call.arguments@, i as int);
            }
            let mut msg = String::from_str("Missing required parameter: ");
            msg.append(p.name.as_str());
            return Err(AgentError::ToolValidation(msg));
        }
        i = i + 1;
    }
    proof {
        lemma_first_missing_at(schema@.parameters, call.arguments@, n as int);
    }
    Ok(())
}

/// Find the first entry with the given name.
pub open spec fn spec_find_entry<T>(s: Seq<(Seq<char>, T)>, name: Seq<char>) -> Option<int>
    decreases s.len(),
{
    if s.len() == 0 {
        None
    } else if s[0].0 == name {
        Some(0)
    } else {
        match spec_find_entry(s.drop_first(), name) {
            Some(k) => Some(k + 1),
            None => None,
        }
    }
}

/// A name-free prefix pins the found index down.
proof fn lemma_find_entry_at<T>(s: Seq<(Seq<char>, T)>, name: Seq<char>, i: int)
    requires
        0 <= i <= s.len(),
        forall|j: int| 0 <= j < i ==> (#[trigger] s[j]).0 != name,
    ensures
        i == s.len() ==> spec_find_entry(s, name) is None,
        i < s.len() && s[i].0 == name ==> spec_find_entry(s, name) == Some(i),
    decreases s.len(),
{
    if s.len() > 0 && i > 0 {
        assert(forall|j: int| 0 <= j < i - 1 ==> (#[trigger] s.drop_first()[j]) == s[j + 1]);
        lemma_find_entry_at(s.drop_first(), name, i - 1);
        if i < s.len() {
            assert(s.drop_first()[i - 1] == s[i]);
        }
    }
}

/// Registry for available tools: a name-keyed mapping with last-write-wins
/// registration and validate-then-execute dispatch.
///
/// The view of a registry is its entry sequence, in registration order;
/// iteration order is therefore deterministic within a process lifetime.
pub struct ToolRegistry<T: Tool> {
    entries: Vec<(String, T)>,
}

impl<T: Tool> View for ToolRegistry<T> {
    type V = Seq<(Seq<char>, T)>;

    closed spec fn view(&self) -> Seq<(Seq<char>, T)> {
        self.entries@.map(|i: int, e: (String, T)| (e.0@, e.1))
    }
}

impl<T: Tool> Default for ToolRegistry<T> {
    /// An empty registry.
    fn default() -> (r: Self)
        ensures
            r@.len() == 0,
            r.wf(),
    {
        ToolRegistry { entries: Vec::new() }
    }
}

impl<T: Tool> ToolRegistry<T> {
    /// Entry names are unique, and each entry is keyed by its tool's own
    /// schema name.
    pub open spec fn wf(&self) -> bool {
        &&& forall|i: int, j: int|
            0 <= i < j < self@.len() ==> (#[trigger] self@[i]).0 != (#[trigger] self@[j]).0
        &&& forall|i: int|
            0 <= i < self@.len() ==> (#[trigger] self@[i]).1.spec_schema().name == self@[i].0
    }

    /// Whether a tool with this name is registered.
    pub open spec fn spec_contains(&self, name: Seq<char>) -> bool {
        exists|i: int| 0 <= i < self@.len() && (#[trigger] self@[i]).0 == name
    }

    /// The registered tool under this name, if any.
    pub open spec fn spec_get(&self, name: Seq<char>) -> Option<T> {
        match spec_find_entry(self@, name) {
            Some(k) => Some(self@[k].1),
            None => None,
        }
    }

    /// An empty registry.
    pub fn new() -> (r: Self)
        ensures
            r@.len() == 0,
            r.wf(),
    {
        ToolRegistry { entries: Vec::new() }
    }

    /// The index of the entry with this name, if any.
    fn find_index(&self, name: &str) -> (r: Option<usize>)
        ensures
            match r {
                Some(k) => spec_find_entry(self@, name@) == Some(k as int) && k < self@.len()
                    && self@[k as int].0 == name@,
                None => spec_find_entry(self@, name@) is None,
            },
    {
        let n = self.entries.len();
        let mut i: usize = 0;
        while i < n
            invariant
                n == self@.len(),
                n == self.entries@.len(),
                0 <= i <= n,
                forall|j: int| 0 <= j < i ==> (#[trigger] self@[j]).0 != name@,
            decreases n - i,
        {
            if str_eq(self.entries[i].0.as_str(), name) {
                proof {
                    assert(self@[i as int].0 == name@);
                    lemma_find_entry_at(self@, name@, i as int);
                }
                return Some(i);
            }
            i = i + 1;
        }
        proof {
            lemma_find_entry_at(self@, name@, n as int);
        }
        None
    }

    /// Register a tool under its schema name.  Registering a second tool
    /// under an existing name overwrites the first, in place.
    pub fn register(&mut self, tool: T)
        requires
            old(self).wf(),
        ensures
            final(self).wf(),
            final(self).spec_contains(tool.spec_schema().name),
            match spec_find_entry(old(self)@, tool.spec_schema().name) {
                Some(k) => final(self)@ == old(self)@.update(
                    k,
                    (tool.spec_schema().name, tool),
                ),
                None => final(self)@ == old(self)@.push((tool.spec_schema().name, tool)),
            },
    {
        let schema = tool.schema();
        let existing = self.find_index(schema.name.as_str());
        let ghost pre = self@;
        match existing {
            Some(k) => {
                self.entries.remove(k);
                self.entries.insert(k, (schema.name, tool));
                proof {
                    assert(self@ =~= pre.update(k as int, (tool.spec_schema().name, tool)));
                    lemma_find_entry_bounds(pre, tool.spec_schema().name);
                    assert(self@[k as int].0 == tool.spec_schema().name);
                }
            },
            None => {
                self.entries.push((schema.name, tool));
                proof {
                    assert(self@ =~= pre.push((tool.spec_schema().name, tool)));
                    lemma_find_entry_none_no_name(pre, tool.spec_schema().name);
                    assert(self@[pre.len() as int].0 == tool.spec_schema().name);
                }
            },
        }
    }

    /// Get a tool by name.
    pub fn get(&self, name: &str) -> (r: Option<&T>)
        ensures
            match r {
                Some(t) => spec_find_entry(self@, name@) matches Some(k) && *t == self@[k].1,
                None => spec_find_entry(self@, name@) is None,
            },
    {
        match self.find_index(name) {
            Some(k) => {
                proof {
                    assert(self@[k as int].1 == self.entries@[k as int].1);
                }
                Some(&self.entries[k].1)
            },
            None => None,
        }
    }

    /// Execute a tool call: look the tool up by name, validate the
    /// arguments, and only then run the tool.
    ///
    /// An unregistered name fails with `ToolNotFound`; a missing required
    /// argument fails with `ToolValidation` naming the parameter, and the
    /// tool's own code is never reached in either case.
    pub fn execute(&self, call: &ToolCall) -> (r: Result<ToolResult, AgentError>)
        requires
            self.wf(),
        ensures
            spec_find_entry(self@, call.name@) is None ==> (r matches Err(
                AgentError::ToolNotFound(n),
            ) && n@ == call.name@),
            spec_find_entry(self@, call.name@) matches Some(k) ==> {
                let params = self@[k].1.spec_schema().parameters;
                spec_first_missing(params, call.arguments@) matches Some(m) ==> (r matches Err(
                    AgentError::ToolValidation(msg),
                ) && msg@ == spec_missing_message(params[m].name))
            },
    {
        let tool = match self.get(call.name.as_str()) {
            Some(t) => t,
            None => {
                return Err(AgentError::ToolNotFound(call.name.clone()));
            },
        };
        match tool.validate(call) {
            Ok(()) => tool.execute(call),
            Err(e) => Err(e),
        }
    }

    /// All tool schemas, in registration order.
    pub fn schemas(&self) -> (r: Vec<ToolSchema>)
        ensures
            r@.len() == self@.len(),
            forall|i: int| 0 <= i < r@.len() ==> (#[trigger] r@[i])@ == self@[i].1.spec_schema(),
    {
        let n = self.entries.len();
        let mut out: Vec<ToolSchema> = Vec::new();
        let mut i: usize = 0;
        while i < n
            invariant
                n == self@.len(),
                n == self.entries@.len(),
                0 <= i <= n,
                out@.len() == i,
                forall|j: int|
                    0 <= j < i ==> (#[trigger] out@[j])@ == self@[j].1.spec_schema(),
            decreases n - i,
        {
            out.push(self.entries[i].1.schema());
            i = i + 1;
        }
        out
    }

    /// All tool names, in registration order.
    pub fn names(&self) -> (r: Vec<&str>)
        ensures
            r@.len() == self@.len(),
            forall|i: int| 0 <= i < r@.len() ==> (#[trigger] r@[i])@ == self@[i].0,
    {
        let n = self.entries.len();
        let mut out: Vec<&str> = Vec::new();
        let mut i: usize = 0;
        while i < n
            invariant
                n == self@.len(),
                n == self.entries@.len(),
                0 <= i <= n,
                out@.len() == i,
                forall|j: int| 0 <= j < i ==> (#[trigger] out@[j])@ == self@[j].0,
            decreases n - i,
        {
            out.push(self.entries[i].0.as_str());
            i = i + 1;
        }
        out
    }

    /// Number of registered tools.
    pub fn len(&self) -> (r: usize)
        ensures
            r == self@.len(),
    {
        self.entries.len()
    }

    /// Whether no tool is registered.
    pub fn is_empty(&self) -> (r: bool)
        ensures
            r == (self@.len() == 0),
    {
        self.entries.len() == 0
    }
}

/// The fixed opening of the generated capability section.
pub open spec fn spec_prompt_header() -> Seq<char> {
    "## Available Tools\n\n"@
        + "You can use the following tools by responding with a JSON block:\n\n"@
        + "```tool\n{\"tool\": \"tool_name\", \"arguments\": {\"arg\": \"value\"}}\n```\n\n"@
}

/// The rendered line for one parameter.
pub open spec fn spec_param_line(p: ParamView) -> Seq<char> {
    "- `"@ + p.name + "` ("@ + p.param_type + ")"@ + (if p.required {
        " (required)"@
    } else {
        Seq::empty()
    }) + ": "@ + p.description + "\n"@
}

/// The rendered lines of a parameter list, in order.
pub open spec fn spec_param_lines(ps: Seq<ParamView>) -> Seq<char>
    decreases ps.len(),
{
    if ps.len() == 0 {
        Seq::empty()
    } else {
        spec_param_lines(ps.drop_last()) + spec_param_line(ps.last())
    }
}

/// The rendered section for one tool.
pub open spec fn spec_schema_section(s: SchemaView) -> Seq<char> {
    "### "@ + s.name + "\n"@ + s.description + "\n"@ + (if s.parameters.len() == 0 {
        Seq::empty()
    } else {
        "**Parameters:**\n"@ + spec_param_lines(s.parameters)
    }) + "\n"@
}

/// The rendered sections of a schema list, in order.
pub open spec fn spec_sections(ss: Seq<SchemaView>) -> Seq<char>
    decreases ss.len(),
{
    if ss.len() == 0 {
        Seq::empty()
    } else {
        spec_sections(ss.drop_last()) + spec_schema_section(ss.last())
    }
}

/// The full capability section: the fixed header, then one section per
/// schema, in order.
pub open spec fn spec_prompt_section(ss: Seq<SchemaView>) -> Seq<char> {
    spec_prompt_header() + spec_sections(ss)
}

impl<T: Tool> ToolRegistry<T> {
    /// The schemas of the registered tools, in registration order.
    pub open spec fn spec_schemas(&self) -> Seq<SchemaView> {
        self@.map(|i: int, e: (Seq<char>, T)| e.1.spec_schema())
    }

    /// Generate the system-prompt section describing every registered
    /// tool: name, description, and parameters with required/optional
    /// marking, in registration order (deterministic across calls).
    pub fn generate_prompt_section(&self) -> (r: String)
        ensures
            r@ == spec_prompt_section(self.spec_schemas()),
    {
        let mut prompt = String::from_str("## Available Tools\n\n");
        prompt.append("You can use the following tools by responding with a JSON block:\n\n");
        prompt.append("```tool\n{\"tool\": \"tool_name\", \"arguments\": {\"arg\": \"value\"}}\n```\n\n");
        proof {
            assert(prompt@ =~= spec_prompt_header());
            assert(self.spec_schemas().take(0).len() == 0);
            assert(prompt@ =~= spec_prompt_header() + spec_sections(self.spec_schemas().take(0)));
        }
        let n = self.entries.len();
        let mut i: usize = 0;
        while i < n
            invariant
                n == self@.len(),
                n == self.entries@.len(),
                n == self.spec_schemas().len(),
                0 <= i <= n,
                prompt@ =~= spec_prompt_header() + spec_sections(
                    self.spec_schemas().take(i as int),
                ),
            decreases n - i,
        {
            let ghost pre = prompt@;
            let ghost sv = self.spec_schemas()[i as int];
            let schema = self.entries[i].1.schema();
            proof {
                assert(self@[i as int].1 == self.entries@[i as int].1);
                assert(schema@ == sv);
            }
            prompt.append("### ");
            prompt.append(schema.name.as_str());
            prompt.append("\n");
            prompt.append(schema.description.as_str());
            prompt.append("\n");
            if schema.parameters.len() > 0 {
                prompt.append("**Parameters:**\n");
                let ghost base = prompt@;
                let m = schema.parameters.len();
                let mut j: usize = 0;
                proof {
                    assert(sv.parameters.take(0).len() == 0);
                    assert(prompt@ =~= base + spec_param_lines(sv.parameters.take(0)));
                }
                while j < m
                    invariant
                        m == schema.parameters@.len(),
                        m == sv.parameters.len(),
                        sv == schema@,
                        0 <= j <= m,
                        prompt@ =~= base + spec_param_lines(sv.parameters.take(j as int)),
                    decreases m - j,
                {
                    let ghost lines_pre = sv.parameters.take(j as int);
                    let p = &schema.parameters[j];
                    proof {
                        assert(schema.parameters@[j as int]@ == sv.parameters[j as int]);
                        assert(sv.parameters.take(j + 1).drop_last() =~= lines_pre);
                        assert(sv.parameters.take(j + 1).last() == sv.parameters[j as int]);
                    }
                    prompt.append("- `");
                    prompt.append(p.name.as_str());
                    prompt.append("` (");
                    prompt.append(p.param_type.as_str());
                    prompt.append(")");
                    if p.required {
                        prompt.append(" (required)");
                    }
                    prompt.append(": ");
                    prompt.append(p.description.as_str());
                    prompt.append("\n");
                    proof {
                        assert(prompt@ =~= base + spec_param_lines(sv.parameters.take(j + 1)));
                    }
                    j = j + 1;
                }
                proof {
                    assert(sv.parameters.take(m as int) =~= sv.parameters);
                }
            }
            prompt.append("\n");
            proof {
                assert(self.spec_schemas().take(i + 1).drop_last() =~= self.spec_schemas().take(
                    i as int,
                ));
                assert(self.spec_schemas().take(i + 1).last() == sv);
                assert(prompt@ =~= pre + spec_schema_section(sv));
                assert(prompt@ =~= spec_prompt_header() + spec_sections(
                    self.spec_schemas().take(i + 1),
                ));
            }
            i = i + 1;
        }
        proof {
            assert(self.spec_schemas().take(n as int) =~= self.spec_schemas());
        }
        prompt
    }
}

/// A found index lies within bounds.
proof fn lemma_find_entry_bounds<T>(s: Seq<(Seq<char>, T)>, name: Seq<char>)
    ensures
        spec_find_entry(s, name) matches Some(k) ==> 0 <= k < s.len() && s[k].0 == name,
    decreases s.len(),
{
    if s.len() > 0 && s[0].0 != name {
        lemma_find_entry_bounds(s.drop_first(), name);
    }
}

/// When nothing is found, no entry bears the name.
proof fn lemma_find_entry_none_no_name<T>(s: Seq<(Seq<char>, T)>, name: Seq<char>)
    requires
        spec_find_entry(s, name) is None,
    ensures
        forall|i: int| 0 <= i < s.len() ==> (#[trigger] s[i]).0 != name,
    decreases s.len(),
{
    if s.len() > 0 {
        lemma_find_entry_none_no_name(s.drop_first(), name);
        assert(forall|i: int| 1 <= i < s.len() ==> s[i] == s.drop_first()[i - 1]);
    }
}

} // verus!
