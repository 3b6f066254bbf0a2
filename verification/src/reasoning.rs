//! The reasoning loop: a bounded reason-act-observe cycle that builds a
//! prompt, calls the provider, detects and executes tool calls, and
//! returns the first reply without one.

use vstd::prelude::*;
use vstd::string::StringExecFns;

use crate::errors::AgentError;
use crate::message::Conversation;
use crate::message::Message;
use crate::message::Role;
use crate::provider::GenerationOptions;
use crate::provider::LlmProvider;
use crate::tool::spec_find_entry;
use crate::tool::spec_first_missing;
use crate::tool::spec_prompt_section;
use crate::tool::Tool;
use crate::tool::ToolCall;
use crate::tool::ToolRegistry;
use crate::tool::ToolResult;
use crate::wire::detect_tool_call;
use crate::wire::spec_has_tool_call;

verus! {

/// The stock system prompt: how to request a tool, and how to answer.
pub const DEFAULT_SYSTEM_PROMPT: &'static str = "You are a helpful AI assistant.\n\nWhen you need to use a tool, respond with a JSON block in this exact format:\n```tool\n{\"tool\": \"tool_name\", \"arguments\": {\"arg1\": \"value1\"}}\n```\n\nAfter receiving tool results, synthesize them into a helpful response.\nIf you can answer directly without tools, do so.\nBe concise and accurate.";

/// Agent configuration.
#[derive(Clone, Debug)]
pub struct AgentConfig {
    /// System prompt template
    pub system_prompt: String,
    /// Maximum reasoning iterations before giving up
    pub max_iterations: usize,
    /// Generation options
    pub generation: GenerationOptions,
    /// Whether to append tool descriptions to the system prompt
    pub inject_tool_descriptions: bool,
}

impl Default for AgentConfig {
    /// The stock configuration: the default prompt, ten iterations, and
    /// tool descriptions injected.
    fn default() -> (r: Self)
        ensures
            r.system_prompt@ == DEFAULT_SYSTEM_PROMPT@,
            r.max_iterations == 10,
            r.inject_tool_descriptions,
    {
        AgentConfig {
            system_prompt: String::from_str(DEFAULT_SYSTEM_PROMPT),
            max_iterations: 10,
            generation: GenerationOptions::default(),
            inject_tool_descriptions: true,
        }
    }
}

/// How the tool result text is framed before it re-enters the
/// conversation: distinctly for success and failure.
pub open spec fn spec_format_tool_result(result: ToolResult) -> Seq<char> {
    if result.success {
        "[Tool '"@ + result.name@ + "' returned]\n"@ + result.output@
    } else {
        "[Tool '"@ + result.name@ + "' failed]\n"@ + result.output@
    }
}

/// Frame a tool result for the conversation.
pub fn format_tool_result(result: &ToolResult) -> (r: String)
    ensures
        r@ == spec_format_tool_result(*result),
{
    let mut r = String::from_str("[Tool '");
    r.append(result.name.as_str());
    if result.success {
        r.append("' returned]\n");
    } else {
        r.append("' failed]\n");
    }
    r.append(result.output.as_str());
    r
}

/// The length of the conversation once the system prompt is primed: one
/// more than before unless a leading system message was already there.
pub open spec fn spec_base_len(pre: Seq<Message>) -> int {
    if pre.len() > 0 && pre[0].role is System {
        pre.len() as int
    } else {
        pre.len() as int + 1
    }
}

/// The run kept the messages it was given, prepending a system message built
/// from `sys` when the conversation did not already open with one.
pub open spec fn spec_base_ok(pre: Seq<Message>, post: Seq<Message>, sys: Seq<char>) -> bool {
    if pre.len() > 0 && pre[0].role is System {
        post.len() >= pre.len() && post.subrange(0, pre.len() as int) == pre
    } else {
        &&& post.len() >= pre.len() as int + 1
        &&& post[0].role is System
        &&& post[0].content@ == sys
        &&& post.subrange(1, pre.len() as int + 1) == pre
    }
}

/// The messages a run appended after the primed base.
pub open spec fn spec_appended(pre: Seq<Message>, post: Seq<Message>) -> Seq<Message> {
    post.skip(spec_base_len(pre))
}

/// The shape of an appended trace: assistant messages at even offsets,
/// tool messages at odd offsets, and every assistant message that is
/// followed by a tool message carries a detectable tool call.
pub open spec fn spec_trace_ok(appended: Seq<Message>) -> bool {
    &&& forall|i: int|
        0 <= i < appended.len() ==> if i % 2 == 0 {
            (#[trigger] appended[i]).role is Assistant
        } else {
            appended[i].role is Tool
        }
    &&& forall|i: int|
        0 <= i < appended.len() && i % 2 == 0 && i + 1 < appended.len()
            ==> spec_has_tool_call((#[trigger] appended[i]).content@)
}

/// Everything a finished run guarantees about the conversation and its
/// result, over the pre-state, the post-state, the full system prompt
/// text, and the iteration bound.
///
/// A successful run appended alternating assistant/tool pairs and one
/// final assistant message whose text is the result and carries no tool
/// call.  A failed run appended only complete pairs; when exactly the
/// bound's worth of pairs was appended, the error is `MaxIterations`
/// (otherwise it is the provider's own error, propagated unmodified).
pub open spec fn run_post(
    pre: Seq<Message>,
    post: Seq<Message>,
    sys: Seq<char>,
    max: int,
    r: Result<String, AgentError>,
) -> bool {
    let appended = spec_appended(pre, post);
    &&& spec_base_ok(pre, post, sys)
    &&& spec_trace_ok(appended)
    &&& match r {
        Ok(s) => {
            &&& appended.len() % 2 == 1
            &&& s@ == appended.last().content@
            &&& !spec_has_tool_call(appended.last().content@)
            &&& appended.len() <= 2 * max - 1
        },
        Err(e) => {
            &&& appended.len() % 2 == 0
            &&& appended.len() <= 2 * max
            &&& (appended.len() == 2 * max ==> (e matches AgentError::MaxIterations(m) && m as int
                == max))
        },
    }
}

/// If no appended assistant message carries a tool call and the run did
/// not end in an error, it returned after exactly one model round trip,
/// with that reply's raw text.
pub proof fn lemma_run_single_round(
    pre: Seq<Message>,
    post: Seq<Message>,
    sys: Seq<char>,
    max: int,
    r: Result<String, AgentError>,
)
    requires
        run_post(pre, post, sys, max, r),
        forall|i: int|
            0 <= i < spec_appended(pre, post).len() ==> !spec_has_tool_call(
                (#[trigger] spec_appended(pre, post)[i]).content@,
            ),
        r is Ok,
    ensures
        spec_appended(pre, post).len() == 1,
        r matches Ok(s) && s@ == spec_appended(pre, post)[0].content@,
{
    let appended = spec_appended(pre, post);
    if appended.len() >= 3 {
        assert(spec_has_tool_call(appended[0].content@));
        assert(false);
    }
}

/// If every appended assistant message carries a tool call, and the run
/// did not end in a propagated provider failure, it exhausted the bound:
/// the result is `MaxIterations(max)` and exactly `max` assistant/tool
/// pairs were appended.
pub proof fn lemma_run_hits_bound(
    pre: Seq<Message>,
    post: Seq<Message>,
    sys: Seq<char>,
    max: int,
    r: Result<String, AgentError>,
)
    requires
        run_post(pre, post, sys, max, r),
        max >= 1,
        forall|i: int|
            0 <= i < spec_appended(pre, post).len() && (#[trigger] spec_appended(pre, post)[i]).role
                is Assistant ==> spec_has_tool_call(spec_appended(pre, post)[i].content@),
        !(r is Err && spec_appended(pre, post).len() < 2 * max),
    ensures
        r matches Err(e) && e matches AgentError::MaxIterations(m) && m as int == max,
        spec_appended(pre, post).len() == 2 * max,
        forall|i: int|
            0 <= i < 2 * max ==> if i % 2 == 0 {
                (#[trigger] spec_appended(pre, post)[i]).role is Assistant
            } else {
                spec_appended(pre, post)[i].role is Tool
            },
{
    let appended = spec_appended(pre, post);
    match r {
        Ok(s) => {
            assert(appended.last().role is Assistant);
            assert(spec_has_tool_call(appended.last().content@));
            assert(false);
        },
        Err(e) => {
            assert(appended.len() == 2 * max);
        },
    }
}

/// The main agent: a provider, a tool registry, and a configuration,
/// driving the bounded reasoning cycle.
pub struct Agent<P: LlmProvider, T: Tool> {
    provider: P,
    tools: ToolRegistry<T>,
    config: AgentConfig,
}

impl<P: LlmProvider, T: Tool> Agent<P, T> {
    /// The registry invariant carried by a well-built agent.
    pub open spec fn wf(&self) -> bool {
        self.spec_tools().wf()
    }

    /// The agent's tool registry.
    pub closed spec fn spec_tools(&self) -> ToolRegistry<T> {
        self.tools
    }

    /// The agent's configuration.
    pub closed spec fn spec_config(&self) -> AgentConfig {
        self.config
    }

    /// The full system prompt: the configured template, then (when
    /// enabled and tools exist) the rendered capability section.
    pub open spec fn spec_system_prompt(&self) -> Seq<char> {
        if self.spec_config().inject_tool_descriptions && self.spec_tools()@.len() > 0 {
            self.spec_config().system_prompt@ + "\n\n"@ + spec_prompt_section(
                self.spec_tools().spec_schemas(),
            )
        } else {
            self.spec_config().system_prompt@
        }
    }

    /// Create a new agent.
    pub fn new(provider: P, tools: ToolRegistry<T>, config: AgentConfig) -> (r: Self)
        requires
            tools.wf(),
        ensures
            r.wf(),
            r.spec_tools() == tools,
            r.spec_config() == config,
    {
        Agent { provider, tools, config }
    }

    /// Create with the default configuration.
    pub fn with_defaults(provider: P, tools: ToolRegistry<T>) -> (r: Self)
        requires
            tools.wf(),
        ensures
            r.wf(),
            r.spec_tools() == tools,
            r.spec_config().max_iterations == 10,
    {
        Self::new(provider, tools, AgentConfig::default())
    }

    /// Build the full system prompt, including tool descriptions.
    pub fn build_system_prompt(&self) -> (r: String)
        ensures
            r@ == self.spec_system_prompt(),
    {
        let mut prompt = self.config.system_prompt.clone();
        if self.config.inject_tool_descriptions && !self.tools.is_empty() {
            prompt.append("\n\n");
            prompt.append(self.tools.generate_prompt_section().as_str());
        }
        prompt
    }

    /// Run the agent on a conversation, mutating it in place.
    ///
    /// The conversation is primed with the system prompt when it does not
    /// already open with one.  Each iteration calls the provider, appends
    /// the raw assistant text unconditionally, and either executes one
    /// detected tool call (appending its framed result as a tool message)
    /// or returns the text as the final answer.  A provider error
    /// propagates unmodified; exhausting the iteration bound fails with
    /// `MaxIterations`, keeping everything appended so far.
    pub fn run(&self, conversation: &mut Conversation) -> (r: Result<String, AgentError>)
        requires
            self.wf(),
        ensures
            final(conversation).spec_budget() == old(conversation).spec_budget(),
            run_post(
                old(conversation)@,
                final(conversation)@,
                self.spec_system_prompt(),
                self.spec_config().max_iterations as int,
                r,
            ),
    {
        let ghost pre = conversation@;
        let needs_system = if conversation.len() == 0 {
            true
        } else {
            match conversation.messages()[0].role {
                Role::System => false,
                _ => true,
            }
        };
        if needs_system {
            let prompt = self.build_system_prompt();
            let sysmsg = Message::system(prompt.as_str());
            let msgs = conversation.messages_mut();
            msgs.insert(0, sysmsg);
            proof {
                assert(conversation@ =~= seq![sysmsg] + pre);
                assert(conversation@.subrange(1, pre.len() as int + 1) =~= pre);
            }
        }
        let ghost base = conversation@;
        proof {
            if pre.len() > 0 && pre[0].role is System {
                assert(base == pre);
                assert(base.subrange(0, pre.len() as int) =~= pre);
            }
            assert(base.len() == spec_base_len(pre));
            assert(spec_base_ok(pre, base, self.spec_system_prompt()));
            assert(base.subrange(0, base.len() as int) =~= base);
            assert(base.skip(base.len() as int).len() == 0);
        }
        let max = self.config.max_iterations;
        let mut pairs: usize = 0;
        loop
            invariant
                self.wf(),
                max == self.spec_config().max_iterations,
                0 <= pairs <= max,
                conversation.spec_budget() == old(conversation).spec_budget(),
                pre == old(conversation)@,
                base.len() == spec_base_len(pre),
                spec_base_ok(pre, base, self.spec_system_prompt()),
                conversation@.len() == base.len() + 2 * pairs,
                conversation@.subrange(0, base.len() as int) == base,
                spec_trace_ok(conversation@.skip(base.len() as int)),
            decreases max - pairs,
        {
            let ghost appended = conversation@.skip(base.len() as int);
            proof {
                lemma_base_prefix(pre, base, conversation@, self.spec_system_prompt());
            }
            if pairs >= max {
                return Err(AgentError::MaxIterations(max));
            }
            let completion = match self.provider.complete(
                conversation.messages(),
                &self.config.generation,
            ) {
                Ok(c) => c,
                Err(e) => {
                    return Err(e);
                },
            };
            let content = completion.content;
            let assistant_msg = Message::assistant(content.as_str());
            conversation.push(assistant_msg);
            proof {
                assert(conversation@.subrange(0, base.len() as int) =~= base);
                assert(conversation@.skip(base.len() as int) =~= appended.push(assistant_msg));
                lemma_trace_push_assistant(appended, assistant_msg);
            }
            match detect_tool_call(content.as_str()) {
                Some(tool_call) => {
                    let result = self.execute_tool(&tool_call);
                    let tool_message = format_tool_result(&result);
                    let ghost mid = conversation@.skip(base.len() as int);
                    let tool_msg = Message::tool(tool_message.as_str(), tool_call.id);
                    conversation.push(tool_msg);
                    proof {
                        assert(conversation@.subrange(0, base.len() as int) =~= base);
                        assert(conversation@.skip(base.len() as int) =~= mid.push(tool_msg));
                        lemma_trace_push_tool(appended, assistant_msg, tool_msg, content@);
                    }
                    pairs = pairs + 1;
                },
                None => {
                    proof {
                        lemma_base_prefix(pre, base, conversation@, self.spec_system_prompt());
                    }
                    return Ok(content);
                },
            }
        }
    }

    /// Run on a fresh conversation holding the system prompt and one user
    /// question; returns the final answer text.
    pub fn ask(&self, question: &str) -> (r: Result<String, AgentError>)
        requires
            self.wf(),
    {
        let mut conversation = Conversation::with_system_prompt(
            self.build_system_prompt().as_str(),
        );
        conversation.push(Message::user(question));
        self.run(&mut conversation)
    }

    /// Execute a tool call through the registry.  A dispatch or execution
    /// error is converted into a failed result carrying the error text;
    /// it never aborts the loop.
    pub fn execute_tool(&self, call: &ToolCall) -> (result: ToolResult)
        requires
            self.wf(),
        ensures
            result.id == call.id,
            spec_find_entry(self.spec_tools()@, call.name@) is None ==> !result.success
                && result.name@ == call.name@ && result.output@ == "Error: "@ + ("Tool not found: "@
                + call.name@),
            spec_find_entry(self.spec_tools()@, call.name@) matches Some(k) ==> {
                let params = self.spec_tools()@[k].1.spec_schema().parameters;
                spec_first_missing(params, call.arguments@) matches Some(m) ==> !result.success
                    && result.name@ == call.name@ && result.output@ == "Error: "@ + (
                "Tool validation error: "@ + ("Missing required parameter: "@ + params[m].name))
            },
    {
        match self.tools.execute(call) {
            Ok(mut result) => {
                result.id = clone_opt_string(&call.id);
                result
            },
            Err(e) => {
                let mut output = String::from_str("Error: ");
                let detail = e.message();
                output.append(detail.as_str());
                ToolResult {
                    name: call.name.clone(),
                    id: clone_opt_string(&call.id),
                    success: false,
                    output,
                    data: None,
                }
            },
        }
    }

    /// The agent's tool registry.
    pub fn tools(&self) -> (r: &ToolRegistry<T>)
        ensures
            r == self.spec_tools(),
    {
        &self.tools
    }

    /// The agent's configuration.
    pub fn config(&self) -> (r: &AgentConfig)
        ensures
            r == self.spec_config(),
    {
        &self.config
    }
}

/// Builder for an agent: compose a provider, tools, and configuration.
///
/// Building fails with a configuration error when no provider was
/// supplied — the only invariant required at construction time.
pub struct AgentBuilder<P: LlmProvider, T: Tool> {
    provider: Option<P>,
    tools: ToolRegistry<T>,
    config: AgentConfig,
}

impl<P: LlmProvider, T: Tool> Default for AgentBuilder<P, T> {
    /// An empty builder with the default configuration.
    fn default() -> (r: Self)
        ensures
            r.wf(),
            r.spec_provider() is None,
            r.spec_tools()@.len() == 0,
    {
        Self::new()
    }
}

impl<P: LlmProvider, T: Tool> AgentBuilder<P, T> {
    /// The chosen provider, if any.
    pub closed spec fn spec_provider(&self) -> Option<P> {
        self.provider
    }

    /// The tools registered so far.
    pub closed spec fn spec_tools(&self) -> ToolRegistry<T> {
        self.tools
    }

    /// The configuration built so far.
    pub closed spec fn spec_config(&self) -> AgentConfig {
        self.config
    }

    /// The registry invariant carried through building.
    pub open spec fn wf(&self) -> bool {
        self.spec_tools().wf()
    }

    /// An empty builder with the default configuration.
    pub fn new() -> (r: Self)
        ensures
            r.wf(),
            r.spec_provider() is None,
            r.spec_tools()@.len() == 0,
            r.spec_config().max_iterations == 10,
    {
        AgentBuilder {
            provider: None,
            tools: ToolRegistry::new(),
            config: AgentConfig::default(),
        }
    }

    /// Choose the provider.
    pub fn provider(self, provider: P) -> (r: Self)
        ensures
            r.spec_provider() == Some(provider),
            r.spec_tools() == self.spec_tools(),
            r.spec_config() == self.spec_config(),
    {
        AgentBuilder { provider: Some(provider), ..self }
    }

    /// Register one tool.
    pub fn tool(self, tool: T) -> (r: Self)
        requires
            self.wf(),
        ensures
            r.wf(),
            r.spec_provider() == self.spec_provider(),
            r.spec_config() == self.spec_config(),
            r.spec_tools().spec_contains(tool.spec_schema().name),
    {
        let mut tools = self.tools;
        tools.register(tool);
        AgentBuilder { tools, ..self }
    }

    /// Replace the whole tool registry.
    pub fn tools(self, tools: ToolRegistry<T>) -> (r: Self)
        requires
            tools.wf(),
        ensures
            r.wf(),
            r.spec_provider() == self.spec_provider(),
            r.spec_config() == self.spec_config(),
            r.spec_tools() == tools,
    {
        AgentBuilder { tools, ..self }
    }

    /// Set the system prompt template.
    pub fn system_prompt(self, prompt: &str) -> (r: Self)
        ensures
            r.spec_provider() == self.spec_provider(),
            r.spec_tools() == self.spec_tools(),
            r.spec_config().system_prompt@ == prompt@,
            r.spec_config().max_iterations == self.spec_config().max_iterations,
            r.spec_config().generation == self.spec_config().generation,
            r.spec_config().inject_tool_descriptions == self.spec_config().inject_tool_descriptions,
    {
        let mut config = self.config;
        config.system_prompt = String::from_str(prompt);
        AgentBuilder { config, ..self }
    }

    /// Set the model identifier.
    pub fn model(self, model: &str) -> (r: Self)
        ensures
            r.spec_provider() == self.spec_provider(),
            r.spec_tools() == self.spec_tools(),
            r.spec_config().generation.model@ == model@,
            r.spec_config().max_iterations == self.spec_config().max_iterations,
            r.spec_config().system_prompt == self.spec_config().system_prompt,
    {
        let mut config = self.config;
        config.generation.model = String::from_str(model);
        AgentBuilder { config, ..self }
    }

    /// Set the sampling temperature, in thousandths.
    pub fn temperature(self, temperature_milli: u32) -> (r: Self)
        ensures
            r.spec_provider() == self.spec_provider(),
            r.spec_tools() == self.spec_tools(),
            r.spec_config().generation.temperature_milli == temperature_milli,
            r.spec_config().max_iterations == self.spec_config().max_iterations,
    {
        let mut config = self.config;
        config.generation.temperature_milli = temperature_milli;
        AgentBuilder { config, ..self }
    }

    /// Set the iteration bound.
    pub fn max_iterations(self, max: usize) -> (r: Self)
        ensures
            r.spec_provider() == self.spec_provider(),
            r.spec_tools() == self.spec_tools(),
            r.spec_config().max_iterations == max,
            r.spec_config().system_prompt == self.spec_config().system_prompt,
            r.spec_config().generation == self.spec_config().generation,
            r.spec_config().inject_tool_descriptions == self.spec_config().inject_tool_descriptions,
    {
        let mut config = self.config;
        config.max_iterations = max;
        AgentBuilder { config, ..self }
    }

    /// Assemble the agent; fails with a configuration error when no
    /// provider was supplied.
    pub fn build(self) -> (r: Result<Agent<P, T>, AgentError>)
        requires
            self.wf(),
        ensures
            self.spec_provider() is None ==> (r matches Err(AgentError::Config(msg)) && msg@
                == "Provider is required"@),
            self.spec_provider() matches Some(p) ==> (r matches Ok(a) && a.wf() && a.spec_tools()
                == self.spec_tools() && a.spec_config() == self.spec_config()),
    {
        match self.provider {
            Some(provider) => Ok(Agent::new(provider, self.tools, self.config)),
            None => Err(AgentError::Config(String::from_str("Provider is required"))),
        }
    }
}

/// Copy an optional string.
fn clone_opt_string(o: &Option<String>) -> (r: Option<String>)
    ensures
        r == *o,
{
    match o {
        Some(s) => Some(s.clone()),
        None => None,
    }
}

/// A base that extends the pre-state extends through any longer
/// conversation that keeps it as a prefix.
proof fn lemma_base_prefix(pre: Seq<Message>, base: Seq<Message>, post: Seq<Message>, sys: Seq<char>)
    requires
        spec_base_ok(pre, base, sys),
        base.len() == spec_base_len(pre),
        post.len() >= base.len(),
        post.subrange(0, base.len() as int) == base,
    ensures
        spec_base_ok(pre, post, sys),
{
    if pre.len() > 0 && pre[0].role is System {
        assert(post.subrange(0, pre.len() as int) =~= base.subrange(0, pre.len() as int));
    } else {
        assert(post[0] == base[0]);
        assert(post.subrange(1, pre.len() as int + 1) =~= base.subrange(1, pre.len() as int + 1));
    }
}

/// Appending an assistant message to an even-length well-shaped trace
/// keeps it well-shaped.
proof fn lemma_trace_push_assistant(appended: Seq<Message>, m: Message)
    requires
        spec_trace_ok(appended),
        appended.len() % 2 == 0,
        m.role is Assistant,
    ensures
        spec_trace_ok(appended.push(m)),
{
    let ext = appended.push(m);
    assert forall|i: int| 0 <= i < ext.len() implies (if i % 2 == 0 {
        (#[trigger] ext[i]).role is Assistant
    } else {
        ext[i].role is Tool
    }) by {
        if i < appended.len() {
            assert(ext[i] == appended[i]);
        }
    }
    assert forall|i: int|
        0 <= i < ext.len() && i % 2 == 0 && i + 1 < ext.len() implies spec_has_tool_call(
        (#[trigger] ext[i]).content@,
    ) by {
        assert(ext[i] == appended[i]);
    }
}

/// Completing a pair: after an assistant message whose text carries a
/// detectable tool call, appending a tool message keeps the trace
/// well-shaped.
proof fn lemma_trace_push_tool(
    appended: Seq<Message>,
    am: Message,
    tm: Message,
    content: Seq<char>,
)
    requires
        spec_trace_ok(appended),
        appended.len() % 2 == 0,
        am.role is Assistant,
        am.content@ == content,
        spec_has_tool_call(content),
        tm.role is Tool,
    ensures
        spec_trace_ok(appended.push(am).push(tm)),
{
    let ext = appended.push(am).push(tm);
    assert forall|i: int| 0 <= i < ext.len() implies (if i % 2 == 0 {
        (#[trigger] ext[i]).role is Assistant
    } else {
        ext[i].role is Tool
    }) by {
        if i < appended.len() {
            assert(ext[i] == appended[i]);
        } else if i == appended.len() {
            assert(ext[i] == am);
        } else {
            assert(ext[i] == tm);
        }
    }
    assert forall|i: int|
        0 <= i < ext.len() && i % 2 == 0 && i + 1 < ext.len() implies spec_has_tool_call(
        (#[trigger] ext[i]).content@,
    ) by {
        if i < appended.len() {
            assert(ext[i] == appended[i]);
        } else if i == appended.len() {
            assert(ext[i] == am);
        }
    }
}

} // verus!
