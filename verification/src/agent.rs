//! The agent: its settings, its tools, the system prompt that presents the
//! tools to the model, and the start of a run.

use crate::registry::{lemma_position, Registry};
use crate::run::{Run, RunModel, Step};
use crate::tool::{is_success, status_is_success, Tool};
use crate::tools::{
    AnyTool, ReadFileTool, TerminalTool, WebFetchTool, WebSearchTool, WriteFileTool,
};
use vstd::prelude::*;
use vstd::string::StringExecFns;

verus! {

/// What the environment says of how the agent is to be set up. Each value
/// may be missing.
#[derive(Clone, Debug)]
pub struct Settings {
    /// The key for the completion endpoint.
    pub api_key: Option<String>,
    /// The address of the completion endpoint, without the path of a call.
    pub api_base: Option<String>,
    /// The name of the model.
    pub model: Option<String>,
    /// The directory that the agent works in.
    pub workspace: Option<String>,
    /// The key for the search service.
    pub search_key: Option<String>,
}

/// The value that a setting stands for: its own, or `default` where it is
/// missing.
pub open spec fn setting(value: Option<String>, default: Seq<char>) -> Seq<char> {
    match value {
        Some(s) => s@,
        None => default,
    }
}

fn resolve(value: Option<String>, default: &str) -> (r: String)
    ensures
        r@ == setting(value, default@),
{
    match value {
        Some(s) => s,
        None => default.to_owned(),
    }
}

/// The number of completions that a run may ask for unless told otherwise.
pub const DEFAULT_MAX_ITERATIONS: usize = 10;

/// What is to be sent to the completion endpoint, besides the history.
#[derive(Clone, Debug)]
pub struct CompletionRequest {
    /// The address of the call.
    pub url: String,
    /// The key that authorises the call, sent as a bearer token.
    pub api_key: String,
    /// The name of the model.
    pub model: String,
    /// Whether the answer is to come as a stream.
    pub stream: bool,
}

/// The line that presents one tool in the system prompt.
pub open spec fn tool_line<T: Tool>(tool: T) -> Seq<char> {
    "- "@ + tool.name_spec() + ": "@ + tool.description_spec() + "\n"@
}

/// The lines that present the tools, in their order.
pub open spec fn tool_lines<T: Tool>(tools: Seq<T>) -> Seq<char>
    decreases tools.len(),
{
    if tools.len() == 0 {
        Seq::empty()
    } else {
        tool_lines(tools.drop_last()) + tool_line(tools.last())
    }
}

/// The system prompt for the tools `tools`: a preamble, one line for each
/// tool in the order of enumeration, the syntax of a tool directive, and the
/// instruction to reason before acting.
pub open spec fn prompt_text<T: Tool>(tools: Seq<T>) -> Seq<char> {
    "You are a powerful AI agent. Use the following tools when necessary:\n\n"@ + tool_lines(tools)
        + "\nTo use a tool, use this format:\n<tool name=\"tool_name\">\ninput\n</tool>\n"@
        + "\nAlways reason step by step using Thought: before acting.\n"@
}

/// The system prompt for the tools of `registry`.
pub fn system_prompt<T: Tool>(registry: &Registry<T>) -> (r: String)
    ensures
        r@ == prompt_text(registry.entries()),
{
    let tools = registry.all();
    let mut prompt =
        "You are a powerful AI agent. Use the following tools when necessary:\n\n".to_owned();
    let ghost head = prompt@;
    let mut i: usize = 0;
    while i < tools.len()
        invariant
            i <= tools.len(),
            prompt@ == head + tool_lines(tools@.take(i as int)),
        decreases tools.len() - i,
    {
        let tool = &tools[i];
        prompt.append("- ");
        prompt.append(tool.name());
        prompt.append(": ");
        prompt.append(tool.description());
        prompt.append("\n");
        proof {
            assert(tools@.take(i + 1).drop_last() =~= tools@.take(i as int));
        }
        i += 1;
    }
    assert(tools@.take(tools.len() as int) =~= tools@);
    prompt.append("\nTo use a tool, use this format:\n<tool name=\"tool_name\">\ninput\n</tool>\n");
    prompt.append("\nAlways reason step by step using Thought: before acting.\n");
    prompt
}

/// The message of the failure that a completion endpoint's answer stands
/// for: none where the status reports success, otherwise one that holds the
/// status as the transport prints it and the body of the answer.
pub open spec fn remote_failure(status: u16, status_line: Seq<char>, body: Seq<char>) -> Option<
    Seq<char>,
> {
    if is_success(status) {
        None
    } else {
        Some("LLM Error: "@ + status_line + " - "@ + body)
    }
}

/// The names of the five tools differ from one another.
proof fn lemma_tool_names_differ()
    ensures
        "terminal"@ != "read_file"@,
        "terminal"@ != "write_file"@,
        "terminal"@ != "web_search"@,
        "terminal"@ != "web_fetch"@,
        "read_file"@ != "write_file"@,
        "read_file"@ != "web_search"@,
        "read_file"@ != "web_fetch"@,
        "write_file"@ != "web_search"@,
        "write_file"@ != "web_fetch"@,
        "web_search"@ != "web_fetch"@,
{
    reveal_strlit("terminal");
    reveal_strlit("read_file");
    reveal_strlit("write_file");
    reveal_strlit("web_search");
    reveal_strlit("web_fetch");
    assert("web_search"@.len() == 10);
    assert("read_file"@[0] != "web_fetch"@[0]);
    assert("write_file"@[1] != "web_search"@[1]);
}

/// An agent as contracts see it.
pub struct AgentModel {
    pub api_key: Seq<char>,
    pub api_base: Seq<char>,
    pub model: Seq<char>,
    pub workspace: Seq<char>,
    pub max_iterations: nat,
    pub tools: Seq<AnyTool>,
}

/// The tools of a new agent, in the order of their registration.
pub open spec fn is_standard_tools(tools: Seq<AnyTool>, search_key: Seq<char>) -> bool {
    &&& tools.len() == 5
    &&& tools[0] is Terminal
    &&& tools[1] is ReadFile
    &&& tools[2] is WriteFile
    &&& tools[3] matches AnyTool::WebSearch(t) && t.api_key@ == search_key
    &&& tools[4] is WebFetch
}

/// An agent: the settings of the completion endpoint and the tools that the
/// model may call.
pub struct Agent {
    api_key: String,
    api_base: String,
    model: String,
    workspace: String,
    max_iterations: usize,
    tools: Registry<AnyTool>,
}

impl View for Agent {
    type V = AgentModel;

    closed spec fn view(&self) -> AgentModel {
        AgentModel {
            api_key: self.api_key@,
            api_base: self.api_base@,
            model: self.model@,
            workspace: self.workspace@,
            max_iterations: self.max_iterations as nat,
            tools: self.tools.entries(),
        }
    }
}

impl Agent {
    /// The registry that the agent holds.
    pub closed spec fn registry(&self) -> Registry<AnyTool> {
        self.tools
    }

    /// An agent set up as `settings` says, with the five tools registered.
    /// A missing setting takes its default: no key, the public endpoint, the
    /// model `gpt-4-turbo`, the current directory. A run may ask for ten
    /// completions.
    pub fn new(settings: Settings) -> (r: Agent)
        ensures
            r@.api_key == setting(settings.api_key, ""@),
            r@.api_base == setting(settings.api_base, "https://api.openai.com/v1"@),
            r@.model == setting(settings.model, "gpt-4-turbo"@),
            r@.workspace == setting(settings.workspace, "."@),
            r@.max_iterations == DEFAULT_MAX_ITERATIONS,
            is_standard_tools(r@.tools, setting(settings.search_key, ""@)),
            r.registry().entries() == r@.tools,
    {
        let Settings { api_key, api_base, model, workspace, search_key } = settings;
        let mut tools: Registry<AnyTool> = Registry::new();
        proof {
            lemma_tool_names_differ();
        }
        let terminal = AnyTool::Terminal(TerminalTool);
        let read_file = AnyTool::ReadFile(ReadFileTool);
        let write_file = AnyTool::WriteFile(WriteFileTool);
        let web_search = AnyTool::WebSearch(WebSearchTool { api_key: resolve(search_key, "") });
        let web_fetch = AnyTool::WebFetch(WebFetchTool);
        let ghost t0 = seq![terminal];
        let ghost t1 = t0.push(read_file);
        let ghost t2 = t1.push(write_file);
        let ghost t3 = t2.push(web_search);
        proof {
            lemma_position(t0, read_file.name_spec());
            lemma_position(t1, write_file.name_spec());
            lemma_position(t2, web_search.name_spec());
            lemma_position(t3, web_fetch.name_spec());
        }
        tools.register(terminal);
        tools.register(read_file);
        tools.register(write_file);
        tools.register(web_search);
        tools.register(web_fetch);
        Agent {
            api_key: resolve(api_key, ""),
            api_base: resolve(api_base, "https://api.openai.com/v1"),
            model: resolve(model, "gpt-4-turbo"),
            workspace: resolve(workspace, "."),
            max_iterations: DEFAULT_MAX_ITERATIONS,
            tools,
        }
    }

    /// The same agent, with runs that may ask for `limit` completions.
    pub fn with_max_iterations(self, limit: usize) -> (r: Agent)
        ensures
            r@ == (AgentModel { max_iterations: limit as nat, ..self@ }),
            r.registry() == self.registry(),
    {
        let Agent { api_key, api_base, model, workspace, max_iterations: _, tools } = self;
        Agent { api_key, api_base, model, workspace, max_iterations: limit, tools }
    }

    /// The tools of the agent.
    pub fn tools(&self) -> (r: &Registry<AnyTool>)
        ensures
            *r == self.registry(),
            r.entries() == self@.tools,
    {
        &self.tools
    }

    /// The key for the completion endpoint.
    pub fn api_key(&self) -> (r: &str)
        ensures
            r@ == self@.api_key,
    {
        self.api_key.as_str()
    }

    /// The address of the completion endpoint.
    pub fn api_base(&self) -> (r: &str)
        ensures
            r@ == self@.api_base,
    {
        self.api_base.as_str()
    }

    /// The name of the model.
    pub fn model(&self) -> (r: &str)
        ensures
            r@ == self@.model,
    {
        self.model.as_str()
    }

    /// The directory that the agent works in.
    pub fn workspace(&self) -> (r: &str)
        ensures
            r@ == self@.workspace,
    {
        self.workspace.as_str()
    }

    /// The number of completions that a run may ask for.
    pub fn max_iterations(&self) -> (r: usize)
        ensures
            r == self@.max_iterations,
    {
        self.max_iterations
    }

    /// The system prompt: it presents the agent's tools, in the order in
    /// which the registry enumerates them.
    pub fn build_system_prompt(&self) -> (r: String)
        ensures
            r@ == prompt_text(self@.tools),
    {
        system_prompt(&self.tools)
    }

    /// Starts a run on the user's message: the history holds the system
    /// prompt and the message, and the first completion is asked for unless
    /// the agent allows none.
    pub fn run(&self, message: String, _session_id: String) -> (r: (Run, Step))
        ensures
            r.0@ == RunModel::begin(prompt_text(self@.tools), message@, self@.max_iterations).0,
            r.1@ == RunModel::begin(prompt_text(self@.tools), message@, self@.max_iterations).1,
    {
        Run::start(self.build_system_prompt(), message, self.max_iterations)
    }

    /// What a call of the completion endpoint is made with: the address of
    /// chat completions under the agent's endpoint, the agent's key and
    /// model, and the wish for a stream.
    pub fn completion_request(&self) -> (r: CompletionRequest)
        ensures
            r.url@ == self@.api_base + "/chat/completions"@,
            r.api_key@ == self@.api_key,
            r.model@ == self@.model,
            r.stream,
    {
        let mut url = self.api_base.clone();
        url.append("/chat/completions");
        CompletionRequest {
            url,
            api_key: self.api_key.clone(),
            model: self.model.clone(),
            stream: true,
        }
    }

    /// The message of the failure that the endpoint's answer stands for, if
    /// it stands for one.
    pub fn completion_failure(status: u16, status_line: &str, body: &str) -> (r: Option<String>)
        ensures
            match r {
                Some(message) => remote_failure(status, status_line@, body@) == Some(message@),
                None => remote_failure(status, status_line@, body@).is_none(),
            },
    {
        if status_is_success(status) {
            None
        } else {
            let mut message = "LLM Error: ".to_owned();
            message.append(status_line);
            message.append(" - ");
            message.append(body);
            Some(message)
        }
    }
}

} // verus!
