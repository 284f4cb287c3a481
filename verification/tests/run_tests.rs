use miniclaw::agent::{Agent, Settings};
use miniclaw::message::{AgentEvent, EventKind, Message, Role};
use miniclaw::registry::Registry;
use miniclaw::run::{Action, Phase, Run, Step};
use miniclaw::stream::StreamDecoder;
use miniclaw::tool::{ToolRequest, ToolResponse};
use miniclaw::tools::{AnyTool, TerminalTool, WebSearchTool};

fn defaults() -> Settings {
    Settings { api_key: None, api_base: None, model: None, workspace: None, search_key: None }
}

fn data_line(fragment: &str) -> String {
    let quoted = serde_json::Value::String(fragment.to_string()).to_string();
    format!("data: {{\"choices\":[{{\"index\":0,\"delta\":{{\"content\":{}}}}}]}}\n\n", quoted)
}

fn roles(history: &Vec<Message>) -> Vec<Role> {
    history.iter().map(|m| m.role).collect()
}

fn kinds(events: &Vec<AgentEvent>) -> Vec<EventKind> {
    events.iter().map(|e| e.kind).collect()
}

fn ok(stdout: &str) -> ToolResponse {
    ToolResponse::Process {
        success: true,
        code: Some(0),
        stdout: stdout.as_bytes().to_vec(),
        stderr: Vec::new(),
    }
}

fn shell_only() -> Registry<AnyTool> {
    let mut registry = Registry::new();
    registry.register(AnyTool::Terminal(TerminalTool));
    registry
}

#[test]
fn scenario_list_files() {
    let agent = Agent::new(defaults());
    let (run, step) = agent.run("list files".to_string(), "session".to_string());
    assert!(step.events.is_empty());
    assert!(matches!(step.action, Action::Complete));
    assert_eq!(run.history().len(), 2);
    assert_eq!(run.history()[0].content, agent.build_system_prompt());
    assert_eq!(run.history()[1].content, "list files");

    let response = "Thought: I will list files.\n<tool name=\"terminal\">ls</tool>";
    let mut decoder = StreamDecoder::new();
    let mut tokens: Vec<AgentEvent> = Vec::new();
    for fragment in ["Thought: I will", " list files.\n", "<tool name=\"terminal\">", "ls</tool>"] {
        tokens.extend(decoder.feed(data_line(fragment).as_bytes()));
    }
    tokens.extend(decoder.feed(b"data: [DONE]\n\n"));
    assert_eq!(tokens.len(), 4);
    assert!(tokens.iter().all(|e| e.kind == EventKind::Token));
    let rebuilt: String = tokens.iter().map(|e| e.content.as_str()).collect();
    assert_eq!(rebuilt, response);
    let text = decoder.finish();
    assert_eq!(text, response);

    let (run, step) = run.on_completion(agent.tools(), text);
    assert_eq!(kinds(&step.events), vec![EventKind::ToolStart]);
    assert_eq!(step.events[0].content, "terminal: ls");
    match step.action {
        Action::Perform(ToolRequest::Shell { command }) => assert_eq!(command, "ls"),
        other => panic!("unexpected action {:?}", other),
    }
    assert_eq!(run.phase(), Phase::AwaitingTool);
    assert_eq!(run.history().len(), 3);

    let (run, step) = run.on_response(agent.tools(), &ok("a.txt\nb.txt"));
    assert_eq!(kinds(&step.events), vec![EventKind::ToolEnd]);
    assert_eq!(step.events[0].content, "a.txt\nb.txt");
    assert!(matches!(step.action, Action::Complete));
    assert_eq!(run.phase(), Phase::AwaitingCompletion);
    assert_eq!(run.calls(), 2);
    let history = run.history();
    assert_eq!(history.len(), 4);
    assert_eq!(roles(history), vec![Role::System, Role::User, Role::Assistant, Role::User]);
    assert_eq!(history[2].content, response);
    assert_eq!(history[3].content, "<observation>\na.txt\nb.txt\n</observation>");
}

#[test]
fn scenario_no_directive() {
    let agent = Agent::new(defaults());
    let (run, _) = agent.run("what is two plus two".to_string(), "session".to_string());
    let (run, step) = run.on_completion(agent.tools(), "Thought: easy.\nFour.".to_string());
    assert_eq!(kinds(&step.events), vec![EventKind::Done]);
    assert_eq!(step.events[0].content, "");
    assert!(matches!(step.action, Action::Stop));
    assert_eq!(run.phase(), Phase::Done);
    assert!(run.is_over());
    assert_eq!(run.calls(), 1);
    assert_eq!(run.history().len(), 3);
    assert_eq!(roles(run.history()), vec![Role::System, Role::User, Role::Assistant]);
}

#[test]
fn nothing_happens_after_done() {
    let registry = shell_only();
    let (run, _) = Run::start("p".to_string(), "m".to_string(), 10);
    let (run, _) = run.on_completion(&registry, "done".to_string());
    let (run, step) = run.on_completion(&registry, "<tool name=\"terminal\">ls</tool>".to_string());
    assert!(step.events.is_empty());
    assert!(matches!(step.action, Action::Stop));
    let (run, step) = run.on_response(&registry, &ok("x"));
    assert!(step.events.is_empty());
    assert!(matches!(step.action, Action::Stop));
    let (run, step) = run.on_failure("late".to_string());
    assert!(step.events.is_empty());
    assert!(matches!(step.action, Action::Stop));
    assert_eq!(run.phase(), Phase::Done);
    assert_eq!(run.calls(), 1);
    assert_eq!(run.history().len(), 3);
}

#[test]
fn only_the_first_directive_is_dispatched() {
    let registry = shell_only();
    let (run, _) = Run::start("p".to_string(), "m".to_string(), 10);
    let text = "<tool name=\"terminal\">echo one</tool>\n<tool name=\"terminal\">echo two</tool>";
    let (run, step) = run.on_completion(&registry, text.to_string());
    assert_eq!(step.events.len(), 1);
    assert_eq!(step.events[0].content, "terminal: echo one");
    match step.action {
        Action::Perform(ToolRequest::Shell { command }) => assert_eq!(command, "echo one"),
        other => panic!("unexpected action {:?}", other),
    }
    let (run, step) = run.on_response(&registry, &ok("one\n"));
    assert_eq!(step.events.len(), 1);
    assert_eq!(step.events[0].content, "one\n");
    assert!(matches!(step.action, Action::Complete));
    assert_eq!(run.history().len(), 4);
    assert_eq!(run.history()[3].content, "<observation>\none\n\n</observation>");
}

#[test]
fn unknown_tool_is_observed_and_the_run_goes_on() {
    let registry = shell_only();
    let (run, _) = Run::start("p".to_string(), "m".to_string(), 10);
    let (run, step) = run.on_completion(&registry, "<tool name=\"X\">Y</tool>".to_string());
    assert_eq!(kinds(&step.events), vec![EventKind::ToolStart, EventKind::ToolEnd]);
    assert_eq!(step.events[0].content, "X: Y");
    assert_eq!(step.events[1].content, "Error: Tool 'X' not found");
    assert!(matches!(step.action, Action::Complete));
    assert_eq!(run.phase(), Phase::AwaitingCompletion);
    assert_eq!(run.calls(), 2);
    assert_eq!(run.history().len(), 4);
    assert_eq!(
        run.history()[3].content,
        "<observation>\nError: Tool 'X' not found\n</observation>"
    );
}

#[test]
fn tool_that_asks_for_no_work_is_observed() {
    let mut registry = Registry::new();
    registry.register(AnyTool::WebSearch(WebSearchTool { api_key: String::new() }));
    let (run, _) = Run::start("p".to_string(), "m".to_string(), 10);
    let (run, step) =
        run.on_completion(&registry, "<tool name=\"web_search\">rust</tool>".to_string());
    assert_eq!(kinds(&step.events), vec![EventKind::ToolStart, EventKind::ToolEnd]);
    assert_eq!(step.events[1].content, "Error executing tool: BRAVE_API_KEY not configured");
    assert!(matches!(step.action, Action::Complete));
    assert_eq!(
        run.history()[3].content,
        "<observation>\nError executing tool: BRAVE_API_KEY not configured\n</observation>"
    );
}

#[test]
fn failed_work_is_observed() {
    let registry = shell_only();
    let (run, _) = Run::start("p".to_string(), "m".to_string(), 10);
    let (run, _) = run.on_completion(&registry, "<tool name=\"terminal\">ls</tool>".to_string());
    let (run, step) =
        run.on_response(&registry, &ToolResponse::Failed("No such file or directory".to_string()));
    assert_eq!(kinds(&step.events), vec![EventKind::ToolEnd]);
    assert_eq!(step.events[0].content, "Error executing tool: No such file or directory");
    assert!(matches!(step.action, Action::Complete));
    assert_eq!(run.phase(), Phase::AwaitingCompletion);
}

#[test]
fn tool_that_left_the_registry_is_not_found() {
    let registry = shell_only();
    let (run, _) = Run::start("p".to_string(), "m".to_string(), 10);
    let (run, _) = run.on_completion(&registry, "<tool name=\"terminal\">ls</tool>".to_string());
    let empty: Registry<AnyTool> = Registry::new();
    let (_, step) = run.on_response(&empty, &ok("x"));
    assert_eq!(step.events[0].content, "Error: Tool 'terminal' not found");
}

#[test]
fn completion_failure_ends_the_run() {
    let registry = shell_only();
    let (run, _) = Run::start("p".to_string(), "m".to_string(), 10);
    let (run, step) = run.on_failure("LLM Error: 401 Unauthorized - no key".to_string());
    assert!(step.events.is_empty());
    match step.action {
        Action::Fail(message) => assert_eq!(message, "LLM Error: 401 Unauthorized - no key"),
        other => panic!("unexpected action {:?}", other),
    }
    assert_eq!(run.phase(), Phase::Failed);
    assert!(run.is_over());
    assert_eq!(run.history().len(), 2);
    let (run, step) = run.on_completion(&registry, "late".to_string());
    assert!(step.events.is_empty());
    assert!(matches!(step.action, Action::Stop));
    assert_eq!(run.history().len(), 2);
}

#[test]
fn never_more_completions_than_the_limit() {
    for limit in 0..6usize {
        let registry = shell_only();
        let (mut run, first) = Run::start("p".to_string(), "m".to_string(), limit);
        let mut step: Step = first;
        let mut asked = 0;
        let mut done_events = 0;
        for _ in 0..50 {
            done_events += step.events.iter().filter(|e| e.kind == EventKind::Done).count();
            let next = match step.action {
                Action::Complete => {
                    asked += 1;
                    run.on_completion(&registry, "<tool name=\"terminal\">ls</tool>".to_string())
                }
                Action::Perform(_) => run.on_response(&registry, &ok("a")),
                Action::Stop | Action::Fail(_) => {
                    step = Step { events: Vec::new(), action: Action::Stop };
                    break;
                }
            };
            run = next.0;
            step = next.1;
        }
        assert!(matches!(step.action, Action::Stop));
        assert_eq!(asked, limit);
        assert_eq!(run.calls(), limit);
        assert_eq!(run.limit(), limit);
        assert_eq!(run.phase(), Phase::Exhausted);
        assert_eq!(done_events, 0);
        assert_eq!(run.history().len(), 2 + 2 * limit);
        assert_eq!(run.history().last().unwrap().role, Role::User);
    }
}

#[test]
fn unknown_tools_also_spend_the_budget() {
    let registry: Registry<AnyTool> = Registry::new();
    let (mut run, mut step) = Run::start("p".to_string(), "m".to_string(), 3);
    let mut asked = 0;
    while matches!(step.action, Action::Complete) {
        asked += 1;
        let next = run.on_completion(&registry, "<tool name=\"nope\">x</tool>".to_string());
        run = next.0;
        step = next.1;
    }
    assert_eq!(asked, 3);
    assert!(matches!(step.action, Action::Stop));
    assert_eq!(kinds(&step.events), vec![EventKind::ToolStart, EventKind::ToolEnd]);
    assert_eq!(run.phase(), Phase::Exhausted);
}

#[test]
fn roles_alternate_throughout() {
    let registry = shell_only();
    let (mut run, mut step) = Run::start("p".to_string(), "m".to_string(), 4);
    let mut turn = 0;
    loop {
        let history = run.history();
        assert_eq!(history[0].role, Role::System);
        for (i, m) in history.iter().enumerate().skip(1) {
            let want = if i % 2 == 1 { Role::User } else { Role::Assistant };
            assert_eq!(m.role, want);
        }
        let last = history.last().unwrap().role;
        match run.phase() {
            Phase::AwaitingCompletion | Phase::Exhausted | Phase::Failed => {
                assert_eq!(last, Role::User)
            }
            Phase::AwaitingTool | Phase::Done => assert_eq!(last, Role::Assistant),
        }
        let next = match step.action {
            Action::Complete => {
                turn += 1;
                let text = if turn < 3 { "<tool name=\"terminal\">ls</tool>" } else { "all done" };
                run.on_completion(&registry, text.to_string())
            }
            Action::Perform(_) => run.on_response(&registry, &ok("a")),
            Action::Stop | Action::Fail(_) => break,
        };
        run = next.0;
        step = next.1;
    }
    assert_eq!(run.phase(), Phase::Done);
    assert_eq!(run.history().len(), 7);
    assert_eq!(run.history().last().unwrap().role, Role::Assistant);
}

#[test]
fn a_run_without_budget_stops_at_once() {
    let (run, step) = Run::start("p".to_string(), "m".to_string(), 0);
    assert!(step.events.is_empty());
    assert!(matches!(step.action, Action::Stop));
    assert_eq!(run.phase(), Phase::Exhausted);
    assert_eq!(run.calls(), 0);
    assert_eq!(run.history().len(), 2);
}

#[test]
fn the_agent_limits_its_runs() {
    let agent = Agent::new(defaults()).with_max_iterations(1);
    assert_eq!(agent.max_iterations(), 1);
    let (run, step) = agent.run("m".to_string(), "s".to_string());
    assert!(matches!(step.action, Action::Complete));
    let (run, step) = run.on_completion(agent.tools(), "<tool name=\"nope\">x</tool>".to_string());
    assert!(matches!(step.action, Action::Stop));
    assert_eq!(run.phase(), Phase::Exhausted);
    let agent = Agent::new(defaults()).with_max_iterations(0);
    let (_, step) = agent.run("m".to_string(), "s".to_string());
    assert!(matches!(step.action, Action::Stop));
}
