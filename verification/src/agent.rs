//! The agent: how the events of the engine become the reports of a turn,
//! how a loop is started for a configuration, and how a single question is
//! asked and answered.

use vstd::prelude::*;
use crate::config::{AgentConfig, AskForApproval, SandboxPolicy};
use crate::controller::{AgentController, ControlCommand, ControllerView, ExecutionState,
    ExecutionStateView};
use crate::dict::Dictionary;
use crate::execution::{actions_show, execution_loop, ActionView, Awaited, ExecutionContext,
    LoopAction, LoopEvent, LoopPhase, LoopView};
use crate::mcp::McpServerConfig;
use crate::messages::InputMessage;
use crate::tools::{clone_strings, ToolConfig};
use crate::engine::EngineEvent;
use crate::error::{AgentError, AgentErrorView, OutputErrorView};
use crate::json::{integer_model, object1, object2, object3, optional_model, text_array, JsonModel,
    JsonValue, NumberModel};
use crate::messages::{general_error_view, OutputData, OutputDataView, OutputMessage};
use crate::text::{decode_lossy, join, lossy_text, trim, trimmed};

verus! {

/// What a turn reports for an event of the engine, and `None` for an event
/// that is not reported.
///
/// Answers and reasoning pass through, whole or in fragments, each fragment
/// for itself. The start and the end of a command, of a call to an MCP tool,
/// of a web search and of a patch become the start and the end of a tool,
/// with what is known of them as a JSON object. What a command writes
/// becomes the output of a tool. The end of the task and the shutdown of the
/// engine both become `Completed`; an error, a broken stream and a turn that
/// was broken off become `Error`. The bookkeeping of the engine (the account
/// of tokens, the set-up of the session, the history, the list of tools) is
/// not reported, nor is a change of the plan, which goes its own way, nor any
/// event that is not named here.
pub open spec fn normalized(event: EngineEvent) -> Option<OutputDataView> {
    match event {
        EngineEvent::AgentMessage { message } => Some(
            OutputDataView::Primary { content: message@ },
        ),
        EngineEvent::AgentMessageDelta { delta } => Some(
            OutputDataView::PrimaryDelta { content: delta@ },
        ),
        EngineEvent::AgentReasoning { text } => Some(OutputDataView::Reasoning { content: text@ }),
        EngineEvent::AgentReasoningDelta { delta } => Some(
            OutputDataView::ReasoningDelta { content: delta@ },
        ),
        EngineEvent::AgentReasoningRawContent { text } => Some(
            OutputDataView::Reasoning { content: text@ },
        ),
        EngineEvent::AgentReasoningRawContentDelta { delta } => Some(
            OutputDataView::ReasoningDelta { content: delta@ },
        ),
        EngineEvent::TaskComplete => Some(OutputDataView::Completed),
        EngineEvent::TaskStarted => Some(OutputDataView::Start),
        EngineEvent::Error { message } => Some(general_error_view(message@)),
        EngineEvent::ExecCommandBegin { command } => Some(
            OutputDataView::ToolStart {
                tool_name: "exec_command"@,
                arguments: object1("command"@, text_array(command@)),
            },
        ),
        EngineEvent::ExecCommandEnd { exit_code, call_id } => Some(
            OutputDataView::ToolComplete {
                tool_name: "exec_command"@,
                result: object2(
                    "exit_code"@,
                    integer_model(exit_code as int),
                    "call_id"@,
                    JsonModel::Text(call_id@),
                ),
            },
        ),
        EngineEvent::McpToolCallBegin { server, tool, arguments } => Some(
            OutputDataView::ToolStart {
                tool_name: tool@,
                arguments: object2(
                    "server"@,
                    JsonModel::Text(server@),
                    "arguments"@,
                    optional_model(arguments),
                ),
            },
        ),
        EngineEvent::McpToolCallEnd { server, tool, success, result } => Some(
            OutputDataView::ToolComplete {
                tool_name: tool@,
                result: object3(
                    "server"@,
                    JsonModel::Text(server@),
                    "success"@,
                    JsonModel::Bool(success),
                    "result"@,
                    result@,
                ),
            },
        ),
        EngineEvent::WebSearchBegin { query } => Some(
            OutputDataView::ToolStart {
                tool_name: "web_search"@,
                arguments: object1("query"@, JsonModel::Text(query@)),
            },
        ),
        EngineEvent::PatchApplyBegin { changes_count } => Some(
            OutputDataView::ToolStart {
                tool_name: "apply_patch"@,
                arguments: object1(
                    "changes_count"@,
                    JsonModel::Number(NumberModel::PosInt(changes_count as nat)),
                ),
            },
        ),
        EngineEvent::PatchApplyEnd { success } => Some(
            OutputDataView::ToolComplete {
                tool_name: "apply_patch"@,
                result: object2(
                    "success"@,
                    JsonModel::Bool(success),
                    "message"@,
                    JsonModel::Text("Patch application finished"@),
                ),
            },
        ),
        EngineEvent::ExecCommandOutputDelta { chunk } => Some(
            OutputDataView::ToolOutput { tool_name: "exec_command"@, output: lossy_text(chunk@) },
        ),
        EngineEvent::StreamError { message } => Some(general_error_view(message@)),
        EngineEvent::TokenCount => None,
        EngineEvent::SessionConfigured => None,
        EngineEvent::ConversationHistory => None,
        EngineEvent::McpListToolsResponse => None,
        EngineEvent::GetHistoryEntryResponse => None,
        EngineEvent::PlanUpdate { .. } => None,
        EngineEvent::TurnAborted => Some(general_error_view("Turn was aborted"@)),
        EngineEvent::ShutdownComplete => Some(OutputDataView::Completed),
        EngineEvent::Other => None,
    }
}

/// What a turn reports for an event of the engine, if anything.
pub fn convert_event_to_output(event: &EngineEvent) -> (r: Option<OutputData>)
    ensures
        r is Some == normalized(*event) is Some,
        r matches Some(d) ==> Some(d@) == normalized(*event),
{
    match event {
        EngineEvent::AgentMessage { message } => Some(
            OutputData::Primary { content: message.clone() },
        ),
        EngineEvent::AgentMessageDelta { delta } => Some(
            OutputData::PrimaryDelta { content: delta.clone() },
        ),
        EngineEvent::AgentReasoning { text } => Some(OutputData::Reasoning { content: text.clone() }),
        EngineEvent::AgentReasoningDelta { delta } => Some(
            OutputData::ReasoningDelta { content: delta.clone() },
        ),
        EngineEvent::AgentReasoningRawContent { text } => Some(
            OutputData::Reasoning { content: text.clone() },
        ),
        EngineEvent::AgentReasoningRawContentDelta { delta } => Some(
            OutputData::ReasoningDelta { content: delta.clone() },
        ),
        EngineEvent::TaskComplete => Some(OutputData::Completed),
        EngineEvent::TaskStarted => Some(OutputData::Start),
        EngineEvent::Error { message } => Some(OutputData::general_error(message.as_str())),
        EngineEvent::ExecCommandBegin { command } => Some(
            OutputData::ToolStart {
                tool_name: "exec_command".to_string(),
                arguments: JsonValue::object1("command", JsonValue::strings(command)),
            },
        ),
        EngineEvent::ExecCommandEnd { exit_code, call_id } => Some(
            OutputData::ToolComplete {
                tool_name: "exec_command".to_string(),
                result: JsonValue::object2(
                    "exit_code",
                    JsonValue::integer(*exit_code as i64),
                    "call_id",
                    JsonValue::Text(call_id.clone()),
                ),
            },
        ),
        EngineEvent::McpToolCallBegin { server, tool, arguments } => {
            let given = match arguments {
                Some(v) => v.duplicate(),
                None => JsonValue::Null,
            };
            Some(
                OutputData::ToolStart {
                    tool_name: tool.clone(),
                    arguments: JsonValue::object2(
                        "server",
                        JsonValue::Text(server.clone()),
                        "arguments",
                        given,
                    ),
                },
            )
        },
        EngineEvent::McpToolCallEnd { server, tool, success, result } => Some(
            OutputData::ToolComplete {
                tool_name: tool.clone(),
                result: JsonValue::object3(
                    "server",
                    JsonValue::Text(server.clone()),
                    "success",
                    JsonValue::Bool(*success),
                    "result",
                    result.duplicate(),
                ),
            },
        ),
        EngineEvent::WebSearchBegin { query } => Some(
            OutputData::ToolStart {
                tool_name: "web_search".to_string(),
                arguments: JsonValue::object1("query", JsonValue::Text(query.clone())),
            },
        ),
        EngineEvent::PatchApplyBegin { changes_count } => Some(
            OutputData::ToolStart {
                tool_name: "apply_patch".to_string(),
                arguments: JsonValue::object1(
                    "changes_count",
                    JsonValue::Number(crate::json::JsonNumber::PosInt(*changes_count as u64)),
                ),
            },
        ),
        EngineEvent::PatchApplyEnd { success } => Some(
            OutputData::ToolComplete {
                tool_name: "apply_patch".to_string(),
                result: JsonValue::object2(
                    "success",
                    JsonValue::Bool(*success),
                    "message",
                    JsonValue::text("Patch application finished"),
                ),
            },
        ),
        EngineEvent::ExecCommandOutputDelta { chunk } => Some(
            OutputData::ToolOutput {
                tool_name: "exec_command".to_string(),
                output: decode_lossy(chunk),
            },
        ),
        EngineEvent::StreamError { message } => Some(OutputData::general_error(message.as_str())),
        EngineEvent::TokenCount => None,
        EngineEvent::SessionConfigured => None,
        EngineEvent::ConversationHistory => None,
        EngineEvent::McpListToolsResponse => None,
        EngineEvent::GetHistoryEntryResponse => None,
        EngineEvent::PlanUpdate { .. } => None,
        EngineEvent::TurnAborted => Some(OutputData::general_error("Turn was aborted")),
        EngineEvent::ShutdownComplete => Some(OutputData::Completed),
        EngineEvent::Other => None,
    }
}

/// What the reports say, without their numbers and times.
pub open spec fn reports(outputs: Seq<OutputMessage>) -> Seq<OutputDataView> {
    Seq::new(outputs.len(), |i: int| outputs[i].data@)
}

/// `text` put in front of what was gathered behind it.
pub open spec fn prepend(text: Seq<char>, rest: Result<Seq<char>, OutputErrorView>) -> Result<
    Seq<char>,
    OutputErrorView,
> {
    match rest {
        Ok(more) => Ok(text + more),
        Err(error) => Err(error),
    }
}

/// The answer that a sequence of reports holds: the answers and the
/// fragments of answers up to the first `Completed`, joined in their order,
/// or the first error where one comes before any `Completed`. Reports of
/// other kinds are passed over, and reports that simply end give what they
/// held so far.
pub open spec fn gather(outputs: Seq<OutputDataView>) -> Result<Seq<char>, OutputErrorView>
    decreases outputs.len(),
{
    if outputs.len() == 0 {
        Ok(Seq::empty())
    } else {
        let rest = outputs.subrange(1, outputs.len() as int);
        match outputs[0] {
            OutputDataView::Primary { content } => prepend(content, gather(rest)),
            OutputDataView::PrimaryDelta { content } => prepend(content, gather(rest)),
            OutputDataView::Completed => Ok(Seq::empty()),
            OutputDataView::Error { error } => Err(error),
            _ => gather(rest),
        }
    }
}

/// What a query gives for what its reports hold: the answer without the
/// whitespace around it, or the failure of the query.
pub open spec fn query_result(gathered: Result<Seq<char>, OutputErrorView>) -> Result<
    Seq<char>,
    AgentErrorView,
> {
    match gathered {
        Ok(text) => Ok(trimmed(text)),
        Err(error) => Err(
            AgentErrorView::Execution { message: "Query failed: "@ + error.debug_text() },
        ),
    }
}

/// Whether `result` is what `wanted` stands for.
pub open spec fn result_shows(
    result: Result<String, AgentError>,
    wanted: Result<Seq<char>, AgentErrorView>,
) -> bool {
    match wanted {
        Ok(text) => result matches Ok(s) && s@ == text,
        Err(error) => result matches Err(e) && e@ == error,
    }
}

/// Gathers the answer of a query from the reports of its turn.
pub fn collect_response(outputs: &Vec<OutputMessage>) -> (r: Result<String, AgentError>)
    ensures
        result_shows(r, query_result(gather(reports(outputs@)))),
{
    let mut text = String::new();
    let mut i: usize = 0;
    let ghost all = reports(outputs@);
    assert(all.subrange(0, all.len() as int) =~= all);
    while i < outputs.len()
        invariant
            i <= outputs@.len(),
            all == reports(outputs@),
            gather(all) == prepend(text@, gather(all.subrange(i as int, all.len() as int))),
        decreases outputs@.len() - i,
    {
        let ghost tail = all.subrange(i as int, all.len() as int);
        let ghost before = text@;
        proof {
            assert(tail[0] == outputs@[i as int].data@);
            assert(tail.subrange(1, tail.len() as int) =~= all.subrange(
                i + 1,
                all.len() as int,
            ));
        }
        match &outputs[i].data {
            OutputData::Primary { content } => {
                text.append(content.as_str());
                proof {
                    let rest = gather(all.subrange(i + 1, all.len() as int));
                    assert(prepend(before, prepend(content@, rest)) == prepend(text@, rest)) by {
                        if let Ok(more) = rest {
                            assert(before + (content@ + more) =~= (before + content@) + more);
                        }
                    }
                }
            },
            OutputData::PrimaryDelta { content } => {
                text.append(content.as_str());
                proof {
                    let rest = gather(all.subrange(i + 1, all.len() as int));
                    assert(prepend(before, prepend(content@, rest)) == prepend(text@, rest)) by {
                        if let Ok(more) = rest {
                            assert(before + (content@ + more) =~= (before + content@) + more);
                        }
                    }
                }
            },
            OutputData::Completed => {
                proof {
                    assert(text@ + Seq::<char>::empty() =~= text@);
                }
                return Ok(trim(text.as_str()).to_string());
            },
            OutputData::Error { error } => {
                return Err(
                    AgentError::Execution {
                        message: join("Query failed: ", error.debug_text().as_str()),
                    },
                );
            },
            _ => {},
        }
        i = i + 1;
    }
    proof {
        assert(text@ + Seq::<char>::empty() =~= text@);
    }
    Ok(trim(text.as_str()).to_string())
}

/// The fragments joined in their order.
pub open spec fn joined_text(fragments: Seq<Seq<char>>) -> Seq<char>
    decreases fragments.len(),
{
    if fragments.len() == 0 {
        Seq::empty()
    } else {
        fragments[0] + joined_text(fragments.subrange(1, fragments.len() as int))
    }
}

/// The fragments as the engine reports them, one event for each.
pub open spec fn delta_events(fragments: Seq<Seq<char>>, events: Seq<EngineEvent>) -> bool {
    &&& events.len() == fragments.len()
    &&& forall|i: int|
        0 <= i < events.len() ==> is_fragment(#[trigger] events[i], fragments[i])
}

/// Whether the event is the fragment `text` of an answer.
pub open spec fn is_fragment(event: EngineEvent, text: Seq<char>) -> bool {
    event matches EngineEvent::AgentMessageDelta { delta } && delta@ == text
}

/// The fragments of an answer, joined in the order in which they come, are
/// the answer: what the reports for the engine's fragments hold, followed by
/// any other reports, is what one report of the whole answer holds, followed
/// by the same reports.
pub proof fn lemma_fragments_make_the_answer(
    fragments: Seq<Seq<char>>,
    events: Seq<EngineEvent>,
    rest: Seq<OutputDataView>,
)
    requires
        delta_events(fragments, events),
    ensures
        forall|i: int|
            0 <= i < events.len() ==> normalized(#[trigger] events[i]) == Some(
                OutputDataView::PrimaryDelta { content: fragments[i] },
            ),
        gather(
            Seq::new(
                fragments.len(),
                |i: int| OutputDataView::PrimaryDelta { content: fragments[i] },
            ) + rest,
        ) == prepend(joined_text(fragments), gather(rest)),
        gather(seq![OutputDataView::Primary { content: joined_text(fragments) }] + rest)
            == prepend(joined_text(fragments), gather(rest)),
    decreases fragments.len(),
{
    let deltas = Seq::new(
        fragments.len(),
        |i: int| OutputDataView::PrimaryDelta { content: fragments[i] },
    );
    let whole = seq![OutputDataView::Primary { content: joined_text(fragments) }] + rest;
    assert(whole.subrange(1, whole.len() as int) =~= rest);
    if fragments.len() == 0 {
        assert(deltas + rest =~= rest);
        if let Ok(more) = gather(rest) {
            assert(Seq::<char>::empty() + more =~= more);
        }
    } else {
        let later = fragments.subrange(1, fragments.len() as int);
        let later_events = events.subrange(1, events.len() as int);
        assert(delta_events(later, later_events)) by {
            assert forall|i: int| 0 <= i < later_events.len() implies is_fragment(
                #[trigger] later_events[i],
                later[i],
            ) by {
                assert(later_events[i] == events[i + 1]);
            }
        }
        lemma_fragments_make_the_answer(later, later_events, rest);
        let later_deltas = Seq::new(
            later.len(),
            |i: int| OutputDataView::PrimaryDelta { content: later[i] },
        );
        let all = deltas + rest;
        assert(all.subrange(1, all.len() as int) =~= later_deltas + rest);
        assert(all[0] == OutputDataView::PrimaryDelta { content: fragments[0] });
        if let Ok(more) = gather(rest) {
            assert(fragments[0] + (joined_text(later) + more) =~= (fragments[0] + joined_text(
                later,
            )) + more);
        }
    }
}

/// How far the sandbox of the engine goes.
#[derive(Clone, Copy, Debug, PartialEq, Eq, Structural)]
pub enum SandboxMode {
    ReadOnly,
    WorkspaceWrite,
    DangerFullAccess,
}

/// The settings of the engine that an agent's configuration decides. A
/// setting that is `None` is left as the engine has it.
#[derive(Debug)]
pub struct ConfigOverrides {
    pub model: Option<String>,
    pub cwd: Option<String>,
    pub approval_policy: Option<AskForApproval>,
    pub sandbox_mode: Option<SandboxMode>,
    pub model_provider: Option<String>,
    pub config_profile: Option<String>,
    pub codex_linux_sandbox_exe: Option<String>,
    pub base_instructions: Option<String>,
    pub include_plan_tool: Option<bool>,
    pub include_apply_patch_tool: Option<bool>,
    pub disable_response_storage: Option<bool>,
    pub show_raw_agent_reasoning: Option<bool>,
    pub tools_web_search_request: Option<bool>,
}

/// An MCP server as the engine starts one: a command, its arguments and,
/// where there is any, its environment.
#[derive(Debug)]
pub struct EngineServerConfig {
    pub command: String,
    pub args: Vec<String>,
    pub env: Option<Dictionary<String>>,
}

/// The mode of the engine's sandbox for a policy.
pub open spec fn sandbox_mode_of(policy: SandboxPolicy) -> SandboxMode {
    match policy {
        SandboxPolicy::DangerFullAccess => SandboxMode::DangerFullAccess,
        SandboxPolicy::ReadOnly => SandboxMode::ReadOnly,
        SandboxPolicy::WorkspaceWrite { .. } => SandboxMode::WorkspaceWrite,
    }
}

/// Whether `server` is what the engine is given for `config`. A server that
/// is started as a process keeps its command and arguments, and its
/// environment where that is not empty. The engine cannot reach a server over
/// HTTP: for such a server it is given a command that only says so.
pub open spec fn engine_server_for(config: McpServerConfig, server: EngineServerConfig) -> bool {
    match config {
        McpServerConfig::Command { command, args, env, .. } => {
            &&& server.command == command
            &&& server.args@ == args@
            &&& if env@ == Map::<Seq<char>, Seq<char>>::empty() {
                server.env is None
            } else {
                server.env matches Some(e) && e@ == env@
            }
        },
        McpServerConfig::Http { .. } => {
            &&& server.command@ == "echo"@
            &&& server.args@.len() == 1
            &&& server.args@[0]@ == "HTTP MCP servers not supported"@
            &&& server.env is None
        },
    }
}

/// Whether one of the tools searches the web.
pub open spec fn has_web_search(tools: Seq<ToolConfig>) -> bool {
    exists|i: int| 0 <= i < tools.len() && #[trigger] tools[i] is WebSearch
}

/// Whether one of the tools applies patches.
pub open spec fn has_apply_patch(tools: Seq<ToolConfig>) -> bool {
    exists|i: int| 0 <= i < tools.len() && #[trigger] tools[i] is ApplyPatch
}

/// Whether `overrides` are the settings that `config` decides: its model,
/// working directory, policies and instructions; the plan tool always; the
/// patch tool and the web search where the configuration has such a tool;
/// answers stored, and the raw reasoning not shown.
pub open spec fn overrides_for(config: AgentConfig, overrides: ConfigOverrides) -> bool {
    &&& overrides.model matches Some(m) && m@ == config.spec_model()@
    &&& overrides.cwd == Some(config.spec_working_directory())
    &&& overrides.approval_policy == Some(config.spec_approval_policy())
    &&& overrides.sandbox_mode == Some(sandbox_mode_of(config.spec_sandbox_policy()))
    &&& overrides.model_provider is None
    &&& overrides.config_profile is None
    &&& overrides.codex_linux_sandbox_exe is None
    &&& match config.spec_system_prompt() {
        Some(prompt) => overrides.base_instructions matches Some(b) && b@ == prompt@,
        None => overrides.base_instructions is None,
    }
    &&& overrides.include_plan_tool == Some(true)
    &&& overrides.include_apply_patch_tool == Some(has_apply_patch(config.spec_tools()@))
    &&& overrides.disable_response_storage == Some(false)
    &&& overrides.show_raw_agent_reasoning == Some(false)
    &&& overrides.tools_web_search_request == Some(has_web_search(config.spec_tools()@))
}

/// The error of a conversation that could not be created.
pub open spec fn conversation_failure(reason: Seq<char>) -> AgentErrorView {
    AgentErrorView::Config { message: "Failed to create conversation: "@ + reason }
}

/// The error of a loop whose task did not end in order.
pub open spec fn task_failure(reason: Seq<char>) -> AgentErrorView {
    AgentErrorView::Execution { message: "Agent execution task failed: "@ + reason }
}

/// The loop as `execute` starts it around `controller`: running, taking
/// commands, and awaiting its first event.
pub open spec fn started(controller: ControllerView) -> LoopView {
    LoopView {
        controller: ControllerView {
            state: ExecutionStateView::Running,
            active: true,
            ..controller
        },
        phase: LoopPhase::AwaitingEvent,
    }
}

/// The events of a query: the one input, the word that its `Start` was
/// sent, what the engine and the holders of the session do about it, and the
/// end of the inputs.
pub open spec fn query_events(input: InputMessage, replies: Seq<LoopEvent>) -> Seq<LoopEvent> {
    seq![LoopEvent::Input(input), LoopEvent::StartSent] + replies + seq![LoopEvent::InputClosed]
}

/// What the actions report, in order.
pub open spec fn emitted(actions: Seq<ActionView>) -> Seq<OutputDataView>
    decreases actions.len(),
{
    if actions.len() == 0 {
        Seq::empty()
    } else {
        match actions.last() {
            ActionView::Emit { data, .. } => emitted(actions.drop_last()).push(data),
            _ => emitted(actions.drop_last()),
        }
    }
}

fn outputs_of(actions: Vec<LoopAction>, Ghost(views): Ghost<Seq<ActionView>>) -> (r: Vec<
    OutputMessage,
>)
    requires
        actions_show(actions@, views),
    ensures
        reports(r@) == emitted(views),
{
    let mut out: Vec<OutputMessage> = Vec::new();
    let ghost all = actions@;
    assert(reports(out@) =~= emitted(views.take(0)));
    for action in it: actions
        invariant
            it.seq() == all,
            actions_show(all, views),
            reports(out@) == emitted(views.take(it.index() as int)),
    {
        let ghost n = it.index() as int;
        let ghost before = out@;
        proof {
            assert(views.take(n + 1).drop_last() =~= views.take(n));
            assert(views.take(n + 1).last() == views[n]);
            assert(all[n].shows(views[n]));
        }
        match action {
            LoopAction::Emit(message) => {
                out.push(message);
                proof {
                    assert(reports(out@) =~= reports(before).push(message.data@));
                }
            },
            _ => {},
        }
    }
    proof {
        assert(views.take(views.len() as int) =~= views);
    }
    out
}

/// An agent: a configuration, and the state of its session.
pub struct Agent {
    config: AgentConfig,
    controller: AgentController,
}

/// A loop that was started for an agent.
#[derive(Debug)]
pub struct AgentHandle {
    context: ExecutionContext,
}

impl View for AgentHandle {
    type V = LoopView;

    closed spec fn view(&self) -> LoopView {
        self.context@
    }
}

impl AgentHandle {
    /// The state of the session that the loop runs.
    pub fn controller(&self) -> (r: &AgentController)
        ensures
            r@ == self@.controller,
    {
        self.context.controller()
    }

    /// Takes one event and says what is to be done about it.
    pub fn step(&mut self, event: LoopEvent) -> (r: Vec<LoopAction>)
        ensures
            final(self)@ == old(self)@.step(event).next,
            actions_show(r@, old(self)@.step(event).actions),
    {
        self.context.step(event)
    }

    /// The phase of the loop.
    pub fn phase(&self) -> (r: &LoopPhase)
        ensures
            *r == self@.phase,
    {
        self.context.phase()
    }

    /// Whether the loop has ended.
    pub fn has_exited(&self) -> (r: bool)
        ensures
            r == (self@.phase is Exited),
    {
        self.context.has_exited()
    }

    /// What the driver of the loop is to wait for.
    pub fn awaits(&self) -> (r: Awaited)
        ensures
            r == self@.awaited(),
    {
        self.context.awaits()
    }

    /// Answers a command that did not reach the loop: the session answers
    /// for itself where the loop has ended, and the command counts as not
    /// handed over where it has not.
    pub fn late_command(&mut self, command: ControlCommand) -> (r: Result<(), AgentError>)
        ensures
            final(self)@.phase == old(self)@.phase,
            old(self)@.phase is Exited ==> final(self)@.controller == old(self)@.controller.request(
                command,
            ) && match r {
                Ok(_) => old(self)@.controller.answer() is Ok,
                Err(e) => old(self)@.controller.answer() == Err::<(), AgentErrorView>(e@),
            },
            !(old(self)@.phase is Exited) ==> final(self)@ == old(self)@ && (r matches Err(e) && e@
                == command.send_failure_view()),
    {
        self.context.late_command(command)
    }

    /// Gives the state of the session back when the loop is done with it.
    pub fn into_controller(self) -> (r: AgentController)
        ensures
            r@ == self@.controller,
    {
        self.context.into_controller()
    }

    /// The result of the loop, from what became of its task: the task's own
    /// result where the task ended in order, and an error with the reason
    /// where it did not.
    pub fn await_completion(self, joined: Result<Result<(), AgentError>, String>) -> (r: Result<
        (),
        AgentError,
    >)
        ensures
            match joined {
                Ok(result) => r == result,
                Err(reason) => r matches Err(e) && e@ == task_failure(reason@),
            },
    {
        task_result(joined)
    }
}

/// The result of a loop, from what became of its task: the task's own
/// result where the task ended in order, and an error with the reason where
/// it did not.
pub fn task_result(joined: Result<Result<(), AgentError>, String>) -> (r: Result<(), AgentError>)
    ensures
        match joined {
            Ok(result) => r == result,
            Err(reason) => r matches Err(e) && e@ == task_failure(reason@),
        },
{
    match joined {
        Ok(result) => result,
        Err(reason) => Err(
            AgentError::Execution {
                message: join("Agent execution task failed: ", reason.as_str()),
            },
        ),
    }
}

impl Agent {
    /// The agent's configuration.
    pub closed spec fn spec_config(self) -> AgentConfig {
        self.config
    }

    /// The state of the agent's session.
    pub closed spec fn session(self) -> ControllerView {
        self.controller@
    }

    /// An agent with the configuration `config`, whose session has not begun.
    pub fn new(config: AgentConfig) -> (r: Result<Agent, AgentError>)
        ensures
            r matches Ok(agent) && agent.spec_config() == config && agent.session() == (
            ControllerView {
                state: ExecutionStateView::Idle,
                turn_count: 0,
                is_paused: false,
                should_stop: false,
                active: true,
            }),
    {
        Ok(Agent { config, controller: AgentController::new() })
    }

    /// The agent's configuration.
    pub fn config(&self) -> (r: &AgentConfig)
        ensures
            *r == self.spec_config(),
    {
        &self.config
    }

    /// The state of the agent's session.
    pub fn controller(&self) -> (r: &AgentController)
        ensures
            r@ == self.session(),
    {
        &self.controller
    }

    /// Starts a loop for the agent. `conversation` says what became of
    /// creating the conversation with the engine: where that failed, no loop
    /// is started and nothing changes; else the session is running, takes
    /// commands, and the loop awaits its first event.
    pub fn execute(&mut self, conversation: Result<(), String>) -> (r: Result<
        AgentHandle,
        AgentError,
    >)
        ensures
            final(self).spec_config() == old(self).spec_config(),
            match conversation {
                Ok(_) => r matches Ok(handle) && handle@ == started(old(self).session())
                    && final(self).session() == started(old(self).session()).controller,
                Err(reason) => r matches Err(e) && e@ == conversation_failure(reason@)
                    && final(self).session() == old(self).session(),
            },
    {
        match conversation {
            Ok(_) => {
                self.controller.set_execution_state(ExecutionState::Running);
                self.controller.open();
                Ok(AgentHandle { context: ExecutionContext::new(self.controller.duplicate()) })
            },
            Err(reason) => Err(
                AgentError::Config {
                    message: join("Failed to create conversation: ", reason.as_str()),
                },
            ),
        }
    }

    /// Asks one question and gathers the answer. A loop is started, the
    /// message goes in as the only input and its `Start` is sent, `replies`
    /// are the events that follow, and then the inputs end. The answer is what the reports of
    /// the loop hold, without the whitespace around it; the first error
    /// among the reports fails the query. Afterwards the session is as the
    /// loop left it.
    pub fn query(
        &mut self,
        message: &str,
        conversation: Result<(), String>,
        replies: Vec<LoopEvent>,
    ) -> (r: Result<String, AgentError>)
        ensures
            final(self).spec_config() == old(self).spec_config(),
            match conversation {
                Ok(_) => exists|input: InputMessage|
                    {
                        &&& input.message@ == message@
                        &&& input.images@.len() == 0
                        &&& result_shows(
                            r,
                            query_result(
                                gather(
                                    emitted(
                                        started(old(self).session()).run(
                                            query_events(input, replies@),
                                        ).actions,
                                    ),
                                ),
                            ),
                        )
                        &&& final(self).session() == #[trigger] started(old(self).session()).run(
                            query_events(input, replies@),
                        ).next.controller
                    },
                Err(reason) => r matches Err(e) && e@ == conversation_failure(reason@)
                    && final(self).session() == old(self).session(),
            },
    {
        let input = InputMessage::new(message);
        let mut handle = match self.execute(conversation) {
            Ok(handle) => handle,
            Err(e) => {
                return Err(e);
            },
        };
        let ghost start = handle@;
        let ghost wanted = query_events(input, replies@);
        let mut events: Vec<LoopEvent> = Vec::new();
        events.push(LoopEvent::Input(input));
        events.push(LoopEvent::StartSent);
        let mut rest = replies;
        events.append(&mut rest);
        events.push(LoopEvent::InputClosed);
        assert(events@ =~= wanted);
        let actions = execution_loop(&mut handle.context, events);
        let outputs = outputs_of(actions, Ghost(start.run(wanted).actions));
        let result = collect_response(&outputs);
        self.controller = handle.into_controller();
        result
    }

    /// The mode of the engine's sandbox for the agent's policy.
    pub fn _convert_sandbox_policy(&self) -> (r: SandboxMode)
        ensures
            r == sandbox_mode_of(self.spec_config().spec_sandbox_policy()),
    {
        match self.config.sandbox_policy() {
            SandboxPolicy::DangerFullAccess => SandboxMode::DangerFullAccess,
            SandboxPolicy::ReadOnly => SandboxMode::ReadOnly,
            SandboxPolicy::WorkspaceWrite { .. } => SandboxMode::WorkspaceWrite,
        }
    }

    /// What the engine is given for the MCP server `server`.
    pub fn _convert_mcp_server_config(&self, server: &McpServerConfig) -> (r: EngineServerConfig)
        ensures
            engine_server_for(*server, r),
    {
        match server {
            McpServerConfig::Command { command, args, env, .. } => EngineServerConfig {
                command: command.clone(),
                args: clone_strings(args),
                env: if env.is_empty() {
                    None
                } else {
                    Some(env.duplicate())
                },
            },
            McpServerConfig::Http { .. } => {
                let mut args: Vec<String> = Vec::new();
                args.push("HTTP MCP servers not supported".to_string());
                EngineServerConfig { command: "echo".to_string(), args, env: None }
            },
        }
    }

    /// The settings of the engine that the agent's configuration decides,
    /// and its MCP servers as the engine starts them, each with its name, in
    /// the order of the configuration.
    pub fn _create_codex_config(&self) -> (r: (ConfigOverrides, Vec<(String, EngineServerConfig)>))
        ensures
            overrides_for(self.spec_config(), r.0),
            r.1@.len() == self.spec_config().spec_mcp_servers()@.len(),
            forall|i: int|
                0 <= i < r.1@.len() ==> (#[trigger] r.1@[i]).0@ == self.spec_config().spec_mcp_servers()@[i].server_name()@
                    && engine_server_for(self.spec_config().spec_mcp_servers()@[i], r.1@[i].1),
    {
        let tools = self.config.tools();
        let mut web_search = false;
        let mut apply_patch = false;
        let mut i: usize = 0;
        while i < tools.len()
            invariant
                i <= tools@.len(),
                web_search == has_web_search(tools@.take(i as int)),
                apply_patch == has_apply_patch(tools@.take(i as int)),
            decreases tools@.len() - i,
        {
            let ghost before = tools@.take(i as int);
            let ghost after = tools@.take(i + 1);
            if tools[i].is_web_search() {
                web_search = true;
            }
            if tools[i].is_apply_patch() {
                apply_patch = true;
            }
            proof {
                assert(after[i as int] == tools@[i as int]);
                if has_web_search(before) {
                    let k = choose|k: int| 0 <= k < before.len() && #[trigger] before[k] is WebSearch;
                    assert(after[k] is WebSearch);
                }
                if has_web_search(after) && !(tools@[i as int] is WebSearch) {
                    let k = choose|k: int| 0 <= k < after.len() && #[trigger] after[k] is WebSearch;
                    assert(before[k] is WebSearch);
                }
                if has_apply_patch(before) {
                    let k = choose|k: int|
                        0 <= k < before.len() && #[trigger] before[k] is ApplyPatch;
                    assert(after[k] is ApplyPatch);
                }
                if has_apply_patch(after) && !(tools@[i as int] is ApplyPatch) {
                    let k = choose|k: int| 0 <= k < after.len() && #[trigger] after[k] is ApplyPatch;
                    assert(before[k] is ApplyPatch);
                }
            }
            i = i + 1;
        }
        proof {
            assert(tools@.take(i as int) =~= tools@);
        }
        let overrides = ConfigOverrides {
            model: Some(self.config.model().to_string()),
            cwd: Some(self.config.working_directory().clone()),
            approval_policy: Some(*self.config.approval_policy()),
            sandbox_mode: Some(self._convert_sandbox_policy()),
            model_provider: None,
            config_profile: None,
            codex_linux_sandbox_exe: None,
            base_instructions: match self.config.system_prompt() {
                Some(p) => Some(p.to_string()),
                None => None,
            },
            include_plan_tool: Some(true),
            include_apply_patch_tool: Some(apply_patch),
            disable_response_storage: Some(false),
            show_raw_agent_reasoning: Some(false),
            tools_web_search_request: Some(web_search),
        };
        let servers = self.config.mcp_servers();
        let mut converted: Vec<(String, EngineServerConfig)> = Vec::new();
        let mut j: usize = 0;
        while j < servers.len()
            invariant
                j <= servers@.len(),
                converted@.len() == j,
                forall|k: int|
                    0 <= k < j ==> (#[trigger] converted@[k]).0@ == servers@[k].server_name()@
                        && engine_server_for(servers@[k], converted@[k].1),
            decreases servers@.len() - j,
        {
            let made = self._convert_mcp_server_config(&servers[j]);
            converted.push((servers[j].name().to_string(), made));
            j = j + 1;
        }
        (overrides, converted)
    }
}

} // verus!
