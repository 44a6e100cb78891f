//! The configuration of an agent, and the builder that makes one.

use vstd::prelude::*;
use crate::dict::Dictionary;
use crate::error::{AgentError, AgentErrorView};
use crate::json::{JsonModel, JsonValue};
use crate::mcp::McpServerConfig;
use crate::text::join;
use crate::tools::ToolConfig;

verus! {

/// When the user is asked to approve a command.
#[derive(Clone, Copy, Debug, PartialEq, Eq, Structural)]
pub enum AskForApproval {
    /// For every command that is not known to be safe.
    UnlessTrusted,
    /// When a command has failed in the sandbox.
    OnFailure,
    /// When the model asks for it.
    OnRequest,
    /// Never.
    Never,
}

/// What the commands of the model may touch.
#[derive(Debug, PartialEq, Eq)]
pub enum SandboxPolicy {
    /// Everything.
    DangerFullAccess,
    /// Nothing but reading.
    ReadOnly,
    /// Reading, and writing in the working directory and in `writable_roots`.
    WorkspaceWrite {
        writable_roots: Vec<String>,
        network_access: bool,
        exclude_tmpdir_env_var: bool,
        exclude_slash_tmp: bool,
    },
}

impl SandboxPolicy {
    /// Whether the policy allows writing in the working directory only, and
    /// no network.
    pub open spec fn is_plain_workspace_write(self) -> bool {
        self matches SandboxPolicy::WorkspaceWrite {
            writable_roots,
            network_access,
            exclude_tmpdir_env_var,
            exclude_slash_tmp,
        } && writable_roots@.len() == 0 && !network_access && !exclude_tmpdir_env_var
            && !exclude_slash_tmp
    }

    /// Writing in the working directory only, and no network.
    pub fn workspace_write() -> (r: SandboxPolicy)
        ensures
            r.is_plain_workspace_write(),
    {
        SandboxPolicy::WorkspaceWrite {
            writable_roots: Vec::new(),
            network_access: false,
            exclude_tmpdir_env_var: false,
            exclude_slash_tmp: false,
        }
    }
}

/// The model that is used where none is named.
pub open spec fn default_model() -> Seq<char> {
    "gpt-4"@
}

/// The working directory that is used where none is named and the current
/// one is not known.
pub open spec fn default_directory() -> Seq<char> {
    "."@
}

/// The configuration of an agent.
pub struct AgentConfig {
    model: String,
    api_key: Option<String>,
    system_prompt: Option<String>,
    sandbox_policy: SandboxPolicy,
    approval_policy: AskForApproval,
    max_turns: Option<u32>,
    working_directory: String,
    tools: Vec<ToolConfig>,
    mcp_servers: Vec<McpServerConfig>,
    environment: Dictionary<String>,
    additional_config: Dictionary<JsonValue>,
}

impl AgentConfig {
    /// The name of the model.
    pub closed spec fn spec_model(self) -> String {
        self.model
    }

    /// The key for the provider of the model.
    pub closed spec fn spec_api_key(self) -> Option<String> {
        self.api_key
    }

    /// The instructions for the agent.
    pub closed spec fn spec_system_prompt(self) -> Option<String> {
        self.system_prompt
    }

    /// What the commands of the model may touch.
    pub closed spec fn spec_sandbox_policy(self) -> SandboxPolicy {
        self.sandbox_policy
    }

    /// When the user is asked to approve a command.
    pub closed spec fn spec_approval_policy(self) -> AskForApproval {
        self.approval_policy
    }

    /// The greatest number of turns.
    pub closed spec fn spec_max_turns(self) -> Option<u32> {
        self.max_turns
    }

    /// The directory in which the agent works.
    pub closed spec fn spec_working_directory(self) -> String {
        self.working_directory
    }

    /// The tools of the agent.
    pub closed spec fn spec_tools(self) -> Vec<ToolConfig> {
        self.tools
    }

    /// The MCP servers of the agent.
    pub closed spec fn spec_mcp_servers(self) -> Vec<McpServerConfig> {
        self.mcp_servers
    }

    /// The environment of the agent.
    pub closed spec fn spec_environment(self) -> Dictionary<String> {
        self.environment
    }

    /// Settings beyond those that have a name of their own.
    pub closed spec fn spec_additional_config(self) -> Dictionary<JsonValue> {
        self.additional_config
    }

    /// A builder with nothing set.
    pub fn builder() -> (r: AgentConfigBuilder)
        ensures
            r.is_blank(),
    {
        AgentConfigBuilder::new()
    }

    /// The name of the model.
    pub fn model(&self) -> (r: &str)
        ensures
            r@ == self.spec_model()@,
    {
        self.model.as_str()
    }

    /// The key for the provider of the model.
    pub fn api_key(&self) -> (r: Option<&str>)
        ensures
            r is Some == self.spec_api_key() is Some,
            r matches Some(k) ==> k@ == self.spec_api_key()->0@,
    {
        match &self.api_key {
            Some(k) => Some(k.as_str()),
            None => None,
        }
    }

    /// The instructions for the agent.
    pub fn system_prompt(&self) -> (r: Option<&str>)
        ensures
            r is Some == self.spec_system_prompt() is Some,
            r matches Some(p) ==> p@ == self.spec_system_prompt()->0@,
    {
        match &self.system_prompt {
            Some(p) => Some(p.as_str()),
            None => None,
        }
    }

    /// What the commands of the model may touch.
    pub fn sandbox_policy(&self) -> (r: &SandboxPolicy)
        ensures
            *r == self.spec_sandbox_policy(),
    {
        &self.sandbox_policy
    }

    /// When the user is asked to approve a command.
    pub fn approval_policy(&self) -> (r: &AskForApproval)
        ensures
            *r == self.spec_approval_policy(),
    {
        &self.approval_policy
    }

    /// The greatest number of turns.
    pub fn max_turns(&self) -> (r: Option<u32>)
        ensures
            r == self.spec_max_turns(),
    {
        self.max_turns
    }

    /// The directory in which the agent works.
    pub fn working_directory(&self) -> (r: &String)
        ensures
            *r == self.spec_working_directory(),
    {
        &self.working_directory
    }

    /// The tools of the agent.
    pub fn tools(&self) -> (r: &Vec<ToolConfig>)
        ensures
            *r == self.spec_tools(),
    {
        &self.tools
    }

    /// The MCP servers of the agent.
    pub fn mcp_servers(&self) -> (r: &Vec<McpServerConfig>)
        ensures
            *r == self.spec_mcp_servers(),
    {
        &self.mcp_servers
    }

    /// The environment of the agent.
    pub fn environment(&self) -> (r: &Dictionary<String>)
        ensures
            *r == self.spec_environment(),
    {
        &self.environment
    }

    /// Settings beyond those that have a name of their own.
    pub fn additional_config(&self) -> (r: &Dictionary<JsonValue>)
        ensures
            *r == self.spec_additional_config(),
    {
        &self.additional_config
    }
}

/// Collects the settings of an agent one by one.
pub struct AgentConfigBuilder {
    model: Option<String>,
    api_key: Option<String>,
    system_prompt: Option<String>,
    sandbox_policy: Option<SandboxPolicy>,
    approval_policy: Option<AskForApproval>,
    max_turns: Option<u32>,
    working_directory: Option<String>,
    tools: Vec<ToolConfig>,
    mcp_servers: Vec<McpServerConfig>,
    environment: Dictionary<String>,
    additional_config: Dictionary<JsonValue>,
}

/// What a builder has collected.
pub struct BuilderView {
    pub model: Option<String>,
    pub api_key: Option<String>,
    pub system_prompt: Option<String>,
    pub sandbox_policy: Option<SandboxPolicy>,
    pub approval_policy: Option<AskForApproval>,
    pub max_turns: Option<u32>,
    pub working_directory: Option<String>,
    pub tools: Seq<ToolConfig>,
    pub mcp_servers: Seq<McpServerConfig>,
    pub environment: Map<Seq<char>, Seq<char>>,
    pub additional_config: Map<Seq<char>, JsonModel>,
}

/// The error for a variable that the environment does not hold.
pub open spec fn missing_variable(name: Seq<char>) -> AgentErrorView {
    AgentErrorView::Config { message: "Environment variable "@ + name + " not found"@ }
}

impl View for AgentConfigBuilder {
    type V = BuilderView;

    closed spec fn view(&self) -> BuilderView {
        BuilderView {
            model: self.model,
            api_key: self.api_key,
            system_prompt: self.system_prompt,
            sandbox_policy: self.sandbox_policy,
            approval_policy: self.approval_policy,
            max_turns: self.max_turns,
            working_directory: self.working_directory,
            tools: self.tools@,
            mcp_servers: self.mcp_servers@,
            environment: self.environment@,
            additional_config: self.additional_config@,
        }
    }
}

impl AgentConfigBuilder {
    /// Whether nothing is set.
    pub open spec fn is_blank(self) -> bool {
        &&& self@.model is None
        &&& self@.api_key is None
        &&& self@.system_prompt is None
        &&& self@.sandbox_policy is None
        &&& self@.approval_policy is None
        &&& self@.max_turns is None
        &&& self@.working_directory is None
        &&& self@.tools.len() == 0
        &&& self@.mcp_servers.len() == 0
        &&& self@.environment == Map::<Seq<char>, Seq<char>>::empty()
        &&& self@.additional_config == Map::<Seq<char>, JsonModel>::empty()
    }

    /// Whether `config` is what the builder makes where the current
    /// directory is `current_dir`: each setting as it was set; for the model
    /// that was not set, the default; for the working directory that was not
    /// set, the current one, or `.` where that is not known; for the policies
    /// that were not set, writing in the working directory without network,
    /// and never asking for approval.
    pub open spec fn builds(self, current_dir: Option<String>, config: AgentConfig) -> bool {
        &&& match self@.model {
            Some(m) => config.spec_model() == m,
            None => config.spec_model()@ == default_model(),
        }
        &&& config.spec_api_key() == self@.api_key
        &&& config.spec_system_prompt() == self@.system_prompt
        &&& match self@.sandbox_policy {
            Some(p) => config.spec_sandbox_policy() == p,
            None => config.spec_sandbox_policy().is_plain_workspace_write(),
        }
        &&& config.spec_approval_policy() == match self@.approval_policy {
            Some(p) => p,
            None => AskForApproval::Never,
        }
        &&& config.spec_max_turns() == self@.max_turns
        &&& match self@.working_directory {
            Some(d) => config.spec_working_directory() == d,
            None => match current_dir {
                Some(d) => config.spec_working_directory() == d,
                None => config.spec_working_directory()@ == default_directory(),
            },
        }
        &&& config.spec_tools()@ == self@.tools
        &&& config.spec_mcp_servers()@ == self@.mcp_servers
        &&& config.spec_environment()@ == self@.environment
        &&& config.spec_additional_config()@ == self@.additional_config
    }

    /// A builder with nothing set.
    pub fn new() -> (r: AgentConfigBuilder)
        ensures
            r.is_blank(),
    {
        AgentConfigBuilder {
            model: None,
            api_key: None,
            system_prompt: None,
            sandbox_policy: None,
            approval_policy: None,
            max_turns: None,
            working_directory: None,
            tools: Vec::new(),
            mcp_servers: Vec::new(),
            environment: Dictionary::new(),
            additional_config: Dictionary::new(),
        }
    }

    /// Sets the name of the model.
    pub fn model(self, model: &str) -> (r: AgentConfigBuilder)
        ensures
            r@.model matches Some(m) && m@ == model@,
            r@ == (BuilderView { model: r@.model, ..self@ }),
    {
        let mut b = self;
        b.model = Some(model.to_string());
        b
    }

    /// Sets the key for the provider of the model.
    pub fn api_key(self, api_key: &str) -> (r: AgentConfigBuilder)
        ensures
            r@.api_key matches Some(k) && k@ == api_key@,
            r@ == (BuilderView { api_key: r@.api_key, ..self@ }),
    {
        let mut b = self;
        b.api_key = Some(api_key.to_string());
        b
    }

    /// Sets the key for the provider of the model to `value`, the value of
    /// the variable `env_var` of the environment. Fails where the
    /// environment does not hold the variable.
    pub fn api_key_env(self, env_var: &str, value: Option<String>) -> (r: Result<
        AgentConfigBuilder,
        AgentError,
    >)
        ensures
            match value {
                Some(key) => r matches Ok(b) && b@ == (BuilderView { api_key: Some(key), ..self@ }),
                None => r matches Err(e) && e@ == missing_variable(env_var@),
            },
    {
        match value {
            Some(key) => {
                let mut b = self;
                b.api_key = Some(key);
                Ok(b)
            },
            None => {
                let mut message = join("Environment variable ", env_var);
                message.append(" not found");
                Err(AgentError::Config { message })
            },
        }
    }

    /// Sets the instructions for the agent.
    pub fn system_prompt(self, prompt: &str) -> (r: AgentConfigBuilder)
        ensures
            r@.system_prompt matches Some(p) && p@ == prompt@,
            r@ == (BuilderView { system_prompt: r@.system_prompt, ..self@ }),
    {
        let mut b = self;
        b.system_prompt = Some(prompt.to_string());
        b
    }

    /// Sets what the commands of the model may touch.
    pub fn sandbox_policy(self, policy: SandboxPolicy) -> (r: AgentConfigBuilder)
        ensures
            r@ == (BuilderView { sandbox_policy: Some(policy), ..self@ }),
    {
        let mut b = self;
        b.sandbox_policy = Some(policy);
        b
    }

    /// Sets when the user is asked to approve a command.
    pub fn approval_policy(self, policy: AskForApproval) -> (r: AgentConfigBuilder)
        ensures
            r@ == (BuilderView { approval_policy: Some(policy), ..self@ }),
    {
        let mut b = self;
        b.approval_policy = Some(policy);
        b
    }

    /// Sets the greatest number of turns.
    pub fn max_turns(self, max_turns: u32) -> (r: AgentConfigBuilder)
        ensures
            r@ == (BuilderView { max_turns: Some(max_turns), ..self@ }),
    {
        let mut b = self;
        b.max_turns = Some(max_turns);
        b
    }

    /// Sets the directory in which the agent works.
    pub fn working_directory(self, path: &str) -> (r: AgentConfigBuilder)
        ensures
            r@.working_directory matches Some(d) && d@ == path@,
            r@ == (BuilderView { working_directory: r@.working_directory, ..self@ }),
    {
        let mut b = self;
        b.working_directory = Some(path.to_string());
        b
    }

    /// Adds a tool behind those that were added.
    pub fn tool(self, tool: ToolConfig) -> (r: AgentConfigBuilder)
        ensures
            r@ == (BuilderView { tools: self@.tools.push(tool), ..self@ }),
    {
        let mut b = self;
        b.tools.push(tool);
        b
    }

    /// Adds tools behind those that were added.
    pub fn tools(self, tools: Vec<ToolConfig>) -> (r: AgentConfigBuilder)
        ensures
            r@ == (BuilderView { tools: self@.tools + tools@, ..self@ }),
    {
        let mut b = self;
        let mut more = tools;
        b.tools.append(&mut more);
        b
    }

    /// Adds an MCP server behind those that were added.
    pub fn mcp_server(self, server: McpServerConfig) -> (r: AgentConfigBuilder)
        ensures
            r@ == (BuilderView { mcp_servers: self@.mcp_servers.push(server), ..self@ }),
    {
        let mut b = self;
        b.mcp_servers.push(server);
        b
    }

    /// Adds MCP servers behind those that were added.
    pub fn mcp_servers(self, servers: Vec<McpServerConfig>) -> (r: AgentConfigBuilder)
        ensures
            r@ == (BuilderView { mcp_servers: self@.mcp_servers + servers@, ..self@ }),
    {
        let mut b = self;
        let mut more = servers;
        b.mcp_servers.append(&mut more);
        b
    }

    /// Sets one variable of the environment.
    pub fn env(self, key: &str, value: &str) -> (r: AgentConfigBuilder)
        ensures
            r@ == (BuilderView {
                environment: self@.environment.insert(key@, value@),
                ..self@
            }),
    {
        let mut b = self;
        b.environment.insert(key.to_string(), value.to_string());
        b
    }

    /// Sets variables of the environment, one after the other.
    pub fn envs(self, envs: Vec<(String, String)>) -> (r: AgentConfigBuilder)
        ensures
            r@ == (BuilderView { environment: inserted_all(self@.environment, envs@), ..self@ }),
    {
        let mut b = self;
        let ghost start = b@;
        let ghost all = envs@;
        for entry in it: envs
            invariant
                it.seq() == all,
                b@ == (BuilderView {
                    environment: inserted_all(start.environment, all.take(it.index() as int)),
                    ..start
                }),
        {
            proof {
                let n = it.index() as int;
                assert(all.take(n + 1).drop_last() =~= all.take(n));
                assert(all.take(n + 1).last() == entry);
            }
            b.environment.insert(entry.0, entry.1);
        }
        proof {
            assert(all.take(all.len() as int) =~= all);
        }
        b
    }

    /// Stores `value` under `key` among the settings that have no name of
    /// their own.
    pub fn config(self, key: &str, value: JsonValue) -> (r: AgentConfigBuilder)
        ensures
            r@ == (BuilderView {
                additional_config: self@.additional_config.insert(key@, value@),
                ..self@
            }),
    {
        let mut b = self;
        b.additional_config.insert(key.to_string(), value);
        b
    }

    /// Makes the configuration. `current_dir` is the current directory of
    /// the process, if it is known; it becomes the working directory where
    /// none was set.
    pub fn build(self, current_dir: Option<String>) -> (r: Result<AgentConfig, AgentError>)
        ensures
            r matches Ok(config) && self.builds(current_dir, config),
    {
        let model = match self.model {
            Some(m) => m,
            None => "gpt-4".to_string(),
        };
        let working_directory = match self.working_directory {
            Some(d) => d,
            None => match current_dir {
                Some(d) => d,
                None => ".".to_string(),
            },
        };
        let sandbox_policy = match self.sandbox_policy {
            Some(p) => p,
            None => SandboxPolicy::workspace_write(),
        };
        let approval_policy = match self.approval_policy {
            Some(p) => p,
            None => AskForApproval::Never,
        };
        Ok(
            AgentConfig {
                model,
                api_key: self.api_key,
                system_prompt: self.system_prompt,
                sandbox_policy,
                approval_policy,
                max_turns: self.max_turns,
                working_directory,
                tools: self.tools,
                mcp_servers: self.mcp_servers,
                environment: self.environment,
                additional_config: self.additional_config,
            },
        )
    }

    /// Lets the commands write in the working directory, without network.
    pub fn sandbox_workspace_write(self) -> (r: AgentConfigBuilder)
        ensures
            r@.sandbox_policy matches Some(p) && p.is_plain_workspace_write(),
            r@ == (BuilderView { sandbox_policy: r@.sandbox_policy, ..self@ }),
    {
        self.sandbox_policy(SandboxPolicy::workspace_write())
    }

    /// Lets the commands read and nothing else.
    pub fn sandbox_read_only(self) -> (r: AgentConfigBuilder)
        ensures
            r@ == (BuilderView { sandbox_policy: Some(SandboxPolicy::ReadOnly), ..self@ }),
    {
        self.sandbox_policy(SandboxPolicy::ReadOnly)
    }

    /// Never asks the user to approve a command.
    pub fn approval_never(self) -> (r: AgentConfigBuilder)
        ensures
            r@ == (BuilderView { approval_policy: Some(AskForApproval::Never), ..self@ }),
    {
        self.approval_policy(AskForApproval::Never)
    }

    /// Asks the user to approve a command when the model asks for it.
    pub fn approval_on_request(self) -> (r: AgentConfigBuilder)
        ensures
            r@ == (BuilderView { approval_policy: Some(AskForApproval::OnRequest), ..self@ }),
    {
        self.approval_policy(AskForApproval::OnRequest)
    }
}

impl Default for AgentConfigBuilder {
    fn default() -> (r: AgentConfigBuilder)
        ensures
            r.is_blank(),
    {
        AgentConfigBuilder::new()
    }
}

/// `map` after each of `entries` was inserted, in order.
pub open spec fn inserted_all(map: Map<Seq<char>, Seq<char>>, entries: Seq<(String, String)>) -> Map<
    Seq<char>,
    Seq<char>,
>
    decreases entries.len(),
{
    if entries.len() == 0 {
        map
    } else {
        inserted_all(map, entries.drop_last()).insert(entries.last().0@, entries.last().1@)
    }
}

} // verus!
