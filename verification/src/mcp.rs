//! How the servers of the Model Context Protocol are described.

use vstd::prelude::*;
use crate::clock::{Span, Timestamp};
use crate::dict::{entries_map, Dictionary};
use crate::json::JsonValue;
use crate::text::join;

verus! {

/// The seconds that a server is given by default, to start or to answer.
pub const DEFAULT_TIMEOUT: u64 = 30;

/// The description of one server.
#[derive(Debug)]
pub enum McpServerConfig {
    /// A server that is started as a process.
    Command {
        name: String,
        command: String,
        args: Vec<String>,
        /// The environment of the process.
        env: Dictionary<String>,
        working_directory: Option<String>,
        /// The seconds that the server is given to start.
        startup_timeout: u64,
        /// Whether the server is started again when it has crashed.
        auto_restart: bool,
    },
    /// A server that is reached over HTTP.
    Http {
        name: String,
        url: String,
        headers: Dictionary<String>,
        /// The seconds that the server is given to answer.
        timeout: u64,
        /// Whether the server's certificate is checked.
        verify_ssl: bool,
        api_key: Option<String>,
    },
}

impl McpServerConfig {
    /// The server's name.
    pub open spec fn server_name(self) -> String {
        match self {
            McpServerConfig::Command { name, .. } => name,
            McpServerConfig::Http { name, .. } => name,
        }
    }

    /// Whether the description is as new for a process: the given name and
    /// command, no arguments, an empty environment, the default timeout.
    pub open spec fn is_plain_command(self, name: Seq<char>, command: Seq<char>) -> bool {
        self matches McpServerConfig::Command {
            name: n,
            command: c,
            args,
            env,
            working_directory,
            startup_timeout,
            auto_restart,
        } && n@ == name && c@ == command && args@.len() == 0 && env@ == Map::<
            Seq<char>,
            Seq<char>,
        >::empty() && working_directory is None && startup_timeout == DEFAULT_TIMEOUT
            && !auto_restart
    }

    /// Whether the description is as new for HTTP: the given name and
    /// address, no headers, the default timeout, the certificate checked.
    pub open spec fn is_plain_http(self, name: Seq<char>, url: Seq<char>) -> bool {
        self matches McpServerConfig::Http { name: n, url: u, headers, timeout, verify_ssl, api_key }
            && n@ == name && u@ == url && headers@ == Map::<Seq<char>, Seq<char>>::empty()
            && timeout == DEFAULT_TIMEOUT && verify_ssl && api_key is None
    }

    /// Begins the description of a server that is started as a process.
    pub fn command(name: &str, command: &str) -> (r: McpServerConfigBuilder<Command>)
        ensures
            r.config().is_plain_command(name@, command@),
    {
        McpServerConfigBuilder::new_command(name.to_string(), command.to_string())
    }

    /// Begins the description of a server that is reached over HTTP.
    pub fn http(name: &str, url: &str) -> (r: McpServerConfigBuilder<Http>)
        ensures
            r.config().is_plain_http(name@, url@),
    {
        McpServerConfigBuilder::new_http(name.to_string(), url.to_string())
    }

    /// The server's name.
    pub fn name(&self) -> (r: &str)
        ensures
            r@ == self.server_name()@,
    {
        match self {
            McpServerConfig::Command { name, .. } => name.as_str(),
            McpServerConfig::Http { name, .. } => name.as_str(),
        }
    }

    /// Whether the server is started as a process.
    pub fn is_command(&self) -> (r: bool)
        ensures
            r == (*self is Command),
    {
        matches!(self, McpServerConfig::Command { .. })
    }

    /// Whether the server is reached over HTTP.
    pub fn is_http(&self) -> (r: bool)
        ensures
            r == (*self is Http),
    {
        matches!(self, McpServerConfig::Http { .. })
    }
}

/// Marks the builder of a server that is started as a process.
#[derive(Debug)]
pub struct Command;

/// Marks the builder of a server that is reached over HTTP.
#[derive(Debug)]
pub struct Http;

/// Builds the description of a server step by step. The marker `T` says
/// which kind of server it is, and so which steps there are.
#[derive(Debug)]
pub struct McpServerConfigBuilder<T> {
    _marker: core::marker::PhantomData<T>,
    config: McpServerConfig,
}

impl<T> McpServerConfigBuilder<T> {
    /// The description as it stands.
    pub closed spec fn config(self) -> McpServerConfig {
        self.config
    }
}

/// `config` with the arguments `args`, where it describes a process.
pub open spec fn with_args(config: McpServerConfig, args: Vec<String>) -> McpServerConfig {
    match config {
        McpServerConfig::Command {
            name,
            command,
            args: _,
            env,
            working_directory,
            startup_timeout,
            auto_restart,
        } => McpServerConfig::Command {
            name,
            command,
            args,
            env,
            working_directory,
            startup_timeout,
            auto_restart,
        },
        other => other,
    }
}

/// `config` with the environment `env`, where it describes a process.
pub open spec fn with_env(config: McpServerConfig, env: Dictionary<String>) -> McpServerConfig {
    match config {
        McpServerConfig::Command {
            name,
            command,
            args,
            env: _,
            working_directory,
            startup_timeout,
            auto_restart,
        } => McpServerConfig::Command {
            name,
            command,
            args,
            env,
            working_directory,
            startup_timeout,
            auto_restart,
        },
        other => other,
    }
}

/// `config` with the working directory, where it describes a process.
pub open spec fn with_working_directory(
    config: McpServerConfig,
    working_directory: Option<String>,
) -> McpServerConfig {
    match config {
        McpServerConfig::Command {
            name,
            command,
            args,
            env,
            working_directory: _,
            startup_timeout,
            auto_restart,
        } => McpServerConfig::Command {
            name,
            command,
            args,
            env,
            working_directory,
            startup_timeout,
            auto_restart,
        },
        other => other,
    }
}

/// `config` with the time to start, where it describes a process.
pub open spec fn with_startup_timeout(config: McpServerConfig, startup_timeout: u64) ->
    McpServerConfig {
    match config {
        McpServerConfig::Command {
            name,
            command,
            args,
            env,
            working_directory,
            startup_timeout: _,
            auto_restart,
        } => McpServerConfig::Command {
            name,
            command,
            args,
            env,
            working_directory,
            startup_timeout,
            auto_restart,
        },
        other => other,
    }
}

/// `config` with the restart flag, where it describes a process.
pub open spec fn with_auto_restart(config: McpServerConfig, auto_restart: bool) -> McpServerConfig {
    match config {
        McpServerConfig::Command {
            name,
            command,
            args,
            env,
            working_directory,
            startup_timeout,
            auto_restart: _,
        } => McpServerConfig::Command {
            name,
            command,
            args,
            env,
            working_directory,
            startup_timeout,
            auto_restart,
        },
        other => other,
    }
}

/// `config` with the headers `headers`, where it describes HTTP.
pub open spec fn with_headers(config: McpServerConfig, headers: Dictionary<String>) ->
    McpServerConfig {
    match config {
        McpServerConfig::Http { name, url, headers: _, timeout, verify_ssl, api_key } => {
            McpServerConfig::Http { name, url, headers, timeout, verify_ssl, api_key }
        },
        other => other,
    }
}

/// `config` with the time to answer, where it describes HTTP.
pub open spec fn with_timeout(config: McpServerConfig, timeout: u64) -> McpServerConfig {
    match config {
        McpServerConfig::Http { name, url, headers, timeout: _, verify_ssl, api_key } => {
            McpServerConfig::Http { name, url, headers, timeout, verify_ssl, api_key }
        },
        other => other,
    }
}

/// `config` with the certificate flag, where it describes HTTP.
pub open spec fn with_verify_ssl(config: McpServerConfig, verify_ssl: bool) -> McpServerConfig {
    match config {
        McpServerConfig::Http { name, url, headers, timeout, verify_ssl: _, api_key } => {
            McpServerConfig::Http { name, url, headers, timeout, verify_ssl, api_key }
        },
        other => other,
    }
}

/// `config` with the key, where it describes HTTP.
pub open spec fn with_api_key(config: McpServerConfig, api_key: Option<String>) ->
    McpServerConfig {
    match config {
        McpServerConfig::Http { name, url, headers, timeout, verify_ssl, api_key: _ } => {
            McpServerConfig::Http { name, url, headers, timeout, verify_ssl, api_key }
        },
        other => other,
    }
}

impl McpServerConfigBuilder<Command> {
    fn new_command(name: String, command: String) -> (r: Self)
        ensures
            r.config().is_plain_command(name@, command@),
    {
        McpServerConfigBuilder {
            _marker: core::marker::PhantomData,
            config: McpServerConfig::Command {
                name,
                command,
                args: Vec::new(),
                env: Dictionary::new(),
                working_directory: None,
                startup_timeout: DEFAULT_TIMEOUT,
                auto_restart: false,
            },
        }
    }

    /// Sets the arguments of the command, in place of those that were set.
    pub fn args(self, args: Vec<String>) -> (r: Self)
        ensures
            r.config() == with_args(self.config(), args),
    {
        let config = match self.config {
            McpServerConfig::Command {
                name,
                command,
                args: _,
                env,
                working_directory,
                startup_timeout,
                auto_restart,
            } => McpServerConfig::Command {
                name,
                command,
                args,
                env,
                working_directory,
                startup_timeout,
                auto_restart,
            },
            other => other,
        };
        McpServerConfigBuilder { _marker: core::marker::PhantomData, config }
    }

    /// Adds one argument behind those that were set.
    pub fn arg(self, arg: &str) -> (r: Self)
        ensures
            self.config() is Http ==> r.config() == self.config(),
            self.config() matches McpServerConfig::Command { args, .. } ==> r.config()
                matches McpServerConfig::Command { args: more, .. } && more@.len() == args@.len()
                + 1 && more@.subrange(0, args@.len() as int) == args@ && more@[args@.len() as int]@
                == arg@ && r.config() == with_args(self.config(), more),
    {
        let config = match self.config {
            McpServerConfig::Command {
                name,
                command,
                args,
                env,
                working_directory,
                startup_timeout,
                auto_restart,
            } => {
                let mut more = args;
                more.push(arg.to_string());
                assert(more@.subrange(0, args@.len() as int) =~= args@);
                McpServerConfig::Command {
                    name,
                    command,
                    args: more,
                    env,
                    working_directory,
                    startup_timeout,
                    auto_restart,
                }
            },
            other => other,
        };
        McpServerConfigBuilder { _marker: core::marker::PhantomData, config }
    }

    /// Sets the environment of the process, in place of what was set. Where
    /// a name occurs twice, its last value counts.
    pub fn env(self, env: Vec<(String, String)>) -> (r: Self)
        ensures
            self.config() is Http ==> r.config() == self.config(),
            self.config() is Command ==> (r.config() matches McpServerConfig::Command {
                env: made,
                ..
            } && made@ == entries_map(env@) && r.config() == with_env(self.config(), made)),
    {
        let config = match self.config {
            McpServerConfig::Command {
                name,
                command,
                args,
                env: _,
                working_directory,
                startup_timeout,
                auto_restart,
            } => McpServerConfig::Command {
                name,
                command,
                args,
                env: Dictionary::from_entries(env),
                working_directory,
                startup_timeout,
                auto_restart,
            },
            other => other,
        };
        McpServerConfigBuilder { _marker: core::marker::PhantomData, config }
    }

    /// Sets one variable of the environment.
    pub fn env_var(self, key: &str, value: &str) -> (r: Self)
        ensures
            self.config() is Http ==> r.config() == self.config(),
            self.config() matches McpServerConfig::Command { env, .. } ==> r.config()
                matches McpServerConfig::Command { env: made, .. } && made@ == env@.insert(
                key@,
                value@,
            ) && r.config() == with_env(self.config(), made),
    {
        let config = match self.config {
            McpServerConfig::Command {
                name,
                command,
                args,
                env,
                working_directory,
                startup_timeout,
                auto_restart,
            } => {
                let mut made = env;
                made.insert(key.to_string(), value.to_string());
                McpServerConfig::Command {
                    name,
                    command,
                    args,
                    env: made,
                    working_directory,
                    startup_timeout,
                    auto_restart,
                }
            },
            other => other,
        };
        McpServerConfigBuilder { _marker: core::marker::PhantomData, config }
    }

    /// Sets the directory in which the process runs.
    pub fn working_directory(self, dir: &str) -> (r: Self)
        ensures
            self.config() is Http ==> r.config() == self.config(),
            self.config() is Command ==> (r.config() matches McpServerConfig::Command {
                working_directory: Some(d),
                ..
            } && d@ == dir@ && r.config() == with_working_directory(self.config(), Some(d))),
    {
        let config = match self.config {
            McpServerConfig::Command {
                name,
                command,
                args,
                env,
                working_directory: _,
                startup_timeout,
                auto_restart,
            } => McpServerConfig::Command {
                name,
                command,
                args,
                env,
                working_directory: Some(dir.to_string()),
                startup_timeout,
                auto_restart,
            },
            other => other,
        };
        McpServerConfigBuilder { _marker: core::marker::PhantomData, config }
    }

    /// Sets the seconds that the server is given to start.
    pub fn startup_timeout(self, timeout: u64) -> (r: Self)
        ensures
            r.config() == with_startup_timeout(self.config(), timeout),
    {
        let config = match self.config {
            McpServerConfig::Command {
                name,
                command,
                args,
                env,
                working_directory,
                startup_timeout: _,
                auto_restart,
            } => McpServerConfig::Command {
                name,
                command,
                args,
                env,
                working_directory,
                startup_timeout: timeout,
                auto_restart,
            },
            other => other,
        };
        McpServerConfigBuilder { _marker: core::marker::PhantomData, config }
    }

    /// Sets whether the server is started again when it has crashed.
    pub fn auto_restart(self, enable: bool) -> (r: Self)
        ensures
            r.config() == with_auto_restart(self.config(), enable),
    {
        let config = match self.config {
            McpServerConfig::Command {
                name,
                command,
                args,
                env,
                working_directory,
                startup_timeout,
                auto_restart: _,
            } => McpServerConfig::Command {
                name,
                command,
                args,
                env,
                working_directory,
                startup_timeout,
                auto_restart: enable,
            },
            other => other,
        };
        McpServerConfigBuilder { _marker: core::marker::PhantomData, config }
    }

    /// The description that was built.
    pub fn build(self) -> (r: McpServerConfig)
        ensures
            r == self.config(),
    {
        self.config
    }
}

/// The value of the header that carries the bearer token `token`.
pub open spec fn bearer_value(token: Seq<char>) -> Seq<char> {
    "Bearer "@ + token
}

impl McpServerConfigBuilder<Http> {
    fn new_http(name: String, url: String) -> (r: Self)
        ensures
            r.config().is_plain_http(name@, url@),
    {
        McpServerConfigBuilder {
            _marker: core::marker::PhantomData,
            config: McpServerConfig::Http {
                name,
                url,
                headers: Dictionary::new(),
                timeout: DEFAULT_TIMEOUT,
                verify_ssl: true,
                api_key: None,
            },
        }
    }

    /// Sets the headers, in place of those that were set. Where a name
    /// occurs twice, its last value counts.
    pub fn headers(self, headers: Vec<(String, String)>) -> (r: Self)
        ensures
            self.config() is Command ==> r.config() == self.config(),
            self.config() is Http ==> (r.config() matches McpServerConfig::Http {
                headers: made,
                ..
            } && made@ == entries_map(headers@) && r.config() == with_headers(
                self.config(),
                made,
            )),
    {
        let config = match self.config {
            McpServerConfig::Http { name, url, headers: _, timeout, verify_ssl, api_key } => {
                McpServerConfig::Http {
                    name,
                    url,
                    headers: Dictionary::from_entries(headers),
                    timeout,
                    verify_ssl,
                    api_key,
                }
            },
            other => other,
        };
        McpServerConfigBuilder { _marker: core::marker::PhantomData, config }
    }

    /// Sets one header.
    pub fn header(self, key: &str, value: &str) -> (r: Self)
        ensures
            self.config() is Command ==> r.config() == self.config(),
            self.config() matches McpServerConfig::Http { headers, .. } ==> r.config()
                matches McpServerConfig::Http { headers: made, .. } && made@ == headers@.insert(
                key@,
                value@,
            ) && r.config() == with_headers(self.config(), made),
    {
        let config = match self.config {
            McpServerConfig::Http { name, url, headers, timeout, verify_ssl, api_key } => {
                let mut made = headers;
                made.insert(key.to_string(), value.to_string());
                McpServerConfig::Http { name, url, headers: made, timeout, verify_ssl, api_key }
            },
            other => other,
        };
        McpServerConfigBuilder { _marker: core::marker::PhantomData, config }
    }

    /// Sets the seconds that the server is given to answer.
    pub fn timeout(self, timeout: u64) -> (r: Self)
        ensures
            r.config() == with_timeout(self.config(), timeout),
    {
        let config = match self.config {
            McpServerConfig::Http { name, url, headers, timeout: _, verify_ssl, api_key } => {
                McpServerConfig::Http { name, url, headers, timeout, verify_ssl, api_key }
            },
            other => other,
        };
        McpServerConfigBuilder { _marker: core::marker::PhantomData, config }
    }

    /// Sets whether the server's certificate is checked.
    pub fn verify_ssl(self, verify: bool) -> (r: Self)
        ensures
            r.config() == with_verify_ssl(self.config(), verify),
    {
        let config = match self.config {
            McpServerConfig::Http { name, url, headers, timeout, verify_ssl: _, api_key } => {
                McpServerConfig::Http { name, url, headers, timeout, verify_ssl: verify, api_key }
            },
            other => other,
        };
        McpServerConfigBuilder { _marker: core::marker::PhantomData, config }
    }

    /// Sets the key that the server asks for.
    pub fn api_key(self, key: &str) -> (r: Self)
        ensures
            self.config() is Command ==> r.config() == self.config(),
            self.config() is Http ==> (r.config() matches McpServerConfig::Http {
                api_key: Some(k),
                ..
            } && k@ == key@ && r.config() == with_api_key(self.config(), Some(k))),
    {
        let config = match self.config {
            McpServerConfig::Http { name, url, headers, timeout, verify_ssl, api_key: _ } => {
                McpServerConfig::Http {
                    name,
                    url,
                    headers,
                    timeout,
                    verify_ssl,
                    api_key: Some(key.to_string()),
                }
            },
            other => other,
        };
        McpServerConfigBuilder { _marker: core::marker::PhantomData, config }
    }

    /// Sets the header `Authorization` to the bearer token `token`.
    pub fn bearer_token(self, token: &str) -> (r: Self)
        ensures
            self.config() is Command ==> r.config() == self.config(),
            self.config() matches McpServerConfig::Http { headers, .. } ==> r.config()
                matches McpServerConfig::Http { headers: made, .. } && made@ == headers@.insert(
                "Authorization"@,
                bearer_value(token@),
            ) && r.config() == with_headers(self.config(), made),
    {
        let value = join("Bearer ", token);
        self.header("Authorization", value.as_str())
    }

    /// The description that was built.
    pub fn build(self) -> (r: McpServerConfig)
        ensures
            r == self.config(),
    {
        self.config
    }
}

/// How the connection to a server stands.
#[derive(Clone, Copy, Debug, PartialEq, Eq, Hash, Structural)]
pub enum McpServerStatus {
    NotStarted,
    Starting,
    Connected,
    /// The connection is lost and may come back.
    Disconnected,
    /// The server has failed for good.
    Failed,
    ShuttingDown,
    Stopped,
}

impl McpServerStatus {
    /// The words for the status.
    pub open spec fn words(self) -> Seq<char> {
        match self {
            McpServerStatus::NotStarted => "Not Started"@,
            McpServerStatus::Starting => "Starting"@,
            McpServerStatus::Connected => "Connected"@,
            McpServerStatus::Disconnected => "Disconnected"@,
            McpServerStatus::Failed => "Failed"@,
            McpServerStatus::ShuttingDown => "Shutting Down"@,
            McpServerStatus::Stopped => "Stopped"@,
        }
    }

    /// The words for the status.
    pub fn to_text(&self) -> (r: String)
        ensures
            r@ == self.words(),
    {
        match self {
            McpServerStatus::NotStarted => "Not Started".to_string(),
            McpServerStatus::Starting => "Starting".to_string(),
            McpServerStatus::Connected => "Connected".to_string(),
            McpServerStatus::Disconnected => "Disconnected".to_string(),
            McpServerStatus::Failed => "Failed".to_string(),
            McpServerStatus::ShuttingDown => "Shutting Down".to_string(),
            McpServerStatus::Stopped => "Stopped".to_string(),
        }
    }
}

/// What is known of a server while the agent runs.
#[derive(Debug)]
pub struct McpServerInfo {
    pub config: McpServerConfig,
    pub status: McpServerStatus,
    pub last_error: Option<String>,
    pub connection_attempts: u32,
    /// For how long the server has been up.
    pub uptime: Option<Span>,
    pub last_connected: Option<Timestamp>,
    pub available_tools: Vec<String>,
    pub available_resources: Vec<String>,
    pub capabilities: Dictionary<JsonValue>,
}

impl McpServerInfo {
    /// What is known of a server before it is started: its description, and
    /// nothing else.
    pub fn new(config: McpServerConfig) -> (r: McpServerInfo)
        ensures
            r.config == config,
            r.status == McpServerStatus::NotStarted,
            r.last_error is None,
            r.connection_attempts == 0,
            r.uptime is None,
            r.last_connected is None,
            r.available_tools@.len() == 0,
            r.available_resources@.len() == 0,
            r.capabilities@ == Map::<Seq<char>, crate::json::JsonModel>::empty(),
    {
        McpServerInfo {
            config,
            status: McpServerStatus::NotStarted,
            last_error: None,
            connection_attempts: 0,
            uptime: None,
            last_connected: None,
            available_tools: Vec::new(),
            available_resources: Vec::new(),
            capabilities: Dictionary::new(),
        }
    }

    /// Whether the server can be used now.
    pub fn is_operational(&self) -> (r: bool)
        ensures
            r == (self.status == McpServerStatus::Connected),
    {
        self.status == McpServerStatus::Connected
    }

    /// Whether the server has failed for good.
    pub fn is_failed(&self) -> (r: bool)
        ensures
            r == (self.status == McpServerStatus::Failed),
    {
        self.status == McpServerStatus::Failed
    }
}

} // verus!
