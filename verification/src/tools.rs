//! The tools that an agent may be given.

use vstd::prelude::*;
use crate::clock::Span;
use crate::dict::Dictionary;
use crate::error::AgentError;
use crate::json::{JsonModel, JsonValue};

verus! {

/// How many results a web search returns by default.
pub const DEFAULT_SEARCH_RESULTS: usize = 10;

/// The largest file, in bytes, that is read or written by default.
pub const DEFAULT_MAX_FILE_SIZE: usize = 10485760;

/// The largest patch, in bytes, that is applied by default.
pub const DEFAULT_MAX_PATCH_SIZE: usize = 1048576;

/// What a tool is told about the turn in which it runs.
pub struct ToolExecutionContext {
    pub working_directory: String,
    pub environment: Dictionary<String>,
    /// The number of the turn.
    pub turn_id: u64,
    /// How long the tool may run.
    pub timeout: Option<Span>,
}

/// What a tool gives back.
#[derive(Debug)]
pub struct ToolExecutionResult {
    pub success: bool,
    /// What the tool has written.
    pub output: String,
    /// What the tool has computed, if it is more than text.
    pub data: Option<JsonValue>,
    /// Zero for a success.
    pub exit_code: Option<i32>,
    pub metadata: Dictionary<JsonValue>,
}

impl ToolExecutionResult {
    /// Whether the result has the given parts and no metadata.
    pub open spec fn is_plain(
        self,
        success: bool,
        output: Seq<char>,
        data: Option<JsonValue>,
        exit_code: i32,
    ) -> bool {
        &&& self.success == success
        &&& self.output@ == output
        &&& self.data == data
        &&& self.exit_code == Some(exit_code)
        &&& self.metadata@ == Map::<Seq<char>, JsonModel>::empty()
    }

    /// A success with the output `output`.
    pub fn success(output: &str) -> (r: ToolExecutionResult)
        ensures
            r.is_plain(true, output@, None, 0),
    {
        ToolExecutionResult {
            success: true,
            output: output.to_string(),
            data: None,
            exit_code: Some(0),
            metadata: Dictionary::new(),
        }
    }

    /// A success with the output `output` and the data `data`.
    pub fn success_with_data(output: &str, data: JsonValue) -> (r: ToolExecutionResult)
        ensures
            r.is_plain(true, output@, Some(data), 0),
    {
        ToolExecutionResult {
            success: true,
            output: output.to_string(),
            data: Some(data),
            exit_code: Some(0),
            metadata: Dictionary::new(),
        }
    }

    /// A failure with the output `output` and the exit code `exit_code`.
    pub fn failure(output: &str, exit_code: i32) -> (r: ToolExecutionResult)
        ensures
            r.is_plain(false, output@, None, exit_code),
    {
        ToolExecutionResult {
            success: false,
            output: output.to_string(),
            data: None,
            exit_code: Some(exit_code),
            metadata: Dictionary::new(),
        }
    }

    /// A failure that never came to an exit code of its own: the message as
    /// output, and minus one as the exit code.
    pub fn error(error_message: &str) -> (r: ToolExecutionResult)
        ensures
            r.is_plain(false, error_message@, None, -1i32),
    {
        ToolExecutionResult {
            success: false,
            output: error_message.to_string(),
            data: None,
            exit_code: Some(-1),
            metadata: Dictionary::new(),
        }
    }

    /// Stores `value` under `key` in the metadata.
    pub fn with_metadata(self, key: String, value: JsonValue) -> (r: ToolExecutionResult)
        ensures
            r.metadata@ == self.metadata@.insert(key@, value@),
            r.success == self.success,
            r.output == self.output,
            r.data == self.data,
            r.exit_code == self.exit_code,
    {
        let mut result = self;
        result.metadata.insert(key, value);
        result
    }
}

/// A tool that the user of the library brings along.
pub trait CustomToolHandler: Send + Sync {
    /// Runs the tool.
    fn execute(&self, parameters: JsonValue, context: &ToolExecutionContext) -> Result<
        ToolExecutionResult,
        AgentError,
    >;

    /// The JSON schema of the tool's parameters.
    fn parameter_schema(&self) -> JsonValue;

    /// What the tool does, in words.
    fn description(&self) -> String;
}

/// One tool and its settings.
#[allow(inconsistent_fields)]
pub enum ToolConfig {
    /// Runs shell commands.
    Bash {
        allow_network: bool,
        environment: Dictionary<String>,
        /// Relative to the agent's working directory.
        working_directory: Option<String>,
        /// In seconds.
        timeout: Option<u64>,
    },
    /// Searches the web.
    WebSearch {
        max_results: usize,
        search_engine: Option<String>,
        parameters: Dictionary<JsonValue>,
    },
    /// Reads files.
    FileRead {
        /// In bytes.
        max_file_size: usize,
        /// Empty where every extension is allowed.
        allowed_extensions: Vec<String>,
        allow_binary: bool,
    },
    /// Writes files.
    FileWrite {
        /// In bytes.
        max_file_size: usize,
        /// Empty where every extension is allowed.
        allowed_extensions: Vec<String>,
        allow_overwrite: bool,
        create_directories: bool,
    },
    /// Applies patches to files.
    ApplyPatch {
        /// In bytes.
        max_patch_size: usize,
        create_backup: bool,
        validate_syntax: bool,
    },
    /// A tool that the user brings along.
    Custom {
        name: String,
        description: String,
        /// The JSON schema of the parameters.
        parameters: JsonValue,
        handler: Option<Box<dyn CustomToolHandler>>,
    },
}

/// A copy of the strings.
pub fn clone_strings(items: &Vec<String>) -> (r: Vec<String>)
    ensures
        r@ == items@,
{
    let mut out: Vec<String> = Vec::new();
    let mut i: usize = 0;
    while i < items.len()
        invariant
            i <= items@.len(),
            out@.len() == i,
            forall|k: int| 0 <= k < i ==> out@[k] == items@[k],
        decreases items@.len() - i,
    {
        out.push(items[i].clone());
        i = i + 1;
    }
    assert(out@ =~= items@);
    out
}

fn clone_optional(text: &Option<String>) -> (r: Option<String>)
    ensures
        r == *text,
{
    match text {
        Some(s) => Some(s.clone()),
        None => None,
    }
}

impl ToolConfig {
    /// The name by which the tool is known.
    pub open spec fn tool_name(self) -> Seq<char> {
        match self {
            ToolConfig::Bash { .. } => "bash"@,
            ToolConfig::WebSearch { .. } => "web_search"@,
            ToolConfig::FileRead { .. } => "file_read"@,
            ToolConfig::FileWrite { .. } => "file_write"@,
            ToolConfig::ApplyPatch { .. } => "apply_patch"@,
            ToolConfig::Custom { name, .. } => name@,
        }
    }

    /// What the tool does, in words.
    pub open spec fn tool_description(self) -> Seq<char> {
        match self {
            ToolConfig::Bash { allow_network, .. } => if allow_network {
                "Execute shell commands with network access"@
            } else {
                "Execute shell commands without network access"@
            },
            ToolConfig::WebSearch { .. } => "Search the web for information"@,
            ToolConfig::FileRead { .. } => "Read files from the filesystem"@,
            ToolConfig::FileWrite { .. } => "Write files to the filesystem"@,
            ToolConfig::ApplyPatch { .. } => "Apply code patches to files"@,
            ToolConfig::Custom { description, .. } => description@,
        }
    }

    /// Whether `self` has the settings of `other`, and no handler.
    pub open spec fn copy_of(self, other: ToolConfig) -> bool {
        match other {
            ToolConfig::Bash { allow_network, environment, working_directory, timeout } => {
                &&& self matches ToolConfig::Bash {
                    allow_network: a,
                    environment: e,
                    working_directory: w,
                    timeout: t,
                }
                &&& a == allow_network
                &&& e@ == environment@
                &&& w == working_directory
                &&& t == timeout
            },
            ToolConfig::WebSearch { max_results, search_engine, parameters } => {
                &&& self matches ToolConfig::WebSearch {
                    max_results: m,
                    search_engine: s,
                    parameters: p,
                }
                &&& m == max_results
                &&& s == search_engine
                &&& p@ == parameters@
            },
            ToolConfig::FileRead { max_file_size, allowed_extensions, allow_binary } => {
                &&& self matches ToolConfig::FileRead {
                    max_file_size: m,
                    allowed_extensions: x,
                    allow_binary: b,
                }
                &&& m == max_file_size
                &&& x@ == allowed_extensions@
                &&& b == allow_binary
            },
            ToolConfig::FileWrite {
                max_file_size,
                allowed_extensions,
                allow_overwrite,
                create_directories,
            } => {
                &&& self matches ToolConfig::FileWrite {
                    max_file_size: m,
                    allowed_extensions: x,
                    allow_overwrite: o,
                    create_directories: c,
                }
                &&& m == max_file_size
                &&& x@ == allowed_extensions@
                &&& o == allow_overwrite
                &&& c == create_directories
            },
            ToolConfig::ApplyPatch { max_patch_size, create_backup, validate_syntax } => {
                &&& self matches ToolConfig::ApplyPatch {
                    max_patch_size: m,
                    create_backup: b,
                    validate_syntax: v,
                }
                &&& m == max_patch_size
                &&& b == create_backup
                &&& v == validate_syntax
            },
            ToolConfig::Custom { name, description, parameters, .. } => {
                &&& self matches ToolConfig::Custom {
                    name: n,
                    description: d,
                    parameters: p,
                    handler: h,
                }
                &&& n == name
                &&& d == description
                &&& p@ == parameters@
                &&& h is None
            },
        }
    }

    /// The shell without access to the network.
    pub fn bash() -> (r: ToolConfig)
        ensures
            r matches ToolConfig::Bash { allow_network, environment, working_directory, timeout }
                && !allow_network && environment@ == Map::<Seq<char>, Seq<char>>::empty()
                && working_directory is None && timeout is None,
    {
        ToolConfig::Bash {
            allow_network: false,
            environment: Dictionary::new(),
            working_directory: None,
            timeout: None,
        }
    }

    /// The shell with access to the network.
    pub fn bash_with_network() -> (r: ToolConfig)
        ensures
            r matches ToolConfig::Bash { allow_network, environment, working_directory, timeout }
                && allow_network && environment@ == Map::<Seq<char>, Seq<char>>::empty()
                && working_directory is None && timeout is None,
    {
        ToolConfig::Bash {
            allow_network: true,
            environment: Dictionary::new(),
            working_directory: None,
            timeout: None,
        }
    }

    /// The web search with its default settings.
    pub fn web_search() -> (r: ToolConfig)
        ensures
            r matches ToolConfig::WebSearch { max_results, search_engine, parameters }
                && max_results == DEFAULT_SEARCH_RESULTS && search_engine is None && parameters@
                == Map::<Seq<char>, JsonModel>::empty(),
    {
        ToolConfig::WebSearch {
            max_results: DEFAULT_SEARCH_RESULTS,
            search_engine: None,
            parameters: Dictionary::new(),
        }
    }

    /// The reading of files with its default settings.
    pub fn file_read() -> (r: ToolConfig)
        ensures
            r matches ToolConfig::FileRead { max_file_size, allowed_extensions, allow_binary }
                && max_file_size == DEFAULT_MAX_FILE_SIZE && allowed_extensions@.len() == 0
                && !allow_binary,
    {
        ToolConfig::FileRead {
            max_file_size: DEFAULT_MAX_FILE_SIZE,
            allowed_extensions: Vec::new(),
            allow_binary: false,
        }
    }

    /// The writing of files with its default settings.
    pub fn file_write() -> (r: ToolConfig)
        ensures
            r matches ToolConfig::FileWrite {
                max_file_size,
                allowed_extensions,
                allow_overwrite,
                create_directories,
            } && max_file_size == DEFAULT_MAX_FILE_SIZE && allowed_extensions@.len() == 0
                && allow_overwrite && create_directories,
    {
        ToolConfig::FileWrite {
            max_file_size: DEFAULT_MAX_FILE_SIZE,
            allowed_extensions: Vec::new(),
            allow_overwrite: true,
            create_directories: true,
        }
    }

    /// The applying of patches with its default settings.
    pub fn apply_patch() -> (r: ToolConfig)
        ensures
            r matches ToolConfig::ApplyPatch { max_patch_size, create_backup, validate_syntax }
                && max_patch_size == DEFAULT_MAX_PATCH_SIZE && create_backup && validate_syntax,
    {
        ToolConfig::ApplyPatch {
            max_patch_size: DEFAULT_MAX_PATCH_SIZE,
            create_backup: true,
            validate_syntax: true,
        }
    }

    /// A tool of the user's own.
    pub fn custom(
        name: &str,
        description: &str,
        parameters: JsonValue,
        handler: Box<dyn CustomToolHandler>,
    ) -> (r: ToolConfig)
        ensures
            r matches ToolConfig::Custom { name: n, description: d, parameters: p, handler: h }
                && n@ == name@ && d@ == description@ && p == parameters && h is Some,
    {
        ToolConfig::Custom {
            name: name.to_string(),
            description: description.to_string(),
            parameters,
            handler: Some(handler),
        }
    }

    /// The name by which the tool is known.
    pub fn name(&self) -> (r: &str)
        ensures
            r@ == self.tool_name(),
    {
        match self {
            ToolConfig::Bash { .. } => "bash",
            ToolConfig::WebSearch { .. } => "web_search",
            ToolConfig::FileRead { .. } => "file_read",
            ToolConfig::FileWrite { .. } => "file_write",
            ToolConfig::ApplyPatch { .. } => "apply_patch",
            ToolConfig::Custom { name, .. } => name.as_str(),
        }
    }

    /// What the tool does, in words.
    pub fn description(&self) -> (r: String)
        ensures
            r@ == self.tool_description(),
    {
        match self {
            ToolConfig::Bash { allow_network, .. } => {
                if *allow_network {
                    "Execute shell commands with network access".to_string()
                } else {
                    "Execute shell commands without network access".to_string()
                }
            },
            ToolConfig::WebSearch { .. } => "Search the web for information".to_string(),
            ToolConfig::FileRead { .. } => "Read files from the filesystem".to_string(),
            ToolConfig::FileWrite { .. } => "Write files to the filesystem".to_string(),
            ToolConfig::ApplyPatch { .. } => "Apply code patches to files".to_string(),
            ToolConfig::Custom { description, .. } => description.clone(),
        }
    }

    /// Whether the tool searches the web.
    pub fn is_web_search(&self) -> (r: bool)
        ensures
            r == (*self is WebSearch),
    {
        matches!(self, ToolConfig::WebSearch { .. })
    }

    /// Whether the tool applies patches.
    pub fn is_apply_patch(&self) -> (r: bool)
        ensures
            r == (*self is ApplyPatch),
    {
        matches!(self, ToolConfig::ApplyPatch { .. })
    }
}

impl Clone for ToolConfig {
    /// A copy with the same settings. The handler of a custom tool is not
    /// copied: the copy has none.
    fn clone(&self) -> (r: ToolConfig)
        ensures
            r.copy_of(*self),
    {
        match self {
            ToolConfig::Bash { allow_network, environment, working_directory, timeout } => {
                ToolConfig::Bash {
                    allow_network: *allow_network,
                    environment: environment.duplicate(),
                    working_directory: clone_optional(working_directory),
                    timeout: *timeout,
                }
            },
            ToolConfig::WebSearch { max_results, search_engine, parameters } => {
                ToolConfig::WebSearch {
                    max_results: *max_results,
                    search_engine: clone_optional(search_engine),
                    parameters: parameters.duplicate(),
                }
            },
            ToolConfig::FileRead { max_file_size, allowed_extensions, allow_binary } => {
                ToolConfig::FileRead {
                    max_file_size: *max_file_size,
                    allowed_extensions: clone_strings(allowed_extensions),
                    allow_binary: *allow_binary,
                }
            },
            ToolConfig::FileWrite {
                max_file_size,
                allowed_extensions,
                allow_overwrite,
                create_directories,
            } => ToolConfig::FileWrite {
                max_file_size: *max_file_size,
                allowed_extensions: clone_strings(allowed_extensions),
                allow_overwrite: *allow_overwrite,
                create_directories: *create_directories,
            },
            ToolConfig::ApplyPatch { max_patch_size, create_backup, validate_syntax } => {
                ToolConfig::ApplyPatch {
                    max_patch_size: *max_patch_size,
                    create_backup: *create_backup,
                    validate_syntax: *validate_syntax,
                }
            },
            ToolConfig::Custom { name, description, parameters, .. } => ToolConfig::Custom {
                name: name.clone(),
                description: description.clone(),
                parameters: parameters.duplicate(),
                handler: None,
            },
        }
    }
}

} // verus!
