//! Configuration and permission types exchanged between the caller and the
//! engine.

use vstd::prelude::*;

verus! {

pub const PERMISSION_MODE_DEFAULT: &'static str = "default";

pub const PERMISSION_MODE_ACCEPT_EDITS: &'static str = "acceptEdits";

pub const PERMISSION_MODE_PLAN: &'static str = "plan";

pub const PERMISSION_MODE_BYPASS: &'static str = "bypassPermissions";

pub const HOOK_PRE_TOOL_USE: &'static str = "PreToolUse";

pub const HOOK_POST_TOOL_USE: &'static str = "PostToolUse";

pub const HOOK_USER_PROMPT_SUBMIT: &'static str = "UserPromptSubmit";

pub const HOOK_STOP: &'static str = "Stop";

pub const HOOK_SUBAGENT_STOP: &'static str = "SubagentStop";

pub const HOOK_PRE_COMPACT: &'static str = "PreCompact";

/// Where a settings file comes from.
#[derive(Debug, Clone, PartialEq, Eq)]
pub enum SettingSource {
    User,
    Project,
    Local,
}

/// The system prompt: free text, or a named preset with an optional
/// appended text.
#[derive(Debug, Clone)]
pub enum SystemPrompt {
    Preset { preset: String, append: Option<String> },
    Text(String),
}

/// One agent made available to the subprocess.
#[derive(Debug, Clone)]
pub struct AgentDefinition {
    pub description: String,
    pub prompt: String,
    pub tools: Option<Vec<String>>,
    pub model: Option<String>,
}

/// One permission rule: a tool, optionally narrowed by rule content.
#[derive(Debug, Clone)]
pub struct PermissionRuleValue {
    pub tool_name: String,
    pub rule_content: Option<String>,
}

/// A suggested or requested change to the permission configuration.
#[derive(Debug, Clone)]
pub enum PermissionUpdate {
    AddRules { rules: Vec<PermissionRuleValue>, destination: Option<String> },
    ReplaceRules { rules: Vec<PermissionRuleValue>, destination: Option<String> },
    RemoveRules { rules: Vec<PermissionRuleValue>, destination: Option<String> },
    SetMode { mode: String, destination: Option<String> },
    AddDirectories { directories: Vec<String>, destination: Option<String> },
    RemoveDirectories { directories: Vec<String>, destination: Option<String> },
}

/// Context handed to a tool-permission callback.
#[derive(Debug, Clone)]
pub struct ToolPermissionContext {
    pub suggestions: Vec<PermissionUpdate>,
}

/// Outcome of a tool-permission callback.
#[derive(Debug, Clone)]
pub enum PermissionResult {
    Allow {
        updated_input: Option<serde_json::Value>,
        updated_permissions: Option<Vec<PermissionUpdate>>,
    },
    Deny { message: String, interrupt: bool },
}

/// What a hook callback hands back to the engine.
#[derive(Debug, Clone)]
pub struct HookJSONOutput {
    pub decision: Option<String>,
    pub system_message: Option<String>,
    pub hook_specific_output: Option<serde_json::Value>,
}

/// Context handed to a hook callback.
#[derive(Debug, Clone)]
pub struct HookContext {}

/// How to reach one MCP server.
#[derive(Debug, Clone)]
pub enum McpServerConfig {
    Stdio { command: String, args: Option<Vec<String>>, env: Option<Vec<(String, String)>> },
    SSE { url: String, headers: Option<Vec<(String, String)>> },
    HTTP { url: String, headers: Option<Vec<(String, String)>> },
    SDK { name: String, instance: Option<()> },
}

/// Configuration for one session, as the flag synthesis and the transport
/// read it.
#[derive(Debug, Clone)]
pub struct ClaudeAgentOptions {
    pub allowed_tools: Vec<String>,
    pub system_prompt: Option<SystemPrompt>,
    pub mcp_servers: Vec<(String, McpServerConfig)>,
    pub permission_mode: Option<String>,
    pub continue_conversation: bool,
    pub resume: Option<String>,
    pub max_turns: Option<i32>,
    pub disallowed_tools: Vec<String>,
    pub model: Option<String>,
    pub permission_prompt_tool_name: Option<String>,
    pub cwd: Option<String>,
    pub settings: Option<String>,
    pub add_dirs: Vec<String>,
    pub env: Vec<(String, String)>,
    pub extra_args: Vec<(String, Option<String>)>,
    pub max_buffer_size: Option<usize>,
    pub user: Option<String>,
    pub include_partial_messages: bool,
    pub fork_session: bool,
    pub agents: Vec<(String, AgentDefinition)>,
    pub setting_sources: Option<Vec<SettingSource>>,
}

impl Default for ClaudeAgentOptions {
    /// The empty configuration: no tools, no prompt, no servers, every
    /// switch off.
    fn default() -> (r: Self)
        ensures
            r.allowed_tools@ == Seq::<String>::empty(),
            r.system_prompt is None,
            r.mcp_servers@ == Seq::<(String, McpServerConfig)>::empty(),
            r.permission_mode is None,
            !r.continue_conversation,
            r.resume is None,
            r.max_turns is None,
            r.disallowed_tools@ == Seq::<String>::empty(),
            r.model is None,
            r.permission_prompt_tool_name is None,
            r.cwd is None,
            r.settings is None,
            r.add_dirs@ == Seq::<String>::empty(),
            r.env@ == Seq::<(String, String)>::empty(),
            r.extra_args@ == Seq::<(String, Option<String>)>::empty(),
            r.max_buffer_size is None,
            r.user is None,
            !r.include_partial_messages,
            !r.fork_session,
            r.agents@ == Seq::<(String, AgentDefinition)>::empty(),
            r.setting_sources is None,
    {
        ClaudeAgentOptions {
            allowed_tools: Vec::new(),
            system_prompt: None,
            mcp_servers: Vec::new(),
            permission_mode: None,
            continue_conversation: false,
            resume: None,
            max_turns: None,
            disallowed_tools: Vec::new(),
            model: None,
            permission_prompt_tool_name: None,
            cwd: None,
            settings: None,
            add_dirs: Vec::new(),
            env: Vec::new(),
            extra_args: Vec::new(),
            max_buffer_size: None,
            user: None,
            include_partial_messages: false,
            fork_session: false,
            agents: Vec::new(),
            setting_sources: None,
        }
    }
}

} // verus!
