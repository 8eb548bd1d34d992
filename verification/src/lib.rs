//! Core of a client SDK that talks to a long-lived subprocess speaking a
//! line-oriented JSON protocol over its standard streams.
//!
//! Two layers carry the protocol. The framing layer ([`framing`]) turns the
//! raw lines read from the peer into decoded JSON frames, accumulating
//! partial values and bounding the buffer. The control-protocol engine
//! ([`engine`]) classifies each frame as a control response, a control
//! request, or an ordinary message; correlates outbound control requests
//! with their responses; decides the reply to each inbound control request;
//! and forwards ordinary messages in arrival order. Around them sit the
//! typed message decoder ([`parser`]), the session configuration and its
//! argument-vector synthesis ([`types`], [`command`]), the tool-schema
//! rendering ([`mcp`]), and the shared error type ([`errors`]).
//!
//! The engine and the framer are pure state machines: all I/O — spawning
//! the subprocess, reading and writing its pipes, timers — stays with the
//! caller, which drives them frame by frame and line by line.

pub mod command;
pub mod engine;
pub mod errors;
pub mod framing;
pub mod json;
pub mod mcp;
pub mod parser;
pub mod types;

pub use errors::{ClaudeSDKError, SdkResult};
pub use engine::{Engine, OpenedRequest, StepAction};
pub use framing::{Framer, FrameStep};
pub use mcp::ToolParameter;
pub use parser::{
    parse_message, AssistantMessageContent, AssistantMessageInner, ContentBlock, Message,
    UserMessageContent, UserMessageInner,
};
pub use types::{
    AgentDefinition, ClaudeAgentOptions, HookContext, HookJSONOutput, McpServerConfig,
    PermissionResult, PermissionRuleValue, PermissionUpdate, SettingSource, SystemPrompt,
    ToolPermissionContext,
};
