//! Core logic of the chat agent: tool name parsing, path handling,
//! permission evaluation, themes and text, and the agent's data model.

pub mod text;
pub mod tool_names;
pub mod theme;
pub mod globs;
pub mod path_util;
pub mod json;
pub mod config;
pub mod permissions;
pub mod tools;
pub mod paths;
pub mod env_var;
pub mod constants;
pub mod messages;
pub mod agent_config;
pub mod stream_error;
pub mod agent_loop;
pub mod compact;
pub mod chat;
pub mod chat_flow;
pub mod launch;
pub mod session;
pub mod ui_protocol;
pub mod task_executor;
pub mod settings;
pub mod cli;
pub mod api_client;
pub mod database;
pub mod mcp;
pub mod rts_parser;
pub mod rts_request;
pub mod tool_utils;
