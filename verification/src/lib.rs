//! Verified core of the WebView Bridge automation server: script and command
//! generation, request validation, and the bookkeeping of sessions, downloads,
//! stored files, jobs and macros.

pub mod ai;
pub mod cli;
pub mod clock;
pub mod comm;
pub mod config;
pub mod cookie_import;
pub mod download;
pub mod error_codes;
pub mod event_types;
pub mod goal;
pub mod ids;
pub mod json;
pub mod macros;
pub mod mcp;
pub mod mcp_tools;
pub mod media;
pub mod network;
pub mod ordering;
pub mod paths;
pub mod profile;
pub mod screenshot;
pub mod session;
pub mod session_pool;
pub mod session_v2;
pub mod strops;
pub mod table;
pub mod text;
pub mod upload;
pub mod wait;
pub mod websocket;
