//! agentd: the verified core of a daemon that orchestrates coding-agent
//! sessions inside tmux.

pub mod cli;
pub mod config;
pub mod control_client;
pub mod daemon;
pub mod db;
pub mod event_bus;
pub mod handlers;
pub mod ids;
pub mod ipc;
pub mod json;
pub mod order;
pub mod paths;
pub mod plugin_heartbeat;
pub mod plugin_spawner;
pub mod plugin_supervisor;
pub mod plugin_uds;
pub mod plugins_manifest;
pub mod protocol;
pub mod session_create;
pub mod state;
pub mod status;
pub mod seq_util;
pub mod text;
pub mod text_map;
pub mod tmux;
pub mod tmux_output;
pub mod tui;
