//! Verified core of a terminal Telegram client: the JSON model the daemon
//! and its clients exchange, the wire framing, the request planner, the
//! update classifier, the configuration defaults and the TUI state machine.

pub mod text;
pub mod json;
pub mod frame;
pub mod protocol;
pub mod handler;
pub mod events;
pub mod models;
pub mod tui;
pub mod display;
pub mod paths;
pub mod config;
pub mod common_config;
pub mod cli;
pub mod output;
pub mod tui_app;
pub mod cache;
pub mod line_client;
pub mod line_daemon;
