//! Verified core of the ChatGPT × Codex relay: the orchestration state machine,
//! the terminal control-block protocol and the relay decisions.

pub mod text;
pub mod orchestration;
pub mod relay_protocol;
pub mod middleware;
pub mod protocol;
pub mod relay;
pub mod relay_codex_input;
pub mod relay_queue;
pub mod relay_channel;
pub mod relay_cycle;
pub mod relay_module;
pub mod app_server;
pub mod relay_worker;
pub mod bridge;
pub mod git_check;
pub mod stamps;
