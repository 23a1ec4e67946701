//! Verified core of the Uprava control plane and node daemon.
use vstd::prelude::*;

pub mod text;
pub mod states;
pub mod protocol;
pub mod policy;
pub mod projection;
pub mod admission;
pub mod strmap;
pub mod order;
pub mod system;
pub mod node_state;
pub mod dispatch;
pub mod retention;
pub mod command_flow;
pub mod codex;
pub mod split;
pub mod git;
pub mod workspace;
pub mod node_config;
pub mod managed_config;
pub mod versions;
pub mod server_config;
pub mod logging;
pub mod auth;
pub mod client_log;
pub mod session_views;
pub mod agent;
pub mod commands;
pub mod control;
pub mod urls;

verus! {
}
