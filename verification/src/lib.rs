//! Control plane for a fleet of NixOS machines: the request/response protocol
//! between server and agents, the registry of live sessions, and the rules by
//! which flake revisions become per-agent work.

pub mod activate;
pub mod agent;
pub mod cli;
pub mod config;
pub mod connect;
pub mod handler;
pub mod http;
pub mod json;
pub mod manager;
pub mod nix;
pub mod process;
pub mod profile;
pub mod restore;
pub mod rpc;
pub mod schema;
pub mod state;
pub mod store;
pub mod table;
pub mod text;
pub mod types;
