//! Provisioning of the Buildkite MCP server binary for the Zed editor.
//!
//! The library holds the decisions: which release asset fits the host, where
//! the binary lives on disk, which stale version directories go, and how the
//! launch command is assembled. The host-side effects (network, file system)
//! are performed by the caller, which feeds their outcomes back as events.
pub mod platform;
pub mod error;
pub mod release;
pub mod cleanup;
pub mod resolver;
pub mod settings;
pub mod command;
