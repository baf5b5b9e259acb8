//! Decision logic of the Cortex memory service, its MCP tool server and its
//! command-line client, stated over plain values and proved with Verus.

pub mod cli;
pub mod close_wait;
pub mod mcp;
pub mod sessions;
pub mod text;
pub mod tools;
pub mod trigger;
