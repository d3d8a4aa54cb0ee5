//! The state and the rules of the voice-to-text server: what its tools
//! take and give, its sessions, its history and its subscribers.

pub mod error;
pub mod params;
pub mod server;

pub use error::{McpError, McpErrorCode, ToMcpError, VttError, VttResult};
pub use server::VttMcpServer;
