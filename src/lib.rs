//! A remote command-execution facility: requests describe a program to run
//! under a wall-clock budget inside a working directory, and a small message
//! protocol routes requests and replies between a caller and the engine.
//!
//! The library holds the data model and every decision of the engine and of
//! the dispatcher, proved against their contracts. Spawning processes,
//! waiting on deadlines and locking shared state are left to the host.

pub mod config;
pub mod error;
pub mod sandbox;
pub mod server;
pub mod text;

pub use config::Config;
pub use error::Error;
pub use sandbox::Sandbox;
pub use server::McpMessage;
