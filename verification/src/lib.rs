//! The logic of a proxy between MCP clients and servers: OAuth against a server, the
//! coordination of processes that need it, the clients of SSE and streamable HTTP
//! servers, and the servers that offer a command on the standard streams.
//!
//! Nothing in this crate reads a file or sends a request. Each operation is a value that
//! says what is to be done next; what came of it is handed back, and the next step
//! follows. `laws` states what holds of whole runs.
pub mod auth;
pub mod authorize;
pub mod callback_page;
pub mod cli;
pub mod config;
pub mod connection;
pub mod coordination;
pub mod laws;
pub mod oidc;
pub mod outside;
pub mod registration;
pub mod sse_client;
pub mod sse_server;
pub mod streamable_http_client;
pub mod text;
pub mod tokens;
pub mod utils;
