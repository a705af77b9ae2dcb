//! What holds of the library beyond a single function: of every run of an operation,
//! and of several operations together.
pub mod client;
pub mod commands;
pub mod connections;
pub mod coordination;
pub mod data;
pub mod discovery;
mod events;
pub mod exchanges;
pub mod files;
pub mod lines;
pub mod plans;
pub mod progress;
pub mod recoveries;
pub mod requests;
pub mod sessions;
pub mod storage;
pub mod streams;
pub mod texts;
pub mod tokens;
