//! Verified core of a command-line client for Open WebUI chats.
pub mod cli;
pub mod client;
pub mod commands;
pub mod config;
pub mod errors;
pub mod history;
pub mod ids;
pub mod json;
pub mod messages;
pub mod paths;
pub mod program;
pub mod reports;
pub mod session;
pub mod text;
pub mod wait;
