//! Relay: the verified core of a terminal AI agent.
pub mod client;
pub mod config;
pub mod env;
pub mod error;
pub mod json;
pub mod memory;
pub mod message;
pub mod mode;
pub mod reflect;
pub mod skill;
pub mod supervisor;
pub mod term;
pub mod text;
pub mod tools;
pub mod tui;
pub mod turn;
pub mod ui;
