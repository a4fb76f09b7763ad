//! VibingIDE core library: the verified logic behind the agent-panel IDE.

pub mod app;
pub mod cli;
pub mod config;
pub mod engine;
pub mod history;
pub mod input;
pub mod path_utils;
pub mod pty;
pub mod text;
pub mod ui;
