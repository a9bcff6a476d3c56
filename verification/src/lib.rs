//! Verified core of an MCP tool server that drives the `gitquarry` command-line
//! program: the command lines it builds, the way it judges what the program
//! printed, and the tool results it hands back.

pub mod argv;
pub mod command_laws;
pub mod commands;
pub mod decimal;
pub mod json;
pub mod laws;
pub mod options;
pub mod runner;
pub mod text;
pub mod tool;
