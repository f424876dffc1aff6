//! Command-line client for a domain registrar's REST API.
//!
//! The library holds the logic of the client: routing parsed arguments to a
//! command, building the outgoing request, turning the response status into a
//! result, and laying out what a command shows to a human reader. Argument
//! parsing, the network round trip, the JSON/YAML/TOML codecs and terminal
//! colours are left to the program that drives it.

pub mod api;
pub mod args;
pub mod command_handler;
pub mod config;
pub mod constants;
pub mod datetime;
pub mod dispatch;
pub mod display;
pub mod errors;
pub mod parsed_args;
pub mod request;
pub mod status;
pub mod text;
pub mod user_agent;
