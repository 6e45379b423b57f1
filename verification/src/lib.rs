//! Timer engine, wire protocol and configuration logic of a pomodoro-style
//! timer that is shared between one server and many clients.

pub mod account;
pub mod client;
pub mod config;
pub mod connection;
pub mod display;
pub mod engine;
pub mod handler;
pub mod hooks;
pub mod hooks_config;
pub mod laws;
pub mod manual;
pub mod named;
pub mod protocol;
pub mod report;
pub mod server;
pub mod text;
pub mod timer;
pub mod wire;
