//! Supervision core for a fleet of game-protocol bot accounts: the credential
//! cache and login state machine, and the registry of controllers and their
//! connection instances.

pub mod api;
pub mod auth;
pub mod cache;
pub mod client;
pub mod controller;
pub mod hooks;
pub mod ident;
pub mod instance;
pub mod login;
pub mod network;
pub mod server;
pub mod string_map;
pub mod task;
pub mod version;
