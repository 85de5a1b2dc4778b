//! FrankClaw: the verified core of a personal AI assistant gateway.
//!
//! The library holds the gateway's data model, its configuration rules, the
//! channel message formats, delivery, webhooks, rate limiting, the canvas and
//! the command-line reports. Everything that talks to the network, the disk,
//! the clock or the environment lives in the application around it, which
//! hands plain values in and takes plain values out.

pub mod channels;
pub mod cli;
pub mod config;
pub mod error;
pub mod gateway;
pub mod json;
pub mod laws;
pub mod media;
pub mod message;
pub mod signature;
pub mod text;
pub mod text_map;
pub mod time;
pub mod types;
