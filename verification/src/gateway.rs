//! The gateway: what it does with messages, requests and connections.

pub mod acp;
pub mod canvas;
pub mod chat;
pub mod cron;
pub mod delivery;
pub mod health_monitor;
pub mod http;
pub mod inbound;
pub mod methods;
pub mod openai_api;
pub mod protocol;
pub mod rate_limit;
pub mod reload;
pub mod tunnel;
pub mod webhooks;
