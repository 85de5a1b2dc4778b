//! The command line: its reports, its dialogues and its settings.

pub mod audit;
pub mod doctor;
pub mod messages;
pub mod notice;
pub mod repl;
pub mod secrets;
pub mod service;
pub mod setup;
pub mod terminal;
