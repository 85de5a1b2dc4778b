//! What the operations are for: relations between what goes into a call and
//! what comes out of it, whatever the call does in between. `call_ensures` of a
//! function, its arguments and a result stands for "the call came back with this
//! result".

pub mod acp;
pub mod audit;
pub mod canvas;
pub mod chat;
pub mod clients;
pub mod delivery;
pub mod discord;
pub mod display;
pub mod doctor;
pub mod http;
pub mod inbound;
pub mod jobs;
pub mod limits;
pub mod names;
pub mod openai;
pub mod reload;
pub mod replies;
pub mod secrets;
pub mod settings;
pub mod setup;
pub mod slack;
pub mod terms;
pub mod text;
pub mod tunnel;
pub mod webhooks;
pub mod whatsapp;
