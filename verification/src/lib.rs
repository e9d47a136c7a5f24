//! Verified core of a marketplace backend: error classification, item-route
//! decisions, chat-session bookkeeping and message flows, and storage URLs.

pub mod decimal;
pub mod error;
pub mod chat_server;
pub mod item_handler;
pub mod uploads;
