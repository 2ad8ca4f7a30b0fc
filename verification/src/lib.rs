//! Conversation rules of a Telegram bot that registers students for prize
//! draws ("shara"), together with the routing table of its web companion.

pub mod callback;
pub mod config;
pub mod conversation;
pub mod dialogue;
pub mod keyboard;
pub mod patterns;
pub mod prize;
pub mod properties;
pub mod routes;
pub mod text;
