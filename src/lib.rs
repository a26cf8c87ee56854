//! Per-user state of a chat bot: one AI conversation per user, at most one
//! timed focus session per user, and the texts the bot shows and sends.

pub mod ai;
pub mod conversation;
pub mod docstrings;
pub mod handler;
pub mod session;
pub mod text;
