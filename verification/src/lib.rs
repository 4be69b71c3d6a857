//! Verified message handling for a chat bot: command matching on message
//! segments, reply planning for each handler, and the dialogue state machines.

pub mod dialogue;
pub mod echo;
pub mod filter;
pub mod interaction;
pub mod message;
pub mod print;
pub mod qq_special;
pub mod schedule;
pub mod set_message_reaction;
pub mod text;
pub mod wait;
