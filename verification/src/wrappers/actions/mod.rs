//! Builders for actions that can be performed by the bot, such as sending messages.

pub mod interaction_respond;
pub mod message_create;
