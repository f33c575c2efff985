//! Messages to send.

use vstd::prelude::*;

verus! {

/// An embed attached to a message.
#[verifier::external_type_specification]
#[verifier::external_body]
pub struct ExEmbed(twilight_model::channel::message::Embed);

/// A builder for sending a message.
pub struct CreateMessage {
    /// The ID of the channel to send the message to.
    pub channel_id: u64,

    /// The content of the message to send.
    pub content: String,

    /// The ID of the message to reply to, if any.
    pub replying_to: Option<u64>,

    /// The embeds to include in the message, in the order they were added.
    pub embeds: Vec<twilight_model::channel::message::Embed>,
}

impl CreateMessage {
    /// A message with the given content for the given channel, replying to
    /// nothing and without embeds.
    pub fn new(channel_id: u64, content: &str) -> (message: Self)
        ensures
            message.channel_id == channel_id,
            message.content@ == content@,
            message.replying_to is None,
            message.embeds@.len() == 0,
    {
        CreateMessage { channel_id, content: content.to_string(), replying_to: None, embeds: Vec::new() }
    }

    /// Sets the message to reply to.
    pub fn reply(self, message_id: u64) -> (message: Self)
        ensures
            message.channel_id == self.channel_id,
            message.content == self.content,
            message.replying_to == Some(message_id),
            message.embeds@ == self.embeds@,
    {
        let mut message = self;
        message.replying_to = Some(message_id);
        message
    }

    /// Adds an embed to the message, after those already added.
    pub fn embed(self, embed: twilight_model::channel::message::Embed) -> (message: Self)
        ensures
            message.channel_id == self.channel_id,
            message.content == self.content,
            message.replying_to == self.replying_to,
            message.embeds@ == self.embeds@.push(embed),
    {
        let mut message = self;
        message.embeds.push(embed);
        message
    }
}

} // verus!
